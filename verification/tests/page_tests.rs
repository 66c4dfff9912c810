use player_grid::ids::media_ids;
use player_grid::pages::render_route;
use player_grid::pages::AppError;
use player_grid::pages::PageView;
use player_grid::pages::PlayerUnit;
use player_grid::lifecycle::PlayerKind;
use player_grid::urls::download_url;
use player_grid::urls::manifest_url;

fn expect_grid(v: PageView, expected: PlayerKind) -> Vec<PlayerUnit> {
    match v {
        PageView::Grid { kind, players } => {
            assert_eq!(kind, expected);
            players
        }
        _ => panic!("expected a player grid"),
    }
}

#[test]
fn landing_page_lists_the_three_media_pages() {
    match render_route("/") {
        PageView::Landing { links } => {
            assert_eq!(links, vec!["/vidjs", "/native", "/hls"]);
        }
        _ => panic!("expected the landing page"),
    }
}

#[test]
fn vidjs_page_renders_one_ui_player_per_id_in_order() {
    let players = expect_grid(render_route("/vidjs"), PlayerKind::VideoUi);
    let ids = media_ids();
    assert_eq!(players.len(), ids.len());
    for (p, id) in players.iter().zip(ids.iter()) {
        assert_eq!(&p.id, id);
        assert_eq!(p.url, manifest_url(id));
    }
}

#[test]
fn hls_page_renders_one_streaming_player_per_id_in_order() {
    let players = expect_grid(render_route("/hls"), PlayerKind::Streaming);
    let ids = media_ids();
    assert_eq!(players.len(), ids.len());
    for (p, id) in players.iter().zip(ids.iter()) {
        assert_eq!(&p.id, id);
        assert_eq!(p.url, manifest_url(id));
    }
}

#[test]
fn native_page_renders_one_native_player_per_id_in_order() {
    let players = expect_grid(render_route("/native"), PlayerKind::Native);
    let ids = media_ids();
    assert_eq!(players.len(), ids.len());
    for (p, id) in players.iter().zip(ids.iter()) {
        assert_eq!(&p.id, id);
        assert_eq!(p.url, download_url(id));
    }
}

#[test]
fn unmatched_route_renders_the_fallback_view() {
    match render_route("/does-not-exist") {
        PageView::Fallback { error } => assert_eq!(error, AppError::NotFound),
        _ => panic!("expected the fallback view"),
    }
}

#[test]
fn full_traversal_shows_eighteen_distinct_players() {
    let mut total: usize = 0;
    for path in ["/vidjs", "/native", "/hls"] {
        let players = match render_route(path) {
            PageView::Grid { players, .. } => players,
            _ => panic!("expected a player grid"),
        };
        assert_eq!(players.len(), 6);
        // Within one page every player is distinct and non-empty.
        for i in 0..players.len() {
            assert!(!players[i].url.is_empty());
            assert!(!players[i].id.is_empty());
            for j in (i + 1)..players.len() {
                assert_ne!(players[i].id, players[j].id);
                assert_ne!(players[i].url, players[j].url);
            }
        }
        total += players.len();
    }
    assert_eq!(total, 18);
}
