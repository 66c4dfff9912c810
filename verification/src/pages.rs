//! Page composition: what each route renders. A media page repeats one player
//! variant once per media identifier, in list order, pairing each identifier
//! (the stable list key) with its derived source URL; the landing page carries
//! the three navigation links; an unmatched route renders the fallback view
//! with a not-found marker.

use vstd::prelude::*;
use crate::ids::media_ids;
use crate::ids::spec_media_ids;
use crate::ids::lemma_media_ids_distinct;
use crate::lifecycle::PlayerKind;
use crate::routes::Route;
use crate::routes::match_route;
use crate::routes::route_of;
use crate::urls::download_url;
use crate::urls::lemma_download_url_injective;
use crate::urls::lemma_manifest_url_injective;
use crate::urls::lemma_urls_nonempty;
use crate::urls::manifest_url;
use crate::urls::spec_download_url;
use crate::urls::spec_manifest_url;

verus! {

/// The one error condition this system surfaces.
#[derive(Clone, Copy, PartialEq, Eq, Structural, Debug)]
pub enum AppError {
    NotFound,
}

/// One rendered player: the identifier that keys it in the list and the
/// source URL handed to its adapter.
pub struct PlayerUnit {
    pub id: String,
    pub url: String,
}

/// A rendered page.
pub enum PageView {
    /// The landing page: navigation links to the three media pages.
    Landing { links: Vec<String> },
    /// A media page: one player variant repeated once per identifier.
    Grid { kind: PlayerKind, players: Vec<PlayerUnit> },
    /// The error boundary's fallback view.
    Fallback { error: AppError },
}

/// Which URL template a player variant uses: the streaming players load an
/// HLS manifest, native playback a downloadable file.
pub open spec fn spec_source_url(kind: PlayerKind, id: Seq<char>) -> Seq<char> {
    match kind {
        PlayerKind::Native => spec_download_url(id),
        _ => spec_manifest_url(id),
    }
}

/// A correct media-page grid for `kind`: one player per identifier, in list
/// order, each keyed by its identifier and holding that identifier's URL.
pub open spec fn grid_ok(players: Seq<PlayerUnit>, kind: PlayerKind) -> bool {
    &&& players.len() == spec_media_ids().len()
    &&& forall|i: int|
        0 <= i < players.len() ==> (#[trigger] players[i]).id@ == spec_media_ids()[i]
    &&& forall|i: int|
        0 <= i < players.len() ==> (#[trigger] players[i]).url@ == spec_source_url(
            kind,
            spec_media_ids()[i],
        )
}

/// What each route renders.
pub open spec fn renders_route(v: PageView, r: Route) -> bool {
    match r {
        Route::Home => v matches PageView::Landing { links } && links@.len() == 3
            && links@[0]@ == "/vidjs"@ && links@[1]@ == "/native"@ && links@[2]@ == "/hls"@,
        Route::VidJs => v matches PageView::Grid { kind, players } && kind == PlayerKind::VideoUi
            && grid_ok(players@, PlayerKind::VideoUi),
        Route::Native => v matches PageView::Grid { kind, players } && kind == PlayerKind::Native
            && grid_ok(players@, PlayerKind::Native),
        Route::Hls => v matches PageView::Grid { kind, players } && kind == PlayerKind::Streaming
            && grid_ok(players@, PlayerKind::Streaming),
        Route::NotFound => v matches PageView::Fallback { error } && error == AppError::NotFound,
    }
}

/// Builds the player list of the media page that uses `kind`, one entry per
/// media identifier, in list order.
pub fn build_grid(kind: PlayerKind) -> (players: Vec<PlayerUnit>)
    ensures
        grid_ok(players@, kind),
{
    let ids = media_ids();
    let mut players: Vec<PlayerUnit> = Vec::new();
    let mut i: usize = 0;
    while i < ids.len()
        invariant
            i <= ids@.len(),
            ids@.len() == spec_media_ids().len(),
            forall|k: int| 0 <= k < ids@.len() ==> ids@[k]@ == spec_media_ids()[k],
            players@.len() == i,
            forall|k: int|
                0 <= k < i ==> (#[trigger] players@[k]).id@ == spec_media_ids()[k],
            forall|k: int|
                0 <= k < i ==> (#[trigger] players@[k]).url@ == spec_source_url(
                    kind,
                    spec_media_ids()[k],
                ),
        decreases ids@.len() - i,
    {
        let url = match kind {
            PlayerKind::Native => download_url(ids[i].as_str()),
            _ => manifest_url(ids[i].as_str()),
        };
        players.push(PlayerUnit { id: ids[i].clone(), url });
        i = i + 1;
    }
    players
}

/// Renders the page a request path names: the landing page at the root, one
/// media page per registered path, and the fallback view with a not-found
/// marker for every other path.
pub fn render_route(path: &str) -> (v: PageView)
    ensures
        renders_route(v, route_of(path@)),
{
    match match_route(path) {
        Route::Home => {
            let mut links: Vec<String> = Vec::new();
            links.push("/vidjs".to_owned());
            links.push("/native".to_owned());
            links.push("/hls".to_owned());
            PageView::Landing { links }
        },
        Route::VidJs => PageView::Grid {
            kind: PlayerKind::VideoUi,
            players: build_grid(PlayerKind::VideoUi),
        },
        Route::Native => PageView::Grid {
            kind: PlayerKind::Native,
            players: build_grid(PlayerKind::Native),
        },
        Route::Hls => PageView::Grid {
            kind: PlayerKind::Streaming,
            players: build_grid(PlayerKind::Streaming),
        },
        Route::NotFound => PageView::Fallback { error: AppError::NotFound },
    }
}

/// Grid distinctness law: a media page always shows exactly six players, and
/// every player's identifier and URL are non-empty and distinct from every
/// other player's on that page.
pub proof fn lemma_grid_players_distinct(players: Seq<PlayerUnit>, kind: PlayerKind)
    requires
        grid_ok(players, kind),
    ensures
        players.len() == 6,
        forall|i: int| 0 <= i < players.len() ==> (#[trigger] players[i]).id@.len() > 0,
        forall|i: int| 0 <= i < players.len() ==> (#[trigger] players[i]).url@.len() > 0,
        forall|i: int, j: int|
            0 <= i < j < players.len() ==> players[i].id@ != players[j].id@,
        forall|i: int, j: int|
            0 <= i < j < players.len() ==> players[i].url@ != players[j].url@,
{
    lemma_media_ids_distinct();
    assert forall|i: int| 0 <= i < players.len() implies (#[trigger] players[i]).url@.len()
        > 0 by {
        lemma_urls_nonempty(spec_media_ids()[i]);
    }
    assert forall|i: int, j: int| 0 <= i < j < players.len() implies players[i].url@
        != players[j].url@ by {
        if players[i].url@ == players[j].url@ {
            match kind {
                PlayerKind::Native => lemma_download_url_injective(
                    spec_media_ids()[i],
                    spec_media_ids()[j],
                ),
                _ => lemma_manifest_url_injective(spec_media_ids()[i], spec_media_ids()[j]),
            }
        }
    }
}

} // verus!
