use player_grid::routes::match_route;
use player_grid::routes::Route;

#[test]
fn root_paths_reach_the_landing_page() {
    assert_eq!(match_route(""), Route::Home);
    assert_eq!(match_route("/"), Route::Home);
}

#[test]
fn registered_paths_reach_their_pages() {
    assert_eq!(match_route("/vidjs"), Route::VidJs);
    assert_eq!(match_route("/native"), Route::Native);
    assert_eq!(match_route("/hls"), Route::Hls);
}

#[test]
fn unregistered_paths_are_not_found() {
    assert_eq!(match_route("/does-not-exist"), Route::NotFound);
    assert_eq!(match_route("/vidjs/"), Route::NotFound);
    assert_eq!(match_route("/VIDJS"), Route::NotFound);
    assert_eq!(match_route("vidjs"), Route::NotFound);
    assert_eq!(match_route("/hls2"), Route::NotFound);
}
