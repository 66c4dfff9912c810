//! The route table: four registered paths plus an implicit not-found state.
//! Navigation hands a path in; the matcher decides which page it names.

use vstd::prelude::*;

verus! {

/// One state per registered path, plus the implicit not-found state.
#[derive(Clone, Copy, PartialEq, Eq, Structural, Debug)]
pub enum Route {
    Home,
    VidJs,
    Native,
    Hls,
    NotFound,
}

/// Which route a request path names. The landing page is registered at the
/// root, which navigation may present as either the empty path or `/`.
pub open spec fn route_of(path: Seq<char>) -> Route {
    if path == ""@ || path == "/"@ {
        Route::Home
    } else if path == "/vidjs"@ {
        Route::VidJs
    } else if path == "/native"@ {
        Route::Native
    } else if path == "/hls"@ {
        Route::Hls
    } else {
        Route::NotFound
    }
}

/// Character-for-character equality of two string slices.
fn str_eq(a: &str, b: &str) -> (r: bool)
    ensures
        r == (a@ == b@),
{
    let x: String = a.to_owned();
    let y: String = b.to_owned();
    x == y
}

/// Maps a request path to its route; every unregistered path maps to
/// `Route::NotFound`.
pub fn match_route(path: &str) -> (r: Route)
    ensures
        r == route_of(path@),
{
    if str_eq(path, "") || str_eq(path, "/") {
        Route::Home
    } else if str_eq(path, "/vidjs") {
        Route::VidJs
    } else if str_eq(path, "/native") {
        Route::Native
    } else if str_eq(path, "/hls") {
        Route::Hls
    } else {
        Route::NotFound
    }
}

} // verus!
