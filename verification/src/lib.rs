//! Core logic of a multi-page looping-video demo: the fixed media identifier
//! list, the source-URL templates, the route table, the page composition, and
//! the mount/unmount lifecycle of a player bound to one media element.
//!
//! The browser-facing shell (DOM rendering, the actual vendor player calls)
//! sits outside this crate and consults these functions for every decision.

pub mod ids;
pub mod lifecycle;
pub mod pages;
pub mod routes;
pub mod urls;
