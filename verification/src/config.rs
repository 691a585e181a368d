//! Addresses that the synchronizer builds its links from.

use vstd::prelude::*;

verus! {

/// Where Apple Music lives on the web.
pub const APPLE_MUSIC_URL: &'static str = "https://music.apple.com";

/// The search interface of the iTunes catalogue.
pub const ITUNES_SEARCH_API_URL: &'static str = "https://itunes.apple.com/search";

} // verus!
