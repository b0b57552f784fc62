//! Tracks.

use vstd::prelude::*;

verus! {

/// One playable item: where to find it, and the name shown for it.
#[derive(Debug, PartialEq, Eq)]
pub struct Track {
    pub locator: String,
    pub name: String,
}

impl Track {
    /// Builds a track from its locator and its display name.
    pub fn new(locator: String, name: String) -> (t: Track)
        ensures
            t.locator == locator,
            t.name == name,
    {
        Track { locator, name }
    }
}

} // verus!
