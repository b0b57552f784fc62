//! Playback failures.

use vstd::prelude::*;

verus! {

/// Why a track could not be started.
#[derive(Clone, Copy, Debug, PartialEq, Eq, Structural)]
pub enum PlaybackError {
    /// No output device, or the device refused a new session.
    Device,
    /// The track could not be read or decoded.
    Decode,
}

impl PlaybackError {
    /// The failure in words, as characters.
    pub open spec fn text(self) -> Seq<char> {
        match self {
            PlaybackError::Device => "audio device unavailable"@,
            PlaybackError::Decode => "track could not be decoded"@,
        }
    }

    /// The failure in words.
    pub fn describe(self) -> (r: &'static str)
        ensures
            r@ == self.text(),
    {
        match self {
            PlaybackError::Device => "audio device unavailable",
            PlaybackError::Decode => "track could not be decoded",
        }
    }
}

} // verus!
