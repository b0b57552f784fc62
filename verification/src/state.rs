//! The playback state of the controller.

use vstd::prelude::*;

verus! {

/// Whether the controller holds a playback session, and if so whether that
/// session is running or suspended.
#[derive(Clone, Copy, Debug, PartialEq, Eq, Structural)]
pub enum PlaybackState {
    Stopped,
    Playing,
    Paused,
}

impl PlaybackState {
    /// The state after a pause toggle: `Playing` and `Paused` swap, `Stopped`
    /// stays.
    pub open spec fn toggled(self) -> PlaybackState {
        match self {
            PlaybackState::Stopped => PlaybackState::Stopped,
            PlaybackState::Playing => PlaybackState::Paused,
            PlaybackState::Paused => PlaybackState::Playing,
        }
    }

    /// Whether a playback session exists in this state.
    pub open spec fn has_session(self) -> bool {
        self != PlaybackState::Stopped
    }

    /// Toggling twice gives the state back.
    pub proof fn lemma_toggle_twice(self)
        ensures
            self.toggled().toggled() == self,
    {
    }

    /// The word shown for this state, as characters.
    pub open spec fn label_text(self) -> Seq<char> {
        match self {
            PlaybackState::Stopped => "Stopped"@,
            PlaybackState::Playing => "Playing"@,
            PlaybackState::Paused => "Paused"@,
        }
    }

    /// The word shown for this state.
    pub fn label(self) -> (r: &'static str)
        ensures
            r@ == self.label_text(),
    {
        match self {
            PlaybackState::Stopped => "Stopped",
            PlaybackState::Playing => "Playing",
            PlaybackState::Paused => "Paused",
        }
    }

    /// Returns the state after a pause toggle.
    pub fn toggle(self) -> (r: PlaybackState)
        ensures
            r == self.toggled(),
    {
        match self {
            PlaybackState::Stopped => PlaybackState::Stopped,
            PlaybackState::Playing => PlaybackState::Paused,
            PlaybackState::Paused => PlaybackState::Playing,
        }
    }
}

} // verus!
