//! The player controller.
//!
//! The controller owns the catalog, the selection and the playback session.
//! Opening a device, decoding a file and driving a session are the caller's
//! work: the controller says what is to be done, takes the outcome, and keeps
//! at most one session handle at any time.
//!
//! The controller does not watch a session. When a track plays to its end the
//! state stays `Playing` until the next command; nothing advances by itself.

use vstd::prelude::*;
use crate::error::PlaybackError;
use crate::input::Command;
use crate::selection::next_of;
use crate::selection::previous_of;
use crate::selection::step_backward;
use crate::selection::step_forward;
use crate::selection::valid_selection;
use crate::state::PlaybackState;
use crate::track::Track;

verus! {

/// The session that the controller holds, with its handle.
enum Session<H> {
    Stopped,
    Playing(H),
    Paused(H),
}

/// What to do to a live session after a pause toggle.
#[derive(Clone, Copy, Debug, PartialEq, Eq, Structural)]
pub enum PauseAction {
    Pause,
    Resume,
}

/// The work that starts a track: stop and release the handle given back, if
/// any, then open the track at `index`, found at `locator`.
#[derive(Debug, PartialEq, Eq)]
pub struct PlayRequest<H> {
    pub index: usize,
    pub locator: String,
    pub released: Option<H>,
}

/// What is left to the caller when the outcome of a start has been recorded:
/// a handle that the controller still held and has given up, to be stopped
/// and released, and the failure to report, if the start failed.
#[derive(Debug, PartialEq, Eq)]
pub struct PlayReport<H> {
    pub displaced: Option<H>,
    pub result: Result<(), PlaybackError>,
}

/// What the caller has to do after a command.
#[derive(Debug, PartialEq, Eq)]
pub enum Action<H> {
    /// Leave the interaction loop.
    Quit,
    /// Nothing.
    Idle,
    /// Pause or resume the live session.
    Toggle(PauseAction),
    /// Start a track, then report the outcome.
    Start(PlayRequest<H>),
}

/// What the status line shows.
#[derive(Debug, PartialEq, Eq)]
pub enum Snapshot {
    NothingSelected,
    Selected { name: String, state: PlaybackState },
}

/// The marker in front of the selected row of the playlist.
pub open spec fn selected_marker() -> Seq<char> {
    "\u{25b6} "@
}

/// The marker in front of every other row of the playlist.
pub open spec fn plain_marker() -> Seq<char> {
    "  "@
}

impl Snapshot {
    /// The text of the status line.
    pub open spec fn status_text(self) -> Seq<char> {
        match self {
            Snapshot::NothingSelected => "No song selected"@,
            Snapshot::Selected { name, state } => "Now Playing: "@ + name@ + " ["@
                + state.label_text() + "]"@,
        }
    }

    /// Writes the status line: the track's name with the playback state in
    /// brackets, or a notice that nothing is selected.
    pub fn status_line(&self) -> (r: String)
        ensures
            r@ == self.status_text(),
    {
        match self {
            Snapshot::NothingSelected => "No song selected".to_owned(),
            Snapshot::Selected { name, state } => {
                let mut line = "Now Playing: ".to_owned();
                line.append(name.as_str());
                line.append(" [");
                line.append(state.label());
                line.append("]");
                line
            },
        }
    }
}

/// The player's state: the audio output that every session is bound to, the
/// catalog, the selection and the playback session.
pub struct Controller<O, H> {
    output: O,
    catalog: Vec<Track>,
    selection: Option<usize>,
    session: Session<H>,
}

impl<H> Session<H> {
    spec fn state(self) -> PlaybackState {
        match self {
            Session::Stopped => PlaybackState::Stopped,
            Session::Playing(_) => PlaybackState::Playing,
            Session::Paused(_) => PlaybackState::Paused,
        }
    }

    spec fn handle(self) -> Option<H> {
        match self {
            Session::Stopped => None,
            Session::Playing(h) => Some(h),
            Session::Paused(h) => Some(h),
        }
    }
}

impl<O, H> Controller<O, H> {
    #[verifier::type_invariant]
    spec fn selection_in_catalog(self) -> bool {
        valid_selection(self.selection, self.catalog@.len())
    }

    /// The audio output, opened once and handed in at construction.
    pub closed spec fn output(self) -> O {
        self.output
    }

    /// The catalog, in order.
    pub closed spec fn tracks(self) -> Seq<Track> {
        self.catalog@
    }

    /// The selection is absent or points into the catalog.
    pub open spec fn selection_valid(self) -> bool {
        valid_selection(self.selected(), self.tracks().len())
    }

    /// Output and catalog are those of `before`, and the selection is valid.
    pub open spec fn same_setup(self, before: Self) -> bool {
        &&& self.output() == before.output()
        &&& self.tracks() == before.tracks()
        &&& self.selection_valid()
    }

    /// The index of the selected track, if one is selected.
    pub closed spec fn selected(self) -> Option<usize> {
        self.selection
    }

    /// The playback state.
    pub closed spec fn state(self) -> PlaybackState {
        self.session.state()
    }

    /// The handle of the live session, if there is one.
    pub closed spec fn handle(self) -> Option<H> {
        self.session.handle()
    }

    /// The number of session handles that the controller holds.
    pub open spec fn live_handles(self) -> nat {
        if self.handle() is Some {
            1
        } else {
            0
        }
    }

    /// The request for a start of the track at `index`, which hands out the
    /// handle that is held.
    pub open spec fn request_for(self, index: usize) -> PlayRequest<H> {
        PlayRequest {
            index,
            locator: self.tracks()[index as int].locator,
            released: self.handle(),
        }
    }

    /// What opening a start does: with nothing selected, nothing; otherwise
    /// the controller stops, gives up the handle it held, and `r` names the
    /// selected track.
    pub open spec fn start_opened(before: Self, after: Self, r: Option<PlayRequest<H>>) -> bool {
        match before.selected() {
            None => {
                &&& r is None
                &&& after.state() == before.state()
                &&& after.handle() == before.handle()
            },
            Some(i) => {
                &&& i < before.tracks().len()
                &&& r == Some(before.request_for(i))
                &&& after.state() == PlaybackState::Stopped
                &&& after.handle() is None
            },
        }
    }

    /// What recording an outcome does: a new handle is the one live handle and
    /// the state is `Playing`; after a failure no handle is live, the state is
    /// `Stopped`, and `r` is the failure.
    pub open spec fn start_finished(
        after: Self,
        outcome: Result<H, PlaybackError>,
        r: Result<(), PlaybackError>,
    ) -> bool {
        match outcome {
            Ok(h) => {
                &&& r is Ok
                &&& after.state() == PlaybackState::Playing
                &&& after.handle() == Some(h)
                &&& after.live_handles() == 1
            },
            Err(e) => {
                &&& r == Err::<(), PlaybackError>(e)
                &&& after.state() == PlaybackState::Stopped
                &&& after.handle() is None
                &&& after.live_handles() == 0
            },
        }
    }

    /// What a command that plays does: the selection becomes `target`; with
    /// no target the caller has nothing to do and playback is as before;
    /// otherwise the controller stops, gives up the handle it held, and asks
    /// for a start of the target track.
    pub open spec fn moved_and_opened(
        before: Self,
        after: Self,
        target: Option<usize>,
        r: Action<H>,
    ) -> bool {
        &&& after.selected() == target
        &&& match target {
            None => {
                &&& r is Idle
                &&& after.state() == before.state()
                &&& after.handle() == before.handle()
            },
            Some(i) => {
                &&& i < before.tracks().len()
                &&& r == Action::Start(before.request_for(i))
                &&& after.state() == PlaybackState::Stopped
                &&& after.handle() is None
            },
        }
    }

    /// The action that a pause toggle asks for in a given state.
    pub open spec fn toggle_action(state: PlaybackState) -> Option<PauseAction> {
        match state {
            PlaybackState::Stopped => None,
            PlaybackState::Playing => Some(PauseAction::Pause),
            PlaybackState::Paused => Some(PauseAction::Resume),
        }
    }

    /// A session handle is held exactly when the state is not `Stopped`.
    pub proof fn lemma_handle_iff_not_stopped(self)
        ensures
            self.handle() is Some <==> self.state().has_session(),
            self.live_handles() <= 1,
    {
    }

    /// A controller over `catalog` with nothing selected and nothing playing,
    /// which keeps `output` for its whole life.
    pub fn new(output: O, catalog: Vec<Track>) -> (c: Self)
        ensures
            c.output() == output,
            c.tracks() == catalog@,
            c.selected() is None,
            c.selection_valid(),
            c.state() == PlaybackState::Stopped,
            c.handle() is None,
    {
        Controller { output, catalog, selection: None, session: Session::Stopped }
    }

    /// The audio output, to bind a new session to.
    pub fn audio_output(&self) -> (r: &O)
        ensures
            *r == self.output(),
    {
        &self.output
    }

    /// The number of tracks in the catalog.
    pub fn len(&self) -> (n: usize)
        ensures
            n == self.tracks().len(),
    {
        self.catalog.len()
    }

    /// The track at `index`, if the catalog reaches that far.
    pub fn track(&self, index: usize) -> (r: Option<&Track>)
        ensures
            index < self.tracks().len() ==> r == Some(&self.tracks()[index as int]),
            index >= self.tracks().len() ==> r is None,
    {
        if index < self.catalog.len() {
            Some(&self.catalog[index])
        } else {
            None
        }
    }

    /// The index of the selected track; it always lies in the catalog.
    pub fn selection(&self) -> (r: Option<usize>)
        ensures
            r == self.selected(),
            r matches Some(i) ==> i < self.tracks().len(),
    {
        proof {
            use_type_invariant(self);
        }
        self.selection
    }

    /// The playback state.
    pub fn playback_state(&self) -> (r: PlaybackState)
        ensures
            r == self.state(),
            r.has_session() <==> self.handle() is Some,
    {
        match &self.session {
            Session::Stopped => PlaybackState::Stopped,
            Session::Playing(_) => PlaybackState::Playing,
            Session::Paused(_) => PlaybackState::Paused,
        }
    }

    /// The handle of the live session, to pause or resume it.
    pub fn session_handle(&self) -> (r: Option<&H>)
        ensures
            match r {
                Some(h) => self.handle() == Some(*h),
                None => self.handle() is None,
            },
    {
        match &self.session {
            Session::Stopped => None,
            Session::Playing(h) => Some(h),
            Session::Paused(h) => Some(h),
        }
    }

    /// Selects the first track if nothing is selected and the catalog is not
    /// empty. Playback is not touched.
    pub fn select_first(&mut self)
        ensures
            final(self).same_setup(*old(self)),
            final(self).state() == old(self).state(),
            final(self).handle() == old(self).handle(),
            final(self).selected() == if old(self).selected() is None && old(self).tracks().len()
                > 0 {
                Some(0usize)
            } else {
                old(self).selected()
            },
    {
        proof {
            use_type_invariant(&*self);
        }
        if self.catalog.len() > 0 && self.selection.is_none() {
            self.selection = Some(0);
        }
    }

    /// Moves the selection one track forward, wrapping after the last. With
    /// nothing selected the first track is selected; on an empty catalog
    /// nothing is. Playback is not touched.
    pub fn next(&mut self)
        ensures
            final(self).same_setup(*old(self)),
            final(self).state() == old(self).state(),
            final(self).handle() == old(self).handle(),
            final(self).selected() == next_of(
                old(self).selected(),
                old(self).tracks().len(),
            ),
            old(self).tracks().len() == 0 ==> final(self).selected() is None,
    {
        proof {
            use_type_invariant(&*self);
        }
        self.selection = step_forward(self.selection, self.catalog.len());
    }

    /// Moves the selection one track backward, wrapping before the first.
    /// With nothing selected the first track is selected; on an empty catalog
    /// nothing is. Playback is not touched.
    pub fn previous(&mut self)
        ensures
            final(self).same_setup(*old(self)),
            final(self).state() == old(self).state(),
            final(self).handle() == old(self).handle(),
            final(self).selected() == previous_of(
                old(self).selected(),
                old(self).tracks().len(),
            ),
            old(self).tracks().len() == 0 ==> final(self).selected() is None,
    {
        proof {
            use_type_invariant(&*self);
        }
        self.selection = step_backward(self.selection, self.catalog.len());
    }

    /// The action that an opened start leaves to the caller.
    fn action_for(request: Option<PlayRequest<H>>) -> (r: Action<H>)
        ensures
            r == match request {
                Some(req) => Action::Start(req),
                None => Action::Idle,
            },
    {
        match request {
            Some(req) => Action::Start(req),
            None => Action::Idle,
        }
    }

    /// Gives up the session handle, if one is held, and stops.
    pub fn release(&mut self) -> (r: Option<H>)
        ensures
            r == old(self).handle(),
            final(self).same_setup(*old(self)),
            final(self).selected() == old(self).selected(),
            final(self).state() == PlaybackState::Stopped,
            final(self).handle() is None,
    {
        proof {
            use_type_invariant(&*self);
        }
        let mut held = Session::Stopped;
        std::mem::swap(&mut self.session, &mut held);
        match held {
            Session::Stopped => None,
            Session::Playing(h) => Some(h),
            Session::Paused(h) => Some(h),
        }
    }

    /// Opens a start of the selected track. With nothing selected nothing
    /// happens. Otherwise the controller stops, gives up the handle it held,
    /// and says which track to open.
    pub fn begin_play(&mut self) -> (r: Option<PlayRequest<H>>)
        ensures
            final(self).same_setup(*old(self)),
            final(self).selected() == old(self).selected(),
            Self::start_opened(*old(self), *final(self), r),
    {
        proof {
            use_type_invariant(&*self);
        }
        match self.selection {
            None => None,
            Some(i) => {
                let locator = self.catalog[i].locator.clone();
                let released = self.release();
                Some(PlayRequest { index: i, locator, released })
            },
        }
    }

    /// Records how a start went. A new handle is kept and the state becomes
    /// `Playing`; after a failure the state is `Stopped` and no handle is
    /// kept. A handle that was still held is given up either way.
    pub fn finish_play(&mut self, outcome: Result<H, PlaybackError>) -> (r: PlayReport<H>)
        ensures
            final(self).same_setup(*old(self)),
            final(self).selected() == old(self).selected(),
            r.displaced == old(self).handle(),
            Self::start_finished(*final(self), outcome, r.result),
    {
        proof {
            use_type_invariant(&*self);
        }
        let displaced = self.release();
        match outcome {
            Ok(h) => {
                self.session = Session::Playing(h);
                PlayReport { displaced, result: Ok(()) }
            },
            Err(e) => PlayReport { displaced, result: Err(e) },
        }
    }

    /// Plays the selected track. With nothing selected nothing happens and
    /// `open` is not called. Otherwise the controller first stops and gives
    /// up the handle it held, inside the request that it calls `open` with,
    /// beside the audio output; `open` releases that handle, opens the track
    /// on the output and answers with the new session's handle or with the
    /// failure. The controller then holds the new handle and is `Playing`, or
    /// holds none, is `Stopped`, and returns the failure.
    pub fn play<F>(&mut self, open: F) -> (r: Result<(), PlaybackError>) where
        F: FnOnce(&O, PlayRequest<H>) -> Result<H, PlaybackError>,

        requires
            old(self).selected() matches Some(i) ==> call_requires(
                open,
                (&old(self).output(), old(self).request_for(i)),
            ),
        ensures
            final(self).same_setup(*old(self)),
            final(self).selected() == old(self).selected(),
            match old(self).selected() {
                None => {
                    &&& r is Ok
                    &&& final(self).state() == old(self).state()
                    &&& final(self).handle() == old(self).handle()
                },
                Some(i) => exists|outcome: Result<H, PlaybackError>|
                    {
                        &&& #[trigger] call_ensures(
                            open,
                            (&old(self).output(), old(self).request_for(i)),
                            outcome,
                        )
                        &&& Self::start_finished(*final(self), outcome, r)
                    },
            },
    {
        match self.begin_play() {
            None => Ok(()),
            Some(request) => {
                let outcome = open(&self.output, request);
                let report = self.finish_play(outcome);
                report.result
            },
        }
    }

    /// Flips between `Playing` and `Paused` and says what to do to the
    /// session. With no session nothing happens. The handle stays the same.
    pub fn toggle_pause(&mut self) -> (r: Option<PauseAction>)
        ensures
            final(self).same_setup(*old(self)),
            final(self).selected() == old(self).selected(),
            final(self).handle() == old(self).handle(),
            final(self).state() == old(self).state().toggled(),
            r == Self::toggle_action(old(self).state()),
    {
        proof {
            use_type_invariant(&*self);
        }
        let mut held = Session::Stopped;
        std::mem::swap(&mut self.session, &mut held);
        match held {
            Session::Stopped => None,
            Session::Playing(h) => {
                self.session = Session::Paused(h);
                Some(PauseAction::Pause)
            },
            Session::Paused(h) => {
                self.session = Session::Playing(h);
                Some(PauseAction::Resume)
            },
        }
    }

    /// Whether the track at `index` is the selected one.
    pub fn is_selected(&self, index: usize) -> (r: bool)
        ensures
            r == (self.selected() == Some(index)),
    {
        match self.selection {
            None => false,
            Some(i) => i == index,
        }
    }

    /// The playlist row of the track at `index`: a marker, which tells the
    /// selected track from the others, and the track's name. `None` beyond
    /// the end of the catalog.
    pub fn row_text(&self, index: usize) -> (r: Option<String>)
        ensures
            index >= self.tracks().len() ==> r is None,
            index < self.tracks().len() ==> r is Some && r.unwrap()@ == (if self.selected()
                == Some(index) {
                selected_marker()
            } else {
                plain_marker()
            }) + self.tracks()[index as int].name@,
    {
        if index < self.catalog.len() {
            let mut row = if self.is_selected(index) {
                "\u{25b6} ".to_owned()
            } else {
                "  ".to_owned()
            };
            row.append(self.catalog[index].name.as_str());
            Some(row)
        } else {
            None
        }
    }

    /// Carries out a command and says what is left to the caller. Quitting
    /// changes nothing. A pause toggle flips the state of a live session.
    /// Advancing and retreating move the selection and then open a start of
    /// the selected track, as confirming does without moving.
    pub fn apply(&mut self, command: Command) -> (r: Action<H>)
        ensures
            final(self).same_setup(*old(self)),
            match command {
                Command::Quit => r is Quit && *final(self) == *old(self),
                Command::TogglePause => {
                    &&& final(self).selected() == old(self).selected()
                    &&& final(self).handle() == old(self).handle()
                    &&& final(self).state() == old(self).state().toggled()
                    &&& match Self::toggle_action(old(self).state()) {
                        Some(a) => r == Action::<H>::Toggle(a),
                        None => r is Idle,
                    }
                },
                Command::Advance => Self::moved_and_opened(
                    *old(self),
                    *final(self),
                    next_of(old(self).selected(), old(self).tracks().len()),
                    r,
                ),
                Command::Retreat => Self::moved_and_opened(
                    *old(self),
                    *final(self),
                    previous_of(old(self).selected(), old(self).tracks().len()),
                    r,
                ),
                Command::Confirm => Self::moved_and_opened(
                    *old(self),
                    *final(self),
                    old(self).selected(),
                    r,
                ),
            },
    {
        proof {
            use_type_invariant(&*self);
        }
        match command {
            Command::Quit => Action::Quit,
            Command::TogglePause => match self.toggle_pause() {
                Some(a) => Action::Toggle(a),
                None => Action::Idle,
            },
            Command::Advance => {
                self.next();
                Self::action_for(self.begin_play())
            },
            Command::Retreat => {
                self.previous();
                Self::action_for(self.begin_play())
            },
            Command::Confirm => Self::action_for(self.begin_play()),
        }
    }

    /// What the status line shows: the selected track's name with the
    /// playback state, or that nothing is selected.
    pub fn now_playing_snapshot(&self) -> (r: Snapshot)
        ensures
            match self.selected() {
                None => r is NothingSelected,
                Some(i) => i < self.tracks().len() && r == (Snapshot::Selected {
                    name: self.tracks()[i as int].name,
                    state: self.state(),
                }),
            },
    {
        proof {
            use_type_invariant(self);
        }
        match self.selection {
            None => Snapshot::NothingSelected,
            Some(i) => Snapshot::Selected {
                name: self.catalog[i].name.clone(),
                state: self.playback_state(),
            },
        }
    }
}

} // verus!
