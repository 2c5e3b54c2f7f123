//! The startup sequencer: the state of one startup, and the step that takes
//! it from one action to the next.
//!
//! The sequencer performs nothing itself. It names the action that is due;
//! a driver carries the action out and reports the outcome; the sequencer
//! then names the next action, until it says `Run` or `Abort`.

use vstd::prelude::*;
use crate::model::{
    Action, BuildMode, Event, Phase, Plugin, Stage, MAIN_WINDOW, directive, first_phase,
    is_terminal, next_phase, phase_after, stage_of,
};
use crate::title::format_title;

verus! {

/// One startup in progress.
///
/// A sequencer is made by `new` and moved forward by `step` only, so its
/// phase is always the one that the transition rule gives for the events
/// reported so far.
pub struct Sequencer {
    mode: BuildMode,
    version: String,
    phase: Phase,
    history: Ghost<Seq<Event>>,
}

impl Sequencer {
    #[verifier::type_invariant]
    spec fn on_track(self) -> bool {
        self.phase == phase_after(self.mode, self.history@)
    }

    /// The build mode this startup was begun with.
    pub closed spec fn spec_mode(&self) -> BuildMode {
        self.mode
    }

    /// The phase this startup is in.
    pub closed spec fn spec_phase(&self) -> Phase {
        self.phase
    }

    /// The application's version, as it was handed in.
    pub closed spec fn version_text(&self) -> Seq<char> {
        self.version@
    }

    /// The events reported so far, oldest first.
    pub closed spec fn history(&self) -> Seq<Event> {
        self.history@
    }

    /// Begins a startup for a build of `mode` and an application of
    /// `version`. Nothing has been reported yet, and the first plugin is
    /// waiting to be registered.
    pub fn new(mode: BuildMode, version: String) -> (fresh: Sequencer)
        ensures
            fresh.mode() == mode,
            fresh.version_text() == version@,
            fresh.history() == Seq::<Event>::empty(),
            fresh.phase() == first_phase(),
            fresh.phase() == phase_after(mode, fresh.history()),
    {
        Sequencer {
            mode,
            version,
            phase: Phase::Registering(Plugin::Process),
            history: Ghost(Seq::empty()),
        }
    }

    /// The build mode this startup was begun with.
    #[verifier::when_used_as_spec(spec_mode)]
    pub fn mode(&self) -> (mode: BuildMode)
        ensures
            mode == self.spec_mode(),
    {
        self.mode
    }

    /// The phase this startup is in: the one that the transition rule gives
    /// for the events reported so far.
    #[verifier::when_used_as_spec(spec_phase)]
    pub fn phase(&self) -> (phase: Phase)
        ensures
            phase == self.spec_phase(),
            phase == phase_after(self.spec_mode(), self.history()),
    {
        proof {
            use_type_invariant(self);
        }
        self.phase
    }

    /// The application's version, as it was handed in.
    pub fn version(&self) -> (version: &str)
        ensures
            version@ == self.version_text(),
    {
        self.version.as_str()
    }

    /// The stage of startup that the action due now belongs to.
    pub fn stage(&self) -> (stage: Stage)
        ensures
            stage == stage_of(self.phase()),
    {
        self.phase.stage()
    }

    /// Whether startup is over, well or badly.
    pub fn is_finished(&self) -> (answer: bool)
        ensures
            answer == is_terminal(self.phase()),
    {
        self.phase.is_terminal()
    }

    /// The action that is due now. Asking changes nothing.
    pub fn pending(&self) -> (action: Action)
        ensures
            action@ == directive(self.phase(), self.version_text()),
    {
        match self.phase {
            Phase::Registering(plugin) => Action::Register(plugin),
            Phase::Locating => Action::FindWindow(MAIN_WINDOW),
            Phase::Titling => Action::SetTitle(format_title(self.version.as_str())),
            Phase::Running => Action::Run,
            Phase::Aborted => Action::Abort,
        }
    }

    /// Takes in the outcome of the action that was due and gives the
    /// startup in its next phase, with the action that is due there.
    ///
    /// The build mode and the version stay as they are; the event joins the
    /// history; the phase moves as the transition rule says.
    pub fn step(self, event: Event) -> (moved: (Sequencer, Action))
        ensures
            moved.0.mode() == self.mode(),
            moved.0.version_text() == self.version_text(),
            moved.0.history() == self.history().push(event),
            moved.0.phase() == next_phase(self.mode(), self.phase(), event),
            moved.0.phase() == phase_after(self.mode(), self.history().push(event)),
            moved.1@ == directive(moved.0.phase(), self.version_text()),
    {
        let phase = self.phase.next(self.mode, event);
        let ghost history = self.history@.push(event);
        proof {
            use_type_invariant(&self);
            assert(history.drop_last() =~= self.history@);
        }
        let next = Sequencer {
            mode: self.mode,
            version: self.version,
            phase,
            history: Ghost(history),
        };
        let action = next.pending();
        (next, action)
    }
}

} // verus!
