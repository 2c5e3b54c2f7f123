//! The vocabulary of startup: build modes, plugins, the phases a startup goes
//! through, the actions it asks for and the events it is told of, together
//! with the transition rules as mathematical functions.

use vstd::prelude::*;
use crate::title::title_text;

verus! {

/// The label under which the shell knows its main window.
pub const MAIN_WINDOW: &'static str = "main";

/// How the running program was built. It is settled once, before startup
/// begins, and decides whether the logging plugin is registered.
#[derive(Clone, Copy, Debug, PartialEq, Eq, Structural)]
pub enum BuildMode {
    /// Built for development, with diagnostics.
    Debug,
    /// Built for distribution.
    Release,
}

/// A capability that is registered with the shell during startup.
#[derive(Clone, Copy, Debug, PartialEq, Eq, Structural)]
pub enum Plugin {
    /// Control over the running process.
    Process,
    /// Native dialogs.
    Dialog,
    /// Self-update.
    Updater,
    /// Local SQL storage.
    Sql,
    /// Diagnostic logging; registered in debug builds only.
    Logging,
}

/// What the driver reports after it has carried out an action.
#[derive(Clone, Copy, Debug, PartialEq, Eq, Structural)]
pub enum Event {
    /// The action took effect: the plugin is registered, the window was
    /// found, the title is set.
    Done,
    /// The action was refused with an error.
    Failed,
    /// What the action was aimed at does not exist.
    Absent,
}

/// Where a startup stands. Every phase but the last two waits for the
/// outcome of one action.
#[derive(Clone, Copy, Debug, PartialEq, Eq, Structural)]
pub enum Phase {
    /// Waiting for the given plugin to be registered.
    Registering(Plugin),
    /// Waiting for the lookup of the main window.
    Locating,
    /// Waiting for the main window's title to be set.
    Titling,
    /// Startup went through; the shell's run loop has the control.
    Running,
    /// Startup was given up after an error.
    Aborted,
}

/// The part of startup that a phase belongs to. The shell is first
/// assembled, then set up once it exists, and then startup is over.
#[derive(Clone, Copy, Debug, PartialEq, Eq, Structural)]
pub enum Stage {
    /// The shell is being assembled: the capability plugins are attached.
    Assembling,
    /// The shell exists and is being set up: logging, then the main window.
    SettingUp,
    /// Startup is over, well or badly.
    Over,
}

/// What the driver is asked to do next.
#[derive(Debug, PartialEq, Eq)]
pub enum Action {
    /// Register this plugin with the shell.
    Register(Plugin),
    /// Look up the window with this label.
    FindWindow(&'static str),
    /// Give the window that was found this title.
    SetTitle(String),
    /// Hand control to the shell's run loop. Nothing follows.
    Run,
    /// Stop with a fatal error. Nothing follows.
    Abort,
}

/// An action as a mathematical value, with texts as sequences of characters.
pub enum ActionModel {
    Register(Plugin),
    FindWindow(Seq<char>),
    SetTitle(Seq<char>),
    Run,
    Abort,
}

impl View for Action {
    type V = ActionModel;

    open spec fn view(&self) -> ActionModel {
        match *self {
            Action::Register(plugin) => ActionModel::Register(plugin),
            Action::FindWindow(label) => ActionModel::FindWindow(label@),
            Action::SetTitle(title) => ActionModel::SetTitle(title@),
            Action::Run => ActionModel::Run,
            Action::Abort => ActionModel::Abort,
        }
    }
}

/// Whether builds of this mode register the logging plugin.
pub open spec fn registers_logging(mode: BuildMode) -> bool {
    mode is Debug
}

/// Whether `plugin` takes part in a startup of this mode.
pub open spec fn takes_part(mode: BuildMode, plugin: Plugin) -> bool {
    plugin is Logging ==> registers_logging(mode)
}

/// The plugin that is registered after `plugin`, if any is left.
pub open spec fn successor(mode: BuildMode, plugin: Plugin) -> Option<Plugin> {
    match plugin {
        Plugin::Process => Some(Plugin::Dialog),
        Plugin::Dialog => Some(Plugin::Updater),
        Plugin::Updater => Some(Plugin::Sql),
        Plugin::Sql => if registers_logging(mode) {
            Some(Plugin::Logging)
        } else {
            None
        },
        Plugin::Logging => None,
    }
}

/// The phase in which every startup begins.
pub open spec fn first_phase() -> Phase {
    Phase::Registering(Plugin::Process)
}

/// Whether nothing can follow `phase`.
pub open spec fn is_terminal(phase: Phase) -> bool {
    phase is Running || phase is Aborted
}

/// The stage that `phase` belongs to. The four capability plugins are
/// attached while the shell is assembled; the logging plugin, the window
/// lookup and the title belong to its setup.
pub open spec fn stage_of(phase: Phase) -> Stage {
    match phase {
        Phase::Registering(Plugin::Logging) => Stage::SettingUp,
        Phase::Registering(_) => Stage::Assembling,
        Phase::Locating => Stage::SettingUp,
        Phase::Titling => Stage::SettingUp,
        Phase::Running => Stage::Over,
        Phase::Aborted => Stage::Over,
    }
}

/// The transition rule: the phase that follows `phase` once `event` is
/// reported.
///
/// A registration that is done leads to the next plugin, or to the window
/// lookup after the last one. A window that is found gets its title; one
/// that is absent is passed over, which is no error. A title that is set
/// ends startup well. Every other report is fatal, and the two final phases
/// never change.
pub open spec fn next_phase(mode: BuildMode, phase: Phase, event: Event) -> Phase {
    match phase {
        Phase::Registering(plugin) => match event {
            Event::Done => match successor(mode, plugin) {
                Some(following) => Phase::Registering(following),
                None => Phase::Locating,
            },
            _ => Phase::Aborted,
        },
        Phase::Locating => match event {
            Event::Done => Phase::Titling,
            Event::Absent => Phase::Running,
            Event::Failed => Phase::Aborted,
        },
        Phase::Titling => match event {
            Event::Done => Phase::Running,
            _ => Phase::Aborted,
        },
        Phase::Running => Phase::Running,
        Phase::Aborted => Phase::Aborted,
    }
}

/// The phase that a startup is in after the driver has reported `events`,
/// one after the other, from the beginning.
pub open spec fn phase_after(mode: BuildMode, events: Seq<Event>) -> Phase
    decreases events.len(),
{
    if events.len() == 0 {
        first_phase()
    } else {
        next_phase(mode, phase_after(mode, events.drop_last()), events.last())
    }
}

/// The action that is due in `phase`, for an application of this version.
pub open spec fn directive(phase: Phase, version: Seq<char>) -> ActionModel {
    match phase {
        Phase::Registering(plugin) => ActionModel::Register(plugin),
        Phase::Locating => ActionModel::FindWindow(MAIN_WINDOW@),
        Phase::Titling => ActionModel::SetTitle(title_text(version)),
        Phase::Running => ActionModel::Run,
        Phase::Aborted => ActionModel::Abort,
    }
}

impl BuildMode {
    /// The build mode that goes with the compiler's debug switch.
    pub fn from_debug_flag(debug: bool) -> (mode: BuildMode)
        ensures
            mode == (if debug { BuildMode::Debug } else { BuildMode::Release }),
    {
        if debug {
            BuildMode::Debug
        } else {
            BuildMode::Release
        }
    }

    /// Whether builds of this mode register the logging plugin.
    pub fn registers_logging(&self) -> (answer: bool)
        ensures
            answer == registers_logging(*self),
    {
        match self {
            BuildMode::Debug => true,
            BuildMode::Release => false,
        }
    }
}

impl Plugin {
    /// The plugin that is registered after this one, if any is left.
    pub fn successor(&self, mode: BuildMode) -> (following: Option<Plugin>)
        ensures
            following == successor(mode, *self),
    {
        match self {
            Plugin::Process => Some(Plugin::Dialog),
            Plugin::Dialog => Some(Plugin::Updater),
            Plugin::Updater => Some(Plugin::Sql),
            Plugin::Sql => if mode.registers_logging() {
                Some(Plugin::Logging)
            } else {
                None
            },
            Plugin::Logging => None,
        }
    }
}

impl Phase {
    /// Whether nothing can follow this phase.
    pub fn is_terminal(&self) -> (answer: bool)
        ensures
            answer == is_terminal(*self),
    {
        match self {
            Phase::Running => true,
            Phase::Aborted => true,
            _ => false,
        }
    }

    /// The stage that this phase belongs to.
    pub fn stage(&self) -> (stage: Stage)
        ensures
            stage == stage_of(*self),
    {
        match self {
            Phase::Registering(Plugin::Logging) => Stage::SettingUp,
            Phase::Registering(_) => Stage::Assembling,
            Phase::Locating => Stage::SettingUp,
            Phase::Titling => Stage::SettingUp,
            Phase::Running => Stage::Over,
            Phase::Aborted => Stage::Over,
        }
    }

    /// The phase that follows this one once `event` is reported.
    pub fn next(&self, mode: BuildMode, event: Event) -> (following: Phase)
        ensures
            following == next_phase(mode, *self, event),
    {
        match self {
            Phase::Registering(plugin) => match event {
                Event::Done => match plugin.successor(mode) {
                    Some(following) => Phase::Registering(following),
                    None => Phase::Locating,
                },
                _ => Phase::Aborted,
            },
            Phase::Locating => match event {
                Event::Done => Phase::Titling,
                Event::Absent => Phase::Running,
                Event::Failed => Phase::Aborted,
            },
            Phase::Titling => match event {
                Event::Done => Phase::Running,
                _ => Phase::Aborted,
            },
            Phase::Running => Phase::Running,
            Phase::Aborted => Phase::Aborted,
        }
    }
}

} // verus!
