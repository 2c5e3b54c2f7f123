//! What holds of every startup, whatever the driver reports.
//!
//! A run is the sequence of events reported from the beginning; the phase
//! after a run is `phase_after`. Each point of a run is a run too (a prefix
//! of it), so a statement about every run speaks of every moment of every
//! startup.

use vstd::prelude::*;
use crate::model::{
    ActionModel, BuildMode, Event, Phase, Plugin, Stage, directive, is_terminal, next_phase,
    phase_after, registers_logging, stage_of, takes_part,
};
use crate::title::title_text;

verus! {

/// Whether every event of the run reports success.
pub open spec fn all_done(events: Seq<Event>) -> bool {
    forall|i: int| 0 <= i < events.len() ==> events[i] == Event::Done
}

/// The place of a plugin in the order of registration, from zero.
pub open spec fn position(plugin: Plugin) -> nat {
    match plugin {
        Plugin::Process => 0,
        Plugin::Dialog => 1,
        Plugin::Updater => 2,
        Plugin::Sql => 3,
        Plugin::Logging => 4,
    }
}

/// How many plugins a startup of this mode registers.
pub open spec fn registrations(mode: BuildMode) -> nat {
    if registers_logging(mode) {
        5
    } else {
        4
    }
}

/// How far a phase is into startup: the registrations in their order, then
/// the window lookup, then the title, then the two final phases.
pub open spec fn progress(phase: Phase) -> nat {
    match phase {
        Phase::Registering(plugin) => position(plugin),
        Phase::Locating => 5,
        Phase::Titling => 6,
        Phase::Running => 7,
        Phase::Aborted => 7,
    }
}

/// The stages in their order.
pub open spec fn stage_rank(stage: Stage) -> nat {
    match stage {
        Stage::Assembling => 0,
        Stage::SettingUp => 1,
        Stage::Over => 2,
    }
}

/// How often the driver has been asked to register `plugin` by the time it
/// has reported `events`: the number of points of the run, its beginning and
/// its end included, at which that registration was the action due.
pub open spec fn attempts(mode: BuildMode, events: Seq<Event>, plugin: Plugin) -> nat
    decreases events.len(),
{
    let now: nat = if phase_after(mode, events) == Phase::Registering(plugin) {
        1
    } else {
        0
    };
    if events.len() == 0 {
        now
    } else {
        attempts(mode, events.drop_last(), plugin) + now
    }
}

/// One more event moves the run by one transition.
pub proof fn lemma_phase_after_push(mode: BuildMode, events: Seq<Event>, event: Event)
    ensures
        phase_after(mode, events.push(event)) == next_phase(
            mode,
            phase_after(mode, events),
            event,
        ),
{
    assert(events.push(event).drop_last() =~= events);
}

/// The registration of a plugin is due at exactly one point: when the
/// plugin takes part in a startup of this mode, as many events have been
/// reported as plugins come before it, and all of them report success.
pub proof fn lemma_registering_exactly_when(mode: BuildMode, events: Seq<Event>, plugin: Plugin)
    ensures
        phase_after(mode, events) == Phase::Registering(plugin) <==> (takes_part(mode, plugin)
            && events.len() == position(plugin) && all_done(events)),
    decreases events.len(),
{
    if events.len() > 0 {
        let earlier = events.drop_last();
        lemma_registering_exactly_when(mode, earlier, Plugin::Process);
        lemma_registering_exactly_when(mode, earlier, Plugin::Dialog);
        lemma_registering_exactly_when(mode, earlier, Plugin::Updater);
        lemma_registering_exactly_when(mode, earlier, Plugin::Sql);
        lemma_registering_exactly_when(mode, earlier, Plugin::Logging);
        lemma_all_done_split(events);
    }
}

/// A run reports success throughout exactly when it does so up to its last
/// event and in its last event.
pub proof fn lemma_all_done_split(events: Seq<Event>)
    requires
        events.len() > 0,
    ensures
        all_done(events) <==> (all_done(events.drop_last()) && events.last() == Event::Done),
{
    let earlier = events.drop_last();
    if all_done(events) {
        assert forall|i: int| 0 <= i < earlier.len() implies earlier[i] == Event::Done by {
            assert(earlier[i] == events[i]);
        }
    }
    if all_done(earlier) && events.last() == Event::Done {
        assert forall|i: int| 0 <= i < events.len() implies events[i] == Event::Done by {
            if i < earlier.len() {
                assert(earlier[i] == events[i]);
            }
        }
    }
}

/// The window lookup is due at exactly one point: when every plugin of the
/// build mode has been registered with success and nothing else has been
/// reported.
pub proof fn lemma_locating_exactly_when(mode: BuildMode, events: Seq<Event>)
    ensures
        phase_after(mode, events) == Phase::Locating <==> (events.len() == registrations(mode)
            && all_done(events)),
{
    if events.len() > 0 {
        let earlier = events.drop_last();
        lemma_registering_exactly_when(mode, earlier, Plugin::Process);
        lemma_registering_exactly_when(mode, earlier, Plugin::Dialog);
        lemma_registering_exactly_when(mode, earlier, Plugin::Updater);
        lemma_registering_exactly_when(mode, earlier, Plugin::Sql);
        lemma_registering_exactly_when(mode, earlier, Plugin::Logging);
        lemma_all_done_split(events);
    }
}

/// The title is due at exactly one point: directly after the window lookup
/// has reported that the window exists.
pub proof fn lemma_titling_exactly_when(mode: BuildMode, events: Seq<Event>)
    ensures
        phase_after(mode, events) == Phase::Titling <==> (events.len() == registrations(mode) + 1
            && all_done(events)),
        phase_after(mode, events) == Phase::Titling <==> (events.len() > 0 && phase_after(
            mode,
            events.drop_last(),
        ) == Phase::Locating && events.last() == Event::Done),
{
    if events.len() > 0 {
        lemma_locating_exactly_when(mode, events.drop_last());
        lemma_all_done_split(events);
    }
}

/// How often a plugin's registration is asked for. It is asked for once if
/// the plugin takes part in a startup of this mode and every registration
/// before it has succeeded, and never otherwise; it is never asked for
/// twice.
pub proof fn lemma_attempts_counted(mode: BuildMode, events: Seq<Event>, plugin: Plugin)
    ensures
        attempts(mode, events, plugin) == (if takes_part(mode, plugin) && events.len()
            >= position(plugin) && all_done(events.take(position(plugin) as int)) {
            1nat
        } else {
            0nat
        }),
    decreases events.len(),
{
    let place = position(plugin) as int;
    lemma_registering_exactly_when(mode, events, plugin);
    if events.len() == place {
        assert(events.take(place) =~= events);
    }
    if events.len() > 0 {
        let earlier = events.drop_last();
        lemma_attempts_counted(mode, earlier, plugin);
        if earlier.len() >= place {
            assert(earlier.take(place) =~= events.take(place));
        }
    }
}

/// The logging plugin and the build mode. In a release build its
/// registration is never asked for. In a debug build it is asked for once,
/// as soon as the four capability plugins are registered, and not again.
pub proof fn lemma_logging_follows_build_mode(events: Seq<Event>)
    ensures
        attempts(BuildMode::Release, events, Plugin::Logging) == 0,
        attempts(BuildMode::Debug, events, Plugin::Logging) <= 1,
        attempts(BuildMode::Debug, events, Plugin::Logging) == 1 <==> (events.len() >= 4
            && all_done(events.take(4))),
{
    lemma_attempts_counted(BuildMode::Release, events, Plugin::Logging);
    lemma_attempts_counted(BuildMode::Debug, events, Plugin::Logging);
}

/// Logging comes before any other step of setup: when its registration is
/// due, neither the window lookup nor the title has been asked for at any
/// earlier point, and in a debug build the lookup is never due before the
/// logging plugin is registered.
pub proof fn lemma_logging_comes_first(mode: BuildMode, events: Seq<Event>, upto: int)
    requires
        0 <= upto <= events.len(),
    ensures
        phase_after(mode, events) == Phase::Registering(Plugin::Logging) ==> phase_after(
            mode,
            events.take(upto),
        ) is Registering,
        (registers_logging(mode) && (phase_after(mode, events) is Locating || phase_after(
            mode,
            events,
        ) is Titling)) ==> events.len() > 4 && phase_after(mode, events.take(4))
            == Phase::Registering(Plugin::Logging) && events[4] == Event::Done,
{
    let part = events.take(upto);
    lemma_registering_exactly_when(mode, events, Plugin::Logging);
    lemma_locating_exactly_when(mode, events);
    lemma_titling_exactly_when(mode, events);
    if all_done(events) {
        assert forall|i: int| 0 <= i < part.len() implies part[i] == Event::Done by {
            assert(part[i] == events[i]);
        }
        if events.len() > 4 {
            let four = events.take(4);
            assert forall|i: int| 0 <= i < four.len() implies four[i] == Event::Done by {
                assert(four[i] == events[i]);
            }
            lemma_registering_exactly_when(mode, four, Plugin::Logging);
        }
    }
    lemma_registering_exactly_when(mode, part, Plugin::Process);
    lemma_registering_exactly_when(mode, part, Plugin::Dialog);
    lemma_registering_exactly_when(mode, part, Plugin::Updater);
    lemma_registering_exactly_when(mode, part, Plugin::Sql);
    lemma_registering_exactly_when(mode, part, Plugin::Logging);
}

/// Startup never goes back. Every report takes a phase that is not final
/// to a later one, so between an earlier point of a run and a later one the
/// progress grows by at least the number of reports, until a final phase is
/// reached; no phase that asks for a step is visited twice.
pub proof fn lemma_no_going_back(mode: BuildMode, events: Seq<Event>, upto: int)
    requires
        0 <= upto <= events.len(),
    ensures
        progress(phase_after(mode, events.take(upto))) <= progress(phase_after(mode, events)),
        is_terminal(phase_after(mode, events)) || progress(phase_after(mode, events.take(upto)))
            + (events.len() - upto) <= progress(phase_after(mode, events)),
        is_terminal(phase_after(mode, events.take(upto))) ==> phase_after(mode, events)
            == phase_after(mode, events.take(upto)),
    decreases events.len(),
{
    if upto == events.len() {
        assert(events.take(upto) =~= events);
    } else {
        let earlier = events.drop_last();
        lemma_no_going_back(mode, earlier, upto);
        assert(earlier.take(upto) =~= events.take(upto));
    }
}

/// The stages come in their order: the shell is assembled before it is set
/// up, and startup is over only after that. No plugin is attached once
/// setup has begun, and nothing at all happens once startup is over.
pub proof fn lemma_stages_in_order(mode: BuildMode, events: Seq<Event>, upto: int)
    requires
        0 <= upto <= events.len(),
    ensures
        stage_rank(stage_of(phase_after(mode, events.take(upto)))) <= stage_rank(
            stage_of(phase_after(mode, events)),
        ),
{
    lemma_no_going_back(mode, events, upto);
}

/// Whether `event`, reported in `phase`, is an error: a report of failure
/// anywhere, or a report of absence anywhere but at the window lookup.
pub open spec fn is_error(phase: Phase, event: Event) -> bool {
    !is_terminal(phase) && (event is Failed || (event is Absent && !(phase is Locating)))
}

/// The two final phases are final: once a run has reached one, nothing that
/// is reported afterwards changes the phase, so no further step is asked
/// for.
pub proof fn lemma_final_phases_stay(mode: BuildMode, events: Seq<Event>, more: Seq<Event>)
    requires
        is_terminal(phase_after(mode, events)),
    ensures
        phase_after(mode, events + more) == phase_after(mode, events),
    decreases more.len(),
{
    if more.len() == 0 {
        assert(events + more =~= events);
    } else {
        lemma_final_phases_stay(mode, events, more.drop_last());
        assert((events + more).drop_last() =~= events + more.drop_last());
        assert((events + more).last() == more.last());
    }
}

/// An error ends startup for good. If the run so far is followed by an
/// error, startup is aborted, and it stays aborted whatever is reported
/// next: the only thing ever asked for after an error is to abort. In
/// particular a plugin registration that fails is followed by no
/// registration, no window lookup and no title.
pub proof fn lemma_error_is_fatal(
    mode: BuildMode,
    version: Seq<char>,
    events: Seq<Event>,
    event: Event,
    more: Seq<Event>,
)
    requires
        is_error(phase_after(mode, events), event),
    ensures
        phase_after(mode, events.push(event) + more) == Phase::Aborted,
        directive(phase_after(mode, events.push(event) + more), version) == ActionModel::Abort,
{
    lemma_phase_after_push(mode, events, event);
    lemma_final_phases_stay(mode, events.push(event), more);
}

/// A startup is aborted only by an error: a run ends in the aborted phase
/// exactly when one of its events was an error at its point of the run.
pub proof fn lemma_aborted_only_by_error(mode: BuildMode, events: Seq<Event>)
    ensures
        phase_after(mode, events) == Phase::Aborted <==> exists|i: int|
            0 <= i < events.len() && is_error(
                #[trigger] phase_after(mode, events.take(i)),
                events[i],
            ),
    decreases events.len(),
{
    if events.len() > 0 {
        let earlier = events.drop_last();
        let last = events.len() - 1;
        lemma_aborted_only_by_error(mode, earlier);
        assert(events.take(last) =~= earlier);
        assert forall|i: int| 0 <= i < last implies earlier.take(i) == events.take(i) by {
            assert(earlier.take(i) =~= events.take(i));
        }
        if phase_after(mode, events) == Phase::Aborted {
            if phase_after(mode, earlier) == Phase::Aborted {
                let i = choose|i: int|
                    0 <= i < earlier.len() && is_error(
                        #[trigger] phase_after(mode, earlier.take(i)),
                        earlier[i],
                    );
                assert(is_error(phase_after(mode, events.take(i)), events[i]));
            } else {
                assert(is_error(phase_after(mode, events.take(last)), events[last]));
            }
        }
        if exists|i: int|
            0 <= i < events.len() && is_error(
                #[trigger] phase_after(mode, events.take(i)),
                events[i],
            ) {
            let i = choose|i: int|
                0 <= i < events.len() && is_error(
                    #[trigger] phase_after(mode, events.take(i)),
                    events[i],
                );
            if i < last {
                assert(is_error(phase_after(mode, earlier.take(i)), earlier[i]));
            }
        }
    }
}

/// A main window that does not exist is no error. If the lookup reports
/// that the window is absent, startup goes on to the run loop at once and
/// stays there: the title is never asked for, and startup is not aborted.
pub proof fn lemma_absent_window_is_passed_over(
    mode: BuildMode,
    version: Seq<char>,
    events: Seq<Event>,
    more: Seq<Event>,
)
    requires
        phase_after(mode, events) == Phase::Locating,
    ensures
        phase_after(mode, events.push(Event::Absent) + more) == Phase::Running,
        directive(phase_after(mode, events.push(Event::Absent) + more), version)
            == ActionModel::Run,
{
    lemma_phase_after_push(mode, events, Event::Absent);
    lemma_final_phases_stay(mode, events.push(Event::Absent), more);
}

/// A main window that exists gets its title. If the lookup reports that the
/// window was found, the next thing asked for is to set the title, and the
/// title asked for is the one that belongs to the version: the fixed prefix
/// and then the version, unchanged.
pub proof fn lemma_found_window_is_titled(mode: BuildMode, version: Seq<char>, events: Seq<Event>)
    requires
        phase_after(mode, events) == Phase::Locating,
    ensures
        directive(phase_after(mode, events.push(Event::Done)), version) == ActionModel::SetTitle(
            title_text(version),
        ),
        directive(phase_after(mode, events.push(Event::Done)), version) == ActionModel::SetTitle(
            "Zoo Databáze | Aplikace v"@ + version,
        ),
        phase_after(mode, events.push(Event::Done).push(Event::Done)) == Phase::Running,
{
    lemma_phase_after_push(mode, events, Event::Done);
    lemma_phase_after_push(mode, events.push(Event::Done), Event::Done);
    crate::title::lemma_title_reads(version);
}

/// The title is asked for only of a window that was found: whenever setting
/// the title is the action due, the event before was the window lookup
/// reporting success.
pub proof fn lemma_title_needs_window(mode: BuildMode, version: Seq<char>, events: Seq<Event>)
    requires
        directive(phase_after(mode, events), version) is SetTitle,
    ensures
        events.len() > 0,
        phase_after(mode, events.drop_last()) == Phase::Locating,
        events.last() == Event::Done,
{
    lemma_titling_exactly_when(mode, events);
}

/// Every startup comes to an end. After seven reports at the latest (five
/// registrations, the lookup, the title) the run is in a final phase.
pub proof fn lemma_startup_ends(mode: BuildMode, events: Seq<Event>)
    requires
        events.len() > registrations(mode) + 1,
    ensures
        is_terminal(phase_after(mode, events)),
{
    lemma_registering_exactly_when(mode, events, Plugin::Process);
    lemma_registering_exactly_when(mode, events, Plugin::Dialog);
    lemma_registering_exactly_when(mode, events, Plugin::Updater);
    lemma_registering_exactly_when(mode, events, Plugin::Sql);
    lemma_registering_exactly_when(mode, events, Plugin::Logging);
    lemma_locating_exactly_when(mode, events);
    lemma_titling_exactly_when(mode, events);
}

/// A startup in which nothing goes wrong reaches the run loop: when every
/// report is one of success, the run loop is entered after the title is
/// set.
pub proof fn lemma_success_reaches_run_loop(mode: BuildMode, events: Seq<Event>)
    requires
        all_done(events),
        events.len() > registrations(mode) + 1,
    ensures
        phase_after(mode, events) == Phase::Running,
{
    lemma_startup_ends(mode, events);
    lemma_aborted_only_by_error(mode, events);
}

} // verus!
