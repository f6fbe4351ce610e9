//! Properties of the engine that hold across calls, proved from the
//! contracts of `Watcher` and `EngineState::step`.
use vstd::prelude::*;
use crate::asl::INVALID_PROCESS_HANDLE;
use crate::engine::{
    read_len_of, is_running_read, past, scan_from, Action, Command, EngineState, Event, Step,
};
use crate::layout::{
    is_loading_screen_name, overlay_of, overlays_of, u32_at, NOT_LOADING, OVERLAY_NAME_LEN,
};
use crate::watcher::Watcher;

verus! {

/// After two successful samples a watcher holds exactly those two, the
/// earlier as `old`; a failed sample after a successful one leaves the pair
/// that the success made, whose `old` is the value held before it.
pub proof fn watcher_holds_last_two_successes<T: Copy>(w: Watcher<T>, v1: T, v2: T)
    ensures
        w.try_updated(Ok(v1)).try_updated(Ok(v2)).old == v1,
        w.try_updated(Ok(v1)).try_updated(Ok(v2)).current == v2,
        w.try_updated(Ok(v1)).try_updated(Err(())).old == w.current,
        w.try_updated(Ok(v1)).try_updated(Err(())).current == v1,
        w.try_updated(Err(())) == w,
{
}

/// While no process is attached, an attach request that the host answers
/// with its "no such process" marker ends the tick quietly and leaves the
/// engine without a process, ready to ask again on the next tick.
pub proof fn failed_attach_stays_absent(s: EngineState, e: Event)
    requires
        s.wf(),
        s.step is Attaching,
        e == Event::Attached(INVALID_PROCESS_HANDLE),
    ensures
        s.process is None,
        s.attached_by(e) is None,
        s.transition(e) == (Step::Idle, Action::Idle),
{
}

/// A tick that begins with no process attached asks first to attach.
pub proof fn absent_process_asks_to_attach(s: EngineState)
    requires
        s.step is Idle,
        s.process is None,
    ensures
        s.transition(Event::Tick) == (Step::Attaching, Action::Attach),
{
}

/// While a process is attached, no event leads the engine to ask for an
/// attach or to replace the process, whatever the reads return.
pub proof fn attached_never_reattaches(s: EngineState, e: Event)
    requires
        s.wf(),
        s.process is Some,
    ensures
        s.transition(e).1 != Action::Attach,
        s.attached_by(e) is None,
{
}

/// Every command ends the tick, so a tick issues at most one.
pub proof fn command_ends_tick(s: EngineState, e: Event)
    ensures
        s.transition(e).1 is Issue ==> s.transition(e).0 is Idle,
{
}

/// Before the run, the trigger byte starts it exactly when it is nonzero and
/// the ready flag has just risen from 0 to 1; otherwise the tick ends idle.
pub proof fn start_on_rising_edge(s: EngineState, e: Event, trigger: u8)
    requires
        s.step is ReadingTrigger,
        e matches Event::ReadOk(v) && v@ == seq![trigger],
    ensures
        (1 <= trigger && s.after_logo.old == 0 && s.after_logo.current == 1) ==> s.transition(e)
            == (Step::Idle, Action::Issue(Command::Start)),
        !(1 <= trigger && s.after_logo.old == 0 && s.after_logo.current == 1) ==> s.transition(e)
            == (Step::Idle, Action::Idle),
{
}

/// An overlay count outside 0 to 8 resumes game time without reading any
/// entry; a count within reads exactly that many entry pointers.
pub proof fn overlay_count_bounds(s: EngineState, e: Event)
    requires
        s.step is ReadingOverlays,
        s.read_ok(e),
    ensures
        ({
            let o = overlays_of(e->ReadOk_0@);
            &&& (o.count < 0 || o.count > 8) ==> s.transition(e) == (
                Step::Idle,
                Action::Issue(Command::ResumeGameTime),
            )
            &&& (0 <= o.count <= 8) ==> s.transition(e) == (
                Step::ReadingOverlayPtrs(o.count as usize),
                Action::Read(past(o.ptr, 0), (4 * o.count) as usize),
            )
        }),
{
}

/// An overlay record whose stored length less one is not the name's length
/// is skipped: the scan goes on to the next entry without reading a name.
pub proof fn other_overlay_is_skipped(s: EngineState, e: Event, i: usize)
    requires
        s.step == Step::ReadingOverlay(i),
        s.read_ok(e),
        overlay_of(e->ReadOk_0@).name_len != OVERLAY_NAME_LEN + 1,
    ensures
        s.transition(e) == scan_from(s.pointers(), i + 1),
        !(s.transition(e).0 is ReadingName),
{
}

/// An overlay record with the name's length has its name read.
pub proof fn candidate_overlay_name_is_read(s: EngineState, e: Event, i: usize)
    requires
        s.step == Step::ReadingOverlay(i),
        s.read_ok(e),
        overlay_of(e->ReadOk_0@).name_len == OVERLAY_NAME_LEN + 1,
    ensures
        s.transition(e).0 == Step::ReadingName(i),
{
}

/// The loading-screen overlay's name pauses game time and ends the scan.
pub proof fn loading_screen_name_pauses(s: EngineState, e: Event, i: usize)
    requires
        s.step == Step::ReadingName(i),
        s.read_ok(e),
        is_loading_screen_name(e->ReadOk_0@),
    ensures
        s.transition(e) == (Step::Idle, Action::Issue(Command::PauseGameTime)),
{
}

/// A failed read, or one of the wrong length, ends the tick with no command
/// and leaves the watcher, the overlay pointers and the process as they were.
pub proof fn failed_read_aborts(s: EngineState, e: Event)
    requires
        read_len_of(s.step) is Some,
        e is ReadFailed || e is ReadOk,
        !s.read_ok(e),
    ensures
        s.transition(e) == (Step::Idle, Action::Abort),
        s.next_watcher(e) == s.after_logo,
        s.next_pointers(e) == s.pointers(),
        s.attached_by(e) is None,
{
}

/// While the timer runs, a failed read issues neither pause nor resume and
/// leaves the watcher as it was.
pub proof fn running_failure_issues_nothing(s: EngineState, e: Event)
    requires
        is_running_read(s.step),
        e == Event::ReadFailed,
    ensures
        s.transition(e).1 == Action::Abort,
        s.next_watcher(e) == s.after_logo,
{
}

/// A loading flag other than the not-loading pattern pauses game time and
/// ends the tick before any overlay is looked at.
pub proof fn loading_flag_pauses(s: EngineState, e: Event)
    requires
        s.step is ReadingLoadFlag,
        s.read_ok(e),
        u32_at(e->ReadOk_0@, 0) != NOT_LOADING,
    ensures
        s.transition(e) == (Step::Idle, Action::Issue(Command::PauseGameTime)),
{
}

} // verus!
