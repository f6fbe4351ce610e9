//! The per-tick state machine. A tick begins with `Event::Tick`; each answer
//! from the host is fed back as an event, and each call returns the next
//! request, until an action that ends the tick.
use vstd::prelude::*;
use arrayvec::ArrayVec;
use crate::asl::{timer_state, timer_state_of, Address, Process, TimerState, INVALID_PROCESS_HANDLE};
use crate::layout::{
    abs_addr, is_loading_screen_name, matches_loading_screen_name, overlay_of, overlays_of,
    read_u32, u32_at, Overlay, Overlays, LOAD_FLAG_DISPLACEMENT, LOAD_STATE_PTR_OFFSET,
    NOT_LOADING, OVERLAYS_DISPLACEMENT, OVERLAYS_SIZE, OVERLAY_SIZE, MAX_OVERLAYS,
    READY_FLAG_OFFSET, TRIGGER_OFFSET, UI_PTR_OFFSET, BASE_MODULE_OFFSET,
};
use crate::pointers::{new_pointers, pointer_at, pointer_count, pointers_of, push_pointer};
use crate::watcher::Watcher;

verus! {

/// Bytes of the loading-screen overlay's name as the game stores it.
pub const NAME_BYTES: usize = 0x6C;

/// A command to the host's timer.
#[derive(Debug, Clone, Copy, PartialEq, Eq, Structural)]
pub enum Command {
    Start,
    PauseGameTime,
    ResumeGameTime,
}

/// What the engine asks of the host next.
#[derive(Debug, Clone, Copy, PartialEq, Eq, Structural)]
pub enum Action {
    /// Attach to the game's process; answer with `Event::Attached`.
    Attach,
    /// Report the timer's phase; answer with `Event::Phase`.
    QueryTimerState,
    /// Read this many bytes at the address; answer with `Event::ReadOk` or
    /// `Event::ReadFailed`.
    Read(Address, usize),
    /// The tick is over: issue this command.
    Issue(Command),
    /// The tick is over with nothing to do.
    Idle,
    /// The tick is over because a read failed or the host answered out of
    /// turn.
    Abort,
}

/// What the host hands the engine.
#[derive(Debug)]
pub enum Event {
    /// A new tick begins.
    Tick,
    /// The host's raw answer to an attach request.
    Attached(i64),
    /// The host's raw timer phase code.
    Phase(i32),
    /// The bytes of a successful read.
    ReadOk(Vec<u8>),
    /// The read could not be done.
    ReadFailed,
}

/// Where the engine stands within a tick.
#[derive(Debug, Clone, Copy, PartialEq, Eq, Structural)]
pub enum Step {
    Idle,
    Attaching,
    QueryingTimer,
    ReadingReady,
    ReadingTrigger,
    ReadingLoadState,
    ReadingLoadFlag,
    ReadingUiState,
    ReadingOverlays,
    /// Reading this many overlay pointers.
    ReadingOverlayPtrs(usize),
    /// Reading the record of the overlay at this index.
    ReadingOverlay(usize),
    /// Reading the name of the overlay at this index.
    ReadingName(usize),
}

/// How many bytes the engine awaits in `step`, if it awaits a read.
pub open spec fn read_len_of(step: Step) -> Option<int> {
    match step {
        Step::ReadingReady | Step::ReadingTrigger => Some(1),
        Step::ReadingLoadState | Step::ReadingLoadFlag | Step::ReadingUiState => Some(4),
        Step::ReadingOverlays => Some(OVERLAYS_SIZE as int),
        Step::ReadingOverlayPtrs(n) => Some(4 * n),
        Step::ReadingOverlay(_) => Some(OVERLAY_SIZE as int),
        Step::ReadingName(_) => Some(NAME_BYTES as int),
        _ => None,
    }
}

/// Whether `step` reads in the timer's running phase.
pub open spec fn is_running_read(step: Step) -> bool {
    read_len_of(step) is Some && !(step is ReadingReady) && !(step is ReadingTrigger)
}

/// The absolute address of module offset `a`.
pub open spec fn abs(a: u64) -> Address {
    Address((a + BASE_MODULE_OFFSET) as u64)
}

/// The address `d` bytes past the 32-bit pointer `p`.
pub open spec fn past(p: u32, d: u64) -> Address {
    Address((p + d) as u64)
}

/// The pointers whose little-endian bytes make up `b`, `n` of them.
pub open spec fn pointers_in(b: Seq<u8>, n: int) -> Seq<u32> {
    Seq::new(n as nat, |k: int| u32_at(b, 4 * k))
}

/// Whether the watched ready flag has just risen and the trigger is set:
/// the moment a run starts.
pub open spec fn start_due(trigger: u8, ready: Watcher<u8>) -> bool {
    1 <= trigger && ready.old == 0 && ready.current == 1
}

/// Continues the overlay scan at index `i`: read that overlay's record, or
/// resume game time when no overlay is left.
pub open spec fn scan_from(ptrs: Seq<u32>, i: int) -> (Step, Action) {
    if i < ptrs.len() {
        (Step::ReadingOverlay(i as usize), Action::Read(past(ptrs[i], 0), OVERLAY_SIZE))
    } else {
        (Step::Idle, Action::Issue(Command::ResumeGameTime))
    }
}

/// The engine's persistent state: the attached process, the watched ready
/// flag, and where the current tick stands.
#[derive(Debug)]
pub struct EngineState {
    pub process: Option<Process>,
    pub after_logo: Watcher<u8>,
    pub step: Step,
    pub overlay_ptrs: ArrayVec<u32, 8>,
}

impl EngineState {
    /// The overlay pointers read this tick.
    pub open spec fn pointers(&self) -> Seq<u32> {
        pointers_of(self.overlay_ptrs)
    }

    /// The overlay buffer stays within its capacity, the scan's index
    /// within the buffer, and an attach is awaited only with no process.
    pub open spec fn wf(&self) -> bool {
        &&& self.pointers().len() <= 8
        &&& (self.step is Attaching ==> self.process is None)
        &&& match self.step {
            Step::ReadingOverlayPtrs(n) => n <= 8,
            Step::ReadingOverlay(i) | Step::ReadingName(i) => i < self.pointers().len(),
            _ => true,
        }
    }

    /// The next step and request after `b` was read in `self.step`.
    pub open spec fn after_read(&self, b: Seq<u8>) -> (Step, Action) {
        match self.step {
            Step::ReadingReady => (Step::ReadingTrigger, Action::Read(abs(TRIGGER_OFFSET), 1)),
            Step::ReadingTrigger => {
                if start_due(b[0], self.after_logo) {
                    (Step::Idle, Action::Issue(Command::Start))
                } else {
                    (Step::Idle, Action::Idle)
                }
            },
            Step::ReadingLoadState => (
                Step::ReadingLoadFlag,
                Action::Read(past(u32_at(b, 0), LOAD_FLAG_DISPLACEMENT), 4),
            ),
            Step::ReadingLoadFlag => {
                if u32_at(b, 0) != NOT_LOADING {
                    (Step::Idle, Action::Issue(Command::PauseGameTime))
                } else {
                    (Step::ReadingUiState, Action::Read(abs(UI_PTR_OFFSET), 4))
                }
            },
            Step::ReadingUiState => (
                Step::ReadingOverlays,
                Action::Read(past(u32_at(b, 0), OVERLAYS_DISPLACEMENT), OVERLAYS_SIZE),
            ),
            Step::ReadingOverlays => {
                let o = overlays_of(b);
                if o.count_in_bounds() {
                    (
                        Step::ReadingOverlayPtrs(o.count as usize),
                        Action::Read(past(o.ptr, 0), (4 * o.count) as usize),
                    )
                } else {
                    (Step::Idle, Action::Issue(Command::ResumeGameTime))
                }
            },
            Step::ReadingOverlayPtrs(n) => scan_from(pointers_in(b, n as int), 0),
            Step::ReadingOverlay(i) => {
                let rec = overlay_of(b);
                if rec.may_be_loading_screen() {
                    (Step::ReadingName(i), Action::Read(past(rec.name_ptr, 0), NAME_BYTES))
                } else {
                    scan_from(self.pointers(), i + 1)
                }
            },
            Step::ReadingName(i) => {
                if is_loading_screen_name(b) {
                    (Step::Idle, Action::Issue(Command::PauseGameTime))
                } else {
                    scan_from(self.pointers(), i + 1)
                }
            },
            _ => (Step::Idle, Action::Abort),
        }
    }

    /// The next step and request when `e` arrives.
    pub open spec fn transition(&self, e: Event) -> (Step, Action) {
        match e {
            Event::Tick => {
                if !(self.step is Idle) {
                    (Step::Idle, Action::Abort)
                } else if self.process is None {
                    (Step::Attaching, Action::Attach)
                } else {
                    (Step::QueryingTimer, Action::QueryTimerState)
                }
            },
            Event::Attached(raw) => {
                if !(self.step is Attaching) {
                    (Step::Idle, Action::Abort)
                } else if raw != INVALID_PROCESS_HANDLE {
                    (Step::QueryingTimer, Action::QueryTimerState)
                } else {
                    (Step::Idle, Action::Idle)
                }
            },
            Event::Phase(raw) => {
                if !(self.step is QueryingTimer) {
                    (Step::Idle, Action::Abort)
                } else {
                    match timer_state_of(raw) {
                        Some(TimerState::NotRunning) => (
                            Step::ReadingReady,
                            Action::Read(abs(READY_FLAG_OFFSET), 1),
                        ),
                        Some(TimerState::Running) => (
                            Step::ReadingLoadState,
                            Action::Read(abs(LOAD_STATE_PTR_OFFSET), 4),
                        ),
                        _ => (Step::Idle, Action::Idle),
                    }
                }
            },
            Event::ReadOk(v) => {
                if read_len_of(self.step) == Some(v@.len() as int) {
                    self.after_read(v@)
                } else {
                    (Step::Idle, Action::Abort)
                }
            },
            Event::ReadFailed => (Step::Idle, Action::Abort),
        }
    }

    /// Whether `e` is a successful read of `self.step`'s length.
    pub open spec fn read_ok(&self, e: Event) -> bool {
        e matches Event::ReadOk(v) && read_len_of(self.step) == Some(v@.len() as int)
    }

    /// The watcher after `e`: it records the ready flag on a successful read
    /// of it, and is unchanged otherwise.
    pub open spec fn next_watcher(&self, e: Event) -> Watcher<u8> {
        if self.step is ReadingReady && self.read_ok(e) {
            self.after_logo.updated(e->ReadOk_0@[0])
        } else {
            self.after_logo
        }
    }

    /// The overlay pointers after `e`: replaced by those read when `e` is a
    /// successful read of them, unchanged otherwise.
    pub open spec fn next_pointers(&self, e: Event) -> Seq<u32> {
        match self.step {
            Step::ReadingOverlayPtrs(n) => if self.read_ok(e) {
                pointers_in(e->ReadOk_0@, n as int)
            } else {
                self.pointers()
            },
            _ => self.pointers(),
        }
    }

    /// The handle that `e` attaches, if it is a valid answer to an attach
    /// request.
    pub open spec fn attached_by(&self, e: Event) -> Option<i64> {
        match e {
            Event::Attached(raw) => if self.step is Attaching && raw != INVALID_PROCESS_HANDLE {
                Some(raw)
            } else {
                None
            },
            _ => None,
        }
    }
}

/// The address `d` bytes past the 32-bit pointer `p`.
fn pointer_past(p: u32, d: u64) -> (r: Address)
    requires
        d <= 0x1000,
    ensures
        r == past(p, d),
{
    Address(p as u64).offset(d)
}

/// The `n` little-endian pointers that make up `b`, in a fresh buffer.
fn read_pointers(b: &[u8], n: usize) -> (r: ArrayVec<u32, 8>)
    requires
        n <= 8,
        b@.len() == 4 * n,
    ensures
        pointers_of(r) == pointers_in(b@, n as int),
{
    let mut r = new_pointers();
    let mut k: usize = 0;
    while k < n
        invariant
            n <= 8,
            b@.len() == 4 * n,
            k <= n,
            pointers_of(r) == pointers_in(b@, k as int),
        decreases n - k,
    {
        let p = read_u32(b, 4 * k);
        push_pointer(&mut r, p);
        k += 1;
        assert(pointers_of(r) == pointers_in(b@, k as int));
    }
    r
}

/// How many bytes the engine awaits in `step`, if it awaits a read.
pub fn read_len(step: Step) -> (r: Option<usize>)
    requires
        step matches Step::ReadingOverlayPtrs(n) ==> n <= 8,
    ensures
        match r {
            Some(n) => read_len_of(step) == Some(n as int),
            None => read_len_of(step) is None,
        },
{
    match step {
        Step::ReadingReady | Step::ReadingTrigger => Some(1),
        Step::ReadingLoadState | Step::ReadingLoadFlag | Step::ReadingUiState => Some(4),
        Step::ReadingOverlays => Some(OVERLAYS_SIZE),
        Step::ReadingOverlayPtrs(n) => Some(4 * n),
        Step::ReadingOverlay(_) => Some(OVERLAY_SIZE),
        Step::ReadingName(_) => Some(NAME_BYTES),
        _ => None,
    }
}

impl EngineState {
    /// An engine with no process attached, zeroed samples, between ticks.
    pub fn new() -> (r: EngineState)
        ensures
            r.wf(),
            (r.process is None),
            r.after_logo == (Watcher::<u8> { current: 0, old: 0 }),
            r.step == Step::Idle,
            r.pointers() == Seq::<u32>::empty(),
    {
        EngineState {
            process: None,
            after_logo: Watcher::new(0),
            step: Step::Idle,
            overlay_ptrs: new_pointers(),
        }
    }

    /// Continues the overlay scan at index `i`.
    fn scan(&self, i: usize) -> (r: (Step, Action))
        requires
            self.wf(),
            i <= self.pointers().len(),
        ensures
            r == scan_from(self.pointers(), i as int),
    {
        if i < pointer_count(&self.overlay_ptrs) {
            let p = pointer_at(&self.overlay_ptrs, i);
            (Step::ReadingOverlay(i), Action::Read(pointer_past(p, 0), OVERLAY_SIZE))
        } else {
            (Step::Idle, Action::Issue(Command::ResumeGameTime))
        }
    }

    /// Acts on the bytes `b` read in the current step.
    fn on_read(&mut self, b: &Vec<u8>) -> (r: (Step, Action))
        requires
            old(self).wf(),
            read_len_of(old(self).step) == Some(b@.len() as int),
        ensures
            final(self).process == old(self).process,
            final(self).step == old(self).step,
            final(self).after_logo == (if old(self).step is ReadingReady {
                old(self).after_logo.updated(b@[0])
            } else {
                old(self).after_logo
            }),
            final(self).pointers() == (match old(self).step {
                Step::ReadingOverlayPtrs(n) => pointers_in(b@, n as int),
                _ => old(self).pointers(),
            }),
            r == (match old(self).step {
                Step::ReadingReady => old(self).after_read(b@),
                _ => final(self).after_read(b@),
            }),
            r == (match old(self).step {
                Step::ReadingOverlayPtrs(n) => scan_from(final(self).pointers(), 0),
                _ => old(self).after_read(b@),
            }),
            match r.0 {
                Step::ReadingOverlayPtrs(n) => n <= 8,
                Step::ReadingOverlay(i) | Step::ReadingName(i) => i < final(self).pointers().len(),
                _ => true,
            },
    {
        match self.step {
            Step::ReadingReady => {
                self.after_logo.update(b[0]);
                (Step::ReadingTrigger, Action::Read(abs_addr(TRIGGER_OFFSET), 1))
            },
            Step::ReadingTrigger => {
                let trigger = b[0];
                if 1 <= trigger && self.after_logo.old == 0 && self.after_logo.current == 1 {
                    (Step::Idle, Action::Issue(Command::Start))
                } else {
                    (Step::Idle, Action::Idle)
                }
            },
            Step::ReadingLoadState => {
                let p = read_u32(b.as_slice(), 0);
                (Step::ReadingLoadFlag, Action::Read(pointer_past(p, LOAD_FLAG_DISPLACEMENT), 4))
            },
            Step::ReadingLoadFlag => {
                if read_u32(b.as_slice(), 0) != NOT_LOADING {
                    (Step::Idle, Action::Issue(Command::PauseGameTime))
                } else {
                    (Step::ReadingUiState, Action::Read(abs_addr(UI_PTR_OFFSET), 4))
                }
            },
            Step::ReadingUiState => {
                let p = read_u32(b.as_slice(), 0);
                (
                    Step::ReadingOverlays,
                    Action::Read(pointer_past(p, OVERLAYS_DISPLACEMENT), OVERLAYS_SIZE),
                )
            },
            Step::ReadingOverlays => {
                let o = Overlays::decode(b.as_slice());
                if 0 <= o.count && o.count <= MAX_OVERLAYS {
                    let n = o.count as usize;
                    (Step::ReadingOverlayPtrs(n), Action::Read(pointer_past(o.ptr, 0), 4 * n))
                } else {
                    (Step::Idle, Action::Issue(Command::ResumeGameTime))
                }
            },
            Step::ReadingOverlayPtrs(n) => {
                self.overlay_ptrs = read_pointers(b.as_slice(), n);
                self.scan(0)
            },
            Step::ReadingOverlay(i) => {
                let rec = Overlay::decode(b.as_slice());
                if rec.has_loading_screen_len() {
                    (Step::ReadingName(i), Action::Read(pointer_past(rec.name_ptr, 0), NAME_BYTES))
                } else {
                    self.scan(i + 1)
                }
            },
            Step::ReadingName(i) => {
                if matches_loading_screen_name(b.as_slice()) {
                    (Step::Idle, Action::Issue(Command::PauseGameTime))
                } else {
                    self.scan(i + 1)
                }
            },
            _ => (Step::Idle, Action::Abort),
        }
    }

    /// Runs the engine one step: acts on the host's answer `event` and
    /// returns the next request, or the action that ends the tick.
    pub fn step(&mut self, event: Event) -> (r: Action)
        requires
            old(self).wf(),
        ensures
            final(self).wf(),
            (final(self).step, r) == old(self).transition(event),
            final(self).after_logo == old(self).next_watcher(event),
            final(self).pointers() == old(self).next_pointers(event),
            match old(self).attached_by(event) {
                Some(raw) => final(self).process matches Some(p) && p.handle() == raw,
                None => final(self).process == old(self).process,
            },
    {
        let (next, action) = match event {
            Event::Tick => {
                if self.step != Step::Idle {
                    (Step::Idle, Action::Abort)
                } else if self.process.is_none() {
                    (Step::Attaching, Action::Attach)
                } else {
                    (Step::QueryingTimer, Action::QueryTimerState)
                }
            },
            Event::Attached(raw) => {
                if self.step != Step::Attaching {
                    (Step::Idle, Action::Abort)
                } else {
                    match Process::attach(raw) {
                        Some(p) => {
                            self.process = Some(p);
                            (Step::QueryingTimer, Action::QueryTimerState)
                        },
                        None => (Step::Idle, Action::Idle),
                    }
                }
            },
            Event::Phase(raw) => {
                if self.step != Step::QueryingTimer {
                    (Step::Idle, Action::Abort)
                } else {
                    match timer_state(raw) {
                        Some(TimerState::NotRunning) => (
                            Step::ReadingReady,
                            Action::Read(abs_addr(READY_FLAG_OFFSET), 1),
                        ),
                        Some(TimerState::Running) => (
                            Step::ReadingLoadState,
                            Action::Read(abs_addr(LOAD_STATE_PTR_OFFSET), 4),
                        ),
                        _ => (Step::Idle, Action::Idle),
                    }
                }
            },
            Event::ReadOk(ref b) => {
                match read_len(self.step) {
                    Some(n) => if b.len() == n {
                        self.on_read(b)
                    } else {
                        (Step::Idle, Action::Abort)
                    },
                    None => (Step::Idle, Action::Abort),
                }
            },
            Event::ReadFailed => (Step::Idle, Action::Abort),
        };
        self.step = next;
        action
    }

    /// Ends the attachment, if there is one, and hands back the handle for
    /// the host to release.
    pub fn detach(&mut self) -> (r: Option<Process>)
        ensures
            r == old(self).process,
            (final(self).process is None),
            final(self).after_logo == old(self).after_logo,
            final(self).step == old(self).step,
            final(self).overlay_ptrs == old(self).overlay_ptrs,
    {
        self.process.take()
    }
}

} // verus!
