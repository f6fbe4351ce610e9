//! Values exchanged with the host: process handles, addresses and the
//! timer's phase.
use vstd::prelude::*;

verus! {

/// The host's answer to an attach request when no process was found.
pub const INVALID_PROCESS_HANDLE: i64 = 0x1_FFFF_FFFF;

/// An offset into the address space of the attached process.
#[derive(Debug, Clone, Copy, PartialEq, Eq, Structural)]
pub struct Address(pub u64);

impl Address {
    /// The address `displacement` bytes further on.
    pub fn offset(self, displacement: u64) -> (r: Address)
        requires
            self.0 + displacement <= u64::MAX,
        ensures
            r.0 == self.0 + displacement,
    {
        Address(self.0 + displacement)
    }
}

/// One attachment to an external process, identified by the host's handle.
///
/// A handle is never copied: at most one value stands for an attachment.
#[derive(Debug, PartialEq, Eq)]
pub struct Process(i64);

impl Process {
    /// The handle the host uses for this process.
    pub closed spec fn handle(&self) -> i64 {
        self.0
    }

    /// Interprets the host's answer `raw` to an attach request: a process,
    /// unless `raw` is the host's marker for "no such process".
    pub fn attach(raw: i64) -> (r: Option<Process>)
        ensures
            r is Some <==> raw != INVALID_PROCESS_HANDLE,
            r matches Some(p) ==> p.handle() == raw,
    {
        if raw != INVALID_PROCESS_HANDLE {
            Some(Process(raw))
        } else {
            None
        }
    }

    /// The host's handle, to pass back in read and detach requests.
    pub fn raw(&self) -> (r: i64)
        ensures
            r == self.handle(),
    {
        self.0
    }
}

/// The type of a value that a pointer path leads to.
#[derive(Debug, Clone, Copy, PartialEq, Eq, Structural)]
pub enum PointerKind {
    U8,
    U16,
    U32,
    U64,
    I8,
    I16,
    I32,
    I64,
    F32,
    F64,
    String,
}

/// Which of a watched value's two samples is meant.
#[derive(Debug, Clone, Copy, PartialEq, Eq, Structural)]
pub enum State {
    Old,
    Current,
}

/// The lifecycle phase of the host's timer.
#[derive(Debug, Clone, Copy, PartialEq, Eq, Structural)]
pub enum TimerState {
    NotRunning,
    Running,
    Finished,
}

/// The phase that the host's code `raw` stands for, if it is one.
pub open spec fn timer_state_of(raw: i32) -> Option<TimerState> {
    if raw == 0 {
        Some(TimerState::NotRunning)
    } else if raw == 1 {
        Some(TimerState::Running)
    } else if raw == 2 {
        Some(TimerState::Finished)
    } else {
        None
    }
}

/// Decodes the host's timer phase code: 0, 1 and 2 are the three phases,
/// anything else is no phase at all.
pub fn timer_state(raw: i32) -> (r: Option<TimerState>)
    ensures
        r == timer_state_of(raw),
{
    match raw {
        0 => Some(TimerState::NotRunning),
        1 => Some(TimerState::Running),
        2 => Some(TimerState::Finished),
        _ => None,
    }
}

/// A state description whose old and current samples the host provides.
pub trait ASLState where Self: Sized {
    fn get() -> (Self, Self);
}

} // verus!
