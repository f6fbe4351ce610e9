use bioshock_autosplitter::asl::{Address, INVALID_PROCESS_HANDLE};
use bioshock_autosplitter::engine::{Action, Command, EngineState, Event, Step, NAME_BYTES};
use bioshock_autosplitter::layout::{
    abs_addr, LOAD_STATE_PTR_OFFSET, OVERLAY_NAME, READY_FLAG_OFFSET, TRIGGER_OFFSET,
    UI_PTR_OFFSET,
};

const NOT_RUNNING: i32 = 0;
const RUNNING: i32 = 1;
const FINISHED: i32 = 2;

struct Memory {
    regions: Vec<(u64, Vec<u8>)>,
}

impl Memory {
    fn new() -> Memory {
        Memory { regions: Vec::new() }
    }

    fn put(&mut self, address: u64, bytes: Vec<u8>) {
        self.regions.push((address, bytes));
    }

    fn put_u32(&mut self, address: u64, v: u32) {
        self.put(address, v.to_le_bytes().to_vec());
    }

    fn read(&self, address: u64, len: usize) -> Option<Vec<u8>> {
        for (start, bytes) in &self.regions {
            if *start == address && len <= bytes.len() {
                return Some(bytes[..len].to_vec());
            }
        }
        None
    }
}

/// Runs one tick against `mem` and returns every action the engine took.
fn run_tick(s: &mut EngineState, attach: i64, phase: i32, mem: &Memory) -> Vec<Action> {
    let mut actions = Vec::new();
    let mut a = s.step(Event::Tick);
    loop {
        actions.push(a);
        a = match a {
            Action::Attach => s.step(Event::Attached(attach)),
            Action::QueryTimerState => s.step(Event::Phase(phase)),
            Action::Read(addr, len) => match mem.read(addr.0, len) {
                Some(b) => s.step(Event::ReadOk(b)),
                None => s.step(Event::ReadFailed),
            },
            _ => return actions,
        };
    }
}

fn reads(actions: &[Action]) -> Vec<(u64, usize)> {
    actions
        .iter()
        .filter_map(|a| match a {
            Action::Read(addr, len) => Some((addr.0, *len)),
            _ => None,
        })
        .collect()
}

fn last(actions: &[Action]) -> Action {
    *actions.last().unwrap()
}

fn attached() -> EngineState {
    let mut s = EngineState::new();
    let actions = run_tick(&mut s, 7, FINISHED, &Memory::new());
    assert_eq!(actions, vec![Action::Attach, Action::QueryTimerState, Action::Idle]);
    s
}

fn name_bytes() -> Vec<u8> {
    let mut b = Vec::new();
    for c in OVERLAY_NAME.bytes() {
        b.push(c);
        b.push(0);
    }
    b
}

const LOAD_STATE: u64 = 0x1000;
const UI_STATE: u64 = 0x2000;
const PTRS: u64 = 0x3000;

/// Memory of a running game that is not loading, with the given overlay
/// descriptor count and the given overlay records at 0x4000, 0x4100, ...
fn running_memory(count: i32, records: &[(u32, u32)]) -> Memory {
    let mut m = Memory::new();
    m.put_u32(abs_addr(LOAD_STATE_PTR_OFFSET).0, LOAD_STATE as u32);
    m.put_u32(LOAD_STATE + 4, 0x3F80_0000);
    m.put_u32(abs_addr(UI_PTR_OFFSET).0, UI_STATE as u32);
    let mut desc = (PTRS as u32).to_le_bytes().to_vec();
    desc.extend_from_slice(&count.to_le_bytes());
    m.put(UI_STATE + 0x124, desc);
    let mut ptrs = Vec::new();
    for k in 0..8u32 {
        ptrs.extend_from_slice(&(0x4000 + 0x100 * k).to_le_bytes());
    }
    m.put(PTRS, ptrs);
    for (k, (name_ptr, name_len)) in records.iter().enumerate() {
        let mut rec = name_ptr.to_le_bytes().to_vec();
        rec.extend_from_slice(&name_len.to_le_bytes());
        m.put(0x4000 + 0x100 * k as u64, rec);
    }
    m
}

#[test]
fn failed_attach_leaves_process_absent() {
    let mut s = EngineState::new();
    for _ in 0..3 {
        let actions = run_tick(&mut s, INVALID_PROCESS_HANDLE, RUNNING, &Memory::new());
        assert_eq!(actions, vec![Action::Attach, Action::Idle]);
        assert!(s.process.is_none());
        assert_eq!(s.step, Step::Idle);
    }
}

#[test]
fn successful_attach_keeps_handle() {
    let s = attached();
    assert_eq!(s.process.as_ref().unwrap().raw(), 7);
}

#[test]
fn attached_engine_never_attaches_again() {
    let mut s = attached();
    for phase in [NOT_RUNNING, RUNNING, FINISHED, 9] {
        let actions = run_tick(&mut s, 8, phase, &Memory::new());
        assert!(!actions.contains(&Action::Attach));
        assert_eq!(s.process.as_ref().unwrap().raw(), 7);
    }
}

#[test]
fn unknown_timer_phase_does_nothing() {
    let mut s = attached();
    let actions = run_tick(&mut s, 7, 3, &Memory::new());
    assert_eq!(actions, vec![Action::QueryTimerState, Action::Idle]);
}

fn not_running_memory(ready: u8, trigger: u8) -> Memory {
    let mut m = Memory::new();
    m.put(abs_addr(READY_FLAG_OFFSET).0, vec![ready]);
    m.put(abs_addr(TRIGGER_OFFSET).0, vec![trigger]);
    m
}

#[test]
fn start_fires_once_on_rising_edge() {
    let mut s = attached();
    let a = run_tick(&mut s, 7, NOT_RUNNING, &not_running_memory(0, 1));
    assert_eq!(last(&a), Action::Idle);
    let a = run_tick(&mut s, 7, NOT_RUNNING, &not_running_memory(1, 1));
    assert_eq!(s.after_logo.old, 0);
    assert_eq!(s.after_logo.current, 1);
    assert_eq!(last(&a), Action::Issue(Command::Start));
    assert_eq!(a.iter().filter(|x| **x == Action::Issue(Command::Start)).count(), 1);
    // The flag stays at 1: no edge, no start, though the trigger is set.
    let a = run_tick(&mut s, 7, NOT_RUNNING, &not_running_memory(1, 1));
    assert_eq!(s.after_logo.old, 1);
    assert_eq!(s.after_logo.current, 1);
    assert_eq!(last(&a), Action::Idle);
}

#[test]
fn no_start_without_trigger() {
    let mut s = attached();
    run_tick(&mut s, 7, NOT_RUNNING, &not_running_memory(0, 0));
    let a = run_tick(&mut s, 7, NOT_RUNNING, &not_running_memory(1, 0));
    assert_eq!(last(&a), Action::Idle);
}

#[test]
fn not_running_reads_ready_then_trigger() {
    let mut s = attached();
    let a = run_tick(&mut s, 7, NOT_RUNNING, &not_running_memory(0, 0));
    assert_eq!(
        reads(&a),
        vec![(0x135_697C + 0x40_0000, 1), (0x13D_2AA2 + 0x40_0000, 1)]
    );
}

#[test]
fn ready_read_failure_keeps_watcher() {
    let mut s = attached();
    run_tick(&mut s, 7, NOT_RUNNING, &not_running_memory(5, 0));
    run_tick(&mut s, 7, NOT_RUNNING, &not_running_memory(6, 0));
    let a = run_tick(&mut s, 7, NOT_RUNNING, &Memory::new());
    assert_eq!(last(&a), Action::Abort);
    assert_eq!(s.after_logo.old, 5);
    assert_eq!(s.after_logo.current, 6);
}

#[test]
fn trigger_read_failure_still_records_ready_flag() {
    let mut s = attached();
    let mut m = Memory::new();
    m.put(abs_addr(READY_FLAG_OFFSET).0, vec![1]);
    let a = run_tick(&mut s, 7, NOT_RUNNING, &m);
    assert_eq!(last(&a), Action::Abort);
    assert_eq!(s.after_logo.old, 0);
    assert_eq!(s.after_logo.current, 1);
}

#[test]
fn loading_flag_pauses_without_scanning() {
    let mut s = attached();
    let mut m = running_memory(1, &[(0x5000, 0x37)]);
    m.regions.retain(|(a, _)| *a != LOAD_STATE + 4);
    m.put_u32(LOAD_STATE + 4, 0);
    let a = run_tick(&mut s, 7, RUNNING, &m);
    assert_eq!(last(&a), Action::Issue(Command::PauseGameTime));
    assert_eq!(reads(&a), vec![(0x1415_4E8 + 0x40_0000, 4), (LOAD_STATE + 4, 4)]);
}

#[test]
fn overlay_count_nine_resumes_without_entries() {
    let mut s = attached();
    let a = run_tick(&mut s, 7, RUNNING, &running_memory(9, &[]));
    assert_eq!(last(&a), Action::Issue(Command::ResumeGameTime));
    assert_eq!(reads(&a).len(), 4);
}

#[test]
fn overlay_count_negative_resumes_without_entries() {
    let mut s = attached();
    let a = run_tick(&mut s, 7, RUNNING, &running_memory(-1, &[]));
    assert_eq!(last(&a), Action::Issue(Command::ResumeGameTime));
    assert_eq!(reads(&a).len(), 4);
}

#[test]
fn overlay_count_zero_reads_empty_entries() {
    let mut s = attached();
    let a = run_tick(&mut s, 7, RUNNING, &running_memory(0, &[]));
    assert_eq!(last(&a), Action::Issue(Command::ResumeGameTime));
    assert_eq!(reads(&a)[4], (PTRS, 0));
    assert_eq!(reads(&a).len(), 5);
}

#[test]
fn overlay_count_eight_reads_every_entry() {
    let mut s = attached();
    let records = [(0x5000, 3); 8];
    let a = run_tick(&mut s, 7, RUNNING, &running_memory(8, &records));
    assert_eq!(last(&a), Action::Issue(Command::ResumeGameTime));
    let r = reads(&a);
    assert_eq!(r[4], (PTRS, 32));
    assert_eq!(r.len(), 5 + 8);
    assert_eq!(r[12], (0x4700, 8));
}

#[test]
fn overlay_with_other_length_is_skipped() {
    let mut s = attached();
    let mut m = running_memory(1, &[(0x5000, 0x36)]);
    m.put(0x5000, name_bytes());
    let a = run_tick(&mut s, 7, RUNNING, &m);
    assert_eq!(last(&a), Action::Issue(Command::ResumeGameTime));
    assert!(!reads(&a).contains(&(0x5000, NAME_BYTES)));
}

#[test]
fn overlay_with_zero_length_is_skipped() {
    let mut s = attached();
    let a = run_tick(&mut s, 7, RUNNING, &running_memory(1, &[(0x5000, 0)]));
    assert_eq!(last(&a), Action::Issue(Command::ResumeGameTime));
}

#[test]
fn loading_screen_overlay_pauses_and_stops_scan() {
    let mut s = attached();
    let mut m = running_memory(3, &[(0x6000, 5), (0x5000, 0x37), (0x7000, 0x37)]);
    m.put(0x5000, name_bytes());
    let a = run_tick(&mut s, 7, RUNNING, &m);
    assert_eq!(last(&a), Action::Issue(Command::PauseGameTime));
    let r = reads(&a);
    assert_eq!(r[r.len() - 1], (0x5000, NAME_BYTES));
    assert!(!r.contains(&(0x4200, 8)));
}

#[test]
fn other_name_of_same_length_resumes() {
    let mut s = attached();
    let mut m = running_memory(1, &[(0x5000, 0x37)]);
    let mut name = name_bytes();
    name[0] = b'X';
    m.put(0x5000, name);
    let a = run_tick(&mut s, 7, RUNNING, &m);
    assert_eq!(last(&a), Action::Issue(Command::ResumeGameTime));
}

#[test]
fn read_failure_at_second_step_issues_nothing() {
    let mut s = attached();
    run_tick(&mut s, 7, NOT_RUNNING, &not_running_memory(0, 0));
    run_tick(&mut s, 7, NOT_RUNNING, &not_running_memory(1, 0));
    let mut m = running_memory(0, &[]);
    m.regions.retain(|(a, _)| *a != LOAD_STATE + 4);
    let a = run_tick(&mut s, 7, RUNNING, &m);
    assert_eq!(last(&a), Action::Abort);
    assert!(!a.iter().any(|x| matches!(x, Action::Issue(_))));
    assert_eq!(s.after_logo.old, 0);
    assert_eq!(s.after_logo.current, 1);
    assert_eq!(s.step, Step::Idle);
}

#[test]
fn read_of_wrong_length_aborts() {
    let mut s = attached();
    s.step(Event::Tick);
    s.step(Event::Phase(RUNNING));
    assert_eq!(s.step(Event::ReadOk(vec![1, 2, 3])), Action::Abort);
    assert_eq!(s.step, Step::Idle);
}

#[test]
fn event_out_of_turn_aborts() {
    let mut s = EngineState::new();
    assert_eq!(s.step(Event::Phase(RUNNING)), Action::Abort);
    assert_eq!(s.step(Event::Tick), Action::Attach);
    assert_eq!(s.step(Event::Tick), Action::Abort);
}

#[test]
fn finished_timer_does_nothing() {
    let mut s = attached();
    let a = run_tick(&mut s, 7, FINISHED, &running_memory(0, &[]));
    assert_eq!(a, vec![Action::QueryTimerState, Action::Idle]);
}

#[test]
fn detach_hands_back_process() {
    let mut s = attached();
    let p = s.detach().unwrap();
    assert_eq!(p.raw(), 7);
    assert!(s.process.is_none());
    let a = run_tick(&mut s, INVALID_PROCESS_HANDLE, RUNNING, &Memory::new());
    assert_eq!(a[0], Action::Attach);
}

#[test]
fn read_addresses_follow_pointers() {
    let mut s = attached();
    let a = run_tick(&mut s, 7, RUNNING, &running_memory(0, &[]));
    let r = reads(&a);
    assert_eq!(r[0], (0x1815_4E8, 4));
    assert_eq!(r[1], (LOAD_STATE + 4, 4));
    assert_eq!(r[2], (0x1815_A30, 4));
    assert_eq!(r[3], (UI_STATE + 0x124, 8));
    let _ = Address(0);
}
