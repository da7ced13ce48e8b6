//! The process prober: is a process of a given name in a running state?
//!
//! The process table comes from sysinfo. Processes are matched by their
//! exact name. When several processes share the name, the answer is yes as
//! soon as any one of them is running.
use sysinfo::{ProcessExt, ProcessStatus, System, SystemExt};
use vstd::multiset::Multiset;
use vstd::prelude::*;

verus! {

#[verifier::external_type_specification]
#[verifier::external_body]
pub struct ExSystem(System);

/// The run state of a process, as far as the prober tells states apart.
#[derive(Clone, Copy, Debug, PartialEq, Eq, Structural)]
pub enum RunState {
    Running,
    Sleeping,
    Idle,
    Stopped,
    Zombie,
    Other,
}

/// What a process table holds: the name and run state of each process it
/// lists, with no order among them.
pub uninterp spec fn entries_of(sys: System) -> Multiset<(Seq<char>, RunState)>;

/// Relies on sysinfo's `SystemExt::new`: a process table with nothing
/// loaded yet.
#[verifier::external_body]
fn new_table() -> System {
    System::new()
}

/// Relies on sysinfo's `SystemExt::refresh_processes`: loads the processes
/// that exist now into the table.
#[verifier::external_body]
fn refresh_table(sys: &mut System) {
    sys.refresh_processes()
}

/// Relies on sysinfo's `SystemExt::processes_by_exact_name`, which walks
/// the table's processes and keeps those whose name equals `name`, each
/// mapped through `ProcessExt::status` to its run state: every state handed
/// back belongs to a process of exactly that name, and every such process
/// is handed back.
#[verifier::external_body]
fn states_named(sys: &System, name: &str) -> (r: Vec<RunState>)
    ensures
        forall|i: int| 0 <= i < r@.len() ==> entries_of(*sys).contains((name@, #[trigger] r@[i])),
        forall|s: RunState| #[trigger] entries_of(*sys).contains((name@, s)) ==> r@.contains(s),
{
    sys.processes_by_exact_name(name).map(|p| match p.status() {
        ProcessStatus::Run => RunState::Running,
        ProcessStatus::Sleep => RunState::Sleeping,
        ProcessStatus::Idle => RunState::Idle,
        ProcessStatus::Stop => RunState::Stopped,
        ProcessStatus::Zombie => RunState::Zombie,
        _ => RunState::Other,
    }).collect()
}

/// Whether any of the matched processes is running: no match at all is a
/// plain `false`, and a stopped or zombie process does not count.
pub fn any_running(states: &Vec<RunState>) -> (r: bool)
    ensures
        r == states@.contains(RunState::Running),
{
    let mut i: usize = 0;
    while i < states.len()
        invariant
            i <= states@.len(),
            forall|j: int| 0 <= j < i ==> states@[j] != RunState::Running,
        decreases states@.len() - i,
    {
        if states[i] == RunState::Running {
            return true;
        }
        i = i + 1;
    }
    false
}

/// Whether the table lists a running process named exactly `name`.
pub fn process_running_in(sys: &System, name: &str) -> (r: bool)
    ensures
        r == entries_of(*sys).contains((name@, RunState::Running)),
{
    let states = states_named(sys, name);
    let r = any_running(&states);
    proof {
        if r {
            let i = choose|i: int| 0 <= i < states@.len() && states@[i] == RunState::Running;
            assert(entries_of(*sys).contains((name@, states@[i])));
        }
    }
    r
}

/// Whether a process named exactly `name` is running now, by a fresh read
/// of the process table: the answer is the one `process_running_in` gives
/// for that snapshot, which depends on the machine at the moment of the
/// call.
pub fn process_exists(name: &str) -> (r: bool)
    ensures
        exists|t: System| r == #[trigger] entries_of(t).contains((name@, RunState::Running)),
{
    let mut sys = new_table();
    refresh_table(&mut sys);
    let r = process_running_in(&sys, name);
    assert(r == entries_of(sys).contains((name@, RunState::Running)));
    r
}

} // verus!
