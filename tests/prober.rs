use process_watcher::prober::{any_running, process_exists, RunState};

#[test]
fn no_match_is_not_running() {
    assert!(!any_running(&vec![]));
    assert!(!process_exists("no-such-process-\u{7f}-zz"));
}

#[test]
fn non_running_states_are_not_running() {
    assert!(!any_running(&vec![RunState::Stopped]));
    assert!(!any_running(&vec![RunState::Zombie]));
    assert!(!any_running(&vec![RunState::Sleeping, RunState::Idle, RunState::Other]));
}

#[test]
fn one_running_instance_is_enough() {
    assert!(any_running(&vec![RunState::Running]));
    assert!(any_running(&vec![RunState::Stopped, RunState::Zombie, RunState::Running]));
}
