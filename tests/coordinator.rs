use process_watcher::coordinator::{
    replay, running_icon, stopped_icon, transition, Coordinator, Edge, Icon, Message, Step,
};
use process_watcher::poller::{PollAction, Poller, WaitOutcome};

fn set_calls(u: &[Option<Icon>]) -> usize {
    u.iter().filter(|x| x.is_some()).count()
}

#[test]
fn icon_set_only_on_changes() {
    let u = replay(&vec![true, true, false], false);
    assert_eq!(u, vec![Some(Icon::Okay), None, Some(Icon::Cancel)]);
}

#[test]
fn first_false_sample_touches_nothing() {
    let u = replay(&vec![false, false, true, false, false], false);
    assert_eq!(u, vec![None, None, Some(Icon::Okay), Some(Icon::Cancel), None]);
}

#[test]
fn steady_running_sets_icon_once() {
    assert_eq!(set_calls(&replay(&vec![true, true, true], false)), 1);
    assert_eq!(set_calls(&replay(&vec![true; 50], true)), 1);
}

#[test]
fn empty_sequence_sets_nothing() {
    assert!(replay(&vec![], false).is_empty());
}

#[test]
fn inversion_swaps_icons() {
    let s = vec![true, false, false, true, true, false];
    let plain = replay(&s, false);
    let inverted = replay(&s, true);
    assert_eq!(plain.len(), inverted.len());
    for (p, i) in plain.iter().zip(inverted.iter()) {
        match p {
            None => assert_eq!(*i, None),
            Some(Icon::Okay) => assert_eq!(*i, Some(Icon::Cancel)),
            Some(Icon::Cancel) => assert_eq!(*i, Some(Icon::Okay)),
        }
    }
    assert_eq!(inverted[0], Some(Icon::Cancel));
}

#[test]
fn quit_before_any_sample() {
    let mut c = Coordinator::new(false);
    assert_eq!(c.handle(Message::Quit), Step::Shutdown);
    assert!(!c.observed());
    let mut p = Poller::new();
    assert_eq!(p.after_wait(WaitOutcome::StopSignal), PollAction::Exit);
    assert!(p.is_stopped());
}

#[test]
fn handle_tracks_state() {
    let mut c = Coordinator::new(true);
    assert!(c.inverted());
    assert_eq!(c.handle(Message::ProcessUpdate(false)), Step::Unchanged);
    assert_eq!(c.handle(Message::ProcessUpdate(true)), Step::SetIcon(Icon::Cancel));
    assert!(c.observed());
    assert_eq!(c.handle(Message::ProcessUpdate(true)), Step::Unchanged);
    assert_eq!(c.handle(Message::Quit), Step::Shutdown);
    assert!(c.observed());
    assert_eq!(c.handle(Message::ProcessUpdate(false)), Step::SetIcon(Icon::Okay));
    assert!(!c.observed());
}

#[test]
fn transition_edges() {
    assert_eq!(transition(false, true), (true, Some(Edge::Started)));
    assert_eq!(transition(true, false), (false, Some(Edge::Stopped)));
    assert_eq!(transition(true, true), (true, None));
    assert_eq!(transition(false, false), (false, None));
}

#[test]
fn icons_and_names() {
    assert_eq!(running_icon(false), Icon::Okay);
    assert_eq!(stopped_icon(false), Icon::Cancel);
    assert_eq!(running_icon(true), Icon::Cancel);
    assert_eq!(stopped_icon(true), Icon::Okay);
    assert_eq!(Icon::Okay.name(), "ok");
    assert_eq!(Icon::Cancel.name(), "cancel");
}
