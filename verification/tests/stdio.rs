use native_threads::stdio::STANDARD_DESCRIPTORS;
use native_threads::{Action, Event, Probe, Repair};

#[test]
fn repair_starts_at_descriptor_zero() {
    let (state, action) = Repair::start();
    assert_eq!(state, Repair::Probing(0));
    assert_eq!(action, Action::Probe(0));
    assert_eq!(state.action(), Action::Probe(0));
}

#[test]
fn there_are_three_standard_descriptors() {
    assert_eq!(STANDARD_DESCRIPTORS, 3);
}

#[test]
fn open_descriptors_are_left_alone() {
    let (state, _) = Repair::start();
    let (state, action) = state.step(Event::Probed(Probe::Open));
    assert_eq!((state, action), (Repair::Probing(1), Action::Probe(1)));
    let (state, action) = state.step(Event::Probed(Probe::Open));
    assert_eq!((state, action), (Repair::Probing(2), Action::Probe(2)));
    let (state, action) = state.step(Event::Probed(Probe::Open));
    assert_eq!((state, action), (Repair::Done, Action::Finish));
}

#[test]
fn closed_descriptors_get_the_null_device() {
    let (mut state, mut action) = Repair::start();
    let mut open = [false, false, false];
    let mut opened = 0;
    let mut rounds = 0;
    while action != Action::Finish {
        let event = match action {
            Action::Probe(fd) => {
                if open[fd as usize] { Event::Probed(Probe::Open) } else { Event::Probed(Probe::Closed) }
            }
            Action::OpenNullDevice => {
                let lowest = open.iter().position(|taken| !taken).unwrap();
                open[lowest] = true;
                opened += 1;
                Event::Opened(lowest as i32)
            }
            other => panic!("unexpected action {:?}", other),
        };
        (state, action) = state.step(event);
        rounds += 1;
    }
    assert_eq!(state, Repair::Done);
    assert_eq!(open, [true, true, true]);
    assert_eq!(opened, 3);
    assert_eq!(rounds, 6);
}

#[test]
fn only_the_closed_descriptor_is_repaired() {
    let (state, _) = Repair::start();
    let (state, action) = state.step(Event::Probed(Probe::Open));
    assert_eq!(action, Action::Probe(1));
    let (state, action) = state.step(Event::Probed(Probe::Closed));
    assert_eq!((state, action), (Repair::Opening(1), Action::OpenNullDevice));
    let (state, action) = state.step(Event::Opened(1));
    assert_eq!((state, action), (Repair::Probing(2), Action::Probe(2)));
    let (state, action) = state.step(Event::Probed(Probe::Open));
    assert_eq!((state, action), (Repair::Done, Action::Finish));
}

#[test]
fn other_errors_do_not_open_anything() {
    let (state, _) = Repair::start();
    let (state, action) = state.step(Event::Probed(Probe::Unknown));
    assert_eq!((state, action), (Repair::Probing(1), Action::Probe(1)));
}

#[test]
fn failure_to_open_the_null_device_aborts() {
    let (state, _) = Repair::start();
    let (state, _) = state.step(Event::Probed(Probe::Closed));
    let (state, action) = state.step(Event::OpenFailed(24));
    assert_eq!((state, action), (Repair::Aborted(24), Action::Abort(24)));
    let (state, action) = state.step(Event::Probed(Probe::Open));
    assert_eq!((state, action), (Repair::Aborted(24), Action::Abort(24)));
}

#[test]
fn report_that_answers_nothing_changes_nothing() {
    let (state, _) = Repair::start();
    let (state, action) = state.step(Event::Opened(0));
    assert_eq!((state, action), (Repair::Probing(0), Action::Probe(0)));
    let (state, action) = state.step(Event::OpenFailed(5));
    assert_eq!((state, action), (Repair::Probing(0), Action::Probe(0)));
    let (state, _) = state.step(Event::Probed(Probe::Closed));
    let (state, action) = state.step(Event::Probed(Probe::Open));
    assert_eq!((state, action), (Repair::Opening(0), Action::OpenNullDevice));
}

#[test]
fn finished_repair_stays_finished() {
    let (state, action) = Repair::Done.step(Event::Probed(Probe::Closed));
    assert_eq!((state, action), (Repair::Done, Action::Finish));
}

#[test]
fn descriptors_outside_the_standard_ones_end_the_repair() {
    let (state, action) = Repair::Probing(2).step(Event::Probed(Probe::Open));
    assert_eq!((state, action), (Repair::Done, Action::Finish));
    let (state, action) = Repair::Probing(7).step(Event::Probed(Probe::Open));
    assert_eq!((state, action), (Repair::Done, Action::Finish));
    let (state, action) = Repair::Probing(-1).step(Event::Probed(Probe::Open));
    assert_eq!((state, action), (Repair::Done, Action::Finish));
    let (state, action) = Repair::Opening(i32::MAX).step(Event::Opened(3));
    assert_eq!((state, action), (Repair::Done, Action::Finish));
}
