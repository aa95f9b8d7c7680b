use web_server::listener::{next, start, Outcome, Phase, Task};
use web_server::Timing;

#[test]
fn loop_starts_by_binding() {
    assert_eq!(start(), (Phase::Binding, Task::Bind));
}

#[test]
fn bound_address_is_accepted_on() {
    assert_eq!(next(Phase::Binding, Outcome::Bound), (Phase::Accepting, Task::Accept));
}

#[test]
fn bind_failure_is_fatal() {
    assert_eq!(next(Phase::Binding, Outcome::BindFailed), (Phase::Stopped, Task::GiveUp));
}

#[test]
fn accepted_connection_is_served_and_the_loop_goes_on() {
    assert_eq!(next(Phase::Accepting, Outcome::Accepted), (Phase::Accepting, Task::Serve));
}

#[test]
fn accept_failure_is_reported_and_the_loop_goes_on() {
    assert_eq!(next(Phase::Accepting, Outcome::AcceptFailed), (Phase::Accepting, Task::Report));
}

#[test]
fn loop_survives_any_run_of_accepts_and_failures() {
    let (mut phase, _) = next(start().0, Outcome::Bound);
    let mut served = 0;
    let mut reported = 0;
    for round in 0..1000 {
        let outcome = if round % 7 == 3 { Outcome::AcceptFailed } else { Outcome::Accepted };
        let (after, task) = next(phase, outcome);
        phase = after;
        match task {
            Task::Serve => served += 1,
            Task::Report => reported += 1,
            _ => panic!("the loop goes on"),
        }
    }
    assert_eq!(phase, Phase::Accepting);
    assert_eq!(served, 857);
    assert_eq!(reported, 143);
}

#[test]
fn stopped_loop_stays_stopped() {
    for outcome in [Outcome::Bound, Outcome::BindFailed, Outcome::Accepted, Outcome::AcceptFailed] {
        assert_eq!(next(Phase::Stopped, outcome), (Phase::Stopped, Task::GiveUp));
    }
}

#[test]
fn outcome_out_of_turn_stops_the_loop() {
    assert_eq!(next(Phase::Binding, Outcome::Accepted), (Phase::Stopped, Task::GiveUp));
    assert_eq!(next(Phase::Binding, Outcome::AcceptFailed), (Phase::Stopped, Task::GiveUp));
    assert_eq!(next(Phase::Accepting, Outcome::Bound), (Phase::Stopped, Task::GiveUp));
    assert_eq!(next(Phase::Accepting, Outcome::BindFailed), (Phase::Stopped, Task::GiveUp));
}

#[test]
fn overhead_is_total_less_handler_time() {
    assert_eq!(Timing { handler: 1_200, total: 5_000 }.overhead(), Some(3_800));
    assert_eq!(Timing { handler: 0, total: 0 }.overhead(), Some(0));
    assert_eq!(Timing { handler: 7, total: 7 }.overhead(), Some(0));
    assert_eq!(Timing { handler: 0, total: u128::MAX }.overhead(), Some(u128::MAX));
}

#[test]
fn overhead_of_impossible_measurement_is_none() {
    assert_eq!(Timing { handler: 2, total: 1 }.overhead(), None);
    assert_eq!(Timing { handler: u128::MAX, total: 0 }.overhead(), None);
}
