use frame_relay::pump::ExitCause;
use frame_relay::session::ConnectOutcome;
use frame_relay::session::Direction;
use frame_relay::session::LoopState;
use frame_relay::session::Phase;
use frame_relay::session::Session;

#[test]
fn failed_connect_aborts_and_starts_no_loop() {
    let mut s = Session::new();
    let r = s.establish(ConnectOutcome::Failed(String::from("connection refused")));
    let e = r.expect_err("a failed connect must surface an establishment error");
    assert_eq!(e.detail, String::from("connection refused"));
    assert_eq!(s.phase, Phase::Aborted);
    assert_eq!(
        s.direction_state(Direction::InboundToOutbound),
        LoopState::NotStarted
    );
    assert_eq!(
        s.direction_state(Direction::OutboundToInbound),
        LoopState::NotStarted
    );
}

#[test]
fn successful_connect_starts_both_loops() {
    let mut s = Session::new();
    assert_eq!(s.phase, Phase::Establishing);
    let r = s.establish(ConnectOutcome::Connected);
    assert!(r.is_ok());
    assert_eq!(s.phase, Phase::Relaying);
    assert_eq!(
        s.direction_state(Direction::InboundToOutbound),
        LoopState::Running
    );
    assert_eq!(
        s.direction_state(Direction::OutboundToInbound),
        LoopState::Running
    );
}

#[test]
fn one_direction_exiting_leaves_the_sibling_running() {
    // The current contract has no cross-cancellation: the inbound-to-outbound
    // loop failing its read leaves the outbound-to-inbound loop relaying.
    let mut s = Session::new();
    s.establish(ConnectOutcome::Connected).unwrap();
    s.loop_exited(Direction::InboundToOutbound, ExitCause::ReadFailed);
    assert_eq!(
        s.direction_state(Direction::InboundToOutbound),
        LoopState::Closed(ExitCause::ReadFailed)
    );
    assert_eq!(
        s.direction_state(Direction::OutboundToInbound),
        LoopState::Running
    );
    assert!(!s.is_finished());
}

#[test]
fn session_finishes_when_both_directions_have_exited() {
    let mut s = Session::new();
    s.establish(ConnectOutcome::Connected).unwrap();
    s.loop_exited(Direction::OutboundToInbound, ExitCause::EndOfStream);
    assert!(!s.is_finished());
    s.loop_exited(Direction::InboundToOutbound, ExitCause::WriteFailed);
    assert!(s.is_finished());
    assert_eq!(
        s.direction_state(Direction::OutboundToInbound),
        LoopState::Closed(ExitCause::EndOfStream)
    );
}

#[test]
fn directions_are_each_others_siblings() {
    assert_eq!(
        Direction::InboundToOutbound.other(),
        Direction::OutboundToInbound
    );
    assert_eq!(
        Direction::OutboundToInbound.other(),
        Direction::InboundToOutbound
    );
}
