use mixxc::server::gate::{CommandGate, GateState};
use mixxc::server::pulse::{ConnectionState, Pulse};

#[test]
fn gate_grants_only_a_posted_request() {
    let mut gate = CommandGate::new();
    assert_eq!(gate.state(), GateState::Idle);
    assert!(gate.try_grant().is_none());
    gate.request();
    assert_eq!(gate.state(), GateState::RequestPending);
    let handle = gate.try_grant();
    assert!(handle.is_some());
    assert_eq!(gate.state(), GateState::Granted);
    gate.release(handle.unwrap());
    assert_eq!(gate.state(), GateState::Idle);
}

#[test]
fn at_most_one_handle_is_ever_out() {
    let mut gate = CommandGate::new();
    gate.request();
    let first = gate.try_grant();
    assert!(first.is_some());
    // A second caller asking while the first holds the session queues: the
    // request does not take, and the boundary check mints no second handle.
    gate.request();
    assert_eq!(gate.state(), GateState::Granted);
    assert!(gate.try_grant().is_none());
    assert!(gate.try_grant().is_none());
    // Only after the release can the next request be granted.
    gate.release(first.unwrap());
    gate.request();
    let second = gate.try_grant();
    assert!(second.is_some());
    gate.release(second.unwrap());
}

#[test]
fn waiting_callers_bail_out_once_the_session_is_over() {
    let mut pulse = Pulse::new();
    assert!(pulse.connect().is_ok());
    assert!(pulse.lock_check().is_ok());
    assert!(pulse.on_state_change(ConnectionState::Ready, 0).is_some());
    assert!(pulse.lock_check().is_ok());
    assert!(pulse.disconnect().is_some());
    assert!(pulse.lock_check().is_err());
}

#[test]
fn loop_boundary_check_hands_the_gate_over() {
    let mut pulse = Pulse::new();
    assert!(pulse.connect().is_ok());
    assert!(pulse.on_state_change(ConnectionState::Ready, 0).is_some());
    assert!(pulse.is_locked().is_none());
    pulse.gate.request();
    let handle = pulse.is_locked();
    assert!(handle.is_some());
    assert!(pulse.is_locked().is_none());
    pulse.gate.release(handle.unwrap());
    assert!(pulse.is_locked().is_none());
}
