use auto_targeting::state_machine::{is_transition_allowed, StateMachine, StateTransitionError};
use auto_targeting::types::SystemState;

#[test]
fn normal_flow_idle_to_tracking() {
    let mut sm = StateMachine::new(SystemState::Idle);
    assert!(sm.try_transition(SystemState::Armed).is_ok());
    assert!(sm.try_transition(SystemState::Scanning).is_ok());
    assert!(sm.try_transition(SystemState::TargetSelected).is_ok());
    assert!(sm.try_transition(SystemState::Tracking).is_ok());
    assert_eq!(sm.transition_count(), 4);
}

#[test]
fn rejects_invalid_transition() {
    let mut sm = StateMachine::new(SystemState::Idle);
    let err = sm.try_transition(SystemState::Tracking).unwrap_err();
    assert_eq!(
        err,
        StateTransitionError::Invalid {
            from: SystemState::Idle,
            to: SystemState::Tracking,
        }
    );
}

#[test]
fn tracking_to_lost_to_rth() {
    let mut sm = StateMachine::new(SystemState::Tracking);
    assert!(sm.try_transition(SystemState::Lost).is_ok());
    assert!(sm.try_transition(SystemState::Rth).is_ok());
}

#[test]
fn lost_to_tracking_reacquired() {
    let mut sm = StateMachine::new(SystemState::Lost);
    assert!(sm.try_transition(SystemState::Tracking).is_ok());
}

#[test]
fn any_state_to_abort() {
    for from in [
        SystemState::Idle,
        SystemState::Armed,
        SystemState::Scanning,
        SystemState::TargetSelected,
        SystemState::Tracking,
        SystemState::TrackingDegraded,
        SystemState::Lost,
        SystemState::Rth,
    ] {
        let mut sm = StateMachine::new(from);
        assert!(
            sm.try_transition(SystemState::Abort).is_ok(),
            "should be able to ABORT from {:?}",
            from
        );
    }
}

#[test]
fn abort_only_goes_to_idle() {
    let mut sm = StateMachine::new(SystemState::Abort);
    assert!(sm.try_transition(SystemState::Tracking).is_err());
    assert!(sm.try_transition(SystemState::Scanning).is_err());
    assert!(sm.try_transition(SystemState::Idle).is_ok());
}

#[test]
fn idempotent_transition_is_ok() {
    let mut sm = StateMachine::new(SystemState::Tracking);
    assert!(sm.try_transition(SystemState::Tracking).is_ok());
    assert_eq!(sm.transition_count(), 0);
}

#[test]
fn force_transition_bypasses_check() {
    let mut sm = StateMachine::new(SystemState::Idle);
    sm.force_transition(SystemState::Tracking);
    assert_eq!(sm.state(), SystemState::Tracking);
    assert_eq!(sm.transition_count(), 1);
}

#[test]
fn tracking_degraded_round_trip() {
    let mut sm = StateMachine::new(SystemState::Tracking);
    assert!(sm.try_transition(SystemState::TrackingDegraded).is_ok());
    assert!(sm.try_transition(SystemState::Tracking).is_ok());
}

#[test]
fn operator_can_restart_scan_from_tracking() {
    let mut sm = StateMachine::new(SystemState::Tracking);
    assert!(sm.try_transition(SystemState::Scanning).is_ok());
}

#[test]
fn full_loss_recovery_cycle() {
    let mut sm = StateMachine::new(SystemState::Tracking);
    sm.try_transition(SystemState::Lost).unwrap();
    sm.try_transition(SystemState::Tracking).unwrap();
    sm.try_transition(SystemState::Lost).unwrap();
    sm.try_transition(SystemState::Rth).unwrap();
    sm.try_transition(SystemState::Idle).unwrap();
    assert_eq!(sm.state(), SystemState::Idle);
    assert_eq!(sm.transition_count(), 5);
}

#[test]
fn refused_transition_leaves_machine_unchanged() {
    let mut sm = StateMachine::new(SystemState::Armed);
    assert!(sm.try_transition(SystemState::Tracking).is_err());
    assert_eq!(sm.state(), SystemState::Armed);
    assert_eq!(sm.transition_count(), 0);
}

#[test]
fn force_to_same_state_is_not_counted() {
    let mut sm = StateMachine::new(SystemState::Abort);
    sm.force_transition(SystemState::Abort);
    assert_eq!(sm.transition_count(), 0);
}

#[test]
fn table_has_exactly_the_documented_edges() {
    let all = [
        SystemState::Idle,
        SystemState::Armed,
        SystemState::Scanning,
        SystemState::TargetSelected,
        SystemState::Tracking,
        SystemState::TrackingDegraded,
        SystemState::Lost,
        SystemState::Rth,
        SystemState::Abort,
    ];
    let mut allowed = 0;
    for from in all {
        for to in all {
            if is_transition_allowed(from, to) {
                allowed += 1;
            }
        }
    }
    // 17 ordinary edges, 9 into ABORT, ABORT -> IDLE.
    assert_eq!(allowed, 27);
    assert!(!is_transition_allowed(SystemState::Idle, SystemState::Scanning));
    assert!(is_transition_allowed(SystemState::TargetSelected, SystemState::TrackingDegraded));
}

#[test]
fn transition_error_message() {
    let e = StateTransitionError::Invalid { from: SystemState::Idle, to: SystemState::Tracking };
    assert_eq!(e.message(), "invalid transition: IDLE -> TRACKING");
    let t = StateTransitionError::TerminalState(SystemState::Abort);
    assert_eq!(t.message(), "cannot transition from terminal state: ABORT");
}

#[test]
fn state_names() {
    assert_eq!(SystemState::TargetSelected.as_str(), "TARGET_SELECTED");
    assert_eq!(SystemState::TrackingDegraded.as_str(), "TRACKING_DEGRADED");
    assert_eq!(SystemState::default(), SystemState::Idle);
    assert_eq!(StateMachine::default().state(), SystemState::Idle);
}
