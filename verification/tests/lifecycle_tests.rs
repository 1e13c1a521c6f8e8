use trade_fleet::lifecycle::{
    after_shutdown_signal, final_status, supervisor_step, RunOutcome, ServiceStatus, StatusEvent,
};
use trade_fleet::recovery::{flag_byte, parse_flag};
use trade_fleet::shutdown::{
    supervise_shutdown, unit_wait, FailureKind, GIVE_UP_AFTER_MS, WARN_AFTER_MS,
};

#[test]
fn status_byte_encoding_round_trips() {
    for status in [
        ServiceStatus::Started,
        ServiceStatus::Finished,
        ServiceStatus::Failed,
    ] {
        assert_eq!(ServiceStatus::from_byte(status.to_byte()), Some(status));
    }
    assert_eq!(ServiceStatus::Started.to_byte(), 0);
    assert_eq!(ServiceStatus::Finished.to_byte(), 1);
    assert_eq!(ServiceStatus::Failed.to_byte(), 2);
}

#[test]
fn illegal_status_bytes_are_rejected() {
    for b in [3u8, 4, 17, 255] {
        assert_eq!(ServiceStatus::from_byte(b), None);
    }
}

#[test]
fn terminal_statuses() {
    assert!(!ServiceStatus::Started.is_terminal());
    assert!(ServiceStatus::Finished.is_terminal());
    assert!(ServiceStatus::Failed.is_terminal());
}

#[test]
fn run_outcomes_map_to_final_statuses() {
    assert_eq!(final_status(RunOutcome::Completed), ServiceStatus::Finished);
    assert_eq!(final_status(RunOutcome::Errored), ServiceStatus::Failed);
    assert_eq!(final_status(RunOutcome::Aborted), ServiceStatus::Finished);
}

#[test]
fn supervisor_mirrors_status_reports() {
    let (cell, done) = supervisor_step(
        ServiceStatus::Started,
        StatusEvent::Reported(ServiceStatus::Started),
    );
    assert_eq!(cell, ServiceStatus::Started);
    assert!(!done);

    let (cell, done) = supervisor_step(
        ServiceStatus::Started,
        StatusEvent::Reported(ServiceStatus::Failed),
    );
    assert_eq!(cell, ServiceStatus::Failed);
    assert!(done);

    let (cell, done) = supervisor_step(ServiceStatus::Started, StatusEvent::ChannelClosed);
    assert_eq!(cell, ServiceStatus::Finished);
    assert!(done);
}

#[test]
fn duplicate_shutdown_signal_is_harmless() {
    for start in [
        ServiceStatus::Started,
        ServiceStatus::Finished,
        ServiceStatus::Failed,
    ] {
        let once = after_shutdown_signal(start);
        let twice = after_shutdown_signal(once);
        assert_eq!(once, ServiceStatus::Finished);
        assert_eq!(twice, once);
        assert!(twice.is_terminal());
    }
}

#[test]
fn unit_wait_follows_escalation_policy() {
    assert!(WARN_AFTER_MS < GIVE_UP_AFTER_MS);
    assert_eq!(unit_wait(Some(0)), (0, true));
    assert_eq!(unit_wait(Some(1500)), (1500, true));
    assert_eq!(unit_wait(Some(GIVE_UP_AFTER_MS)), (GIVE_UP_AFTER_MS, true));
    assert_eq!(
        unit_wait(Some(GIVE_UP_AFTER_MS + 1)),
        (GIVE_UP_AFTER_MS, false)
    );
    assert_eq!(unit_wait(None), (GIVE_UP_AFTER_MS, false));
}

#[test]
fn stuck_service_bounds_total_wait_and_taints_exit() {
    // one unit never observes its cancellation signal
    let report = supervise_shutdown(&vec![Some(100), None, Some(5000)]);
    assert_eq!(report.total_wait_ms, 100 + 3000 + 3000);
    assert!(report.total_wait_ms <= 3 * GIVE_UP_AFTER_MS);
    assert!(!report.all_in_time);
    assert_eq!(report.exit_code, -1);
}

#[test]
fn clean_shutdown_exits_zero() {
    let report = supervise_shutdown(&vec![Some(10), Some(0), Some(2999)]);
    assert_eq!(report.total_wait_ms, 3009);
    assert!(report.all_in_time);
    assert_eq!(report.exit_code, 0);
}

#[test]
fn empty_fleet_shuts_down_at_once() {
    let report = supervise_shutdown(&vec![]);
    assert_eq!(report.total_wait_ms, 0);
    assert_eq!(report.exit_code, 0);
}

#[test]
fn failure_taxonomy_classification() {
    assert!(FailureKind::FatalInit.halts_process_immediately());
    assert!(!FailureKind::Transport.halts_process_immediately());
    assert!(FailureKind::ProtocolDecode.aborts_only_one_request());
    assert!(!FailureKind::RunFailure.aborts_only_one_request());
    assert!(FailureKind::FatalInit.taints_exit_code());
    assert!(FailureKind::ShutdownTimeout.taints_exit_code());
    assert!(!FailureKind::Transport.taints_exit_code());
    assert!(!FailureKind::RunFailure.taints_exit_code());
    assert!(!FailureKind::ProtocolDecode.taints_exit_code());
}

#[test]
fn recovery_flag_round_trips() {
    assert_eq!(flag_byte(true), 1);
    assert_eq!(flag_byte(false), 0);
    assert!(parse_flag(1, flag_byte(true)));
    assert!(!parse_flag(1, flag_byte(false)));
    // an empty flag file records nothing
    assert!(!parse_flag(0, 0));
    assert!(!parse_flag(0, 1));
    // any byte other than one is not a live mark
    assert!(!parse_flag(1, 2));
}
