use gaspi::errors::MonitorError;
use gaspi::power::PowerModel;
use gaspi::session::FixedSession;
use gaspi::telemetry::TelemetrySnapshot;

fn cold_idle_snapshot() -> TelemetrySnapshot {
    TelemetrySnapshot {
        cpu_usage_millipct: 0,
        memory_usage_millipct: 0,
        temperature_millic: Some(40_000),
    }
}

#[test]
fn zero_duration_session_does_not_crash() {
    let session = FixedSession::new(PowerModel::default(), 0);
    assert!(!session.should_continue(0));
    assert!(session.stats_would_fit());
    assert_eq!(session.finish(), Err(MonitorError::EmptySample));
}

#[test]
fn termination_is_checked_against_elapsed_time() {
    let session = FixedSession::new(PowerModel::default(), 3);
    assert!(session.should_continue(0));
    assert!(session.should_continue(2));
    assert!(!session.should_continue(3));
    assert!(!session.should_continue(100));
}

#[test]
fn a_full_session_accumulates_and_accounts() {
    let mut session = FixedSession::new(PowerModel::default(), 3_600);
    let snapshot = cold_idle_snapshot();
    for i in 0..3usize {
        assert_eq!(session.record_sample(&snapshot), Some(5_000));
        assert_eq!(session.readings_mw.len(), i + 1);
    }
    assert!(session.stats_would_fit());
    let stats = session.finish().unwrap();
    assert_eq!(stats.average_power_mw, 5_000);
    assert_eq!(stats.energy_mwh, 5_000);
    assert_eq!(stats.ghg_emissions_mg, 300);
    assert_eq!(stats.primary_energy_j, 51_150);
}

#[test]
fn a_sample_that_cannot_be_recorded_leaves_the_session_unchanged() {
    let model = PowerModel::from_overrides(None, None, Some(u64::MAX), None, None, None);
    let mut session = FixedSession::new(model, 10);
    let overflowing = TelemetrySnapshot {
        cpu_usage_millipct: 0,
        memory_usage_millipct: u64::MAX,
        temperature_millic: None,
    };
    assert_eq!(session.record_sample(&overflowing), None);
    assert_eq!(session.readings_mw.len(), 0);
}
