use gaspi::errors::MonitorError;
use gaspi::power::PowerModel;
use gaspi::stream::StreamSession;
use gaspi::telemetry::TelemetrySnapshot;

fn cold_idle_snapshot() -> TelemetrySnapshot {
    TelemetrySnapshot {
        cpu_usage_millipct: 0,
        memory_usage_millipct: 0,
        temperature_millic: Some(40_000),
    }
}

#[test]
fn non_success_status_fails_before_any_sampling() {
    let r = StreamSession::begin(PowerModel::default(), false);
    assert_eq!(r.err(), Some(MonitorError::Transport));
}

#[test]
fn malformed_chunk_still_costs_a_sample_but_no_text() {
    let mut session = StreamSession::begin(PowerModel::default(), true).unwrap();
    let snapshot = cold_idle_snapshot();
    let chunks: [&[u8]; 3] = [
        br#"{"response":"Hello ","done":false}"#,
        b"{this is not json",
        br#"{"response":"world"}"#,
    ];
    let first = session.process_chunk(&snapshot, chunks[0]);
    assert_eq!(first.text_fragment.as_deref(), Some("Hello "));
    let second = session.process_chunk(&snapshot, chunks[1]);
    assert_eq!(second.text_fragment, None);
    let third = session.process_chunk(&snapshot, chunks[2]);
    assert_eq!(third.text_fragment.as_deref(), Some("world"));
    assert_eq!(session.readings_mw.len(), 3);
}

#[test]
fn chunks_without_a_string_response_yield_no_text() {
    let mut session = StreamSession::begin(PowerModel::default(), true).unwrap();
    let snapshot = cold_idle_snapshot();
    let no_field = session.process_chunk(&snapshot, br#"{"done":true}"#);
    assert_eq!(no_field.text_fragment, None);
    let not_a_string = session.process_chunk(&snapshot, br#"{"response":5}"#);
    assert_eq!(not_a_string.text_fragment, None);
    let not_an_object = session.process_chunk(&snapshot, br#"["response"]"#);
    assert_eq!(not_an_object.text_fragment, None);
    assert_eq!(session.readings_mw.len(), 3);
}

#[test]
fn mid_stream_failure_forfeits_the_partial_session() {
    let mut session = StreamSession::begin(PowerModel::default(), true).unwrap();
    let snapshot = cold_idle_snapshot();
    session.process_chunk(&snapshot, br#"{"response":"a"}"#);
    assert!(session.stats_would_fit(10));
    assert_eq!(session.conclude(false, 10), Err(MonitorError::Transport));
}

#[test]
fn clean_empty_stream_fails_with_empty_sample() {
    let session = StreamSession::begin(PowerModel::default(), true).unwrap();
    assert!(session.stats_would_fit(5));
    assert_eq!(session.conclude(true, 5), Err(MonitorError::EmptySample));
}

#[test]
fn clean_end_of_stream_accounts_the_session() {
    let mut session = StreamSession::begin(PowerModel::default(), true).unwrap();
    let snapshot = cold_idle_snapshot();
    let one = session.process_chunk(&snapshot, br#"{"response":"hi"}"#);
    assert_eq!(one.power_mw, Some(5_000));
    let two = session.process_chunk(&snapshot, br#"{"done":true}"#);
    assert_eq!(two.power_mw, Some(5_000));
    assert!(session.stats_would_fit(3_600));
    let stats = session.conclude(true, 3_600).unwrap();
    assert_eq!(stats.average_power_mw, 5_000);
    assert_eq!(stats.energy_mwh, 5_000);
    assert_eq!(stats.ghg_emissions_mg, 300);
}
