use telemetry_agent::get_ts;
use telemetry_agent::supervisor::{initial_step, RUNTIME_BACKOFF_MS, SETUP_BACKOFF_MS};
use telemetry_agent::{next_step, SourceAction, SourceEvent, SourceState};

#[test]
fn backoff_lengths() {
    assert_eq!(SETUP_BACKOFF_MS, 5000);
    assert_eq!(RUNTIME_BACKOFF_MS, 1000);
}

#[test]
fn starts_by_connecting() {
    assert_eq!(initial_step(), (SourceState::Connecting, SourceAction::Connect));
}

#[test]
fn connect_then_run() {
    assert_eq!(
        next_step(SourceState::Connecting, SourceEvent::Connected),
        (SourceState::Running, SourceAction::Run)
    );
}

#[test]
fn end_of_stream_waits_one_unit_then_reconnects() {
    let (s, a) = next_step(SourceState::Running, SourceEvent::RunFailed);
    assert_eq!(a, SourceAction::Wait { millis: 1000 });
    let (s, a) = next_step(s, SourceEvent::BackoffElapsed);
    assert_eq!((s, a), (SourceState::Connecting, SourceAction::Connect));
}

#[test]
fn setup_failure_waits_five_units_then_reconnects() {
    let (s, a) = next_step(SourceState::Connecting, SourceEvent::SetupFailed);
    assert_eq!(a, SourceAction::Wait { millis: 5000 });
    let (s, a) = next_step(s, SourceEvent::BackoffElapsed);
    assert_eq!((s, a), (SourceState::Connecting, SourceAction::Connect));
}

#[test]
fn run_returning_reconnects_at_once() {
    assert_eq!(
        next_step(SourceState::Running, SourceEvent::RunReturned),
        (SourceState::Connecting, SourceAction::Connect)
    );
}

#[test]
fn unexpected_event_keeps_state() {
    assert_eq!(
        next_step(SourceState::Running, SourceEvent::Connected),
        (SourceState::Running, SourceAction::Run)
    );
    assert_eq!(
        next_step(SourceState::BackingOff { millis: 5000 }, SourceEvent::RunFailed),
        (SourceState::BackingOff { millis: 5000 }, SourceAction::Wait { millis: 5000 })
    );
}

#[test]
fn clock_reads_after_epoch() {
    let ts = get_ts().unwrap();
    assert!(ts > 1_500_000_000);
}
