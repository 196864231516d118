use simhub::backend::{Backend, PollEvent, DISCOVERY_BACKOFF_MS, SOURCE_TIMEOUT_MS};
use simhub::telemetry::{GameId, Telemetry};

#[test]
fn starts_idle() {
    let backend = Backend::new();
    assert!(!backend.is_active());
}

#[test]
fn timeout_discards_the_adapter() {
    // A source that never resolves its next sample is dropped once the
    // 500 ms wait expires, and the loop is idle again.
    let mut backend = Backend::new();
    backend.on_idle_tick(Some(GameId::BeamNg));
    assert!(backend.is_active());
    let published = backend.on_poll_event(PollEvent::TimedOut);
    assert_eq!(published, None);
    assert!(!backend.is_active());
}

#[test]
fn end_of_stream_discards_the_adapter() {
    let mut backend = Backend::new();
    backend.on_idle_tick(Some(GameId::BeamNg));
    let published = backend.on_poll_event(PollEvent::EndOfStream);
    assert_eq!(published, None);
    assert!(!backend.is_active());
}

#[test]
fn sample_is_published_and_source_kept() {
    let mut backend = Backend::new();
    backend.on_idle_tick(Some(GameId::BeamNg));
    let mut sample = Telemetry::default();
    sample.game = Some(GameId::BeamNg);
    sample.general.gear = 3;
    let published = backend.on_poll_event(PollEvent::Sample(sample));
    assert_eq!(published, Some(sample));
    assert!(backend.is_active());
}

#[test]
fn idle_tick_publishes_the_sentinel() {
    let mut backend = Backend::new();
    let published = backend.on_idle_tick(None);
    assert_eq!(published, Telemetry::default());
    assert!(!backend.is_active());
}

#[test]
fn sentinel_is_all_zero() {
    let t = Telemetry::default();
    assert_eq!(t.game, None);
    assert_eq!(t.general.gear, 0);
    assert_eq!(t.general.fuel, 0);
    assert_eq!(t.general.speed, 0);
    assert_eq!(t.engine.rpm, 0);
    assert_eq!(t.engine.turbo, None);
    assert_eq!(t.input.throttle, 0);
    assert_eq!(t.input.brake, 0);
    assert_eq!(t.input.clutch, 0);
}

#[test]
fn loop_cadence_constants() {
    assert_eq!(SOURCE_TIMEOUT_MS, 500);
    assert_eq!(DISCOVERY_BACKOFF_MS, 150);
}
