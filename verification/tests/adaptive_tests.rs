//! Tests of the event model and the handler registry and dispatcher.

use camaleon::adaptive::{AdaptiveEngine, AdaptiveError, AdaptiveHandler};
use camaleon::events::{AdaptiveEvent, Event, EventType, Severity};

/// A handler that counts its invocations and can be told to fail.
struct MockAdaptiveHandler {
    events_processed: usize,
    fail: bool,
}

impl MockAdaptiveHandler {
    fn new() -> Self {
        Self {
            events_processed: 0,
            fail: false,
        }
    }

    fn failing() -> Self {
        Self {
            events_processed: 0,
            fail: true,
        }
    }
}

impl AdaptiveHandler for MockAdaptiveHandler {
    fn handle_event(&mut self, _event: &AdaptiveEvent) -> Result<(), AdaptiveError> {
        if self.fail {
            return Err(AdaptiveError::Internal("induced failure".to_string()));
        }
        self.events_processed += 1;
        Ok(())
    }
}

fn sample_event() -> AdaptiveEvent {
    let mut data = serde_json::Map::new();
    data.insert(
        "test".to_string(),
        serde_json::Value::String("data".to_string()),
    );
    AdaptiveEvent {
        source: "test".to_string(),
        event_type: "test_event".to_string(),
        severity: 5,
        data: serde_json::Value::Object(data),
        timestamp: 0,
    }
}

#[test]
fn test_adaptive_engine_creation() {
    let engine: Result<AdaptiveEngine<MockAdaptiveHandler>, _> = AdaptiveEngine::new();
    assert!(engine.is_ok());
}

#[test]
fn test_adaptive_engine_register_handler() {
    let mut engine: AdaptiveEngine<MockAdaptiveHandler> = AdaptiveEngine::new().unwrap();
    engine.register_handler("test".to_string(), MockAdaptiveHandler::new());
    assert!(engine.has_handler("test"));
}

#[test]
fn test_adaptive_engine_process_event() {
    let mut engine: AdaptiveEngine<MockAdaptiveHandler> = AdaptiveEngine::new().unwrap();
    engine.register_handler("test".to_string(), MockAdaptiveHandler::new());

    let result = engine.process_event(sample_event());
    assert!(result.is_ok());

    let handler = engine.get_handler("test").unwrap();
    assert_eq!(handler.events_processed, 1);
}

#[test]
fn test_dispatch_short_circuits_on_first_failure() {
    // With three handlers where the second fails, the third sees nothing and
    // the error names the second handler.
    let mut engine: AdaptiveEngine<MockAdaptiveHandler> = AdaptiveEngine::new().unwrap();
    engine.register_handler("first".to_string(), MockAdaptiveHandler::new());
    engine.register_handler("second".to_string(), MockAdaptiveHandler::failing());
    engine.register_handler("third".to_string(), MockAdaptiveHandler::new());

    let result = engine.process_event(sample_event());
    match result {
        Err(AdaptiveError::ProcessingFailed(name, _cause)) => assert_eq!(name, "second"),
        other => panic!("expected a processing failure, got {:?}", other),
    }
    assert_eq!(engine.get_handler("first").unwrap().events_processed, 1);
    assert_eq!(engine.get_handler("third").unwrap().events_processed, 0);
    // The signal stays recorded despite the failure.
    assert_eq!(engine.get_history().len(), 1);
}

#[test]
fn test_dispatch_records_history_and_evicts() {
    let mut engine: AdaptiveEngine<MockAdaptiveHandler> = AdaptiveEngine::new().unwrap();
    for i in 0..1001u32 {
        let mut event = sample_event();
        event.severity = (i % 10) as u8;
        engine.process_event(event).unwrap();
    }
    assert_eq!(engine.get_history().len(), 1000);
    // The oldest signal left first.
    assert_eq!(engine.get_history()[0].severity, 1);
    engine.clear_history();
    assert_eq!(engine.get_history().len(), 0);
}

#[test]
fn test_register_replaces_by_name() {
    let mut engine: AdaptiveEngine<MockAdaptiveHandler> = AdaptiveEngine::new().unwrap();
    engine.register_handler("only".to_string(), MockAdaptiveHandler::failing());
    engine.register_handler("only".to_string(), MockAdaptiveHandler::new());
    assert!(engine.process_event(sample_event()).is_ok());
    assert_eq!(engine.get_handler("only").unwrap().events_processed, 1);
}

#[test]
fn test_event_creation() {
    let event = sample_event();
    let mut data = serde_json::Map::new();
    data.insert(
        "key".to_string(),
        serde_json::Value::String("value".to_string()),
    );
    let event = AdaptiveEvent {
        source: "test_source".to_string(),
        event_type: "test_event".to_string(),
        severity: 3,
        data: serde_json::Value::Object(data),
        timestamp: event.timestamp,
    };

    assert_eq!(event.source, "test_source");
    assert_eq!(event.event_type, "test_event");
    assert_eq!(event.severity, 3);
    assert_eq!(event.data["key"], "value");
}

#[test]
fn test_severity_mapping_total() {
    // Every kind maps to its documented tier, always.
    let severity_of = |kind: EventType| Event::new(kind, "probe", None).severity();
    assert_eq!(severity_of(EventType::SecurityAlert), Severity::High);
    assert_eq!(severity_of(EventType::PostureChange), Severity::Medium);
    assert_eq!(severity_of(EventType::SystemChange), Severity::Medium);
    assert_eq!(severity_of(EventType::HoneypotActivity), Severity::Medium);
    assert_eq!(severity_of(EventType::FingerprintChange), Severity::Low);
    assert_eq!(severity_of(EventType::ServiceLifecycle), Severity::Low);
    assert_eq!(severity_of(EventType::NetworkActivity), Severity::Info);
    assert_eq!(severity_of(EventType::MetricsReport), Severity::Info);
    assert_eq!(
        severity_of(EventType::Custom("anything".to_string())),
        Severity::Info
    );
}

#[test]
fn test_event_normalization() {
    // The normalized projection carries the textual kind and the numeric
    // severity score; a custom kind is its own name.
    let event = Event::new(EventType::SecurityAlert, "sensor", None);
    let normalized = AdaptiveEvent::from_event(event);
    assert_eq!(normalized.event_type, "SecurityAlert");
    assert_eq!(normalized.severity, 8);
    assert_eq!(normalized.source, "sensor");
    assert!(normalized.data.is_object());

    let custom = Event::new(EventType::Custom("heartbeat".to_string()), "sensor", None);
    let normalized = AdaptiveEvent::from_event(custom);
    assert_eq!(normalized.event_type, "heartbeat");
    assert_eq!(normalized.severity, 1);
}

#[test]
fn test_severity_scores() {
    assert_eq!(Severity::Critical.score(), 10);
    assert_eq!(Severity::High.score(), 8);
    assert_eq!(Severity::Medium.score(), 5);
    assert_eq!(Severity::Low.score(), 3);
    assert_eq!(Severity::Info.score(), 1);
}

#[test]
fn test_error_descriptions() {
    let err = AdaptiveError::ProcessingFailed("second".to_string(), "boom".to_string());
    assert_eq!(err.describe(), "Handler 'second' failed: boom");
    let err = AdaptiveError::HandlerNotFound("ghost".to_string());
    assert_eq!(err.describe(), "Handler not found: ghost");
    let err = camaleon::errors::ChameleonError::new_config_error("bad threshold");
    assert_eq!(err.describe(), "Configuration error: bad threshold");
}
