//! Tests of the threat and posture decision machinery: breakpoints, the
//! hysteresis gate, the continuous engine, manual override and the windowed
//! engine.

use camaleon::chameleon::ChameleonCore;
use camaleon::decision::{evaluate, force_posture, DecisionConfig};
use camaleon::events::{Event, EventType};
use camaleon::posture::{posture_for, should_change, Posture};
use camaleon::posture_engine::{
    best_posture, parse_posture, window_threat, PostureEngine, PostureEngineConfig,
    PostureEngineError,
};
use camaleon::state::ChameleonState;

#[test]
fn test_posture_breakpoints() {
    assert_eq!(posture_for(0), Posture::Neutral);
    assert_eq!(posture_for(199), Posture::Neutral);
    assert_eq!(posture_for(200), Posture::Silent);
    assert_eq!(posture_for(399), Posture::Silent);
    assert_eq!(posture_for(400), Posture::Mimetic);
    assert_eq!(posture_for(599), Posture::Mimetic);
    assert_eq!(posture_for(600), Posture::Fulgurant);
    assert_eq!(posture_for(799), Posture::Fulgurant);
    assert_eq!(posture_for(800), Posture::Unstable);
    assert_eq!(posture_for(1000), Posture::Unstable);
}

#[test]
fn test_posture_names() {
    assert_eq!(Posture::from_str("silent"), Some(Posture::Silent));
    assert_eq!(Posture::from_str("NEUTRAL"), Some(Posture::Neutral));
    assert_eq!(Posture::from_str("Mimetic"), Some(Posture::Mimetic));
    assert_eq!(Posture::from_str("fulgurant"), Some(Posture::Fulgurant));
    assert_eq!(Posture::from_str("unstable"), Some(Posture::Unstable));
    assert_eq!(Posture::from_str("stealth"), None);
    assert_eq!(Posture::Fulgurant.to_str(), "fulgurant");
    assert!(matches!(
        parse_posture("wrong"),
        Err(PostureEngineError::InvalidPosture(_))
    ));
    assert_eq!(parse_posture("Silent"), Ok(Posture::Silent));
}

#[test]
fn test_hysteresis_scenario() {
    // From threat 0.1 and Neutral, one high-severity event raises the threat
    // to 0.3 and proposes Silent, but the escalation floor (strictly above
    // 0.3) refuses the change.  A second high-severity event reaches 0.5,
    // proposes Mimetic, and gating allows it.
    let mut state = ChameleonState::new();
    state.increase_threat_level(100);
    let config = DecisionConfig::new();
    let alert = Event::new(EventType::SecurityAlert, "probe", None);

    let (changed, notification) = evaluate(&mut state, &alert, &config);
    assert!(!changed);
    assert!(notification.is_none());
    assert_eq!(state.threat_level(), 300);
    assert_eq!(state.current_posture(), Posture::Neutral);

    let (changed, notification) = evaluate(&mut state, &alert, &config);
    assert!(changed);
    assert!(notification.is_some());
    assert_eq!(state.threat_level(), 500);
    assert_eq!(state.current_posture(), Posture::Mimetic);
    assert!(state.last_posture_change().is_some());
}

#[test]
fn test_medium_events_do_not_flap() {
    // Medium events raise the threat by 0.1 each; no posture change happens
    // until the escalation floor is crossed, so the posture does not flip on
    // every event.
    let mut state = ChameleonState::new();
    let config = DecisionConfig::new();
    let medium = Event::new(EventType::SystemChange, "probe", None);

    let (c1, _) = evaluate(&mut state, &medium, &config);
    let (c2, _) = evaluate(&mut state, &medium, &config);
    let (c3, _) = evaluate(&mut state, &medium, &config);
    assert!(!c1 && !c2 && !c3);
    assert_eq!(state.threat_level(), 300);
    assert_eq!(state.current_posture(), Posture::Neutral);

    // The fourth event reaches 0.4, whose proposed posture is Mimetic, and
    // the escalation is allowed.
    let (c4, _) = evaluate(&mut state, &medium, &config);
    assert!(c4);
    assert_eq!(state.current_posture(), Posture::Mimetic);
}

#[test]
fn test_deescalation_needs_gap() {
    // From Fulgurant at 0.75, a drop to 0.62 (gap 0.13) must not
    // de-escalate; a drop to 0.50 (gap 0.25) must.
    assert!(!should_change(
        Posture::Fulgurant,
        Posture::Fulgurant,
        750,
        620,
        750
    ));
    assert!(!should_change(
        Posture::Fulgurant,
        Posture::Mimetic,
        750,
        620,
        750
    ));
    assert!(should_change(
        Posture::Fulgurant,
        Posture::Mimetic,
        750,
        500,
        750
    ));
}

#[test]
fn test_threshold_override() {
    // A jump larger than the threshold allows any transition, even an
    // escalation proposed while the threat level fell, which the escalation
    // rule alone would refuse.
    assert!(should_change(
        Posture::Neutral,
        Posture::Unstable,
        900,
        100,
        750
    ));
    assert!(!should_change(
        Posture::Neutral,
        Posture::Unstable,
        900,
        200,
        750
    ));
    // Without the jump, a small drop stays refused.
    assert!(!should_change(
        Posture::Unstable,
        Posture::Neutral,
        500,
        450,
        750
    ));
}

#[test]
fn test_info_events_leave_threat_alone() {
    let mut state = ChameleonState::new();
    let config = DecisionConfig::new();
    let info = Event::new(EventType::MetricsReport, "probe", None);
    let (changed, _) = evaluate(&mut state, &info, &config);
    assert!(!changed);
    assert_eq!(state.threat_level(), 0);
}

#[test]
fn test_force_override_bypasses_gating() {
    // The override commits from any posture at any threat level and stamps
    // the change time.
    let mut state = ChameleonState::new();
    state.increase_threat_level(990);
    let notification = force_posture(&mut state, Posture::Silent);
    assert_eq!(state.current_posture(), Posture::Silent);
    assert!(state.last_posture_change().is_some());
    assert_eq!(state.threat_level(), 990);
    assert!(matches!(notification.event_type, EventType::PostureChange));

    force_posture(&mut state, Posture::Unstable);
    assert_eq!(state.current_posture(), Posture::Unstable);
    force_posture(&mut state, Posture::Silent);
    assert_eq!(state.current_posture(), Posture::Silent);
}

#[test]
fn test_invalid_threshold_rejected() {
    assert!(DecisionConfig::with_threshold(1001).is_err());
    assert!(DecisionConfig::with_threshold(1000).is_ok());
    assert!(ChameleonCore::with_threshold(2000).is_err());
}

#[test]
fn test_create_core() {
    let core = ChameleonCore::new();
    let snapshot = core.get_state().unwrap();
    assert!(matches!(
        snapshot.status,
        camaleon::state::Status::Created
    ));
}

#[test]
fn test_change_posture() {
    let mut core = ChameleonCore::new();

    let snapshot = core.get_state().unwrap();
    assert_eq!(snapshot.current_posture, Posture::Neutral);

    core.change_posture(Posture::Silent).unwrap();

    let snapshot = core.get_state().unwrap();
    assert_eq!(snapshot.current_posture, Posture::Silent);
}

#[test]
fn test_core_handles_security_alert() {
    let mut core = ChameleonCore::new();
    core.init().unwrap();
    core.start().unwrap();
    let alert = Event::new(EventType::SecurityAlert, "probe", None);
    // One alert from zero threat: 0.2, proposes Silent, but the escalation
    // floor refuses; the threat rise is still committed and the event
    // recorded.
    let notification = core.handle_event(alert).unwrap();
    assert!(notification.is_none());
    let snapshot = core.get_state().unwrap();
    assert_eq!(snapshot.threat_level, 200);
    assert_eq!(snapshot.current_posture, Posture::Neutral);
    assert_eq!(core.metrics().get_counter("event_count_SecurityAlert"), 1);
}

#[test]
fn test_window_threat_formula() {
    // Three high-severity alerts and one informational event: the weighted
    // sum 3 * 0.7 over 4 events gives 0.525 of the scale.
    let events = vec![
        Event::new(EventType::SecurityAlert, "a", None),
        Event::new(EventType::SecurityAlert, "b", None),
        Event::new(EventType::SecurityAlert, "c", None),
        Event::new(EventType::NetworkActivity, "d", None),
    ];
    let (threat, has_alert) = window_threat(&events);
    assert_eq!(threat, 525);
    assert!(has_alert);

    let empty: Vec<Event> = Vec::new();
    assert_eq!(window_threat(&empty), (0, false));
}

#[test]
fn test_best_posture_mapping() {
    assert_eq!(best_posture(950, true), Posture::Fulgurant);
    assert_eq!(best_posture(950, false), Posture::Unstable);
    assert_eq!(best_posture(700, true), Posture::Mimetic);
    assert_eq!(best_posture(400, false), Posture::Neutral);
    assert_eq!(best_posture(100, false), Posture::Silent);
}

#[test]
fn test_windowed_engine_commits() {
    // A window of pure high-severity alerts carries threat 0.7, below the
    // default 0.75 threshold: no change.  Lowering the threshold commits the
    // window's best posture without a hysteresis gate.
    let events = vec![
        Event::new(EventType::SecurityAlert, "a", None),
        Event::new(EventType::SecurityAlert, "b", None),
    ];

    let mut engine = PostureEngine::new(PostureEngineConfig::default()).unwrap();
    let (changed, _) = engine.evaluate_events(&events).unwrap();
    assert!(!changed);
    assert_eq!(engine.get_current_posture(), Posture::Neutral);

    let config = PostureEngineConfig {
        change_threshold: 500,
        ..PostureEngineConfig::default()
    };
    let mut engine = PostureEngine::new(config).unwrap();
    let (changed, notification) = engine.evaluate_events(&events).unwrap();
    assert!(changed);
    assert!(notification.is_some());
    assert_eq!(engine.get_current_posture(), Posture::Mimetic);
    assert_eq!(engine.get_posture_history().len(), 1);
}

#[test]
fn test_set_posture_outside_allowed_set() {
    let config = PostureEngineConfig {
        postures: vec![Posture::Neutral, Posture::Silent],
        ..PostureEngineConfig::default()
    };
    let mut engine = PostureEngine::new(config).unwrap();
    assert!(matches!(
        engine.set_posture(Posture::Unstable),
        Err(PostureEngineError::InvalidPosture(_))
    ));
    assert!(engine.set_posture(Posture::Silent).is_ok());
    assert_eq!(engine.get_current_posture(), Posture::Silent);
}

#[test]
fn test_posture_recommendation() {
    // A relevant normalized signal yields a derived posture-change event
    // whose payload names the original source and severity and carries the
    // recommendation marker; other signals yield nothing.
    let signal = |kind: &str| camaleon::events::AdaptiveEvent {
        source: "nettongue".to_string(),
        event_type: kind.to_string(),
        severity: 8,
        data: serde_json::Value::Object(serde_json::Map::new()),
        timestamp: 0,
    };
    let derived = camaleon::posture_engine::posture_recommendation(&signal("SecurityAlert"))
        .unwrap();
    assert!(matches!(derived.event_type, EventType::PostureChange));
    assert_eq!(derived.source, "posture_engine_handler");
    let payload = derived.data.unwrap();
    assert_eq!(
        payload.get("original_source").and_then(|v| v.as_str()),
        Some("nettongue")
    );
    assert_eq!(payload.get("severity").and_then(|v| v.as_u64()), Some(8));
    assert_eq!(
        payload.get("recommendation").and_then(|v| v.as_str()),
        Some("evaluate_posture_change")
    );
    assert!(
        camaleon::posture_engine::posture_recommendation(&signal("SystemChange")).is_some()
    );
    assert!(
        camaleon::posture_engine::posture_recommendation(&signal("NetworkActivity")).is_some()
    );
    assert!(
        camaleon::posture_engine::posture_recommendation(&signal("PostureChange")).is_none()
    );
    assert!(camaleon::posture_engine::posture_recommendation(&signal("heartbeat")).is_none());
}

#[test]
fn test_posture_notification_payload_round_trip() {
    // The payload built for a posture-change notification carries the new
    // posture where the skin-shifting subsystem looks for it.
    let mut state = ChameleonState::new();
    let notification = force_posture(&mut state, Posture::Mimetic);
    let payload = notification.data.unwrap();
    assert_eq!(
        camaleon::skinshift::posture_from_payload(&payload),
        Some(Posture::Mimetic)
    );
}
