//! Tests of the generic state store and the shared state container.

use camaleon::posture::Posture;
use camaleon::state::{ChameleonState, HoneypotInfo, ServiceInfo, StateManager, Status};

#[test]
fn test_state_manager_creation() {
    let manager = StateManager::new();
    assert!(manager.is_empty());
}

#[test]
fn test_state_manager_set_get() {
    let mut manager = StateManager::new();

    manager.set(
        "test_key",
        serde_json::Value::String("test_value".to_string()),
    );

    let value = manager.get("test_key");
    assert_eq!(
        value,
        Some(serde_json::Value::String("test_value".to_string()))
    );
}

#[test]
fn test_state_manager_set_get_complex() {
    let mut manager = StateManager::new();

    // A structured document: field1 "hello", field2 42, field3 true.
    let mut fields = serde_json::Map::new();
    fields.insert(
        "field1".to_string(),
        serde_json::Value::String("hello".to_string()),
    );
    fields.insert(
        "field2".to_string(),
        serde_json::Value::Number(serde_json::Number::from(42)),
    );
    fields.insert("field3".to_string(), serde_json::Value::Bool(true));
    let document = serde_json::Value::Object(fields);

    manager.set("test_struct", document.clone());

    let value = manager.get("test_struct");
    assert_eq!(value, Some(document));
}

#[test]
fn test_state_manager_remove() {
    let mut manager = StateManager::new();

    manager.set(
        "test_key",
        serde_json::Value::String("test_value".to_string()),
    );

    let value = manager.get("test_key");
    assert_eq!(
        value,
        Some(serde_json::Value::String("test_value".to_string()))
    );

    manager.remove("test_key");

    let value = manager.get("test_key");
    assert_eq!(value, None);
}

#[test]
fn test_state_manager_clear() {
    let mut manager = StateManager::new();

    manager.set("key1", serde_json::Value::String("value1".to_string()));
    manager.set("key2", serde_json::Value::String("value2".to_string()));
    manager.set("key3", serde_json::Value::String("value3".to_string()));

    let value1 = manager.get("key1");
    let value2 = manager.get("key2");
    assert_eq!(value1, Some(serde_json::Value::String("value1".to_string())));
    assert_eq!(value2, Some(serde_json::Value::String("value2".to_string())));

    manager.clear();

    let value1 = manager.get("key1");
    let value2 = manager.get("key2");
    assert_eq!(value1, None);
    assert_eq!(value2, None);
}

#[test]
fn test_fresh_state() {
    let state = ChameleonState::new();
    assert_eq!(state.status, Status::Created);
    assert_eq!(state.current_posture(), Posture::Neutral);
    assert_eq!(state.threat_level(), 0);
    assert_eq!(state.last_posture_change(), None);
}

#[test]
fn test_threat_level_clamped() {
    // Any sequence of raises and drops keeps the level within the scale.
    let mut state = ChameleonState::new();
    state.increase_threat_level(400);
    assert_eq!(state.threat_level(), 400);
    state.increase_threat_level(900);
    assert_eq!(state.threat_level(), 1000);
    state.increase_threat_level(u32::MAX);
    assert_eq!(state.threat_level(), 1000);
    state.decrease_threat_level(300);
    assert_eq!(state.threat_level(), 700);
    state.decrease_threat_level(u32::MAX);
    assert_eq!(state.threat_level(), 0);
    state.decrease_threat_level(1);
    assert_eq!(state.threat_level(), 0);
}

#[test]
fn test_service_bookkeeping() {
    let mut state = ChameleonState::new();
    let info = ServiceInfo {
        name: "web".to_string(),
        service_type: "http".to_string(),
        port: 8080,
        started_at: 1_000,
        properties: Vec::new(),
    };
    state.add_service("web".to_string(), info);
    assert_eq!(state.get_system_state().active_services_count, 1);
    let removed = state.remove_service("web").unwrap();
    assert_eq!(removed.port, 8080);
    assert_eq!(state.get_system_state().active_services_count, 0);
    assert!(state.remove_service("web").is_none());
}

#[test]
fn test_honeypot_bookkeeping() {
    let mut state = ChameleonState::new();
    let pot = |id: &str, port: u16| HoneypotInfo {
        id: id.to_string(),
        honeypot_type: "ssh".to_string(),
        port,
        deployed_at: 1_000,
        properties: Vec::new(),
    };
    state.add_honeypot(pot("hp-1", 22));
    state.add_honeypot(pot("hp-2", 80));
    assert_eq!(state.get_system_state().active_honeypots_count, 2);
    // A descriptor under a known id replaces it: ids stay unique.
    state.add_honeypot(pot("hp-1", 2222));
    assert_eq!(state.get_system_state().active_honeypots_count, 2);
    let removed = state.remove_honeypot("hp-1").unwrap();
    assert_eq!(removed.port, 2222);
    assert_eq!(state.get_system_state().active_honeypots_count, 1);
    assert!(state.remove_honeypot("hp-9").is_none());
}

#[test]
fn test_snapshot_idempotent() {
    // Two snapshots with no intervening mutation carry the same information.
    let mut state = ChameleonState::new();
    state.increase_threat_level(350);
    state.status = Status::Running;
    let a = state.get_system_state();
    let b = state.get_system_state();
    assert_eq!(a, b);
}
