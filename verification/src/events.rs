//! The event model: the canonical record of an observation, its derived
//! severity, and the normalized projection handed to reactive handlers.
//!
//! Timestamps are milliseconds since the Unix epoch; severity is never
//! stored, always derived from the event kind by a fixed total mapping.

use vstd::prelude::*;

use crate::clock;
use crate::json;

verus! {

/// Kinds of events the system can handle.
#[derive(Debug, PartialEq, Eq)]
pub enum EventType {
    /// Security-related alerts and warnings.
    SecurityAlert,
    /// System state or configuration changes.
    SystemChange,
    /// Network activity detection.
    NetworkActivity,
    /// Defensive posture changes.
    PostureChange,
    /// Honeypot activity.
    HoneypotActivity,
    /// Fingerprint changes.
    FingerprintChange,
    /// Service start/stop events.
    ServiceLifecycle,
    /// Internal metrics and health checks.
    MetricsReport,
    /// Custom event kinds, named freely by producers.
    Custom(String),
}

impl Clone for EventType {
    fn clone(&self) -> (r: Self)
        ensures
            r == *self,
    {
        match self {
            EventType::SecurityAlert => EventType::SecurityAlert,
            EventType::SystemChange => EventType::SystemChange,
            EventType::NetworkActivity => EventType::NetworkActivity,
            EventType::PostureChange => EventType::PostureChange,
            EventType::HoneypotActivity => EventType::HoneypotActivity,
            EventType::FingerprintChange => EventType::FingerprintChange,
            EventType::ServiceLifecycle => EventType::ServiceLifecycle,
            EventType::MetricsReport => EventType::MetricsReport,
            EventType::Custom(name) => EventType::Custom(name.clone()),
        }
    }
}

/// Severity levels, from most to least urgent.
#[derive(Debug, Clone, Copy, PartialEq, Eq, Structural)]
pub enum Severity {
    /// Needs immediate attention.
    Critical,
    /// Needs urgent attention.
    High,
    /// Needs attention soon.
    Medium,
    /// Routine events.
    Low,
    /// Informational; no action needed.
    Info,
}

/// The fixed, total severity of each event kind.
pub open spec fn spec_severity(kind: EventType) -> Severity {
    match kind {
        EventType::SecurityAlert => Severity::High,
        EventType::PostureChange => Severity::Medium,
        EventType::SystemChange => Severity::Medium,
        EventType::HoneypotActivity => Severity::Medium,
        EventType::FingerprintChange => Severity::Low,
        EventType::ServiceLifecycle => Severity::Low,
        EventType::NetworkActivity => Severity::Info,
        EventType::MetricsReport => Severity::Info,
        EventType::Custom(_) => Severity::Info,
    }
}

/// The numeric score of a severity on the 0 to 10 scale handed to handlers.
pub open spec fn spec_severity_score(s: Severity) -> u8 {
    match s {
        Severity::Critical => 10,
        Severity::High => 8,
        Severity::Medium => 5,
        Severity::Low => 3,
        Severity::Info => 1,
    }
}

impl Severity {
    /// Stable textual name of the severity.
    pub fn label(self) -> (r: &'static str)
        ensures
            r@ == self.spec_label(),
    {
        match self {
            Severity::Critical => "Critical",
            Severity::High => "High",
            Severity::Medium => "Medium",
            Severity::Low => "Low",
            Severity::Info => "Info",
        }
    }

    pub open spec fn spec_label(self) -> Seq<char> {
        match self {
            Severity::Critical => "Critical"@,
            Severity::High => "High"@,
            Severity::Medium => "Medium"@,
            Severity::Low => "Low"@,
            Severity::Info => "Info"@,
        }
    }

    /// Numeric score of the severity; see [`spec_severity_score`].
    pub fn score(self) -> (r: u8)
        ensures
            r == spec_severity_score(self),
    {
        match self {
            Severity::Critical => 10,
            Severity::High => 8,
            Severity::Medium => 5,
            Severity::Low => 3,
            Severity::Info => 1,
        }
    }
}

/// The stable textual form of an event kind; a custom kind is its own name.
pub open spec fn spec_kind_text(kind: EventType) -> Seq<char> {
    match kind {
        EventType::SecurityAlert => "SecurityAlert"@,
        EventType::SystemChange => "SystemChange"@,
        EventType::NetworkActivity => "NetworkActivity"@,
        EventType::PostureChange => "PostureChange"@,
        EventType::HoneypotActivity => "HoneypotActivity"@,
        EventType::FingerprintChange => "FingerprintChange"@,
        EventType::ServiceLifecycle => "ServiceLifecycle"@,
        EventType::MetricsReport => "MetricsReport"@,
        EventType::Custom(name) => name@,
    }
}

impl EventType {
    /// Textual form of the kind; see [`spec_kind_text`].
    pub fn text(&self) -> (r: String)
        ensures
            r@ == spec_kind_text(*self),
    {
        match self {
            EventType::SecurityAlert => "SecurityAlert".to_owned(),
            EventType::SystemChange => "SystemChange".to_owned(),
            EventType::NetworkActivity => "NetworkActivity".to_owned(),
            EventType::PostureChange => "PostureChange".to_owned(),
            EventType::HoneypotActivity => "HoneypotActivity".to_owned(),
            EventType::FingerprintChange => "FingerprintChange".to_owned(),
            EventType::ServiceLifecycle => "ServiceLifecycle".to_owned(),
            EventType::MetricsReport => "MetricsReport".to_owned(),
            EventType::Custom(name) => name.clone(),
        }
    }
}

/// An immutable record of one observation.
#[derive(Debug)]
pub struct Event {
    /// When the event occurred, in milliseconds since the Unix epoch.
    pub timestamp: i64,
    /// Kind of event.
    pub event_type: EventType,
    /// Source component that generated the event.
    pub source: String,
    /// Additional data payload, passed through opaquely.
    pub data: Option<serde_json::Value>,
}

impl Clone for Event {
    fn clone(&self) -> (r: Self)
        ensures
            r == *self,
    {
        Event {
            timestamp: self.timestamp,
            event_type: self.event_type.clone(),
            source: self.source.clone(),
            data: match &self.data {
                Some(v) => Some(v.clone()),
                None => None,
            },
        }
    }
}

impl Event {
    /// Create a new event stamped with the current time.
    pub fn new(event_type: EventType, source: &str, data: Option<serde_json::Value>) -> (r: Event)
        ensures
            r.event_type == event_type,
            r.source@ == source@,
            r.data == data,
    {
        Event { timestamp: clock::now_millis(), event_type, source: source.to_owned(), data }
    }

    /// Create a security alert event.
    pub fn security_alert(source: &str, data: Option<serde_json::Value>) -> (r: Event)
        ensures
            r.event_type == EventType::SecurityAlert,
            r.source@ == source@,
            r.data == data,
    {
        Event::new(EventType::SecurityAlert, source, data)
    }

    /// Create a system change event.
    pub fn system_change(source: &str, data: Option<serde_json::Value>) -> (r: Event)
        ensures
            r.event_type == EventType::SystemChange,
            r.source@ == source@,
            r.data == data,
    {
        Event::new(EventType::SystemChange, source, data)
    }

    /// Create a network activity event.
    pub fn network_activity(source: &str, data: Option<serde_json::Value>) -> (r: Event)
        ensures
            r.event_type == EventType::NetworkActivity,
            r.source@ == source@,
            r.data == data,
    {
        Event::new(EventType::NetworkActivity, source, data)
    }

    /// Create a posture change event.
    pub fn posture_change(source: &str, data: Option<serde_json::Value>) -> (r: Event)
        ensures
            r.event_type == EventType::PostureChange,
            r.source@ == source@,
            r.data == data,
    {
        Event::new(EventType::PostureChange, source, data)
    }

    /// Create a honeypot activity event.
    pub fn honeypot_activity(source: &str, data: Option<serde_json::Value>) -> (r: Event)
        ensures
            r.event_type == EventType::HoneypotActivity,
            r.source@ == source@,
            r.data == data,
    {
        Event::new(EventType::HoneypotActivity, source, data)
    }

    /// Create a fingerprint change event.
    pub fn fingerprint_change(source: &str, data: Option<serde_json::Value>) -> (r: Event)
        ensures
            r.event_type == EventType::FingerprintChange,
            r.source@ == source@,
            r.data == data,
    {
        Event::new(EventType::FingerprintChange, source, data)
    }

    /// Create a service lifecycle event.
    pub fn service_lifecycle(source: &str, data: Option<serde_json::Value>) -> (r: Event)
        ensures
            r.event_type == EventType::ServiceLifecycle,
            r.source@ == source@,
            r.data == data,
    {
        Event::new(EventType::ServiceLifecycle, source, data)
    }

    /// Create a metrics report event.
    pub fn metrics_report(source: &str, data: Option<serde_json::Value>) -> (r: Event)
        ensures
            r.event_type == EventType::MetricsReport,
            r.source@ == source@,
            r.data == data,
    {
        Event::new(EventType::MetricsReport, source, data)
    }

    /// Create a custom event.
    pub fn custom(custom_type: &str, source: &str, data: Option<serde_json::Value>) -> (r: Event)
        ensures
            r.event_type matches EventType::Custom(name) && name@ == custom_type@,
            r.source@ == source@,
            r.data == data,
    {
        Event::new(EventType::Custom(custom_type.to_owned()), source, data)
    }

    /// The event severity, derived from the kind; total and deterministic:
    /// see [`spec_severity`].
    pub fn severity(&self) -> (r: Severity)
        ensures
            r == spec_severity(self.event_type),
    {
        match &self.event_type {
            EventType::SecurityAlert => Severity::High,
            EventType::PostureChange => Severity::Medium,
            EventType::SystemChange => Severity::Medium,
            EventType::HoneypotActivity => Severity::Medium,
            EventType::FingerprintChange => Severity::Low,
            EventType::ServiceLifecycle => Severity::Low,
            EventType::NetworkActivity => Severity::Info,
            EventType::MetricsReport => Severity::Info,
            EventType::Custom(_) => Severity::Info,
        }
    }
}

/// The handler-facing projection of an event: textual kind, numeric severity
/// score, payload and timestamp.
#[derive(Debug)]
pub struct AdaptiveEvent {
    /// Source of the event.
    pub source: String,
    /// Kind of event, as text; a custom kind is its own name.
    pub event_type: String,
    /// Severity score on the 0 to 10 scale.
    pub severity: u8,
    /// Additional data; an empty object when the event carried none.
    pub data: serde_json::Value,
    /// When the event occurred, in milliseconds since the Unix epoch.
    pub timestamp: i64,
}

impl Clone for AdaptiveEvent {
    fn clone(&self) -> (r: Self)
        ensures
            r == *self,
    {
        AdaptiveEvent {
            source: self.source.clone(),
            event_type: self.event_type.clone(),
            severity: self.severity,
            data: self.data.clone(),
            timestamp: self.timestamp,
        }
    }
}

/// The payload of a normalized event: the original payload, or the empty
/// object where the event carried none.
pub open spec fn spec_normalized_data(data: Option<serde_json::Value>) -> serde_json::Value {
    match data {
        Some(v) => v,
        None => json::json_object_of(Seq::empty()),
    }
}

impl AdaptiveEvent {
    /// Normalize an event for handlers: a pure, total conversion.
    pub fn from_event(event: Event) -> (r: AdaptiveEvent)
        ensures
            r.source@ == event.source@,
            r.event_type@ == spec_kind_text(event.event_type),
            r.severity == spec_severity_score(spec_severity(event.event_type)),
            r.data == spec_normalized_data(event.data),
            r.timestamp == event.timestamp,
    {
        let severity = event.severity().score();
        let kind_text = event.event_type.text();
        AdaptiveEvent {
            source: event.source,
            event_type: kind_text,
            severity,
            data: match event.data {
                Some(v) => v,
                None => {
                    proof {
                        assert(json::fields_view(Seq::<(String, serde_json::Value)>::empty())
                            =~= Seq::<(Seq<char>, serde_json::Value)>::empty());
                    }
                    json::json_object(Vec::new())
                },
            },
            timestamp: event.timestamp,
        }
    }
}

} // verus!
