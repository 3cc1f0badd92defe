//! The continuous, per-event half of the threat and posture decision engine.
//!
//! Each evaluated event raises the threat level by a severity-indexed delta
//! (clamped to the scale), proposes the posture for the new level, and runs
//! the hysteresis gate before committing a change.  A committed change stamps
//! the state and yields a posture-change notification event for downstream
//! consumers.  Manual override bypasses all gating.

use vstd::prelude::*;

use crate::clock;
use crate::errors::ChameleonError;
use crate::events::{spec_severity, Event, EventType, Severity};
use crate::json;
use crate::posture::{posture_for, should_change, spec_posture_for, spec_should_change, Posture,
    THREAT_SCALE};
use crate::state::ChameleonState;

verus! {

/// How much one event of each severity raises the threat level, in
/// thousandths: Critical 0.40, High 0.20, Medium 0.10, Low 0.05, Info 0.
pub open spec fn spec_severity_delta(s: Severity) -> u32 {
    match s {
        Severity::Critical => 400,
        Severity::High => 200,
        Severity::Medium => 100,
        Severity::Low => 50,
        Severity::Info => 0,
    }
}

/// Executable severity delta; see [`spec_severity_delta`].
pub fn severity_delta(s: Severity) -> (r: u32)
    ensures
        r == spec_severity_delta(s),
{
    match s {
        Severity::Critical => 400,
        Severity::High => 200,
        Severity::Medium => 100,
        Severity::Low => 50,
        Severity::Info => 0,
    }
}

/// The threat level after an event of the given severity: raised by the
/// severity's delta and clamped to the scale.
pub open spec fn spec_next_threat(old_threat: u32, s: Severity) -> u32 {
    if old_threat + spec_severity_delta(s) > THREAT_SCALE {
        THREAT_SCALE
    } else {
        (old_threat + spec_severity_delta(s)) as u32
    }
}

/// Whether one evaluated event of severity `s` changes the posture: the new
/// threat level proposes a different posture and the hysteresis gate allows
/// the transition.
pub open spec fn spec_evaluation_changes(
    old_posture: Posture,
    old_threat: u32,
    s: Severity,
    threshold: u32,
) -> bool {
    let new_threat = spec_next_threat(old_threat, s);
    let proposed = spec_posture_for(new_threat);
    proposed != old_posture && spec_should_change(
        old_posture,
        proposed,
        old_threat,
        new_threat,
        threshold,
    )
}

/// The payload fields of a posture-change notification.
pub open spec fn spec_posture_change_fields(old: Posture, new: Posture) -> Seq<
    (Seq<char>, serde_json::Value),
> {
    seq![
        ("old_posture"@, json::json_string_of(old.spec_name())),
        ("new_posture"@, json::json_string_of(new.spec_name())),
    ]
}

/// The posture-change notification event broadcast to subsystems: its payload
/// carries the old and the new posture.
pub fn posture_change_event(source: &str, old: Posture, new: Posture) -> (r: Event)
    ensures
        r.event_type == EventType::PostureChange,
        r.source@ == source@,
        r.data == Some(json::json_object_of(spec_posture_change_fields(old, new))),
{
    let mut fields: Vec<(String, serde_json::Value)> = Vec::new();
    fields.push(("old_posture".to_owned(), json::json_string(old.to_str())));
    fields.push(("new_posture".to_owned(), json::json_string(new.to_str())));
    proof {
        assert(json::fields_view(fields@) =~= spec_posture_change_fields(old, new));
    }
    let payload = json::json_object(fields);
    Event::new(EventType::PostureChange, source, Some(payload))
}

/// Configuration of the decision engine: the hysteresis-override threshold,
/// in thousandths.  Values outside the scale are rejected here, at
/// configuration time, and never reach the decision loop.
pub struct DecisionConfig {
    threshold: u32,
}

impl DecisionConfig {
    pub closed spec fn spec_threshold(&self) -> u32 {
        self.threshold
    }

    pub open spec fn wf(&self) -> bool {
        self.spec_threshold() <= THREAT_SCALE
    }

    /// The default configuration: override threshold 0.75.
    pub fn new() -> (r: Self)
        ensures
            r.wf(),
            r.spec_threshold() == crate::posture::DEFAULT_CHANGE_THRESHOLD,
    {
        DecisionConfig { threshold: crate::posture::DEFAULT_CHANGE_THRESHOLD }
    }

    /// A configuration with the given threshold; rejected if and only if the
    /// threshold lies outside the scale.
    pub fn with_threshold(threshold: u32) -> (r: Result<Self, ChameleonError>)
        ensures
            match r {
                Ok(c) => threshold <= THREAT_SCALE && c.wf() && c.spec_threshold() == threshold,
                Err(e) => threshold > THREAT_SCALE && e matches ChameleonError::ConfigError(_),
            },
    {
        if threshold > THREAT_SCALE {
            Err(ChameleonError::new_config_error("change threshold outside the unit scale"))
        } else {
            Ok(DecisionConfig { threshold })
        }
    }

    pub fn threshold(&self) -> (r: u32)
        ensures
            r == self.spec_threshold(),
    {
        self.threshold
    }
}

/// Evaluate one event against the shared state: raise the threat level by the
/// severity's delta, and commit the posture proposed for the new level if it
/// differs from the current one and the hysteresis gate allows it.
///
/// Returns whether the posture changed, and the notification event to
/// broadcast when it did.  The threat-level rise is committed whether or not
/// the posture changed.
pub fn evaluate(state: &mut ChameleonState, event: &Event, config: &DecisionConfig) -> (r: (
    bool,
    Option<Event>,
))
    requires
        old(state).wf(),
        config.wf(),
    ensures
        final(state).wf(),
        final(state).spec_threat() == spec_next_threat(
            old(state).spec_threat(),
            spec_severity(event.event_type),
        ),
        r.0 == spec_evaluation_changes(
            old(state).spec_posture(),
            old(state).spec_threat(),
            spec_severity(event.event_type),
            config.spec_threshold(),
        ),
        final(state).spec_posture() == if r.0 {
            spec_posture_for(final(state).spec_threat())
        } else {
            old(state).spec_posture()
        },
        r.0 ==> final(state).spec_last_posture_change() is Some,
        !r.0 ==> final(state).spec_last_posture_change() == old(
            state,
        ).spec_last_posture_change(),
        final(state).same_bookkeeping(old(state)),
        r.1 is Some <==> r.0,
        r.1 matches Some(e) ==> {
            &&& e.event_type == EventType::PostureChange
            &&& e.source@ == "decision_engine"@
            &&& e.data == Some(json::json_object_of(spec_posture_change_fields(
                old(state).spec_posture(),
                final(state).spec_posture(),
            )))
        },
{
    let old_threat = state.threat_level();
    let old_posture = state.current_posture();
    let delta = severity_delta(event.severity());
    state.increase_threat_level(delta);
    let new_threat = state.threat_level();
    let proposed = posture_for(new_threat);
    if proposed == old_posture {
        return (false, None);
    }
    if should_change(old_posture, proposed, old_threat, new_threat, config.threshold()) {
        state.commit_posture(proposed, clock::now_millis());
        let notification = posture_change_event("decision_engine", old_posture, proposed);
        (true, Some(notification))
    } else {
        (false, None)
    }
}

/// Manual override: commit the given posture unconditionally, bypassing all
/// gating, stamp the change time, and yield the same notification that a
/// gated change emits.  The threat level is untouched.
pub fn force_posture(state: &mut ChameleonState, posture: Posture) -> (r: Event)
    requires
        old(state).wf(),
    ensures
        final(state).wf(),
        final(state).spec_posture() == posture,
        final(state).spec_last_posture_change() is Some,
        final(state).spec_threat() == old(state).spec_threat(),
        final(state).same_bookkeeping(old(state)),
        r.event_type == EventType::PostureChange,
        r.source@ == "decision_engine"@,
        r.data == Some(json::json_object_of(spec_posture_change_fields(
            old(state).spec_posture(),
            posture,
        ))),
{
    let old_posture = state.current_posture();
    state.commit_posture(posture, clock::now_millis());
    posture_change_event("decision_engine", old_posture, posture)
}

} // verus!
