//! The core service: ties the shared state, the metrics store and the
//! continuous decision engine together.  Every submitted event is recorded in
//! the metrics store first; security alerts then drive the posture decision,
//! and a committed change is handed back as a notification event for the
//! caller to broadcast.

use vstd::prelude::*;

use crate::decision::{self, DecisionConfig};
use crate::errors::ChameleonError;
use crate::events::{spec_severity, Event, EventType};
use crate::json;
use crate::metrics::{spec_entry_of, spec_events_in_range, spec_kind_key, spec_kind_tally,
    spec_opt_points, spec_push_evict, spec_series_query, spec_severity_key, spec_severity_tally,
    spec_source_key, spec_source_tally, MetricsCollector, MetricsReport, HISTORY_CAP};
use crate::posture::{spec_posture_for, Posture};
use crate::state::{fp_opt_eq, snapshot_eq, ChameleonState, Status, SystemState};

verus! {

/// What recording an event does to the metrics store, seen from the core.
pub open spec fn spec_recorded(
    old_m: &MetricsCollector,
    new_m: &MetricsCollector,
    event: &Event,
) -> bool {
    &&& new_m.spec_events() == spec_push_evict(old_m.spec_events(), *event, HISTORY_CAP as int)
    &&& new_m.spec_counter(spec_kind_key(crate::events::spec_kind_text(event.event_type)))
        is Some
    &&& new_m.spec_counter(spec_source_key(event.source@)) is Some
    &&& new_m.spec_counter(spec_severity_key(spec_severity(event.event_type).spec_label()))
        is Some
    &&& forall|k: Seq<char>| new_m.spec_gauge(k) == old_m.spec_gauge(k)
    &&& forall|k: Seq<char>| new_m.spec_series(k) == old_m.spec_series(k)
}

/// What evaluating one event of the given kind does to the decision state:
/// the threat level rises by the severity's delta; `changed` holds exactly
/// when the new level proposes a different posture and the hysteresis rules
/// allow it; the posture becomes the proposed one exactly when `changed`, and
/// the change stamp is set then and only then.
pub open spec fn spec_evaluated(
    old_s: &ChameleonState,
    new_s: &ChameleonState,
    kind: EventType,
    threshold: u32,
    changed: bool,
) -> bool {
    &&& new_s.spec_threat() == decision::spec_next_threat(
        old_s.spec_threat(),
        spec_severity(kind),
    )
    &&& changed == decision::spec_evaluation_changes(
        old_s.spec_posture(),
        old_s.spec_threat(),
        spec_severity(kind),
        threshold,
    )
    &&& new_s.spec_posture() == if changed {
        spec_posture_for(new_s.spec_threat())
    } else {
        old_s.spec_posture()
    }
    &&& changed ==> new_s.spec_last_posture_change() is Some
    &&& !changed ==> new_s.spec_last_posture_change() == old_s.spec_last_posture_change()
    &&& new_s.same_bookkeeping(old_s)
}

/// What a report over `[start, end]` of the given metrics store holds; every
/// clause of [`MetricsCollector::get_metrics`], as one statement.
pub open spec fn spec_report_of(m: &MetricsCollector, report: MetricsReport, start: i64, end: i64) -> bool {
    let in_range = spec_events_in_range(m.spec_events(), start, end);
    &&& report.start == start
    &&& report.end == end
    &&& report.duration_seconds as int == crate::metrics::spec_duration_seconds(start, end)
    &&& report.total_events == in_range.len()
    &&& forall|k: Seq<char>|
        #![trigger report.by_type.spec_get(k)]
        report.by_type.spec_get(k) == spec_entry_of(spec_kind_tally(in_range, k))
    &&& forall|k: Seq<char>|
        #![trigger report.by_source.spec_get(k)]
        report.by_source.spec_get(k) == spec_entry_of(spec_source_tally(in_range, k))
    &&& forall|k: Seq<char>|
        #![trigger report.by_severity.spec_get(k)]
        report.by_severity.spec_get(k) == spec_entry_of(spec_severity_tally(in_range, k))
    &&& report.counters.entries() == m.spec_counter_entries()
    &&& report.gauges.entries() == m.spec_gauge_entries()
    &&& forall|k: Seq<char>|
        #![trigger report.time_series.spec_get(k)]
        spec_opt_points(report.time_series.spec_get(k)) == spec_series_query(
            m.spec_series_entries(),
            k,
            start,
            end,
        )
}

/// The core service: the single decision authority of a process.
pub struct ChameleonCore {
    state: ChameleonState,
    metrics: MetricsCollector,
    config: DecisionConfig,
}

impl ChameleonCore {
    /// The shared state, for specification purposes.
    pub closed spec fn spec_state(&self) -> &ChameleonState {
        &self.state
    }

    /// The metrics store, for specification purposes.
    pub closed spec fn spec_metrics(&self) -> &MetricsCollector {
        &self.metrics
    }

    pub closed spec fn spec_config(&self) -> &DecisionConfig {
        &self.config
    }

    pub open spec fn wf(&self) -> bool {
        &&& self.spec_state().wf()
        &&& self.spec_metrics().wf()
        &&& self.spec_config().wf()
    }

    /// A fresh core: created, neutral posture, no threat, empty metrics, the
    /// default hysteresis threshold.
    pub fn new() -> (r: Self)
        ensures
            r.wf(),
            r.spec_state().spec_status() == Status::Created,
            r.spec_state().spec_posture() == Posture::Neutral,
            r.spec_state().spec_threat() == 0,
            r.spec_metrics().spec_events().len() == 0,
    {
        ChameleonCore {
            state: ChameleonState::new(),
            metrics: MetricsCollector::new(),
            config: DecisionConfig::new(),
        }
    }

    /// A core with the given hysteresis-override threshold (in thousandths);
    /// rejected if and only if the threshold lies outside the scale.
    pub fn with_threshold(threshold: u32) -> (r: Result<Self, ChameleonError>)
        ensures
            match r {
                Ok(c) => {
                    &&& threshold <= crate::posture::THREAT_SCALE
                    &&& c.wf()
                    &&& c.spec_config().spec_threshold() == threshold
                    &&& c.spec_state().spec_posture() == Posture::Neutral
                    &&& c.spec_state().spec_threat() == 0
                },
                Err(e) => threshold > crate::posture::THREAT_SCALE && e
                    matches ChameleonError::ConfigError(_),
            },
    {
        let config = DecisionConfig::with_threshold(threshold)?;
        Ok(
            ChameleonCore {
                state: ChameleonState::new(),
                metrics: MetricsCollector::new(),
                config,
            },
        )
    }

    /// Initialize the core; it ends up ready.
    pub fn init(&mut self) -> (r: Result<(), ChameleonError>)
        requires
            old(self).wf(),
        ensures
            final(self).wf(),
            r is Ok,
            final(self).spec_state().spec_status() == Status::Ready,
            final(self).spec_state().spec_posture() == old(self).spec_state().spec_posture(),
            final(self).spec_state().spec_threat() == old(self).spec_state().spec_threat(),
    {
        self.state.set_status(Status::Initializing);
        self.state.set_status(Status::Ready);
        Ok(())
    }

    /// Start the core; it ends up running, stamped with the start time.
    pub fn start(&mut self) -> (r: Result<(), ChameleonError>)
        requires
            old(self).wf(),
        ensures
            final(self).wf(),
            r is Ok,
            final(self).spec_state().spec_status() == Status::Running,
            final(self).spec_state().spec_started_at() is Some,
            final(self).spec_state().spec_posture() == old(self).spec_state().spec_posture(),
            final(self).spec_state().spec_threat() == old(self).spec_state().spec_threat(),
    {
        self.state.set_status(Status::Starting);
        let now = crate::clock::now_millis();
        self.state.mark_started(now);
        self.state.set_status(Status::Running);
        Ok(())
    }

    /// Stop the core; it ends up stopped.
    pub fn stop(&mut self) -> (r: Result<(), ChameleonError>)
        requires
            old(self).wf(),
        ensures
            final(self).wf(),
            r is Ok,
            final(self).spec_state().spec_status() == Status::Stopped,
            final(self).spec_state().spec_posture() == old(self).spec_state().spec_posture(),
            final(self).spec_state().spec_threat() == old(self).spec_state().spec_threat(),
    {
        self.state.set_status(Status::Stopping);
        self.state.set_status(Status::Stopped);
        Ok(())
    }

    /// Handle one submitted event: record it in the metrics store, then let a
    /// security alert drive the posture decision.  Returns the notification
    /// event to broadcast when the posture changed.  Never fails on
    /// well-typed input.
    pub fn handle_event(&mut self, event: Event) -> (r: Result<Option<Event>, ChameleonError>)
        requires
            old(self).wf(),
        ensures
            final(self).wf(),
            r is Ok,
            spec_recorded(old(self).spec_metrics(), final(self).spec_metrics(), &event),
            event.event_type == EventType::SecurityAlert ==> spec_evaluated(
                old(self).spec_state(),
                final(self).spec_state(),
                event.event_type,
                old(self).spec_config().spec_threshold(),
                r->Ok_0 is Some,
            ),
            event.event_type != EventType::SecurityAlert ==> {
                &&& final(self).spec_state() == old(self).spec_state()
                &&& r->Ok_0 is None
            },
            r->Ok_0 matches Some(e) ==> {
                &&& e.event_type == EventType::PostureChange
                &&& e.source@ == "decision_engine"@
                &&& e.data == Some(json::json_object_of(decision::spec_posture_change_fields(
                    old(self).spec_state().spec_posture(),
                    final(self).spec_state().spec_posture(),
                )))
            },
            final(self).spec_state().same_bookkeeping(old(self).spec_state()),
    {
        let outcome = self.metrics.record_event(&event);
        if let Err(e) = outcome {
            return Err(e);
        }
        if matches!(event.event_type, EventType::SecurityAlert) {
            let (_changed, notification) = decision::evaluate(&mut self.state, &event, &self.config);
            Ok(notification)
        } else {
            Ok(None)
        }
    }

    /// Build an event from components, stamped with the current time, and
    /// handle it: some event with the given kind, source and payload is
    /// recorded (only its timestamp is the clock's), and a security alert
    /// drives the posture decision exactly as in
    /// [`ChameleonCore::handle_event`].
    pub fn register_event(
        &mut self,
        event_type: EventType,
        source: &str,
        data: Option<serde_json::Value>,
    ) -> (r: Result<Option<Event>, ChameleonError>)
        requires
            old(self).wf(),
        ensures
            final(self).wf(),
            r is Ok,
            exists|e: Event|
                {
                    &&& #[trigger] spec_recorded(
                        old(self).spec_metrics(),
                        final(self).spec_metrics(),
                        &e,
                    )
                    &&& e.event_type == event_type
                    &&& e.source@ == source@
                    &&& e.data == data
                },
            event_type == EventType::SecurityAlert ==> spec_evaluated(
                old(self).spec_state(),
                final(self).spec_state(),
                event_type,
                old(self).spec_config().spec_threshold(),
                r->Ok_0 is Some,
            ),
            event_type != EventType::SecurityAlert ==> {
                &&& final(self).spec_state() == old(self).spec_state()
                &&& r->Ok_0 is None
            },
            r->Ok_0 matches Some(e) ==> {
                &&& e.event_type == EventType::PostureChange
                &&& e.source@ == "decision_engine"@
                &&& e.data == Some(json::json_object_of(decision::spec_posture_change_fields(
                    old(self).spec_state().spec_posture(),
                    final(self).spec_state().spec_posture(),
                )))
            },
            final(self).spec_state().same_bookkeeping(old(self).spec_state()),
    {
        let event = Event::new(event_type, source, data);
        let ghost witness = event;
        let r = self.handle_event(event);
        proof {
            assert(spec_recorded(old(self).spec_metrics(), final(self).spec_metrics(), &witness));
        }
        r
    }

    /// Change the posture unconditionally, bypassing the decision gate, and
    /// record the posture-change event this emits.  Returns the notification
    /// for the caller to broadcast.
    pub fn change_posture(&mut self, posture: Posture) -> (r: Result<Event, ChameleonError>)
        requires
            old(self).wf(),
        ensures
            final(self).wf(),
            r is Ok,
            final(self).spec_state().spec_posture() == posture,
            final(self).spec_state().spec_last_posture_change() is Some,
            final(self).spec_state().spec_threat() == old(self).spec_state().spec_threat(),
            final(self).spec_state().same_bookkeeping(old(self).spec_state()),
            r matches Ok(e) ==> {
                &&& e.event_type == EventType::PostureChange
                &&& e.source@ == "core"@
                &&& e.data == Some(json::json_object_of(decision::spec_posture_change_fields(
                    old(self).spec_state().spec_posture(),
                    posture,
                )))
                &&& spec_recorded(old(self).spec_metrics(), final(self).spec_metrics(), &e)
            },
    {
        let old_posture = self.state.current_posture();
        let now = crate::clock::now_millis();
        self.state.commit_posture(posture, now);
        let notification = decision::posture_change_event("core", old_posture, posture);
        let recorded = self.metrics.record_event(&notification);
        if let Err(e) = recorded {
            return Err(e);
        }
        Ok(notification)
    }

    /// Evaluate one event against the decision engine directly; see
    /// [`decision::evaluate`].
    pub fn evaluate_event(&mut self, event: &Event) -> (r: (bool, Option<Event>))
        requires
            old(self).wf(),
        ensures
            final(self).wf(),
            spec_evaluated(
                old(self).spec_state(),
                final(self).spec_state(),
                event.event_type,
                old(self).spec_config().spec_threshold(),
                r.0,
            ),
            r.1 is Some <==> r.0,
            r.1 matches Some(e) ==> {
                &&& e.event_type == EventType::PostureChange
                &&& e.source@ == "decision_engine"@
                &&& e.data == Some(json::json_object_of(decision::spec_posture_change_fields(
                    old(self).spec_state().spec_posture(),
                    final(self).spec_state().spec_posture(),
                )))
            },
    {
        decision::evaluate(&mut self.state, event, &self.config)
    }

    /// The read-only snapshot of the system state: every field equals the
    /// corresponding observable of the state; idempotent between mutations.
    pub fn get_state(&self) -> (r: Result<SystemState, ChameleonError>)
        ensures
            r matches Ok(snap) ==> {
                &&& snapshot_eq(snap, self.spec_state().spec_snapshot())
                &&& snap.status == self.spec_state().spec_status()
                &&& snap.current_posture == self.spec_state().spec_posture()
                &&& snap.started_at == self.spec_state().spec_started_at()
                &&& snap.last_posture_change == self.spec_state().spec_last_posture_change()
                &&& snap.threat_level == self.spec_state().spec_threat()
                &&& snap.active_services_count == self.spec_state().spec_services().len()
                &&& snap.active_honeypots_count == self.spec_state().spec_honeypots().len()
                &&& fp_opt_eq(snap.current_fingerprint, self.spec_state().spec_fingerprint())
            },
            r is Ok,
    {
        Ok(self.state.get_system_state())
    }

    /// The metrics within a time range; the report is pinned by
    /// [`spec_report_of`], exactly as [`MetricsCollector::get_metrics`] pins
    /// it.  Never fails.
    pub fn get_metrics(&self, start: i64, end: i64) -> (r: Result<MetricsReport, ChameleonError>)
        requires
            self.wf(),
        ensures
            r matches Ok(report) ==> spec_report_of(self.spec_metrics(), report, start, end),
            r is Ok,
    {
        self.metrics.get_metrics(start, end)
    }

    /// The shared state, read-only.
    pub fn state(&self) -> (r: &ChameleonState)
        ensures
            r == self.spec_state(),
    {
        &self.state
    }

    /// Bookkeeping: register a service descriptor, as reported by an
    /// actuator subsystem.  Does not go through the decision gate.
    pub fn register_service(&mut self, name: String, info: crate::state::ServiceInfo)
        requires
            old(self).wf(),
        ensures
            final(self).wf(),
            final(self).spec_state().spec_service(name@) == Some(info),
            forall|n: Seq<char>|
                n != name@ ==> final(self).spec_state().spec_service(n) == old(
                    self,
                ).spec_state().spec_service(n),
            final(self).spec_state().spec_honeypots() == old(self).spec_state().spec_honeypots(),
            final(self).spec_state().spec_posture() == old(self).spec_state().spec_posture(),
            final(self).spec_state().spec_threat() == old(self).spec_state().spec_threat(),
            final(self).spec_state().same_lifecycle(old(self).spec_state()),
            final(self).spec_state().spec_fingerprint() == old(
                self,
            ).spec_state().spec_fingerprint(),
    {
        self.state.add_service(name, info);
    }

    /// Bookkeeping: remove a service by name; when the name is absent, the
    /// state is unchanged.
    pub fn remove_service(&mut self, name: &str) -> (r: Option<crate::state::ServiceInfo>)
        requires
            old(self).wf(),
        ensures
            final(self).wf(),
            r == old(self).spec_state().spec_service(name@),
            final(self).spec_state().spec_service(name@) == None::<crate::state::ServiceInfo>,
            forall|n: Seq<char>|
                n != name@ ==> final(self).spec_state().spec_service(n) == old(
                    self,
                ).spec_state().spec_service(n),
            final(self).spec_state().spec_honeypots() == old(self).spec_state().spec_honeypots(),
            final(self).spec_state().spec_posture() == old(self).spec_state().spec_posture(),
            final(self).spec_state().spec_threat() == old(self).spec_state().spec_threat(),
            final(self).spec_state().same_lifecycle(old(self).spec_state()),
            final(self).spec_state().spec_fingerprint() == old(
                self,
            ).spec_state().spec_fingerprint(),
    {
        self.state.remove_service(name)
    }

    /// Bookkeeping: deploy a honeypot descriptor; ids stay unique, so a
    /// descriptor carrying a known id replaces it and a new one is appended.
    pub fn add_honeypot(&mut self, info: crate::state::HoneypotInfo)
        requires
            old(self).wf(),
        ensures
            final(self).wf(),
            final(self).spec_state().spec_honeypots() == if exists|i: int|
                0 <= i < old(self).spec_state().spec_honeypots().len() && old(
                    self,
                ).spec_state().spec_honeypots()[i].id@ == info.id@ {
                old(self).spec_state().spec_honeypots().update(
                    choose|i: int|
                        0 <= i < old(self).spec_state().spec_honeypots().len() && old(
                            self,
                        ).spec_state().spec_honeypots()[i].id@ == info.id@,
                    info,
                )
            } else {
                old(self).spec_state().spec_honeypots().push(info)
            },
            final(self).spec_state().spec_services() == old(self).spec_state().spec_services(),
            final(self).spec_state().spec_posture() == old(self).spec_state().spec_posture(),
            final(self).spec_state().spec_threat() == old(self).spec_state().spec_threat(),
            final(self).spec_state().same_lifecycle(old(self).spec_state()),
            final(self).spec_state().spec_fingerprint() == old(
                self,
            ).spec_state().spec_fingerprint(),
    {
        self.state.add_honeypot(info);
    }

    /// Bookkeeping: remove a honeypot by id; the matching descriptor is
    /// handed back and taken out of the list, and an unknown id leaves the
    /// state unchanged.
    pub fn remove_honeypot(&mut self, id: &str) -> (r: Option<crate::state::HoneypotInfo>)
        requires
            old(self).wf(),
        ensures
            final(self).wf(),
            match r {
                Some(info) => exists|i: int|
                    {
                        &&& 0 <= i < old(self).spec_state().spec_honeypots().len()
                        &&& old(self).spec_state().spec_honeypots()[i].id@ == id@
                        &&& info == old(self).spec_state().spec_honeypots()[i]
                        &&& final(self).spec_state().spec_honeypots() == old(
                            self,
                        ).spec_state().spec_honeypots().remove(i)
                    },
                None => {
                    &&& final(self).spec_state().spec_honeypots() == old(
                        self,
                    ).spec_state().spec_honeypots()
                    &&& forall|i: int|
                        0 <= i < old(self).spec_state().spec_honeypots().len() ==> old(
                            self,
                        ).spec_state().spec_honeypots()[i].id@ != id@
                },
            },
            final(self).spec_state().spec_services() == old(self).spec_state().spec_services(),
            final(self).spec_state().spec_posture() == old(self).spec_state().spec_posture(),
            final(self).spec_state().spec_threat() == old(self).spec_state().spec_threat(),
            final(self).spec_state().same_lifecycle(old(self).spec_state()),
            final(self).spec_state().spec_fingerprint() == old(
                self,
            ).spec_state().spec_fingerprint(),
    {
        self.state.remove_honeypot(id)
    }

    /// Bookkeeping: set the current fingerprint descriptor.
    pub fn set_fingerprint(&mut self, fingerprint: crate::state::FingerprintInfo)
        requires
            old(self).wf(),
        ensures
            final(self).wf(),
            final(self).spec_state().spec_fingerprint() == Some(fingerprint),
            final(self).spec_state().spec_services() == old(self).spec_state().spec_services(),
            final(self).spec_state().spec_honeypots() == old(self).spec_state().spec_honeypots(),
            final(self).spec_state().spec_posture() == old(self).spec_state().spec_posture(),
            final(self).spec_state().spec_threat() == old(self).spec_state().spec_threat(),
            final(self).spec_state().same_lifecycle(old(self).spec_state()),
    {
        self.state.set_fingerprint(fingerprint);
    }

    /// Bookkeeping: clear the current fingerprint descriptor.
    pub fn clear_fingerprint(&mut self)
        requires
            old(self).wf(),
        ensures
            final(self).wf(),
            final(self).spec_state().spec_fingerprint() is None,
            final(self).spec_state().spec_services() == old(self).spec_state().spec_services(),
            final(self).spec_state().spec_honeypots() == old(self).spec_state().spec_honeypots(),
            final(self).spec_state().spec_posture() == old(self).spec_state().spec_posture(),
            final(self).spec_state().spec_threat() == old(self).spec_state().spec_threat(),
            final(self).spec_state().same_lifecycle(old(self).spec_state()),
    {
        self.state.clear_fingerprint();
    }

    /// The metrics store, read-only.
    pub fn metrics(&self) -> (r: &MetricsCollector)
        ensures
            r == self.spec_metrics(),
    {
        &self.metrics
    }
}

impl Default for ChameleonCore {
    fn default() -> (r: Self)
        ensures
            r.wf(),
            r.spec_state().spec_status() == Status::Created,
            r.spec_state().spec_posture() == Posture::Neutral,
    {
        ChameleonCore::new()
    }
}

} // verus!
