//! The windowed, batch half of the posture decision machinery: a caller hands
//! in the events observed over a window, the engine weighs them by severity
//! tier, and a threat level at or above the change threshold commits the best
//! posture for the window unconditionally — this path has no hysteresis gate.
//!
//! Its breakpoints and posture mapping differ deliberately from the
//! continuous engine's: the two are independent operating modes, and a host
//! runs exactly one of them against a shared state at a time.

use vstd::prelude::*;

use crate::clock;
use crate::events::{spec_severity, AdaptiveEvent, Event, EventType, Severity};
use crate::json;
use crate::posture::{Posture, DEFAULT_CHANGE_THRESHOLD, THREAT_SCALE};

verus! {

/// Errors of the windowed posture engine.
#[derive(Debug, PartialEq, Eq)]
pub enum PostureEngineError {
    /// A posture name or value outside the configured set.
    InvalidPosture(String),
    /// A posture change failed.
    PostureChange(String),
    /// Service rotation failed.
    ServiceRotation(String),
    /// An input/output failure, carried as text.
    Io(String),
}

/// Parse a posture name, without regard to ASCII case; unknown names are
/// rejected with `InvalidPosture`.
pub fn parse_posture(s: &str) -> (r: Result<Posture, PostureEngineError>)
    ensures
        match r {
            Ok(p) => crate::posture::spec_posture_from(s@) == Some(p),
            Err(e) => crate::posture::spec_posture_from(s@) is None && e
                matches PostureEngineError::InvalidPosture(_),
        },
{
    match Posture::from_str(s) {
        Some(p) => Ok(p),
        None => {
            let mut msg = "Unknown posture: ".to_owned();
            msg.append(s);
            Err(PostureEngineError::InvalidPosture(msg))
        },
    }
}

/// Configuration of the windowed engine.
pub struct PostureEngineConfig {
    /// Threat level at which a window commits a change, in thousandths.
    pub change_threshold: u32,
    /// Whether service rotation is enabled.
    pub service_rotation_enabled: bool,
    /// Service rotation interval in seconds.
    pub service_rotation_interval: u64,
    /// The postures the engine may adopt.
    pub postures: Vec<Posture>,
}

impl PostureEngineConfig {
    /// Whether a posture is in the configured set.
    pub open spec fn spec_allows(&self, p: Posture) -> bool {
        exists|i: int| 0 <= i < self.postures@.len() && self.postures@[i] == p
    }

    /// Whether a posture is in the configured set.
    pub fn allows(&self, p: Posture) -> (r: bool)
        ensures
            r == self.spec_allows(p),
    {
        let n = self.postures.len();
        for i in 0..n
            invariant
                n == self.postures@.len(),
                forall|j: int| 0 <= j < i ==> self.postures@[j] != p,
        {
            if self.postures[i] == p {
                return true;
            }
        }
        false
    }
}

impl Default for PostureEngineConfig {
    /// The default configuration: threshold 0.75, rotation off, every
    /// posture allowed.
    fn default() -> (r: Self)
        ensures
            r.change_threshold == DEFAULT_CHANGE_THRESHOLD,
            !r.service_rotation_enabled,
            r.service_rotation_interval == 7200,
            r.postures@.len() == 5,
            forall|p: Posture| r.spec_allows(p),
    {
        let mut postures: Vec<Posture> = Vec::new();
        postures.push(Posture::Silent);
        postures.push(Posture::Neutral);
        postures.push(Posture::Mimetic);
        postures.push(Posture::Fulgurant);
        postures.push(Posture::Unstable);
        let r = PostureEngineConfig {
            change_threshold: DEFAULT_CHANGE_THRESHOLD,
            service_rotation_enabled: false,
            service_rotation_interval: 7200,
            postures,
        };
        proof {
            assert forall|p: Posture| r.spec_allows(p) by {
                match p {
                    Posture::Silent => assert(r.postures@[0] == p),
                    Posture::Neutral => assert(r.postures@[1] == p),
                    Posture::Mimetic => assert(r.postures@[2] == p),
                    Posture::Fulgurant => assert(r.postures@[3] == p),
                    Posture::Unstable => assert(r.postures@[4] == p),
                }
            }
        }
        r
    }
}

/// How many events of `s` carry each severity tier that the window weighs:
/// critical, high and medium counts.
pub open spec fn spec_tier_counts(s: Seq<Event>) -> (int, int, int)
    decreases s.len(),
{
    if s.len() == 0 {
        (0, 0, 0)
    } else {
        let (c, h, m) = spec_tier_counts(s.drop_last());
        match spec_severity(s.last().event_type) {
            Severity::Critical => (c + 1, h, m),
            Severity::High => (c, h + 1, m),
            Severity::Medium => (c, h, m + 1),
            _ => (c, h, m),
        }
    }
}

proof fn lemma_tier_counts_bound(s: Seq<Event>)
    ensures
        ({
            let (c, h, m) = spec_tier_counts(s);
            0 <= c && 0 <= h && 0 <= m && c + h + m <= s.len()
        }),
    decreases s.len(),
{
    if s.len() > 0 {
        lemma_tier_counts_bound(s.drop_last());
    }
}

/// The threat level of a window, in thousandths: the severity-weighted count
/// (critical 1.0, high 0.7, medium 0.3) over the window's size, clamped to
/// the scale; an empty window carries no threat.
pub open spec fn spec_window_threat(s: Seq<Event>) -> int {
    if s.len() == 0 {
        0
    } else {
        let (c, h, m) = spec_tier_counts(s);
        let weighted = c * 1000 + h * 700 + m * 300;
        if weighted / s.len() as int > THREAT_SCALE {
            THREAT_SCALE as int
        } else {
            weighted / s.len() as int
        }
    }
}

/// Whether a window holds any security alert.
pub open spec fn spec_has_alert(s: Seq<Event>) -> bool {
    exists|i: int| 0 <= i < s.len() && (#[trigger] s[i].event_type) matches EventType::SecurityAlert
}

/// The best posture for a window: at 0.9 of the scale and above, Fulgurant
/// against an identified alert and Unstable otherwise; Mimetic from 0.6,
/// Neutral from 0.3, Silent below.
pub open spec fn spec_best_posture(threat: int, has_alert: bool) -> Posture {
    if threat >= 900 {
        if has_alert {
            Posture::Fulgurant
        } else {
            Posture::Unstable
        }
    } else if threat >= 600 {
        Posture::Mimetic
    } else if threat >= 300 {
        Posture::Neutral
    } else {
        Posture::Silent
    }
}

/// The payload fields of the windowed engine's posture notification.
pub open spec fn spec_set_posture_fields(p: Posture, ts: i64) -> Seq<
    (Seq<char>, serde_json::Value),
> {
    seq![
        ("posture"@, json::json_string_of(p.spec_name())),
        ("timestamp"@, json::json_i64_of(ts)),
    ]
}

/// The payload of a derived posture-evaluation event: the original source,
/// the severity score, the original payload, and the recommendation marker.
pub open spec fn spec_recommendation_fields(e: AdaptiveEvent) -> Seq<
    (Seq<char>, serde_json::Value),
> {
    seq![
        ("original_source"@, json::json_string_of(e.source@)),
        ("severity"@, json::json_u64_of(e.severity as u64)),
        ("details"@, e.data),
        ("recommendation"@, json::json_string_of("evaluate_posture_change"@)),
    ]
}

/// How the engine's reactive handler answers a normalized signal: a security
/// alert, a system change or network activity yields a derived posture-change
/// event recommending an evaluation, with a payload naming the original
/// source, severity and payload; every other signal yields nothing.
pub fn posture_recommendation(event: &AdaptiveEvent) -> (r: Option<Event>)
    ensures
        r is Some <==> {
            ||| event.event_type@ == "SecurityAlert"@
            ||| event.event_type@ == "SystemChange"@
            ||| event.event_type@ == "NetworkActivity"@
        },
        r matches Some(e) ==> {
            &&& e.event_type == EventType::PostureChange
            &&& e.source@ == "posture_engine_handler"@
            &&& e.data == Some(json::json_object_of(spec_recommendation_fields(*event)))
        },
{
    let relevant = crate::strutil::str_eq(event.event_type.as_str(), "SecurityAlert")
        || crate::strutil::str_eq(event.event_type.as_str(), "SystemChange")
        || crate::strutil::str_eq(event.event_type.as_str(), "NetworkActivity");
    if !relevant {
        return None;
    }
    let mut fields: Vec<(String, serde_json::Value)> = Vec::new();
    fields.push(("original_source".to_owned(), json::json_string(event.source.as_str())));
    fields.push(("severity".to_owned(), json::json_u64(event.severity as u64)));
    fields.push(("details".to_owned(), event.data.clone()));
    fields.push(("recommendation".to_owned(), json::json_string("evaluate_posture_change")));
    proof {
        assert(json::fields_view(fields@) =~= spec_recommendation_fields(*event));
    }
    let payload = json::json_object(fields);
    Some(Event::new(EventType::PostureChange, "posture_engine_handler", Some(payload)))
}

/// A rotator for the exposed services; the rotation itself is an actuator
/// concern, so the engine only tracks the schedule.
pub struct ServiceRotator {
    interval: u64,
    running: bool,
}

impl ServiceRotator {
    pub closed spec fn spec_interval(&self) -> u64 {
        self.interval
    }

    pub closed spec fn spec_running(&self) -> bool {
        self.running
    }

    /// A stopped rotator with the given interval in seconds.
    pub fn new(interval: u64) -> (r: Self)
        ensures
            r.spec_interval() == interval,
            !r.spec_running(),
    {
        ServiceRotator { interval, running: false }
    }

    /// Start rotating.
    pub fn start(&mut self) -> (r: Result<(), PostureEngineError>)
        ensures
            r is Ok,
            final(self).spec_running(),
            final(self).spec_interval() == old(self).spec_interval(),
    {
        self.running = true;
        Ok(())
    }

    /// Stop rotating.
    pub fn stop(&mut self) -> (r: Result<(), PostureEngineError>)
        ensures
            r is Ok,
            !final(self).spec_running(),
            final(self).spec_interval() == old(self).spec_interval(),
    {
        self.running = false;
        Ok(())
    }
}

/// The windowed posture engine.
pub struct PostureEngine {
    config: PostureEngineConfig,
    current_posture: Posture,
    posture_history: Vec<(Posture, i64)>,
    service_rotator: Option<ServiceRotator>,
}

impl PostureEngine {
    pub closed spec fn spec_posture(&self) -> Posture {
        self.current_posture
    }

    /// The committed postures with their timestamps, oldest first.
    pub closed spec fn spec_history(&self) -> Seq<(Posture, i64)> {
        self.posture_history@
    }

    pub closed spec fn spec_config(&self) -> &PostureEngineConfig {
        &self.config
    }

    /// A fresh engine: neutral posture, empty history, a rotator if the
    /// configuration enables rotation.
    pub fn new(config: PostureEngineConfig) -> (r: Result<Self, PostureEngineError>)
        ensures
            r matches Ok(e) ==> {
                &&& e.spec_posture() == Posture::Neutral
                &&& e.spec_history().len() == 0
                &&& e.spec_config() == config
            },
            r is Ok,
    {
        let service_rotator = if config.service_rotation_enabled {
            Some(ServiceRotator::new(config.service_rotation_interval))
        } else {
            None
        };
        Ok(
            PostureEngine {
                config,
                current_posture: Posture::Neutral,
                posture_history: Vec::new(),
                service_rotator,
            },
        )
    }

    /// Start the engine (and its rotator, when configured).
    pub fn start(&mut self) -> (r: Result<(), PostureEngineError>)
        ensures
            r is Ok,
            final(self).spec_posture() == old(self).spec_posture(),
            final(self).spec_history() == old(self).spec_history(),
    {
        if let Some(rotator) = &mut self.service_rotator {
            let started = rotator.start();
            if let Err(e) = started {
                return Err(e);
            }
        }
        Ok(())
    }

    /// Stop the engine (and its rotator, when configured).
    pub fn stop(&mut self) -> (r: Result<(), PostureEngineError>)
        ensures
            r is Ok,
            final(self).spec_posture() == old(self).spec_posture(),
            final(self).spec_history() == old(self).spec_history(),
    {
        if let Some(rotator) = &mut self.service_rotator {
            let stopped = rotator.stop();
            if let Err(e) = stopped {
                return Err(e);
            }
        }
        Ok(())
    }

    /// The current posture.
    pub fn get_current_posture(&self) -> (r: Posture)
        ensures
            r == self.spec_posture(),
    {
        self.current_posture
    }

    /// Commit a posture: allowed if and only if it is in the configured set.
    /// A committed posture is appended to the history and yields the
    /// notification event to broadcast.
    pub fn set_posture(&mut self, posture: Posture) -> (r: Result<Event, PostureEngineError>)
        ensures
            old(self).spec_config().spec_allows(posture) <==> r is Ok,
            match r {
                Ok(e) => {
                    &&& final(self).spec_posture() == posture
                    &&& exists|ts: i64|
                        final(self).spec_history() == old(self).spec_history().push(
                            (posture, ts),
                        ) && e.data == Some(json::json_object_of(#[trigger] spec_set_posture_fields(
                            posture,
                            ts,
                        )))
                    &&& e.event_type == EventType::PostureChange
                    &&& e.source@ == "posture_engine"@
                },
                Err(err) => {
                    &&& final(self).spec_posture() == old(self).spec_posture()
                    &&& final(self).spec_history() == old(self).spec_history()
                    &&& err matches PostureEngineError::InvalidPosture(_)
                },
            },
    {
        if !self.config.allows(posture) {
            return Err(
                PostureEngineError::InvalidPosture("posture not in the allowed set".to_owned()),
            );
        }
        let now = clock::now_millis();
        self.current_posture = posture;
        self.posture_history.push((posture, now));
        let mut fields: Vec<(String, serde_json::Value)> = Vec::new();
        fields.push(("posture".to_owned(), json::json_string(posture.to_str())));
        fields.push(("timestamp".to_owned(), json::json_i64(now)));
        proof {
            assert(json::fields_view(fields@) =~= spec_set_posture_fields(posture, now));
        }
        let payload = json::json_object(fields);
        Ok(Event::new(EventType::PostureChange, "posture_engine", Some(payload)))
    }

    /// Evaluate a window of events: weigh them by severity tier into a
    /// threat level, and commit the window's best posture when the level
    /// reaches the change threshold and the posture differs from the current
    /// one.  Returns whether a change was committed, with the notification to
    /// broadcast.  A change to a posture outside the configured set is
    /// rejected with `InvalidPosture`.
    pub fn evaluate_events(&mut self, events: &Vec<Event>) -> (r: Result<
        (bool, Option<Event>),
        PostureEngineError,
    >)
        requires
            events@.len() <= 1_000_000_000_000,
        ensures
            ({
                let threat = spec_window_threat(events@);
                let best = spec_best_posture(threat, spec_has_alert(events@));
                let wants_change = threat >= old(self).spec_config().change_threshold && best != old(
                    self,
                ).spec_posture();
                match r {
                    Ok((changed, notification)) => {
                        &&& changed == (wants_change && old(self).spec_config().spec_allows(best))
                        &&& changed ==> final(self).spec_posture() == best && exists|ts: i64|
                            final(self).spec_history() == old(self).spec_history().push(
                                (best, ts),
                            )
                        &&& !changed ==> final(self).spec_posture() == old(self).spec_posture()
                            && final(self).spec_history() == old(self).spec_history()
                        &&& notification is Some <==> changed
                    },
                    Err(e) => {
                        &&& wants_change
                        &&& !old(self).spec_config().spec_allows(best)
                        &&& e matches PostureEngineError::InvalidPosture(_)
                        &&& final(self).spec_posture() == old(self).spec_posture()
                    },
                }
            }),
    {
        let (threat, has_alert) = window_threat(events);
        if threat >= self.config.change_threshold {
            let best = best_posture(threat, has_alert);
            if best != self.current_posture {
                match self.set_posture(best) {
                    Ok(notification) => {
                        return Ok((true, Some(notification)));
                    },
                    Err(e) => {
                        return Err(e);
                    },
                }
            }
        }
        Ok((false, None))
    }

    /// The posture history, oldest first, as a copy.
    pub fn get_posture_history(&self) -> (r: Vec<(Posture, i64)>)
        ensures
            r@ == self.spec_history(),
    {
        let mut out: Vec<(Posture, i64)> = Vec::new();
        let n = self.posture_history.len();
        for i in 0..n
            invariant
                n == self.posture_history@.len(),
                out@.len() == i,
                forall|j: int| 0 <= j < i ==> out@[j] == self.posture_history@[j],
        {
            out.push(self.posture_history[i]);
        }
        proof {
            assert(out@ =~= self.spec_history());
        }
        out
    }
}

/// The threat level of a window in thousandths, with whether it holds any
/// security alert; see [`spec_window_threat`].
pub fn window_threat(events: &Vec<Event>) -> (r: (u32, bool))
    requires
        events@.len() <= 1_000_000_000_000,
    ensures
        r.0 as int == spec_window_threat(events@),
        r.1 == spec_has_alert(events@),
{
    let n = events.len();
    if n == 0 {
        return (0, false);
    }
    let mut critical: u64 = 0;
    let mut high: u64 = 0;
    let mut medium: u64 = 0;
    let mut has_alert = false;
    for i in 0..n
        invariant
            n == events@.len(),
            n <= 1_000_000_000_000,
            ({
                let (c, h, m) = spec_tier_counts(events@.take(i as int));
                critical == c && high == h && medium == m
            }),
            critical <= i && high <= i && medium <= i,
            has_alert == spec_has_alert(events@.take(i as int)),
    {
        proof {
            assert(events@.take(i + 1).drop_last() =~= events@.take(i as int));
            assert(events@.take(i + 1).last() == events@[i as int]);
            lemma_tier_counts_bound(events@.take(i as int));
        }
        match events[i].severity() {
            Severity::Critical => {
                critical = critical + 1;
            },
            Severity::High => {
                high = high + 1;
            },
            Severity::Medium => {
                medium = medium + 1;
            },
            _ => {},
        }
        if matches!(events[i].event_type, EventType::SecurityAlert) {
            has_alert = true;
        }
        proof {
            if spec_has_alert(events@.take(i as int)) {
                let w = choose|j: int|
                    0 <= j < i && (#[trigger] events@.take(i as int)[j].event_type)
                        matches EventType::SecurityAlert;
                assert(events@.take(i + 1)[w].event_type matches EventType::SecurityAlert);
            }
        }
    }
    proof {
        assert(events@.take(n as int) =~= events@);
    }
    let weighted: u64 = critical * 1000 + high * 700 + medium * 300;
    let threat: u64 = weighted / (n as u64);
    let clamped: u32 = if threat > THREAT_SCALE as u64 {
        THREAT_SCALE
    } else {
        threat as u32
    };
    (clamped, has_alert)
}

/// The best posture for a threat level; see [`spec_best_posture`].
pub fn best_posture(threat: u32, has_alert: bool) -> (r: Posture)
    ensures
        r == spec_best_posture(threat as int, has_alert),
{
    if threat >= 900 {
        if has_alert {
            Posture::Fulgurant
        } else {
            Posture::Unstable
        }
    } else if threat >= 600 {
        Posture::Mimetic
    } else if threat >= 300 {
        Posture::Neutral
    } else {
        Posture::Silent
    }
}

} // verus!
