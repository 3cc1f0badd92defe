//! The shared state container: the single source of truth for status,
//! posture, threat level and the bookkeeping of services, honeypots and the
//! fingerprint.  The threat level lives in thousandths and is kept within
//! 0 to 1000 by every operation; the posture always reflects the last
//! committed decision.

use vstd::prelude::*;

use crate::kv::StrMap;
use crate::posture::{Posture, THREAT_SCALE};

verus! {

/// Service lifecycle states.
#[derive(Debug, Clone, Copy, PartialEq, Eq, Structural)]
pub enum Status {
    /// Created but not initialized.
    Created,
    /// Initializing.
    Initializing,
    /// Ready but not running.
    Ready,
    /// Starting.
    Starting,
    /// Running.
    Running,
    /// Paused.
    Paused,
    /// Stopping.
    Stopping,
    /// Stopped.
    Stopped,
    /// Encountered an error.
    Error,
    /// In an unknown state.
    Unknown,
}

/// Information about a running service.
#[derive(Debug, PartialEq)]
pub struct ServiceInfo {
    /// Service name.
    pub name: String,
    /// Service type.
    pub service_type: String,
    /// Port the service is running on.
    pub port: u16,
    /// When the service was started, in milliseconds since the Unix epoch.
    pub started_at: i64,
    /// Configuration properties.
    pub properties: Vec<(String, serde_json::Value)>,
}

/// Information about a deployed honeypot.
#[derive(Debug, PartialEq)]
pub struct HoneypotInfo {
    /// Unique id.
    pub id: String,
    /// Type of honeypot.
    pub honeypot_type: String,
    /// Port the honeypot is running on.
    pub port: u16,
    /// When the honeypot was deployed, in milliseconds since the Unix epoch.
    pub deployed_at: i64,
    /// Configuration properties.
    pub properties: Vec<(String, serde_json::Value)>,
}

/// Information about the current system fingerprint.
#[derive(Debug, PartialEq)]
pub struct FingerprintInfo {
    /// Name of the fingerprint.
    pub name: String,
    /// Operating system family.
    pub os_family: String,
    /// Operating system version.
    pub os_version: Option<String>,
    /// IP TTL value.
    pub ttl: Option<u8>,
    /// MSS value.
    pub mss: Option<u16>,
    /// TCP window size.
    pub window_size: Option<u32>,
    /// When the fingerprint was applied, in milliseconds since the Unix epoch.
    pub applied_at: i64,
    /// Additional properties.
    pub properties: Vec<(String, serde_json::Value)>,
}

/// Duplicate a property list; the copy is equal to the original.
pub fn clone_properties(props: &Vec<(String, serde_json::Value)>) -> (r: Vec<
    (String, serde_json::Value),
>)
    ensures
        r@ == props@,
{
    let mut out: Vec<(String, serde_json::Value)> = Vec::new();
    let n = props.len();
    for i in 0..n
        invariant
            n == props@.len(),
            out@.len() == i,
            forall|j: int| 0 <= j < i ==> out@[j] == props@[j],
    {
        let (k, v) = &props[i];
        out.push((k.clone(), v.clone()));
    }
    proof {
        assert(out@ =~= props@);
    }
    out
}

/// Two fingerprint descriptors carry the same information: equal fields,
/// with property lists compared by their contents.
pub open spec fn fp_eq(a: FingerprintInfo, b: FingerprintInfo) -> bool {
    &&& a.name == b.name
    &&& a.os_family == b.os_family
    &&& a.os_version == b.os_version
    &&& a.ttl == b.ttl
    &&& a.mss == b.mss
    &&& a.window_size == b.window_size
    &&& a.applied_at == b.applied_at
    &&& a.properties@ == b.properties@
}

/// Optional fingerprints carrying the same information.
pub open spec fn fp_opt_eq(a: Option<FingerprintInfo>, b: Option<FingerprintInfo>) -> bool {
    match (a, b) {
        (Some(x), Some(y)) => fp_eq(x, y),
        (None, None) => true,
        _ => false,
    }
}

impl Clone for FingerprintInfo {
    fn clone(&self) -> (r: Self)
        ensures
            fp_eq(r, *self),
    {
        FingerprintInfo {
            name: self.name.clone(),
            os_family: self.os_family.clone(),
            os_version: match &self.os_version {
                Some(v) => Some(v.clone()),
                None => None,
            },
            ttl: self.ttl,
            mss: self.mss,
            window_size: self.window_size,
            applied_at: self.applied_at,
            properties: clone_properties(&self.properties),
        }
    }
}

/// The external, read-only view of the system state.
#[derive(Debug, PartialEq)]
pub struct SystemState {
    /// Current status of the service.
    pub status: Status,
    /// Current defensive posture.
    pub current_posture: Posture,
    /// When the service was started, in milliseconds since the Unix epoch.
    pub started_at: Option<i64>,
    /// When the posture was last changed.
    pub last_posture_change: Option<i64>,
    /// Threat level in thousandths (0 through 1000).
    pub threat_level: u32,
    /// Number of active services.
    pub active_services_count: usize,
    /// Number of active honeypots.
    pub active_honeypots_count: usize,
    /// Current system fingerprint.
    pub current_fingerprint: Option<FingerprintInfo>,
}

/// Two snapshots carry the same information.
pub open spec fn snapshot_eq(a: SystemState, b: SystemState) -> bool {
    &&& a.status == b.status
    &&& a.current_posture == b.current_posture
    &&& a.started_at == b.started_at
    &&& a.last_posture_change == b.last_posture_change
    &&& a.threat_level == b.threat_level
    &&& a.active_services_count == b.active_services_count
    &&& a.active_honeypots_count == b.active_honeypots_count
    &&& fp_opt_eq(a.current_fingerprint, b.current_fingerprint)
}

/// Internal state of the system, mutated only through the decision engine
/// (posture, threat) and the bookkeeping methods below.
#[derive(Debug)]
pub struct ChameleonState {
    /// Current status of the service.
    pub status: Status,
    pub(crate) current_posture: Posture,
    pub(crate) started_at: Option<i64>,
    pub(crate) last_posture_change: Option<i64>,
    pub(crate) threat_level: u32,
    pub(crate) active_services: StrMap<ServiceInfo>,
    pub(crate) active_honeypots: Vec<HoneypotInfo>,
    /// Current system fingerprint.
    pub current_fingerprint: Option<FingerprintInfo>,
}

impl ChameleonState {
    /// Threat level in thousandths.
    pub closed spec fn spec_threat(&self) -> u32 {
        self.threat_level
    }

    /// Current committed posture.
    pub closed spec fn spec_posture(&self) -> Posture {
        self.current_posture
    }

    pub closed spec fn spec_started_at(&self) -> Option<i64> {
        self.started_at
    }

    pub closed spec fn spec_last_posture_change(&self) -> Option<i64> {
        self.last_posture_change
    }

    /// The registered services, as an association of names to descriptors.
    pub closed spec fn spec_services(&self) -> Seq<(String, ServiceInfo)> {
        self.active_services.entries()
    }

    pub closed spec fn spec_service(&self, name: Seq<char>) -> Option<ServiceInfo> {
        self.active_services.spec_get(name)
    }

    /// The deployed honeypots, in deployment order.
    pub closed spec fn spec_honeypots(&self) -> Seq<HoneypotInfo> {
        self.active_honeypots@
    }

    /// Well-formed: the threat level is within the scale, service names are
    /// unique, and honeypot ids are unique.
    pub closed spec fn wf(&self) -> bool {
        &&& self.threat_level <= THREAT_SCALE
        &&& self.active_services.wf()
        &&& forall|i: int, j: int|
            0 <= i < j < self.active_honeypots@.len()
                ==> self.active_honeypots@[i].id@ != self.active_honeypots@[j].id@
    }

    pub closed spec fn spec_status(&self) -> Status {
        self.status
    }

    pub closed spec fn spec_fingerprint(&self) -> Option<FingerprintInfo> {
        self.current_fingerprint
    }

    /// The lifecycle fields: status, start stamp and posture-change stamp.
    pub open spec fn same_lifecycle(&self, other: &Self) -> bool {
        &&& self.spec_status() == other.spec_status()
        &&& self.spec_started_at() == other.spec_started_at()
        &&& self.spec_last_posture_change() == other.spec_last_posture_change()
    }

    /// Everything but posture, threat level and the posture-change stamp.
    pub open spec fn same_bookkeeping(&self, other: &Self) -> bool {
        &&& self.spec_status() == other.spec_status()
        &&& self.spec_started_at() == other.spec_started_at()
        &&& self.spec_services() == other.spec_services()
        &&& self.spec_honeypots() == other.spec_honeypots()
        &&& self.spec_fingerprint() == other.spec_fingerprint()
    }

    /// A fresh state: created, neutral posture, no threat.
    pub fn new() -> (r: Self)
        ensures
            r.wf(),
            r.spec_status() == Status::Created,
            r.spec_posture() == Posture::Neutral,
            r.spec_started_at() == None::<i64>,
            r.spec_last_posture_change() == None::<i64>,
            r.spec_threat() == 0,
            r.spec_services().len() == 0,
            r.spec_honeypots().len() == 0,
            r.spec_fingerprint() == None::<FingerprintInfo>,
    {
        ChameleonState {
            status: Status::Created,
            current_posture: Posture::Neutral,
            started_at: None,
            last_posture_change: None,
            threat_level: 0,
            active_services: StrMap::new(),
            active_honeypots: Vec::new(),
            current_fingerprint: None,
        }
    }

    /// Current committed posture.
    pub fn current_posture(&self) -> (r: Posture)
        ensures
            r == self.spec_posture(),
    {
        self.current_posture
    }

    /// Threat level in thousandths.
    pub fn threat_level(&self) -> (r: u32)
        ensures
            r == self.spec_threat(),
    {
        self.threat_level
    }

    pub fn started_at(&self) -> (r: Option<i64>)
        ensures
            r == self.spec_started_at(),
    {
        self.started_at
    }

    pub fn last_posture_change(&self) -> (r: Option<i64>)
        ensures
            r == self.spec_last_posture_change(),
    {
        self.last_posture_change
    }

    /// Set the lifecycle status.
    pub fn set_status(&mut self, status: Status)
        ensures
            final(self).spec_status() == status,
            final(self).spec_posture() == old(self).spec_posture(),
            final(self).spec_threat() == old(self).spec_threat(),
            final(self).spec_started_at() == old(self).spec_started_at(),
            final(self).spec_last_posture_change() == old(self).spec_last_posture_change(),
            final(self).spec_services() == old(self).spec_services(),
            final(self).spec_honeypots() == old(self).spec_honeypots(),
            final(self).spec_fingerprint() == old(self).spec_fingerprint(),
            old(self).wf() ==> final(self).wf(),
    {
        self.status = status;
    }

    /// Mark the service started at the given time.
    pub fn mark_started(&mut self, now: i64)
        ensures
            final(self).spec_started_at() == Some(now),
            final(self).spec_status() == old(self).spec_status(),
            final(self).spec_posture() == old(self).spec_posture(),
            final(self).spec_threat() == old(self).spec_threat(),
            final(self).spec_last_posture_change() == old(self).spec_last_posture_change(),
            final(self).spec_services() == old(self).spec_services(),
            final(self).spec_honeypots() == old(self).spec_honeypots(),
            final(self).spec_fingerprint() == old(self).spec_fingerprint(),
            old(self).wf() ==> final(self).wf(),
    {
        self.started_at = Some(now);
    }

    /// The read-only snapshot handed to external consumers.  Deterministic in
    /// the state: two calls with no intervening mutation return equal values.
    pub fn get_system_state(&self) -> (r: SystemState)
        ensures
            snapshot_eq(r, self.spec_snapshot()),
            r.status == self.spec_status(),
            r.current_posture == self.spec_posture(),
            r.started_at == self.spec_started_at(),
            r.last_posture_change == self.spec_last_posture_change(),
            r.threat_level == self.spec_threat(),
            r.active_services_count == self.spec_services().len(),
            r.active_honeypots_count == self.spec_honeypots().len(),
            fp_opt_eq(r.current_fingerprint, self.spec_fingerprint()),
    {
        SystemState {
            status: self.status,
            current_posture: self.current_posture,
            started_at: self.started_at,
            last_posture_change: self.last_posture_change,
            threat_level: self.threat_level,
            active_services_count: self.active_services.len(),
            active_honeypots_count: self.active_honeypots.len(),
            current_fingerprint: match &self.current_fingerprint {
                Some(fp) => Some(fp.clone()),
                None => None,
            },
        }
    }

    /// What [`ChameleonState::get_system_state`] returns: a pure function of
    /// the state.
    pub closed spec fn spec_snapshot(&self) -> SystemState {
        SystemState {
            status: self.status,
            current_posture: self.current_posture,
            started_at: self.started_at,
            last_posture_change: self.last_posture_change,
            threat_level: self.threat_level,
            active_services_count: self.active_services.entries().len() as usize,
            active_honeypots_count: self.active_honeypots@.len() as usize,
            current_fingerprint: self.current_fingerprint,
        }
    }

    /// Law: snapshotting is idempotent.  The snapshot is a pure function of
    /// the state, so two snapshots taken with no intervening mutation carry
    /// the same information.
    pub proof fn lemma_snapshot_idempotent(&self, a: SystemState, b: SystemState)
        requires
            snapshot_eq(a, self.spec_snapshot()),
            snapshot_eq(b, self.spec_snapshot()),
        ensures
            snapshot_eq(a, b),
    {
    }

    /// Raise the threat level, saturating at the top of the scale.
    pub fn increase_threat_level(&mut self, amount: u32)
        requires
            old(self).wf(),
        ensures
            final(self).wf(),
            final(self).spec_threat() == if old(self).spec_threat() + amount > THREAT_SCALE {
                THREAT_SCALE as int
            } else {
                old(self).spec_threat() + amount
            },
            final(self).spec_posture() == old(self).spec_posture(),
            final(self).spec_last_posture_change() == old(self).spec_last_posture_change(),
            final(self).same_bookkeeping(old(self)),
    {
        if amount >= THREAT_SCALE - self.threat_level {
            self.threat_level = THREAT_SCALE;
        } else {
            self.threat_level = self.threat_level + amount;
        }
    }

    /// Lower the threat level, saturating at zero.
    pub fn decrease_threat_level(&mut self, amount: u32)
        requires
            old(self).wf(),
        ensures
            final(self).wf(),
            final(self).spec_threat() == if amount > old(self).spec_threat() {
                0int
            } else {
                old(self).spec_threat() - amount
            },
            final(self).spec_posture() == old(self).spec_posture(),
            final(self).spec_last_posture_change() == old(self).spec_last_posture_change(),
            final(self).same_bookkeeping(old(self)),
    {
        if amount > self.threat_level {
            self.threat_level = 0;
        } else {
            self.threat_level = self.threat_level - amount;
        }
    }

    /// Register a service descriptor under a name, replacing any held before.
    pub fn add_service(&mut self, name: String, info: ServiceInfo)
        requires
            old(self).wf(),
        ensures
            final(self).wf(),
            final(self).spec_service(name@) == Some(info),
            forall|n: Seq<char>| n != name@ ==> final(self).spec_service(n) == old(
                self,
            ).spec_service(n),
            final(self).spec_honeypots() == old(self).spec_honeypots(),
            final(self).spec_posture() == old(self).spec_posture(),
            final(self).spec_threat() == old(self).spec_threat(),
            final(self).same_lifecycle(old(self)),
            final(self).spec_fingerprint() == old(self).spec_fingerprint(),
    {
        self.active_services.set(name, info);
    }

    /// Remove a service by name, handing its descriptor back.
    pub fn remove_service(&mut self, name: &str) -> (r: Option<ServiceInfo>)
        requires
            old(self).wf(),
        ensures
            final(self).wf(),
            r == old(self).spec_service(name@),
            final(self).spec_service(name@) == None::<ServiceInfo>,
            forall|n: Seq<char>| n != name@ ==> final(self).spec_service(n) == old(
                self,
            ).spec_service(n),
            final(self).spec_honeypots() == old(self).spec_honeypots(),
            final(self).spec_posture() == old(self).spec_posture(),
            final(self).spec_threat() == old(self).spec_threat(),
            final(self).same_lifecycle(old(self)),
            final(self).spec_fingerprint() == old(self).spec_fingerprint(),
    {
        self.active_services.remove(name)
    }

    /// Position of the honeypot with the given id, if deployed.
    fn honeypot_position(&self, id: &str) -> (r: Option<usize>)
        ensures
            match r {
                Some(i) => i < self.spec_honeypots().len() && self.spec_honeypots()[i as int].id@
                    == id@,
                None => forall|i: int|
                    0 <= i < self.spec_honeypots().len() ==> self.spec_honeypots()[i].id@ != id@,
            },
    {
        let n = self.active_honeypots.len();
        for i in 0..n
            invariant
                n == self.active_honeypots@.len(),
                forall|j: int| 0 <= j < i ==> self.active_honeypots@[j].id@ != id@,
        {
            if crate::strutil::str_eq(self.active_honeypots[i].id.as_str(), id) {
                return Some(i);
            }
        }
        None
    }

    /// Deploy a honeypot descriptor.  Ids are unique: a descriptor carrying
    /// the id of one already deployed replaces it; otherwise the new one is
    /// appended.
    pub fn add_honeypot(&mut self, info: HoneypotInfo)
        requires
            old(self).wf(),
        ensures
            final(self).wf(),
            final(self).spec_honeypots() == if exists|i: int|
                0 <= i < old(self).spec_honeypots().len() && old(self).spec_honeypots()[i].id@
                    == info.id@ {
                old(self).spec_honeypots().update(
                    choose|i: int|
                        0 <= i < old(self).spec_honeypots().len() && old(
                            self,
                        ).spec_honeypots()[i].id@ == info.id@,
                    info,
                )
            } else {
                old(self).spec_honeypots().push(info)
            },
            final(self).spec_services() == old(self).spec_services(),
            final(self).spec_posture() == old(self).spec_posture(),
            final(self).spec_threat() == old(self).spec_threat(),
            final(self).same_lifecycle(old(self)),
            final(self).spec_fingerprint() == old(self).spec_fingerprint(),
    {
        match self.honeypot_position(info.id.as_str()) {
            Some(i) => {
                proof {
                    let olds = self.active_honeypots@;
                    let w = choose|j: int|
                        0 <= j < olds.len() && olds[j].id@ == olds[i as int].id@;
                    assert(w == i as int);
                }
                self.active_honeypots[i] = info;
            },
            None => {
                self.active_honeypots.push(info);
            },
        }
    }

    /// Remove a honeypot by id, handing its descriptor back.
    pub fn remove_honeypot(&mut self, id: &str) -> (r: Option<HoneypotInfo>)
        requires
            old(self).wf(),
        ensures
            final(self).wf(),
            match r {
                Some(info) => exists|i: int|
                    {
                        &&& 0 <= i < old(self).spec_honeypots().len()
                        &&& old(self).spec_honeypots()[i].id@ == id@
                        &&& info == old(self).spec_honeypots()[i]
                        &&& final(self).spec_honeypots() == old(self).spec_honeypots().remove(i)
                    },
                None => {
                    &&& final(self).spec_honeypots() == old(self).spec_honeypots()
                    &&& forall|i: int|
                        0 <= i < old(self).spec_honeypots().len() ==> old(
                            self,
                        ).spec_honeypots()[i].id@ != id@
                },
            },
            final(self).spec_services() == old(self).spec_services(),
            final(self).spec_posture() == old(self).spec_posture(),
            final(self).spec_threat() == old(self).spec_threat(),
            final(self).same_lifecycle(old(self)),
            final(self).spec_fingerprint() == old(self).spec_fingerprint(),
    {
        match self.honeypot_position(id) {
            Some(i) => Some(self.active_honeypots.remove(i)),
            None => None,
        }
    }

    /// Set the current fingerprint descriptor.
    pub fn set_fingerprint(&mut self, fingerprint: FingerprintInfo)
        requires
            old(self).wf(),
        ensures
            final(self).wf(),
            final(self).spec_fingerprint() == Some(fingerprint),
            final(self).spec_services() == old(self).spec_services(),
            final(self).spec_honeypots() == old(self).spec_honeypots(),
            final(self).spec_posture() == old(self).spec_posture(),
            final(self).spec_threat() == old(self).spec_threat(),
            final(self).same_lifecycle(old(self)),
    {
        self.current_fingerprint = Some(fingerprint);
    }

    /// Clear the current fingerprint descriptor.
    pub fn clear_fingerprint(&mut self)
        requires
            old(self).wf(),
        ensures
            final(self).wf(),
            final(self).spec_fingerprint() == None::<FingerprintInfo>,
            final(self).spec_services() == old(self).spec_services(),
            final(self).spec_honeypots() == old(self).spec_honeypots(),
            final(self).spec_posture() == old(self).spec_posture(),
            final(self).spec_threat() == old(self).spec_threat(),
            final(self).same_lifecycle(old(self)),
    {
        self.current_fingerprint = None;
    }

    /// Commit a posture unconditionally and stamp the change time.  This is
    /// the single write path for the posture: the decision engine calls it
    /// after its gate, and manual override calls it directly.
    pub fn commit_posture(&mut self, posture: Posture, now: i64)
        requires
            old(self).wf(),
        ensures
            final(self).wf(),
            final(self).spec_posture() == posture,
            final(self).spec_last_posture_change() == Some(now),
            final(self).spec_threat() == old(self).spec_threat(),
            final(self).same_bookkeeping(old(self)),
    {
        self.current_posture = posture;
        self.last_posture_change = Some(now);
    }
}

impl Default for ChameleonState {
    fn default() -> (r: Self)
        ensures
            r.wf(),
            r.spec_status() == Status::Created,
            r.spec_posture() == Posture::Neutral,
            r.spec_threat() == 0,
    {
        ChameleonState::new()
    }
}

/// A generic string-keyed store of opaque JSON documents, for components that
/// keep loosely-typed state.
pub struct StateManager {
    entries: StrMap<serde_json::Value>,
}

impl StateManager {
    /// The value stored under a key, if any.
    pub closed spec fn spec_get(&self, k: Seq<char>) -> Option<serde_json::Value> {
        self.entries.spec_get(k)
    }

    pub closed spec fn spec_len(&self) -> nat {
        self.entries.entries().len()
    }

    pub closed spec fn wf(&self) -> bool {
        self.entries.wf()
    }

    pub fn new() -> (r: Self)
        ensures
            r.wf(),
            r.spec_len() == 0,
            forall|k: Seq<char>| r.spec_get(k) == None::<serde_json::Value>,
    {
        StateManager { entries: StrMap::new() }
    }

    pub fn is_empty(&self) -> (r: bool)
        ensures
            r == (self.spec_len() == 0),
    {
        self.entries.is_empty()
    }

    pub fn len(&self) -> (r: usize)
        ensures
            r == self.spec_len(),
    {
        self.entries.len()
    }

    /// Store a value under a key, replacing any held before.
    pub fn set(&mut self, key: &str, value: serde_json::Value)
        requires
            old(self).wf(),
        ensures
            final(self).wf(),
            final(self).spec_get(key@) == Some(value),
            forall|k: Seq<char>| k != key@ ==> final(self).spec_get(k) == old(self).spec_get(k),
    {
        self.entries.set(key.to_owned(), value);
    }

    /// The value stored under a key, as a copy.
    pub fn get(&self, key: &str) -> (r: Option<serde_json::Value>)
        ensures
            r == self.spec_get(key@),
    {
        match self.entries.get(key) {
            Some(v) => Some(v.clone()),
            None => None,
        }
    }

    /// Drop the value stored under a key.
    pub fn remove(&mut self, key: &str) -> (r: Option<serde_json::Value>)
        requires
            old(self).wf(),
        ensures
            final(self).wf(),
            r == old(self).spec_get(key@),
            final(self).spec_get(key@) == None::<serde_json::Value>,
            forall|k: Seq<char>| k != key@ ==> final(self).spec_get(k) == old(self).spec_get(k),
    {
        self.entries.remove(key)
    }

    /// Drop everything.
    pub fn clear(&mut self)
        ensures
            final(self).wf(),
            final(self).spec_len() == 0,
            forall|k: Seq<char>| final(self).spec_get(k) == None::<serde_json::Value>,
    {
        self.entries.clear();
    }
}

} // verus!
