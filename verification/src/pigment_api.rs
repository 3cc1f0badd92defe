//! The management API's data shapes and the pure logic behind its routes:
//! event filtering and pagination, and the view of the system that the
//! event stream maintains.  The HTTP server itself is the host application's
//! business.

use vstd::prelude::*;

use crate::events::{spec_kind_text, spec_severity, Event, EventType};
use crate::json;
use crate::kv::StrMap;

verus! {

/// Errors of the management API.
#[derive(Debug, PartialEq, Eq)]
pub enum PigmentApiError {
    /// The server failed.
    ServerError(String),
    /// A request was invalid.
    InvalidRequest(String),
    /// Something was not found.
    NotFound(String),
    /// An input/output failure, carried as text.
    Io(String),
}

/// A request to change the posture.
#[derive(Debug, PartialEq, Eq)]
pub struct ChangePostureRequest {
    /// The new posture, by name.
    pub posture: String,
}

/// The response to a posture change.
#[derive(Debug, PartialEq, Eq)]
pub struct ChangePostureResponse {
    /// Whether the change was committed.
    pub success: bool,
    /// The posture before the change, by name.
    pub previous_posture: String,
    /// The posture after the change, by name.
    pub new_posture: String,
    /// When the change happened, in milliseconds since the Unix epoch.
    pub timestamp: i64,
}

/// One event, shaped for API consumers.
#[derive(Debug)]
pub struct EventInfo {
    /// Position of the event in the filtered listing.
    pub id: String,
    /// Kind of event, as text.
    pub event_type: String,
    /// Source of the event.
    pub source: String,
    /// Severity label.
    pub severity: String,
    /// When the event occurred, in milliseconds since the Unix epoch.
    pub timestamp: i64,
    /// The event's payload, passed through.
    pub data: Option<serde_json::Value>,
}

/// A page of events.
#[derive(Debug)]
pub struct EventsResponse {
    /// The events of the page, in history order.
    pub events: Vec<EventInfo>,
    /// How many events matched the filters, over all pages.
    pub total: usize,
    /// The page number, from zero.
    pub page: usize,
    /// The page size.
    pub page_size: usize,
}

/// The system status, shaped for API consumers.
#[derive(Debug)]
pub struct SystemStatusResponse {
    /// Current status text.
    pub status: String,
    /// Current posture, by name.
    pub posture: String,
    /// The modules currently active.
    pub active_modules: Vec<String>,
    /// System metrics, as loosely-typed documents.
    pub metrics: Vec<(String, serde_json::Value)>,
    /// When the snapshot was taken, in milliseconds since the Unix epoch.
    pub timestamp: i64,
}

/// The default page number.
pub fn default_page() -> (r: usize)
    ensures
        r == 0,
{
    0
}

/// The default page size.
pub fn default_page_size() -> (r: usize)
    ensures
        r == 20,
{
    20
}

/// Whether an event passes the kind and source filters: an absent filter
/// passes everything, a present one compares exactly.
pub open spec fn spec_event_passes(
    e: Event,
    event_type: Option<Seq<char>>,
    source: Option<Seq<char>>,
) -> bool {
    &&& match event_type {
        Some(t) => spec_kind_text(e.event_type) == t,
        None => true,
    }
    &&& match source {
        Some(s) => e.source@ == s,
        None => true,
    }
}

/// The events passing the filters, in history order.
pub open spec fn spec_filtered_events(
    s: Seq<Event>,
    event_type: Option<Seq<char>>,
    source: Option<Seq<char>>,
) -> Seq<Event>
    decreases s.len(),
{
    if s.len() == 0 {
        Seq::empty()
    } else {
        let rest = spec_filtered_events(s.drop_last(), event_type, source);
        if spec_event_passes(s.last(), event_type, source) {
            rest.push(s.last())
        } else {
            rest
        }
    }
}

/// The view of the optional filters.
pub open spec fn spec_opt_view(v: Option<&String>) -> Option<Seq<char>> {
    match v {
        Some(s) => Some(s@),
        None => None,
    }
}

/// The events passing the filters, as copies.
fn filter_events(
    events: &Vec<Event>,
    event_type: Option<&String>,
    source: Option<&String>,
) -> (r: Vec<Event>)
    ensures
        r@ == spec_filtered_events(events@, spec_opt_view(event_type), spec_opt_view(source)),
{
    let ghost t = spec_opt_view(event_type);
    let ghost src = spec_opt_view(source);
    let mut out: Vec<Event> = Vec::new();
    let n = events.len();
    for i in 0..n
        invariant
            n == events@.len(),
            out@ == spec_filtered_events(events@.take(i as int), t, src),
            t == spec_opt_view(event_type),
            src == spec_opt_view(source),
    {
        proof {
            assert(events@.take(i + 1).drop_last() =~= events@.take(i as int));
            assert(events@.take(i + 1).last() == events@[i as int]);
        }
        let e = &events[i];
        let kind_ok = match event_type {
            Some(t_str) => crate::strutil::str_eq(e.event_type.text().as_str(), t_str.as_str()),
            None => true,
        };
        let source_ok = match source {
            Some(s_str) => crate::strutil::str_eq(e.source.as_str(), s_str.as_str()),
            None => true,
        };
        if kind_ok && source_ok {
            out.push(e.clone());
        }
    }
    proof {
        assert(events@.take(n as int) =~= events@);
    }
    out
}

/// One page of the filtered events, shaped for API consumers.  The page
/// covers the filtered listing from `page * page_size`, up to `page_size`
/// entries; a page beyond the listing is empty.  `total` counts every
/// filtered event.
pub fn events_page(
    events: &Vec<Event>,
    event_type: Option<&String>,
    source: Option<&String>,
    page: usize,
    page_size: usize,
) -> (r: EventsResponse)
    requires
        events@.len() < usize::MAX,
        page * page_size + page_size < usize::MAX,
    ensures
        ({
            let filtered = spec_filtered_events(
                events@,
                spec_opt_view(event_type),
                spec_opt_view(source),
            );
            let start = page * page_size;
            &&& r.total == filtered.len()
            &&& r.page == page
            &&& r.page_size == page_size
            &&& r.events@.len() == (if start < filtered.len() {
                if start + page_size <= filtered.len() {
                    page_size as int
                } else {
                    filtered.len() - start
                }
            } else {
                0int
            })
            &&& forall|j: int|
                0 <= j < r.events@.len() ==> {
                    let e = filtered[start + j];
                    &&& (#[trigger] r.events@[j]).event_type@ == spec_kind_text(e.event_type)
                    &&& r.events@[j].source@ == e.source@
                    &&& r.events@[j].severity@ == spec_severity(e.event_type).spec_label()
                    &&& r.events@[j].timestamp == e.timestamp
                    &&& r.events@[j].data == e.data
                }
        }),
{
    let filtered = filter_events(events, event_type, source);
    let total = filtered.len();
    let start = page * page_size;
    let end = if start + page_size <= total {
        start + page_size
    } else {
        total
    };
    let mut infos: Vec<EventInfo> = Vec::new();
    if start < total {
        let ghost fs = filtered@;
        for idx in start..end
            invariant
                fs == filtered@,
                start <= idx <= end,
                end <= fs.len(),
                start < fs.len(),
                infos@.len() == idx - start,
                forall|j: int|
                    0 <= j < infos@.len() ==> {
                        let e = fs[start + j];
                        &&& (#[trigger] infos@[j]).event_type@ == spec_kind_text(e.event_type)
                        &&& infos@[j].source@ == e.source@
                        &&& infos@[j].severity@ == spec_severity(e.event_type).spec_label()
                        &&& infos@[j].timestamp == e.timestamp
                        &&& infos@[j].data == e.data
                    },
        {
            let e = &filtered[idx];
            let info = EventInfo {
                id: crate::strutil::u64_to_string(idx as u64),
                event_type: e.event_type.text(),
                source: e.source.clone(),
                severity: e.severity().label().to_owned(),
                timestamp: e.timestamp,
                data: match &e.data {
                    Some(v) => Some(v.clone()),
                    None => None,
                },
            };
            infos.push(info);
        }
    }
    EventsResponse { events: infos, total, page, page_size }
}

/// The system view an event stream maintains for the API: the posture and
/// module names from posture-change and lifecycle events, and the metrics
/// from metrics reports.
pub struct ApiView {
    /// The posture last announced, by name.
    pub current_posture: String,
    active_modules: StrMap<bool>,
    metrics: StrMap<serde_json::Value>,
}

impl ApiView {
    /// Whether a module was last announced active.
    pub closed spec fn spec_module(&self, name: Seq<char>) -> Option<bool> {
        self.active_modules.spec_get(name)
    }

    /// A metric's last announced value.
    pub closed spec fn spec_metric(&self, name: Seq<char>) -> Option<serde_json::Value> {
        self.metrics.spec_get(name)
    }

    pub closed spec fn spec_posture_text(&self) -> Seq<char> {
        self.current_posture@
    }

    pub closed spec fn wf(&self) -> bool {
        self.active_modules.wf() && self.metrics.wf()
    }

    /// A fresh view: neutral posture, nothing announced.
    pub fn new() -> (r: Self)
        ensures
            r.wf(),
            r.spec_posture_text() == "neutral"@,
            forall|n: Seq<char>| r.spec_module(n) == None::<bool>,
            forall|n: Seq<char>| r.spec_metric(n) == None::<serde_json::Value>,
    {
        ApiView {
            current_posture: "neutral".to_owned(),
            active_modules: StrMap::new(),
            metrics: StrMap::new(),
        }
    }

    /// Absorb one event: a posture change updates the posture from its
    /// `posture` member; a service lifecycle event updates a module's flag
    /// from its `module` and `status` members (`active` means on); a metrics
    /// report merges the members of its `metrics` object.
    pub fn absorb_event(&mut self, event: &Event)
        requires
            old(self).wf(),
        ensures
            final(self).wf(),
            event.event_type == EventType::PostureChange ==> {
                match event.data {
                    Some(d) => match json::json_member_of(d, "posture"@) {
                        Some(m) => match json::json_str_of(m) {
                            Some(p) => final(self).spec_posture_text() == p,
                            None => final(self).spec_posture_text() == old(
                                self,
                            ).spec_posture_text(),
                        },
                        None => final(self).spec_posture_text() == old(self).spec_posture_text(),
                    },
                    None => final(self).spec_posture_text() == old(self).spec_posture_text(),
                }
            },
    {
        match &event.event_type {
            EventType::PostureChange => {
                if let Some(data) = &event.data {
                    if let Some(member) = json::json_get(data, "posture") {
                        if let Some(posture) = json::json_as_str(member) {
                            self.current_posture = posture.to_owned();
                        }
                    }
                }
            },
            EventType::ServiceLifecycle => {
                if let Some(data) = &event.data {
                    let module = match json::json_get(data, "module") {
                        Some(m) => match json::json_as_str(m) {
                            Some(s) => Some(s.to_owned()),
                            None => None,
                        },
                        None => None,
                    };
                    let status = match json::json_get(data, "status") {
                        Some(m) => match json::json_as_str(m) {
                            Some(s) => Some(s.to_owned()),
                            None => None,
                        },
                        None => None,
                    };
                    if let (Some(module), Some(status)) = (module, status) {
                        let active = crate::strutil::str_eq(status.as_str(), "active");
                        self.active_modules.set(module, active);
                    }
                }
            },
            EventType::MetricsReport => {
                if let Some(data) = &event.data {
                    if let Some(member) = json::json_get(data, "metrics") {
                        if let Some(entries) = json::json_entries(member) {
                            let n = entries.len();
                            for i in 0..n
                                invariant
                                    n == entries@.len(),
                                    self.metrics.wf(),
                                    self.active_modules.wf(),
                            {
                                let (k, v) = &entries[i];
                                self.metrics.set(k.clone(), v.clone());
                            }
                        }
                    }
                }
            },
            _ => {},
        }
    }

    /// The names of the modules last announced active, in announcement order.
    pub fn active_module_names(&self) -> (r: Vec<String>)
        requires
            self.wf(),
        ensures
            forall|j: int|
                0 <= j < r@.len() ==> self.spec_module((#[trigger] r@[j])@) == Some(true),
    {
        let mut out: Vec<String> = Vec::new();
        let pairs = self.active_modules.pairs();
        let n = pairs.len();
        for i in 0..n
            invariant
                n == pairs@.len(),
                pairs@ == self.active_modules.entries(),
                self.active_modules.wf(),
                forall|j: int|
                    0 <= j < out@.len() ==> self.spec_module((#[trigger] out@[j])@) == Some(true),
        {
            let (name, active) = &pairs[i];
            if *active {
                proof {
                    self.active_modules.lemma_entry_key_found(i as int);
                }
                out.push(name.clone());
            }
        }
        out
    }
}

} // verus!
