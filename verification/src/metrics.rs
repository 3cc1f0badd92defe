//! The metrics store: a bounded event history, counters, gauges, bounded
//! time series, and time-range queries over all of them.
//!
//! The history keeps at most [`HISTORY_CAP`] events; recording one more
//! evicts the oldest first.  Each time series is bounded the same way by
//! [`SERIES_CAP`].  Counters saturate instead of wrapping.  Gauge and series
//! values are carried in thousandths.

use vstd::prelude::*;

use crate::clock;
use crate::errors::ChameleonError;
use crate::events::{spec_kind_text, spec_severity, Event};
use crate::kv::StrMap;

verus! {

/// Most events the history keeps; the oldest is evicted first.
pub const HISTORY_CAP: usize = 10000;

/// Most points one time series keeps; the oldest is evicted first.
pub const SERIES_CAP: usize = 10000;

/// A point in a time series.
#[derive(Debug, Clone, Copy, PartialEq, Eq, Structural)]
pub struct TimeSeriesPoint {
    /// When the measurement was taken, in milliseconds since the Unix epoch.
    pub timestamp: i64,
    /// The measured value, in thousandths.
    pub value: i64,
}

/// A counter bumped by one: saturating, so it never wraps.
pub open spec fn spec_bump(prev: Option<u64>) -> u64 {
    match prev {
        None => 1,
        Some(v) => if v == u64::MAX {
            v
        } else {
            (v + 1) as u64
        },
    }
}

/// A bounded history after one more entry: the newest is appended, and the
/// oldest leaves when the bound was already reached.
pub open spec fn spec_push_evict<T>(s: Seq<T>, x: T, cap: int) -> Seq<T> {
    if s.len() < cap {
        s.push(x)
    } else {
        s.subrange(1, s.len() as int).push(x)
    }
}

/// The key counting events of a kind.
pub open spec fn spec_kind_key(kind_text: Seq<char>) -> Seq<char> {
    "event_count_"@ + kind_text
}

/// The key counting events from a source.
pub open spec fn spec_source_key(source: Seq<char>) -> Seq<char> {
    "event_source_"@ + source
}

/// The key counting events of a severity.
pub open spec fn spec_severity_key(label: Seq<char>) -> Seq<char> {
    "severity_"@ + label
}

/// The three counter keys of one event are pairwise distinct, whatever the
/// kind and source: the fixed prefixes already differ.
pub proof fn lemma_event_keys_distinct(kind_text: Seq<char>, source: Seq<char>, label: Seq<char>)
    ensures
        spec_kind_key(kind_text) != spec_source_key(source),
        spec_kind_key(kind_text) != spec_severity_key(label),
        spec_source_key(source) != spec_severity_key(label),
{
    reveal_strlit("event_count_");
    reveal_strlit("event_source_");
    reveal_strlit("severity_");
    let k1 = spec_kind_key(kind_text);
    let k2 = spec_source_key(source);
    let k3 = spec_severity_key(label);
    assert(k1[6] == 'c' && k2[6] == 's');
    assert(k1[0] == 'e' && k2[0] == 'e' && k3[0] == 's');
}

/// The events of `s` whose timestamps lie in `[start, end]`, oldest first.
pub open spec fn spec_events_in_range(s: Seq<Event>, start: i64, end: i64) -> Seq<Event>
    decreases s.len(),
{
    if s.len() == 0 {
        Seq::empty()
    } else {
        let rest = spec_events_in_range(s.drop_last(), start, end);
        if start <= s.last().timestamp <= end {
            rest.push(s.last())
        } else {
            rest
        }
    }
}

/// The points of `pts` whose timestamps lie in `[start, end]`, oldest first.
pub open spec fn spec_points_in_range(pts: Seq<TimeSeriesPoint>, start: i64, end: i64) -> Seq<
    TimeSeriesPoint,
>
    decreases pts.len(),
{
    if pts.len() == 0 {
        Seq::empty()
    } else {
        let rest = spec_points_in_range(pts.drop_last(), start, end);
        if start <= pts.last().timestamp <= end {
            rest.push(pts.last())
        } else {
            rest
        }
    }
}

/// The in-range selection never grows longer than the history.
proof fn lemma_in_range_len(s: Seq<Event>, start: i64, end: i64)
    ensures
        spec_events_in_range(s, start, end).len() <= s.len(),
    decreases s.len(),
{
    if s.len() > 0 {
        lemma_in_range_len(s.drop_last(), start, end);
    }
}

/// The textual kind of an event.
pub open spec fn spec_kind_of(e: Event) -> Seq<char> {
    spec_kind_text(e.event_type)
}

/// The source of an event.
pub open spec fn spec_source_of(e: Event) -> Seq<char> {
    e.source@
}

/// The severity label of an event.
pub open spec fn spec_severity_of(e: Event) -> Seq<char> {
    spec_severity(e.event_type).spec_label()
}

/// How many events of `s` have textual kind `k`.
pub open spec fn spec_kind_tally(s: Seq<Event>, k: Seq<char>) -> int
    decreases s.len(),
{
    if s.len() == 0 {
        0
    } else {
        spec_kind_tally(s.drop_last(), k) + if spec_kind_of(s.last()) == k {
            1int
        } else {
            0int
        }
    }
}

/// How many events of `s` have source `k`.
pub open spec fn spec_source_tally(s: Seq<Event>, k: Seq<char>) -> int
    decreases s.len(),
{
    if s.len() == 0 {
        0
    } else {
        spec_source_tally(s.drop_last(), k) + if spec_source_of(s.last()) == k {
            1int
        } else {
            0int
        }
    }
}

/// How many events of `s` have severity label `k`.
pub open spec fn spec_severity_tally(s: Seq<Event>, k: Seq<char>) -> int
    decreases s.len(),
{
    if s.len() == 0 {
        0
    } else {
        spec_severity_tally(s.drop_last(), k) + if spec_severity_of(s.last()) == k {
            1int
        } else {
            0int
        }
    }
}

/// A tally as a counter entry: present if and only if it is positive.
pub open spec fn spec_entry_of(tally: int) -> Option<u64> {
    if tally > 0 {
        Some(tally as u64)
    } else {
        None
    }
}

/// No tally exceeds the length of the sequence.
proof fn lemma_tally_bounds(s: Seq<Event>, k: Seq<char>)
    ensures
        0 <= spec_kind_tally(s, k) <= s.len(),
        0 <= spec_source_tally(s, k) <= s.len(),
        0 <= spec_severity_tally(s, k) <= s.len(),
    decreases s.len(),
{
    if s.len() > 0 {
        lemma_tally_bounds(s.drop_last(), k);
    }
}

/// The points of an optional series, as a sequence.
pub open spec fn spec_opt_points(v: Option<Vec<TimeSeriesPoint>>) -> Option<Seq<TimeSeriesPoint>> {
    match v {
        Some(pts) => Some(pts@),
        None => None,
    }
}

/// The filtered series of the entry holding `k`, present if and only if some
/// of its points lie in the range.
pub open spec fn spec_series_query(
    entries: Seq<(String, Vec<TimeSeriesPoint>)>,
    k: Seq<char>,
    start: i64,
    end: i64,
) -> Option<Seq<TimeSeriesPoint>>
    decreases entries.len(),
{
    if entries.len() == 0 {
        None
    } else if entries.last().0@ == k {
        let f = spec_points_in_range(entries.last().1@, start, end);
        if f.len() > 0 {
            Some(f)
        } else {
            None
        }
    } else {
        spec_series_query(entries.drop_last(), k, start, end)
    }
}

/// A key held by no entry queries to nothing.
proof fn lemma_series_query_absent(
    entries: Seq<(String, Vec<TimeSeriesPoint>)>,
    k: Seq<char>,
    start: i64,
    end: i64,
)
    requires
        forall|j: int| 0 <= j < entries.len() ==> entries[j].0@ != k,
    ensures
        spec_series_query(entries, k, start, end) == None::<Seq<TimeSeriesPoint>>,
    decreases entries.len(),
{
    if entries.len() > 0 {
        lemma_series_query_absent(entries.drop_last(), k, start, end);
    }
}

/// How many events have timestamps at or after `cutoff`.
pub open spec fn spec_count_since(s: Seq<Event>, cutoff: i64) -> int
    decreases s.len(),
{
    if s.len() == 0 {
        0
    } else {
        spec_count_since(s.drop_last(), cutoff) + if s.last().timestamp >= cutoff {
            1int
        } else {
            0int
        }
    }
}

proof fn lemma_count_since_bound(s: Seq<Event>, cutoff: i64)
    ensures
        0 <= spec_count_since(s, cutoff) <= s.len(),
    decreases s.len(),
{
    if s.len() > 0 {
        lemma_count_since_bound(s.drop_last(), cutoff);
    }
}

/// The duration of a time range in whole seconds, truncated toward zero,
/// with the millisecond distance saturating at the top of the scale.
pub open spec fn spec_duration_seconds(start: i64, end: i64) -> int {
    if end >= start {
        (if end - start > i64::MAX {
            i64::MAX as int
        } else {
            end - start
        }) / 1000
    } else {
        -((if start - end > i64::MAX {
            i64::MAX as int
        } else {
            start - end
        }) / 1000)
    }
}

/// A metrics report over a time range: counts of the events in the range by
/// kind, source and severity, the point-in-time counters and gauges, and each
/// time series filtered to the range.
#[derive(Debug)]
pub struct MetricsReport {
    /// Start of the range, in milliseconds since the Unix epoch.
    pub start: i64,
    /// End of the range, inclusive.
    pub end: i64,
    /// Length of the range in whole seconds.
    pub duration_seconds: i64,
    /// How many recorded events lie in the range.
    pub total_events: usize,
    /// Counts of in-range events by textual kind.
    pub by_type: StrMap<u64>,
    /// Counts of in-range events by source.
    pub by_source: StrMap<u64>,
    /// Counts of in-range events by severity label.
    pub by_severity: StrMap<u64>,
    /// All counters, point-in-time.
    pub counters: StrMap<u64>,
    /// All gauges, point-in-time, in thousandths.
    pub gauges: StrMap<i64>,
    /// Each time series filtered to the range; empty results are left out.
    pub time_series: StrMap<Vec<TimeSeriesPoint>>,
}

/// The metrics store.
pub struct MetricsCollector {
    events: Vec<Event>,
    counters: StrMap<u64>,
    gauges: StrMap<i64>,
    time_series: StrMap<Vec<TimeSeriesPoint>>,
}

impl MetricsCollector {
    /// The recorded event history, oldest first.
    pub closed spec fn spec_events(&self) -> Seq<Event> {
        self.events@
    }

    /// The value of a counter, if it was ever touched.
    pub closed spec fn spec_counter(&self, k: Seq<char>) -> Option<u64> {
        self.counters.spec_get(k)
    }

    /// The value of a gauge, in thousandths, if it was ever set.
    pub closed spec fn spec_gauge(&self, k: Seq<char>) -> Option<i64> {
        self.gauges.spec_get(k)
    }

    /// The points of a series, oldest first, if it was ever written.
    pub closed spec fn spec_series(&self, k: Seq<char>) -> Option<Seq<TimeSeriesPoint>> {
        match self.time_series.spec_get(k) {
            Some(pts) => Some(pts@),
            None => None,
        }
    }

    /// The series store's entries.
    pub closed spec fn spec_series_entries(&self) -> Seq<(String, Vec<TimeSeriesPoint>)> {
        self.time_series.entries()
    }

    /// The counter store's entries.
    pub closed spec fn spec_counter_entries(&self) -> Seq<(String, u64)> {
        self.counters.entries()
    }

    /// The gauge store's entries.
    pub closed spec fn spec_gauge_entries(&self) -> Seq<(String, i64)> {
        self.gauges.entries()
    }

    /// Well-formed: the history and every series respect their caps, and the
    /// three stores have unique keys.
    pub closed spec fn wf(&self) -> bool {
        &&& self.events@.len() <= HISTORY_CAP
        &&& self.counters.wf()
        &&& self.gauges.wf()
        &&& self.time_series.wf()
        &&& forall|i: int|
            0 <= i < self.time_series.entries().len()
                ==> (#[trigger] self.time_series.entries()[i].1)@.len() <= SERIES_CAP
    }

    /// A fresh, empty store.
    pub fn new() -> (r: Self)
        ensures
            r.wf(),
            r.spec_events() == Seq::<Event>::empty(),
            forall|k: Seq<char>| r.spec_counter(k) == None::<u64>,
            forall|k: Seq<char>| r.spec_gauge(k) == None::<i64>,
            forall|k: Seq<char>| r.spec_series(k) == None::<Seq<TimeSeriesPoint>>,
    {
        MetricsCollector {
            events: Vec::new(),
            counters: StrMap::new(),
            gauges: StrMap::new(),
            time_series: StrMap::new(),
        }
    }

    /// The recorded event history, oldest first, read-only.
    pub fn history(&self) -> (r: &Vec<Event>)
        ensures
            r@ == self.spec_events(),
    {
        &self.events
    }

    /// Record an event: append it to the bounded history (evicting the oldest
    /// when full) and bump the counters keyed by its kind, its source and its
    /// severity.  Never fails.
    pub fn record_event(&mut self, event: &Event) -> (r: Result<(), ChameleonError>)
        requires
            old(self).wf(),
        ensures
            final(self).wf(),
            r is Ok,
            final(self).spec_events() == spec_push_evict(
                old(self).spec_events(),
                *event,
                HISTORY_CAP as int,
            ),
            final(self).spec_events().len() <= HISTORY_CAP,
            final(self).spec_counter(spec_kind_key(spec_kind_text(event.event_type)))
                == Some(spec_bump(old(self).spec_counter(spec_kind_key(spec_kind_text(event.event_type))))),
            final(self).spec_counter(spec_source_key(event.source@))
                == Some(spec_bump(old(self).spec_counter(spec_source_key(event.source@)))),
            final(self).spec_counter(spec_severity_key(spec_severity(event.event_type).spec_label()))
                == Some(spec_bump(old(self).spec_counter(spec_severity_key(spec_severity(event.event_type).spec_label())))),
            forall|k: Seq<char>|
                k != spec_kind_key(spec_kind_text(event.event_type)) && k != spec_source_key(
                    event.source@,
                ) && k != spec_severity_key(spec_severity(event.event_type).spec_label())
                    ==> final(self).spec_counter(k) == old(self).spec_counter(k),
            forall|k: Seq<char>| final(self).spec_gauge(k) == old(self).spec_gauge(k),
            forall|k: Seq<char>| final(self).spec_series(k) == old(self).spec_series(k),
    {
        if self.events.len() >= HISTORY_CAP {
            self.events.remove(0);
        }
        self.events.push(event.clone());
        proof {
            assert(self.events@ == spec_push_evict(
                old(self).spec_events(),
                *event,
                HISTORY_CAP as int,
            ));
        }

        let mut kind_key = "event_count_".to_owned();
        kind_key.append(event.event_type.text().as_str());
        self.bump_counter(kind_key);

        let mut source_key = "event_source_".to_owned();
        source_key.append(event.source.as_str());
        self.bump_counter(source_key);

        let mut severity_key = "severity_".to_owned();
        severity_key.append(event.severity().label());
        self.bump_counter(severity_key);

        proof {
            lemma_event_keys_distinct(
                spec_kind_text(event.event_type),
                event.source@,
                spec_severity(event.event_type).spec_label(),
            );
        }
        Ok(())
    }

    /// Bump one counter by key, saturating.
    fn bump_counter(&mut self, key: String)
        requires
            old(self).wf(),
        ensures
            final(self).wf(),
            final(self).spec_counter(key@) == Some(spec_bump(old(self).spec_counter(key@))),
            forall|k: Seq<char>|
                k != key@ ==> final(self).spec_counter(k) == old(self).spec_counter(k),
            final(self).spec_events() == old(self).spec_events(),
            forall|k: Seq<char>| final(self).spec_gauge(k) == old(self).spec_gauge(k),
            forall|k: Seq<char>| final(self).spec_series(k) == old(self).spec_series(k),
    {
        let next: u64 = match self.counters.get(key.as_str()) {
            Some(v) => if *v == u64::MAX {
                u64::MAX
            } else {
                *v + 1
            },
            None => 1,
        };
        self.counters.set(key, next);
    }

    /// Bump the counter under `key` by one, saturating; an untouched counter
    /// starts from zero.
    pub fn increment_counter(&mut self, key: &str)
        requires
            old(self).wf(),
        ensures
            final(self).wf(),
            final(self).spec_counter(key@) == Some(spec_bump(old(self).spec_counter(key@))),
            forall|k: Seq<char>|
                k != key@ ==> final(self).spec_counter(k) == old(self).spec_counter(k),
            final(self).spec_events() == old(self).spec_events(),
            forall|k: Seq<char>| final(self).spec_gauge(k) == old(self).spec_gauge(k),
            forall|k: Seq<char>| final(self).spec_series(k) == old(self).spec_series(k),
    {
        self.bump_counter(key.to_owned());
    }

    /// Set the counter under `key` to a value.
    pub fn set_counter(&mut self, key: &str, value: u64)
        requires
            old(self).wf(),
        ensures
            final(self).wf(),
            final(self).spec_counter(key@) == Some(value),
            forall|k: Seq<char>|
                k != key@ ==> final(self).spec_counter(k) == old(self).spec_counter(k),
            final(self).spec_events() == old(self).spec_events(),
            forall|k: Seq<char>| final(self).spec_gauge(k) == old(self).spec_gauge(k),
            forall|k: Seq<char>| final(self).spec_series(k) == old(self).spec_series(k),
    {
        self.counters.set(key.to_owned(), value);
    }

    /// The value of the counter under `key`; zero if it was never touched.
    pub fn get_counter(&self, key: &str) -> (r: u64)
        ensures
            r == match self.spec_counter(key@) {
                Some(v) => v,
                None => 0u64,
            },
    {
        match self.counters.get(key) {
            Some(v) => *v,
            None => 0,
        }
    }

    /// Set the gauge under `key` to a value, in thousandths.
    pub fn set_gauge(&mut self, key: &str, value: i64)
        requires
            old(self).wf(),
        ensures
            final(self).wf(),
            final(self).spec_gauge(key@) == Some(value),
            forall|k: Seq<char>| k != key@ ==> final(self).spec_gauge(k) == old(self).spec_gauge(k),
            final(self).spec_events() == old(self).spec_events(),
            forall|k: Seq<char>| final(self).spec_counter(k) == old(self).spec_counter(k),
            forall|k: Seq<char>| final(self).spec_series(k) == old(self).spec_series(k),
    {
        self.gauges.set(key.to_owned(), value);
    }

    /// The value of the gauge under `key`, in thousandths, if it was ever set.
    pub fn get_gauge(&self, key: &str) -> (r: Option<i64>)
        ensures
            r == self.spec_gauge(key@),
    {
        match self.gauges.get(key) {
            Some(v) => Some(*v),
            None => None,
        }
    }

    /// Append a point with the current time and the given value (in
    /// thousandths) to the series under `key`, evicting the series' oldest
    /// point when the cap was already reached.
    pub fn add_time_series_point(&mut self, key: &str, value: i64)
        requires
            old(self).wf(),
        ensures
            final(self).wf(),
            exists|ts: i64|
                final(self).spec_series(key@) == Some(spec_push_evict(
                    match old(self).spec_series(key@) {
                        Some(pts) => pts,
                        None => Seq::empty(),
                    },
                    TimeSeriesPoint { timestamp: ts, value },
                    SERIES_CAP as int,
                )),
            forall|k: Seq<char>|
                k != key@ ==> final(self).spec_series(k) == old(self).spec_series(k),
            final(self).spec_events() == old(self).spec_events(),
            forall|k: Seq<char>| final(self).spec_counter(k) == old(self).spec_counter(k),
            forall|k: Seq<char>| final(self).spec_gauge(k) == old(self).spec_gauge(k),
    {
        let point = TimeSeriesPoint { timestamp: clock::now_millis(), value };
        let mut pts: Vec<TimeSeriesPoint> = match self.time_series.get(key) {
            Some(existing) => existing.clone(),
            None => Vec::new(),
        };
        proof {
            let oldm = &old(self).time_series;
            if oldm.spec_get(key@) is Some {
                oldm.lemma_get_is_entry(key@);
                let j = choose|j: int|
                    0 <= j < oldm.entries().len() && oldm.entries()[j].0@ == key@
                        && oldm.entries()[j].1 == oldm.spec_get(key@)->Some_0;
                assert(oldm.entries()[j].1@.len() <= SERIES_CAP);
            }
        }
        if pts.len() >= SERIES_CAP {
            pts.remove(0);
        }
        pts.push(point);
        let ghost expected = spec_push_evict(
            match old(self).spec_series(key@) {
                Some(p) => p,
                None => Seq::empty(),
            },
            point,
            SERIES_CAP as int,
        );
        proof {
            assert(pts@ =~= expected);
        }
        let ghost cap_pts = pts@;
        self.time_series.set(key.to_owned(), pts);
        proof {
            assert forall|i: int| 0 <= i < self.time_series.entries().len()
                implies (#[trigger] self.time_series.entries()[i].1)@.len() <= SERIES_CAP by {
                let k2 = self.time_series.entries()[i].0@;
                self.time_series.lemma_entry_key_found(i);
                if k2 != key@ {
                    let oldm = &old(self).time_series;
                    oldm.lemma_get_is_entry(k2);
                    let j = choose|j: int|
                        0 <= j < oldm.entries().len() && oldm.entries()[j].0@ == k2
                            && oldm.entries()[j].1 == oldm.spec_get(k2)->Some_0;
                    assert(oldm.entries()[j].1@.len() <= SERIES_CAP);
                }
            }
        }
    }

    /// The metrics within a time range: deterministic given the same history.
    /// Counts cover the events whose timestamps lie in `[start, end]`;
    /// counters and gauges are point-in-time, not windowed; each series is
    /// filtered to the range, and series with nothing in range are left out.
    /// Never fails.
    pub fn get_metrics(&self, start: i64, end: i64) -> (r: Result<MetricsReport, ChameleonError>)
        requires
            self.wf(),
        ensures
            r matches Ok(report) ==> {
                let in_range = spec_events_in_range(self.spec_events(), start, end);
                &&& report.start == start
                &&& report.end == end
                &&& report.duration_seconds as int == spec_duration_seconds(start, end)
                &&& report.total_events == in_range.len()
                &&& forall|k: Seq<char>|
                    #![trigger report.by_type.spec_get(k)]
                    report.by_type.spec_get(k) == spec_entry_of(spec_kind_tally(in_range, k))
                &&& forall|k: Seq<char>|
                    #![trigger report.by_source.spec_get(k)]
                    report.by_source.spec_get(k) == spec_entry_of(spec_source_tally(in_range, k))
                &&& forall|k: Seq<char>|
                    #![trigger report.by_severity.spec_get(k)]
                    report.by_severity.spec_get(k) == spec_entry_of(
                        spec_severity_tally(in_range, k),
                    )
                &&& report.counters.entries() == self.spec_counter_entries()
                &&& report.gauges.entries() == self.spec_gauge_entries()
                &&& forall|k: Seq<char>|
                    #![trigger report.time_series.spec_get(k)]
                    spec_opt_points(report.time_series.spec_get(k)) == spec_series_query(
                        self.spec_series_entries(),
                        k,
                        start,
                        end,
                    )
            },
            r is Ok,
    {
        let in_range = self.events_in_range(start, end);
        proof {
            lemma_in_range_len(self.spec_events(), start, end);
        }
        let total_events = in_range.len();
        let by_type = Self::tally_kinds(&in_range);
        let by_source = Self::tally_sources(&in_range);
        let by_severity = Self::tally_severities(&in_range);
        let time_series = self.filtered_series(start, end);
        let duration_seconds: i64 = if end >= start {
            let d: u64 = match end.checked_sub(start) {
                Some(d) => d as u64,
                None => i64::MAX as u64,
            };
            (d / 1000) as i64
        } else {
            let m: u64 = match start.checked_sub(end) {
                Some(m) => m as u64,
                None => i64::MAX as u64,
            };
            -((m / 1000) as i64)
        };
        Ok(MetricsReport {
            start,
            end,
            duration_seconds,
            total_events,
            by_type,
            by_source,
            by_severity,
            counters: self.counters.duplicate(),
            gauges: self.gauges.duplicate(),
            time_series,
        })
    }

    /// The events whose timestamps lie in the range, as copies, oldest first.
    fn events_in_range(&self, start: i64, end: i64) -> (r: Vec<Event>)
        ensures
            r@ == spec_events_in_range(self.spec_events(), start, end),
    {
        let mut out: Vec<Event> = Vec::new();
        let n = self.events.len();
        for i in 0..n
            invariant
                n == self.events@.len(),
                out@ == spec_events_in_range(self.events@.take(i as int), start, end),
        {
            proof {
                assert(self.events@.take(i + 1).drop_last() =~= self.events@.take(i as int));
                assert(self.events@.take(i + 1).last() == self.events@[i as int]);
            }
            let e = &self.events[i];
            if start <= e.timestamp && e.timestamp <= end {
                out.push(e.clone());
            }
        }
        proof {
            assert(self.events@.take(n as int) =~= self.events@);
        }
        out
    }

    /// Tally the in-range events by textual kind.
    fn tally_kinds(events: &Vec<Event>) -> (r: StrMap<u64>)
        requires
            events@.len() <= HISTORY_CAP,
        ensures
            r.wf(),
            forall|k: Seq<char>|
                #![trigger r.spec_get(k)]
                r.spec_get(k) == spec_entry_of(spec_kind_tally(events@, k)),
    {
        let mut out: StrMap<u64> = StrMap::new();
        let n = events.len();
        for i in 0..n
            invariant
                n == events@.len(),
                n <= HISTORY_CAP,
                out.wf(),
                forall|k: Seq<char>|
                    #![trigger out.spec_get(k)]
                    out.spec_get(k) == spec_entry_of(spec_kind_tally(events@.take(i as int), k)),
        {
            proof {
                assert(events@.take(i + 1).drop_last() =~= events@.take(i as int));
                assert(events@.take(i + 1).last() == events@[i as int]);
                lemma_tally_bounds(events@.take(i as int), spec_kind_of(events@[i as int]));
            }
            let key = events[i].event_type.text();
            let next: u64 = match out.get(key.as_str()) {
                Some(v) => *v + 1,
                None => 1,
            };
            out.set(key, next);
        }
        proof {
            assert(events@.take(n as int) =~= events@);
        }
        out
    }

    /// Tally the in-range events by source.
    fn tally_sources(events: &Vec<Event>) -> (r: StrMap<u64>)
        requires
            events@.len() <= HISTORY_CAP,
        ensures
            r.wf(),
            forall|k: Seq<char>|
                #![trigger r.spec_get(k)]
                r.spec_get(k) == spec_entry_of(spec_source_tally(events@, k)),
    {
        let mut out: StrMap<u64> = StrMap::new();
        let n = events.len();
        for i in 0..n
            invariant
                n == events@.len(),
                n <= HISTORY_CAP,
                out.wf(),
                forall|k: Seq<char>|
                    #![trigger out.spec_get(k)]
                    out.spec_get(k) == spec_entry_of(spec_source_tally(events@.take(i as int), k)),
        {
            proof {
                assert(events@.take(i + 1).drop_last() =~= events@.take(i as int));
                assert(events@.take(i + 1).last() == events@[i as int]);
                lemma_tally_bounds(events@.take(i as int), spec_source_of(events@[i as int]));
            }
            let key = events[i].source.clone();
            let next: u64 = match out.get(key.as_str()) {
                Some(v) => *v + 1,
                None => 1,
            };
            out.set(key, next);
        }
        proof {
            assert(events@.take(n as int) =~= events@);
        }
        out
    }

    /// Tally the in-range events by severity label.
    fn tally_severities(events: &Vec<Event>) -> (r: StrMap<u64>)
        requires
            events@.len() <= HISTORY_CAP,
        ensures
            r.wf(),
            forall|k: Seq<char>|
                #![trigger r.spec_get(k)]
                r.spec_get(k) == spec_entry_of(spec_severity_tally(events@, k)),
    {
        let mut out: StrMap<u64> = StrMap::new();
        let n = events.len();
        for i in 0..n
            invariant
                n == events@.len(),
                n <= HISTORY_CAP,
                out.wf(),
                forall|k: Seq<char>|
                    #![trigger out.spec_get(k)]
                    out.spec_get(k) == spec_entry_of(spec_severity_tally(events@.take(i as int), k)),
        {
            proof {
                assert(events@.take(i + 1).drop_last() =~= events@.take(i as int));
                assert(events@.take(i + 1).last() == events@[i as int]);
                lemma_tally_bounds(events@.take(i as int), spec_severity_of(events@[i as int]));
            }
            let key = events[i].severity().label().to_owned();
            let next: u64 = match out.get(key.as_str()) {
                Some(v) => *v + 1,
                None => 1,
            };
            out.set(key, next);
        }
        proof {
            assert(events@.take(n as int) =~= events@);
        }
        out
    }

    /// Each series filtered to the range, leaving out those with nothing in
    /// range.
    fn filtered_series(&self, start: i64, end: i64) -> (r: StrMap<Vec<TimeSeriesPoint>>)
        requires
            self.wf(),
        ensures
            r.wf(),
            forall|k: Seq<char>|
                #![trigger r.spec_get(k)]
                spec_opt_points(r.spec_get(k)) == spec_series_query(
                    self.spec_series_entries(),
                    k,
                    start,
                    end,
                ),
    {
        let mut out: StrMap<Vec<TimeSeriesPoint>> = StrMap::new();
        let entries = self.time_series.pairs();
        let n = entries.len();
        for i in 0..n
            invariant
                n == entries@.len(),
                entries@ == self.spec_series_entries(),
                self.time_series.wf(),
                out.wf(),
                forall|k: Seq<char>|
                    #![trigger out.spec_get(k)]
                    spec_opt_points(out.spec_get(k)) == spec_series_query(
                        entries@.take(i as int),
                        k,
                        start,
                        end,
                    ),
        {
            proof {
                assert(entries@.take(i + 1).drop_last() =~= entries@.take(i as int));
                assert(entries@.take(i + 1).last() == entries@[i as int]);
            }
            let (key, pts) = &entries[i];
            let filtered = points_in_range(pts, start, end);
            if filtered.len() > 0 {
                out.set(key.clone(), filtered);
            } else {
                proof {
                    assert forall|j: int| 0 <= j < i
                        implies #[trigger] entries@.take(i as int)[j].0@ != key@ by {
                        self.time_series.lemma_distinct_keys(j, i as int);
                    }
                    lemma_series_query_absent(entries@.take(i as int), key@, start, end);
                }
            }
        }
        proof {
            assert(entries@.take(n as int) =~= entries@);
        }
        out
    }

    /// The rate of events per second over the window ending now, in
    /// thousandths of an event per second.  The caller supplies a positive
    /// window; the cutoff saturates at the bottom of the time scale.
    pub fn event_rate_at(&self, now: i64, window_seconds: i64) -> (r: u64)
        requires
            self.wf(),
            0 < window_seconds <= 9_000_000_000_000i64,
        ensures
            r as int == spec_count_since(
                self.spec_events(),
                spec_rate_cutoff(now, window_seconds),
            ) * 1000 / (window_seconds as int),
    {
        let cutoff: i64 = match now.checked_sub(window_seconds * 1000) {
            Some(c) => c,
            None => i64::MIN,
        };
        let mut count: u64 = 0;
        let n = self.events.len();
        for i in 0..n
            invariant
                n == self.events@.len(),
                n <= HISTORY_CAP,
                cutoff == spec_rate_cutoff(now, window_seconds),
                count == spec_count_since(self.events@.take(i as int), cutoff),
                count <= i,
        {
            proof {
                assert(self.events@.take(i + 1).drop_last() =~= self.events@.take(i as int));
                assert(self.events@.take(i + 1).last() == self.events@[i as int]);
                lemma_count_since_bound(self.events@.take(i as int), cutoff);
            }
            if self.events[i].timestamp >= cutoff {
                count = count + 1;
            }
        }
        proof {
            assert(self.events@.take(n as int) =~= self.events@);
            lemma_count_since_bound(self.events@, cutoff);
        }
        (count * 1000) / (window_seconds as u64)
    }

    /// The rate of events per second over the window ending at the current
    /// time, in thousandths of an event per second; see
    /// [`MetricsCollector::event_rate_at`].
    pub fn calculate_event_rate(&self, window_seconds: i64) -> (r: Result<u64, ChameleonError>)
        requires
            self.wf(),
            0 < window_seconds <= 9_000_000_000_000i64,
        ensures
            r matches Ok(rate) ==> exists|now: i64|
                rate as int == spec_count_since(
                    self.spec_events(),
                    #[trigger] spec_rate_cutoff(now, window_seconds),
                ) * 1000 / (window_seconds as int),
            r is Ok,
    {
        let now = clock::now_millis();
        Ok(self.event_rate_at(now, window_seconds))
    }
}

/// The cutoff of a rate window: the window's length before `now`, saturating
/// at the bottom of the time scale.
pub open spec fn spec_rate_cutoff(now: i64, window_seconds: i64) -> i64 {
    if now - window_seconds * 1000 < i64::MIN {
        i64::MIN
    } else {
        (now - window_seconds * 1000) as i64
    }
}

/// The points of one series whose timestamps lie in the range, oldest first.
fn points_in_range(pts: &Vec<TimeSeriesPoint>, start: i64, end: i64) -> (r: Vec<TimeSeriesPoint>)
    ensures
        r@ == spec_points_in_range(pts@, start, end),
{
    let mut out: Vec<TimeSeriesPoint> = Vec::new();
    let n = pts.len();
    for i in 0..n
        invariant
            n == pts@.len(),
            out@ == spec_points_in_range(pts@.take(i as int), start, end),
    {
        proof {
            assert(pts@.take(i + 1).drop_last() =~= pts@.take(i as int));
            assert(pts@.take(i + 1).last() == pts@[i as int]);
        }
        let p = pts[i];
        if start <= p.timestamp && p.timestamp <= end {
            out.push(p);
        }
    }
    proof {
        assert(pts@.take(n as int) =~= pts@);
    }
    out
}

/// A named counter: an unsigned count that only moves up, saturating at the
/// top of its range.
#[derive(Debug)]
pub struct MetricsCounter {
    /// The counter's name.
    pub name: String,
    value: u64,
}

impl MetricsCounter {
    pub closed spec fn spec_value(&self) -> u64 {
        self.value
    }

    pub closed spec fn spec_name(&self) -> Seq<char> {
        self.name@
    }

    /// A fresh counter at zero.
    pub fn new(name: &str) -> (r: Self)
        ensures
            r.spec_name() == name@,
            r.spec_value() == 0,
    {
        MetricsCounter { name: name.to_owned(), value: 0 }
    }

    /// The current count.
    pub fn value(&self) -> (r: u64)
        ensures
            r == self.spec_value(),
    {
        self.value
    }

    /// Count one more, saturating.
    pub fn increment(&mut self)
        ensures
            final(self).spec_value() == if old(self).spec_value() == u64::MAX {
                u64::MAX as int
            } else {
                old(self).spec_value() + 1
            },
            final(self).spec_name() == old(self).spec_name(),
    {
        if self.value < u64::MAX {
            self.value = self.value + 1;
        }
    }

    /// Count `amount` more, saturating.
    pub fn increment_by(&mut self, amount: u64)
        ensures
            final(self).spec_value() == if old(self).spec_value() + amount > u64::MAX {
                u64::MAX as int
            } else {
                old(self).spec_value() + amount
            },
            final(self).spec_name() == old(self).spec_name(),
    {
        self.value = self.value.saturating_add(amount);
    }
}

/// A named gauge: a signed measurement in thousandths, freely settable.
#[derive(Debug)]
pub struct MetricsGauge {
    /// The gauge's name.
    pub name: String,
    value: i64,
}

impl MetricsGauge {
    pub closed spec fn spec_value(&self) -> i64 {
        self.value
    }

    pub closed spec fn spec_name(&self) -> Seq<char> {
        self.name@
    }

    /// A fresh gauge at zero.
    pub fn new(name: &str) -> (r: Self)
        ensures
            r.spec_name() == name@,
            r.spec_value() == 0,
    {
        MetricsGauge { name: name.to_owned(), value: 0 }
    }

    /// The current value, in thousandths.
    pub fn value_milli(&self) -> (r: i64)
        ensures
            r == self.spec_value(),
    {
        self.value
    }

    /// Set the value, in thousandths.
    pub fn set_milli(&mut self, value: i64)
        ensures
            final(self).spec_value() == value,
            final(self).spec_name() == old(self).spec_name(),
    {
        self.value = value;
    }
}

/// A registry of named counters and gauges.
pub struct MetricsRegistry {
    counters: StrMap<u64>,
    gauges: StrMap<i64>,
}

impl MetricsRegistry {
    /// The value of a registered counter.
    pub closed spec fn spec_counter(&self, k: Seq<char>) -> Option<u64> {
        self.counters.spec_get(k)
    }

    /// The value of a registered gauge, in thousandths.
    pub closed spec fn spec_gauge(&self, k: Seq<char>) -> Option<i64> {
        self.gauges.spec_get(k)
    }

    pub closed spec fn spec_counters_len(&self) -> nat {
        self.counters.entries().len()
    }

    pub closed spec fn spec_gauges_len(&self) -> nat {
        self.gauges.entries().len()
    }

    pub closed spec fn wf(&self) -> bool {
        self.counters.wf() && self.gauges.wf()
    }

    /// An empty registry.
    pub fn new() -> (r: Self)
        ensures
            r.wf(),
            r.spec_counters_len() == 0,
            r.spec_gauges_len() == 0,
            forall|k: Seq<char>| r.spec_counter(k) == None::<u64>,
            forall|k: Seq<char>| r.spec_gauge(k) == None::<i64>,
    {
        MetricsRegistry { counters: StrMap::new(), gauges: StrMap::new() }
    }

    pub fn counters_is_empty(&self) -> (r: bool)
        ensures
            r == (self.spec_counters_len() == 0),
    {
        self.counters.is_empty()
    }

    pub fn gauges_is_empty(&self) -> (r: bool)
        ensures
            r == (self.spec_gauges_len() == 0),
    {
        self.gauges.is_empty()
    }

    /// Register a counter at zero under a name, resetting any held before.
    pub fn register_counter(&mut self, name: &str)
        requires
            old(self).wf(),
        ensures
            final(self).wf(),
            final(self).spec_counter(name@) == Some(0u64),
            forall|k: Seq<char>|
                k != name@ ==> final(self).spec_counter(k) == old(self).spec_counter(k),
            forall|k: Seq<char>| final(self).spec_gauge(k) == old(self).spec_gauge(k),
    {
        self.counters.set(name.to_owned(), 0);
    }

    /// Register a gauge at zero under a name, resetting any held before.
    pub fn register_gauge(&mut self, name: &str)
        requires
            old(self).wf(),
        ensures
            final(self).wf(),
            final(self).spec_gauge(name@) == Some(0i64),
            forall|k: Seq<char>|
                k != name@ ==> final(self).spec_gauge(k) == old(self).spec_gauge(k),
            forall|k: Seq<char>| final(self).spec_counter(k) == old(self).spec_counter(k),
    {
        self.gauges.set(name.to_owned(), 0);
    }

    /// Whether a counter is registered under a name.
    pub fn has_counter(&self, name: &str) -> (r: bool)
        ensures
            r == (self.spec_counter(name@) is Some),
    {
        self.counters.has_key(name)
    }

    /// Whether a gauge is registered under a name.
    pub fn has_gauge(&self, name: &str) -> (r: bool)
        ensures
            r == (self.spec_gauge(name@) is Some),
    {
        self.gauges.has_key(name)
    }

    /// Bump a registered counter by one, saturating; an unregistered name is
    /// left alone.
    pub fn increment_counter(&mut self, name: &str)
        requires
            old(self).wf(),
        ensures
            final(self).wf(),
            final(self).spec_counter(name@) == match old(self).spec_counter(name@) {
                Some(v) => Some(spec_bump(Some(v))),
                None => None,
            },
            forall|k: Seq<char>|
                k != name@ ==> final(self).spec_counter(k) == old(self).spec_counter(k),
            forall|k: Seq<char>| final(self).spec_gauge(k) == old(self).spec_gauge(k),
    {
        let next: Option<u64> = match self.counters.get(name) {
            Some(v) => if *v == u64::MAX {
                Some(u64::MAX)
            } else {
                Some(*v + 1)
            },
            None => None,
        };
        if let Some(v) = next {
            self.counters.set(name.to_owned(), v);
        }
    }

    /// Set a registered gauge, in thousandths; an unregistered name is left
    /// alone.
    pub fn set_gauge(&mut self, name: &str, value: i64)
        requires
            old(self).wf(),
        ensures
            final(self).wf(),
            final(self).spec_gauge(name@) == match old(self).spec_gauge(name@) {
                Some(_) => Some(value),
                None => None,
            },
            forall|k: Seq<char>|
                k != name@ ==> final(self).spec_gauge(k) == old(self).spec_gauge(k),
            forall|k: Seq<char>| final(self).spec_counter(k) == old(self).spec_counter(k),
    {
        if self.gauges.has_key(name) {
            self.gauges.set(name.to_owned(), value);
        }
    }

    /// The value of a registered counter.
    pub fn counter_value(&self, name: &str) -> (r: Option<u64>)
        ensures
            r == self.spec_counter(name@),
    {
        match self.counters.get(name) {
            Some(v) => Some(*v),
            None => None,
        }
    }

    /// The value of a registered gauge, in thousandths.
    pub fn gauge_value(&self, name: &str) -> (r: Option<i64>)
        ensures
            r == self.spec_gauge(name@),
    {
        match self.gauges.get(name) {
            Some(v) => Some(*v),
            None => None,
        }
    }
}

} // verus!
