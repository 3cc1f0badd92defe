//! Report statistics: severity counts, per-type threat statistics, the
//! weighted score and the recommendations derived from a set of detections.
//! Rendering the report through a template and writing it to disk is the host
//! application's business.

use vstd::prelude::*;

use crate::formats::DetectionResult;
use crate::kv::StrMap;
use crate::strutil::{contains_sub, spec_contains};

verus! {

/// Errors of the reports subsystem.
#[derive(Debug, PartialEq, Eq)]
pub enum ReportsError {
    /// A template failed to load.
    Template(String),
    /// Rendering failed.
    Render(String),
    /// An input/output failure, carried as text.
    Io(String),
    /// The detection data was invalid.
    InvalidData(String),
}

/// Most detections one report summarizes; keeps every weighted sum within
/// its integer range.
pub const REPORT_CAP: usize = 1000000;

/// The severity tier of a score: 2 for 8 and above, 1 for 5 through 7, 0
/// below.
pub open spec fn spec_severity_tier(sev: u8) -> int {
    if 8 <= sev <= 10 {
        2
    } else if 5 <= sev <= 7 {
        1
    } else {
        0
    }
}

/// How many detections fall in each tier: high, medium and low counts.
pub open spec fn spec_severity_counts(s: Seq<DetectionResult>) -> (int, int, int)
    decreases s.len(),
{
    if s.len() == 0 {
        (0, 0, 0)
    } else {
        let (h, m, l) = spec_severity_counts(s.drop_last());
        if spec_severity_tier(s.last().severity) == 2 {
            (h + 1, m, l)
        } else if spec_severity_tier(s.last().severity) == 1 {
            (h, m + 1, l)
        } else {
            (h, m, l + 1)
        }
    }
}

proof fn lemma_severity_counts_bound(s: Seq<DetectionResult>)
    ensures
        ({
            let (h, m, l) = spec_severity_counts(s);
            0 <= h && 0 <= m && 0 <= l && h + m + l == s.len()
        }),
    decreases s.len(),
{
    if s.len() > 0 {
        lemma_severity_counts_bound(s.drop_last());
    }
}

/// A nonnegative quotient rounded to the nearest integer, halves up.
pub open spec fn spec_round_div(num: int, den: int) -> int {
    (2 * num + den) / (2 * den)
}

/// The report score: 100 less the rounded severity-weighted average (high
/// 10, medium 5, low 2); an empty report scores 100.
pub open spec fn spec_report_score(s: Seq<DetectionResult>) -> int {
    let (h, m, l) = spec_severity_counts(s);
    if s.len() == 0 {
        100
    } else {
        100 - spec_round_div(h * 10 + m * 5 + l * 2, s.len() as int)
    }
}

/// Whether any detection's type contains the given text.
pub open spec fn spec_any_type_contains(s: Seq<DetectionResult>, needle: Seq<char>) -> bool {
    exists|i: int|
        0 <= i < s.len() && spec_contains((#[trigger] s[i]).detection_type@, needle)
}

/// How many detections carry the given type.
pub open spec fn spec_type_count(s: Seq<DetectionResult>, t: Seq<char>) -> int
    decreases s.len(),
{
    if s.len() == 0 {
        0
    } else {
        spec_type_count(s.drop_last(), t) + if s.last().detection_type@ == t {
            1int
        } else {
            0int
        }
    }
}

/// The summed severity of the detections carrying the given type.
pub open spec fn spec_type_severity(s: Seq<DetectionResult>, t: Seq<char>) -> int
    decreases s.len(),
{
    if s.len() == 0 {
        0
    } else {
        spec_type_severity(s.drop_last(), t) + if s.last().detection_type@ == t {
            s.last().severity as int
        } else {
            0int
        }
    }
}

proof fn lemma_type_tally_bounds(s: Seq<DetectionResult>, t: Seq<char>)
    ensures
        0 <= spec_type_count(s, t) <= s.len(),
        0 <= spec_type_severity(s, t) <= 255 * spec_type_count(s, t),
        spec_type_severity(s, t) <= 255 * s.len(),
    decreases s.len(),
{
    if s.len() > 0 {
        lemma_type_tally_bounds(s.drop_last(), t);
    }
}

/// A detection's own type always counts itself.
proof fn lemma_own_type_counted(s: Seq<DetectionResult>, i: int)
    requires
        0 <= i < s.len(),
    ensures
        spec_type_count(s, s[i].detection_type@) >= 1,
    decreases s.len(),
{
    lemma_type_tally_bounds(s.drop_last(), s[i].detection_type@);
    if i < s.len() - 1 {
        assert(s.drop_last()[i] == s[i]);
        lemma_own_type_counted(s.drop_last(), i);
    }
}

/// Every detection's type has an entry in the statistics.
pub open spec fn spec_all_types_present(s: Seq<DetectionResult>, stats: Seq<ThreatStat>) -> bool {
    forall|i: int|
        0 <= i < s.len() ==> exists|j: int|
            0 <= j < stats.len() && (#[trigger] stats[j]).threat_type@
                == (#[trigger] s[i]).detection_type@
}

/// The statistics of one threat type.
#[derive(Debug, PartialEq, Eq)]
pub struct ThreatStat {
    /// The detection type.
    pub threat_type: String,
    /// How many detections carried it.
    pub count: u64,
    /// Their summed severity.
    pub total_severity: u64,
    /// Their rounded average severity.
    pub avg_severity: u8,
}

/// The computed statistics of a report.
#[derive(Debug)]
pub struct ReportSummary {
    /// Detections with severity 8 through 10.
    pub high_count: u64,
    /// Detections with severity 5 through 7.
    pub medium_count: u64,
    /// Detections with lower severity.
    pub low_count: u64,
    /// All detections.
    pub total_count: u64,
    /// The weighted score, out of 100; lower is worse.
    pub score: u8,
    /// Per-type statistics, one entry per distinct type.
    pub threat_stats: Vec<ThreatStat>,
    /// The recommended actions, in order.
    pub recommendations: Vec<String>,
}

/// The recommendation texts a report derives: forensics and isolation
/// against high-severity findings, backup checks against ransomware
/// indications, awareness training against phishing indications, and the two
/// general recommendations always.
pub open spec fn spec_recommendations(s: Seq<DetectionResult>) -> Seq<Seq<char>> {
    let (h, m, l) = spec_severity_counts(s);
    (if h > 0 {
        seq![
            "Effectuer une analyse forensique approfondie du syst\u{e8}me pour identifier les compromissions potentielles."@,
            "Isoler imm\u{e9}diatement les syst\u{e8}mes affect\u{e9}s du r\u{e9}seau."@,
        ]
    } else {
        Seq::empty()
    }) + (if spec_any_type_contains(s, "ransomware"@) {
        seq![
            "V\u{e9}rifier l'int\u{e9}grit\u{e9} des sauvegardes et pr\u{e9}parer un plan de restauration."@,
            "Rechercher des indicateurs de compromission li\u{e9}s aux ransomwares sur tous les syst\u{e8}mes connect\u{e9}s."@,
        ]
    } else {
        Seq::empty()
    }) + (if spec_any_type_contains(s, "phishing"@) {
        seq![
            "Organiser une formation de sensibilisation \u{e0} la s\u{e9}curit\u{e9} pour tous les utilisateurs."@,
            "Renforcer les filtres anti-phishing sur les passerelles de messagerie."@,
        ]
    } else {
        Seq::empty()
    }) + seq![
        "Mettre \u{e0} jour tous les syst\u{e8}mes avec les derniers correctifs de s\u{e9}curit\u{e9}."@,
        "Renforcer les politiques de mot de passe et activer l'authentification \u{e0} deux facteurs."@,
    ]
}

/// Whether any detection's type contains the needle, executable form.
fn any_type_contains(detections: &Vec<DetectionResult>, needle: &str) -> (r: bool)
    ensures
        r == spec_any_type_contains(detections@, needle@),
{
    let n = detections.len();
    for i in 0..n
        invariant
            n == detections@.len(),
            forall|j: int|
                0 <= j < i ==> !spec_contains(
                    (#[trigger] detections@[j]).detection_type@,
                    needle@,
                ),
    {
        if contains_sub(detections[i].detection_type.as_str(), needle) {
            return true;
        }
    }
    false
}

/// Compute a report's statistics; see the field and spec documentation for
/// what each part is.
pub fn summarize(detections: &Vec<DetectionResult>) -> (r: ReportSummary)
    requires
        detections@.len() <= REPORT_CAP,
    ensures
        ({
            let (h, m, l) = spec_severity_counts(detections@);
            &&& r.high_count == h
            &&& r.medium_count == m
            &&& r.low_count == l
            &&& r.total_count == detections@.len()
            &&& r.score as int == spec_report_score(detections@)
            &&& r.recommendations@.map_values(|s: String| s@) == spec_recommendations(detections@)
            &&& forall|j: int|
                0 <= j < r.threat_stats@.len() ==> {
                    let st = #[trigger] r.threat_stats@[j];
                    &&& st.count as int == spec_type_count(detections@, st.threat_type@)
                    &&& st.total_severity as int == spec_type_severity(
                        detections@,
                        st.threat_type@,
                    )
                    &&& st.count > 0
                    &&& st.avg_severity as int == spec_round_div(
                        st.total_severity as int,
                        st.count as int,
                    )
                }
            &&& forall|a: int, b: int|
                0 <= a < b < r.threat_stats@.len() ==> r.threat_stats@[a].threat_type@
                    != r.threat_stats@[b].threat_type@
            &&& spec_all_types_present(detections@, r.threat_stats@)
        }),
{
    let n = detections.len();
    let mut high_count: u64 = 0;
    let mut medium_count: u64 = 0;
    let mut low_count: u64 = 0;
    let mut tallies: StrMap<(u64, u64)> = StrMap::new();
    for i in 0..n
        invariant
            n == detections@.len(),
            n <= REPORT_CAP,
            ({
                let (h, m, l) = spec_severity_counts(detections@.take(i as int));
                high_count == h && medium_count == m && low_count == l
            }),
            tallies.wf(),
            forall|k: Seq<char>|
                #![trigger tallies.spec_get(k)]
                tallies.spec_get(k) == (if spec_type_count(detections@.take(i as int), k) > 0 {
                    Some(
                        (
                            spec_type_count(detections@.take(i as int), k) as u64,
                            spec_type_severity(detections@.take(i as int), k) as u64,
                        ),
                    )
                } else {
                    None::<(u64, u64)>
                }),
    {
        proof {
            assert(detections@.take(i + 1).drop_last() =~= detections@.take(i as int));
            assert(detections@.take(i + 1).last() == detections@[i as int]);
            lemma_severity_counts_bound(detections@.take(i as int));
            lemma_type_tally_bounds(
                detections@.take(i as int),
                detections@[i as int].detection_type@,
            );
        }
        let d = &detections[i];
        if 8 <= d.severity && d.severity <= 10 {
            high_count = high_count + 1;
        } else if 5 <= d.severity && d.severity <= 7 {
            medium_count = medium_count + 1;
        } else {
            low_count = low_count + 1;
        }
        let (count, total) = match tallies.get(d.detection_type.as_str()) {
            Some((c, t)) => (*c + 1, *t + (d.severity as u64)),
            None => (1u64, d.severity as u64),
        };
        tallies.set(d.detection_type.clone(), (count, total));
    }
    proof {
        assert(detections@.take(n as int) =~= detections@);
        lemma_severity_counts_bound(detections@);
    }

    let total_count: u64 = n as u64;
    let score: u8 = if n == 0 {
        100
    } else {
        let weighted: u64 = high_count * 10 + medium_count * 5 + low_count * 2;
        proof {
            assert(weighted <= 10 * total_count);
            assert((2 * weighted + total_count) / (2 * total_count) <= 10) by (nonlinear_arith)
                requires
                    weighted <= 10 * total_count,
                    1 <= total_count <= REPORT_CAP,
            ;
        }
        let penalty: u64 = (2 * weighted + total_count) / (2 * total_count);
        (100 - penalty) as u8
    };

    let mut threat_stats: Vec<ThreatStat> = Vec::new();
    let pairs = tallies.pairs();
    let m = pairs.len();
    for j in 0..m
        invariant
            m == pairs@.len(),
            pairs@ == tallies.entries(),
            tallies.wf(),
            n == detections@.len(),
            n <= REPORT_CAP,
            forall|k: Seq<char>|
                #![trigger tallies.spec_get(k)]
                tallies.spec_get(k) == (if spec_type_count(detections@, k) > 0 {
                    Some(
                        (
                            spec_type_count(detections@, k) as u64,
                            spec_type_severity(detections@, k) as u64,
                        ),
                    )
                } else {
                    None::<(u64, u64)>
                }),
            threat_stats@.len() == j,
            forall|a: int|
                0 <= a < j ==> (#[trigger] threat_stats@[a]).threat_type@ == pairs@[a].0@
                    && threat_stats@[a].count == pairs@[a].1.0 && threat_stats@[a].total_severity
                    == pairs@[a].1.1 && threat_stats@[a].count > 0 && threat_stats@[a].avg_severity
                    as int == spec_round_div(
                    threat_stats@[a].total_severity as int,
                    threat_stats@[a].count as int,
                ),
    {
        proof {
            tallies.lemma_entry_key_found(j as int);
            lemma_type_tally_bounds(detections@, pairs@[j as int].0@);
        }
        let (name, tally) = &pairs[j];
        let (count, total) = *tally;
        proof {
            assert((2 * total + count) / (2 * count) <= 255) by (nonlinear_arith)
                requires
                    1 <= count,
                    total <= 255 * count,
            ;
        }
        let avg: u64 = (2 * total + count) / (2 * count);
        threat_stats.push(
            ThreatStat {
                threat_type: name.clone(),
                count,
                total_severity: total,
                avg_severity: avg as u8,
            },
        );
    }
    proof {
        assert forall|a: int| 0 <= a < threat_stats@.len()
            implies {
                let st = #[trigger] threat_stats@[a];
                &&& st.count as int == spec_type_count(detections@, st.threat_type@)
                &&& st.total_severity as int == spec_type_severity(detections@, st.threat_type@)
            } by {
            tallies.lemma_entry_key_found(a);
            lemma_type_tally_bounds(detections@, threat_stats@[a].threat_type@);
        }
        assert forall|a: int, b: int| 0 <= a < b < threat_stats@.len()
            implies threat_stats@[a].threat_type@ != threat_stats@[b].threat_type@ by {
            tallies.lemma_distinct_keys(a, b);
        }
        assert forall|i: int| 0 <= i < detections@.len() implies exists|j: int|
            0 <= j < threat_stats@.len() && (#[trigger] threat_stats@[j]).threat_type@
                == (#[trigger] detections@[i]).detection_type@ by {
            lemma_own_type_counted(detections@, i);
            let t = detections@[i].detection_type@;
            assert(tallies.spec_get(t) is Some);
            tallies.lemma_get_is_entry(t);
            let w = choose|w: int|
                0 <= w < tallies.entries().len() && tallies.entries()[w].0@ == t
                    && tallies.entries()[w].1 == tallies.spec_get(t)->Some_0;
            assert(threat_stats@[w].threat_type@ == t);
        }
    }

    let mut recommendations: Vec<String> = Vec::new();
    if high_count > 0 {
        recommendations.push(
            "Effectuer une analyse forensique approfondie du syst\u{e8}me pour identifier les compromissions potentielles.".to_owned(),
        );
        recommendations.push(
            "Isoler imm\u{e9}diatement les syst\u{e8}mes affect\u{e9}s du r\u{e9}seau.".to_owned(),
        );
    }
    if any_type_contains(detections, "ransomware") {
        recommendations.push(
            "V\u{e9}rifier l'int\u{e9}grit\u{e9} des sauvegardes et pr\u{e9}parer un plan de restauration.".to_owned(),
        );
        recommendations.push(
            "Rechercher des indicateurs de compromission li\u{e9}s aux ransomwares sur tous les syst\u{e8}mes connect\u{e9}s.".to_owned(),
        );
    }
    if any_type_contains(detections, "phishing") {
        recommendations.push(
            "Organiser une formation de sensibilisation \u{e0} la s\u{e9}curit\u{e9} pour tous les utilisateurs.".to_owned(),
        );
        recommendations.push(
            "Renforcer les filtres anti-phishing sur les passerelles de messagerie.".to_owned(),
        );
    }
    recommendations.push(
        "Mettre \u{e0} jour tous les syst\u{e8}mes avec les derniers correctifs de s\u{e9}curit\u{e9}.".to_owned(),
    );
    recommendations.push(
        "Renforcer les politiques de mot de passe et activer l'authentification \u{e0} deux facteurs.".to_owned(),
    );
    proof {
        assert(recommendations@.map_values(|s: String| s@) =~= spec_recommendations(detections@));
    }

    ReportSummary {
        high_count,
        medium_count,
        low_count,
        total_count,
        score,
        threat_stats,
        recommendations,
    }
}

} // verus!
