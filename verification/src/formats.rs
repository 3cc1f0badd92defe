//! File-format detection and the pattern analyzers over tabular and line
//! data.  Reading files is the host application's business: the analyzers
//! here take the parsed rows or lines as plain values and return detections
//! with exact locations.

use vstd::prelude::*;

use crate::clock;
use crate::rx;
use crate::strutil::{self, ci_eq, spec_decimal};

verus! {

/// Errors of the formats subsystem.
#[derive(Debug, PartialEq, Eq)]
pub enum FormatsError {
    /// A file was not found.
    FileNotFound(String),
    /// A file's format is not supported.
    InvalidFormat(String),
    /// A file failed to parse.
    ParseError(String),
    /// An input/output failure, carried as text.
    Io(String),
    /// A CSV failure, carried as text.
    Csv(String),
}

/// Kinds of file formats supported.
#[derive(Debug, Clone, Copy, PartialEq, Eq, Structural)]
pub enum FileFormat {
    /// Comma-separated values.
    Csv,
    /// Log or plain text.
    Log,
    /// Virtual disk images.
    Vmdk,
    /// Anything else.
    Unknown,
}

/// The format an extension denotes, compared without regard to ASCII case.
pub open spec fn spec_format_from_extension(ext: Seq<char>) -> FileFormat {
    if ci_eq(ext, "csv"@) {
        FileFormat::Csv
    } else if ci_eq(ext, "log"@) || ci_eq(ext, "txt"@) {
        FileFormat::Log
    } else if ci_eq(ext, "vmdk"@) {
        FileFormat::Vmdk
    } else {
        FileFormat::Unknown
    }
}

/// Position of the last occurrence of `c` in `s`, or nothing.
pub open spec fn spec_last_pos(s: Seq<char>, c: char) -> Option<int>
    decreases s.len(),
{
    if s.len() == 0 {
        None
    } else if s.last() == c {
        Some(s.len() - 1)
    } else {
        spec_last_pos(s.drop_last(), c)
    }
}

/// The extension of a path: the part of the final `/`-separated component
/// after its last dot, unless the dot starts the component (a hidden file)
/// or there is none.
pub open spec fn spec_path_extension(path: Seq<char>) -> Option<Seq<char>> {
    let name_start = match spec_last_pos(path, '/') {
        Some(i) => i + 1,
        None => 0int,
    };
    let file_name = path.subrange(name_start, path.len() as int);
    match spec_last_pos(file_name, '.') {
        Some(d) => if d == 0 {
            None
        } else {
            Some(file_name.subrange(d + 1, file_name.len() as int))
        },
        None => None,
    }
}

/// The format a path denotes, by its extension.
pub open spec fn spec_format_from_path(path: Seq<char>) -> FileFormat {
    match spec_path_extension(path) {
        Some(ext) => spec_format_from_extension(ext),
        None => FileFormat::Unknown,
    }
}

/// Position of the last occurrence of `c` in `s`, or nothing.
fn last_char_pos(s: &str, c: char) -> (r: Option<usize>)
    ensures
        match r {
            Some(i) => spec_last_pos(s@, c) == Some(i as int) && i < s@.len(),
            None => spec_last_pos(s@, c) == None::<int>,
        },
{
    let n = s.unicode_len();
    let mut best: Option<usize> = None;
    for i in 0..n
        invariant
            n == s@.len(),
            match best {
                Some(b) => spec_last_pos(s@.take(i as int), c) == Some(b as int) && b < i,
                None => spec_last_pos(s@.take(i as int), c) == None::<int>,
            },
    {
        proof {
            assert(s@.take(i + 1).drop_last() =~= s@.take(i as int));
            assert(s@.take(i + 1).last() == s@[i as int]);
        }
        if s.get_char(i) == c {
            best = Some(i);
        }
    }
    proof {
        assert(s@.take(n as int) =~= s@);
    }
    best
}

impl FileFormat {
    /// Detect the format from a file extension, without regard to ASCII
    /// case.
    pub fn from_extension(extension: &str) -> (r: Self)
        ensures
            r == spec_format_from_extension(extension@),
    {
        if strutil::str_eq_ci(extension, "csv") {
            FileFormat::Csv
        } else if strutil::str_eq_ci(extension, "log") || strutil::str_eq_ci(extension, "txt") {
            FileFormat::Log
        } else if strutil::str_eq_ci(extension, "vmdk") {
            FileFormat::Vmdk
        } else {
            FileFormat::Unknown
        }
    }

    /// Detect the format from a file path, by its extension.
    pub fn from_path(path: &str) -> (r: Self)
        ensures
            r == spec_format_from_path(path@),
    {
        let n = path.unicode_len();
        let name_start: usize = match last_char_pos(path, '/') {
            Some(i) => i + 1,
            None => 0,
        };
        let file_name = path.substring_char(name_start, n);
        let m = file_name.unicode_len();
        match last_char_pos(file_name, '.') {
            Some(d) => if d == 0 {
                FileFormat::Unknown
            } else {
                FileFormat::from_extension(file_name.substring_char(d + 1, m))
            },
            None => FileFormat::Unknown,
        }
    }
}

/// One detection from analyzing a file's contents.
#[derive(Debug)]
pub struct DetectionResult {
    /// Kind of detection.
    pub detection_type: String,
    /// Severity score on the 0 to 10 scale.
    pub severity: u8,
    /// Where in the file the detection was made.
    pub location: String,
    /// Details about the detection, as key-value pairs.
    pub details: Vec<(String, String)>,
    /// When the detection was made, in milliseconds since the Unix epoch.
    pub timestamp: i64,
}

/// What a detection carries, at the level of its text contents.
pub struct DetectionView {
    /// Kind of detection.
    pub detection_type: Seq<char>,
    /// Severity score.
    pub severity: u8,
    /// Location text.
    pub location: Seq<char>,
    /// Detail pairs.
    pub details: Seq<(Seq<char>, Seq<char>)>,
}

impl DetectionResult {
    /// The text contents of a detection.
    pub open spec fn view_of(&self) -> DetectionView {
        DetectionView {
            detection_type: self.detection_type@,
            severity: self.severity,
            location: self.location@,
            details: self.details@.map_values(|p: (String, String)| (p.0@, p.1@)),
        }
    }
}

/// The view of a pattern entry: the compiled pattern's text, the detection
/// type it reports and the severity it assigns.
pub open spec fn spec_pattern_view(p: (regex::Regex, String, u8)) -> (Seq<char>, Seq<char>, u8) {
    (rx::regex_pattern_of(p.0), p.1@, p.2)
}

/// The location text of a cell: `row:<r>,col:<c>`, one-based.
pub open spec fn spec_cell_location(row: int, col: int) -> Seq<char> {
    "row:"@ + spec_decimal(row + 1) + ",col:"@ + spec_decimal(col + 1)
}

/// The location text of a line: `line:<n>`, one-based.
pub open spec fn spec_line_location(line: int) -> Seq<char> {
    "line:"@ + spec_decimal(line + 1)
}

/// The detections of the patterns in `pats` against one cell, in pattern
/// order.
pub open spec fn spec_cell_hits(
    pats: Seq<(Seq<char>, Seq<char>, u8)>,
    field: Seq<char>,
    row: int,
    col: int,
) -> Seq<DetectionView>
    decreases pats.len(),
{
    if pats.len() == 0 {
        Seq::empty()
    } else {
        let rest = spec_cell_hits(pats.drop_last(), field, row, col);
        let (pat, dt, sev) = pats.last();
        if rx::regex_match_of(pat, field) {
            rest.push(
                DetectionView {
                    detection_type: dt,
                    severity: sev,
                    location: spec_cell_location(row, col),
                    details: seq![("matched_text"@, field), ("column"@, spec_decimal(col))],
                },
            )
        } else {
            rest
        }
    }
}

/// The detections against the cells of one row, cells in order.
pub open spec fn spec_row_hits(
    pats: Seq<(Seq<char>, Seq<char>, u8)>,
    fields: Seq<Seq<char>>,
    row: int,
) -> Seq<DetectionView>
    decreases fields.len(),
{
    if fields.len() == 0 {
        Seq::empty()
    } else {
        spec_row_hits(pats, fields.drop_last(), row) + spec_cell_hits(
            pats,
            fields.last(),
            row,
            fields.len() - 1,
        )
    }
}

/// The detections against all rows, rows in order.
pub open spec fn spec_rows_hits(
    pats: Seq<(Seq<char>, Seq<char>, u8)>,
    rows: Seq<Seq<Seq<char>>>,
) -> Seq<DetectionView>
    decreases rows.len(),
{
    if rows.len() == 0 {
        Seq::empty()
    } else {
        spec_rows_hits(pats, rows.drop_last()) + spec_row_hits(
            pats,
            rows.last(),
            rows.len() - 1,
        )
    }
}

/// The detections of the patterns against one line, in pattern order.
pub open spec fn spec_line_hits(
    pats: Seq<(Seq<char>, Seq<char>, u8)>,
    line: Seq<char>,
    idx: int,
) -> Seq<DetectionView>
    decreases pats.len(),
{
    if pats.len() == 0 {
        Seq::empty()
    } else {
        let rest = spec_line_hits(pats.drop_last(), line, idx);
        let (pat, dt, sev) = pats.last();
        if rx::regex_match_of(pat, line) {
            rest.push(
                DetectionView {
                    detection_type: dt,
                    severity: sev,
                    location: spec_line_location(idx),
                    details: seq![
                        ("matched_text"@, rx::regex_first_match_of(pat, line)),
                        ("full_line"@, line),
                    ],
                },
            )
        } else {
            rest
        }
    }
}

/// The detections against all lines, lines in order.
pub open spec fn spec_lines_hits(
    pats: Seq<(Seq<char>, Seq<char>, u8)>,
    lines: Seq<Seq<char>>,
) -> Seq<DetectionView>
    decreases lines.len(),
{
    if lines.len() == 0 {
        Seq::empty()
    } else {
        spec_lines_hits(pats, lines.drop_last()) + spec_line_hits(
            pats,
            lines.last(),
            lines.len() - 1,
        )
    }
}

/// The views of the detections in a vector.
pub open spec fn spec_detection_views(ds: Seq<DetectionResult>) -> Seq<DetectionView> {
    ds.map_values(|d: DetectionResult| d.view_of())
}

/// Taking views commutes with appending one detection.
proof fn lemma_views_push(ds: Seq<DetectionResult>, d: DetectionResult)
    ensures
        spec_detection_views(ds.push(d)) == spec_detection_views(ds).push(d.view_of()),
{
    assert(spec_detection_views(ds.push(d)) =~= spec_detection_views(ds).push(d.view_of()));
}

/// The views of a pattern list.
pub open spec fn spec_pattern_views(ps: Seq<(regex::Regex, String, u8)>) -> Seq<
    (Seq<char>, Seq<char>, u8),
> {
    ps.map_values(|p: (regex::Regex, String, u8)| spec_pattern_view(p))
}

/// The views of a list of strings.
pub open spec fn spec_str_views(ss: Seq<String>) -> Seq<Seq<char>> {
    ss.map_values(|s: String| s@)
}

/// The views of a list of rows of strings.
pub open spec fn spec_row_views(rows: Seq<Vec<String>>) -> Seq<Seq<Seq<char>>> {
    rows.map_values(|r: Vec<String>| spec_str_views(r@))
}

/// Build the location text of a cell.
fn cell_location(row: usize, col: usize) -> (r: String)
    requires
        row < usize::MAX,
        col < usize::MAX,
    ensures
        r@ == spec_cell_location(row as int, col as int),
{
    let mut out = "row:".to_owned();
    out.append(strutil::u64_to_string((row + 1) as u64).as_str());
    out.append(",col:");
    out.append(strutil::u64_to_string((col + 1) as u64).as_str());
    proof {
        assert(out@ =~= spec_cell_location(row as int, col as int));
    }
    out
}

/// Build the location text of a line.
fn line_location(line: usize) -> (r: String)
    requires
        line < usize::MAX,
    ensures
        r@ == spec_line_location(line as int),
{
    let mut out = "line:".to_owned();
    out.append(strutil::u64_to_string((line + 1) as u64).as_str());
    proof {
        assert(out@ =~= spec_line_location(line as int));
    }
    out
}

/// Run one pattern list against one cell, appending the detections.
fn scan_cell(
    patterns: &Vec<(regex::Regex, String, u8)>,
    field: &String,
    row: usize,
    col: usize,
    now: i64,
    out: &mut Vec<DetectionResult>,
)
    requires
        row < usize::MAX,
        col < usize::MAX,
    ensures
        spec_detection_views(final(out)@) == spec_detection_views(old(out)@) + spec_cell_hits(
            spec_pattern_views(patterns@),
            field@,
            row as int,
            col as int,
        ),
{
    let n = patterns.len();
    for k in 0..n
        invariant
            n == patterns@.len(),
            row < usize::MAX,
            col < usize::MAX,
            spec_detection_views(out@) == spec_detection_views(old(out)@) + spec_cell_hits(
                spec_pattern_views(patterns@).take(k as int),
                field@,
                row as int,
                col as int,
            ),
    {
        proof {
            let pv = spec_pattern_views(patterns@);
            assert(pv.take(k + 1).drop_last() =~= pv.take(k as int));
            assert(pv.take(k + 1).last() == pv[k as int]);
        }
        let (re, dt, sev) = &patterns[k];
        let ghost pv = spec_pattern_views(patterns@);
        let ghost hits_k = spec_cell_hits(pv.take(k as int), field@, row as int, col as int);
        if rx::regex_is_match(re, field.as_str()) {
            let mut details: Vec<(String, String)> = Vec::new();
            details.push(("matched_text".to_owned(), field.clone()));
            details.push(("column".to_owned(), strutil::u64_to_string(col as u64)));
            let d = DetectionResult {
                detection_type: dt.clone(),
                severity: *sev,
                location: cell_location(row, col),
                details,
                timestamp: now,
            };
            let ghost prior = out@;
            proof {
                assert(d.view_of().details =~= seq![
                    ("matched_text"@, field@),
                    ("column"@, spec_decimal(col as int)),
                ]);
            }
            out.push(d);
            proof {
                lemma_views_push(prior, d);
                assert(spec_cell_hits(pv.take(k + 1), field@, row as int, col as int)
                    == hits_k.push(d.view_of()));
                assert(spec_detection_views(out@) =~= spec_detection_views(old(out)@)
                    + spec_cell_hits(pv.take(k + 1), field@, row as int, col as int));
            }
        } else {
            proof {
                assert(spec_cell_hits(pv.take(k + 1), field@, row as int, col as int) == hits_k);
                assert(spec_detection_views(out@) =~= spec_detection_views(old(out)@)
                    + spec_cell_hits(pv.take(k + 1), field@, row as int, col as int));
            }
        }
    }
    proof {
        assert(spec_pattern_views(patterns@).take(n as int) =~= spec_pattern_views(patterns@));
    }
}

/// An analyzer of tabular data: each cell is matched against a fixed list of
/// threat patterns.
pub struct CsvAnalyzer {
    patterns: Vec<(regex::Regex, String, u8)>,
}

impl CsvAnalyzer {
    /// The patterns, as pattern text, detection type and severity.
    pub closed spec fn spec_patterns(&self) -> Seq<(Seq<char>, Seq<char>, u8)> {
        spec_pattern_views(self.patterns@)
    }

    /// A fresh analyzer with the default threat patterns.
    pub fn new() -> (r: Self)
        ensures
            r.spec_patterns().len() <= 8,
    {
        let mut analyzer = CsvAnalyzer { patterns: Vec::new() };
        analyzer.add_pattern("(?i)bitlocker", "encryption_bitlocker", 8);
        analyzer.add_pattern("(?i)ransom", "ransomware_indicator", 9);
        analyzer.add_pattern("(?i)lockbit", "ransomware_lockbit", 10);
        analyzer.add_pattern("(?i)phish", "phishing_indicator", 7);
        analyzer.add_pattern("(?i)backdoor", "backdoor_indicator", 9);
        analyzer.add_pattern("(?i)malware", "malware_indicator", 8);
        analyzer.add_pattern("(?i)exploit", "exploit_indicator", 8);
        analyzer.add_pattern("(?i)suspicious", "suspicious_activity", 5);
        analyzer
    }

    /// Add a pattern; an invalid pattern is dropped silently.
    pub fn add_pattern(&mut self, pattern: &str, detection_type: &str, severity: u8)
        ensures
            ({
                ||| final(self).spec_patterns() == old(self).spec_patterns()
                ||| final(self).spec_patterns() == old(self).spec_patterns().push(
                    (pattern@, detection_type@, severity),
                )
            }),
    {
        if let Some(re) = rx::regex_new(pattern) {
            self.patterns.push((re, detection_type.to_owned(), severity));
            proof {
                assert(spec_pattern_views(self.patterns@) =~= spec_pattern_views(
                    old(self).patterns@,
                ).push((pattern@, detection_type@, severity)));
            }
        }
    }

    /// Analyze parsed rows: every cell is matched against every pattern, and
    /// each match yields a detection carrying its exact location.
    pub fn analyze_rows(&self, rows: &Vec<Vec<String>>) -> (r: Vec<DetectionResult>)
        requires
            rows@.len() < usize::MAX,
        ensures
            spec_detection_views(r@) == spec_rows_hits(self.spec_patterns(), spec_row_views(rows@)),
    {
        let now = clock::now_millis();
        let mut out: Vec<DetectionResult> = Vec::new();
        let nrows = rows.len();
        for i in 0..nrows
            invariant
                nrows == rows@.len(),
                nrows < usize::MAX,
                spec_detection_views(out@) == spec_rows_hits(
                    self.spec_patterns(),
                    spec_row_views(rows@).take(i as int),
                ),
        {
            proof {
                let rv = spec_row_views(rows@);
                assert(rv.take(i + 1).drop_last() =~= rv.take(i as int));
                assert(rv.take(i + 1).last() == rv[i as int]);
            }
            let row = &rows[i];
            let ncols = row.len();
            let ghost out_before_row = out@;
            for j in 0..ncols
                invariant
                    ncols == row@.len(),
                    nrows == rows@.len(),
                    i < nrows,
                    row@ == rows@[i as int]@,
                    spec_detection_views(out@) == spec_detection_views(out_before_row)
                        + spec_row_hits(
                        self.spec_patterns(),
                        spec_str_views(row@).take(j as int),
                        i as int,
                    ),
            {
                proof {
                    let sv = spec_str_views(row@);
                    assert(sv.take(j + 1).drop_last() =~= sv.take(j as int));
                    assert(sv.take(j + 1).last() == sv[j as int]);
                }
                scan_cell(&self.patterns, &row[j], i, j, now, &mut out);
            }
            proof {
                assert(spec_str_views(row@).take(ncols as int) =~= spec_str_views(
                    rows@[i as int]@,
                ));
            }
        }
        proof {
            assert(spec_row_views(rows@).take(nrows as int) =~= spec_row_views(rows@));
        }
        out
    }
}

/// An analyzer of line-oriented logs: each line is matched against a fixed
/// list of threat patterns.
pub struct LogAnalyzer {
    patterns: Vec<(regex::Regex, String, u8)>,
}

impl LogAnalyzer {
    /// The patterns, as pattern text, detection type and severity.
    pub closed spec fn spec_patterns(&self) -> Seq<(Seq<char>, Seq<char>, u8)> {
        spec_pattern_views(self.patterns@)
    }

    /// A fresh analyzer with the default threat patterns.
    pub fn new() -> (r: Self)
        ensures
            r.spec_patterns().len() <= 8,
    {
        let mut analyzer = LogAnalyzer { patterns: Vec::new() };
        analyzer.add_pattern("(?i)failed login|authentication failure", "auth_failure", 6);
        analyzer.add_pattern("(?i)brute force|bruteforce", "brute_force_attempt", 8);
        analyzer.add_pattern("(?i)permission denied", "permission_denied", 5);
        analyzer.add_pattern("(?i)suspicious activity", "suspicious_activity", 7);
        analyzer.add_pattern("(?i)malware|virus|trojan", "malware_indicator", 9);
        analyzer.add_pattern("(?i)exploit|vulnerability", "exploit_attempt", 8);
        analyzer.add_pattern("(?i)backdoor", "backdoor_indicator", 9);
        analyzer.add_pattern("(?i)command injection|sql injection", "injection_attempt", 9);
        analyzer
    }

    /// Add a pattern; an invalid pattern is dropped silently.
    pub fn add_pattern(&mut self, pattern: &str, detection_type: &str, severity: u8)
        ensures
            ({
                ||| final(self).spec_patterns() == old(self).spec_patterns()
                ||| final(self).spec_patterns() == old(self).spec_patterns().push(
                    (pattern@, detection_type@, severity),
                )
            }),
    {
        if let Some(re) = rx::regex_new(pattern) {
            self.patterns.push((re, detection_type.to_owned(), severity));
            proof {
                assert(spec_pattern_views(self.patterns@) =~= spec_pattern_views(
                    old(self).patterns@,
                ).push((pattern@, detection_type@, severity)));
            }
        }
    }

    /// Analyze log lines: every line is matched against every pattern, and
    /// each match yields a detection carrying its line number and the
    /// matched text.
    pub fn analyze_lines(&self, lines: &Vec<String>) -> (r: Vec<DetectionResult>)
        requires
            lines@.len() < usize::MAX,
        ensures
            spec_detection_views(r@) == spec_lines_hits(
                self.spec_patterns(),
                spec_str_views(lines@),
            ),
    {
        let now = clock::now_millis();
        let mut out: Vec<DetectionResult> = Vec::new();
        let nlines = lines.len();
        for i in 0..nlines
            invariant
                nlines == lines@.len(),
                nlines < usize::MAX,
                spec_detection_views(out@) == spec_lines_hits(
                    self.spec_patterns(),
                    spec_str_views(lines@).take(i as int),
                ),
        {
            proof {
                let lv = spec_str_views(lines@);
                assert(lv.take(i + 1).drop_last() =~= lv.take(i as int));
                assert(lv.take(i + 1).last() == lv[i as int]);
            }
            let line = &lines[i];
            let n = self.patterns.len();
            let ghost out_before_line = out@;
            for k in 0..n
                invariant
                    n == self.patterns@.len(),
                    nlines == lines@.len(),
                    i < nlines,
                    line@ == lines@[i as int]@,
                    spec_detection_views(out@) == spec_detection_views(out_before_line)
                        + spec_line_hits(
                        self.spec_patterns().take(k as int),
                        line@,
                        i as int,
                    ),
            {
                proof {
                    let pv = self.spec_patterns();
                    assert(pv.take(k + 1).drop_last() =~= pv.take(k as int));
                    assert(pv.take(k + 1).last() == pv[k as int]);
                }
                let (re, dt, sev) = &self.patterns[k];
                let ghost pv = self.spec_patterns();
                let ghost hits_k = spec_line_hits(pv.take(k as int), line@, i as int);
                if let Some(matched) = rx::regex_find_first(re, line.as_str()) {
                    let mut details: Vec<(String, String)> = Vec::new();
                    details.push(("matched_text".to_owned(), matched));
                    details.push(("full_line".to_owned(), line.clone()));
                    let d = DetectionResult {
                        detection_type: dt.clone(),
                        severity: *sev,
                        location: line_location(i),
                        details,
                        timestamp: now,
                    };
                    let ghost prior = out@;
                    proof {
                        assert(d.view_of().details =~= seq![
                            (
                                "matched_text"@,
                                rx::regex_first_match_of(
                                    rx::regex_pattern_of(self.patterns@[k as int].0),
                                    line@,
                                ),
                            ),
                            ("full_line"@, line@),
                        ]);
                    }
                    out.push(d);
                    proof {
                        lemma_views_push(prior, d);
                        assert(spec_line_hits(pv.take(k + 1), line@, i as int)
                            == hits_k.push(d.view_of()));
                        assert(spec_detection_views(out@) =~= spec_detection_views(
                            out_before_line,
                        ) + spec_line_hits(pv.take(k + 1), line@, i as int));
                    }
                } else {
                    proof {
                        assert(spec_line_hits(pv.take(k + 1), line@, i as int) == hits_k);
                        assert(spec_detection_views(out@) =~= spec_detection_views(
                            out_before_line,
                        ) + spec_line_hits(pv.take(k + 1), line@, i as int));
                    }
                }
            }
            proof {
                assert(self.spec_patterns().take(n as int) =~= self.spec_patterns());
            }
        }
        proof {
            assert(spec_str_views(lines@).take(nlines as int) =~= spec_str_views(lines@));
        }
        out
    }
}

} // verus!
