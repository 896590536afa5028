//! The lines the command line prints about files and hotspots.
use vstd::prelude::*;
use crate::analysis::severity_count;
use crate::baseline::count_severity;
use crate::complexity::{cognitive_of, cyclomatic_of, fc_views, max_complexities, seq_max};
use crate::hotspot::{HotspotInfo, HotspotResult};
use crate::lint::issue_views;
use crate::baseline::BaselineComparison;
use crate::text::{decimal, push_decimal, push_signed, signed_decimal, str_eq};
use crate::analysis::AnalysisResult;
use crate::types::{FileAnalysis, Grade, Severity};

verus! {

/// `n` followed by `word`, plural when `n` is more than one.
pub open spec fn counted(n: nat, word: Seq<char>) -> Seq<char> {
    decimal(n) + " "@ + word + if n > 1 {
        "s"@
    } else {
        ""@
    }
}

/// The issue counts of the verbose line: errors, then warnings, each only
/// when there are some, joined by `, `.
pub open spec fn issue_parts(errors: nat, warnings: nat) -> Seq<char> {
    let e = if errors > 0 {
        counted(errors, "error"@)
    } else {
        ""@
    };
    let w = if warnings > 0 {
        counted(warnings, "warning"@)
    } else {
        ""@
    };
    e + if errors > 0 && warnings > 0 {
        ", "@
    } else {
        ""@
    } + w
}

/// The line printed for a file in verbose mode: a check mark when it has
/// no issue, else a cross and its error and warning counts, with its largest
/// complexities.
pub open spec fn spec_verbose_line(fa: FileAnalysis) -> Seq<char> {
    let units = fc_views(fa.complexity.functions@);
    let cc = seq_max(cyclomatic_of(units)) as nat;
    let cog = seq_max(cognitive_of(units)) as nat;
    let figures = "\u{1b}[0m (complexity: "@ + decimal(cc) + ", cognitive: "@ + decimal(cog) + ", issues: "@;
    if fa.issues@.len() == 0 {
        "  \u{1b}[32m✓ \u{1b}[36m"@ + fa.file@ + figures + "0)"@
    } else {
        let errors = severity_count(issue_views(fa.issues@), Severity::Error) as nat;
        let warnings = severity_count(issue_views(fa.issues@), Severity::Warning) as nat;
        "  \u{1b}[31m✗ \u{1b}[36m"@ + fa.file@ + figures + issue_parts(errors, warnings) + ")"@
    }
}

fn push_counted(s: &mut String, n: usize, word: &str)
    ensures
        final(s)@ == old(s)@ + counted(n as nat, word@),
{
    push_decimal(s, n);
    s.append(" ");
    s.append(word);
    if n > 1 {
        s.append("s");
    } else {
        proof {
            reveal_strlit("");
        }
        assert(""@ =~= Seq::<char>::empty());
    }
    proof {
        reveal_strlit(" ");
        reveal_strlit("s");
    }
}

/// The verbose line of a file.
pub fn verbose_line(fa: &FileAnalysis) -> (r: String)
    ensures
        r@ == spec_verbose_line(*fa),
{
    let (cc, cog) = max_complexities(&fa.complexity.functions);
    let mut s = if fa.issues.len() == 0 {
        "  \u{1b}[32m✓ \u{1b}[36m".to_owned()
    } else {
        "  \u{1b}[31m✗ \u{1b}[36m".to_owned()
    };
    s.append(fa.file.as_str());
    s.append("\u{1b}[0m (complexity: ");
    push_decimal(&mut s, cc);
    s.append(", cognitive: ");
    push_decimal(&mut s, cog);
    s.append(", issues: ");
    let ghost head = s@;
    if fa.issues.len() == 0 {
        s.append("0)");
        return s;
    }
    let errors = count_severity(&fa.issues, Severity::Error);
    let warnings = count_severity(&fa.issues, Severity::Warning);
    proof {
        reveal_strlit("");
        reveal_strlit(", ");
    }
    if errors > 0 {
        push_counted(&mut s, errors, "error");
    }
    if errors > 0 && warnings > 0 {
        s.append(", ");
    }
    if warnings > 0 {
        push_counted(&mut s, warnings, "warning");
    }
    s.append(")");
    assert(s@ =~= head + issue_parts(errors as nat, warnings as nat) + ")"@);
    s
}

/// The label of a risk level, padded to one width.
pub open spec fn risk_label(risk: Seq<char>) -> Seq<char> {
    if risk == "high"@ {
        "\u{1b}[31mHIGH  \u{1b}[0m"@
    } else if risk == "medium"@ {
        "\u{1b}[33mMEDIUM\u{1b}[0m"@
    } else {
        "\u{1b}[32mLOW   \u{1b}[0m"@
    }
}

/// The line printed for a hotspot.
pub open spec fn spec_hotspot_line(h: HotspotInfo) -> Seq<char> {
    "  "@ + risk_label(h.risk@) + " \u{1b}[36m"@ + h.file@ + "\u{1b}[0m ("@ + decimal(h.commits as nat)
        + " commits, "@ + decimal(h.authors as nat) + " authors, complexity: "@ + decimal(
        h.complexity as nat,
    ) + ")"@
}

/// The line printed for a hotspot.
pub fn hotspot_line(h: &HotspotInfo) -> (r: String)
    ensures
        r@ == spec_hotspot_line(*h),
{
    let label = if str_eq(h.risk.as_str(), "high") {
        "\u{1b}[31mHIGH  \u{1b}[0m"
    } else if str_eq(h.risk.as_str(), "medium") {
        "\u{1b}[33mMEDIUM\u{1b}[0m"
    } else {
        "\u{1b}[32mLOW   \u{1b}[0m"
    };
    let mut s = "  ".to_owned();
    s.append(label);
    s.append(" \u{1b}[36m");
    s.append(h.file.as_str());
    s.append("\u{1b}[0m (");
    push_decimal(&mut s, h.commits);
    s.append(" commits, ");
    push_decimal(&mut s, h.authors);
    s.append(" authors, complexity: ");
    push_decimal(&mut s, h.complexity);
    s.append(")");
    s
}

/// The lines printed for the hotspots of a period: nothing when there are
/// none, else a heading, one line per hotspot, and an empty line.
pub open spec fn spec_hotspot_lines(r: HotspotResult) -> Seq<Seq<char>> {
    if r.hotspots@.len() == 0 {
        seq![]
    } else {
        seq!["\u{1b}[1m=== Hotspot Analysis (last "@ + r.period@ + ") ===\u{1b}[0m"@] + r.hotspots@.map_values(
            |h: HotspotInfo| spec_hotspot_line(h),
        ) + seq![""@]
    }
}

/// The lines printed for the hotspots of a period.
pub fn hotspot_lines(r: &HotspotResult) -> (out: Vec<String>)
    ensures
        out@.map_values(|s: String| s@) == spec_hotspot_lines(*r),
{
    let mut out: Vec<String> = Vec::new();
    if r.hotspots.len() == 0 {
        assert(out@.map_values(|s: String| s@) =~= Seq::<Seq<char>>::empty());
        return out;
    }
    let mut head = "\u{1b}[1m=== Hotspot Analysis (last ".to_owned();
    head.append(r.period.as_str());
    head.append(") ===\u{1b}[0m");
    out.push(head);
    let mut k: usize = 0;
    while k < r.hotspots.len()
        invariant
            k <= r.hotspots@.len(),
            out@.map_values(|s: String| s@) =~= seq![
                "\u{1b}[1m=== Hotspot Analysis (last "@ + r.period@ + ") ===\u{1b}[0m"@,
            ] + r.hotspots@.take(k as int).map_values(|h: HotspotInfo| spec_hotspot_line(h)),
        decreases r.hotspots@.len() - k,
    {
        let line = hotspot_line(&r.hotspots[k]);
        let ghost prev = out@;
        let ghost lv = line@;
        out.push(line);
        assert(out@.map_values(|s: String| s@) =~= prev.map_values(|s: String| s@).push(lv));
        assert(r.hotspots@.take(k + 1) =~= r.hotspots@.take(k as int).push(r.hotspots@[k as int]));
        assert(r.hotspots@.take(k + 1).map_values(|h: HotspotInfo| spec_hotspot_line(h)) =~= r.hotspots@.take(
            k as int,
        ).map_values(|h: HotspotInfo| spec_hotspot_line(h)).push(spec_hotspot_line(r.hotspots@[k as int])));
        k = k + 1;
    }
    assert(r.hotspots@.take(k as int) =~= r.hotspots@);
    let ghost prev = out@;
    out.push("".to_owned());
    proof {
        reveal_strlit("");
    }
    assert(out@.map_values(|s: String| s@) =~= prev.map_values(|s: String| s@).push(""@));
    out
}

/// The label of a comparison's status.
pub open spec fn status_label(status: Seq<char>) -> Seq<char> {
    if status == "improved"@ {
        "\u{1b}[32mIMPROVED\u{1b}[0m"@
    } else if status == "degraded"@ {
        "\u{1b}[31mDEGRADED\u{1b}[0m"@
    } else {
        "\u{1b}[34mUNCHANGED\u{1b}[0m"@
    }
}

/// The arrow of a score change: up, down or level.
pub open spec fn delta_arrow(d: int) -> Seq<char> {
    if d > 0 {
        "\u{1b}[32m↑\u{1b}[0m"@
    } else if d < 0 {
        "\u{1b}[31m↓\u{1b}[0m"@
    } else {
        "→"@
    }
}

/// A change with its sign: `+` in front of a change that is not negative.
pub open spec fn with_sign(d: int) -> Seq<char> {
    if d >= 0 {
        "+"@ + signed_decimal(d)
    } else {
        signed_decimal(d)
    }
}

/// The views of `v` joined by `, `.
pub open spec fn joined(v: Seq<Seq<char>>) -> Seq<char>
    decreases v.len(),
{
    if v.len() == 0 {
        seq![]
    } else if v.len() == 1 {
        v[0]
    } else {
        joined(v.drop_last()) + ", "@ + v.last()
    }
}

pub open spec fn string_views(v: Seq<String>) -> Seq<Seq<char>> {
    v.map_values(|s: String| s@)
}

/// A line listing `files` after `head`, when there are any.
pub open spec fn files_line(head: Seq<char>, files: Seq<String>) -> Seq<Seq<char>> {
    if files.len() == 0 {
        seq![]
    } else {
        seq![head + joined(string_views(files))]
    }
}

/// The lines printed for a comparison with the baseline: a heading, the
/// status, the score change, the issue change, the degraded and the
/// improved files when there are any, and an empty line.
pub open spec fn spec_comparison_lines(c: BaselineComparison) -> Seq<Seq<char>> {
    let sd = c.overall.score_delta as int;
    seq![
        "\u{1b}[1m=== Baseline Comparison ===\u{1b}[0m"@,
        "  Status: "@ + status_label(c.status@),
        "  Score:  "@ + c.overall.grade_before@ + " → "@ + c.overall.grade_after@ + " ("@ + delta_arrow(sd) + " "@
            + with_sign(sd) + ") "@,
        "  Issues: "@ + with_sign(c.overall.issues_delta as int),
    ] + files_line("  Degraded: "@, c.degraded_files@) + files_line("  Improved: "@, c.improved_files@)
        + seq![""@]
}

fn push_with_sign(s: &mut String, d: i64)
    ensures
        final(s)@ == old(s)@ + with_sign(d as int),
{
    if d >= 0 {
        s.append("+");
        proof {
            reveal_strlit("+");
        }
    }
    push_signed(s, d);
}

fn push_joined(s: &mut String, files: &Vec<String>)
    ensures
        final(s)@ == old(s)@ + joined(string_views(files@)),
{
    let ghost start = s@;
    let mut k: usize = 0;
    while k < files.len()
        invariant
            k <= files@.len(),
            s@ == start + joined(string_views(files@).take(k as int)),
        decreases files@.len() - k,
    {
        let ghost v = string_views(files@);
        assert(v.take(k + 1).drop_last() =~= v.take(k as int));
        assert(v.take(k + 1).last() == files@[k as int]@);
        if k > 0 {
            s.append(", ");
            proof {
                reveal_strlit(", ");
            }
        } else {
            assert(v.take(0) =~= Seq::<Seq<char>>::empty());
        }
        s.append(files[k].as_str());
        k = k + 1;
    }
    assert(string_views(files@).take(k as int) =~= string_views(files@));
}

fn files_line_exec(head: &str, files: &Vec<String>, out: &mut Vec<String>)
    ensures
        string_views(final(out)@) == string_views(old(out)@) + files_line(head@, files@),
{
    let ghost before = string_views(out@);
    if files.len() > 0 {
        let mut line = head.to_owned();
        push_joined(&mut line, files);
        out.push(line);
        assert(string_views(out@) =~= before + files_line(head@, files@));
    } else {
        assert(string_views(out@) =~= before + files_line(head@, files@));
    }
}

/// The lines printed for a comparison with the baseline.
pub fn comparison_lines(c: &BaselineComparison) -> (out: Vec<String>)
    ensures
        string_views(out@) == spec_comparison_lines(*c),
{
    let mut out: Vec<String> = Vec::new();
    out.push("\u{1b}[1m=== Baseline Comparison ===\u{1b}[0m".to_owned());
    let label = if str_eq(c.status.as_str(), "improved") {
        "\u{1b}[32mIMPROVED\u{1b}[0m"
    } else if str_eq(c.status.as_str(), "degraded") {
        "\u{1b}[31mDEGRADED\u{1b}[0m"
    } else {
        "\u{1b}[34mUNCHANGED\u{1b}[0m"
    };
    let mut status = "  Status: ".to_owned();
    status.append(label);
    out.push(status);
    let sd = c.overall.score_delta;
    let arrow = if sd > 0 {
        "\u{1b}[32m↑\u{1b}[0m"
    } else if sd < 0 {
        "\u{1b}[31m↓\u{1b}[0m"
    } else {
        "→"
    };
    let mut score = "  Score:  ".to_owned();
    score.append(c.overall.grade_before.as_str());
    score.append(" → ");
    score.append(c.overall.grade_after.as_str());
    score.append(" (");
    score.append(arrow);
    score.append(" ");
    push_with_sign(&mut score, sd);
    score.append(") ");
    out.push(score);
    let mut issues = "  Issues: ".to_owned();
    push_with_sign(&mut issues, c.overall.issues_delta);
    out.push(issues);
    let ghost sdi = sd as int;
    let ghost head: Seq<Seq<char>> = seq![
        "\u{1b}[1m=== Baseline Comparison ===\u{1b}[0m"@,
        "  Status: "@ + status_label(c.status@),
        "  Score:  "@ + c.overall.grade_before@ + " → "@ + c.overall.grade_after@ + " ("@ + delta_arrow(sdi) + " "@
            + with_sign(sdi) + ") "@,
        "  Issues: "@ + with_sign(c.overall.issues_delta as int),
    ];
    assert(string_views(out@) =~= head);
    files_line_exec("  Degraded: ", &c.degraded_files, &mut out);
    files_line_exec("  Improved: ", &c.improved_files, &mut out);
    let ghost mid = string_views(out@);
    out.push("".to_owned());
    assert(string_views(out@) =~= mid + seq![""@]);
    assert(string_views(out@) =~= spec_comparison_lines(*c));
    out
}


/// A grade as printed: green for A and B (A bold), yellow for C, red for D
/// and F (F bold).
pub open spec fn spec_grade_colored(g: Grade) -> Seq<char> {
    match g {
        Grade::A => "\u{1b}[32m\u{1b}[1mA\u{1b}[0m"@,
        Grade::B => "\u{1b}[32mB\u{1b}[0m"@,
        Grade::C => "\u{1b}[33mC\u{1b}[0m"@,
        Grade::D => "\u{1b}[31mD\u{1b}[0m"@,
        Grade::F => "\u{1b}[31m\u{1b}[1mF\u{1b}[0m"@,
    }
}

/// A grade as printed.
pub fn grade_colored(g: Grade) -> (r: &'static str)
    ensures
        r@ == spec_grade_colored(g),
{
    match g {
        Grade::A => "\u{1b}[32m\u{1b}[1mA\u{1b}[0m",
        Grade::B => "\u{1b}[32mB\u{1b}[0m",
        Grade::C => "\u{1b}[33mC\u{1b}[0m",
        Grade::D => "\u{1b}[31mD\u{1b}[0m",
        Grade::F => "\u{1b}[31m\u{1b}[1mF\u{1b}[0m",
    }
}

/// The lines printed after a run: an empty line, a heading, the quality
/// score when there is one, the numbers of files and issues by severity,
/// the average complexity as `average` spells it, the most complex
/// function when there is one, and an empty line.
pub open spec fn spec_summary_lines(r: AnalysisResult, average: Seq<char>) -> Seq<Seq<char>> {
    let s = r.summary;
    seq![""@, "\u{1b}[1m=== Analysis Summary ===\u{1b}[0m"@] + match r.score {
        Some(p) => seq![
            "  Quality Score:  "@ + spec_grade_colored(p.grade) + " ("@ + signed_decimal(p.overall as int)
                + "/100)"@,
        ],
        None => seq![],
    } + seq![
        "  Files analyzed: \u{1b}[1m"@ + decimal(s.total_files as nat) + "\u{1b}[0m"@,
        "  Total issues:   \u{1b}[1m"@ + decimal(s.total_issues as nat) + "\u{1b}[0m"@,
        "    \u{1b}[31mError:\u{1b}[0m   "@ + decimal(s.issues_by_severity.error as nat),
        "    \u{1b}[33mWarning:\u{1b}[0m "@ + decimal(s.issues_by_severity.warning as nat),
        "    \u{1b}[34mInfo:\u{1b}[0m    "@ + decimal(s.issues_by_severity.info as nat),
        "  Avg complexity: "@ + average,
    ] + match s.max_complexity {
        Some(m) => seq![
            "  Max complexity: "@ + decimal(m.complexity as nat) + " ("@ + m.function@ + " in \u{1b}[36m"@
                + m.file@ + "\u{1b}[0m)"@,
        ],
        None => seq![],
    } + seq![""@]
}

fn labelled_count(label: &str, n: usize, tail: &str) -> (r: String)
    ensures
        r@ == label@ + decimal(n as nat) + tail@,
{
    let mut s = label.to_owned();
    push_decimal(&mut s, n);
    s.append(tail);
    s
}

/// The lines printed after a run, given the average complexity as text.
pub fn summary_lines(r: &AnalysisResult, average: &str) -> (out: Vec<String>)
    ensures
        string_views(out@) == spec_summary_lines(*r, average@),
{
    let s = &r.summary;
    let mut out: Vec<String> = Vec::new();
    out.push("".to_owned());
    out.push("\u{1b}[1m=== Analysis Summary ===\u{1b}[0m".to_owned());
    let ghost head = string_views(out@);
    if let Some(p) = &r.score {
        let mut line = "  Quality Score:  ".to_owned();
        line.append(grade_colored(p.grade));
        line.append(" (");
        push_signed(&mut line, p.overall as i64);
        line.append("/100)");
        out.push(line);
    }
    let ghost with_score = string_views(out@);
    assert(with_score =~= head + match r.score {
        Some(p) => seq![
            "  Quality Score:  "@ + spec_grade_colored(p.grade) + " ("@ + signed_decimal(p.overall as int)
                + "/100)"@,
        ],
        None => seq![],
    });
    out.push(labelled_count("  Files analyzed: \u{1b}[1m", s.total_files, "\u{1b}[0m"));
    out.push(labelled_count("  Total issues:   \u{1b}[1m", s.total_issues, "\u{1b}[0m"));
    out.push(labelled_count("    \u{1b}[31mError:\u{1b}[0m   ", s.issues_by_severity.error, ""));
    out.push(labelled_count("    \u{1b}[33mWarning:\u{1b}[0m ", s.issues_by_severity.warning, ""));
    out.push(labelled_count("    \u{1b}[34mInfo:\u{1b}[0m    ", s.issues_by_severity.info, ""));
    let mut avg = "  Avg complexity: ".to_owned();
    avg.append(average);
    out.push(avg);
    proof {
        reveal_strlit("");
    }
    let ghost counts = string_views(out@);
    assert(counts =~= with_score + seq![
        "  Files analyzed: \u{1b}[1m"@ + decimal(s.total_files as nat) + "\u{1b}[0m"@,
        "  Total issues:   \u{1b}[1m"@ + decimal(s.total_issues as nat) + "\u{1b}[0m"@,
        "    \u{1b}[31mError:\u{1b}[0m   "@ + decimal(s.issues_by_severity.error as nat),
        "    \u{1b}[33mWarning:\u{1b}[0m "@ + decimal(s.issues_by_severity.warning as nat),
        "    \u{1b}[34mInfo:\u{1b}[0m    "@ + decimal(s.issues_by_severity.info as nat),
        "  Avg complexity: "@ + average@,
    ]);
    if let Some(m) = &s.max_complexity {
        let mut line = labelled_count("  Max complexity: ", m.complexity, " (");
        line.append(m.function.as_str());
        line.append(" in \u{1b}[36m");
        line.append(m.file.as_str());
        line.append("\u{1b}[0m)");
        out.push(line);
    }
    let ghost with_max = string_views(out@);
    assert(with_max =~= counts + match s.max_complexity {
        Some(m) => seq![
            "  Max complexity: "@ + decimal(m.complexity as nat) + " ("@ + m.function@ + " in \u{1b}[36m"@
                + m.file@ + "\u{1b}[0m)"@,
        ],
        None => seq![],
    });
    out.push("".to_owned());
    assert(string_views(out@) =~= spec_summary_lines(*r, average@));
    out
}

} // verus!
