use codopsy::analysis::{
    analyze_files, build_analysis_result, check_max_cognitive_complexity, check_max_complexity, run_fails, summarize, unreadable_file,
    AnalyzeOptions,
};
use codopsy::scoring::calculate_file_score;
use codopsy::config::CodopsyConfig;
use codopsy::files::keep_changed;
use codopsy::hotspot::{HotspotInfo, HotspotResult};
use codopsy::baseline::{BaselineComparison, BaselineOverallComparison};
use codopsy::report::{comparison_lines, hotspot_line, hotspot_lines, summary_lines, verbose_line};
use codopsy::types::{ComplexityResult, FileAnalysis, FunctionComplexity, Issue, ScoringThresholds, Severity};

fn opts() -> AnalyzeOptions {
    AnalyzeOptions { max_complexity: 10, max_cognitive_complexity: 15 }
}

fn file_with(issues: Vec<Severity>, cc: usize, cog: usize) -> FileAnalysis {
    FileAnalysis {
        file: "src/a.ts".to_string(),
        complexity: ComplexityResult {
            cyclomatic: cc,
            cognitive: cog,
            functions: vec![FunctionComplexity { name: "f".to_string(), line: 1, complexity: cc, cognitive_complexity: cog }],
        },
        issues: issues
            .into_iter()
            .map(|s| Issue {
                file: "src/a.ts".to_string(),
                line: 1,
                column: 1,
                severity: s,
                rule: "r".to_string(),
                message: String::new(),
            })
            .collect(),
        score: None,
        unanalyzed: false,
    }
}

#[test]
fn unreadable_file_reports_why() {
    let a = unreadable_file("x.ts", "permission denied");
    assert_eq!(a.file, "x.ts");
    assert!(a.complexity.functions.is_empty());
    assert!(a.score.is_none() && !a.unanalyzed);
    assert_eq!(a.issues.len(), 1);
    let i = &a.issues[0];
    assert_eq!((i.line, i.column, i.severity), (1, 1, Severity::Error));
    assert_eq!(i.rule, "parse-error");
    assert_eq!(i.message, "Failed to read file: permission denied");
}

#[test]
fn analyze_files_keeps_the_order_of_the_run() {
    let inputs = vec![
        ("a.js".to_string(), Ok("function f() { debugger; }\n".to_string())),
        ("b.js".to_string(), Err("gone".to_string())),
        ("c.txt".to_string(), Ok("hello".to_string())),
    ];
    let out = analyze_files(&inputs, &CodopsyConfig::new(), &opts());
    assert_eq!(out.len(), 3);
    assert_eq!(out[0].file, "a.js");
    assert!(out[0].issues.iter().any(|i| i.rule == "no-debugger"));
    assert_eq!(out[1].issues[0].message, "Failed to read file: gone");
    assert!(out[2].issues.is_empty() && out[2].complexity.functions.is_empty());
}

#[test]
fn keep_changed_keeps_listed_files_in_order() {
    let files = vec!["/r/a.rs".to_string(), "/r/b.rs".to_string(), "/r/c.rs".to_string()];
    let changed = vec!["/r/c.rs".to_string(), "/r/a.rs".to_string(), "/r/z.rs".to_string()];
    assert_eq!(keep_changed(files, &changed), vec!["/r/a.rs".to_string(), "/r/c.rs".to_string()]);
}

#[test]
fn run_fails_only_for_the_requested_severity() {
    let s = summarize(&vec![file_with(vec![Severity::Warning], 1, 0)], 1);
    assert!(run_fails(&s, true, false));
    assert!(!run_fails(&s, false, true));
    assert!(!run_fails(&s, false, false));
    let e = summarize(&vec![file_with(vec![Severity::Error], 1, 0)], 1);
    assert!(run_fails(&e, false, true));
    assert!(!run_fails(&e, true, false));
}

#[test]
fn verbose_line_for_clean_and_failing_files() {
    assert_eq!(
        verbose_line(&file_with(vec![], 3, 2)),
        "  \u{1b}[32m✓ \u{1b}[36msrc/a.ts\u{1b}[0m (complexity: 3, cognitive: 2, issues: 0)"
    );
    assert_eq!(
        verbose_line(&file_with(vec![Severity::Error, Severity::Warning, Severity::Warning, Severity::Info], 12, 20)),
        "  \u{1b}[31m✗ \u{1b}[36msrc/a.ts\u{1b}[0m (complexity: 12, cognitive: 20, issues: 1 error, 2 warnings)"
    );
    assert_eq!(
        verbose_line(&file_with(vec![Severity::Info], 1, 0)),
        "  \u{1b}[31m✗ \u{1b}[36msrc/a.ts\u{1b}[0m (complexity: 1, cognitive: 0, issues: )"
    );
}

#[test]
fn hotspot_lines_have_a_heading_and_a_closing_blank() {
    let h = HotspotInfo {
        file: "src/a.rs".to_string(),
        commits: 12,
        authors: 3,
        complexity: 9,
        cognitive_complexity: 4,
        score_halves: 500,
        risk: "high".to_string(),
    };
    assert_eq!(
        hotspot_line(&h),
        "  \u{1b}[31mHIGH  \u{1b}[0m \u{1b}[36msrc/a.rs\u{1b}[0m (12 commits, 3 authors, complexity: 9)"
    );
    let r = HotspotResult { period: "6 months".to_string(), hotspots: vec![h] };
    let lines = hotspot_lines(&r);
    assert_eq!(lines.len(), 3);
    assert_eq!(lines[0], "\u{1b}[1m=== Hotspot Analysis (last 6 months) ===\u{1b}[0m");
    assert_eq!(lines[2], "");
    assert!(hotspot_lines(&HotspotResult { period: "6 months".to_string(), hotspots: vec![] }).is_empty());
}

#[test]
fn complexity_issues_and_complexity_points_agree() {
    let th = ScoringThresholds { cyclomatic_complexity: Some(10), cognitive_complexity: Some(15) };
    let config = CodopsyConfig::new();
    for (cc, cog, flagged) in [(10, 15, false), (11, 15, true), (3, 16, true)] {
        let mut fa = file_with(vec![], cc, cog);
        check_max_complexity(&mut fa, &config, th.cyclomatic_complexity);
        check_max_cognitive_complexity(&mut fa, &config, th.cognitive_complexity);
        let score = calculate_file_score(&fa, th, 40);
        assert_eq!(!fa.issues.is_empty(), flagged);
        assert_eq!(score.breakdown.complexity_halves == 70, !flagged);
    }
}

#[test]
fn comparison_lines_show_signs_and_files() {
    let c = BaselineComparison {
        status: "degraded".to_string(),
        overall: BaselineOverallComparison {
            issues_delta: 3,
            score_delta: -4,
            grade_before: "A".to_string(),
            grade_after: "B".to_string(),
        },
        new_files: 0,
        removed_files: 0,
        degraded_files: vec!["a.rs".to_string(), "b.rs".to_string()],
        improved_files: vec![],
    };
    assert_eq!(
        comparison_lines(&c),
        vec![
            "\u{1b}[1m=== Baseline Comparison ===\u{1b}[0m".to_string(),
            "  Status: \u{1b}[31mDEGRADED\u{1b}[0m".to_string(),
            "  Score:  A → B (\u{1b}[31m↓\u{1b}[0m -4) ".to_string(),
            "  Issues: +3".to_string(),
            "  Degraded: a.rs, b.rs".to_string(),
            "".to_string(),
        ]
    );
    let same = BaselineComparison {
        status: "unchanged".to_string(),
        overall: BaselineOverallComparison {
            issues_delta: 0,
            score_delta: 0,
            grade_before: "C".to_string(),
            grade_after: "C".to_string(),
        },
        new_files: 0,
        removed_files: 0,
        degraded_files: vec![],
        improved_files: vec!["c.rs".to_string()],
    };
    let lines = comparison_lines(&same);
    assert_eq!(lines[2], "  Score:  C → C (→ +0) ");
    assert_eq!(lines[3], "  Issues: +0");
    assert_eq!(lines[4], "  Improved: c.rs");
    assert_eq!(lines.len(), 6);
}

#[test]
fn summary_lines_show_score_counts_and_the_most_complex_function() {
    let files = vec![file_with(vec![Severity::Error, Severity::Warning], 12, 3)];
    let th = ScoringThresholds { cyclomatic_complexity: Some(10), cognitive_complexity: Some(15) };
    let r = build_analysis_result(files, &vec![28], 1, "/p", th, "t".to_string(), 75, 0);
    let lines = summary_lines(&r, "12.0");
    assert_eq!(
        lines,
        vec![
            "".to_string(),
            "\u{1b}[1m=== Analysis Summary ===\u{1b}[0m".to_string(),
            "  Quality Score:  \u{1b}[33mC\u{1b}[0m (75/100)".to_string(),
            "  Files analyzed: \u{1b}[1m1\u{1b}[0m".to_string(),
            "  Total issues:   \u{1b}[1m2\u{1b}[0m".to_string(),
            "    \u{1b}[31mError:\u{1b}[0m   1".to_string(),
            "    \u{1b}[33mWarning:\u{1b}[0m 1".to_string(),
            "    \u{1b}[34mInfo:\u{1b}[0m    0".to_string(),
            "  Avg complexity: 12.0".to_string(),
            "  Max complexity: 12 (f in \u{1b}[36msrc/a.ts\u{1b}[0m)".to_string(),
            "".to_string(),
        ]
    );
}
