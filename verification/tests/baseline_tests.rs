use codopsy::analysis::{attach_score, build_analysis_result, AnalysisResult};
use codopsy::baseline::{compare_with_baseline, create_baseline, Baseline};
use codopsy::types::{ComplexityResult, FileAnalysis, FunctionComplexity, Issue, ScoringThresholds, Severity};

fn th() -> ScoringThresholds {
    ScoringThresholds { cyclomatic_complexity: Some(10), cognitive_complexity: Some(15) }
}

fn fa(file: &str, cc: usize, issues: Vec<Severity>, points: u64) -> FileAnalysis {
    let mut a = FileAnalysis {
        file: file.to_string(),
        complexity: ComplexityResult {
            cyclomatic: cc,
            cognitive: 2,
            functions: vec![FunctionComplexity { name: "f".to_string(), line: 1, complexity: cc, cognitive_complexity: 2 }],
        },
        issues: issues
            .into_iter()
            .map(|s| Issue {
                file: file.to_string(),
                line: 1,
                column: 1,
                severity: s,
                rule: "r".to_string(),
                message: String::new(),
            })
            .collect(),
        score: None,
        unanalyzed: false,
    };
    attach_score(&mut a, th(), points);
    a
}

fn run(files: Vec<FileAnalysis>, base: i32) -> AnalysisResult {
    let n = files.len();
    let points: Vec<u64> = files.iter().map(|f| f.score.as_ref().map_or(40, |s| s.breakdown.issues)).collect();
    build_analysis_result(files, &points, n, "/p", th(), "t".to_string(), base, 0)
}

#[test]
fn baseline_entries_are_relative_and_sorted() {
    let r = run(vec![fa("/p/src/z.rs", 3, vec![Severity::Error, Severity::Warning], 30), fa("/p/src/a.rs", 12, vec![], 40)], 90);
    let b = create_baseline(&r);
    assert_eq!(b.version, 1);
    assert_eq!(b.timestamp, "t");
    assert_eq!(b.files.len(), 2);
    assert_eq!(b.files[0].file, "src/a.rs");
    assert_eq!(b.files[0].max_cyclomatic, 12);
    assert_eq!(b.files[0].score, 96);
    assert_eq!(b.files[1].file, "src/z.rs");
    assert_eq!(b.files[1].issue_count, 2);
    assert_eq!(b.files[1].error_count, 1);
    assert_eq!(b.files[1].warning_count, 1);
    assert_eq!(b.files[1].max_cognitive, 2);
    assert_eq!(b.overall.total_issues, 2);
    assert_eq!(b.overall.total_errors, 1);
    assert_eq!(b.overall.average_complexity_tenths, 75);
    assert_eq!(b.overall.score, 90);
    assert_eq!(b.overall.grade, "A");
}

fn snapshot(r: &AnalysisResult) -> Baseline {
    create_baseline(r)
}

#[test]
fn comparison_reports_moved_new_and_removed_files() {
    let before = run(vec![fa("/p/a.rs", 1, vec![], 40), fa("/p/b.rs", 1, vec![], 40), fa("/p/gone.rs", 1, vec![], 40)], 100);
    let baseline = snapshot(&before);
    let after = run(
        vec![fa("/p/a.rs", 1, vec![Severity::Error], 32), fa("/p/b.rs", 1, vec![], 40), fa("/p/new.rs", 1, vec![], 40)],
        97,
    );
    let c = compare_with_baseline(&after, &baseline);
    assert_eq!(c.status, "degraded");
    assert_eq!(c.overall.score_delta, -3);
    assert_eq!(c.overall.issues_delta, 1);
    assert_eq!(c.overall.grade_before, "A");
    assert_eq!(c.overall.grade_after, "A");
    assert_eq!(c.new_files, 1);
    assert_eq!(c.removed_files, 1);
    assert_eq!(c.degraded_files, vec!["a.rs".to_string()]);
    assert!(c.improved_files.is_empty());
}

#[test]
fn comparison_against_itself_is_unchanged() {
    let r = run(vec![fa("/p/a.rs", 1, vec![Severity::Warning], 36)], 96);
    let b = snapshot(&r);
    let c = compare_with_baseline(&r, &b);
    assert_eq!(c.status, "unchanged");
    assert_eq!(c.overall.score_delta, 0);
    assert_eq!(c.overall.issues_delta, 0);
    assert_eq!(c.new_files, 0);
    assert_eq!(c.removed_files, 0);
}

#[test]
fn fewer_issues_is_an_improvement() {
    let before = run(vec![fa("/p/a.rs", 1, vec![Severity::Warning], 36)], 96);
    let b = snapshot(&before);
    let after = run(vec![fa("/p/a.rs", 1, vec![], 40)], 96);
    let c = compare_with_baseline(&after, &b);
    assert_eq!(c.status, "improved");
    assert_eq!(c.improved_files, vec!["a.rs".to_string()]);
}
