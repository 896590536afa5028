use codopsy::analysis::{
    analyze_file_source, analyze_source, attach_score, build_analysis_result, calculate_project_score,
    check_max_complexity, count_analyzed_issues, grade_distribution, summarize, AnalyzeOptions,
};
use codopsy::config::CodopsyConfig;
use codopsy::types::{
    ComplexityResult, FileAnalysis, FunctionComplexity, Grade, Issue, ScoringThresholds, Severity,
};

fn th() -> ScoringThresholds {
    ScoringThresholds { cyclomatic_complexity: Some(10), cognitive_complexity: Some(15) }
}

fn fa(file: &str, fns: Vec<(&str, usize)>, issues: Vec<Severity>) -> FileAnalysis {
    FileAnalysis {
        file: file.to_string(),
        complexity: ComplexityResult {
            cyclomatic: fns.iter().map(|f| f.1).max().unwrap_or(0),
            cognitive: 0,
            functions: fns
                .into_iter()
                .map(|(n, c)| FunctionComplexity { name: n.to_string(), line: 1, complexity: c, cognitive_complexity: 0 })
                .collect(),
        },
        issues: issues
            .into_iter()
            .map(|s| Issue {
                file: file.to_string(),
                line: 1,
                column: 1,
                severity: s,
                rule: "r".to_string(),
                message: String::new(),
            })
            .collect(),
        score: None,
        unanalyzed: false,
    }
}

#[test]
fn unknown_language_yields_an_empty_analysis() {
    let a = analyze_source("notes.txt", "whatever", &CodopsyConfig::new());
    assert_eq!(a.file, "notes.txt");
    assert!(a.issues.is_empty());
    assert!(a.complexity.functions.is_empty());
    assert!(!a.unanalyzed);
}

#[test]
fn file_without_grammar_is_unanalyzed() {
    let a = analyze_source("x.lean", "theorem t : True := trivial", &CodopsyConfig::new());
    assert!(a.unanalyzed);
    assert_eq!(a.issues.len(), 1);
    assert_eq!(a.issues[0].rule, "parse-error");
    assert_eq!(a.issues[0].severity, Severity::Error);
    assert_eq!(a.issues[0].message, "Failed to parse file");
}

#[test]
fn javascript_file_is_measured_and_linted() {
    let a = analyze_source("a.js", "var x = 1;\nfunction f(y) { if (y) { return 1; } return 2; }", &CodopsyConfig::new());
    assert!(!a.unanalyzed);
    assert_eq!(a.complexity.functions.len(), 1);
    assert_eq!(a.complexity.functions[0].name, "f");
    assert_eq!(a.complexity.functions[0].complexity, 2);
    assert!(a.issues.iter().any(|i| i.rule == "no-var" && i.line == 1));
}

#[test]
fn complexity_threshold_issue_names_the_function() {
    let mut a = fa("a.js", vec![("big", 12), ("small", 3)], vec![]);
    check_max_complexity(&mut a, &CodopsyConfig::new(), Some(10));
    assert_eq!(a.issues.len(), 1);
    assert_eq!(a.issues[0].rule, "max-complexity");
    assert_eq!(a.issues[0].message, "Function \"big\" has a cyclomatic complexity of 12 (threshold: 10)");
    let mut b = fa("a.js", vec![("big", 12)], vec![]);
    check_max_complexity(&mut b, &CodopsyConfig::new(), None);
    assert!(b.issues.is_empty());
}

#[test]
fn analyze_file_source_adds_threshold_issues() {
    let src = "function f(a){ if(a){} if(a){} if(a){} if(a){} if(a){} if(a){} if(a){} if(a){} if(a){} if(a){} }";
    let a = analyze_file_source("a.js", src, &CodopsyConfig::new(), &AnalyzeOptions::new());
    assert!(a.issues.iter().any(|i| i.rule == "max-complexity"));
}

#[test]
fn scores_are_attached_to_analyzed_files_only() {
    let mut ok = fa("a.rs", vec![("f", 1)], vec![]);
    attach_score(&mut ok, th(), 40);
    assert_eq!(ok.score.unwrap().score, 100);
    let mut bad = fa("b.rs", vec![], vec![Severity::Error]);
    bad.unanalyzed = true;
    attach_score(&mut bad, th(), 40);
    assert!(bad.score.is_none());
}

#[test]
fn summary_counts_issues_and_finds_the_most_complex_function() {
    let files = vec![
        fa("a.rs", vec![("f", 4), ("g", 9)], vec![Severity::Error, Severity::Warning]),
        fa("b.rs", vec![("h", 9)], vec![Severity::Info, Severity::Warning]),
    ];
    let s = summarize(&files, 3);
    assert_eq!(s.total_files, 3);
    assert_eq!(s.total_issues, 4);
    assert_eq!(s.issues_by_severity.error, 1);
    assert_eq!(s.issues_by_severity.warning, 2);
    assert_eq!(s.issues_by_severity.info, 1);
    assert_eq!(s.complexity_sum, 22);
    assert_eq!(s.function_count, 3);
    let m = s.max_complexity.unwrap();
    assert_eq!(m.complexity, 9);
    assert_eq!(m.file, "b.rs");
    assert_eq!(m.function, "h");
}

#[test]
fn project_score_subtracts_the_density_penalty() {
    let mut a = fa("a.rs", vec![("f", 1)], vec![]);
    attach_score(&mut a, th(), 40);
    let mut b = fa("b.rs", vec![("f", 30)], vec![]);
    attach_score(&mut b, th(), 40);
    let files = vec![a, b];
    let d = grade_distribution(&files);
    assert_eq!(d.a, 1);
    assert_eq!(d.b, 1);
    let p = calculate_project_score(&files, 90, 5);
    assert_eq!(p.overall, 85);
    assert_eq!(p.grade, Grade::B);
    assert_eq!(calculate_project_score(&files, 3, 5).overall, 0);
    assert_eq!(count_analyzed_issues(&files), 0);
}

#[test]
fn analysis_result_carries_summary_and_score() {
    let a = fa("a.rs", vec![("f", 1)], vec![Severity::Warning]);
    let r = build_analysis_result(vec![a], &vec![36], 1, "/p", th(), "2024-01-01T00:00:00Z".to_string(), 96, 1);
    assert_eq!(r.target_dir, "/p");
    assert_eq!(r.summary.total_issues, 1);
    let fs = r.files[0].score.as_ref().unwrap();
    assert_eq!(fs.breakdown.issues, 36);
    let s = r.score.unwrap();
    assert_eq!(s.overall, 95);
    assert_eq!(s.grade, Grade::A);
    assert_eq!(s.distribution.a, 1);
}

#[test]
fn json_file_is_read_with_its_grammar() {
    let a = analyze_source("conf/settings.json", "{\"a\": {\"b\": {\"c\": 1}}}\n", &CodopsyConfig::new());
    assert!(!a.unanalyzed);
    assert!(a.complexity.functions.is_empty());
    assert!(a.issues.iter().all(|i| i.rule != "parse-error"));
}

#[test]
fn a_file_the_grammar_mostly_cannot_read_is_unanalyzed() {
    let bad = analyze_source("web/a.js", "))))))))))))))))))))))))))))))\nlet x = 1;\n", &CodopsyConfig::new());
    assert!(bad.unanalyzed);
    let ok = analyze_source(
        "web/b.js",
        "let x = 1;\nlet y = 2;\nlet z = 3;\nlet w = 4;\nlet v = 5;\nlet u = 6;\n)\n",
        &CodopsyConfig::new(),
    );
    assert!(!ok.unanalyzed);
    let clean = analyze_source("web/c.js", "function f() { return 1; }\n", &CodopsyConfig::new());
    assert!(!clean.unanalyzed);
    assert_eq!(clean.complexity.cyclomatic, 1);
}

#[test]
fn unknown_language_and_unreadable_files_have_zero_totals() {
    let a = analyze_source("notes.txt", "anything", &CodopsyConfig::new());
    assert_eq!((a.complexity.cyclomatic, a.complexity.cognitive), (0, 0));
    let u = codopsy::analysis::unreadable_file("x.rs", "gone");
    assert_eq!((u.complexity.cyclomatic, u.complexity.cognitive), (0, 0));
}

#[test]
fn analysis_result_scores_analyzed_files_with_their_points() {
    let mut files = vec![fa("a.rs", vec![("f", 1)], vec![]), fa("b.rs", vec![("g", 1)], vec![])];
    files[1].unanalyzed = true;
    let r = build_analysis_result(files, &vec![30, 40], 2, "/p", th(), "t".to_string(), 90, 0);
    let s = r.files[0].score.as_ref().unwrap();
    assert_eq!(s.breakdown.issues, 30);
    assert_eq!(s.score, 90);
    assert!(r.files[1].score.is_none());
    assert_eq!(r.summary.unanalyzed_files, 1);
    assert_eq!(r.score.unwrap().distribution.a, 1);
}

#[test]
fn a_file_without_a_tree_records_a_parse_failure() {
    let a = codopsy::analysis::analyze_parsed("x.rs", codopsy::language::SourceLanguage::Rust, &None, &CodopsyConfig::new());
    assert!(a.unanalyzed && a.score.is_none());
    assert_eq!((a.complexity.cyclomatic, a.complexity.cognitive), (0, 0));
    assert_eq!(a.issues.len(), 1);
    assert_eq!(a.issues[0].message, "Failed to parse file");
}
