use codopsy::analysis::{calculate_project_score, count_analyzed_issues};
use codopsy::defaults;
use codopsy::scoring::{calculate_file_score, issue_rule_groups, score_complexity_halves, score_structure};
use codopsy::types::{
    ComplexityResult, FileAnalysis, FileScore, FunctionComplexity, Grade, Issue, ScoreBreakdown,
    ScoringThresholds, Severity,
};

fn make_analysis(functions: Vec<FunctionComplexity>, issues: Vec<Issue>) -> FileAnalysis {
    FileAnalysis {
        file: "test.ts".to_string(),
        complexity: ComplexityResult {
            cyclomatic: functions.iter().map(|f| f.complexity).max().unwrap_or(0),
            cognitive: functions.iter().map(|f| f.cognitive_complexity).max().unwrap_or(0),
            functions,
        },
        issues,
        score: None,
        unanalyzed: false,
    }
}

fn make_issue(rule: &str, severity: Severity) -> Issue {
    Issue {
        file: "test.ts".to_string(),
        line: 1,
        column: 1,
        severity,
        rule: rule.to_string(),
        message: "test".to_string(),
    }
}

/// The historical hardcoded thresholds (10/15), for tests that don't
/// care about threshold configuration itself.
fn default_thresholds() -> ScoringThresholds {
    ScoringThresholds {
        cyclomatic_complexity: Some(10),
        cognitive_complexity: Some(15),
    }
}

/// The issues component: errors linearly, warnings sub-linearly (exponent
/// 0.7), info by square root, rounded and floored at 0.
fn score_issues(analysis: &FileAnalysis) -> u64 {
    let mut penalty = 0.0;
    for g in issue_rule_groups(&analysis.issues) {
        let n = g.count as f64;
        penalty += match g.severity {
            Severity::Error => 8.0 * n,
            Severity::Warning => 4.0 * n.powf(0.7),
            Severity::Info => n.sqrt(),
        };
    }
    (40.0 - penalty).round().max(0.0) as u64
}

fn file_score(analysis: &FileAnalysis, th: ScoringThresholds) -> FileScore {
    calculate_file_score(analysis, th, score_issues(analysis))
}

/// The complexity component in points.
fn score_complexity(analysis: &FileAnalysis, th: ScoringThresholds) -> f64 {
    score_complexity_halves(&analysis.complexity.functions, th) as f64 / 2.0
}

#[test]
fn perfect_score_for_clean_file() {
    let analysis = make_analysis(
        vec![FunctionComplexity {
            name: "main".to_string(),
            line: 1,
            complexity: 1,
            cognitive_complexity: 0,
        }],
        vec![],
    );
    let score = file_score(&analysis, default_thresholds());
    assert_eq!(score.score, 100);
    assert_eq!(score.grade, Grade::A);
}

#[test]
fn high_complexity_reduces_score() {
    let analysis = make_analysis(
        vec![FunctionComplexity {
            name: "complex".to_string(),
            line: 1,
            complexity: 25,
            cognitive_complexity: 30,
        }],
        vec![],
    );
    let score = file_score(&analysis, default_thresholds());
    assert!(score.score < 80, "Score should be reduced: {}", score.score);
}

#[test]
fn errors_penalize_more_than_warnings() {
    let error_analysis = make_analysis(vec![], vec![make_issue("no-eval", Severity::Error)]);
    let warning_analysis = make_analysis(vec![], vec![make_issue("no-var", Severity::Warning)]);

    let error_score = file_score(&error_analysis, default_thresholds());
    let warning_score = file_score(&warning_analysis, default_thresholds());
    assert!(error_score.score < warning_score.score);
}

#[test]
fn score_breakdown_sums_to_score() {
    let analysis = make_analysis(
        vec![FunctionComplexity {
            name: "complex".to_string(),
            line: 1,
            complexity: 25,
            cognitive_complexity: 30,
        }],
        vec![make_issue("no-var", Severity::Warning)],
    );
    let fs = file_score(&analysis, default_thresholds());
    let sum = fs.breakdown.complexity_halves as f64 / 2.0 + fs.breakdown.issues as f64 + fs.breakdown.structure as f64;
    assert_eq!(sum.round() as i32, fs.score);
}

#[test]
fn relaxed_threshold_improves_complexity_score() {
    let analysis = make_analysis(
        vec![FunctionComplexity {
            name: "mid".to_string(),
            line: 1,
            complexity: 18,
            cognitive_complexity: 25,
        }],
        vec![],
    );
    let strict = score_complexity(&analysis, default_thresholds());
    let relaxed = score_complexity(
        &analysis,
        ScoringThresholds {
            cyclomatic_complexity: Some(20),
            cognitive_complexity: Some(30),
        },
    );
    assert!(
        relaxed > strict,
        "relaxed threshold should score higher: strict={strict} relaxed={relaxed}"
    );
    assert_eq!(
        relaxed,
        defaults::WEIGHT_COMPLEXITY as f64,
        "under the relaxed threshold this function has no excess at all"
    );
}

#[test]
fn disabled_complexity_rule_never_penalizes() {
    let analysis = make_analysis(
        vec![FunctionComplexity {
            name: "huge".to_string(),
            line: 1,
            complexity: 500,
            cognitive_complexity: 500,
        }],
        vec![],
    );
    let score = score_complexity(
        &analysis,
        ScoringThresholds {
            cyclomatic_complexity: None,
            cognitive_complexity: None,
        },
    );
    assert_eq!(score, defaults::WEIGHT_COMPLEXITY as f64);
}

#[test]
fn threshold_issues_excluded_from_issue_scoring() {
    let analysis = make_analysis(vec![], vec![make_issue("max-complexity", Severity::Warning)]);
    // max-complexity is excluded from issue scoring, only affects structure
    let score = score_issues(&analysis);
    assert_eq!(score, defaults::WEIGHT_ISSUES);
}

/// The project's inputs the caller computes: the sqrt-weighted average of
/// the scored files and the issue-density penalty.
fn project_inputs(files: &Vec<FileAnalysis>) -> (i32, i32) {
    let mut weighted_sum = 0.0;
    let mut total_weight = 0.0;
    for f in files {
        if let Some(fs) = &f.score {
            let w = (f.complexity.functions.len() as f64 + 1.0).sqrt();
            weighted_sum += fs.score as f64 * w;
            total_weight += w;
        }
    }
    let base = if total_weight > 0.0 { (weighted_sum / total_weight).round() as i32 } else { 100 };
    let total = count_analyzed_issues(files) as f64;
    let density = (total.sqrt() * 0.8).round().min(15.0) as i32;
    (base, density)
}

#[test]
fn unanalyzed_file_is_excluded_from_project_score() {
    let mut clean = make_analysis(
        vec![FunctionComplexity {
            name: "f".to_string(),
            line: 1,
            complexity: 1,
            cognitive_complexity: 0,
        }],
        vec![],
    );
    clean.score = Some(FileScore {
        score: 100,
        grade: Grade::A,
        breakdown: ScoreBreakdown { complexity_halves: 70, issues: 40, structure: 25 },
    });
    let mut unreadable = make_analysis(vec![], vec![make_issue("syntax-error", Severity::Info)]);
    unreadable.unanalyzed = true;
    let files = vec![clean, unreadable];

    let (base, density) = project_inputs(&files);
    let project = calculate_project_score(&files, base, density);
    // Only the one clean file counts toward the distribution.
    assert_eq!(project.distribution.a, 1);
    let d = project.distribution;
    assert_eq!(
        d.a + d.b + d.c + d.d + d.f,
        1,
        "the unanalyzed file must not appear in any grade bucket"
    );
    // And it does not drag the average up as a phantom A.
    assert_eq!(project.overall, 100);
}

#[test]
fn empty_project_gets_perfect_score() {
    let files: Vec<FileAnalysis> = vec![];
    let (base, density) = project_inputs(&files);
    let project_score = calculate_project_score(&files, base, density);
    assert_eq!(project_score.overall, 100);
    assert_eq!(project_score.grade, Grade::A);
}

#[test]
fn complexity_penalties_are_capped_per_function() {
    let f = |cc: usize, cog: usize| FunctionComplexity {
        name: "g".to_string(),
        line: 1,
        complexity: cc,
        cognitive_complexity: cog,
    };
    // 12 over the cyclomatic threshold: 2 points each, capped at 15.
    assert_eq!(score_complexity_halves(&vec![f(22, 0)], default_thresholds()), 40);
    // 3 over the cognitive threshold: 1.5 points each.
    assert_eq!(score_complexity_halves(&vec![f(1, 18)], default_thresholds()), 61);
    // Two outliers exhaust the component.
    assert_eq!(score_complexity_halves(&vec![f(100, 100), f(100, 100), f(100, 100)], default_thresholds()), 0);
}

#[test]
fn structure_penalties_follow_threshold_rules() {
    let lines = vec![make_issue("max-lines", Severity::Warning)];
    assert_eq!(score_structure(&lines), 15);
    let depth: Vec<Issue> = (0..5).map(|_| make_issue("max-depth", Severity::Warning)).collect();
    assert_eq!(score_structure(&depth), 13);
    let params = vec![make_issue("max-params", Severity::Warning), make_issue("max-params", Severity::Warning)];
    assert_eq!(score_structure(&params), 19);
    let all: Vec<Issue> = vec![
        make_issue("max-lines", Severity::Warning),
        make_issue("max-lines", Severity::Warning),
        make_issue("max-depth", Severity::Warning),
        make_issue("max-depth", Severity::Warning),
        make_issue("max-depth", Severity::Warning),
        make_issue("max-params", Severity::Warning),
        make_issue("max-params", Severity::Warning),
        make_issue("max-params", Severity::Warning),
        make_issue("max-params", Severity::Warning),
    ];
    assert_eq!(score_structure(&all), 0);
}

#[test]
fn rule_groups_keep_first_severity_and_order() {
    let issues = vec![
        make_issue("no-var", Severity::Warning),
        make_issue("no-eval", Severity::Error),
        make_issue("no-var", Severity::Error),
        make_issue("max-lines", Severity::Warning),
    ];
    let groups = issue_rule_groups(&issues);
    assert_eq!(groups.len(), 2);
    assert_eq!(groups[0].rule, "no-var");
    assert_eq!(groups[0].severity, Severity::Warning);
    assert_eq!(groups[0].count, 2);
    assert_eq!(groups[1].rule, "no-eval");
    assert_eq!(groups[1].count, 1);
}

#[test]
fn file_score_is_rounded_half_up_and_graded() {
    let analysis = make_analysis(
        vec![FunctionComplexity { name: "g".to_string(), line: 1, complexity: 1, cognitive_complexity: 16 }],
        vec![],
    );
    let fs = calculate_file_score(&analysis, default_thresholds(), 10);
    // 33.5 + 10 + 25 = 68.5, rounded to 69.
    assert_eq!(fs.breakdown.complexity_halves, 67);
    assert_eq!(fs.score, 69);
    assert_eq!(fs.grade, Grade::D);
}
