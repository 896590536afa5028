use codopsy::hotspot::{churn_key, classify_risk, detect_hotspots, ChurnStats};
use codopsy::types::{ComplexityResult, FileAnalysis, FunctionComplexity};

#[test]
fn churn_key_is_relative_to_the_repo_root() {
    assert_eq!(
        churn_key("/repo/src/analyzer/linter.rs", Some("/repo")),
        "src/analyzer/linter.rs"
    );
}

#[test]
fn churn_key_falls_back_to_the_full_path_outside_a_repo() {
    assert_eq!(churn_key("/elsewhere/a.rs", None), "/elsewhere/a.rs");
    assert_eq!(churn_key("/elsewhere/a.rs", Some("/repo")), "/elsewhere/a.rs");
}

#[test]
fn churn_key_matches_whole_components_only() {
    assert_eq!(churn_key("/repository/a.rs", Some("/repo")), "/repository/a.rs");
}

#[test]
fn risk_levels() {
    assert_eq!(classify_risk(0), "low");
    assert_eq!(classify_risk(60), "low");
    assert_eq!(classify_risk(61), "medium");
    assert_eq!(classify_risk(200), "medium");
    assert_eq!(classify_risk(201), "high");
}

fn file(name: &str, cc: usize, cog: usize) -> FileAnalysis {
    FileAnalysis {
        file: name.to_string(),
        complexity: ComplexityResult {
            cyclomatic: cc,
            cognitive: cog,
            functions: vec![FunctionComplexity {
                name: "f".to_string(),
                line: 1,
                complexity: cc,
                cognitive_complexity: cog,
            }],
        },
        issues: vec![],
        score: None,
        unanalyzed: false,
    }
}

#[test]
fn hotspots_are_ranked_by_score_and_truncated() {
    let files = vec![file("/r/a.rs", 2, 2), file("/r/b.rs", 10, 4), file("/r/c.rs", 5, 0)];
    let churn = vec![
        ("a.rs".to_string(), ChurnStats { commits: 3, authors: 1 }),
        ("b.rs".to_string(), ChurnStats { commits: 10, authors: 2 }),
        ("c.rs".to_string(), ChurnStats { commits: 0, authors: 0 }),
    ];
    let r = detect_hotspots(&files, &churn, Some("/r"), 6, 5);
    assert_eq!(r.hotspots.len(), 2);
    assert_eq!(r.hotspots[0].file, "b.rs");
    // 10 commits x (10 + 4 / 2) = 120 points, 240 in halves.
    assert_eq!(r.hotspots[0].score_halves, 240);
    assert_eq!(r.hotspots[0].risk, "high");
    assert_eq!(r.hotspots[1].file, "a.rs");
    assert_eq!(r.hotspots[1].score_halves, 18);
    assert_eq!(r.hotspots[1].risk, "low");
    let top1 = detect_hotspots(&files, &churn, Some("/r"), 6, 1);
    assert_eq!(top1.hotspots.len(), 1);
    assert_eq!(top1.hotspots[0].file, "b.rs");
}

#[test]
fn hotspot_period_names_the_months() {
    let r = detect_hotspots(&vec![], &vec![], None, 6, 10);
    assert_eq!(r.period, "6 months");
    assert!(r.hotspots.is_empty());
}
