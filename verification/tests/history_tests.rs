use codopsy::history::{changed_files_from_diff, churn_stats_from_log};

const H1: &str = "0123456789abcdef0123456789abcdef01234567";
const H2: &str = "89abcdef0123456789abcdef0123456789abcdef";

#[test]
fn churn_counts_distinct_commits_and_authors() {
    let log = format!(
        "{H1} Alice\n\nsrc/a.rs\nsrc/b.rs\n\n{H2} Bob Smith\n\nsrc/a.rs\n{H2} Bob Smith\nsrc/a.rs\n"
    );
    let stats = churn_stats_from_log(&log);
    assert_eq!(stats.len(), 2);
    assert_eq!(stats[0].0, "src/a.rs");
    assert_eq!(stats[0].1.commits, 2);
    assert_eq!(stats[0].1.authors, 2);
    assert_eq!(stats[1].0, "src/b.rs");
    assert_eq!(stats[1].1.commits, 1);
    assert_eq!(stats[1].1.authors, 1);
}

#[test]
fn short_or_non_hex_headers_are_file_lines() {
    let log = format!("{H1}\nnot-a-hash Alice\n");
    let stats = churn_stats_from_log(&log);
    assert_eq!(stats.len(), 2);
    assert_eq!(stats[0].0, H1);
    assert_eq!(stats[1].0, "not-a-hash Alice");
    assert!(churn_stats_from_log("").is_empty());
}

#[test]
fn changed_files_are_joined_to_the_repo_root() {
    let out = changed_files_from_diff("src/a.rs\n\n  lib/b.go  \n", "/repo");
    assert_eq!(out, vec!["/repo/src/a.rs".to_string(), "/repo/lib/b.go".to_string()]);
    assert!(changed_files_from_diff("", "/repo").is_empty());
}
