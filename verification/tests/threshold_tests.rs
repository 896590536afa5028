use codopsy::grammar::parse_source;
use codopsy::language::SourceLanguage;
use codopsy::threshold::{check_max_depth, check_max_lines, count_effective_lines};
use codopsy::types::Severity;

#[test]
fn effective_lines_count_newlines_plus_one() {
    assert_eq!(count_effective_lines(""), 1);
    assert_eq!(count_effective_lines("a\nb\nc"), 3);
    assert_eq!(count_effective_lines("a\nb\n"), 3);
}

#[test]
fn effective_lines_stop_at_the_test_module() {
    let src = "fn a() {}\nfn b() {}\n  #[cfg(test)]\nmod tests {}\n";
    assert_eq!(count_effective_lines(src), 2);
}

#[test]
fn max_lines_reports_once_over_the_limit() {
    let src = "a\nb\nc\nd";
    assert!(check_max_lines(src, "f.rs", Severity::Warning, 4).is_empty());
    let issues = check_max_lines(src, "f.rs", Severity::Warning, 3);
    assert_eq!(issues.len(), 1);
    assert_eq!(issues[0].rule, "max-lines");
    assert_eq!(issues[0].line, 1);
    assert_eq!(issues[0].column, 1);
    assert_eq!(issues[0].message, "File has 4 lines (max: 3)");
}

#[test]
fn max_depth_flags_deep_nesting() {
    let src = "function f(a) { if (a) { if (a) { if (a) { if (a) { if (a) { return 1; } } } } } }";
    let t = parse_source(src, SourceLanguage::JavaScript).unwrap();
    let deep = check_max_depth(&t, "f.js", Severity::Warning, 4);
    assert!(deep.iter().any(|i| i.rule == "max-depth"));
    let ok = check_max_depth(&t, "f.js", Severity::Warning, 5);
    assert!(ok.is_empty());
}
