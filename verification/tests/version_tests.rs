use codopsy::config::{CodopsyConfig, RuleConfig};
use codopsy::grammar::parse_source;
use codopsy::language::SourceLanguage;
use codopsy::syntax::{SyntaxNode, SyntaxTree};
use codopsy::types::{Issue, Severity};
use codopsy::version::{
    check_version_features, parse_go_directive, version_older, GO_GENERIC_METHODS_MAJOR,
    GO_GENERIC_METHODS_MINOR,
};

const GO_GENERIC_METHODS_SINCE: (u32, u32) = (GO_GENERIC_METHODS_MAJOR, GO_GENERIC_METHODS_MINOR);

#[test]
fn parses_go_directive_variants() {
    assert_eq!(parse_go_directive("module x\n\ngo 1.27\n"), Some((1, 27)));
    assert_eq!(parse_go_directive("go 1.27.0"), Some((1, 27)));
    assert_eq!(parse_go_directive("go 1.27rc2"), Some((1, 27)));
    assert_eq!(parse_go_directive("go 1.21  \n"), Some((1, 21)));
    assert_eq!(parse_go_directive("go 1.27.3 // comment"), Some((1, 27)));
}

#[test]
fn ignores_toolchain_and_other_lines() {
    let go_mod = "module example.com/x\n\ngo 1.26\n\ntoolchain go1.27.0\n";
    // The `go` directive wins, not the toolchain line.
    assert_eq!(parse_go_directive(go_mod), Some((1, 26)));
}

#[test]
fn returns_none_without_a_go_directive() {
    assert_eq!(parse_go_directive("module x\n"), None);
    assert_eq!(parse_go_directive(""), None);
}

fn go_issues_in(tree: &SyntaxTree, config: &CodopsyConfig) -> Vec<Issue> {
    check_version_features(tree, SourceLanguage::Go, "x.go", config, Some((1, 26)))
}

fn go_issues(src: &str, config: &CodopsyConfig) -> Vec<Issue> {
    go_issues_in(&parse_source(src, SourceLanguage::Go).unwrap(), config)
}

/// The Go grammar linked here predates generic methods (it reads their type
/// parameters as an error), so a generic method is made from a parsed plain
/// method by giving it the `type_parameters` child the newer grammar builds.
fn generic_method_tree() -> SyntaxTree {
    let src = "package x\ntype S[T any] struct{}\nfunc (s S[T]) Map(f func(T) int) {}\n";
    let mut t = parse_source(src, SourceLanguage::Go).unwrap();
    let m = t.nodes.iter().position(|n| n.kind == "method_declaration").unwrap();
    let at = t.nodes.len();
    let (start, row, column) = (t.nodes[m].start_byte, t.nodes[m].row, t.nodes[m].column);
    t.nodes.push(SyntaxNode {
        kind: "type_parameter_list".to_string(),
        named: true,
        field: Some("type_parameters".to_string()),
        parent: Some(m),
        children: vec![],
        start_byte: start,
        end_byte: start,
        row,
        column,
    });
    t.nodes[m].children.push(at);
    t
}

#[test]
fn detects_generic_method_only() {
    let cfg = CodopsyConfig::new();
    // Generic method -> flagged.
    let m = "package x
type S[T any] struct{}
func (s S[T]) Map[U any](f func(T) U) {}
";
    assert!(m.contains("Map[U any]"));
    assert_eq!(go_issues_in(&generic_method_tree(), &cfg).len(), 1);
    // Generic *function* (1.18) -> not flagged.
    let f = "package x
func Map[T, U any](x T) U { var u U; return u }
";
    assert_eq!(go_issues(f, &cfg).len(), 0);
    // Plain method -> not flagged.
    let p = "package x
type S struct{}
func (s S) M() {}
";
    assert_eq!(go_issues(p, &cfg).len(), 0);
}

#[test]
fn version_ordering_is_by_major_then_minor() {
    assert!(version_older((1, 26), GO_GENERIC_METHODS_SINCE));
    assert!(!version_older((1, 27), GO_GENERIC_METHODS_SINCE));
    assert!(!version_older((2, 0), GO_GENERIC_METHODS_SINCE));
}

#[test]
fn generic_method_issue_names_the_declared_version() {
    let issues = go_issues_in(&generic_method_tree(), &CodopsyConfig::new());
    assert_eq!(issues.len(), 1);
    assert_eq!(issues[0].rule, "go-generic-method");
    assert_eq!(issues[0].severity, Severity::Warning);
    assert_eq!(issues[0].line, 3);
    assert_eq!(issues[0].file, "x.go");
    assert_eq!(
        issues[0].message,
        "Generic methods require go1.27, but go.mod declares go1.26"
    );
}

#[test]
fn generic_methods_are_fine_from_go_1_27_or_without_go_mod() {
    let tree = generic_method_tree();
    let cfg = CodopsyConfig::new();
    assert!(check_version_features(&tree, SourceLanguage::Go, "x.go", &cfg, Some((1, 27))).is_empty());
    assert!(check_version_features(&tree, SourceLanguage::Go, "x.go", &cfg, None).is_empty());
}

#[test]
fn generic_method_rule_can_be_disabled_or_reweighted() {
    let tree = generic_method_tree();
    let off = CodopsyConfig {
        plugins: None,
        rules: Some(vec![("go-generic-method".to_string(), RuleConfig::Disabled(false))]),
    };
    assert!(check_version_features(&tree, SourceLanguage::Go, "x.go", &off, Some((1, 20))).is_empty());
    let err = CodopsyConfig {
        plugins: None,
        rules: Some(vec![("go-generic-method".to_string(), RuleConfig::Severity(Severity::Error))]),
    };
    let issues = check_version_features(&tree, SourceLanguage::Go, "x.go", &err, Some((1, 20)));
    assert_eq!(issues.len(), 1);
    assert_eq!(issues[0].severity, Severity::Error);
}

#[test]
fn malformed_go_directives_are_skipped() {
    assert_eq!(parse_go_directive("go\ngo 1.22\n"), Some((1, 22)));
    assert_eq!(parse_go_directive("go 1\n"), None);
    assert_eq!(parse_go_directive("gopher 1.2\n"), None);
    assert_eq!(parse_go_directive("  go 1.23\n"), Some((1, 23)));
}
