use codopsy::grammar::parse_source;
use codopsy::language::SourceLanguage;
use codopsy::lint::run_check;
use codopsy::rules::Rule;
use codopsy::types::Severity;

fn check_empty_fn(src: &str, lang: SourceLanguage) -> bool {
    let tree = parse_source(src, lang).unwrap();
    let issues = run_check(&tree, "test", Rule::EmptyFunction, Severity::Warning);
    issues.iter().any(|i| i.rule == "no-empty-function")
}

fn check_todo(src: &str, lang: SourceLanguage) -> bool {
    let tree = parse_source(src, lang).unwrap();
    let issues = run_check(&tree, "test", Rule::TodoComment, Severity::Info);
    issues.iter().any(|i| i.rule == "todo-comment")
}

#[test]
fn empty_function_go() {
    assert!(check_empty_fn("package main\nfunc empty() {}", SourceLanguage::Go));
    assert!(!check_empty_fn("package main\nfunc notempty() { return }", SourceLanguage::Go));
}

#[test]
fn empty_function_ruby() {
    assert!(check_empty_fn("def empty\nend", SourceLanguage::Ruby));
}

#[test]
fn empty_function_lua() {
    assert!(check_empty_fn("function empty()\nend", SourceLanguage::Lua));
}

#[test]
fn empty_function_swift() {
    assert!(check_empty_fn("func empty() {}", SourceLanguage::Swift));
}

#[test]
fn empty_function_java() {
    assert!(check_empty_fn("class T { void empty() {} }", SourceLanguage::Java));
}

#[test]
fn empty_function_cpp() {
    assert!(check_empty_fn("void empty() {}", SourceLanguage::Cpp));
}

#[test]
fn empty_function_elixir() {
    assert!(check_empty_fn("def empty do\nend", SourceLanguage::Elixir));
}

#[test]
fn python_pass_is_not_empty() {
    assert!(!check_empty_fn("def foo():\n    pass", SourceLanguage::Python));
}

#[test]
fn todo_comment_various_languages() {
    assert!(check_todo("// TODO: fix", SourceLanguage::JavaScript));
    assert!(check_todo("# TODO: fix", SourceLanguage::Python));
    assert!(check_todo("# FIXME: fix", SourceLanguage::Ruby));
    assert!(check_todo("// HACK: fix", SourceLanguage::Rust));
}

#[test]
fn empty_function_reports_line_and_column() {
    let tree = parse_source("\n  function f() {}", SourceLanguage::JavaScript).unwrap();
    let issues = run_check(&tree, "a.js", Rule::EmptyFunction, Severity::Warning);
    let hit = issues.iter().find(|i| i.rule == "no-empty-function").unwrap();
    assert_eq!(hit.line, 2);
    assert_eq!(hit.column, 3);
    assert_eq!(hit.file, "a.js");
    assert_eq!(hit.severity, Severity::Warning);
}
