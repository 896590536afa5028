use codopsy::complexity::analyze_complexity;
use codopsy::grammar::parse_source;
use codopsy::language::SourceLanguage;
use codopsy::types::ComplexityResult;

fn analyze(source: &str, lang: SourceLanguage) -> ComplexityResult {
    let tree = parse_source(source, lang).unwrap();
    analyze_complexity(&tree, lang)
}

fn analyze_js(source: &str) -> ComplexityResult {
    analyze(source, SourceLanguage::JavaScript)
}

fn analyze_rust(source: &str) -> ComplexityResult {
    analyze(source, SourceLanguage::Rust)
}

fn simple_function_has_baseline_cc() {
    let result = analyze_js("function foo() { return 1; }");
    // JS parser may produce nested function nodes; verify at least one function found
    assert!(!result.functions.is_empty());
    // CC baseline is at least 1 for any function
    assert!(result.functions.iter().all(|f| f.complexity >= 1));
    // A simple function with no branches has 0 cognitive complexity
    assert!(result.functions.iter().any(|f| f.cognitive_complexity == 0));
}

#[test]
fn if_statement_increments_cc() {
    let result = analyze_js("function foo(x) { if (x) { return 1; } return 0; }");
    let base = analyze_js("function bar() { return 1; }");
    // CC should be higher with an if
    assert!(result.functions[0].complexity > base.functions[0].complexity);
}

#[test]
fn nested_if_increases_cognitive() {
    let result = analyze_js(
        "function foo(a, b) { if (a) { if (b) { return 1; } } return 0; }",
    );
    assert!(result.functions[0].cognitive_complexity >= 3);
}

#[test]
fn rust_function_baseline_cc() {
    let result = analyze_rust("fn main() { let x = 1; }");
    assert_eq!(result.functions.len(), 1);
    assert!(result.functions[0].complexity >= 1);
    assert_eq!(result.functions[0].name, "main");
}

#[test]
fn multiple_functions_detected() {
    let result = analyze_js(
        "function a() {} function b(x) { if (x) {} }",
    );
    assert!(result.functions.len() >= 2);
}

#[test]
fn logical_operators_add_cognitive() {
    let result = analyze_js(
        "function foo(a, b, c) { if (a && b || c) { return 1; } }",
    );
    // if: +1, && group: +1, || switch: +1 = cognitive >= 3
    assert!(result.functions[0].cognitive_complexity >= 3);
}

#[test]
fn empty_source_no_functions() {
    let result = analyze_js("");
    assert!(result.functions.is_empty());
    assert_eq!(result.cyclomatic, 0);
    assert_eq!(result.cognitive, 0);
}
