use codopsy::config::CodopsyConfig;
use codopsy::grammar::parse_source;
use codopsy::language::SourceLanguage;
use codopsy::lint::lint_file;
use codopsy::types::Issue;

fn lint(source: &str, file: &str, lang: SourceLanguage) -> Vec<Issue> {
    let tree = parse_source(source, lang).unwrap();
    lint_file(file, &tree, &CodopsyConfig::new(), lang)
}

fn has(issues: &[Issue], rule: &str) -> bool {
    issues.iter().any(|i| i.rule == rule)
}

#[test]
fn ruby_rules_fire() {
    let issues = lint("puts \"hi\"\neval(\"1\")\nrequire \"./lib/x\"\n", "app.rb", SourceLanguage::Ruby);
    assert!(has(&issues, "no-puts"));
    assert!(has(&issues, "no-eval"));
    assert!(has(&issues, "require-relative"));
    let quiet = lint("require \"json\"\nlogger.info(\"hi\")\n", "app.rb", SourceLanguage::Ruby);
    assert!(!has(&quiet, "no-puts"));
    assert!(!has(&quiet, "require-relative"));
}

#[test]
fn ruby_sleep_is_allowed_in_tests() {
    assert!(has(&lint("sleep 1\n", "worker.rb", SourceLanguage::Ruby), "no-sleep"));
    assert!(!has(&lint("sleep 1\n", "worker_spec.rb", SourceLanguage::Ruby), "no-sleep"));
}

#[test]
fn php_rules_fire() {
    let issues = lint("<?php\nvar_dump($x);\neval($code);\nif ($a == $b) {}\n$v = @file($f);\n", "a.php", SourceLanguage::Php);
    assert!(has(&issues, "no-debug-output"));
    assert!(has(&issues, "no-eval"));
    assert!(has(&issues, "strict-comparison"));
    assert!(has(&issues, "no-error-suppression"));
    let quiet = lint("<?php\nif ($a === $b) {}\n", "a.php", SourceLanguage::Php);
    assert!(!has(&quiet, "strict-comparison"));
}

#[test]
fn lua_rules_fire() {
    let issues = lint("print(count)\nos.execute(\"ls\")\nloadstring(\"x\")\n", "a.lua", SourceLanguage::Lua);
    assert!(has(&issues, "no-print"));
    assert!(has(&issues, "no-os-execute"));
    assert!(has(&issues, "no-loadstring"));
    let quiet = lint("log(count)\n", "a.lua", SourceLanguage::Lua);
    assert!(!has(&quiet, "no-print"));
}

#[test]
fn swift_rules_fire() {
    let issues = lint("print(x)\nfatalError(\"no\")\nNSLog(\"x\")\n", "a.swift", SourceLanguage::Swift);
    assert!(has(&issues, "no-nslog"));
    assert!(has(&issues, "no-print"));
    assert!(has(&issues, "no-fatal-error"));
}

#[test]
fn haskell_rules_fire() {
    let issues = lint("f xs = head xs\ng = undefined\n", "A.hs", SourceLanguage::Haskell);
    assert!(has(&issues, "no-partial-function"));
    assert!(has(&issues, "no-undefined"));
}

#[test]
fn scala_rules_fire() {
    let issues = lint("object A { var x = 1; val y = null; def f() = { println(\"a\"); return 1 } }", "A.scala", SourceLanguage::Scala);
    assert!(has(&issues, "no-var"));
    assert!(has(&issues, "no-null"));
    assert!(has(&issues, "no-println"));
    assert!(has(&issues, "no-return"));
}

#[test]
fn dart_rules_fire() {
    let issues = lint("void main() { dynamic x = 1; print(x); }", "a.dart", SourceLanguage::Dart);
    assert!(has(&issues, "no-dynamic"));
    assert!(has(&issues, "no-print"));
}

#[test]
fn julia_rules_fire() {
    let issues = lint("x = 1\nprintln(x)\n", "a.jl", SourceLanguage::Julia);
    assert!(has(&issues, "no-global-mutable"));
    assert!(has(&issues, "no-println"));
    let quiet = lint("const x = 1\n", "a.jl", SourceLanguage::Julia);
    assert!(!has(&quiet, "no-global-mutable"));
}

#[test]
fn elm_rules_fire() {
    let src = "module Main exposing (main)\n\nimport Html\nimport Dict\n\nmain = Html.text (Debug.toString 1)\n";
    let issues = lint(src, "Main.elm", SourceLanguage::Elm);
    assert!(has(&issues, "no-debug"));
    let unused: Vec<&Issue> = issues.iter().filter(|i| i.rule == "unused-import").collect();
    assert_eq!(unused.len(), 1);
    assert_eq!(unused[0].message, "`Dict` imported but unused");
    assert_eq!(unused[0].line, 4);
}

#[test]
fn bash_rules_fire() {
    let issues = lint("#!/bin/bash\ncd /tmp\nrm -rf $DIR/*\necho $HOME\ncat f.txt | grep x\n", "a.sh", SourceLanguage::Bash);
    assert!(has(&issues, "cd-without-or"));
    assert!(has(&issues, "dangerous-rm"));
    assert!(has(&issues, "unquoted-expansion"));
    assert!(has(&issues, "useless-cat"));
    let set_e: Vec<&Issue> = issues.iter().filter(|i| i.rule == "no-set-e").collect();
    assert_eq!(set_e.len(), 1);
    assert_eq!((set_e[0].line, set_e[0].column), (1, 1));
    let quiet = lint("#!/bin/bash\nset -euo pipefail\ncd /tmp || exit 1\necho \"$HOME\"\n", "a.sh", SourceLanguage::Bash);
    assert!(!has(&quiet, "no-set-e"));
    assert!(!has(&quiet, "cd-without-or"));
    assert!(!has(&quiet, "unquoted-expansion"));
}

#[test]
fn zig_rules_fire() {
    let issues = lint("fn f() void { std.debug.print(\"a\", .{}); }\n", "a.zig", SourceLanguage::Zig);
    assert!(has(&issues, "no-debug-print"));
}

#[test]
fn every_issue_names_the_linted_file() {
    let issues = lint("var x = 1;\nif (x == 2) { debugger; console.log(x); }\n", "web/app.js", SourceLanguage::JavaScript);
    assert!(issues.len() >= 3);
    assert!(issues.iter().all(|i| i.file == "web/app.js"));
}
