use codopsy::grammar::parse_source;
use codopsy::language::SourceLanguage;
use codopsy::rules::unused::{check_unused_import_js, check_unused_import_python};
use codopsy::types::{Issue, Severity};

fn python(source: &str) -> Vec<Issue> {
    let tree = parse_source(source, SourceLanguage::Python).unwrap();
    check_unused_import_python(&tree, "m.py", Severity::Warning)
}

fn js(source: &str) -> Vec<Issue> {
    let tree = parse_source(source, SourceLanguage::JavaScript).unwrap();
    check_unused_import_js(&tree, "m.js", Severity::Info)
}

fn names(issues: &[Issue]) -> Vec<String> {
    issues.iter().map(|i| i.message.clone()).collect()
}

#[test]
fn python_unused_plain_import_is_reported_by_last_segment() {
    let issues = python("import os.path\nimport sys\nprint(sys.argv)\n");
    assert_eq!(names(&issues), vec!["`path` imported but unused".to_string()]);
    let i = &issues[0];
    assert_eq!((i.file.as_str(), i.line, i.column), ("m.py", 1, 8));
    assert_eq!(i.rule, "unused-import");
    assert_eq!(i.severity, Severity::Warning);
}

#[test]
fn python_from_import_and_alias() {
    let issues = python("from a import b, c as d\nimport numpy as np\nb()\n");
    assert_eq!(
        names(&issues),
        vec!["`d` imported but unused".to_string(), "`np` imported but unused".to_string()]
    );
}

#[test]
fn python_attribute_use_counts_and_private_names_are_skipped() {
    assert!(python("import json\njson.dumps(1)\n").is_empty());
    assert!(python("from x import _private\n").is_empty());
}

#[test]
fn js_default_named_and_namespace_imports() {
    let issues = js("import a from 'a';\nimport { b, c as d } from 'b';\nimport * as ns from 'n';\na(); b();\n");
    assert_eq!(
        names(&issues),
        vec!["`d` imported but unused".to_string(), "`ns` imported but unused".to_string()]
    );
    assert!(issues.iter().all(|i| i.severity == Severity::Info && i.file == "m.js"));
}

#[test]
fn js_used_imports_are_quiet() {
    assert!(js("import React from 'react';\nReact.render();\n").is_empty());
}

#[test]
fn linked_grammars_are_offered() {
    assert!(SourceLanguage::Python.tree_sitter_language().is_some());
    assert!(SourceLanguage::Go.tree_sitter_language().is_some());
}
