//! Entry points of the rules for Elm: each runs one rule over a
//! whole tree.
use vstd::prelude::*;
use crate::lint::{run_check, issue_views, rule_issues};
use crate::rules::Rule;
use crate::syntax::SyntaxTree;
use crate::types::{Issue, Severity};

verus! {

/// The `no-debug` issues of a file.
pub fn check_no_debug(t: &SyntaxTree, file_path: &str, severity: Severity) -> (r: Vec<Issue>)
    requires
        t.wf(),
    ensures
        issue_views(r@) == rule_issues(*t, file_path@, Rule::NoDebug, severity),
{
    run_check(t, file_path, Rule::NoDebug, severity)
}

/// The `no-todo` issues of a file.
pub fn check_no_todo(t: &SyntaxTree, file_path: &str, severity: Severity) -> (r: Vec<Issue>)
    requires
        t.wf(),
    ensures
        issue_views(r@) == rule_issues(*t, file_path@, Rule::ElmNoTodo, severity),
{
    run_check(t, file_path, Rule::ElmNoTodo, severity)
}

/// The `unused-import` issues of a file.
pub fn check_unused_import(t: &SyntaxTree, file_path: &str, severity: Severity) -> (r: Vec<Issue>)
    requires
        t.wf(),
    ensures
        issue_views(r@) == rule_issues(*t, file_path@, Rule::UnusedImport, severity),
{
    run_check(t, file_path, Rule::UnusedImport, severity)
}

} // verus!
