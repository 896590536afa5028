//! Entry points of the rules for Gleam: each runs one rule over a
//! whole tree.
use vstd::prelude::*;
use crate::lint::{run_check, issue_views, rule_issues};
use crate::rules::Rule;
use crate::syntax::SyntaxTree;
use crate::types::{Issue, Severity};

verus! {

/// The `no-todo` issues of a file.
pub fn check_no_todo(t: &SyntaxTree, file_path: &str, severity: Severity) -> (r: Vec<Issue>)
    requires
        t.wf(),
    ensures
        issue_views(r@) == rule_issues(*t, file_path@, Rule::GleamNoTodo, severity),
{
    run_check(t, file_path, Rule::GleamNoTodo, severity)
}

/// The `no-panic` issues of a file.
pub fn check_no_panic(t: &SyntaxTree, file_path: &str, severity: Severity) -> (r: Vec<Issue>)
    requires
        t.wf(),
    ensures
        issue_views(r@) == rule_issues(*t, file_path@, Rule::GleamNoPanic, severity),
{
    run_check(t, file_path, Rule::GleamNoPanic, severity)
}

/// The `no-let-assert` issues of a file.
pub fn check_no_let_assert(t: &SyntaxTree, file_path: &str, severity: Severity) -> (r: Vec<Issue>)
    requires
        t.wf(),
    ensures
        issue_views(r@) == rule_issues(*t, file_path@, Rule::NoLetAssert, severity),
{
    run_check(t, file_path, Rule::NoLetAssert, severity)
}

} // verus!
