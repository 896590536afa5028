//! Entry points of the rules for every language: each runs one rule over a
//! whole tree.
use vstd::prelude::*;
use crate::lint::{run_check, issue_views, rule_issues};
use crate::rules::Rule;
use crate::syntax::SyntaxTree;
use crate::types::{Issue, Severity};

verus! {

/// The `todo-comment` issues of a file.
pub fn check_todo_comments(t: &SyntaxTree, file_path: &str, severity: Severity) -> (r: Vec<Issue>)
    requires
        t.wf(),
    ensures
        issue_views(r@) == rule_issues(*t, file_path@, Rule::TodoComment, severity),
{
    run_check(t, file_path, Rule::TodoComment, severity)
}

/// The `no-empty-function` issues of a file.
pub fn check_no_empty_function_universal(t: &SyntaxTree, file_path: &str, severity: Severity) -> (r: Vec<Issue>)
    requires
        t.wf(),
    ensures
        issue_views(r@) == rule_issues(*t, file_path@, Rule::EmptyFunction, severity),
{
    run_check(t, file_path, Rule::EmptyFunction, severity)
}

} // verus!
