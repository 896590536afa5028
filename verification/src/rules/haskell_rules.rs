//! Entry points of the rules for Haskell: each runs one rule over a
//! whole tree.
use vstd::prelude::*;
use crate::lint::{run_check, issue_views, rule_issues};
use crate::rules::Rule;
use crate::syntax::SyntaxTree;
use crate::types::{Issue, Severity};

verus! {

/// The `no-partial-function` issues of a file.
pub fn check_no_partial_functions(t: &SyntaxTree, file_path: &str, severity: Severity) -> (r: Vec<Issue>)
    requires
        t.wf(),
    ensures
        issue_views(r@) == rule_issues(*t, file_path@, Rule::NoPartialFunction, severity),
{
    run_check(t, file_path, Rule::NoPartialFunction, severity)
}

/// The `no-undefined` issues of a file.
pub fn check_no_undefined(t: &SyntaxTree, file_path: &str, severity: Severity) -> (r: Vec<Issue>)
    requires
        t.wf(),
    ensures
        issue_views(r@) == rule_issues(*t, file_path@, Rule::NoUndefined, severity),
{
    run_check(t, file_path, Rule::NoUndefined, severity)
}

/// The `no-error` issues of a file.
pub fn check_no_error(t: &SyntaxTree, file_path: &str, severity: Severity) -> (r: Vec<Issue>)
    requires
        t.wf(),
    ensures
        issue_views(r@) == rule_issues(*t, file_path@, Rule::NoError, severity),
{
    run_check(t, file_path, Rule::NoError, severity)
}

/// The `no-unsafe-perform-io` issues of a file.
pub fn check_no_unsafe_perform_io(t: &SyntaxTree, file_path: &str, severity: Severity) -> (r: Vec<Issue>)
    requires
        t.wf(),
    ensures
        issue_views(r@) == rule_issues(*t, file_path@, Rule::NoUnsafePerformIo, severity),
{
    run_check(t, file_path, Rule::NoUnsafePerformIo, severity)
}

/// The `no-trace` issues of a file.
pub fn check_no_trace(t: &SyntaxTree, file_path: &str, severity: Severity) -> (r: Vec<Issue>)
    requires
        t.wf(),
    ensures
        issue_views(r@) == rule_issues(*t, file_path@, Rule::NoTrace, severity),
{
    run_check(t, file_path, Rule::NoTrace, severity)
}

} // verus!
