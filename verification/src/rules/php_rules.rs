//! Entry points of the rules for PHP: each runs one rule over a
//! whole tree.
use vstd::prelude::*;
use crate::lint::{run_check, issue_views, rule_issues};
use crate::rules::Rule;
use crate::syntax::SyntaxTree;
use crate::types::{Issue, Severity};

verus! {

/// The `no-debug-output` issues of a file.
pub fn check_no_debug_output(t: &SyntaxTree, file_path: &str, severity: Severity) -> (r: Vec<Issue>)
    requires
        t.wf(),
    ensures
        issue_views(r@) == rule_issues(*t, file_path@, Rule::NoDebugOutput, severity),
{
    run_check(t, file_path, Rule::NoDebugOutput, severity)
}

/// The `no-eval` issues of a file.
pub fn check_no_eval(t: &SyntaxTree, file_path: &str, severity: Severity) -> (r: Vec<Issue>)
    requires
        t.wf(),
    ensures
        issue_views(r@) == rule_issues(*t, file_path@, Rule::PhpNoEval, severity),
{
    run_check(t, file_path, Rule::PhpNoEval, severity)
}

/// The `no-exit` issues of a file.
pub fn check_no_exit(t: &SyntaxTree, file_path: &str, severity: Severity) -> (r: Vec<Issue>)
    requires
        t.wf(),
    ensures
        issue_views(r@) == rule_issues(*t, file_path@, Rule::NoExit, severity),
{
    run_check(t, file_path, Rule::NoExit, severity)
}

/// The `strict-comparison` issues of a file.
pub fn check_strict_comparison(t: &SyntaxTree, file_path: &str, severity: Severity) -> (r: Vec<Issue>)
    requires
        t.wf(),
    ensures
        issue_views(r@) == rule_issues(*t, file_path@, Rule::StrictComparison, severity),
{
    run_check(t, file_path, Rule::StrictComparison, severity)
}

/// The `no-error-suppression` issues of a file.
pub fn check_no_error_suppression(t: &SyntaxTree, file_path: &str, severity: Severity) -> (r: Vec<Issue>)
    requires
        t.wf(),
    ensures
        issue_views(r@) == rule_issues(*t, file_path@, Rule::NoErrorSuppression, severity),
{
    run_check(t, file_path, Rule::NoErrorSuppression, severity)
}

} // verus!
