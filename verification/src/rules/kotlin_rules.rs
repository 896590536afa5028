//! Entry points of the rules for Kotlin: each runs one rule over a
//! whole tree.
use vstd::prelude::*;
use crate::lint::{run_check, issue_views, rule_issues};
use crate::rules::Rule;
use crate::syntax::SyntaxTree;
use crate::types::{Issue, Severity};

verus! {

/// The `no-println` issues of a file.
pub fn check_no_println(t: &SyntaxTree, file_path: &str, severity: Severity) -> (r: Vec<Issue>)
    requires
        t.wf(),
    ensures
        issue_views(r@) == rule_issues(*t, file_path@, Rule::KotlinNoPrintln, severity),
{
    run_check(t, file_path, Rule::KotlinNoPrintln, severity)
}

/// The `no-unsafe-cast` issues of a file.
pub fn check_no_unsafe_cast(t: &SyntaxTree, file_path: &str, severity: Severity) -> (r: Vec<Issue>)
    requires
        t.wf(),
    ensures
        issue_views(r@) == rule_issues(*t, file_path@, Rule::NoUnsafeCast, severity),
{
    run_check(t, file_path, Rule::NoUnsafeCast, severity)
}

/// The `no-not-null-assertion` issues of a file.
pub fn check_no_not_null_assertion(t: &SyntaxTree, file_path: &str, severity: Severity) -> (r: Vec<Issue>)
    requires
        t.wf(),
    ensures
        issue_views(r@) == rule_issues(*t, file_path@, Rule::NoNotNullAssertion, severity),
{
    run_check(t, file_path, Rule::NoNotNullAssertion, severity)
}

/// The `no-empty-catch` issues of a file.
pub fn check_no_empty_catch(t: &SyntaxTree, file_path: &str, severity: Severity) -> (r: Vec<Issue>)
    requires
        t.wf(),
    ensures
        issue_views(r@) == rule_issues(*t, file_path@, Rule::KotlinNoEmptyCatch, severity),
{
    run_check(t, file_path, Rule::KotlinNoEmptyCatch, severity)
}

/// The `no-system-exit` issues of a file.
pub fn check_no_system_exit(t: &SyntaxTree, file_path: &str, severity: Severity) -> (r: Vec<Issue>)
    requires
        t.wf(),
    ensures
        issue_views(r@) == rule_issues(*t, file_path@, Rule::KotlinNoSystemExit, severity),
{
    run_check(t, file_path, Rule::KotlinNoSystemExit, severity)
}

/// The `prefer-val` issues of a file.
pub fn check_prefer_val(t: &SyntaxTree, file_path: &str, severity: Severity) -> (r: Vec<Issue>)
    requires
        t.wf(),
    ensures
        issue_views(r@) == rule_issues(*t, file_path@, Rule::PreferVal, severity),
{
    run_check(t, file_path, Rule::PreferVal, severity)
}

} // verus!
