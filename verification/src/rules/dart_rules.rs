//! Entry points of the rules for Dart: each runs one rule over a
//! whole tree.
use vstd::prelude::*;
use crate::lint::{run_check, issue_views, rule_issues};
use crate::rules::Rule;
use crate::syntax::SyntaxTree;
use crate::types::{Issue, Severity};

verus! {

/// The `no-print` issues of a file.
pub fn check_no_print(t: &SyntaxTree, file_path: &str, severity: Severity) -> (r: Vec<Issue>)
    requires
        t.wf(),
    ensures
        issue_views(r@) == rule_issues(*t, file_path@, Rule::DartNoPrint, severity),
{
    run_check(t, file_path, Rule::DartNoPrint, severity)
}

/// The `no-dynamic` issues of a file.
pub fn check_no_dynamic(t: &SyntaxTree, file_path: &str, severity: Severity) -> (r: Vec<Issue>)
    requires
        t.wf(),
    ensures
        issue_views(r@) == rule_issues(*t, file_path@, Rule::NoDynamic, severity),
{
    run_check(t, file_path, Rule::NoDynamic, severity)
}

/// The `no-empty-catch` issues of a file.
pub fn check_no_empty_catch(t: &SyntaxTree, file_path: &str, severity: Severity) -> (r: Vec<Issue>)
    requires
        t.wf(),
    ensures
        issue_views(r@) == rule_issues(*t, file_path@, Rule::DartNoEmptyCatch, severity),
{
    run_check(t, file_path, Rule::DartNoEmptyCatch, severity)
}

/// The `no-cast` issues of a file.
pub fn check_no_cast(t: &SyntaxTree, file_path: &str, severity: Severity) -> (r: Vec<Issue>)
    requires
        t.wf(),
    ensures
        issue_views(r@) == rule_issues(*t, file_path@, Rule::NoCast, severity),
{
    run_check(t, file_path, Rule::NoCast, severity)
}

/// The `no-rethrow-only` issues of a file.
pub fn check_no_rethrow_only(t: &SyntaxTree, file_path: &str, severity: Severity) -> (r: Vec<Issue>)
    requires
        t.wf(),
    ensures
        issue_views(r@) == rule_issues(*t, file_path@, Rule::NoRethrowOnly, severity),
{
    run_check(t, file_path, Rule::NoRethrowOnly, severity)
}

} // verus!
