//! Entry points of the rules for Scala: each runs one rule over a
//! whole tree.
use vstd::prelude::*;
use crate::lint::{run_check, issue_views, rule_issues};
use crate::rules::Rule;
use crate::syntax::SyntaxTree;
use crate::types::{Issue, Severity};

verus! {

/// The `no-println` issues of a file.
pub fn check_no_println(t: &SyntaxTree, file_path: &str, severity: Severity) -> (r: Vec<Issue>)
    requires
        t.wf(),
    ensures
        issue_views(r@) == rule_issues(*t, file_path@, Rule::ScalaNoPrintln, severity),
{
    run_check(t, file_path, Rule::ScalaNoPrintln, severity)
}

/// The `no-null` issues of a file.
pub fn check_no_null(t: &SyntaxTree, file_path: &str, severity: Severity) -> (r: Vec<Issue>)
    requires
        t.wf(),
    ensures
        issue_views(r@) == rule_issues(*t, file_path@, Rule::NoNull, severity),
{
    run_check(t, file_path, Rule::NoNull, severity)
}

/// The `no-var` issues of a file.
pub fn check_no_var(t: &SyntaxTree, file_path: &str, severity: Severity) -> (r: Vec<Issue>)
    requires
        t.wf(),
    ensures
        issue_views(r@) == rule_issues(*t, file_path@, Rule::ScalaNoVar, severity),
{
    run_check(t, file_path, Rule::ScalaNoVar, severity)
}

/// The `no-return` issues of a file.
pub fn check_no_return(t: &SyntaxTree, file_path: &str, severity: Severity) -> (r: Vec<Issue>)
    requires
        t.wf(),
    ensures
        issue_views(r@) == rule_issues(*t, file_path@, Rule::NoReturn, severity),
{
    run_check(t, file_path, Rule::NoReturn, severity)
}

/// The `no-as-instance-of` issues of a file.
pub fn check_no_as_instance_of(t: &SyntaxTree, file_path: &str, severity: Severity) -> (r: Vec<Issue>)
    requires
        t.wf(),
    ensures
        issue_views(r@) == rule_issues(*t, file_path@, Rule::NoAsInstanceOf, severity),
{
    run_check(t, file_path, Rule::NoAsInstanceOf, severity)
}

} // verus!
