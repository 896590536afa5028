//! Entry points of the rules for Swift: each runs one rule over a
//! whole tree.
use vstd::prelude::*;
use crate::lint::{run_check, issue_views, rule_issues};
use crate::rules::Rule;
use crate::syntax::SyntaxTree;
use crate::types::{Issue, Severity};

verus! {

/// The `no-print` issues of a file.
pub fn check_no_print(t: &SyntaxTree, file_path: &str, severity: Severity) -> (r: Vec<Issue>)
    requires
        t.wf(),
    ensures
        issue_views(r@) == rule_issues(*t, file_path@, Rule::SwiftNoPrint, severity),
{
    run_check(t, file_path, Rule::SwiftNoPrint, severity)
}

/// The `no-force-unwrap` issues of a file.
pub fn check_no_force_unwrap(t: &SyntaxTree, file_path: &str, severity: Severity) -> (r: Vec<Issue>)
    requires
        t.wf(),
    ensures
        issue_views(r@) == rule_issues(*t, file_path@, Rule::NoForceUnwrap, severity),
{
    run_check(t, file_path, Rule::NoForceUnwrap, severity)
}

/// The `no-force-try` issues of a file.
pub fn check_no_force_try(t: &SyntaxTree, file_path: &str, severity: Severity) -> (r: Vec<Issue>)
    requires
        t.wf(),
    ensures
        issue_views(r@) == rule_issues(*t, file_path@, Rule::NoForceTry, severity),
{
    run_check(t, file_path, Rule::NoForceTry, severity)
}

/// The `no-force-cast` issues of a file.
pub fn check_no_force_cast(t: &SyntaxTree, file_path: &str, severity: Severity) -> (r: Vec<Issue>)
    requires
        t.wf(),
    ensures
        issue_views(r@) == rule_issues(*t, file_path@, Rule::NoForceCast, severity),
{
    run_check(t, file_path, Rule::NoForceCast, severity)
}

/// The `no-nslog` issues of a file.
pub fn check_no_nslog(t: &SyntaxTree, file_path: &str, severity: Severity) -> (r: Vec<Issue>)
    requires
        t.wf(),
    ensures
        issue_views(r@) == rule_issues(*t, file_path@, Rule::NoNslog, severity),
{
    run_check(t, file_path, Rule::NoNslog, severity)
}

/// The `no-fatal-error` issues of a file.
pub fn check_no_fatal_error(t: &SyntaxTree, file_path: &str, severity: Severity) -> (r: Vec<Issue>)
    requires
        t.wf(),
    ensures
        issue_views(r@) == rule_issues(*t, file_path@, Rule::NoFatalError, severity),
{
    run_check(t, file_path, Rule::NoFatalError, severity)
}

} // verus!
