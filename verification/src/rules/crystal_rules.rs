//! Entry points of the rules for Crystal: each runs one rule over a
//! whole tree.
use vstd::prelude::*;
use crate::lint::{run_check, issue_views, rule_issues};
use crate::rules::Rule;
use crate::syntax::SyntaxTree;
use crate::types::{Issue, Severity};

verus! {

/// The `no-puts` issues of a file.
pub fn check_no_puts(t: &SyntaxTree, file_path: &str, severity: Severity) -> (r: Vec<Issue>)
    requires
        t.wf(),
    ensures
        issue_views(r@) == rule_issues(*t, file_path@, Rule::CrystalNoPuts, severity),
{
    run_check(t, file_path, Rule::CrystalNoPuts, severity)
}

/// The `no-raise-string` issues of a file.
pub fn check_no_raise_string(t: &SyntaxTree, file_path: &str, severity: Severity) -> (r: Vec<Issue>)
    requires
        t.wf(),
    ensures
        issue_views(r@) == rule_issues(*t, file_path@, Rule::NoRaiseString, severity),
{
    run_check(t, file_path, Rule::NoRaiseString, severity)
}

/// The `no-rescue-exception` issues of a file.
pub fn check_no_rescue_exception(t: &SyntaxTree, file_path: &str, severity: Severity) -> (r: Vec<Issue>)
    requires
        t.wf(),
    ensures
        issue_views(r@) == rule_issues(*t, file_path@, Rule::CrystalNoRescueException, severity),
{
    run_check(t, file_path, Rule::CrystalNoRescueException, severity)
}

/// The `no-shell` issues of a file.
pub fn check_no_shell(t: &SyntaxTree, file_path: &str, severity: Severity) -> (r: Vec<Issue>)
    requires
        t.wf(),
    ensures
        issue_views(r@) == rule_issues(*t, file_path@, Rule::NoShell, severity),
{
    run_check(t, file_path, Rule::NoShell, severity)
}

/// The `no-sleep` issues of a file.
pub fn check_no_sleep(t: &SyntaxTree, file_path: &str, severity: Severity) -> (r: Vec<Issue>)
    requires
        t.wf(),
    ensures
        issue_views(r@) == rule_issues(*t, file_path@, Rule::CrystalNoSleep, severity),
{
    run_check(t, file_path, Rule::CrystalNoSleep, severity)
}

} // verus!
