//! Entry points of the rules for Ruby: each runs one rule over a
//! whole tree.
use vstd::prelude::*;
use crate::lint::{run_check, issue_views, rule_issues};
use crate::rules::Rule;
use crate::syntax::SyntaxTree;
use crate::types::{Issue, Severity};

verus! {

/// The `no-puts` issues of a file.
pub fn check_no_puts(t: &SyntaxTree, file_path: &str, severity: Severity) -> (r: Vec<Issue>)
    requires
        t.wf(),
    ensures
        issue_views(r@) == rule_issues(*t, file_path@, Rule::RubyNoPuts, severity),
{
    run_check(t, file_path, Rule::RubyNoPuts, severity)
}

/// The `no-eval` issues of a file.
pub fn check_no_eval(t: &SyntaxTree, file_path: &str, severity: Severity) -> (r: Vec<Issue>)
    requires
        t.wf(),
    ensures
        issue_views(r@) == rule_issues(*t, file_path@, Rule::RubyNoEval, severity),
{
    run_check(t, file_path, Rule::RubyNoEval, severity)
}

/// The `require-relative` issues of a file.
pub fn check_require_relative(t: &SyntaxTree, file_path: &str, severity: Severity) -> (r: Vec<Issue>)
    requires
        t.wf(),
    ensures
        issue_views(r@) == rule_issues(*t, file_path@, Rule::RequireRelative, severity),
{
    run_check(t, file_path, Rule::RequireRelative, severity)
}

/// The `no-rescue-exception` issues of a file.
pub fn check_no_rescue_exception(t: &SyntaxTree, file_path: &str, severity: Severity) -> (r: Vec<Issue>)
    requires
        t.wf(),
    ensures
        issue_views(r@) == rule_issues(*t, file_path@, Rule::RubyNoRescueException, severity),
{
    run_check(t, file_path, Rule::RubyNoRescueException, severity)
}

/// The `no-sleep` issues of a file.
pub fn check_no_sleep(t: &SyntaxTree, file_path: &str, severity: Severity) -> (r: Vec<Issue>)
    requires
        t.wf(),
    ensures
        issue_views(r@) == rule_issues(*t, file_path@, Rule::RubyNoSleep, severity),
{
    run_check(t, file_path, Rule::RubyNoSleep, severity)
}

} // verus!
