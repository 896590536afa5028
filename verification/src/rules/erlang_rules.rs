//! Entry points of the rules for Erlang: each runs one rule over a
//! whole tree.
use vstd::prelude::*;
use crate::lint::{run_check, issue_views, rule_issues};
use crate::rules::Rule;
use crate::syntax::SyntaxTree;
use crate::types::{Issue, Severity};

verus! {

/// The `no-process-flag` issues of a file.
pub fn check_no_process_flag(t: &SyntaxTree, file_path: &str, severity: Severity) -> (r: Vec<Issue>)
    requires
        t.wf(),
    ensures
        issue_views(r@) == rule_issues(*t, file_path@, Rule::NoProcessFlag, severity),
{
    run_check(t, file_path, Rule::NoProcessFlag, severity)
}

/// The `no-catch-all` issues of a file.
pub fn check_no_catch_all(t: &SyntaxTree, file_path: &str, severity: Severity) -> (r: Vec<Issue>)
    requires
        t.wf(),
    ensures
        issue_views(r@) == rule_issues(*t, file_path@, Rule::NoCatchAll, severity),
{
    run_check(t, file_path, Rule::NoCatchAll, severity)
}

/// The `no-exit-call` issues of a file.
pub fn check_no_exit_call(t: &SyntaxTree, file_path: &str, severity: Severity) -> (r: Vec<Issue>)
    requires
        t.wf(),
    ensures
        issue_views(r@) == rule_issues(*t, file_path@, Rule::NoExitCall, severity),
{
    run_check(t, file_path, Rule::NoExitCall, severity)
}

} // verus!
