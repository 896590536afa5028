//! Entry points of the rules for Elixir: each runs one rule over a
//! whole tree.
use vstd::prelude::*;
use crate::lint::{run_check, issue_views, rule_issues};
use crate::rules::Rule;
use crate::syntax::SyntaxTree;
use crate::types::{Issue, Severity};

verus! {

/// The `no-io-inspect` issues of a file.
pub fn check_no_io_inspect(t: &SyntaxTree, file_path: &str, severity: Severity) -> (r: Vec<Issue>)
    requires
        t.wf(),
    ensures
        issue_views(r@) == rule_issues(*t, file_path@, Rule::NoIoInspect, severity),
{
    run_check(t, file_path, Rule::NoIoInspect, severity)
}

/// The `no-io-puts` issues of a file.
pub fn check_no_io_puts(t: &SyntaxTree, file_path: &str, severity: Severity) -> (r: Vec<Issue>)
    requires
        t.wf(),
    ensures
        issue_views(r@) == rule_issues(*t, file_path@, Rule::NoIoPuts, severity),
{
    run_check(t, file_path, Rule::NoIoPuts, severity)
}

/// The `no-raise-in-with` issues of a file.
pub fn check_no_raise_in_with(t: &SyntaxTree, file_path: &str, severity: Severity) -> (r: Vec<Issue>)
    requires
        t.wf(),
    ensures
        issue_views(r@) == rule_issues(*t, file_path@, Rule::NoRaiseInWith, severity),
{
    run_check(t, file_path, Rule::NoRaiseInWith, severity)
}

/// The `pipe-into-anonymous` issues of a file.
pub fn check_pipe_into_anonymous(t: &SyntaxTree, file_path: &str, severity: Severity) -> (r: Vec<Issue>)
    requires
        t.wf(),
    ensures
        issue_views(r@) == rule_issues(*t, file_path@, Rule::PipeIntoAnonymous, severity),
{
    run_check(t, file_path, Rule::PipeIntoAnonymous, severity)
}

} // verus!
