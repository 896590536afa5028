//! Entry points of the rules for Clojure: each runs one rule over a
//! whole tree.
use vstd::prelude::*;
use crate::lint::{run_check, issue_views, rule_issues};
use crate::rules::Rule;
use crate::syntax::SyntaxTree;
use crate::types::{Issue, Severity};

verus! {

/// The `no-println` issues of a file.
pub fn check_no_println(t: &SyntaxTree, file_path: &str, severity: Severity) -> (r: Vec<Issue>)
    requires
        t.wf(),
    ensures
        issue_views(r@) == rule_issues(*t, file_path@, Rule::ClojureNoPrintln, severity),
{
    run_check(t, file_path, Rule::ClojureNoPrintln, severity)
}

/// The `no-def-in-def` issues of a file.
pub fn check_no_def_in_def(t: &SyntaxTree, file_path: &str, severity: Severity) -> (r: Vec<Issue>)
    requires
        t.wf(),
    ensures
        issue_views(r@) == rule_issues(*t, file_path@, Rule::NoDefInDef, severity),
{
    run_check(t, file_path, Rule::NoDefInDef, severity)
}

/// The `no-thread-sleep` issues of a file.
pub fn check_no_thread_sleep(t: &SyntaxTree, file_path: &str, severity: Severity) -> (r: Vec<Issue>)
    requires
        t.wf(),
    ensures
        issue_views(r@) == rule_issues(*t, file_path@, Rule::NoThreadSleep, severity),
{
    run_check(t, file_path, Rule::NoThreadSleep, severity)
}

/// The `no-reflection` issues of a file.
pub fn check_no_reflection(t: &SyntaxTree, file_path: &str, severity: Severity) -> (r: Vec<Issue>)
    requires
        t.wf(),
    ensures
        issue_views(r@) == rule_issues(*t, file_path@, Rule::NoReflection, severity),
{
    run_check(t, file_path, Rule::NoReflection, severity)
}

} // verus!
