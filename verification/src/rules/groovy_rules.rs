//! Entry points of the rules for Groovy: each runs one rule over a
//! whole tree.
use vstd::prelude::*;
use crate::lint::{run_check, issue_views, rule_issues};
use crate::rules::Rule;
use crate::syntax::SyntaxTree;
use crate::types::{Issue, Severity};

verus! {

/// The `no-println` issues of a file.
pub fn check_no_println(t: &SyntaxTree, file_path: &str, severity: Severity) -> (r: Vec<Issue>)
    requires
        t.wf(),
    ensures
        issue_views(r@) == rule_issues(*t, file_path@, Rule::GroovyNoPrintln, severity),
{
    run_check(t, file_path, Rule::GroovyNoPrintln, severity)
}

/// The `no-def-type` issues of a file.
pub fn check_no_def_type(t: &SyntaxTree, file_path: &str, severity: Severity) -> (r: Vec<Issue>)
    requires
        t.wf(),
    ensures
        issue_views(r@) == rule_issues(*t, file_path@, Rule::NoDefType, severity),
{
    run_check(t, file_path, Rule::NoDefType, severity)
}

/// The `no-system-exit` issues of a file.
pub fn check_no_system_exit(t: &SyntaxTree, file_path: &str, severity: Severity) -> (r: Vec<Issue>)
    requires
        t.wf(),
    ensures
        issue_views(r@) == rule_issues(*t, file_path@, Rule::GroovyNoSystemExit, severity),
{
    run_check(t, file_path, Rule::GroovyNoSystemExit, severity)
}

/// The `no-empty-catch` issues of a file.
pub fn check_no_empty_catch(t: &SyntaxTree, file_path: &str, severity: Severity) -> (r: Vec<Issue>)
    requires
        t.wf(),
    ensures
        issue_views(r@) == rule_issues(*t, file_path@, Rule::GroovyNoEmptyCatch, severity),
{
    run_check(t, file_path, Rule::GroovyNoEmptyCatch, severity)
}

} // verus!
