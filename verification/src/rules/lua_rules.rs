//! Entry points of the rules for Lua: each runs one rule over a
//! whole tree.
use vstd::prelude::*;
use crate::lint::{run_check, issue_views, rule_issues};
use crate::rules::Rule;
use crate::syntax::SyntaxTree;
use crate::types::{Issue, Severity};

verus! {

/// The `no-global` issues of a file.
pub fn check_no_global(t: &SyntaxTree, file_path: &str, severity: Severity) -> (r: Vec<Issue>)
    requires
        t.wf(),
    ensures
        issue_views(r@) == rule_issues(*t, file_path@, Rule::LuaNoGlobal, severity),
{
    run_check(t, file_path, Rule::LuaNoGlobal, severity)
}

/// The `no-os-execute` issues of a file.
pub fn check_no_os_execute(t: &SyntaxTree, file_path: &str, severity: Severity) -> (r: Vec<Issue>)
    requires
        t.wf(),
    ensures
        issue_views(r@) == rule_issues(*t, file_path@, Rule::NoOsExecute, severity),
{
    run_check(t, file_path, Rule::NoOsExecute, severity)
}

/// The `no-loadstring` issues of a file.
pub fn check_no_loadstring(t: &SyntaxTree, file_path: &str, severity: Severity) -> (r: Vec<Issue>)
    requires
        t.wf(),
    ensures
        issue_views(r@) == rule_issues(*t, file_path@, Rule::NoLoadstring, severity),
{
    run_check(t, file_path, Rule::NoLoadstring, severity)
}

/// The `no-print` issues of a file.
pub fn check_no_print(t: &SyntaxTree, file_path: &str, severity: Severity) -> (r: Vec<Issue>)
    requires
        t.wf(),
    ensures
        issue_views(r@) == rule_issues(*t, file_path@, Rule::LuaNoPrint, severity),
{
    run_check(t, file_path, Rule::LuaNoPrint, severity)
}

} // verus!
