//! Entry points of the rules for Zig: each runs one rule over a
//! whole tree.
use vstd::prelude::*;
use crate::lint::{run_check, issue_views, rule_issues};
use crate::rules::Rule;
use crate::syntax::SyntaxTree;
use crate::types::{Issue, Severity};

verus! {

/// The `no-debug-print` issues of a file.
pub fn check_no_debug_print(t: &SyntaxTree, file_path: &str, severity: Severity) -> (r: Vec<Issue>)
    requires
        t.wf(),
    ensures
        issue_views(r@) == rule_issues(*t, file_path@, Rule::NoDebugPrint, severity),
{
    run_check(t, file_path, Rule::NoDebugPrint, severity)
}

/// The `no-unreachable` issues of a file.
pub fn check_no_unreachable(t: &SyntaxTree, file_path: &str, severity: Severity) -> (r: Vec<Issue>)
    requires
        t.wf(),
    ensures
        issue_views(r@) == rule_issues(*t, file_path@, Rule::ZigNoUnreachable, severity),
{
    run_check(t, file_path, Rule::ZigNoUnreachable, severity)
}

/// The `no-panic` issues of a file.
pub fn check_no_panic(t: &SyntaxTree, file_path: &str, severity: Severity) -> (r: Vec<Issue>)
    requires
        t.wf(),
    ensures
        issue_views(r@) == rule_issues(*t, file_path@, Rule::ZigNoPanic, severity),
{
    run_check(t, file_path, Rule::ZigNoPanic, severity)
}

/// The `no-catch-all-switch` issues of a file.
pub fn check_no_catch_all_switch(t: &SyntaxTree, file_path: &str, severity: Severity) -> (r: Vec<Issue>)
    requires
        t.wf(),
    ensures
        issue_views(r@) == rule_issues(*t, file_path@, Rule::NoCatchAllSwitch, severity),
{
    run_check(t, file_path, Rule::NoCatchAllSwitch, severity)
}

} // verus!
