//! Entry points of the rules for Go: each runs one rule over a
//! whole tree.
use vstd::prelude::*;
use crate::lint::{run_check, issue_views, rule_issues};
use crate::rules::Rule;
use crate::syntax::SyntaxTree;
use crate::types::{Issue, Severity};

verus! {

/// The `no-panic` issues of a file.
pub fn check_no_panic(t: &SyntaxTree, file_path: &str, severity: Severity) -> (r: Vec<Issue>)
    requires
        t.wf(),
    ensures
        issue_views(r@) == rule_issues(*t, file_path@, Rule::GoNoPanic, severity),
{
    run_check(t, file_path, Rule::GoNoPanic, severity)
}

/// The `no-fmt-print` issues of a file.
pub fn check_no_fmt_print(t: &SyntaxTree, file_path: &str, severity: Severity) -> (r: Vec<Issue>)
    requires
        t.wf(),
    ensures
        issue_views(r@) == rule_issues(*t, file_path@, Rule::NoFmtPrint, severity),
{
    run_check(t, file_path, Rule::NoFmtPrint, severity)
}

/// The `no-ignored-error` issues of a file.
pub fn check_no_ignored_error(t: &SyntaxTree, file_path: &str, severity: Severity) -> (r: Vec<Issue>)
    requires
        t.wf(),
    ensures
        issue_views(r@) == rule_issues(*t, file_path@, Rule::NoIgnoredError, severity),
{
    run_check(t, file_path, Rule::NoIgnoredError, severity)
}

/// The `no-os-exit` issues of a file.
pub fn check_no_os_exit(t: &SyntaxTree, file_path: &str, severity: Severity) -> (r: Vec<Issue>)
    requires
        t.wf(),
    ensures
        issue_views(r@) == rule_issues(*t, file_path@, Rule::NoOsExit, severity),
{
    run_check(t, file_path, Rule::NoOsExit, severity)
}

/// The `no-defer-in-loop` issues of a file.
pub fn check_no_defer_in_loop(t: &SyntaxTree, file_path: &str, severity: Severity) -> (r: Vec<Issue>)
    requires
        t.wf(),
    ensures
        issue_views(r@) == rule_issues(*t, file_path@, Rule::NoDeferInLoop, severity),
{
    run_check(t, file_path, Rule::NoDeferInLoop, severity)
}

/// The `no-empty-block` issues of a file.
pub fn check_no_empty_block(t: &SyntaxTree, file_path: &str, severity: Severity) -> (r: Vec<Issue>)
    requires
        t.wf(),
    ensures
        issue_views(r@) == rule_issues(*t, file_path@, Rule::NoEmptyBlock, severity),
{
    run_check(t, file_path, Rule::NoEmptyBlock, severity)
}

/// The `no-unreachable` issues of a file.
pub fn check_no_unreachable_go(t: &SyntaxTree, file_path: &str, severity: Severity) -> (r: Vec<Issue>)
    requires
        t.wf(),
    ensures
        issue_views(r@) == rule_issues(*t, file_path@, Rule::GoNoUnreachable, severity),
{
    run_check(t, file_path, Rule::GoNoUnreachable, severity)
}

/// The `no-naked-return` issues of a file.
pub fn check_no_naked_return(t: &SyntaxTree, file_path: &str, severity: Severity) -> (r: Vec<Issue>)
    requires
        t.wf(),
    ensures
        issue_views(r@) == rule_issues(*t, file_path@, Rule::NoNakedReturn, severity),
{
    run_check(t, file_path, Rule::NoNakedReturn, severity)
}

/// The `no-range-over-string` issues of a file.
pub fn check_no_range_over_string(t: &SyntaxTree, file_path: &str, severity: Severity) -> (r: Vec<Issue>)
    requires
        t.wf(),
    ensures
        issue_views(r@) == rule_issues(*t, file_path@, Rule::NoRangeOverString, severity),
{
    run_check(t, file_path, Rule::NoRangeOverString, severity)
}

/// The `no-shadow-import` issues of a file.
pub fn check_no_shadow_import(t: &SyntaxTree, file_path: &str, severity: Severity) -> (r: Vec<Issue>)
    requires
        t.wf(),
    ensures
        issue_views(r@) == rule_issues(*t, file_path@, Rule::NoShadowImport, severity),
{
    run_check(t, file_path, Rule::NoShadowImport, severity)
}

} // verus!
