//! Entry points of the rules for Java: each runs one rule over a
//! whole tree.
use vstd::prelude::*;
use crate::lint::{run_check, issue_views, rule_issues};
use crate::rules::Rule;
use crate::syntax::SyntaxTree;
use crate::types::{Issue, Severity};

verus! {

/// The `no-sysout` issues of a file.
pub fn check_no_sysout(t: &SyntaxTree, file_path: &str, severity: Severity) -> (r: Vec<Issue>)
    requires
        t.wf(),
    ensures
        issue_views(r@) == rule_issues(*t, file_path@, Rule::NoSysout, severity),
{
    run_check(t, file_path, Rule::NoSysout, severity)
}

/// The `no-print-stack-trace` issues of a file.
pub fn check_no_print_stack_trace(t: &SyntaxTree, file_path: &str, severity: Severity) -> (r: Vec<Issue>)
    requires
        t.wf(),
    ensures
        issue_views(r@) == rule_issues(*t, file_path@, Rule::NoPrintStackTrace, severity),
{
    run_check(t, file_path, Rule::NoPrintStackTrace, severity)
}

/// The `no-empty-catch` issues of a file.
pub fn check_no_empty_catch(t: &SyntaxTree, file_path: &str, severity: Severity) -> (r: Vec<Issue>)
    requires
        t.wf(),
    ensures
        issue_views(r@) == rule_issues(*t, file_path@, Rule::JavaNoEmptyCatch, severity),
{
    run_check(t, file_path, Rule::JavaNoEmptyCatch, severity)
}

/// The `no-throws-exception` issues of a file.
pub fn check_no_throws_exception(t: &SyntaxTree, file_path: &str, severity: Severity) -> (r: Vec<Issue>)
    requires
        t.wf(),
    ensures
        issue_views(r@) == rule_issues(*t, file_path@, Rule::NoThrowsException, severity),
{
    run_check(t, file_path, Rule::NoThrowsException, severity)
}

/// The `no-raw-type` issues of a file.
pub fn check_no_raw_type(t: &SyntaxTree, file_path: &str, severity: Severity) -> (r: Vec<Issue>)
    requires
        t.wf(),
    ensures
        issue_views(r@) == rule_issues(*t, file_path@, Rule::NoRawType, severity),
{
    run_check(t, file_path, Rule::NoRawType, severity)
}

/// The `no-string-equality` issues of a file.
pub fn check_no_string_equality(t: &SyntaxTree, file_path: &str, severity: Severity) -> (r: Vec<Issue>)
    requires
        t.wf(),
    ensures
        issue_views(r@) == rule_issues(*t, file_path@, Rule::NoStringEquality, severity),
{
    run_check(t, file_path, Rule::NoStringEquality, severity)
}

/// The `missing-switch-default` issues of a file.
pub fn check_no_missing_switch_default(t: &SyntaxTree, file_path: &str, severity: Severity) -> (r: Vec<Issue>)
    requires
        t.wf(),
    ensures
        issue_views(r@) == rule_issues(*t, file_path@, Rule::MissingSwitchDefault, severity),
{
    run_check(t, file_path, Rule::MissingSwitchDefault, severity)
}

/// The `no-empty-if` issues of a file.
pub fn check_no_empty_if_java(t: &SyntaxTree, file_path: &str, severity: Severity) -> (r: Vec<Issue>)
    requires
        t.wf(),
    ensures
        issue_views(r@) == rule_issues(*t, file_path@, Rule::JavaNoEmptyIf, severity),
{
    run_check(t, file_path, Rule::JavaNoEmptyIf, severity)
}

/// The `no-double-brace-init` issues of a file.
pub fn check_no_double_brace_init(t: &SyntaxTree, file_path: &str, severity: Severity) -> (r: Vec<Issue>)
    requires
        t.wf(),
    ensures
        issue_views(r@) == rule_issues(*t, file_path@, Rule::NoDoubleBraceInit, severity),
{
    run_check(t, file_path, Rule::NoDoubleBraceInit, severity)
}

/// The `no-string-concat-in-loop` issues of a file.
pub fn check_no_string_concat_in_loop(t: &SyntaxTree, file_path: &str, severity: Severity) -> (r: Vec<Issue>)
    requires
        t.wf(),
    ensures
        issue_views(r@) == rule_issues(*t, file_path@, Rule::NoStringConcatInLoop, severity),
{
    run_check(t, file_path, Rule::NoStringConcatInLoop, severity)
}

/// The `no-nested-try` issues of a file.
pub fn check_no_nested_try(t: &SyntaxTree, file_path: &str, severity: Severity) -> (r: Vec<Issue>)
    requires
        t.wf(),
    ensures
        issue_views(r@) == rule_issues(*t, file_path@, Rule::NoNestedTry, severity),
{
    run_check(t, file_path, Rule::NoNestedTry, severity)
}

/// The `equals-null` issues of a file.
pub fn check_equals_null(t: &SyntaxTree, file_path: &str, severity: Severity) -> (r: Vec<Issue>)
    requires
        t.wf(),
    ensures
        issue_views(r@) == rule_issues(*t, file_path@, Rule::EqualsNull, severity),
{
    run_check(t, file_path, Rule::EqualsNull, severity)
}

} // verus!
