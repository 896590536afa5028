//! Entry points of the rules for JavaScript and TypeScript style: each runs one rule over a
//! whole tree.
use vstd::prelude::*;
use crate::lint::{run_check, issue_views, rule_issues};
use crate::rules::Rule;
use crate::syntax::SyntaxTree;
use crate::types::{Issue, Severity};

verus! {

/// The `no-any` issues of a file.
pub fn check_no_any(t: &SyntaxTree, file_path: &str, severity: Severity) -> (r: Vec<Issue>)
    requires
        t.wf(),
    ensures
        issue_views(r@) == rule_issues(*t, file_path@, Rule::NoAny, severity),
{
    run_check(t, file_path, Rule::NoAny, severity)
}

/// The `no-console` issues of a file.
pub fn check_no_console(t: &SyntaxTree, file_path: &str, severity: Severity) -> (r: Vec<Issue>)
    requires
        t.wf(),
    ensures
        issue_views(r@) == rule_issues(*t, file_path@, Rule::NoConsole, severity),
{
    run_check(t, file_path, Rule::NoConsole, severity)
}

/// The `no-var` issues of a file.
pub fn check_no_var(t: &SyntaxTree, file_path: &str, severity: Severity) -> (r: Vec<Issue>)
    requires
        t.wf(),
    ensures
        issue_views(r@) == rule_issues(*t, file_path@, Rule::NoVar, severity),
{
    run_check(t, file_path, Rule::NoVar, severity)
}

/// The `eqeqeq` issues of a file.
pub fn check_eqeqeq(t: &SyntaxTree, file_path: &str, severity: Severity) -> (r: Vec<Issue>)
    requires
        t.wf(),
    ensures
        issue_views(r@) == rule_issues(*t, file_path@, Rule::Eqeqeq, severity),
{
    run_check(t, file_path, Rule::Eqeqeq, severity)
}

/// The `no-empty-function` issues of a file.
pub fn check_no_empty_function(t: &SyntaxTree, file_path: &str, severity: Severity) -> (r: Vec<Issue>)
    requires
        t.wf(),
    ensures
        issue_views(r@) == rule_issues(*t, file_path@, Rule::JsNoEmptyFunction, severity),
{
    run_check(t, file_path, Rule::JsNoEmptyFunction, severity)
}

/// The `no-nested-ternary` issues of a file.
pub fn check_no_nested_ternary(t: &SyntaxTree, file_path: &str, severity: Severity) -> (r: Vec<Issue>)
    requires
        t.wf(),
    ensures
        issue_views(r@) == rule_issues(*t, file_path@, Rule::NoNestedTernary, severity),
{
    run_check(t, file_path, Rule::NoNestedTernary, severity)
}

/// The `no-constant-condition` issues of a file.
pub fn check_no_constant_condition(t: &SyntaxTree, file_path: &str, severity: Severity) -> (r: Vec<Issue>)
    requires
        t.wf(),
    ensures
        issue_views(r@) == rule_issues(*t, file_path@, Rule::NoConstantCondition, severity),
{
    run_check(t, file_path, Rule::NoConstantCondition, severity)
}

/// The `default-case` issues of a file.
pub fn check_no_missing_default(t: &SyntaxTree, file_path: &str, severity: Severity) -> (r: Vec<Issue>)
    requires
        t.wf(),
    ensures
        issue_views(r@) == rule_issues(*t, file_path@, Rule::DefaultCase, severity),
{
    run_check(t, file_path, Rule::DefaultCase, severity)
}

/// The `no-fallthrough` issues of a file.
pub fn check_no_fallthrough(t: &SyntaxTree, file_path: &str, severity: Severity) -> (r: Vec<Issue>)
    requires
        t.wf(),
    ensures
        issue_views(r@) == rule_issues(*t, file_path@, Rule::NoFallthrough, severity),
{
    run_check(t, file_path, Rule::NoFallthrough, severity)
}

/// The `no-self-compare` issues of a file.
pub fn check_no_self_compare(t: &SyntaxTree, file_path: &str, severity: Severity) -> (r: Vec<Issue>)
    requires
        t.wf(),
    ensures
        issue_views(r@) == rule_issues(*t, file_path@, Rule::NoSelfCompare, severity),
{
    run_check(t, file_path, Rule::NoSelfCompare, severity)
}

/// The `no-useless-rename` issues of a file.
pub fn check_no_useless_rename(t: &SyntaxTree, file_path: &str, severity: Severity) -> (r: Vec<Issue>)
    requires
        t.wf(),
    ensures
        issue_views(r@) == rule_issues(*t, file_path@, Rule::NoUselessRename, severity),
{
    run_check(t, file_path, Rule::NoUselessRename, severity)
}

/// The `no-empty-pattern` issues of a file.
pub fn check_no_empty_pattern(t: &SyntaxTree, file_path: &str, severity: Severity) -> (r: Vec<Issue>)
    requires
        t.wf(),
    ensures
        issue_views(r@) == rule_issues(*t, file_path@, Rule::NoEmptyPattern, severity),
{
    run_check(t, file_path, Rule::NoEmptyPattern, severity)
}

} // verus!
