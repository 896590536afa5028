//! Entry points of the rules for JavaScript and TypeScript bug patterns: each runs one rule over a
//! whole tree.
use vstd::prelude::*;
use crate::lint::{run_check, issue_views, rule_issues};
use crate::rules::Rule;
use crate::syntax::SyntaxTree;
use crate::types::{Issue, Severity};

verus! {

/// The `no-debugger` issues of a file.
pub fn check_no_debugger(t: &SyntaxTree, file_path: &str, severity: Severity) -> (r: Vec<Issue>)
    requires
        t.wf(),
    ensures
        issue_views(r@) == rule_issues(*t, file_path@, Rule::NoDebugger, severity),
{
    run_check(t, file_path, Rule::NoDebugger, severity)
}

/// The `no-duplicate-case` issues of a file.
pub fn check_no_duplicate_case(t: &SyntaxTree, file_path: &str, severity: Severity) -> (r: Vec<Issue>)
    requires
        t.wf(),
    ensures
        issue_views(r@) == rule_issues(*t, file_path@, Rule::NoDuplicateCase, severity),
{
    run_check(t, file_path, Rule::NoDuplicateCase, severity)
}

/// The `no-self-assign` issues of a file.
pub fn check_no_self_assign(t: &SyntaxTree, file_path: &str, severity: Severity) -> (r: Vec<Issue>)
    requires
        t.wf(),
    ensures
        issue_views(r@) == rule_issues(*t, file_path@, Rule::NoSelfAssign, severity),
{
    run_check(t, file_path, Rule::NoSelfAssign, severity)
}

/// The `no-eval` issues of a file.
pub fn check_no_eval(t: &SyntaxTree, file_path: &str, severity: Severity) -> (r: Vec<Issue>)
    requires
        t.wf(),
    ensures
        issue_views(r@) == rule_issues(*t, file_path@, Rule::JsNoEval, severity),
{
    run_check(t, file_path, Rule::JsNoEval, severity)
}

/// The `no-useless-catch` issues of a file.
pub fn check_no_useless_catch(t: &SyntaxTree, file_path: &str, severity: Severity) -> (r: Vec<Issue>)
    requires
        t.wf(),
    ensures
        issue_views(r@) == rule_issues(*t, file_path@, Rule::NoUselessCatch, severity),
{
    run_check(t, file_path, Rule::NoUselessCatch, severity)
}

/// The `use-isnan` issues of a file.
pub fn check_use_isnan(t: &SyntaxTree, file_path: &str, severity: Severity) -> (r: Vec<Issue>)
    requires
        t.wf(),
    ensures
        issue_views(r@) == rule_issues(*t, file_path@, Rule::UseIsnan, severity),
{
    run_check(t, file_path, Rule::UseIsnan, severity)
}

/// The `no-compare-neg-zero` issues of a file.
pub fn check_no_compare_neg_zero(t: &SyntaxTree, file_path: &str, severity: Severity) -> (r: Vec<Issue>)
    requires
        t.wf(),
    ensures
        issue_views(r@) == rule_issues(*t, file_path@, Rule::NoCompareNegZero, severity),
{
    run_check(t, file_path, Rule::NoCompareNegZero, severity)
}

/// The `no-unsafe-negation` issues of a file.
pub fn check_no_unsafe_negation(t: &SyntaxTree, file_path: &str, severity: Severity) -> (r: Vec<Issue>)
    requires
        t.wf(),
    ensures
        issue_views(r@) == rule_issues(*t, file_path@, Rule::NoUnsafeNegation, severity),
{
    run_check(t, file_path, Rule::NoUnsafeNegation, severity)
}

/// The `no-constructor-return` issues of a file.
pub fn check_no_constructor_return(t: &SyntaxTree, file_path: &str, severity: Severity) -> (r: Vec<Issue>)
    requires
        t.wf(),
    ensures
        issue_views(r@) == rule_issues(*t, file_path@, Rule::NoConstructorReturn, severity),
{
    run_check(t, file_path, Rule::NoConstructorReturn, severity)
}

/// The `valid-typeof` issues of a file.
pub fn check_valid_typeof(t: &SyntaxTree, file_path: &str, severity: Severity) -> (r: Vec<Issue>)
    requires
        t.wf(),
    ensures
        issue_views(r@) == rule_issues(*t, file_path@, Rule::ValidTypeof, severity),
{
    run_check(t, file_path, Rule::ValidTypeof, severity)
}

} // verus!
