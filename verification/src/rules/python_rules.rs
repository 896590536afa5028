//! Entry points of the rules for Python: each runs one rule over a
//! whole tree.
use vstd::prelude::*;
use crate::lint::{run_check, issue_views, rule_issues};
use crate::rules::Rule;
use crate::syntax::SyntaxTree;
use crate::types::{Issue, Severity};

verus! {

/// The `no-bare-except` issues of a file.
pub fn check_no_bare_except(t: &SyntaxTree, file_path: &str, severity: Severity) -> (r: Vec<Issue>)
    requires
        t.wf(),
    ensures
        issue_views(r@) == rule_issues(*t, file_path@, Rule::NoBareExcept, severity),
{
    run_check(t, file_path, Rule::NoBareExcept, severity)
}

/// The `no-print` issues of a file.
pub fn check_no_print(t: &SyntaxTree, file_path: &str, severity: Severity) -> (r: Vec<Issue>)
    requires
        t.wf(),
    ensures
        issue_views(r@) == rule_issues(*t, file_path@, Rule::PyNoPrint, severity),
{
    run_check(t, file_path, Rule::PyNoPrint, severity)
}

/// The `no-eval` issues of a file.
pub fn check_no_eval_exec(t: &SyntaxTree, file_path: &str, severity: Severity) -> (r: Vec<Issue>)
    requires
        t.wf(),
    ensures
        issue_views(r@) == rule_issues(*t, file_path@, Rule::PyNoEval, severity),
{
    run_check(t, file_path, Rule::PyNoEval, severity)
}

/// The `no-mutable-default` issues of a file.
pub fn check_no_mutable_default(t: &SyntaxTree, file_path: &str, severity: Severity) -> (r: Vec<Issue>)
    requires
        t.wf(),
    ensures
        issue_views(r@) == rule_issues(*t, file_path@, Rule::NoMutableDefault, severity),
{
    run_check(t, file_path, Rule::NoMutableDefault, severity)
}

/// The `no-global` issues of a file.
pub fn check_no_global(t: &SyntaxTree, file_path: &str, severity: Severity) -> (r: Vec<Issue>)
    requires
        t.wf(),
    ensures
        issue_views(r@) == rule_issues(*t, file_path@, Rule::PyNoGlobal, severity),
{
    run_check(t, file_path, Rule::PyNoGlobal, severity)
}

/// The `no-assert` issues of a file.
pub fn check_no_assert(t: &SyntaxTree, file_path: &str, severity: Severity) -> (r: Vec<Issue>)
    requires
        t.wf(),
    ensures
        issue_views(r@) == rule_issues(*t, file_path@, Rule::NoAssert, severity),
{
    run_check(t, file_path, Rule::NoAssert, severity)
}

/// The `unreachable` issues of a file.
pub fn check_unreachable(t: &SyntaxTree, file_path: &str, severity: Severity) -> (r: Vec<Issue>)
    requires
        t.wf(),
    ensures
        issue_views(r@) == rule_issues(*t, file_path@, Rule::Unreachable, severity),
{
    run_check(t, file_path, Rule::Unreachable, severity)
}

/// The `pointless-except` issues of a file.
pub fn check_no_pointless_except(t: &SyntaxTree, file_path: &str, severity: Severity) -> (r: Vec<Issue>)
    requires
        t.wf(),
    ensures
        issue_views(r@) == rule_issues(*t, file_path@, Rule::PointlessExcept, severity),
{
    run_check(t, file_path, Rule::PointlessExcept, severity)
}

/// The `no-pass-body` issues of a file.
pub fn check_no_pass_body(t: &SyntaxTree, file_path: &str, severity: Severity) -> (r: Vec<Issue>)
    requires
        t.wf(),
    ensures
        issue_views(r@) == rule_issues(*t, file_path@, Rule::NoPassBody, severity),
{
    run_check(t, file_path, Rule::NoPassBody, severity)
}

/// The `no-star-import` issues of a file.
pub fn check_no_star_import(t: &SyntaxTree, file_path: &str, severity: Severity) -> (r: Vec<Issue>)
    requires
        t.wf(),
    ensures
        issue_views(r@) == rule_issues(*t, file_path@, Rule::NoStarImport, severity),
{
    run_check(t, file_path, Rule::NoStarImport, severity)
}

/// The `no-nested-with` issues of a file.
pub fn check_no_nested_with(t: &SyntaxTree, file_path: &str, severity: Severity) -> (r: Vec<Issue>)
    requires
        t.wf(),
    ensures
        issue_views(r@) == rule_issues(*t, file_path@, Rule::NoNestedWith, severity),
{
    run_check(t, file_path, Rule::NoNestedWith, severity)
}

/// The `no-return-in-init` issues of a file.
pub fn check_no_return_in_init(t: &SyntaxTree, file_path: &str, severity: Severity) -> (r: Vec<Issue>)
    requires
        t.wf(),
    ensures
        issue_views(r@) == rule_issues(*t, file_path@, Rule::NoReturnInInit, severity),
{
    run_check(t, file_path, Rule::NoReturnInInit, severity)
}

/// The `simplify-boolean-return` issues of a file.
pub fn check_simplify_boolean_return(t: &SyntaxTree, file_path: &str, severity: Severity) -> (r: Vec<Issue>)
    requires
        t.wf(),
    ensures
        issue_views(r@) == rule_issues(*t, file_path@, Rule::SimplifyBooleanReturn, severity),
{
    run_check(t, file_path, Rule::SimplifyBooleanReturn, severity)
}

/// The `collapsible-if` issues of a file.
pub fn check_collapsible_if_python(t: &SyntaxTree, file_path: &str, severity: Severity) -> (r: Vec<Issue>)
    requires
        t.wf(),
    ensures
        issue_views(r@) == rule_issues(*t, file_path@, Rule::PyCollapsibleIf, severity),
{
    run_check(t, file_path, Rule::PyCollapsibleIf, severity)
}

/// The `superfluous-else` issues of a file.
pub fn check_superfluous_else(t: &SyntaxTree, file_path: &str, severity: Severity) -> (r: Vec<Issue>)
    requires
        t.wf(),
    ensures
        issue_views(r@) == rule_issues(*t, file_path@, Rule::PySuperfluousElse, severity),
{
    run_check(t, file_path, Rule::PySuperfluousElse, severity)
}

} // verus!
