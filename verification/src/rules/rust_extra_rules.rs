//! Entry points of the rules for Rust (Clippy-like): each runs one rule over a
//! whole tree.
use vstd::prelude::*;
use crate::lint::{run_check, issue_views, rule_issues};
use crate::rules::Rule;
use crate::syntax::SyntaxTree;
use crate::types::{Issue, Severity};

verus! {

/// The `collapsible-if` issues of a file.
pub fn check_collapsible_if(t: &SyntaxTree, file_path: &str, severity: Severity) -> (r: Vec<Issue>)
    requires
        t.wf(),
    ensures
        issue_views(r@) == rule_issues(*t, file_path@, Rule::RustCollapsibleIf, severity),
{
    run_check(t, file_path, Rule::RustCollapsibleIf, severity)
}

/// The `single-match` issues of a file.
pub fn check_single_match(t: &SyntaxTree, file_path: &str, severity: Severity) -> (r: Vec<Issue>)
    requires
        t.wf(),
    ensures
        issue_views(r@) == rule_issues(*t, file_path@, Rule::SingleMatch, severity),
{
    run_check(t, file_path, Rule::SingleMatch, severity)
}

/// The `manual-map` issues of a file.
pub fn check_manual_map(t: &SyntaxTree, file_path: &str, severity: Severity) -> (r: Vec<Issue>)
    requires
        t.wf(),
    ensures
        issue_views(r@) == rule_issues(*t, file_path@, Rule::ManualMap, severity),
{
    run_check(t, file_path, Rule::ManualMap, severity)
}

/// The `redundant-clone` issues of a file.
pub fn check_redundant_clone(t: &SyntaxTree, file_path: &str, severity: Severity) -> (r: Vec<Issue>)
    requires
        t.wf(),
    ensures
        issue_views(r@) == rule_issues(*t, file_path@, Rule::RedundantClone, severity),
{
    run_check(t, file_path, Rule::RedundantClone, severity)
}

/// The `eq-op` issues of a file.
pub fn check_eq_op(t: &SyntaxTree, file_path: &str, severity: Severity) -> (r: Vec<Issue>)
    requires
        t.wf(),
    ensures
        issue_views(r@) == rule_issues(*t, file_path@, Rule::EqOp, severity),
{
    run_check(t, file_path, Rule::EqOp, severity)
}

} // verus!
