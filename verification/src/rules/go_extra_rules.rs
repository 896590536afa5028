//! Entry points of the rules for Go (style): each runs one rule over a
//! whole tree.
use vstd::prelude::*;
use crate::lint::{run_check, issue_views, rule_issues};
use crate::rules::Rule;
use crate::syntax::SyntaxTree;
use crate::types::{Issue, Severity};

verus! {

/// The `no-shadow-import` issues of a file.
pub fn check_no_shadow_import(t: &SyntaxTree, file_path: &str, severity: Severity) -> (r: Vec<Issue>)
    requires
        t.wf(),
    ensures
        issue_views(r@) == rule_issues(*t, file_path@, Rule::NoShadowImport, severity),
{
    run_check(t, file_path, Rule::NoShadowImport, severity)
}

/// The `collapsible-if` issues of a file.
pub fn check_collapsible_if_go(t: &SyntaxTree, file_path: &str, severity: Severity) -> (r: Vec<Issue>)
    requires
        t.wf(),
    ensures
        issue_views(r@) == rule_issues(*t, file_path@, Rule::GoCollapsibleIf, severity),
{
    run_check(t, file_path, Rule::GoCollapsibleIf, severity)
}

/// The `superfluous-else` issues of a file.
pub fn check_superfluous_else_go(t: &SyntaxTree, file_path: &str, severity: Severity) -> (r: Vec<Issue>)
    requires
        t.wf(),
    ensures
        issue_views(r@) == rule_issues(*t, file_path@, Rule::GoSuperfluousElse, severity),
{
    run_check(t, file_path, Rule::GoSuperfluousElse, severity)
}

} // verus!
