//! Entry points of the rules for Python control flow: each runs one rule over a
//! whole tree.
use vstd::prelude::*;
use crate::lint::{run_check, issue_views, rule_issues};
use crate::rules::Rule;
use crate::syntax::SyntaxTree;
use crate::types::{Issue, Severity};

verus! {

/// The `simplify-boolean-return` issues of a file.
pub fn check_simplify_boolean_return(t: &SyntaxTree, file_path: &str, severity: Severity) -> (r: Vec<Issue>)
    requires
        t.wf(),
    ensures
        issue_views(r@) == rule_issues(*t, file_path@, Rule::SimplifyBooleanReturn, severity),
{
    run_check(t, file_path, Rule::SimplifyBooleanReturn, severity)
}

/// The `collapsible-if` issues of a file.
pub fn check_collapsible_if_python(t: &SyntaxTree, file_path: &str, severity: Severity) -> (r: Vec<Issue>)
    requires
        t.wf(),
    ensures
        issue_views(r@) == rule_issues(*t, file_path@, Rule::PyCollapsibleIf, severity),
{
    run_check(t, file_path, Rule::PyCollapsibleIf, severity)
}

/// The `superfluous-else` issues of a file.
pub fn check_superfluous_else(t: &SyntaxTree, file_path: &str, severity: Severity) -> (r: Vec<Issue>)
    requires
        t.wf(),
    ensures
        issue_views(r@) == rule_issues(*t, file_path@, Rule::PySuperfluousElse, severity),
{
    run_check(t, file_path, Rule::PySuperfluousElse, severity)
}

} // verus!
