//! Entry point of the parameter-count rule; the file-length and nesting
//! rules are [`crate::threshold::check_max_lines`] and
//! [`crate::threshold::check_max_depth`].
use vstd::prelude::*;
use crate::lint::{run_check, issue_views, rule_issues};
use crate::rules::Rule;
use crate::syntax::SyntaxTree;
use crate::types::{Issue, Severity};

verus! {

/// The `max-params` issues of a file: each function with more than `max`
/// parameters.
pub fn check_max_params(t: &SyntaxTree, file_path: &str, severity: Severity, max: usize) -> (r: Vec<Issue>)
    requires
        t.wf(),
    ensures
        issue_views(r@) == rule_issues(*t, file_path@, Rule::MaxParams(max), severity),
{
    run_check(t, file_path, Rule::MaxParams(max), severity)
}

} // verus!
