//! Entry points of the rules for JavaScript and TypeScript control flow: each runs one rule over a
//! whole tree.
use vstd::prelude::*;
use crate::lint::{run_check, issue_views, rule_issues};
use crate::rules::Rule;
use crate::syntax::SyntaxTree;
use crate::types::{Issue, Severity};

verus! {

/// The `no-unreachable` issues of a file.
pub fn check_no_unreachable(t: &SyntaxTree, file_path: &str, severity: Severity) -> (r: Vec<Issue>)
    requires
        t.wf(),
    ensures
        issue_views(r@) == rule_issues(*t, file_path@, Rule::JsNoUnreachable, severity),
{
    run_check(t, file_path, Rule::JsNoUnreachable, severity)
}

} // verus!
