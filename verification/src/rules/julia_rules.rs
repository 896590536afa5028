//! Entry points of the rules for Julia: each runs one rule over a
//! whole tree.
use vstd::prelude::*;
use crate::lint::{run_check, issue_views, rule_issues};
use crate::rules::Rule;
use crate::syntax::SyntaxTree;
use crate::types::{Issue, Severity};

verus! {

/// The `no-println` issues of a file.
pub fn check_no_println(t: &SyntaxTree, file_path: &str, severity: Severity) -> (r: Vec<Issue>)
    requires
        t.wf(),
    ensures
        issue_views(r@) == rule_issues(*t, file_path@, Rule::JuliaNoPrintln, severity),
{
    run_check(t, file_path, Rule::JuliaNoPrintln, severity)
}

/// The `no-eval` issues of a file.
pub fn check_no_eval(t: &SyntaxTree, file_path: &str, severity: Severity) -> (r: Vec<Issue>)
    requires
        t.wf(),
    ensures
        issue_views(r@) == rule_issues(*t, file_path@, Rule::JuliaNoEval, severity),
{
    run_check(t, file_path, Rule::JuliaNoEval, severity)
}

/// The `no-global-mutable` issues of a file.
pub fn check_no_global_mutable(t: &SyntaxTree, file_path: &str, severity: Severity) -> (r: Vec<Issue>)
    requires
        t.wf(),
    ensures
        issue_views(r@) == rule_issues(*t, file_path@, Rule::NoGlobalMutable, severity),
{
    run_check(t, file_path, Rule::NoGlobalMutable, severity)
}

/// The `no-bare-ccall` issues of a file.
pub fn check_no_bare_ccall(t: &SyntaxTree, file_path: &str, severity: Severity) -> (r: Vec<Issue>)
    requires
        t.wf(),
    ensures
        issue_views(r@) == rule_issues(*t, file_path@, Rule::NoBareCcall, severity),
{
    run_check(t, file_path, Rule::NoBareCcall, severity)
}

} // verus!
