//! Entry points of the rules for Lean 4: each runs one rule over a
//! whole tree.
use vstd::prelude::*;
use crate::lint::{run_check, issue_views, rule_issues};
use crate::rules::Rule;
use crate::syntax::SyntaxTree;
use crate::types::{Issue, Severity};

verus! {

/// The `no-sorry` issues of a file.
pub fn check_no_sorry(t: &SyntaxTree, file_path: &str, severity: Severity) -> (r: Vec<Issue>)
    requires
        t.wf(),
    ensures
        issue_views(r@) == rule_issues(*t, file_path@, Rule::NoSorry, severity),
{
    run_check(t, file_path, Rule::NoSorry, severity)
}

/// The `no-axiom` issues of a file.
pub fn check_no_axiom(t: &SyntaxTree, file_path: &str, severity: Severity) -> (r: Vec<Issue>)
    requires
        t.wf(),
    ensures
        issue_views(r@) == rule_issues(*t, file_path@, Rule::NoAxiom, severity),
{
    run_check(t, file_path, Rule::NoAxiom, severity)
}

/// The `no-native-decide` issues of a file.
pub fn check_no_native_decide(t: &SyntaxTree, file_path: &str, severity: Severity) -> (r: Vec<Issue>)
    requires
        t.wf(),
    ensures
        issue_views(r@) == rule_issues(*t, file_path@, Rule::NoNativeDecide, severity),
{
    run_check(t, file_path, Rule::NoNativeDecide, severity)
}

/// The `no-unsafe` issues of a file.
pub fn check_no_unsafe(t: &SyntaxTree, file_path: &str, severity: Severity) -> (r: Vec<Issue>)
    requires
        t.wf(),
    ensures
        issue_views(r@) == rule_issues(*t, file_path@, Rule::LeanNoUnsafe, severity),
{
    run_check(t, file_path, Rule::LeanNoUnsafe, severity)
}

/// The `no-unlimited-heartbeats` issues of a file.
pub fn check_no_unlimited_heartbeats(t: &SyntaxTree, file_path: &str, severity: Severity) -> (r: Vec<Issue>)
    requires
        t.wf(),
    ensures
        issue_views(r@) == rule_issues(*t, file_path@, Rule::NoUnlimitedHeartbeats, severity),
{
    run_check(t, file_path, Rule::NoUnlimitedHeartbeats, severity)
}

/// The `no-partial-def` issues of a file.
pub fn check_no_partial_def(t: &SyntaxTree, file_path: &str, severity: Severity) -> (r: Vec<Issue>)
    requires
        t.wf(),
    ensures
        issue_views(r@) == rule_issues(*t, file_path@, Rule::NoPartialDef, severity),
{
    run_check(t, file_path, Rule::NoPartialDef, severity)
}

/// The `no-dbg-trace` issues of a file.
pub fn check_no_dbg_trace(t: &SyntaxTree, file_path: &str, severity: Severity) -> (r: Vec<Issue>)
    requires
        t.wf(),
    ensures
        issue_views(r@) == rule_issues(*t, file_path@, Rule::NoDbgTrace, severity),
{
    run_check(t, file_path, Rule::NoDbgTrace, severity)
}

/// The `no-debug-command` issues of a file.
pub fn check_no_debug_command(t: &SyntaxTree, file_path: &str, severity: Severity) -> (r: Vec<Issue>)
    requires
        t.wf(),
    ensures
        issue_views(r@) == rule_issues(*t, file_path@, Rule::NoDebugCommand, severity),
{
    run_check(t, file_path, Rule::NoDebugCommand, severity)
}

} // verus!
