//! Entry points of the rules for Rust: each runs one rule over a
//! whole tree.
use vstd::prelude::*;
use crate::lint::{run_check, issue_views, rule_issues};
use crate::rules::Rule;
use crate::syntax::SyntaxTree;
use crate::types::{Issue, Severity};

verus! {

/// The `no-unsafe` issues of a file.
pub fn check_no_unsafe(t: &SyntaxTree, file_path: &str, severity: Severity) -> (r: Vec<Issue>)
    requires
        t.wf(),
    ensures
        issue_views(r@) == rule_issues(*t, file_path@, Rule::NoUnsafe, severity),
{
    run_check(t, file_path, Rule::NoUnsafe, severity)
}

/// The `no-unwrap` issues of a file.
pub fn check_no_unwrap(t: &SyntaxTree, file_path: &str, severity: Severity) -> (r: Vec<Issue>)
    requires
        t.wf(),
    ensures
        issue_views(r@) == rule_issues(*t, file_path@, Rule::NoUnwrap, severity),
{
    run_check(t, file_path, Rule::NoUnwrap, severity)
}

/// The `no-dbg` issues of a file.
pub fn check_no_dbg(t: &SyntaxTree, file_path: &str, severity: Severity) -> (r: Vec<Issue>)
    requires
        t.wf(),
    ensures
        issue_views(r@) == rule_issues(*t, file_path@, Rule::NoDbg, severity),
{
    run_check(t, file_path, Rule::NoDbg, severity)
}

/// The `no-todo` issues of a file.
pub fn check_no_todo(t: &SyntaxTree, file_path: &str, severity: Severity) -> (r: Vec<Issue>)
    requires
        t.wf(),
    ensures
        issue_views(r@) == rule_issues(*t, file_path@, Rule::RustNoTodo, severity),
{
    run_check(t, file_path, Rule::RustNoTodo, severity)
}

/// The `no-println` issues of a file.
pub fn check_no_println(t: &SyntaxTree, file_path: &str, severity: Severity) -> (r: Vec<Issue>)
    requires
        t.wf(),
    ensures
        issue_views(r@) == rule_issues(*t, file_path@, Rule::RustNoPrintln, severity),
{
    run_check(t, file_path, Rule::RustNoPrintln, severity)
}

/// The `needless-bool` issues of a file.
pub fn check_needless_bool(t: &SyntaxTree, file_path: &str, severity: Severity) -> (r: Vec<Issue>)
    requires
        t.wf(),
    ensures
        issue_views(r@) == rule_issues(*t, file_path@, Rule::NeedlessBool, severity),
{
    run_check(t, file_path, Rule::NeedlessBool, severity)
}

/// The `no-empty-function` issues of a file.
pub fn check_no_empty_function_rust(t: &SyntaxTree, file_path: &str, severity: Severity) -> (r: Vec<Issue>)
    requires
        t.wf(),
    ensures
        issue_views(r@) == rule_issues(*t, file_path@, Rule::RustNoEmptyFunction, severity),
{
    run_check(t, file_path, Rule::RustNoEmptyFunction, severity)
}

/// The `needless-return` issues of a file.
pub fn check_needless_return(t: &SyntaxTree, file_path: &str, severity: Severity) -> (r: Vec<Issue>)
    requires
        t.wf(),
    ensures
        issue_views(r@) == rule_issues(*t, file_path@, Rule::NeedlessReturn, severity),
{
    run_check(t, file_path, Rule::NeedlessReturn, severity)
}

/// The `bool-comparison` issues of a file.
pub fn check_bool_comparison(t: &SyntaxTree, file_path: &str, severity: Severity) -> (r: Vec<Issue>)
    requires
        t.wf(),
    ensures
        issue_views(r@) == rule_issues(*t, file_path@, Rule::BoolComparison, severity),
{
    run_check(t, file_path, Rule::BoolComparison, severity)
}

} // verus!
