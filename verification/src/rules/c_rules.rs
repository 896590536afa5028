//! Entry points of the rules for C and C++: each runs one rule over a
//! whole tree.
use vstd::prelude::*;
use crate::lint::{run_check, issue_views, rule_issues};
use crate::rules::Rule;
use crate::syntax::SyntaxTree;
use crate::types::{Issue, Severity};

verus! {

/// The `no-printf` issues of a file.
pub fn check_no_printf(t: &SyntaxTree, file_path: &str, severity: Severity) -> (r: Vec<Issue>)
    requires
        t.wf(),
    ensures
        issue_views(r@) == rule_issues(*t, file_path@, Rule::NoPrintf, severity),
{
    run_check(t, file_path, Rule::NoPrintf, severity)
}

/// The `no-unsafe-fn` issues of a file.
pub fn check_no_unsafe_fn(t: &SyntaxTree, file_path: &str, severity: Severity) -> (r: Vec<Issue>)
    requires
        t.wf(),
    ensures
        issue_views(r@) == rule_issues(*t, file_path@, Rule::NoUnsafeFn, severity),
{
    run_check(t, file_path, Rule::NoUnsafeFn, severity)
}

/// The `no-malloc` issues of a file.
pub fn check_no_malloc(t: &SyntaxTree, file_path: &str, severity: Severity) -> (r: Vec<Issue>)
    requires
        t.wf(),
    ensures
        issue_views(r@) == rule_issues(*t, file_path@, Rule::NoMalloc, severity),
{
    run_check(t, file_path, Rule::NoMalloc, severity)
}

/// The `no-goto` issues of a file.
pub fn check_no_goto(t: &SyntaxTree, file_path: &str, severity: Severity) -> (r: Vec<Issue>)
    requires
        t.wf(),
    ensures
        issue_views(r@) == rule_issues(*t, file_path@, Rule::NoGoto, severity),
{
    run_check(t, file_path, Rule::NoGoto, severity)
}

/// The `no-sizeof-ptr` issues of a file.
pub fn check_no_sizeof_ptr(t: &SyntaxTree, file_path: &str, severity: Severity) -> (r: Vec<Issue>)
    requires
        t.wf(),
    ensures
        issue_views(r@) == rule_issues(*t, file_path@, Rule::NoSizeofPtr, severity),
{
    run_check(t, file_path, Rule::NoSizeofPtr, severity)
}

/// The `no-magic-number` issues of a file.
pub fn check_no_magic_number(t: &SyntaxTree, file_path: &str, severity: Severity) -> (r: Vec<Issue>)
    requires
        t.wf(),
    ensures
        issue_views(r@) == rule_issues(*t, file_path@, Rule::NoMagicNumber, severity),
{
    run_check(t, file_path, Rule::NoMagicNumber, severity)
}

/// The `no-implicit-fallthrough` issues of a file.
pub fn check_no_implicit_fallthrough_c(t: &SyntaxTree, file_path: &str, severity: Severity) -> (r: Vec<Issue>)
    requires
        t.wf(),
    ensures
        issue_views(r@) == rule_issues(*t, file_path@, Rule::NoImplicitFallthrough, severity),
{
    run_check(t, file_path, Rule::NoImplicitFallthrough, severity)
}

/// The `no-empty-if` issues of a file.
pub fn check_no_empty_if_c(t: &SyntaxTree, file_path: &str, severity: Severity) -> (r: Vec<Issue>)
    requires
        t.wf(),
    ensures
        issue_views(r@) == rule_issues(*t, file_path@, Rule::CNoEmptyIf, severity),
{
    run_check(t, file_path, Rule::CNoEmptyIf, severity)
}

/// The `no-void-main` issues of a file.
pub fn check_no_void_main(t: &SyntaxTree, file_path: &str, severity: Severity) -> (r: Vec<Issue>)
    requires
        t.wf(),
    ensures
        issue_views(r@) == rule_issues(*t, file_path@, Rule::NoVoidMain, severity),
{
    run_check(t, file_path, Rule::NoVoidMain, severity)
}

} // verus!
