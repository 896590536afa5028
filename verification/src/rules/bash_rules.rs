//! Entry points of the rules for shell scripts: each runs one rule over a
//! whole tree.
use vstd::prelude::*;
use crate::lint::{run_check, issue_views, rule_issues};
use crate::rules::Rule;
use crate::syntax::SyntaxTree;
use crate::types::{Issue, Severity};

verus! {

/// The `unquoted-expansion` issues of a file.
pub fn check_unquoted_expansion(t: &SyntaxTree, file_path: &str, severity: Severity) -> (r: Vec<Issue>)
    requires
        t.wf(),
    ensures
        issue_views(r@) == rule_issues(*t, file_path@, Rule::UnquotedExpansion, severity),
{
    run_check(t, file_path, Rule::UnquotedExpansion, severity)
}

/// The `no-eval` issues of a file.
pub fn check_no_eval(t: &SyntaxTree, file_path: &str, severity: Severity) -> (r: Vec<Issue>)
    requires
        t.wf(),
    ensures
        issue_views(r@) == rule_issues(*t, file_path@, Rule::BashNoEval, severity),
{
    run_check(t, file_path, Rule::BashNoEval, severity)
}

/// The `cd-without-or` issues of a file.
pub fn check_cd_without_or(t: &SyntaxTree, file_path: &str, severity: Severity) -> (r: Vec<Issue>)
    requires
        t.wf(),
    ensures
        issue_views(r@) == rule_issues(*t, file_path@, Rule::CdWithoutOr, severity),
{
    run_check(t, file_path, Rule::CdWithoutOr, severity)
}

/// The `useless-cat` issues of a file.
pub fn check_useless_cat(t: &SyntaxTree, file_path: &str, severity: Severity) -> (r: Vec<Issue>)
    requires
        t.wf(),
    ensures
        issue_views(r@) == rule_issues(*t, file_path@, Rule::UselessCat, severity),
{
    run_check(t, file_path, Rule::UselessCat, severity)
}

/// The `dangerous-rm` issues of a file.
pub fn check_dangerous_rm(t: &SyntaxTree, file_path: &str, severity: Severity) -> (r: Vec<Issue>)
    requires
        t.wf(),
    ensures
        issue_views(r@) == rule_issues(*t, file_path@, Rule::DangerousRm, severity),
{
    run_check(t, file_path, Rule::DangerousRm, severity)
}

/// The `no-set-e` issues of a file.
pub fn check_no_set_e(t: &SyntaxTree, file_path: &str, severity: Severity) -> (r: Vec<Issue>)
    requires
        t.wf(),
    ensures
        issue_views(r@) == rule_issues(*t, file_path@, Rule::NoSetE, severity),
{
    run_check(t, file_path, Rule::NoSetE, severity)
}

/// The `test-equals` issues of a file.
pub fn check_test_equals(t: &SyntaxTree, file_path: &str, severity: Severity) -> (r: Vec<Issue>)
    requires
        t.wf(),
    ensures
        issue_views(r@) == rule_issues(*t, file_path@, Rule::TestEquals, severity),
{
    run_check(t, file_path, Rule::TestEquals, severity)
}

} // verus!
