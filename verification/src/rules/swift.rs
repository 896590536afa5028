//! Rules for Swift.
use vstd::prelude::*;
use crate::lint::{Ctx, HitView, hit_if};
use crate::rules::common::{cat3, head_text, head_text_exec};
use crate::syntax::SyntaxTree;
use crate::text::{contains, starts_with, str_contains, str_eq, str_starts_with};

verus! {

/// The text of the callee of a Swift call expression.
pub open spec fn swift_callee(t: SyntaxTree, i: int) -> Option<Seq<char>> {
    if t.kind(i) == "call_expression"@ {
        head_text(t, i)
    } else {
        None
    }
}

pub fn swift_callee_exec<'a>(t: &'a SyntaxTree, i: usize) -> (r: Option<&'a str>)
    requires
        t.wf(),
        i < t.len(),
    ensures
        match r {
            Some(s) => swift_callee(*t, i as int) == Some(s@),
            None => swift_callee(*t, i as int) is None,
        },
{
    if t.kind_is(i, "call_expression") {
        head_text_exec(t, i)
    } else {
        None
    }
}

/// `no-print` (Swift): a call of `print`, `debugPrint` or `dump`.
pub open spec fn no_print_hits(t: SyntaxTree, i: int) -> Seq<HitView> {
    let n = swift_callee(t, i);
    hit_if(
        n is Some && (n.unwrap() == "print"@ || n.unwrap() == "debugPrint"@ || n.unwrap() == "dump"@),
        t,
        i,
        "no-print"@,
        "Avoid `"@ + n.unwrap() + "()`; use `os_log` or `Logger`"@,
    )
}

pub fn no_print_at(t: &SyntaxTree, i: usize, ctx: &mut Ctx)
    requires
        t.wf(),
        i < t.len(),
        old(ctx).wf(),
    ensures
        final(ctx).grew(*old(ctx), no_print_hits(*t, i as int)),
{
    if let Some(n) = swift_callee_exec(t, i) {
        if str_eq(n, "print") || str_eq(n, "debugPrint") || str_eq(n, "dump") {
            ctx.report(t, i, "no-print", cat3("Avoid `", n, "()`; use `os_log` or `Logger`"));
        }
    }
}

/// `no-force-unwrap`: `x!`.
pub open spec fn no_force_unwrap_hits(t: SyntaxTree, i: int) -> Seq<HitView> {
    hit_if(
        t.kind(i) == "force_unwrap_expression"@,
        t,
        i,
        "no-force-unwrap"@,
        "Avoid force unwrapping `!`; use `if let` or `guard let`"@,
    )
}

pub fn no_force_unwrap_at(t: &SyntaxTree, i: usize, ctx: &mut Ctx)
    requires
        t.wf(),
        i < t.len(),
        old(ctx).wf(),
    ensures
        final(ctx).grew(*old(ctx), no_force_unwrap_hits(*t, i as int)),
{
    if t.kind_is(i, "force_unwrap_expression") {
        ctx.report(t, i, "no-force-unwrap", "Avoid force unwrapping `!`; use `if let` or `guard let`".to_owned());
    }
}

/// `no-force-try`: `try!`.
pub open spec fn no_force_try_hits(t: SyntaxTree, i: int) -> Seq<HitView> {
    hit_if(
        t.kind(i) == "try_expression"@ && starts_with(t.text(i), "try!"@),
        t,
        i,
        "no-force-try"@,
        "Avoid `try!`; use `do/catch` or `try?`"@,
    )
}

pub fn no_force_try_at(t: &SyntaxTree, i: usize, ctx: &mut Ctx)
    requires
        t.wf(),
        i < t.len(),
        old(ctx).wf(),
    ensures
        final(ctx).grew(*old(ctx), no_force_try_hits(*t, i as int)),
{
    if t.kind_is(i, "try_expression") && str_starts_with(t.node_text(i), "try!") {
        ctx.report(t, i, "no-force-try", "Avoid `try!`; use `do/catch` or `try?`".to_owned());
    }
}

/// `no-force-cast`: `as!`.
pub open spec fn no_force_cast_hits(t: SyntaxTree, i: int) -> Seq<HitView> {
    hit_if(
        t.kind(i) == "as_expression"@ && contains(t.text(i), "as!"@),
        t,
        i,
        "no-force-cast"@,
        "Avoid `as!` force cast; use `as?` with optional binding"@,
    )
}

pub fn no_force_cast_at(t: &SyntaxTree, i: usize, ctx: &mut Ctx)
    requires
        t.wf(),
        i < t.len(),
        old(ctx).wf(),
    ensures
        final(ctx).grew(*old(ctx), no_force_cast_hits(*t, i as int)),
{
    if t.kind_is(i, "as_expression") && str_contains(t.node_text(i), "as!") {
        ctx.report(t, i, "no-force-cast", "Avoid `as!` force cast; use `as?` with optional binding".to_owned());
    }
}

/// `no-nslog`: a call of `NSLog`.
pub open spec fn no_nslog_hits(t: SyntaxTree, i: int) -> Seq<HitView> {
    hit_if(
        swift_callee(t, i) == Some("NSLog"@),
        t,
        i,
        "no-nslog"@,
        "Avoid `NSLog`; use `os_log` or `Logger`"@,
    )
}

pub fn no_nslog_at(t: &SyntaxTree, i: usize, ctx: &mut Ctx)
    requires
        t.wf(),
        i < t.len(),
        old(ctx).wf(),
    ensures
        final(ctx).grew(*old(ctx), no_nslog_hits(*t, i as int)),
{
    if let Some(n) = swift_callee_exec(t, i) {
        if str_eq(n, "NSLog") {
            ctx.report(t, i, "no-nslog", "Avoid `NSLog`; use `os_log` or `Logger`".to_owned());
        }
    }
}

/// `no-fatal-error`: a call of `fatalError`.
pub open spec fn no_fatal_error_hits(t: SyntaxTree, i: int) -> Seq<HitView> {
    hit_if(
        swift_callee(t, i) == Some("fatalError"@),
        t,
        i,
        "no-fatal-error"@,
        "Avoid `fatalError()`; handle errors gracefully"@,
    )
}

pub fn no_fatal_error_at(t: &SyntaxTree, i: usize, ctx: &mut Ctx)
    requires
        t.wf(),
        i < t.len(),
        old(ctx).wf(),
    ensures
        final(ctx).grew(*old(ctx), no_fatal_error_hits(*t, i as int)),
{
    if let Some(n) = swift_callee_exec(t, i) {
        if str_eq(n, "fatalError") {
            ctx.report(t, i, "no-fatal-error", "Avoid `fatalError()`; handle errors gracefully".to_owned());
        }
    }
}

} // verus!
