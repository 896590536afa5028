//! Rules for Zig.
use vstd::prelude::*;
use crate::lint::{Ctx, HitView, hit_if};
use crate::rules::common::{kids_of_kind, kids_of_kind_exec, parent_kind_is, parent_is, trim_front_exec, trim_ws_front};
use crate::syntax::SyntaxTree;
use crate::text::{contains, starts_with, str_contains, str_starts_with};

verus! {

/// `no-debug-print`: a call mentioning `std.debug.print` or `std.log`.
pub open spec fn no_debug_print_hits(t: SyntaxTree, i: int) -> Seq<HitView> {
    hit_if(
        t.kind(i) == "call_expression"@ && (contains(t.text(i), "std.debug.print"@) || contains(
            t.text(i),
            "std.log"@,
        )),
        t,
        i,
        "no-debug-print"@,
        "Avoid `std.debug.print` in production code"@,
    )
}

pub fn no_debug_print_at(t: &SyntaxTree, i: usize, ctx: &mut Ctx)
    requires
        t.wf(),
        i < t.len(),
        old(ctx).wf(),
    ensures
        final(ctx).grew(*old(ctx), no_debug_print_hits(*t, i as int)),
{
    if t.kind_is(i, "call_expression") && (str_contains(t.node_text(i), "std.debug.print") || str_contains(
        t.node_text(i),
        "std.log",
    )) {
        ctx.report(t, i, "no-debug-print", "Avoid `std.debug.print` in production code".to_owned());
    }
}

/// `no-unreachable` (Zig): the identifier `unreachable` used as an
/// expression (in a call, a block or an expression statement).
pub open spec fn no_unreachable_hits(t: SyntaxTree, i: int) -> Seq<HitView> {
    hit_if(
        t.kind(i) == "identifier"@ && t.text(i) == "unreachable"@ && (parent_kind_is(t, i, "call_expression"@)
            || parent_kind_is(t, i, "block"@) || parent_kind_is(t, i, "expression_statement"@)),
        t,
        i,
        "no-unreachable"@,
        "`unreachable` indicates unfinished logic"@,
    )
}

pub fn no_unreachable_at(t: &SyntaxTree, i: usize, ctx: &mut Ctx)
    requires
        t.wf(),
        i < t.len(),
        old(ctx).wf(),
    ensures
        final(ctx).grew(*old(ctx), no_unreachable_hits(*t, i as int)),
{
    if t.kind_is(i, "identifier") && t.text_is(i, "unreachable") && (parent_is(t, i, "call_expression")
        || parent_is(t, i, "block") || parent_is(t, i, "expression_statement")) {
        ctx.report(t, i, "no-unreachable", "`unreachable` indicates unfinished logic".to_owned());
    }
}

/// `no-panic` (Zig): `@panic(...)`.
pub open spec fn no_panic_hits(t: SyntaxTree, i: int) -> Seq<HitView> {
    hit_if(
        t.kind(i) == "builtin_call_expression"@ && starts_with(t.text(i), "@panic"@),
        t,
        i,
        "no-panic"@,
        "Avoid `@panic`; return an error instead"@,
    )
}

pub fn no_panic_at(t: &SyntaxTree, i: usize, ctx: &mut Ctx)
    requires
        t.wf(),
        i < t.len(),
        old(ctx).wf(),
    ensures
        final(ctx).grew(*old(ctx), no_panic_hits(*t, i as int)),
{
    if t.kind_is(i, "builtin_call_expression") && str_starts_with(t.node_text(i), "@panic") {
        ctx.report(t, i, "no-panic", "Avoid `@panic`; return an error instead".to_owned());
    }
}

/// Whether a switch prong is a catch-all: `else => ...` or `_ => ...`.
pub open spec fn is_catch_all(s: Seq<char>) -> bool {
    starts_with(s, "else"@) || starts_with(trim_ws_front(s), "_ =>"@)
}

/// `no-catch-all-switch`: a switch of several prongs whose last prong is a
/// catch-all; reported at that prong.
pub open spec fn no_catch_all_switch_hits(t: SyntaxTree, i: int) -> Seq<HitView> {
    let ps = kids_of_kind(t, i, "switch_prong"@);
    if t.kind(i) == "switch_expression"@ && ps.len() > 1 && is_catch_all(t.text(ps.last() as int)) {
        seq![
            crate::lint::hit(
                t,
                ps.last() as int,
                "no-catch-all-switch"@,
                "Catch-all `else`/`_` in switch may hide unhandled cases"@,
            ),
        ]
    } else {
        seq![]
    }
}

pub fn no_catch_all_switch_at(t: &SyntaxTree, i: usize, ctx: &mut Ctx)
    requires
        t.wf(),
        i < t.len(),
        old(ctx).wf(),
    ensures
        final(ctx).grew(*old(ctx), no_catch_all_switch_hits(*t, i as int)),
{
    if !t.kind_is(i, "switch_expression") {
        return;
    }
    let ps = kids_of_kind_exec(t, i, "switch_prong");
    if ps.len() > 1 {
        let last = ps[ps.len() - 1];
        let s = t.node_text(last);
        if str_starts_with(s, "else") || str_starts_with(trim_front_exec(s), "_ =>") {
            ctx.report(
                t,
                last,
                "no-catch-all-switch",
                "Catch-all `else`/`_` in switch may hide unhandled cases".to_owned(),
            );
        }
    }
}

} // verus!
