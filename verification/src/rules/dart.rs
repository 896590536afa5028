//! Rules for Dart and Julia.
use vstd::prelude::*;
use crate::lint::{Ctx, HitView, hit_if};
use crate::rules::common::{
    Noise, cat3, head_text, head_text_exec, kids_except, kids_except_exec, parent_kind_is, parent_is, trim_ws,
    trim_ws_exec,
};
use crate::rules::jvm::{catch_body_empty, catch_body_empty_exec};
use crate::syntax::SyntaxTree;
use crate::text::{starts_with, str_eq, str_starts_with};

verus! {

/// `no-print` (Dart): the identifier `print`, unless it is a selector or an
/// expression body.
pub open spec fn dart_no_print_hits(t: SyntaxTree, i: int) -> Seq<HitView> {
    hit_if(
        t.kind(i) == "identifier"@ && t.text(i) == "print"@ && !parent_kind_is(t, i, "selector"@)
            && !parent_kind_is(t, i, "function_expression_body"@),
        t,
        i,
        "no-print"@,
        "Avoid `print()`; use a logging package"@,
    )
}

pub fn dart_no_print_at(t: &SyntaxTree, i: usize, ctx: &mut Ctx)
    requires
        t.wf(),
        i < t.len(),
        old(ctx).wf(),
    ensures
        final(ctx).grew(*old(ctx), dart_no_print_hits(*t, i as int)),
{
    if t.kind_is(i, "identifier") && t.text_is(i, "print") && !parent_is(t, i, "selector") && !parent_is(
        t,
        i,
        "function_expression_body",
    ) {
        ctx.report(t, i, "no-print", "Avoid `print()`; use a logging package".to_owned());
    }
}

/// `no-dynamic`: the type `dynamic`.
pub open spec fn no_dynamic_hits(t: SyntaxTree, i: int) -> Seq<HitView> {
    hit_if(
        t.kind(i) == "type_identifier"@ && t.text(i) == "dynamic"@,
        t,
        i,
        "no-dynamic"@,
        "Avoid `dynamic` type; use specific types"@,
    )
}

pub fn no_dynamic_at(t: &SyntaxTree, i: usize, ctx: &mut Ctx)
    requires
        t.wf(),
        i < t.len(),
        old(ctx).wf(),
    ensures
        final(ctx).grew(*old(ctx), no_dynamic_hits(*t, i as int)),
{
    if t.kind_is(i, "type_identifier") && t.text_is(i, "dynamic") {
        ctx.report(t, i, "no-dynamic", "Avoid `dynamic` type; use specific types".to_owned());
    }
}

/// `no-empty-catch` (Dart): a catch clause with an empty body.
pub open spec fn dart_no_empty_catch_hits(t: SyntaxTree, i: int) -> Seq<HitView> {
    hit_if(
        catch_body_empty(t, i),
        t,
        i,
        "no-empty-catch"@,
        "Empty catch block; handle or rethrow the exception"@,
    )
}

pub fn dart_no_empty_catch_at(t: &SyntaxTree, i: usize, ctx: &mut Ctx)
    requires
        t.wf(),
        i < t.len(),
        old(ctx).wf(),
    ensures
        final(ctx).grew(*old(ctx), dart_no_empty_catch_hits(*t, i as int)),
{
    if catch_body_empty_exec(t, i) {
        ctx.report(t, i, "no-empty-catch", "Empty catch block; handle or rethrow the exception".to_owned());
    }
}

/// `no-cast`: an `as` cast.
pub open spec fn no_cast_hits(t: SyntaxTree, i: int) -> Seq<HitView> {
    hit_if(
        t.kind(i) == "as_expression"@,
        t,
        i,
        "no-cast"@,
        "Avoid `as` cast; use `is` type check or pattern matching"@,
    )
}

pub fn no_cast_at(t: &SyntaxTree, i: usize, ctx: &mut Ctx)
    requires
        t.wf(),
        i < t.len(),
        old(ctx).wf(),
    ensures
        final(ctx).grew(*old(ctx), no_cast_hits(*t, i as int)),
{
    if t.kind_is(i, "as_expression") {
        ctx.report(t, i, "no-cast", "Avoid `as` cast; use `is` type check or pattern matching".to_owned());
    }
}

/// Whether a catch clause's body is one statement reading `rethrow;`.
pub open spec fn only_rethrows(t: SyntaxTree, i: int) -> bool {
    let b = t.child_by_field(i, "body"@);
    let st = kids_except(t, b.unwrap() as int, Noise::BracesComment);
    t.kind(i) == "catch_clause"@ && b is Some && st.len() == 1 && trim_ws(t.text(st[0] as int)) == "rethrow;"@
}

/// `no-rethrow-only`: a catch clause that only rethrows.
pub open spec fn no_rethrow_only_hits(t: SyntaxTree, i: int) -> Seq<HitView> {
    hit_if(
        only_rethrows(t, i),
        t,
        i,
        "no-rethrow-only"@,
        "Catch block only rethrows; remove the try/catch"@,
    )
}

pub fn no_rethrow_only_at(t: &SyntaxTree, i: usize, ctx: &mut Ctx)
    requires
        t.wf(),
        i < t.len(),
        old(ctx).wf(),
    ensures
        final(ctx).grew(*old(ctx), no_rethrow_only_hits(*t, i as int)),
{
    if !t.kind_is(i, "catch_clause") {
        return;
    }
    if let Some(b) = t.field_child(i, "body") {
        let st = kids_except_exec(t, b, Noise::BracesComment);
        if st.len() == 1 && str_eq(trim_ws_exec(t.node_text(st[0])), "rethrow;") {
            ctx.report(t, i, "no-rethrow-only", "Catch block only rethrows; remove the try/catch".to_owned());
        }
    }
}

/// The callee text of a Julia call expression.
pub open spec fn julia_callee(t: SyntaxTree, i: int) -> Option<Seq<char>> {
    if t.kind(i) == "call_expression"@ {
        head_text(t, i)
    } else {
        None
    }
}

fn julia_callee_exec<'a>(t: &'a SyntaxTree, i: usize) -> (r: Option<&'a str>)
    requires
        t.wf(),
        i < t.len(),
    ensures
        match r {
            Some(s) => julia_callee(*t, i as int) == Some(s@),
            None => julia_callee(*t, i as int) is None,
        },
{
    if t.kind_is(i, "call_expression") {
        head_text_exec(t, i)
    } else {
        None
    }
}

/// `no-println` (Julia): a call of `println`, `print` or `dump`.
pub open spec fn julia_no_println_hits(t: SyntaxTree, i: int) -> Seq<HitView> {
    let n = julia_callee(t, i);
    hit_if(
        n is Some && (n.unwrap() == "println"@ || n.unwrap() == "print"@ || n.unwrap() == "dump"@),
        t,
        i,
        "no-println"@,
        "Avoid `"@ + n.unwrap() + "()`; use `@info`/`@warn` from Logging"@,
    )
}

pub fn julia_no_println_at(t: &SyntaxTree, i: usize, ctx: &mut Ctx)
    requires
        t.wf(),
        i < t.len(),
        old(ctx).wf(),
    ensures
        final(ctx).grew(*old(ctx), julia_no_println_hits(*t, i as int)),
{
    if let Some(n) = julia_callee_exec(t, i) {
        if str_eq(n, "println") || str_eq(n, "print") || str_eq(n, "dump") {
            ctx.report(t, i, "no-println", cat3("Avoid `", n, "()`; use `@info`/`@warn` from Logging"));
        }
    }
}

/// `no-eval` (Julia): a call of `eval`.
pub open spec fn julia_no_eval_hits(t: SyntaxTree, i: int) -> Seq<HitView> {
    hit_if(
        julia_callee(t, i) == Some("eval"@),
        t,
        i,
        "no-eval"@,
        "`eval` is a security risk and performance bottleneck"@,
    )
}

pub fn julia_no_eval_at(t: &SyntaxTree, i: usize, ctx: &mut Ctx)
    requires
        t.wf(),
        i < t.len(),
        old(ctx).wf(),
    ensures
        final(ctx).grew(*old(ctx), julia_no_eval_hits(*t, i as int)),
{
    if let Some(n) = julia_callee_exec(t, i) {
        if str_eq(n, "eval") {
            ctx.report(t, i, "no-eval", "`eval` is a security risk and performance bottleneck".to_owned());
        }
    }
}

/// `no-global-mutable`: an assignment at the top of a file or module that
/// is not `const`.
pub open spec fn no_global_mutable_hits(t: SyntaxTree, i: int) -> Seq<HitView> {
    hit_if(
        t.kind(i) == "assignment"@ && (parent_kind_is(t, i, "source_file"@) || parent_kind_is(
            t,
            i,
            "module_definition"@,
        )) && !starts_with(t.text(i), "const "@),
        t,
        i,
        "no-global-mutable"@,
        "Avoid mutable global variables; use `const` or pass as arguments"@,
    )
}

pub fn no_global_mutable_at(t: &SyntaxTree, i: usize, ctx: &mut Ctx)
    requires
        t.wf(),
        i < t.len(),
        old(ctx).wf(),
    ensures
        final(ctx).grew(*old(ctx), no_global_mutable_hits(*t, i as int)),
{
    if t.kind_is(i, "assignment") && (parent_is(t, i, "source_file") || parent_is(t, i, "module_definition"))
        && !str_starts_with(t.node_text(i), "const ") {
        ctx.report(
            t,
            i,
            "no-global-mutable",
            "Avoid mutable global variables; use `const` or pass as arguments".to_owned(),
        );
    }
}

/// `no-bare-ccall`: a call of `ccall`.
pub open spec fn no_bare_ccall_hits(t: SyntaxTree, i: int) -> Seq<HitView> {
    hit_if(
        julia_callee(t, i) == Some("ccall"@),
        t,
        i,
        "no-bare-ccall"@,
        "`ccall` requires careful error handling; consider using a wrapper"@,
    )
}

pub fn no_bare_ccall_at(t: &SyntaxTree, i: usize, ctx: &mut Ctx)
    requires
        t.wf(),
        i < t.len(),
        old(ctx).wf(),
    ensures
        final(ctx).grew(*old(ctx), no_bare_ccall_hits(*t, i as int)),
{
    if let Some(n) = julia_callee_exec(t, i) {
        if str_eq(n, "ccall") {
            ctx.report(
                t,
                i,
                "no-bare-ccall",
                "`ccall` requires careful error handling; consider using a wrapper".to_owned(),
            );
        }
    }
}

} // verus!
