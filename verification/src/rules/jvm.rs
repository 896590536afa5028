//! Rules for Scala, Kotlin and Groovy.
use vstd::prelude::*;
use crate::lint::{Ctx, HitView, hit_if};
use crate::rules::common::{
    Noise, cat3, field_text, field_text_exec, head_text, head_text_exec, kids_except, kids_except_exec,
};
use crate::syntax::SyntaxTree;
use crate::text::{contains, ends_with, starts_with, str_contains, str_ends_with, str_eq, str_starts_with};

verus! {

/// `no-println` (Scala): a call of `println`, `print` or `printf`.
pub open spec fn scala_no_println_hits(t: SyntaxTree, i: int) -> Seq<HitView> {
    let n = field_text(t, i, "function"@);
    hit_if(
        t.kind(i) == "call_expression"@ && n is Some && (n.unwrap() == "println"@ || n.unwrap() == "print"@
            || n.unwrap() == "printf"@),
        t,
        i,
        "no-println"@,
        "Avoid `"@ + n.unwrap() + "`; use a logging framework"@,
    )
}

pub fn scala_no_println_at(t: &SyntaxTree, i: usize, ctx: &mut Ctx)
    requires
        t.wf(),
        i < t.len(),
        old(ctx).wf(),
    ensures
        final(ctx).grew(*old(ctx), scala_no_println_hits(*t, i as int)),
{
    if t.kind_is(i, "call_expression") {
        if let Some(n) = field_text_exec(t, i, "function") {
            if str_eq(n, "println") || str_eq(n, "print") || str_eq(n, "printf") {
                ctx.report(t, i, "no-println", cat3("Avoid `", n, "`; use a logging framework"));
            }
        }
    }
}

/// `no-null`: the `null` literal.
pub open spec fn no_null_hits(t: SyntaxTree, i: int) -> Seq<HitView> {
    hit_if(t.kind(i) == "null_literal"@, t, i, "no-null"@, "Avoid `null`; use `Option` instead"@)
}

pub fn no_null_at(t: &SyntaxTree, i: usize, ctx: &mut Ctx)
    requires
        t.wf(),
        i < t.len(),
        old(ctx).wf(),
    ensures
        final(ctx).grew(*old(ctx), no_null_hits(*t, i as int)),
{
    if t.kind_is(i, "null_literal") {
        ctx.report(t, i, "no-null", "Avoid `null`; use `Option` instead".to_owned());
    }
}

/// `no-var` (Scala): a `var` definition or declaration.
pub open spec fn scala_no_var_hits(t: SyntaxTree, i: int) -> Seq<HitView> {
    hit_if(
        t.kind(i) == "var_definition"@ || t.kind(i) == "var_declaration"@,
        t,
        i,
        "no-var"@,
        "Prefer `val` over `var` for immutability"@,
    )
}

pub fn scala_no_var_at(t: &SyntaxTree, i: usize, ctx: &mut Ctx)
    requires
        t.wf(),
        i < t.len(),
        old(ctx).wf(),
    ensures
        final(ctx).grew(*old(ctx), scala_no_var_hits(*t, i as int)),
{
    if t.kind_is(i, "var_definition") || t.kind_is(i, "var_declaration") {
        ctx.report(t, i, "no-var", "Prefer `val` over `var` for immutability".to_owned());
    }
}

/// `no-return`: an explicit `return`.
pub open spec fn no_return_hits(t: SyntaxTree, i: int) -> Seq<HitView> {
    hit_if(
        t.kind(i) == "return_expression"@,
        t,
        i,
        "no-return"@,
        "Avoid explicit `return`; use expression-based returns"@,
    )
}

pub fn no_return_at(t: &SyntaxTree, i: usize, ctx: &mut Ctx)
    requires
        t.wf(),
        i < t.len(),
        old(ctx).wf(),
    ensures
        final(ctx).grew(*old(ctx), no_return_hits(*t, i as int)),
{
    if t.kind_is(i, "return_expression") {
        ctx.report(t, i, "no-return", "Avoid explicit `return`; use expression-based returns".to_owned());
    }
}

/// `no-as-instance-of`: a call mentioning `.asInstanceOf`, and one
/// mentioning `.isInstanceOf`.
pub open spec fn no_as_instance_of_hits(t: SyntaxTree, i: int) -> Seq<HitView> {
    let c = t.kind(i) == "call_expression"@;
    hit_if(
        c && contains(t.text(i), ".asInstanceOf"@),
        t,
        i,
        "no-as-instance-of"@,
        "Avoid `asInstanceOf`; use pattern matching instead"@,
    ) + hit_if(
        c && contains(t.text(i), ".isInstanceOf"@),
        t,
        i,
        "no-as-instance-of"@,
        "Avoid `isInstanceOf`; use pattern matching instead"@,
    )
}

pub fn no_as_instance_of_at(t: &SyntaxTree, i: usize, ctx: &mut Ctx)
    requires
        t.wf(),
        i < t.len(),
        old(ctx).wf(),
    ensures
        final(ctx).grew(*old(ctx), no_as_instance_of_hits(*t, i as int)),
{
    if !t.kind_is(i, "call_expression") {
        return;
    }
    if str_contains(t.node_text(i), ".asInstanceOf") {
        ctx.report(t, i, "no-as-instance-of", "Avoid `asInstanceOf`; use pattern matching instead".to_owned());
    }
    if str_contains(t.node_text(i), ".isInstanceOf") {
        ctx.report(t, i, "no-as-instance-of", "Avoid `isInstanceOf`; use pattern matching instead".to_owned());
    }
}

/// `no-println` (Kotlin): a call of `println` or `print`.
pub open spec fn kotlin_no_println_hits(t: SyntaxTree, i: int) -> Seq<HitView> {
    let n = head_text(t, i);
    hit_if(
        t.kind(i) == "call_expression"@ && n is Some && (n.unwrap() == "println"@ || n.unwrap() == "print"@),
        t,
        i,
        "no-println"@,
        "Avoid `"@ + n.unwrap() + "()`; use a logging framework"@,
    )
}

pub fn kotlin_no_println_at(t: &SyntaxTree, i: usize, ctx: &mut Ctx)
    requires
        t.wf(),
        i < t.len(),
        old(ctx).wf(),
    ensures
        final(ctx).grew(*old(ctx), kotlin_no_println_hits(*t, i as int)),
{
    if t.kind_is(i, "call_expression") {
        if let Some(n) = head_text_exec(t, i) {
            if str_eq(n, "println") || str_eq(n, "print") {
                ctx.report(t, i, "no-println", cat3("Avoid `", n, "()`; use a logging framework"));
            }
        }
    }
}

/// `no-unsafe-cast`: an `as` cast that is not `as?`.
pub open spec fn no_unsafe_cast_hits(t: SyntaxTree, i: int) -> Seq<HitView> {
    hit_if(
        t.kind(i) == "as_expression"@ && contains(t.text(i), " as "@) && !contains(t.text(i), " as? "@),
        t,
        i,
        "no-unsafe-cast"@,
        "Avoid unsafe `as` cast; use `as?` with null check"@,
    )
}

pub fn no_unsafe_cast_at(t: &SyntaxTree, i: usize, ctx: &mut Ctx)
    requires
        t.wf(),
        i < t.len(),
        old(ctx).wf(),
    ensures
        final(ctx).grew(*old(ctx), no_unsafe_cast_hits(*t, i as int)),
{
    if t.kind_is(i, "as_expression") && str_contains(t.node_text(i), " as ") && !str_contains(
        t.node_text(i),
        " as? ",
    ) {
        ctx.report(t, i, "no-unsafe-cast", "Avoid unsafe `as` cast; use `as?` with null check".to_owned());
    }
}

/// `no-not-null-assertion`: an expression ending in `!!`.
pub open spec fn no_not_null_assertion_hits(t: SyntaxTree, i: int) -> Seq<HitView> {
    hit_if(
        (t.kind(i) == "postfix_expression"@ || t.kind(i) == "not_null_expression"@) && ends_with(
            t.text(i),
            "!!"@,
        ),
        t,
        i,
        "no-not-null-assertion"@,
        "Avoid `!!`; use safe calls `?.` or `let`"@,
    )
}

pub fn no_not_null_assertion_at(t: &SyntaxTree, i: usize, ctx: &mut Ctx)
    requires
        t.wf(),
        i < t.len(),
        old(ctx).wf(),
    ensures
        final(ctx).grew(*old(ctx), no_not_null_assertion_hits(*t, i as int)),
{
    if (t.kind_is(i, "postfix_expression") || t.kind_is(i, "not_null_expression")) && str_ends_with(
        t.node_text(i),
        "!!",
    ) {
        ctx.report(t, i, "no-not-null-assertion", "Avoid `!!`; use safe calls `?.` or `let`".to_owned());
    }
}

/// One `no-empty-catch` finding at `i` per `statements` child of `cs`
/// holding nothing but braces and comments.
pub open spec fn empty_statements(t: SyntaxTree, i: int, cs: Seq<usize>) -> Seq<HitView>
    decreases cs.len(),
{
    if cs.len() == 0 {
        seq![]
    } else {
        let c = cs.last() as int;
        empty_statements(t, i, cs.drop_last()) + hit_if(
            t.kind(c) == "statements"@ && kids_except(t, c, Noise::BracesKotlinComments).len() == 0,
            t,
            i,
            "no-empty-catch"@,
            "Empty catch block; handle or rethrow the exception"@,
        )
    }
}

/// `no-empty-catch` (Kotlin): a catch block whose statements are empty.
pub open spec fn kotlin_no_empty_catch_hits(t: SyntaxTree, i: int) -> Seq<HitView> {
    if t.kind(i) == "catch_block"@ {
        empty_statements(t, i, t.children(i))
    } else {
        seq![]
    }
}

pub fn kotlin_no_empty_catch_at(t: &SyntaxTree, i: usize, ctx: &mut Ctx)
    requires
        t.wf(),
        i < t.len(),
        old(ctx).wf(),
    ensures
        final(ctx).grew(*old(ctx), kotlin_no_empty_catch_hits(*t, i as int)),
{
    if !t.kind_is(i, "catch_block") {
        return;
    }
    let ghost start = *ctx;
    let cs = &t.nodes[i].children;
    let mut k: usize = 0;
    while k < cs.len()
        invariant
            t.wf(),
            i < t.len(),
            cs@ == t.children(i as int),
            k <= cs@.len(),
            ctx.grew(start, empty_statements(*t, i as int, cs@.take(k as int))),
        decreases cs@.len() - k,
    {
        let c = cs[k];
        assert(i < c < t.len()) by {
            assert(t.nodes@[i as int].children@[k as int] == c);
        }
        assert(cs@.take(k + 1).drop_last() =~= cs@.take(k as int));
        assert(cs@.take(k + 1).last() == c);
        if t.kind_is(c, "statements") && kids_except_exec(t, c, Noise::BracesKotlinComments).len() == 0 {
            ctx.report(t, i, "no-empty-catch", "Empty catch block; handle or rethrow the exception".to_owned());
        }
        k = k + 1;
    }
    assert(cs@.take(k as int) =~= cs@);
}

/// `no-system-exit` (Kotlin): a call mentioning `System.exit` or
/// `exitProcess`.
pub open spec fn kotlin_no_system_exit_hits(t: SyntaxTree, i: int) -> Seq<HitView> {
    hit_if(
        t.kind(i) == "call_expression"@ && (contains(t.text(i), "System.exit"@) || contains(
            t.text(i),
            "exitProcess"@,
        )),
        t,
        i,
        "no-system-exit"@,
        "Avoid `System.exit()`/`exitProcess()`; throw an exception instead"@,
    )
}

pub fn kotlin_no_system_exit_at(t: &SyntaxTree, i: usize, ctx: &mut Ctx)
    requires
        t.wf(),
        i < t.len(),
        old(ctx).wf(),
    ensures
        final(ctx).grew(*old(ctx), kotlin_no_system_exit_hits(*t, i as int)),
{
    if t.kind_is(i, "call_expression") && (str_contains(t.node_text(i), "System.exit") || str_contains(
        t.node_text(i),
        "exitProcess",
    )) {
        ctx.report(
            t,
            i,
            "no-system-exit",
            "Avoid `System.exit()`/`exitProcess()`; throw an exception instead".to_owned(),
        );
    }
}

/// `prefer-val`: a property declared with `var`.
pub open spec fn prefer_val_hits(t: SyntaxTree, i: int) -> Seq<HitView> {
    hit_if(
        t.kind(i) == "property_declaration"@ && starts_with(t.text(i), "var "@),
        t,
        i,
        "prefer-val"@,
        "Consider using `val` instead of `var` for immutability"@,
    )
}

pub fn prefer_val_at(t: &SyntaxTree, i: usize, ctx: &mut Ctx)
    requires
        t.wf(),
        i < t.len(),
        old(ctx).wf(),
    ensures
        final(ctx).grew(*old(ctx), prefer_val_hits(*t, i as int)),
{
    if t.kind_is(i, "property_declaration") && str_starts_with(t.node_text(i), "var ") {
        ctx.report(t, i, "prefer-val", "Consider using `val` instead of `var` for immutability".to_owned());
    }
}

/// `no-println` (Groovy): a call written `println...` or `print(...`.
pub open spec fn groovy_no_println_hits(t: SyntaxTree, i: int) -> Seq<HitView> {
    hit_if(
        (t.kind(i) == "method_call"@ || t.kind(i) == "function_call"@) && (starts_with(t.text(i), "println"@)
            || starts_with(t.text(i), "print("@)),
        t,
        i,
        "no-println"@,
        "Avoid `println`; use a logging framework"@,
    )
}

pub fn groovy_no_println_at(t: &SyntaxTree, i: usize, ctx: &mut Ctx)
    requires
        t.wf(),
        i < t.len(),
        old(ctx).wf(),
    ensures
        final(ctx).grew(*old(ctx), groovy_no_println_hits(*t, i as int)),
{
    if (t.kind_is(i, "method_call") || t.kind_is(i, "function_call")) && (str_starts_with(
        t.node_text(i),
        "println",
    ) || str_starts_with(t.node_text(i), "print(")) {
        ctx.report(t, i, "no-println", "Avoid `println`; use a logging framework".to_owned());
    }
}

/// `no-def-type`: a `def` declaration without a type.
pub open spec fn no_def_type_hits(t: SyntaxTree, i: int) -> Seq<HitView> {
    hit_if(
        t.kind(i) == "variable_declaration"@ && starts_with(t.text(i), "def "@) && !contains(t.text(i), ":"@),
        t,
        i,
        "no-def-type"@,
        "Avoid `def` without type; use explicit types for clarity"@,
    )
}

pub fn no_def_type_at(t: &SyntaxTree, i: usize, ctx: &mut Ctx)
    requires
        t.wf(),
        i < t.len(),
        old(ctx).wf(),
    ensures
        final(ctx).grew(*old(ctx), no_def_type_hits(*t, i as int)),
{
    if t.kind_is(i, "variable_declaration") && str_starts_with(t.node_text(i), "def ") && !str_contains(
        t.node_text(i),
        ":",
    ) {
        ctx.report(t, i, "no-def-type", "Avoid `def` without type; use explicit types for clarity".to_owned());
    }
}

/// `no-system-exit` (Groovy): any node whose text mentions `System.exit`.
pub open spec fn groovy_no_system_exit_hits(t: SyntaxTree, i: int) -> Seq<HitView> {
    hit_if(
        contains(t.text(i), "System.exit"@),
        t,
        i,
        "no-system-exit"@,
        "Avoid `System.exit()`; throw an exception instead"@,
    )
}

pub fn groovy_no_system_exit_at(t: &SyntaxTree, i: usize, ctx: &mut Ctx)
    requires
        t.wf(),
        i < t.len(),
        old(ctx).wf(),
    ensures
        final(ctx).grew(*old(ctx), groovy_no_system_exit_hits(*t, i as int)),
{
    if str_contains(t.node_text(i), "System.exit") {
        ctx.report(t, i, "no-system-exit", "Avoid `System.exit()`; throw an exception instead".to_owned());
    }
}

/// Whether a catch clause has a body holding nothing but braces and
/// comments.
pub open spec fn catch_body_empty(t: SyntaxTree, i: int) -> bool {
    t.kind(i) == "catch_clause"@ && t.child_by_field(i, "body"@) is Some && kids_except(
        t,
        t.child_by_field(i, "body"@).unwrap() as int,
        Noise::BracesComment,
    ).len() == 0
}

pub fn catch_body_empty_exec(t: &SyntaxTree, i: usize) -> (r: bool)
    requires
        t.wf(),
        i < t.len(),
    ensures
        r == catch_body_empty(*t, i as int),
{
    if !t.kind_is(i, "catch_clause") {
        return false;
    }
    match t.field_child(i, "body") {
        Some(b) => kids_except_exec(t, b, Noise::BracesComment).len() == 0,
        None => false,
    }
}

/// `no-empty-catch` (Groovy): a catch clause with an empty body.
pub open spec fn groovy_no_empty_catch_hits(t: SyntaxTree, i: int) -> Seq<HitView> {
    hit_if(catch_body_empty(t, i), t, i, "no-empty-catch"@, "Empty catch block"@)
}

pub fn groovy_no_empty_catch_at(t: &SyntaxTree, i: usize, ctx: &mut Ctx)
    requires
        t.wf(),
        i < t.len(),
        old(ctx).wf(),
    ensures
        final(ctx).grew(*old(ctx), groovy_no_empty_catch_hits(*t, i as int)),
{
    if catch_body_empty_exec(t, i) {
        ctx.report(t, i, "no-empty-catch", "Empty catch block".to_owned());
    }
}

} // verus!
