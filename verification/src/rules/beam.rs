//! Rules for the BEAM languages: Elixir, Erlang and Gleam.
use vstd::prelude::*;
use crate::lint::{Ctx, HitView, hit_if};
use crate::rules::common::{
    child_with_kind_text, has_kind_text, kids_of_kind, kids_of_kind_exec, kind_of_is, opt_kind_is,
    opt_text_is, text_of_is,
};
use crate::syntax::SyntaxTree;

verus! {

/// The function name of an Elixir call `IO.name(...)`, when `i` is one.
pub open spec fn io_call(t: SyntaxTree, i: int) -> Option<usize> {
    let target = t.child_by_field(i, "target"@);
    let tg = target.unwrap() as int;
    let left = t.child_by_field(tg, "left"@);
    let right = t.child_by_field(tg, "right"@);
    if t.kind(i) == "call"@ && kind_of_is(t, target, "dot"@) && left is Some && right is Some
        && kind_of_is(t, left, "alias"@) && text_of_is(t, left, "IO"@) && kind_of_is(
        t,
        right,
        "identifier"@,
    ) {
        right
    } else {
        None
    }
}

fn io_call_exec(t: &SyntaxTree, i: usize) -> (r: Option<usize>)
    requires
        t.wf(),
        i < t.len(),
    ensures
        r == io_call(*t, i as int),
        r matches Some(c) ==> c < t.len(),
{
    if !t.kind_is(i, "call") {
        return None;
    }
    let target = t.field_child(i, "target");
    if !opt_kind_is(t, target, "dot") {
        return None;
    }
    let tg = target.unwrap();
    let left = t.field_child(tg, "left");
    let right = t.field_child(tg, "right");
    if left.is_some() && right.is_some() && opt_kind_is(t, left, "alias") && opt_text_is(t, left, "IO")
        && opt_kind_is(t, right, "identifier") {
        right
    } else {
        None
    }
}

/// `no-io-inspect`: `IO.inspect(...)`.
pub open spec fn no_io_inspect_hits(t: SyntaxTree, i: int) -> Seq<HitView> {
    hit_if(
        text_of_is(t, io_call(t, i), "inspect"@),
        t,
        i,
        "no-io-inspect"@,
        "Avoid `IO.inspect()`, use `Logger` instead"@,
    )
}

pub fn no_io_inspect_at(t: &SyntaxTree, i: usize, ctx: &mut Ctx)
    requires
        t.wf(),
        i < t.len(),
        old(ctx).wf(),
    ensures
        final(ctx).grew(*old(ctx), no_io_inspect_hits(*t, i as int)),
{
    if opt_text_is(t, io_call_exec(t, i), "inspect") {
        ctx.report(t, i, "no-io-inspect", "Avoid `IO.inspect()`, use `Logger` instead".to_owned());
    }
}

/// `no-io-puts`: `IO.puts(...)`.
pub open spec fn no_io_puts_hits(t: SyntaxTree, i: int) -> Seq<HitView> {
    hit_if(
        text_of_is(t, io_call(t, i), "puts"@),
        t,
        i,
        "no-io-puts"@,
        "Avoid `IO.puts()`, use `Logger` instead"@,
    )
}

pub fn no_io_puts_at(t: &SyntaxTree, i: usize, ctx: &mut Ctx)
    requires
        t.wf(),
        i < t.len(),
        old(ctx).wf(),
    ensures
        final(ctx).grew(*old(ctx), no_io_puts_hits(*t, i as int)),
{
    if opt_text_is(t, io_call_exec(t, i), "puts") {
        ctx.report(t, i, "no-io-puts", "Avoid `IO.puts()`, use `Logger` instead".to_owned());
    }
}

/// A call whose target is the identifier `name`.
pub open spec fn is_call_of(t: SyntaxTree, j: int, name: Seq<char>) -> bool {
    let target = t.child_by_field(j, "target"@);
    t.kind(j) == "call"@ && kind_of_is(t, target, "identifier"@) && text_of_is(t, target, name)
}

fn is_call_of_exec(t: &SyntaxTree, j: usize, name: &str) -> (r: bool)
    requires
        t.wf(),
        j < t.len(),
    ensures
        r == is_call_of(*t, j as int, name@),
{
    let target = t.field_child(j, "target");
    t.kind_is(j, "call") && opt_kind_is(t, target, "identifier") && opt_text_is(t, target, name)
}

/// Whether node `j` or an ancestor is a `with` call.
pub open spec fn within_with(t: SyntaxTree, j: int) -> bool
    decreases j,
{
    if 0 <= j < t.len() {
        is_call_of(t, j, "with"@) || match t.parent(j) {
            Some(p) => p < j && within_with(t, p as int),
            None => false,
        }
    } else {
        false
    }
}

fn within_with_exec(t: &SyntaxTree, j: usize) -> (r: bool)
    requires
        t.wf(),
        j < t.len(),
    ensures
        r == within_with(*t, j as int),
    decreases j,
{
    if is_call_of_exec(t, j, "with") {
        return true;
    }
    match t.node_parent(j) {
        Some(p) => {
            assert(t.nodes@[j as int].parent == Some(p));
            within_with_exec(t, p)
        },
        None => false,
    }
}

/// `no-raise-in-with`: `raise` inside a `with`.
pub open spec fn no_raise_in_with_hits(t: SyntaxTree, i: int) -> Seq<HitView> {
    hit_if(
        is_call_of(t, i, "raise"@) && match t.parent(i) {
            Some(p) => p < i && within_with(t, p as int),
            None => false,
        },
        t,
        i,
        "no-raise-in-with"@,
        "Avoid `raise` inside `with`; use pattern matching to handle errors"@,
    )
}

pub fn no_raise_in_with_at(t: &SyntaxTree, i: usize, ctx: &mut Ctx)
    requires
        t.wf(),
        i < t.len(),
        old(ctx).wf(),
    ensures
        final(ctx).grew(*old(ctx), no_raise_in_with_hits(*t, i as int)),
{
    if !is_call_of_exec(t, i, "raise") {
        return;
    }
    if let Some(p) = t.node_parent(i) {
        assert(t.nodes@[i as int].parent == Some(p));
        if within_with_exec(t, p) {
            ctx.report(
                t,
                i,
                "no-raise-in-with",
                "Avoid `raise` inside `with`; use pattern matching to handle errors".to_owned(),
            );
        }
    }
}

/// `pipe-into-anonymous`: `|>` into `fn ... end` or `&(...)`.
pub open spec fn pipe_into_anonymous_hits(t: SyntaxTree, i: int) -> Seq<HitView> {
    let right = t.child_by_field(i, "right"@);
    hit_if(
        t.kind(i) == "binary_operator"@ && text_of_is(t, t.child_by_field(i, "operator"@), "|>"@)
            && (kind_of_is(t, right, "anonymous_function"@) || kind_of_is(t, right, "capture"@)),
        t,
        i,
        "pipe-into-anonymous"@,
        "Avoid piping into anonymous functions; extract to a named function"@,
    )
}

pub fn pipe_into_anonymous_at(t: &SyntaxTree, i: usize, ctx: &mut Ctx)
    requires
        t.wf(),
        i < t.len(),
        old(ctx).wf(),
    ensures
        final(ctx).grew(*old(ctx), pipe_into_anonymous_hits(*t, i as int)),
{
    if t.kind_is(i, "binary_operator") && opt_text_is(t, t.field_child(i, "operator"), "|>") {
        let right = t.field_child(i, "right");
        if opt_kind_is(t, right, "anonymous_function") || opt_kind_is(t, right, "capture") {
            ctx.report(
                t,
                i,
                "pipe-into-anonymous",
                "Avoid piping into anonymous functions; extract to a named function".to_owned(),
            );
        }
    }
}

/// `no-process-flag`: an Erlang call naming the atom `process_flag`.
pub open spec fn no_process_flag_hits(t: SyntaxTree, i: int) -> Seq<HitView> {
    hit_if(
        t.kind(i) == "call"@ && has_kind_text(t, t.children(i), "atom"@, "process_flag"@),
        t,
        i,
        "no-process-flag"@,
        "Avoid `process_flag(trap_exit, true)`; use supervisors for fault tolerance"@,
    )
}

pub fn no_process_flag_at(t: &SyntaxTree, i: usize, ctx: &mut Ctx)
    requires
        t.wf(),
        i < t.len(),
        old(ctx).wf(),
    ensures
        final(ctx).grew(*old(ctx), no_process_flag_hits(*t, i as int)),
{
    if t.kind_is(i, "call") && child_with_kind_text(t, i, "atom", "process_flag") {
        ctx.report(
            t,
            i,
            "no-process-flag",
            "Avoid `process_flag(trap_exit, true)`; use supervisors for fault tolerance".to_owned(),
        );
    }
}

/// `no-catch-all`: a case expression whose first clause matches `_`,
/// reported at that clause.
pub open spec fn no_catch_all_hits(t: SyntaxTree, i: int) -> Seq<HitView> {
    let clauses = kids_of_kind(t, i, "cr_clause"@);
    hit_if(
        t.kind(i) == "case_expr"@ && clauses.len() > 0 && has_kind_text(
            t,
            t.children(clauses[0] as int),
            "variable"@,
            "_"@,
        ),
        t,
        clauses[0] as int,
        "no-catch-all"@,
        "Catch-all `_` as first clause; place specific patterns before catch-all"@,
    )
}

pub fn no_catch_all_at(t: &SyntaxTree, i: usize, ctx: &mut Ctx)
    requires
        t.wf(),
        i < t.len(),
        old(ctx).wf(),
    ensures
        final(ctx).grew(*old(ctx), no_catch_all_hits(*t, i as int)),
{
    if !t.kind_is(i, "case_expr") {
        return;
    }
    let clauses = kids_of_kind_exec(t, i, "cr_clause");
    if clauses.len() > 0 && child_with_kind_text(t, clauses[0], "variable", "_") {
        ctx.report(
            t,
            clauses[0],
            "no-catch-all",
            "Catch-all `_` as first clause; place specific patterns before catch-all".to_owned(),
        );
    }
}

/// `no-exit-call`: an Erlang call naming the atom `exit`.
pub open spec fn no_exit_call_hits(t: SyntaxTree, i: int) -> Seq<HitView> {
    hit_if(
        t.kind(i) == "call"@ && has_kind_text(t, t.children(i), "atom"@, "exit"@),
        t,
        i,
        "no-exit-call"@,
        "Avoid `exit()`; let supervisors handle process termination"@,
    )
}

pub fn no_exit_call_at(t: &SyntaxTree, i: usize, ctx: &mut Ctx)
    requires
        t.wf(),
        i < t.len(),
        old(ctx).wf(),
    ensures
        final(ctx).grew(*old(ctx), no_exit_call_hits(*t, i as int)),
{
    if t.kind_is(i, "call") && child_with_kind_text(t, i, "atom", "exit") {
        ctx.report(
            t,
            i,
            "no-exit-call",
            "Avoid `exit()`; let supervisors handle process termination".to_owned(),
        );
    }
}

/// `no-todo`: a Gleam `todo` expression.
pub open spec fn gleam_no_todo_hits(t: SyntaxTree, i: int) -> Seq<HitView> {
    hit_if(
        t.kind(i) == "todo"@,
        t,
        i,
        "no-todo"@,
        "Unexpected `todo` expression; implement before shipping"@,
    )
}

pub fn gleam_no_todo_at(t: &SyntaxTree, i: usize, ctx: &mut Ctx)
    requires
        t.wf(),
        i < t.len(),
        old(ctx).wf(),
    ensures
        final(ctx).grew(*old(ctx), gleam_no_todo_hits(*t, i as int)),
{
    if t.kind_is(i, "todo") {
        ctx.report(t, i, "no-todo", "Unexpected `todo` expression; implement before shipping".to_owned());
    }
}

/// `no-panic`: a Gleam `panic` expression.
pub open spec fn gleam_no_panic_hits(t: SyntaxTree, i: int) -> Seq<HitView> {
    hit_if(t.kind(i) == "panic"@, t, i, "no-panic"@, "Avoid `panic`; return a `Result` instead"@)
}

pub fn gleam_no_panic_at(t: &SyntaxTree, i: usize, ctx: &mut Ctx)
    requires
        t.wf(),
        i < t.len(),
        old(ctx).wf(),
    ensures
        final(ctx).grew(*old(ctx), gleam_no_panic_hits(*t, i as int)),
{
    if t.kind_is(i, "panic") {
        ctx.report(t, i, "no-panic", "Avoid `panic`; return a `Result` instead".to_owned());
    }
}

/// `no-let-assert`: a Gleam `let assert`.
pub open spec fn no_let_assert_hits(t: SyntaxTree, i: int) -> Seq<HitView> {
    hit_if(
        t.kind(i) == "let_assert"@ || t.kind(i) == "assert"@,
        t,
        i,
        "no-let-assert"@,
        "Avoid `let assert`; it crashes on pattern mismatch, use `case` instead"@,
    )
}

pub fn no_let_assert_at(t: &SyntaxTree, i: usize, ctx: &mut Ctx)
    requires
        t.wf(),
        i < t.len(),
        old(ctx).wf(),
    ensures
        final(ctx).grew(*old(ctx), no_let_assert_hits(*t, i as int)),
{
    if t.kind_is(i, "let_assert") || t.kind_is(i, "assert") {
        ctx.report(
            t,
            i,
            "no-let-assert",
            "Avoid `let assert`; it crashes on pattern mismatch, use `case` instead".to_owned(),
        );
    }
}

} // verus!
