//! Rules for Rust.
use vstd::prelude::*;
use crate::lint::{Ctx, HitView, hit_if};
use crate::rules::common::{
    Noise, cat3, cat5, kids_except, kids_except_exec, kids_of_kind, kids_of_kind_exec, kind_of_is,
    op_text, opt_kind_is, opt_text_is, text_of_is, trim_ws, trim_ws_exec,
};
use crate::syntax::SyntaxTree;
use crate::text::{starts_with, str_eq, str_starts_with};

verus! {

/// Whether node `j` or one of its ancestors is a module named `tests`.
pub open spec fn in_tests_module(t: SyntaxTree, j: int) -> bool
    decreases j,
{
    if 0 <= j < t.len() {
        (t.kind(j) == "mod_item"@ && text_of_is(t, t.child_by_field(j, "name"@), "tests"@)) || match t.parent(j) {
            Some(p) => p < j && in_tests_module(t, p as int),
            None => false,
        }
    } else {
        false
    }
}

fn in_tests_module_exec(t: &SyntaxTree, j: usize) -> (r: bool)
    requires
        t.wf(),
        j < t.len(),
    ensures
        r == in_tests_module(*t, j as int),
    decreases j,
{
    if t.kind_is(j, "mod_item") && opt_text_is(t, t.field_child(j, "name"), "tests") {
        return true;
    }
    match t.node_parent(j) {
        Some(p) => {
            assert(t.nodes@[j as int].parent == Some(p));
            in_tests_module_exec(t, p)
        },
        None => false,
    }
}

/// `no-unsafe`: an `unsafe` block.
pub open spec fn no_unsafe_hits(t: SyntaxTree, i: int) -> Seq<HitView> {
    hit_if(t.kind(i) == "unsafe_block"@, t, i, "no-unsafe"@, "Avoid `unsafe` block"@)
}

pub fn no_unsafe_at(t: &SyntaxTree, i: usize, ctx: &mut Ctx)
    requires
        t.wf(),
        i < t.len(),
        old(ctx).wf(),
    ensures
        final(ctx).grew(*old(ctx), no_unsafe_hits(*t, i as int)),
{
    if t.kind_is(i, "unsafe_block") {
        ctx.report(t, i, "no-unsafe", "Avoid `unsafe` block".to_owned());
    }
}

/// The method name of a method call `x.name(...)`, when `i` is one.
pub open spec fn method_called(t: SyntaxTree, i: int) -> Option<usize> {
    let f = t.child_by_field(i, "function"@);
    if t.kind(i) == "call_expression"@ && kind_of_is(t, f, "field_expression"@) {
        t.child_by_field(f.unwrap() as int, "field"@)
    } else {
        None
    }
}

fn method_called_exec(t: &SyntaxTree, i: usize) -> (r: Option<usize>)
    requires
        t.wf(),
        i < t.len(),
    ensures
        r == method_called(*t, i as int),
        r matches Some(c) ==> c < t.len(),
{
    let f = t.field_child(i, "function");
    if t.kind_is(i, "call_expression") && opt_kind_is(t, f, "field_expression") {
        t.field_child(f.unwrap(), "field")
    } else {
        None
    }
}

/// `no-unwrap`: a call of `.unwrap()` outside a `tests` module.
pub open spec fn no_unwrap_hits(t: SyntaxTree, i: int) -> Seq<HitView> {
    hit_if(
        text_of_is(t, method_called(t, i), "unwrap"@) && !in_tests_module(t, i),
        t,
        i,
        "no-unwrap"@,
        "Avoid `.unwrap()`, use `?` or handle the error explicitly"@,
    )
}

pub fn no_unwrap_at(t: &SyntaxTree, i: usize, ctx: &mut Ctx)
    requires
        t.wf(),
        i < t.len(),
        old(ctx).wf(),
    ensures
        final(ctx).grew(*old(ctx), no_unwrap_hits(*t, i as int)),
{
    if opt_text_is(t, method_called_exec(t, i), "unwrap") && !in_tests_module_exec(t, i) {
        ctx.report(
            t,
            i,
            "no-unwrap",
            "Avoid `.unwrap()`, use `?` or handle the error explicitly".to_owned(),
        );
    }
}

/// The macro name of a macro invocation, when `i` is one.
pub open spec fn macro_name(t: SyntaxTree, i: int) -> Option<usize> {
    if t.kind(i) == "macro_invocation"@ {
        t.child_by_field(i, "macro"@)
    } else {
        None
    }
}

fn macro_name_exec(t: &SyntaxTree, i: usize) -> (r: Option<usize>)
    requires
        t.wf(),
        i < t.len(),
    ensures
        r == macro_name(*t, i as int),
        r matches Some(c) ==> c < t.len(),
{
    if t.kind_is(i, "macro_invocation") {
        t.field_child(i, "macro")
    } else {
        None
    }
}

/// `no-dbg`: a `dbg!` invocation.
pub open spec fn no_dbg_hits(t: SyntaxTree, i: int) -> Seq<HitView> {
    hit_if(
        text_of_is(t, macro_name(t, i), "dbg"@),
        t,
        i,
        "no-dbg"@,
        "Unexpected `dbg!()` macro"@,
    )
}

pub fn no_dbg_at(t: &SyntaxTree, i: usize, ctx: &mut Ctx)
    requires
        t.wf(),
        i < t.len(),
        old(ctx).wf(),
    ensures
        final(ctx).grew(*old(ctx), no_dbg_hits(*t, i as int)),
{
    if opt_text_is(t, macro_name_exec(t, i), "dbg") {
        ctx.report(t, i, "no-dbg", "Unexpected `dbg!()` macro".to_owned());
    }
}

/// `no-todo`: a `todo!` or `unimplemented!` invocation.
pub open spec fn no_todo_hits(t: SyntaxTree, i: int) -> Seq<HitView> {
    let m = macro_name(t, i);
    let name = t.text(m.unwrap() as int);
    hit_if(
        m is Some && (name == "todo"@ || name == "unimplemented"@),
        t,
        i,
        "no-todo"@,
        "Unexpected `"@ + name + "!()` macro"@,
    )
}

pub fn no_todo_at(t: &SyntaxTree, i: usize, ctx: &mut Ctx)
    requires
        t.wf(),
        i < t.len(),
        old(ctx).wf(),
    ensures
        final(ctx).grew(*old(ctx), no_todo_hits(*t, i as int)),
{
    if let Some(m) = macro_name_exec(t, i) {
        let name = t.node_text(m);
        if str_eq(name, "todo") || str_eq(name, "unimplemented") {
            ctx.report(t, i, "no-todo", cat3("Unexpected `", name, "!()` macro"));
        }
    }
}

/// `no-println`: a printing macro.
pub open spec fn no_println_hits(t: SyntaxTree, i: int) -> Seq<HitView> {
    let m = macro_name(t, i);
    let name = t.text(m.unwrap() as int);
    hit_if(
        m is Some && (name == "println"@ || name == "print"@ || name == "eprintln"@ || name
            == "eprint"@),
        t,
        i,
        "no-println"@,
        "Unexpected `"@ + name + "!()` macro, use a logging framework"@,
    )
}

pub fn no_println_at(t: &SyntaxTree, i: usize, ctx: &mut Ctx)
    requires
        t.wf(),
        i < t.len(),
        old(ctx).wf(),
    ensures
        final(ctx).grew(*old(ctx), no_println_hits(*t, i as int)),
{
    if let Some(m) = macro_name_exec(t, i) {
        let name = t.node_text(m);
        if str_eq(name, "println") || str_eq(name, "print") || str_eq(name, "eprintln") || str_eq(
            name,
            "eprint",
        ) {
            let msg = cat3("Unexpected `", name, "!()` macro, use a logging framework");
            ctx.report(t, i, "no-println", msg);
        }
    }
}

/// The boolean a block yields when its only content is `true` or `false`.
pub open spec fn single_bool(t: SyntaxTree, b: int) -> Option<bool> {
    let stmts = kids_except(t, b, Noise::BracesElse);
    let s = trim_ws(t.text(stmts[0] as int));
    if stmts.len() != 1 {
        None
    } else if s == "true"@ {
        Some(true)
    } else if s == "false"@ {
        Some(false)
    } else {
        None
    }
}

fn single_bool_exec(t: &SyntaxTree, b: usize) -> (r: Option<bool>)
    requires
        t.wf(),
        b < t.len(),
    ensures
        r == single_bool(*t, b as int),
{
    let stmts = kids_except_exec(t, b, Noise::BracesElse);
    if stmts.len() != 1 {
        return None;
    }
    let s = trim_ws_exec(t.node_text(stmts[0]));
    if str_eq(s, "true") {
        Some(true)
    } else if str_eq(s, "false") {
        Some(false)
    } else {
        None
    }
}

/// `needless-bool`: an if-else whose branches are just `true` and `false`.
pub open spec fn needless_bool_hits(t: SyntaxTree, i: int) -> Seq<HitView> {
    let c = t.child_by_field(i, "consequence"@);
    let a = t.child_by_field(i, "alternative"@);
    if t.kind(i) == "if_expression"@ && c is Some && a is Some {
        match (single_bool(t, c.unwrap() as int), single_bool(t, a.unwrap() as int)) {
            (Some(true), Some(false)) => hit_if(
                true,
                t,
                i,
                "needless-bool"@,
                "This if-else returns bools; use the condition directly"@,
            ),
            (Some(false), Some(true)) => hit_if(
                true,
                t,
                i,
                "needless-bool"@,
                "This if-else returns bools; negate the condition"@,
            ),
            _ => seq![],
        }
    } else {
        seq![]
    }
}

pub fn needless_bool_at(t: &SyntaxTree, i: usize, ctx: &mut Ctx)
    requires
        t.wf(),
        i < t.len(),
        old(ctx).wf(),
    ensures
        final(ctx).grew(*old(ctx), needless_bool_hits(*t, i as int)),
{
    if !t.kind_is(i, "if_expression") {
        return;
    }
    if let (Some(c), Some(a)) = (t.field_child(i, "consequence"), t.field_child(i, "alternative")) {
        match (single_bool_exec(t, c), single_bool_exec(t, a)) {
            (Some(true), Some(false)) => {
                ctx.report(
                    t,
                    i,
                    "needless-bool",
                    "This if-else returns bools; use the condition directly".to_owned(),
                );
            },
            (Some(false), Some(true)) => {
                ctx.report(
                    t,
                    i,
                    "needless-bool",
                    "This if-else returns bools; negate the condition".to_owned(),
                );
            },
            _ => {},
        }
    }
}

/// `no-empty-function`: a Rust function whose body holds only comments.
pub open spec fn no_empty_function_hits(t: SyntaxTree, i: int) -> Seq<HitView> {
    let body = t.child_by_field(i, "body"@);
    hit_if(
        t.kind(i) == "function_item"@ && kind_of_is(t, body, "block"@) && kids_except(
            t,
            body.unwrap() as int,
            Noise::BracesRustComments,
        ).len() == 0,
        t,
        i,
        "no-empty-function"@,
        "Unexpected empty function"@,
    )
}

pub fn no_empty_function_at(t: &SyntaxTree, i: usize, ctx: &mut Ctx)
    requires
        t.wf(),
        i < t.len(),
        old(ctx).wf(),
    ensures
        final(ctx).grew(*old(ctx), no_empty_function_hits(*t, i as int)),
{
    if t.kind_is(i, "function_item") {
        let body = t.field_child(i, "body");
        if opt_kind_is(t, body, "block") && kids_except_exec(t, body.unwrap(), Noise::BracesRustComments).len() == 0 {
            ctx.report(t, i, "no-empty-function", "Unexpected empty function".to_owned());
        }
    }
}

/// A statement with any expression-statement wrapper taken off; `None` when
/// the wrapper is empty.
pub open spec fn unwrapped(t: SyntaxTree, s: int) -> Option<usize> {
    if t.kind(s) == "expression_statement"@ {
        t.child_at(s, 0)
    } else {
        Some(s as usize)
    }
}

fn unwrapped_exec(t: &SyntaxTree, s: usize) -> (r: Option<usize>)
    requires
        t.wf(),
        s < t.len(),
    ensures
        r == unwrapped(*t, s as int),
        r matches Some(c) ==> c < t.len(),
{
    if t.kind_is(s, "expression_statement") {
        t.child(s, 0)
    } else {
        Some(s)
    }
}

/// `needless-return`: a function whose last statement is a `return`.
pub open spec fn needless_return_hits(t: SyntaxTree, i: int) -> Seq<HitView> {
    let body = t.child_by_field(i, "body"@);
    let stmts = kids_except(t, body.unwrap() as int, Noise::Braces);
    hit_if(
        t.kind(i) == "function_item"@ && kind_of_is(t, body, "block"@) && stmts.len() > 0
            && kind_of_is(t, unwrapped(t, stmts.last() as int), "return_expression"@),
        t,
        i,
        "needless-return"@,
        "Unnecessary `return` in tail position; remove the `return` keyword"@,
    )
}

pub fn needless_return_at(t: &SyntaxTree, i: usize, ctx: &mut Ctx)
    requires
        t.wf(),
        i < t.len(),
        old(ctx).wf(),
    ensures
        final(ctx).grew(*old(ctx), needless_return_hits(*t, i as int)),
{
    if !t.kind_is(i, "function_item") {
        return;
    }
    let body = t.field_child(i, "body");
    if opt_kind_is(t, body, "block") {
        let stmts = kids_except_exec(t, body.unwrap(), Noise::Braces);
        if stmts.len() > 0 && opt_kind_is(t, unwrapped_exec(t, stmts[stmts.len() - 1]), "return_expression") {
            ctx.report(
                t,
                i,
                "needless-return",
                "Unnecessary `return` in tail position; remove the `return` keyword".to_owned(),
            );
        }
    }
}

pub open spec fn is_bool_text(s: Seq<char>) -> bool {
    s == "true"@ || s == "false"@
}

/// `bool-comparison`: `==` or `!=` with a boolean literal on a side.
pub open spec fn bool_comparison_hits(t: SyntaxTree, i: int) -> Seq<HitView> {
    let o = op_text(t, i);
    let l = t.child_by_field(i, "left"@);
    let r = t.child_by_field(i, "right"@);
    hit_if(
        t.kind(i) == "binary_expression"@ && t.child_by_field(i, "operator"@) is Some && (o == "=="@
            || o == "!="@) && l is Some && r is Some && (is_bool_text(t.text(l.unwrap() as int))
            || is_bool_text(t.text(r.unwrap() as int))),
        t,
        i,
        "bool-comparison"@,
        "Redundant comparison with boolean literal; simplify the expression"@,
    )
}

pub fn bool_comparison_at(t: &SyntaxTree, i: usize, ctx: &mut Ctx)
    requires
        t.wf(),
        i < t.len(),
        old(ctx).wf(),
    ensures
        final(ctx).grew(*old(ctx), bool_comparison_hits(*t, i as int)),
{
    if !t.kind_is(i, "binary_expression") {
        return;
    }
    if let Some(o) = t.field_child(i, "operator") {
        if t.text_is(o, "==") || t.text_is(o, "!=") {
            if let (Some(l), Some(r)) = (t.field_child(i, "left"), t.field_child(i, "right")) {
                if t.text_is(l, "true") || t.text_is(l, "false") || t.text_is(r, "true") || t.text_is(r, "false") {
                    ctx.report(
                        t,
                        i,
                        "bool-comparison",
                        "Redundant comparison with boolean literal; simplify the expression".to_owned(),
                    );
                }
            }
        }
    }
}

/// An `if let` condition.
pub open spec fn is_let_condition(t: SyntaxTree, c: Option<usize>) -> bool {
    kind_of_is(t, c, "let_condition"@) || kind_of_is(t, c, "let_chain"@)
}

/// `collapsible-if`: `if a { if b { .. } }` with no `else` on either.
pub open spec fn collapsible_if_hits(t: SyntaxTree, i: int) -> Seq<HitView> {
    let c = t.child_by_field(i, "consequence"@);
    let stmts = kids_except(t, c.unwrap() as int, Noise::Braces);
    let inner = unwrapped(t, stmts[0] as int);
    let n = inner.unwrap() as int;
    hit_if(
        t.kind(i) == "if_expression"@ && t.child_by_field(i, "alternative"@) is None && kind_of_is(
            t,
            c,
            "block"@,
        ) && stmts.len() == 1 && inner is Some && t.kind(n) == "if_expression"@ && t.child_by_field(
            n,
            "alternative"@,
        ) is None && !is_let_condition(t, t.child_by_field(i, "condition"@)) && !is_let_condition(
            t,
            t.child_by_field(n, "condition"@),
        ),
        t,
        i,
        "collapsible-if"@,
        "These `if` statements can be collapsed into `if a && b { ... }`"@,
    )
}

fn is_let_condition_exec(t: &SyntaxTree, c: Option<usize>) -> (r: bool)
    requires
        c matches Some(n) ==> n < t.len(),
    ensures
        r == is_let_condition(*t, c),
{
    opt_kind_is(t, c, "let_condition") || opt_kind_is(t, c, "let_chain")
}

pub fn collapsible_if_at(t: &SyntaxTree, i: usize, ctx: &mut Ctx)
    requires
        t.wf(),
        i < t.len(),
        old(ctx).wf(),
    ensures
        final(ctx).grew(*old(ctx), collapsible_if_hits(*t, i as int)),
{
    if !t.kind_is(i, "if_expression") || t.field_child(i, "alternative").is_some() {
        return;
    }
    let c = t.field_child(i, "consequence");
    if !opt_kind_is(t, c, "block") {
        return;
    }
    let stmts = kids_except_exec(t, c.unwrap(), Noise::Braces);
    if stmts.len() != 1 {
        return;
    }
    if let Some(n) = unwrapped_exec(t, stmts[0]) {
        if t.kind_is(n, "if_expression") && t.field_child(n, "alternative").is_none()
            && !is_let_condition_exec(t, t.field_child(i, "condition"))
            && !is_let_condition_exec(t, t.field_child(n, "condition")) {
            ctx.report(
                t,
                i,
                "collapsible-if",
                "These `if` statements can be collapsed into `if a && b { ... }`".to_owned(),
            );
        }
    }
}

/// The arms of a match expression, when it has a body.
pub open spec fn match_arms(t: SyntaxTree, i: int) -> Option<Seq<usize>> {
    match t.child_by_field(i, "body"@) {
        Some(b) => Some(kids_of_kind(t, b as int, "match_arm"@)),
        None => None,
    }
}

fn match_arms_exec(t: &SyntaxTree, i: usize) -> (r: Option<Vec<usize>>)
    requires
        t.wf(),
        i < t.len(),
    ensures
        match r {
            Some(v) => match_arms(*t, i as int) == Some(v@) && forall|q: int|
                0 <= q < v@.len() ==> #[trigger] v@[q] < t.len(),
            None => match_arms(*t, i as int) is None,
        },
{
    match t.field_child(i, "body") {
        Some(b) => Some(kids_of_kind_exec(t, b, "match_arm")),
        None => None,
    }
}

/// `single-match`: a two-arm match whose second arm is `_ => ()`.
pub open spec fn single_match_hits(t: SyntaxTree, i: int) -> Seq<HitView> {
    let arms = match_arms(t, i).unwrap();
    let last = arms[1] as int;
    let pat = t.child_by_field(last, "pattern"@);
    let val = t.child_by_field(last, "value"@);
    let vt = trim_ws(t.text(val.unwrap() as int));
    hit_if(
        t.kind(i) == "match_expression"@ && match_arms(t, i) is Some && arms.len() == 2 && pat is Some
            && (t.kind(pat.unwrap() as int) == "_"@ || trim_ws(t.text(pat.unwrap() as int)) == "_"@)
            && val is Some && (vt == "()"@ || vt.len() == 0),
        t,
        i,
        "single-match"@,
        "This `match` has a single non-wildcard arm; use `if let` instead"@,
    )
}

pub fn single_match_at(t: &SyntaxTree, i: usize, ctx: &mut Ctx)
    requires
        t.wf(),
        i < t.len(),
        old(ctx).wf(),
    ensures
        final(ctx).grew(*old(ctx), single_match_hits(*t, i as int)),
{
    if !t.kind_is(i, "match_expression") {
        return;
    }
    if let Some(arms) = match_arms_exec(t, i) {
        if arms.len() != 2 {
            return;
        }
        let last = arms[1];
        if let (Some(p), Some(v)) = (t.field_child(last, "pattern"), t.field_child(last, "value")) {
            if t.kind_is(p, "_") || str_eq(trim_ws_exec(t.node_text(p)), "_") {
                let vt = trim_ws_exec(t.node_text(v));
                if str_eq(vt, "()") || vt.unicode_len() == 0 {
                    ctx.report(
                        t,
                        i,
                        "single-match",
                        "This `match` has a single non-wildcard arm; use `if let` instead".to_owned(),
                    );
                }
            }
        }
    }
}

/// The trimmed text of field `f` of an arm, or the empty text.
pub open spec fn arm_part(t: SyntaxTree, arm: int, f: Seq<char>) -> Seq<char> {
    match t.child_by_field(arm, f) {
        Some(c) => trim_ws(t.text(c as int)),
        None => Seq::empty(),
    }
}

fn arm_part_exec<'a>(t: &'a SyntaxTree, arm: usize, f: &str) -> (r: &'a str)
    requires
        t.wf(),
        arm < t.len(),
    ensures
        r@ == arm_part(*t, arm as int, f@),
{
    match t.field_child(arm, f) {
        Some(c) => trim_ws_exec(t.node_text(c)),
        None => {
            proof {
                reveal_strlit("");
            }
            ""
        },
    }
}

/// `manual-map`: `match o { Some(x) => Some(..), None => None }`, in
/// either arm order.
pub open spec fn manual_map_hits(t: SyntaxTree, i: int) -> Seq<HitView> {
    let arms = match_arms(t, i).unwrap();
    let p0 = arm_part(t, arms[0] as int, "pattern"@);
    let p1 = arm_part(t, arms[1] as int, "pattern"@);
    let v0 = arm_part(t, arms[0] as int, "value"@);
    let v1 = arm_part(t, arms[1] as int, "value"@);
    hit_if(
        t.kind(i) == "match_expression"@ && match_arms(t, i) is Some && arms.len() == 2 && ((
        starts_with(p0, "Some"@) && p1 == "None"@ && starts_with(v0, "Some"@) && v1 == "None"@) || (p0
            == "None"@ && starts_with(p1, "Some"@) && v0 == "None"@ && starts_with(v1, "Some"@))),
        t,
        i,
        "manual-map"@,
        "This `match` manually maps `Some`/`None`; use `.map()` instead"@,
    )
}

pub fn manual_map_at(t: &SyntaxTree, i: usize, ctx: &mut Ctx)
    requires
        t.wf(),
        i < t.len(),
        old(ctx).wf(),
    ensures
        final(ctx).grew(*old(ctx), manual_map_hits(*t, i as int)),
{
    if !t.kind_is(i, "match_expression") {
        return;
    }
    if let Some(arms) = match_arms_exec(t, i) {
        if arms.len() != 2 {
            return;
        }
        let p0 = arm_part_exec(t, arms[0], "pattern");
        let p1 = arm_part_exec(t, arms[1], "pattern");
        let v0 = arm_part_exec(t, arms[0], "value");
        let v1 = arm_part_exec(t, arms[1], "value");
        let some_first = str_starts_with(p0, "Some") && str_eq(p1, "None") && str_starts_with(v0, "Some")
            && str_eq(v1, "None");
        let none_first = str_eq(p0, "None") && str_starts_with(p1, "Some") && str_eq(v0, "None")
            && str_starts_with(v1, "Some");
        if some_first || none_first {
            ctx.report(
                t,
                i,
                "manual-map",
                "This `match` manually maps `Some`/`None`; use `.map()` instead".to_owned(),
            );
        }
    }
}

/// `redundant-clone`: `.clone().clone()`.
pub open spec fn redundant_clone_hits(t: SyntaxTree, i: int) -> Seq<HitView> {
    let f = t.child_by_field(i, "function"@);
    let recv = t.child_by_field(f.unwrap() as int, "value"@);
    hit_if(
        text_of_is(t, method_called(t, i), "clone"@) && recv is Some && text_of_is(
            t,
            method_called(t, recv.unwrap() as int),
            "clone"@,
        ),
        t,
        i,
        "redundant-clone"@,
        "Redundant `.clone().clone()`; a single `.clone()` suffices"@,
    )
}

pub fn redundant_clone_at(t: &SyntaxTree, i: usize, ctx: &mut Ctx)
    requires
        t.wf(),
        i < t.len(),
        old(ctx).wf(),
    ensures
        final(ctx).grew(*old(ctx), redundant_clone_hits(*t, i as int)),
{
    if !opt_text_is(t, method_called_exec(t, i), "clone") {
        return;
    }
    let f = t.field_child(i, "function").unwrap();
    if let Some(recv) = t.field_child(f, "value") {
        if opt_text_is(t, method_called_exec(t, recv), "clone") {
            ctx.report(
                t,
                i,
                "redundant-clone",
                "Redundant `.clone().clone()`; a single `.clone()` suffices".to_owned(),
            );
        }
    }
}

/// Operators whose two sides being identical is a mistake.
pub open spec fn is_eq_op_operator(o: Seq<char>) -> bool {
    o == "=="@ || o == "!="@ || o == "<"@ || o == ">"@ || o == "<="@ || o == ">="@ || o == "&"@
        || o == "|"@ || o == "^"@
}

/// `eq-op`: both sides of a comparison or bitwise operator are the same text.
pub open spec fn eq_op_hits(t: SyntaxTree, i: int) -> Seq<HitView> {
    let o = op_text(t, i);
    let l = t.child_by_field(i, "left"@);
    let r = t.child_by_field(i, "right"@);
    let lt = trim_ws(t.text(l.unwrap() as int));
    hit_if(
        t.kind(i) == "binary_expression"@ && t.child_by_field(i, "operator"@) is Some
            && is_eq_op_operator(o) && l is Some && r is Some && lt.len() > 0 && lt == trim_ws(
            t.text(r.unwrap() as int),
        ),
        t,
        i,
        "eq-op"@,
        "Both sides of `"@ + o + "` are identical: `"@ + lt + "`"@,
    )
}

pub fn eq_op_at(t: &SyntaxTree, i: usize, ctx: &mut Ctx)
    requires
        t.wf(),
        i < t.len(),
        old(ctx).wf(),
    ensures
        final(ctx).grew(*old(ctx), eq_op_hits(*t, i as int)),
{
    if !t.kind_is(i, "binary_expression") {
        return;
    }
    if let Some(oc) = t.field_child(i, "operator") {
        let o = t.node_text(oc);
        if !(str_eq(o, "==") || str_eq(o, "!=") || str_eq(o, "<") || str_eq(o, ">") || str_eq(o, "<=")
            || str_eq(o, ">=") || str_eq(o, "&") || str_eq(o, "|") || str_eq(o, "^")) {
            return;
        }
        if let (Some(l), Some(r)) = (t.field_child(i, "left"), t.field_child(i, "right")) {
            let lt = trim_ws_exec(t.node_text(l));
            let rt = trim_ws_exec(t.node_text(r));
            if lt.unicode_len() > 0 && str_eq(lt, rt) {
                ctx.report(t, i, "eq-op", cat5("Both sides of `", o, "` are identical: `", lt, "`"));
            }
        }
    }
}

} // verus!
