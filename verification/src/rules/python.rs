//! Rules for Python.
use vstd::prelude::*;
use crate::lint::{Ctx, HitView, hit, hit_if, hits_each, report_each};
use crate::rules::common::{
    FlowStyle, Noise, ReturnSearch, cat3, kids_except, kids_except_exec, kind_of_is, opt_kind_is,
    opt_text_is, returns_kids, returns_kids_exec, text_of_is, unreachable_after, unreachable_exec,
};
use crate::syntax::SyntaxTree;
use crate::text::str_eq;

verus! {

/// Whether an except clause names what it catches.
pub open spec fn names_exception(t: SyntaxTree, i: int) -> bool {
    t.child_by_kind(i, "identifier"@) is Some || t.child_by_kind(i, "tuple"@) is Some
        || t.child_by_kind(i, "as_pattern"@) is Some || t.child_by_kind(i, "attribute"@) is Some
}

/// One finding at `i` for each of `cs` that is the identifier `Exception`.
pub open spec fn broad_excepts(t: SyntaxTree, i: int, cs: Seq<usize>) -> Seq<HitView>
    decreases cs.len(),
{
    if cs.len() == 0 {
        seq![]
    } else {
        broad_excepts(t, i, cs.drop_last()) + hit_if(
            t.kind(cs.last() as int) == "identifier"@ && t.text(cs.last() as int) == "Exception"@,
            t,
            i,
            "no-bare-except"@,
            "Avoid `except Exception:`, catch specific exceptions"@,
        )
    }
}

/// `no-bare-except`: `except:` with no type, or `except Exception:`.
pub open spec fn no_bare_except_hits(t: SyntaxTree, i: int) -> Seq<HitView> {
    if t.kind(i) != "except_clause"@ {
        seq![]
    } else if !names_exception(t, i) {
        seq![hit(t, i, "no-bare-except"@, "Avoid bare `except:`, specify an exception type"@)]
    } else {
        broad_excepts(t, i, t.children(i))
    }
}

pub fn no_bare_except_at(t: &SyntaxTree, i: usize, ctx: &mut Ctx)
    requires
        t.wf(),
        i < t.len(),
        old(ctx).wf(),
    ensures
        final(ctx).grew(*old(ctx), no_bare_except_hits(*t, i as int)),
{
    if !t.kind_is(i, "except_clause") {
        return;
    }
    if t.kind_child(i, "identifier").is_none() && t.kind_child(i, "tuple").is_none() && t.kind_child(
        i,
        "as_pattern",
    ).is_none() && t.kind_child(i, "attribute").is_none() {
        ctx.report(t, i, "no-bare-except", "Avoid bare `except:`, specify an exception type".to_owned());
        return;
    }
    let ghost start = *ctx;
    let cs = &t.nodes[i].children;
    let mut k: usize = 0;
    while k < cs.len()
        invariant
            t.wf(),
            i < t.len(),
            cs@ == t.children(i as int),
            k <= cs@.len(),
            ctx.grew(start, broad_excepts(*t, i as int, cs@.take(k as int))),
        decreases cs@.len() - k,
    {
        let c = cs[k];
        assert(i < c < t.len()) by {
            assert(t.nodes@[i as int].children@[k as int] == c);
        }
        assert(cs@.take(k + 1).drop_last() =~= cs@.take(k as int));
        assert(cs@.take(k + 1).last() == c);
        if t.kind_is(c, "identifier") && t.text_is(c, "Exception") {
            ctx.report(
                t,
                i,
                "no-bare-except",
                "Avoid `except Exception:`, catch specific exceptions".to_owned(),
            );
        }
        k = k + 1;
    }
    assert(cs@.take(k as int) =~= cs@);
}

/// The callee of a Python call, when `i` is one.
pub open spec fn py_callee(t: SyntaxTree, i: int) -> Option<usize> {
    if t.kind(i) == "call"@ {
        t.child_by_field(i, "function"@)
    } else {
        None
    }
}

fn py_callee_exec(t: &SyntaxTree, i: usize) -> (r: Option<usize>)
    requires
        t.wf(),
        i < t.len(),
    ensures
        r == py_callee(*t, i as int),
        r matches Some(c) ==> c < t.len(),
{
    if t.kind_is(i, "call") {
        t.field_child(i, "function")
    } else {
        None
    }
}

/// `no-print`: a call of `print` or `pprint`.
pub open spec fn no_print_hits(t: SyntaxTree, i: int) -> Seq<HitView> {
    let f = py_callee(t, i);
    let name = t.text(f.unwrap() as int);
    hit_if(
        f is Some && (name == "print"@ || name == "pprint"@),
        t,
        i,
        "no-print"@,
        "Avoid `"@ + name + "()`, use the `logging` module"@,
    )
}

pub fn no_print_at(t: &SyntaxTree, i: usize, ctx: &mut Ctx)
    requires
        t.wf(),
        i < t.len(),
        old(ctx).wf(),
    ensures
        final(ctx).grew(*old(ctx), no_print_hits(*t, i as int)),
{
    if let Some(f) = py_callee_exec(t, i) {
        let name = t.node_text(f);
        if str_eq(name, "print") || str_eq(name, "pprint") {
            ctx.report(t, i, "no-print", cat3("Avoid `", name, "()`, use the `logging` module"));
        }
    }
}

/// `no-eval`: a call of `eval`, or of `exec` (reported as `no-exec`).
pub open spec fn no_eval_hits(t: SyntaxTree, i: int) -> Seq<HitView> {
    let f = py_callee(t, i);
    hit_if(text_of_is(t, f, "eval"@), t, i, "no-eval"@, "`eval()` is a security risk"@) + hit_if(
        text_of_is(t, f, "exec"@),
        t,
        i,
        "no-exec"@,
        "`exec()` is a security risk"@,
    )
}

pub fn no_eval_at(t: &SyntaxTree, i: usize, ctx: &mut Ctx)
    requires
        t.wf(),
        i < t.len(),
        old(ctx).wf(),
    ensures
        final(ctx).grew(*old(ctx), no_eval_hits(*t, i as int)),
{
    let f = py_callee_exec(t, i);
    if opt_text_is(t, f, "eval") {
        ctx.report(t, i, "no-eval", "`eval()` is a security risk".to_owned());
    }
    if opt_text_is(t, f, "exec") {
        ctx.report(t, i, "no-exec", "`exec()` is a security risk".to_owned());
    }
}

/// `no-mutable-default`: a default argument that is a list, dict or set.
pub open spec fn no_mutable_default_hits(t: SyntaxTree, i: int) -> Seq<HitView> {
    let v = t.child_by_field(i, "value"@);
    hit_if(
        t.kind(i) == "default_parameter"@ && (kind_of_is(t, v, "list"@) || kind_of_is(
            t,
            v,
            "dictionary"@,
        ) || kind_of_is(t, v, "set"@)),
        t,
        i,
        "no-mutable-default"@,
        "Mutable default argument; use `None` and assign inside the function"@,
    )
}

pub fn no_mutable_default_at(t: &SyntaxTree, i: usize, ctx: &mut Ctx)
    requires
        t.wf(),
        i < t.len(),
        old(ctx).wf(),
    ensures
        final(ctx).grew(*old(ctx), no_mutable_default_hits(*t, i as int)),
{
    if t.kind_is(i, "default_parameter") {
        let v = t.field_child(i, "value");
        if opt_kind_is(t, v, "list") || opt_kind_is(t, v, "dictionary") || opt_kind_is(t, v, "set") {
            ctx.report(
                t,
                i,
                "no-mutable-default",
                "Mutable default argument; use `None` and assign inside the function".to_owned(),
            );
        }
    }
}

/// `no-global`: a `global` statement.
pub open spec fn no_global_hits(t: SyntaxTree, i: int) -> Seq<HitView> {
    hit_if(
        t.kind(i) == "global_statement"@,
        t,
        i,
        "no-global"@,
        "Avoid `global` keyword, pass values explicitly"@,
    )
}

pub fn no_global_at(t: &SyntaxTree, i: usize, ctx: &mut Ctx)
    requires
        t.wf(),
        i < t.len(),
        old(ctx).wf(),
    ensures
        final(ctx).grew(*old(ctx), no_global_hits(*t, i as int)),
{
    if t.kind_is(i, "global_statement") {
        ctx.report(t, i, "no-global", "Avoid `global` keyword, pass values explicitly".to_owned());
    }
}

/// `no-assert`: an `assert` statement (test files are exempt, see the rule set).
pub open spec fn no_assert_hits(t: SyntaxTree, i: int) -> Seq<HitView> {
    hit_if(
        t.kind(i) == "assert_statement"@,
        t,
        i,
        "no-assert"@,
        "`assert` is stripped in optimized mode; use explicit error handling"@,
    )
}

pub fn no_assert_at(t: &SyntaxTree, i: usize, ctx: &mut Ctx)
    requires
        t.wf(),
        i < t.len(),
        old(ctx).wf(),
    ensures
        final(ctx).grew(*old(ctx), no_assert_hits(*t, i as int)),
{
    if t.kind_is(i, "assert_statement") {
        ctx.report(
            t,
            i,
            "no-assert",
            "`assert` is stripped in optimized mode; use explicit error handling".to_owned(),
        );
    }
}

/// `unreachable`: a statement after `return`, `raise`, `break` or
/// `continue` in the same block; the first of them, once per block.
pub open spec fn unreachable_hits(t: SyntaxTree, i: int) -> Seq<HitView> {
    if t.kind(i) == "block"@ {
        hits_each(
            t,
            unreachable_after(t, t.children(i), false, FlowStyle::Python),
            "unreachable"@,
            "Unreachable code after return/raise"@,
        )
    } else {
        seq![]
    }
}

pub fn unreachable_at(t: &SyntaxTree, i: usize, ctx: &mut Ctx)
    requires
        t.wf(),
        i < t.len(),
        old(ctx).wf(),
    ensures
        final(ctx).grew(*old(ctx), unreachable_hits(*t, i as int)),
{
    if t.kind_is(i, "block") {
        let dead = unreachable_exec(t, i, FlowStyle::Python);
        report_each(ctx, t, &dead, "unreachable", "Unreachable code after return/raise");
    }
}

/// The statements of a Python block, layout tokens and comments left out.
pub open spec fn py_stmts(t: SyntaxTree, b: int) -> Seq<usize> {
    kids_except(t, b, Noise::PyLayout)
}

/// `pointless-except`: an except clause whose body only re-raises.
pub open spec fn pointless_except_hits(t: SyntaxTree, i: int) -> Seq<HitView> {
    let body = kids_except(t, i, Noise::ExceptHead);
    let inner = py_stmts(t, body[0] as int);
    hit_if(
        t.kind(i) == "except_clause"@ && body.len() == 1 && t.kind(body[0] as int) == "block"@
            && inner.len() == 1 && t.kind(inner[0] as int) == "raise_statement"@ && t.children(
            inner[0] as int,
        ).len() <= 1,
        t,
        i,
        "pointless-except"@,
        "Except block only re-raises; remove the try/except"@,
    )
}

pub fn pointless_except_at(t: &SyntaxTree, i: usize, ctx: &mut Ctx)
    requires
        t.wf(),
        i < t.len(),
        old(ctx).wf(),
    ensures
        final(ctx).grew(*old(ctx), pointless_except_hits(*t, i as int)),
{
    if !t.kind_is(i, "except_clause") {
        return;
    }
    let body = kids_except_exec(t, i, Noise::ExceptHead);
    if body.len() == 1 && t.kind_is(body[0], "block") {
        let inner = kids_except_exec(t, body[0], Noise::PyLayout);
        if inner.len() == 1 && t.kind_is(inner[0], "raise_statement") && t.child_count(inner[0]) <= 1 {
            ctx.report(
                t,
                i,
                "pointless-except",
                "Except block only re-raises; remove the try/except".to_owned(),
            );
        }
    }
}

/// The statements of the block in field `body` of `i`, when it is a block.
pub open spec fn body_block_stmts(t: SyntaxTree, i: int) -> Option<Seq<usize>> {
    match t.child_by_field(i, "body"@) {
        Some(b) => if t.kind(b as int) == "block"@ {
            Some(py_stmts(t, b as int))
        } else {
            None
        },
        None => None,
    }
}

fn body_block_stmts_exec(t: &SyntaxTree, i: usize) -> (r: Option<Vec<usize>>)
    requires
        t.wf(),
        i < t.len(),
    ensures
        match r {
            Some(v) => body_block_stmts(*t, i as int) == Some(v@) && forall|q: int|
                0 <= q < v@.len() ==> #[trigger] v@[q] < t.len(),
            None => body_block_stmts(*t, i as int) is None,
        },
{
    match t.field_child(i, "body") {
        Some(b) => if t.kind_is(b, "block") {
            Some(kids_except_exec(t, b, Noise::PyLayout))
        } else {
            None
        },
        None => None,
    }
}

/// `no-pass-body`: a function or class whose body is only `pass`.
pub open spec fn no_pass_body_hits(t: SyntaxTree, i: int) -> Seq<HitView> {
    let st = body_block_stmts(t, i);
    let what = if t.kind(i) == "function_definition"@ { "Function"@ } else { "Class"@ };
    hit_if(
        (t.kind(i) == "function_definition"@ || t.kind(i) == "class_definition"@) && st is Some
            && st.unwrap().len() == 1 && t.kind(st.unwrap()[0] as int) == "pass_statement"@,
        t,
        i,
        "no-pass-body"@,
        what + " has only `pass` as its body"@,
    )
}

pub fn no_pass_body_at(t: &SyntaxTree, i: usize, ctx: &mut Ctx)
    requires
        t.wf(),
        i < t.len(),
        old(ctx).wf(),
    ensures
        final(ctx).grew(*old(ctx), no_pass_body_hits(*t, i as int)),
{
    let func = t.kind_is(i, "function_definition");
    if !func && !t.kind_is(i, "class_definition") {
        return;
    }
    if let Some(st) = body_block_stmts_exec(t, i) {
        if st.len() == 1 && t.kind_is(st[0], "pass_statement") {
            let what = if func { "Function" } else { "Class" };
            let mut msg = what.to_owned();
            msg.append(" has only `pass` as its body");
            ctx.report(t, i, "no-pass-body", msg);
        }
    }
}

/// `no-star-import`: `from x import *`.
pub open spec fn no_star_import_hits(t: SyntaxTree, i: int) -> Seq<HitView> {
    hit_if(
        t.kind(i) == "import_from_statement"@ && t.child_by_kind(i, "wildcard_import"@) is Some,
        t,
        i,
        "no-star-import"@,
        "Avoid wildcard imports (`from x import *`); import specific names"@,
    )
}

pub fn no_star_import_at(t: &SyntaxTree, i: usize, ctx: &mut Ctx)
    requires
        t.wf(),
        i < t.len(),
        old(ctx).wf(),
    ensures
        final(ctx).grew(*old(ctx), no_star_import_hits(*t, i as int)),
{
    if t.kind_is(i, "import_from_statement") && t.kind_child(i, "wildcard_import").is_some() {
        ctx.report(
            t,
            i,
            "no-star-import",
            "Avoid wildcard imports (`from x import *`); import specific names".to_owned(),
        );
    }
}

/// `no-nested-with`: a `with` whose body is only another `with`.
pub open spec fn no_nested_with_hits(t: SyntaxTree, i: int) -> Seq<HitView> {
    let st = body_block_stmts(t, i);
    hit_if(
        t.kind(i) == "with_statement"@ && st is Some && st.unwrap().len() == 1 && t.kind(
            st.unwrap()[0] as int,
        ) == "with_statement"@,
        t,
        i,
        "no-nested-with"@,
        "Nested `with` statements can be combined into a single `with`"@,
    )
}

pub fn no_nested_with_at(t: &SyntaxTree, i: usize, ctx: &mut Ctx)
    requires
        t.wf(),
        i < t.len(),
        old(ctx).wf(),
    ensures
        final(ctx).grew(*old(ctx), no_nested_with_hits(*t, i as int)),
{
    if !t.kind_is(i, "with_statement") {
        return;
    }
    if let Some(st) = body_block_stmts_exec(t, i) {
        if st.len() == 1 && t.kind_is(st[0], "with_statement") {
            ctx.report(
                t,
                i,
                "no-nested-with",
                "Nested `with` statements can be combined into a single `with`".to_owned(),
            );
        }
    }
}

/// `no-return-in-init`: a `return` with a value in `__init__`.
pub open spec fn no_return_in_init_hits(t: SyntaxTree, i: int) -> Seq<HitView> {
    let body = t.child_by_field(i, "body"@);
    if t.kind(i) == "function_definition"@ && text_of_is(t, t.child_by_field(i, "name"@), "__init__"@)
        && body is Some {
        returns_kids(t, body.unwrap() as int, 0, ReturnSearch::Valued)
    } else {
        seq![]
    }
}

pub fn no_return_in_init_at(t: &SyntaxTree, i: usize, ctx: &mut Ctx)
    requires
        t.wf(),
        i < t.len(),
        old(ctx).wf(),
    ensures
        final(ctx).grew(*old(ctx), no_return_in_init_hits(*t, i as int)),
{
    if t.kind_is(i, "function_definition") && opt_text_is(t, t.field_child(i, "name"), "__init__") {
        if let Some(b) = t.field_child(i, "body") {
            returns_kids_exec(t, b, ReturnSearch::Valued, ctx);
        }
    }
}

/// The boolean a `return True` or `return False` statement returns.
pub open spec fn returned_bool(t: SyntaxTree, r: int) -> Option<bool> {
    let values = kids_except(t, r, Noise::ReturnComment);
    if values.len() != 1 {
        None
    } else if t.text(values[0] as int) == "True"@ {
        Some(true)
    } else if t.text(values[0] as int) == "False"@ {
        Some(false)
    } else {
        None
    }
}

/// The boolean a block returns when it is only `return True` or `return False`.
pub open spec fn sole_return_bool(t: SyntaxTree, b: int) -> Option<bool> {
    let st = py_stmts(t, b);
    if t.kind(b) == "block"@ && st.len() == 1 && t.kind(st[0] as int) == "return_statement"@ {
        returned_bool(t, st[0] as int)
    } else {
        None
    }
}

fn sole_return_bool_exec(t: &SyntaxTree, b: usize) -> (r: Option<bool>)
    requires
        t.wf(),
        b < t.len(),
    ensures
        r == sole_return_bool(*t, b as int),
{
    if !t.kind_is(b, "block") {
        return None;
    }
    let st = kids_except_exec(t, b, Noise::PyLayout);
    if st.len() != 1 || !t.kind_is(st[0], "return_statement") {
        return None;
    }
    let values = kids_except_exec(t, st[0], Noise::ReturnComment);
    if values.len() != 1 {
        None
    } else if t.text_is(values[0], "True") {
        Some(true)
    } else if t.text_is(values[0], "False") {
        Some(false)
    } else {
        None
    }
}

/// `simplify-boolean-return`: `if c: return True` / `else: return False`,
/// or the other way round.
pub open spec fn simplify_boolean_return_hits(t: SyntaxTree, i: int) -> Seq<HitView> {
    let c = t.child_by_field(i, "consequence"@);
    let a = t.child_by_field(i, "alternative"@);
    let then_val = sole_return_bool(t, c.unwrap() as int);
    let else_val = match t.child_by_kind(a.unwrap() as int, "block"@) {
        Some(b) => sole_return_bool(t, b as int),
        None => None,
    };
    hit_if(
        t.kind(i) == "if_statement"@ && c is Some && kind_of_is(t, a, "else_clause"@) && then_val is Some
            && else_val is Some && then_val.unwrap() != else_val.unwrap(),
        t,
        i,
        "simplify-boolean-return"@,
        "Simplify `if cond: return True; else: return False` to `return cond`"@,
    )
}

pub fn simplify_boolean_return_at(t: &SyntaxTree, i: usize, ctx: &mut Ctx)
    requires
        t.wf(),
        i < t.len(),
        old(ctx).wf(),
    ensures
        final(ctx).grew(*old(ctx), simplify_boolean_return_hits(*t, i as int)),
{
    if !t.kind_is(i, "if_statement") {
        return;
    }
    let a = t.field_child(i, "alternative");
    if let Some(c) = t.field_child(i, "consequence") {
        if opt_kind_is(t, a, "else_clause") {
            let then_val = sole_return_bool_exec(t, c);
            let else_val = match t.kind_child(a.unwrap(), "block") {
                Some(b) => sole_return_bool_exec(t, b),
                None => None,
            };
            if let (Some(x), Some(y)) = (then_val, else_val) {
                if x != y {
                    ctx.report(
                        t,
                        i,
                        "simplify-boolean-return",
                        "Simplify `if cond: return True; else: return False` to `return cond`".to_owned(),
                    );
                }
            }
        }
    }
}

/// Whether an `if` has an `elif` or `else` part.
pub open spec fn has_else_part(t: SyntaxTree, i: int) -> bool {
    t.child_by_kind(i, "else_clause"@) is Some || t.child_by_kind(i, "elif_clause"@) is Some
}

/// The statements of the consequence block of an `if`, when it is a block.
pub open spec fn then_stmts(t: SyntaxTree, i: int) -> Option<Seq<usize>> {
    match t.child_by_field(i, "consequence"@) {
        Some(b) => if t.kind(b as int) == "block"@ {
            Some(py_stmts(t, b as int))
        } else {
            None
        },
        None => None,
    }
}

fn then_stmts_exec(t: &SyntaxTree, i: usize) -> (r: Option<Vec<usize>>)
    requires
        t.wf(),
        i < t.len(),
    ensures
        match r {
            Some(v) => then_stmts(*t, i as int) == Some(v@) && forall|q: int|
                0 <= q < v@.len() ==> #[trigger] v@[q] < t.len(),
            None => then_stmts(*t, i as int) is None,
        },
{
    match t.field_child(i, "consequence") {
        Some(b) => if t.kind_is(b, "block") {
            Some(kids_except_exec(t, b, Noise::PyLayout))
        } else {
            None
        },
        None => None,
    }
}

/// `collapsible-if`: `if a:` whose body is only `if b:`, neither with
/// `elif` or `else`.
pub open spec fn collapsible_if_hits(t: SyntaxTree, i: int) -> Seq<HitView> {
    let st = then_stmts(t, i);
    hit_if(
        t.kind(i) == "if_statement"@ && !has_else_part(t, i) && st is Some && st.unwrap().len() == 1
            && t.kind(st.unwrap()[0] as int) == "if_statement"@ && !has_else_part(
            t,
            st.unwrap()[0] as int,
        ),
        t,
        i,
        "collapsible-if"@,
        "Nested `if` can be merged: `if a and b:`"@,
    )
}

pub fn collapsible_if_at(t: &SyntaxTree, i: usize, ctx: &mut Ctx)
    requires
        t.wf(),
        i < t.len(),
        old(ctx).wf(),
    ensures
        final(ctx).grew(*old(ctx), collapsible_if_hits(*t, i as int)),
{
    if !t.kind_is(i, "if_statement") || t.kind_child(i, "else_clause").is_some() || t.kind_child(
        i,
        "elif_clause",
    ).is_some() {
        return;
    }
    if let Some(st) = then_stmts_exec(t, i) {
        if st.len() == 1 && t.kind_is(st[0], "if_statement") && t.kind_child(st[0], "else_clause").is_none()
            && t.kind_child(st[0], "elif_clause").is_none() {
            ctx.report(t, i, "collapsible-if", "Nested `if` can be merged: `if a and b:`".to_owned());
        }
    }
}

/// `superfluous-else`: an `else` after a body that ends with `return` or `raise`.
pub open spec fn superfluous_else_hits(t: SyntaxTree, i: int) -> Seq<HitView> {
    let st = then_stmts(t, i);
    let last = t.kind(st.unwrap().last() as int);
    hit_if(
        t.kind(i) == "if_statement"@ && t.child_by_kind(i, "else_clause"@) is Some && st is Some
            && st.unwrap().len() > 0 && (last == "return_statement"@ || last == "raise_statement"@),
        t,
        i,
        "superfluous-else"@,
        "Remove `else` after `return`/`raise`; dedent the else body"@,
    )
}

pub fn superfluous_else_at(t: &SyntaxTree, i: usize, ctx: &mut Ctx)
    requires
        t.wf(),
        i < t.len(),
        old(ctx).wf(),
    ensures
        final(ctx).grew(*old(ctx), superfluous_else_hits(*t, i as int)),
{
    if !t.kind_is(i, "if_statement") || t.kind_child(i, "else_clause").is_none() {
        return;
    }
    if let Some(st) = then_stmts_exec(t, i) {
        if st.len() > 0 {
            let last = st[st.len() - 1];
            if t.kind_is(last, "return_statement") || t.kind_is(last, "raise_statement") {
                ctx.report(
                    t,
                    i,
                    "superfluous-else",
                    "Remove `else` after `return`/`raise`; dedent the else body".to_owned(),
                );
            }
        }
    }
}

} // verus!
