//! Rules for Clojure.
use vstd::prelude::*;
use crate::lint::{Ctx, HitView, hit_if};
use crate::rules::common::cat3;
use crate::syntax::SyntaxTree;
use crate::text::{starts_with, str_eq, str_starts_with};

verus! {

/// The first symbol of a list form: the name it calls.
pub open spec fn head_symbol(t: SyntaxTree, i: int) -> Option<Seq<char>> {
    if t.kind(i) == "list_lit"@ {
        match t.child_by_kind(i, "sym_lit"@) {
            Some(s) => Some(t.text(s as int)),
            None => None,
        }
    } else {
        None
    }
}

fn head_symbol_exec<'a>(t: &'a SyntaxTree, i: usize) -> (r: Option<&'a str>)
    requires
        t.wf(),
        i < t.len(),
    ensures
        match r {
            Some(s) => head_symbol(*t, i as int) == Some(s@),
            None => head_symbol(*t, i as int) is None,
        },
{
    if t.kind_is(i, "list_lit") {
        match t.kind_child(i, "sym_lit") {
            Some(s) => Some(t.node_text(s)),
            None => None,
        }
    } else {
        None
    }
}

/// `no-println`: `(println ...)`, `(prn ...)` or `(print ...)`.
pub open spec fn no_println_hits(t: SyntaxTree, i: int) -> Seq<HitView> {
    let h = head_symbol(t, i);
    let name = h.unwrap();
    hit_if(
        h is Some && (name == "println"@ || name == "prn"@ || name == "print"@),
        t,
        i,
        "no-println"@,
        "Avoid `("@ + name + " ...)`, use a logging library"@,
    )
}

pub fn no_println_at(t: &SyntaxTree, i: usize, ctx: &mut Ctx)
    requires
        t.wf(),
        i < t.len(),
        old(ctx).wf(),
    ensures
        final(ctx).grew(*old(ctx), no_println_hits(*t, i as int)),
{
    if let Some(name) = head_symbol_exec(t, i) {
        if str_eq(name, "println") || str_eq(name, "prn") || str_eq(name, "print") {
            ctx.report(t, i, "no-println", cat3("Avoid `(", name, " ...)`, use a logging library"));
        }
    }
}

pub open spec fn is_defn_name(s: Seq<char>) -> bool {
    s == "defn"@ || s == "defn-"@
}

/// The name of the nearest `defn` form at or above node `j`.
pub open spec fn enclosing_defn(t: SyntaxTree, j: int) -> Option<Seq<char>>
    decreases j,
{
    if 0 <= j < t.len() {
        match head_symbol(t, j) {
            Some(n) if is_defn_name(n) => Some(n),
            _ => match t.parent(j) {
                Some(p) => if p < j {
                    enclosing_defn(t, p as int)
                } else {
                    None
                },
                None => None,
            },
        }
    } else {
        None
    }
}

fn enclosing_defn_exec<'a>(t: &'a SyntaxTree, j: usize) -> (r: Option<&'a str>)
    requires
        t.wf(),
        j < t.len(),
    ensures
        match r {
            Some(s) => enclosing_defn(*t, j as int) == Some(s@),
            None => enclosing_defn(*t, j as int) is None,
        },
    decreases j,
{
    if let Some(n) = head_symbol_exec(t, j) {
        if str_eq(n, "defn") || str_eq(n, "defn-") {
            return Some(n);
        }
    }
    match t.node_parent(j) {
        Some(p) => {
            assert(t.nodes@[j as int].parent == Some(p));
            enclosing_defn_exec(t, p)
        },
        None => None,
    }
}

/// `no-def-in-def`: a `def`, `defn` or `defn-` form inside a `defn`.
pub open spec fn no_def_in_def_hits(t: SyntaxTree, i: int) -> Seq<HitView> {
    let h = head_symbol(t, i);
    let name = h.unwrap();
    let outer = match t.parent(i) {
        Some(p) => if p < i {
            enclosing_defn(t, p as int)
        } else {
            None
        },
        None => None,
    };
    hit_if(
        h is Some && (name == "def"@ || is_defn_name(name)) && outer is Some,
        t,
        i,
        "no-def-in-def"@,
        "Avoid `"@ + name + "` inside `"@ + outer.unwrap()
            + "`; use `let` or `letfn` for local bindings"@,
    )
}

pub fn no_def_in_def_at(t: &SyntaxTree, i: usize, ctx: &mut Ctx)
    requires
        t.wf(),
        i < t.len(),
        old(ctx).wf(),
    ensures
        final(ctx).grew(*old(ctx), no_def_in_def_hits(*t, i as int)),
{
    if let Some(name) = head_symbol_exec(t, i) {
        if !(str_eq(name, "def") || str_eq(name, "defn") || str_eq(name, "defn-")) {
            return;
        }
        if let Some(p) = t.node_parent(i) {
            assert(t.nodes@[i as int].parent == Some(p));
            if let Some(outer) = enclosing_defn_exec(t, p) {
                let mut msg = cat3("Avoid `", name, "` inside `");
                msg.append(outer);
                msg.append("`; use `let` or `letfn` for local bindings");
                ctx.report(t, i, "no-def-in-def", msg);
            }
        }
    }
}

/// `no-thread-sleep`: `(Thread/sleep ...)`.
pub open spec fn no_thread_sleep_hits(t: SyntaxTree, i: int) -> Seq<HitView> {
    hit_if(
        head_symbol(t, i) == Some("Thread/sleep"@),
        t,
        i,
        "no-thread-sleep"@,
        "Avoid `Thread/sleep`; use async scheduling or core.async timeouts"@,
    )
}

pub fn no_thread_sleep_at(t: &SyntaxTree, i: usize, ctx: &mut Ctx)
    requires
        t.wf(),
        i < t.len(),
        old(ctx).wf(),
    ensures
        final(ctx).grew(*old(ctx), no_thread_sleep_hits(*t, i as int)),
{
    if let Some(name) = head_symbol_exec(t, i) {
        if str_eq(name, "Thread/sleep") {
            ctx.report(
                t,
                i,
                "no-thread-sleep",
                "Avoid `Thread/sleep`; use async scheduling or core.async timeouts".to_owned(),
            );
        }
    }
}

/// `no-reflection`: a method-call form `(.method obj)`.
pub open spec fn no_reflection_hits(t: SyntaxTree, i: int) -> Seq<HitView> {
    let h = head_symbol(t, i);
    let name = h.unwrap();
    hit_if(
        h is Some && starts_with(name, "."@) && name.len() > 1 && name != ".."@,
        t,
        i,
        "no-reflection"@,
        "Java reflection call `"@ + name + "` detected; prefer protocol/type-hinted access"@,
    )
}

pub fn no_reflection_at(t: &SyntaxTree, i: usize, ctx: &mut Ctx)
    requires
        t.wf(),
        i < t.len(),
        old(ctx).wf(),
    ensures
        final(ctx).grew(*old(ctx), no_reflection_hits(*t, i as int)),
{
    if let Some(name) = head_symbol_exec(t, i) {
        proof {
            reveal_strlit(".");
        }
        if str_starts_with(name, ".") && name.unicode_len() > 1 && !str_eq(name, "..") {
            let msg = cat3(
                "Java reflection call `",
                name,
                "` detected; prefer protocol/type-hinted access",
            );
            ctx.report(t, i, "no-reflection", msg);
        }
    }
}

} // verus!
