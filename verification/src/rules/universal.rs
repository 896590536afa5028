//! Rules that apply to every language.
use vstd::prelude::*;
use crate::classify::{is_function_node, is_function_node_spec};
use crate::lint::{Ctx, HitView, hit_if};
use crate::names::{
    is_clojure_defn, is_clojure_defn_spec, is_elixir_def_call, is_elixir_def_call_spec,
    is_erlang_fun_decl, is_erlang_fun_decl_spec,
};
use crate::rules::common::{Noise, kids_except, kids_except_exec};
use crate::syntax::SyntaxTree;
use crate::text::{contains, str_contains, str_eq};

verus! {

pub open spec fn is_comment_kind(k: Seq<char>) -> bool {
    k == "comment"@ || k == "line_comment"@ || k == "block_comment"@ || k == "hash_comment"@
}

/// The first marker among `TODO`, `FIXME`, `HACK` and `XXX` that a text holds.
pub open spec fn todo_marker(s: Seq<char>) -> Option<Seq<char>> {
    if contains(s, "TODO"@) {
        Some("TODO"@)
    } else if contains(s, "FIXME"@) {
        Some("FIXME"@)
    } else if contains(s, "HACK"@) {
        Some("HACK"@)
    } else if contains(s, "XXX"@) {
        Some("XXX"@)
    } else {
        None
    }
}

/// `todo-comment`: a comment holding a TODO-style marker.
pub open spec fn todo_comment_hits(t: SyntaxTree, i: int) -> Seq<HitView> {
    let m = todo_marker(t.text(i));
    hit_if(
        is_comment_kind(t.kind(i)) && m is Some,
        t,
        i,
        "todo-comment"@,
        m.unwrap() + " comment found"@,
    )
}

pub fn todo_comment_at(t: &SyntaxTree, i: usize, ctx: &mut Ctx)
    requires
        t.wf(),
        i < t.len(),
        old(ctx).wf(),
    ensures
        final(ctx).grew(*old(ctx), todo_comment_hits(*t, i as int)),
{
    let k = t.node_kind(i);
    if !(str_eq(k, "comment") || str_eq(k, "line_comment") || str_eq(k, "block_comment") || str_eq(
        k,
        "hash_comment",
    )) {
        return;
    }
    let s = t.node_text(i);
    let m = if str_contains(s, "TODO") {
        Some("TODO")
    } else if str_contains(s, "FIXME") {
        Some("FIXME")
    } else if str_contains(s, "HACK") {
        Some("HACK")
    } else if str_contains(s, "XXX") {
        Some("XXX")
    } else {
        None
    };
    if let Some(marker) = m {
        let mut msg = marker.to_owned();
        msg.append(" comment found");
        ctx.report(t, i, "todo-comment", msg);
    }
}

/// Kinds of nodes that hold a function's statements.
pub open spec fn is_block_kind(k: Seq<char>) -> bool {
    k == "block"@ || k == "statement_block"@ || k == "compound_statement"@ || k == "class_body"@ || k
        == "body"@ || k == "do_block"@ || k == "function_body"@ || k == "code_block"@ || k == "chunk"@
        || k == "keyword_list"@
}

/// Kinds a function's body child may have when it has no `body` field.
pub open spec fn is_body_child_kind(k: Seq<char>) -> bool {
    k == "block"@ || k == "statement_block"@ || k == "compound_statement"@ || k == "do_block"@ || k
        == "code_block"@ || k == "function_body"@ || k == "chunk"@
}

/// A block with no statements in it.
pub open spec fn is_empty_block(t: SyntaxTree, b: int) -> bool {
    is_block_kind(t.kind(b)) && kids_except(t, b, Noise::Tokens).len() == 0
}

fn is_empty_block_exec(t: &SyntaxTree, b: usize) -> (r: bool)
    requires
        t.wf(),
        b < t.len(),
    ensures
        r == is_empty_block(*t, b as int),
{
    let k = t.node_kind(b);
    let block = str_eq(k, "block") || str_eq(k, "statement_block") || str_eq(k, "compound_statement")
        || str_eq(k, "class_body") || str_eq(k, "body") || str_eq(k, "do_block") || str_eq(
        k,
        "function_body",
    ) || str_eq(k, "code_block") || str_eq(k, "chunk") || str_eq(k, "keyword_list");
    block && kids_except_exec(t, b, Noise::Tokens).len() == 0
}

/// The first of `cs` that can hold a function's statements.
pub open spec fn first_body_child(t: SyntaxTree, cs: Seq<usize>) -> Option<usize>
    decreases cs.len(),
{
    if cs.len() == 0 {
        None
    } else if is_body_child_kind(t.kind(cs[0] as int)) {
        Some(cs[0])
    } else {
        first_body_child(t, cs.drop_first())
    }
}

fn first_body_child_exec(t: &SyntaxTree, i: usize) -> (r: Option<usize>)
    requires
        t.wf(),
        i < t.len(),
    ensures
        r == first_body_child(*t, t.children(i as int)),
        r matches Some(c) ==> c < t.len(),
{
    let cs = &t.nodes[i].children;
    let mut k: usize = 0;
    assert(cs@.skip(0) =~= cs@);
    while k < cs.len()
        invariant
            t.wf(),
            i < t.len(),
            cs@ == t.children(i as int),
            k <= cs@.len(),
            first_body_child(*t, cs@) == first_body_child(*t, cs@.skip(k as int)),
        decreases cs@.len() - k,
    {
        let c = cs[k];
        assert(i < c < t.len()) by {
            assert(t.nodes@[i as int].children@[k as int] == c);
        }
        assert(cs@.skip(k as int).drop_first() =~= cs@.skip(k + 1));
        assert(cs@.skip(k as int)[0] == c);
        let kind = t.node_kind(c);
        if str_eq(kind, "block") || str_eq(kind, "statement_block") || str_eq(kind, "compound_statement")
            || str_eq(kind, "do_block") || str_eq(kind, "code_block") || str_eq(kind, "function_body")
            || str_eq(kind, "chunk") {
            return Some(c);
        }
        k = k + 1;
    }
    None
}

/// Whether a function has no statements: its `body` field, else its first
/// block-like child, is empty; a function with neither is empty when all of
/// its children belong to its head.
pub open spec fn has_empty_body(t: SyntaxTree, i: int) -> bool {
    match t.child_by_field(i, "body"@) {
        Some(b) => is_empty_block(t, b as int),
        None => match first_body_child(t, t.children(i)) {
            Some(c) => is_empty_block(t, c as int),
            None => kids_except(t, i, Noise::FunctionHead).len() == 0,
        },
    }
}

fn has_empty_body_exec(t: &SyntaxTree, i: usize) -> (r: bool)
    requires
        t.wf(),
        i < t.len(),
    ensures
        r == has_empty_body(*t, i as int),
{
    match t.field_child(i, "body") {
        Some(b) => is_empty_block_exec(t, b),
        None => match first_body_child_exec(t, i) {
            Some(c) => is_empty_block_exec(t, c),
            None => kids_except_exec(t, i, Noise::FunctionHead).len() == 0,
        },
    }
}

/// A function in any language: a function node, an Elixir `def`, a Clojure
/// `defn` or an Erlang function declaration.
pub open spec fn is_any_function(t: SyntaxTree, i: int) -> bool {
    is_function_node_spec(t, i) || is_elixir_def_call_spec(t, i) || is_clojure_defn_spec(t, i)
        || is_erlang_fun_decl_spec(t, i)
}

/// `no-empty-function`: a function of any language with no statements.
pub open spec fn empty_function_hits(t: SyntaxTree, i: int) -> Seq<HitView> {
    hit_if(
        is_any_function(t, i) && has_empty_body(t, i),
        t,
        i,
        "no-empty-function"@,
        "Unexpected empty function"@,
    )
}

pub fn empty_function_at(t: &SyntaxTree, i: usize, ctx: &mut Ctx)
    requires
        t.wf(),
        i < t.len(),
        old(ctx).wf(),
    ensures
        final(ctx).grew(*old(ctx), empty_function_hits(*t, i as int)),
{
    let func = is_function_node(t, i) || is_elixir_def_call(t, i) || is_clojure_defn(t, i)
        || is_erlang_fun_decl(t, i);
    if func && has_empty_body_exec(t, i) {
        ctx.report(t, i, "no-empty-function", "Unexpected empty function".to_owned());
    }
}

} // verus!
