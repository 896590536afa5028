//! Rules for Lean 4: proofs left unfinished and declarations that widen
//! what the kernel takes on trust.
use vstd::prelude::*;
use crate::lint::{Ctx, HitView, hit_if};
use crate::rules::common::{cat3, field_text, field_text_exec, is_ws, is_ws_exec, trim_ws, trim_ws_exec};
use crate::syntax::SyntaxTree;
use crate::text::{chars_occur_at, chars_of, occurs_at, str_eq};

verus! {

/// Whether `w` occurs in `s` at position `i` as a whole white-space
/// separated word.
pub open spec fn word_at(s: Seq<char>, w: Seq<char>, i: int) -> bool {
    &&& occurs_at(s, w, i)
    &&& (i == 0 || is_ws(s[i - 1]))
    &&& (i + w.len() == s.len() || is_ws(s[i + w.len()]))
}

/// Whether `w` is one of the white-space separated words of `s`.
pub open spec fn has_word(s: Seq<char>, w: Seq<char>) -> bool {
    exists|i: int| word_at(s, w, i)
}

fn word_at_exec(s: &Vec<char>, w: &Vec<char>, i: usize) -> (r: bool)
    ensures
        r == word_at(s@, w@, i as int),
{
    if !chars_occur_at(s, w, i) {
        return false;
    }
    let sl = s.len();
    assert(i + w@.len() <= sl);
    let end = i + w.len();
    let before = i == 0 || is_ws_exec(s[i - 1]);
    let after = end == sl || is_ws_exec(s[end]);
    before && after
}

/// Whether `w` is one of the white-space separated words of `s`.
pub fn str_has_word(s: &str, w: &str) -> (r: bool)
    ensures
        r == has_word(s@, w@),
{
    let v = chars_of(s);
    let p = chars_of(w);
    let n = v.len();
    let mut i: usize = 0;
    while i < n
        invariant
            v@ == s@,
            p@ == w@,
            n == v@.len(),
            i <= n,
            forall|j: int| 0 <= j < i ==> !word_at(s@, w@, j),
        decreases n - i,
    {
        if word_at_exec(&v, &p, i) {
            return true;
        }
        i = i + 1;
    }
    if word_at_exec(&v, &p, n) {
        return true;
    }
    assert forall|j: int| !word_at(s@, w@, j) by {
        if j > n {
            assert(!occurs_at(s@, w@, j));
        }
    }
    false
}

/// `no-sorry`: the `sorry` term.
pub open spec fn no_sorry_hits(t: SyntaxTree, i: int) -> Seq<HitView> {
    hit_if(
        t.kind(i) == "sorry"@ && t.is_named(i),
        t,
        i,
        "no-sorry"@,
        "`sorry` leaves this declaration unproved"@,
    )
}

pub fn no_sorry_at(t: &SyntaxTree, i: usize, ctx: &mut Ctx)
    requires
        t.wf(),
        i < t.len(),
        old(ctx).wf(),
    ensures
        final(ctx).grew(*old(ctx), no_sorry_hits(*t, i as int)),
{
    if t.kind_is(i, "sorry") && t.node_named(i) {
        ctx.report(t, i, "no-sorry", "`sorry` leaves this declaration unproved".to_owned());
    }
}

/// `no-axiom`: an `axiom` declaration.
pub open spec fn no_axiom_hits(t: SyntaxTree, i: int) -> Seq<HitView> {
    hit_if(
        t.kind(i) == "axiom"@ && t.is_named(i),
        t,
        i,
        "no-axiom"@,
        "`axiom` adds an unproved assumption; prove it as a `theorem` instead"@,
    )
}

pub fn no_axiom_at(t: &SyntaxTree, i: usize, ctx: &mut Ctx)
    requires
        t.wf(),
        i < t.len(),
        old(ctx).wf(),
    ensures
        final(ctx).grew(*old(ctx), no_axiom_hits(*t, i as int)),
{
    if t.kind_is(i, "axiom") && t.node_named(i) {
        ctx.report(
            t,
            i,
            "no-axiom",
            "`axiom` adds an unproved assumption; prove it as a `theorem` instead".to_owned(),
        );
    }
}

/// `no-native-decide`: the `native_decide` tactic.
pub open spec fn no_native_decide_hits(t: SyntaxTree, i: int) -> Seq<HitView> {
    hit_if(
        t.kind(i) == "identifier"@ && t.text(i) == "native_decide"@,
        t,
        i,
        "no-native-decide"@,
        "`native_decide` trusts the compiler; prefer `decide` or an explicit proof"@,
    )
}

pub fn no_native_decide_at(t: &SyntaxTree, i: usize, ctx: &mut Ctx)
    requires
        t.wf(),
        i < t.len(),
        old(ctx).wf(),
    ensures
        final(ctx).grew(*old(ctx), no_native_decide_hits(*t, i as int)),
{
    if t.kind_is(i, "identifier") && t.text_is(i, "native_decide") {
        ctx.report(
            t,
            i,
            "no-native-decide",
            "`native_decide` trusts the compiler; prefer `decide` or an explicit proof".to_owned(),
        );
    }
}

/// Whether node `i` is a run of declaration modifiers including `m`.
pub open spec fn has_modifier(t: SyntaxTree, i: int, m: Seq<char>) -> bool {
    t.kind(i) == "decl_modifiers"@ && has_word(t.text(i), m)
}

fn has_modifier_exec(t: &SyntaxTree, i: usize, m: &str) -> (r: bool)
    requires
        i < t.len(),
    ensures
        r == has_modifier(*t, i as int, m@),
{
    t.kind_is(i, "decl_modifiers") && str_has_word(t.node_text(i), m)
}

/// `no-partial-def`: the `partial` modifier.
pub open spec fn no_partial_def_hits(t: SyntaxTree, i: int) -> Seq<HitView> {
    hit_if(
        has_modifier(t, i, "partial"@),
        t,
        i,
        "no-partial-def"@,
        "`partial` skips the termination checker; add a `termination_by` clause if you can"@,
    )
}

pub fn no_partial_def_at(t: &SyntaxTree, i: usize, ctx: &mut Ctx)
    requires
        t.wf(),
        i < t.len(),
        old(ctx).wf(),
    ensures
        final(ctx).grew(*old(ctx), no_partial_def_hits(*t, i as int)),
{
    if has_modifier_exec(t, i, "partial") {
        ctx.report(
            t,
            i,
            "no-partial-def",
            "`partial` skips the termination checker; add a `termination_by` clause if you can".to_owned(),
        );
    }
}

/// `no-unsafe` (Lean): the `unsafe` modifier.
pub open spec fn no_unsafe_hits(t: SyntaxTree, i: int) -> Seq<HitView> {
    hit_if(
        has_modifier(t, i, "unsafe"@),
        t,
        i,
        "no-unsafe"@,
        "`unsafe` bypasses Lean's soundness guarantees"@,
    )
}

pub fn no_unsafe_at(t: &SyntaxTree, i: usize, ctx: &mut Ctx)
    requires
        t.wf(),
        i < t.len(),
        old(ctx).wf(),
    ensures
        final(ctx).grew(*old(ctx), no_unsafe_hits(*t, i as int)),
{
    if has_modifier_exec(t, i, "unsafe") {
        ctx.report(t, i, "no-unsafe", "`unsafe` bypasses Lean's soundness guarantees".to_owned());
    }
}

/// `no-dbg-trace`: the `dbg_trace` identifier.
pub open spec fn no_dbg_trace_hits(t: SyntaxTree, i: int) -> Seq<HitView> {
    hit_if(
        t.kind(i) == "identifier"@ && t.text(i) == "dbg_trace"@,
        t,
        i,
        "no-dbg-trace"@,
        "`dbg_trace` is debug output; remove it before committing"@,
    )
}

pub fn no_dbg_trace_at(t: &SyntaxTree, i: usize, ctx: &mut Ctx)
    requires
        t.wf(),
        i < t.len(),
        old(ctx).wf(),
    ensures
        final(ctx).grew(*old(ctx), no_dbg_trace_hits(*t, i as int)),
{
    if t.kind_is(i, "identifier") && t.text_is(i, "dbg_trace") {
        ctx.report(t, i, "no-dbg-trace", "`dbg_trace` is debug output; remove it before committing".to_owned());
    }
}

/// The command a node of kind `k` is: `#eval`, `#check`, `#print` or
/// `#reduce`.
pub open spec fn debug_command(k: Seq<char>) -> Option<Seq<char>> {
    if k == "eval"@ {
        Some("#eval"@)
    } else if k == "check"@ {
        Some("#check"@)
    } else if k == "print"@ {
        Some("#print"@)
    } else if k == "reduce"@ {
        Some("#reduce"@)
    } else {
        None
    }
}

fn debug_command_exec(k: &str) -> (r: Option<&'static str>)
    ensures
        match r {
            Some(c) => debug_command(k@) == Some(c@),
            None => debug_command(k@) is None,
        },
{
    if str_eq(k, "eval") {
        Some("#eval")
    } else if str_eq(k, "check") {
        Some("#check")
    } else if str_eq(k, "print") {
        Some("#print")
    } else if str_eq(k, "reduce") {
        Some("#reduce")
    } else {
        None
    }
}

/// `no-debug-command`: `#eval`, `#check`, `#print` or `#reduce`.
pub open spec fn no_debug_command_hits(t: SyntaxTree, i: int) -> Seq<HitView> {
    let c = debug_command(t.kind(i));
    hit_if(
        c is Some && t.is_named(i),
        t,
        i,
        "no-debug-command"@,
        "`"@ + c.unwrap() + "` is an interactive command; remove it before committing"@,
    )
}

pub fn no_debug_command_at(t: &SyntaxTree, i: usize, ctx: &mut Ctx)
    requires
        t.wf(),
        i < t.len(),
        old(ctx).wf(),
    ensures
        final(ctx).grew(*old(ctx), no_debug_command_hits(*t, i as int)),
{
    if let Some(c) = debug_command_exec(t.node_kind(i)) {
        if t.node_named(i) {
            ctx.report(
                t,
                i,
                "no-debug-command",
                cat3("`", c, "` is an interactive command; remove it before committing"),
            );
        }
    }
}

/// `no-unlimited-heartbeats`: `set_option maxHeartbeats 0`.
pub open spec fn no_unlimited_heartbeats_hits(t: SyntaxTree, i: int) -> Seq<HitView> {
    let v = field_text(t, i, "value"@);
    hit_if(
        t.kind(i) == "set_option"@ && field_text(t, i, "name"@) == Some("maxHeartbeats"@) && v is Some
            && trim_ws(v.unwrap()) == "0"@,
        t,
        i,
        "no-unlimited-heartbeats"@,
        "`set_option maxHeartbeats 0` removes the elaboration timeout; raise the limit instead"@,
    )
}

pub fn no_unlimited_heartbeats_at(t: &SyntaxTree, i: usize, ctx: &mut Ctx)
    requires
        t.wf(),
        i < t.len(),
        old(ctx).wf(),
    ensures
        final(ctx).grew(*old(ctx), no_unlimited_heartbeats_hits(*t, i as int)),
{
    if !t.kind_is(i, "set_option") {
        return;
    }
    match field_text_exec(t, i, "name") {
        Some(n) => {
            if !str_eq(n, "maxHeartbeats") {
                return;
            }
        },
        None => {
            return;
        },
    }
    if let Some(v) = field_text_exec(t, i, "value") {
        if str_eq(trim_ws_exec(v), "0") {
            ctx.report(
                t,
                i,
                "no-unlimited-heartbeats",
                "`set_option maxHeartbeats 0` removes the elaboration timeout; raise the limit instead".to_owned(),
            );
        }
    }
}

} // verus!
