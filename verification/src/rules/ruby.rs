//! Rules for Ruby and Crystal.
use vstd::prelude::*;
use crate::lint::{Ctx, HitView, hit_if};
use crate::rules::common::{cat3, opt_text_is, text_of_is};
use crate::syntax::SyntaxTree;
use crate::text::{contains, str_contains, str_eq};

verus! {

/// The name a Ruby call or bare identifier invokes: the `method` of a
/// `call`, the text of an `identifier`.
pub open spec fn invoked_name(t: SyntaxTree, i: int) -> Option<Seq<char>> {
    if t.kind(i) == "call"@ {
        match t.child_by_field(i, "method"@) {
            Some(m) => Some(t.text(m as int)),
            None => None,
        }
    } else if t.kind(i) == "identifier"@ {
        Some(t.text(i))
    } else {
        None
    }
}

fn invoked_name_exec<'a>(t: &'a SyntaxTree, i: usize) -> (r: Option<&'a str>)
    requires
        t.wf(),
        i < t.len(),
    ensures
        match r {
            Some(s) => invoked_name(*t, i as int) == Some(s@),
            None => invoked_name(*t, i as int) is None,
        },
{
    if t.kind_is(i, "call") {
        match t.field_child(i, "method") {
            Some(m) => Some(t.node_text(m)),
            None => None,
        }
    } else if t.kind_is(i, "identifier") {
        Some(t.node_text(i))
    } else {
        None
    }
}

/// Whether `i` is a call with an explicit receiver (`obj.m`).
pub open spec fn has_receiver(t: SyntaxTree, i: int) -> bool {
    t.kind(i) == "call"@ && t.child_by_field(i, "receiver"@) is Some
}

pub open spec fn is_puts_word(n: Seq<char>) -> bool {
    n == "puts"@ || n == "p"@ || n == "pp"@ || n == "print"@
}

fn is_puts_word_exec(n: &str) -> (r: bool)
    ensures
        r == is_puts_word(n@),
{
    str_eq(n, "puts") || str_eq(n, "p") || str_eq(n, "pp") || str_eq(n, "print")
}

/// `no-puts` (Ruby): `puts`, `p`, `pp` or `print` called without a receiver.
pub open spec fn no_puts_hits(t: SyntaxTree, i: int) -> Seq<HitView> {
    let n = invoked_name(t, i);
    hit_if(
        n is Some && is_puts_word(n.unwrap()) && !has_receiver(t, i),
        t,
        i,
        "no-puts"@,
        "Avoid `"@ + n.unwrap() + "`, use a logger"@,
    )
}

pub fn no_puts_at(t: &SyntaxTree, i: usize, ctx: &mut Ctx)
    requires
        t.wf(),
        i < t.len(),
        old(ctx).wf(),
    ensures
        final(ctx).grew(*old(ctx), no_puts_hits(*t, i as int)),
{
    if let Some(n) = invoked_name_exec(t, i) {
        if is_puts_word_exec(n) && !(t.kind_is(i, "call") && t.field_child(i, "receiver").is_some()) {
            ctx.report(t, i, "no-puts", cat3("Avoid `", n, "`, use a logger"));
        }
    }
}

/// `no-eval` (Ruby): `eval` called without a receiver.
pub open spec fn no_eval_hits(t: SyntaxTree, i: int) -> Seq<HitView> {
    hit_if(
        t.kind(i) == "call"@ && text_of_is(t, t.child_by_field(i, "method"@), "eval"@)
            && t.child_by_field(i, "receiver"@) is None,
        t,
        i,
        "no-eval"@,
        "`eval` is a security risk; avoid dynamic code execution"@,
    )
}

pub fn no_eval_at(t: &SyntaxTree, i: usize, ctx: &mut Ctx)
    requires
        t.wf(),
        i < t.len(),
        old(ctx).wf(),
    ensures
        final(ctx).grew(*old(ctx), no_eval_hits(*t, i as int)),
{
    if t.kind_is(i, "call") && opt_text_is(t, t.field_child(i, "method"), "eval") && t.field_child(
        i,
        "receiver",
    ).is_none() {
        ctx.report(t, i, "no-eval", "`eval` is a security risk; avoid dynamic code execution".to_owned());
    }
}

/// Whether a string literal names a relative path.
pub open spec fn is_relative_string(t: SyntaxTree, c: int) -> bool {
    t.kind(c) == "string"@ && (contains(t.text(c), "./"@) || contains(t.text(c), "../"@))
}

/// One `require-relative` finding at `i` per relative-path string among `cs`.
pub open spec fn relative_strings(t: SyntaxTree, i: int, cs: Seq<usize>) -> Seq<HitView>
    decreases cs.len(),
{
    if cs.len() == 0 {
        seq![]
    } else {
        relative_strings(t, i, cs.drop_last()) + hit_if(
            is_relative_string(t, cs.last() as int),
            t,
            i,
            "require-relative"@,
            "Use `require_relative` instead of `require` with relative path"@,
        )
    }
}

/// `require-relative`: `require` given a relative path, once per such
/// argument.
pub open spec fn require_relative_hits(t: SyntaxTree, i: int) -> Seq<HitView> {
    let args = t.child_by_field(i, "arguments"@);
    if t.kind(i) == "call"@ && text_of_is(t, t.child_by_field(i, "method"@), "require"@) && args is Some {
        relative_strings(t, i, t.children(args.unwrap() as int))
    } else {
        seq![]
    }
}

pub fn require_relative_at(t: &SyntaxTree, i: usize, ctx: &mut Ctx)
    requires
        t.wf(),
        i < t.len(),
        old(ctx).wf(),
    ensures
        final(ctx).grew(*old(ctx), require_relative_hits(*t, i as int)),
{
    if !(t.kind_is(i, "call") && opt_text_is(t, t.field_child(i, "method"), "require")) {
        return;
    }
    let a = match t.field_child(i, "arguments") {
        Some(a) => a,
        None => {
            return;
        },
    };
    let ghost start = *ctx;
    let cs = &t.nodes[a].children;
    let mut k: usize = 0;
    while k < cs.len()
        invariant
            t.wf(),
            i < t.len(),
            a < t.len(),
            cs@ == t.children(a as int),
            k <= cs@.len(),
            ctx.grew(start, relative_strings(*t, i as int, cs@.take(k as int))),
        decreases cs@.len() - k,
    {
        let c = cs[k];
        assert(a < c < t.len()) by {
            assert(t.nodes@[a as int].children@[k as int] == c);
        }
        assert(cs@.take(k + 1).drop_last() =~= cs@.take(k as int));
        assert(cs@.take(k + 1).last() == c);
        if t.kind_is(c, "string") && (str_contains(t.node_text(c), "./") || str_contains(
            t.node_text(c),
            "../",
        )) {
            ctx.report(
                t,
                i,
                "require-relative",
                "Use `require_relative` instead of `require` with relative path".to_owned(),
            );
        }
        k = k + 1;
    }
    assert(cs@.take(k as int) =~= cs@);
}

/// `no-rescue-exception` (Ruby): a `rescue` whose exception list mentions
/// `Exception`.
pub open spec fn no_rescue_exception_hits(t: SyntaxTree, i: int) -> Seq<HitView> {
    let ex = t.child_by_field(i, "exceptions"@);
    hit_if(
        t.kind(i) == "rescue"@ && ex is Some && contains(t.text(ex.unwrap() as int), "Exception"@),
        t,
        i,
        "no-rescue-exception"@,
        "Avoid `rescue Exception`; use `rescue StandardError` instead"@,
    )
}

pub fn no_rescue_exception_at(t: &SyntaxTree, i: usize, ctx: &mut Ctx)
    requires
        t.wf(),
        i < t.len(),
        old(ctx).wf(),
    ensures
        final(ctx).grew(*old(ctx), no_rescue_exception_hits(*t, i as int)),
{
    if t.kind_is(i, "rescue") {
        if let Some(ex) = t.field_child(i, "exceptions") {
            if str_contains(t.node_text(ex), "Exception") {
                ctx.report(
                    t,
                    i,
                    "no-rescue-exception",
                    "Avoid `rescue Exception`; use `rescue StandardError` instead".to_owned(),
                );
            }
        }
    }
}

/// `no-sleep` (Ruby): `sleep`, called or named; test files are skipped.
pub open spec fn no_sleep_hits(t: SyntaxTree, i: int) -> Seq<HitView> {
    hit_if(
        invoked_name(t, i) == Some("sleep"@),
        t,
        i,
        "no-sleep"@,
        "Avoid `sleep` in production code"@,
    )
}

pub fn no_sleep_at(t: &SyntaxTree, i: usize, ctx: &mut Ctx)
    requires
        t.wf(),
        i < t.len(),
        old(ctx).wf(),
    ensures
        final(ctx).grew(*old(ctx), no_sleep_hits(*t, i as int)),
{
    if let Some(n) = invoked_name_exec(t, i) {
        if str_eq(n, "sleep") {
            ctx.report(t, i, "no-sleep", "Avoid `sleep` in production code".to_owned());
        }
    }
}

/// The `method` of a Crystal call without a receiver.
pub open spec fn bare_method(t: SyntaxTree, i: int) -> Option<Seq<char>> {
    if t.kind(i) == "call"@ && t.child_by_field(i, "receiver"@) is None {
        match t.child_by_field(i, "method"@) {
            Some(m) => Some(t.text(m as int)),
            None => None,
        }
    } else {
        None
    }
}

fn bare_method_exec<'a>(t: &'a SyntaxTree, i: usize) -> (r: Option<&'a str>)
    requires
        t.wf(),
        i < t.len(),
    ensures
        match r {
            Some(s) => bare_method(*t, i as int) == Some(s@),
            None => bare_method(*t, i as int) is None,
        },
{
    if t.kind_is(i, "call") && t.field_child(i, "receiver").is_none() {
        match t.field_child(i, "method") {
            Some(m) => Some(t.node_text(m)),
            None => None,
        }
    } else {
        None
    }
}

/// `no-puts` (Crystal): `puts`, `p`, `pp` or `print` called without a
/// receiver.
pub open spec fn crystal_no_puts_hits(t: SyntaxTree, i: int) -> Seq<HitView> {
    let n = bare_method(t, i);
    hit_if(
        n is Some && is_puts_word(n.unwrap()),
        t,
        i,
        "no-puts"@,
        "Avoid `"@ + n.unwrap() + "`; use a logger"@,
    )
}

pub fn crystal_no_puts_at(t: &SyntaxTree, i: usize, ctx: &mut Ctx)
    requires
        t.wf(),
        i < t.len(),
        old(ctx).wf(),
    ensures
        final(ctx).grew(*old(ctx), crystal_no_puts_hits(*t, i as int)),
{
    if let Some(n) = bare_method_exec(t, i) {
        if is_puts_word_exec(n) {
            ctx.report(t, i, "no-puts", cat3("Avoid `", n, "`; use a logger"));
        }
    }
}

/// Whether one of `cs` is a string literal.
pub open spec fn any_string(t: SyntaxTree, cs: Seq<usize>) -> bool {
    exists|k: int| 0 <= k < cs.len() && t.kind(#[trigger] cs[k] as int) == "string"@
}

/// `no-raise-string`: `raise` given a string literal.
pub open spec fn no_raise_string_hits(t: SyntaxTree, i: int) -> Seq<HitView> {
    let args = t.child_by_field(i, "arguments"@);
    hit_if(
        t.kind(i) == "call"@ && text_of_is(t, t.child_by_field(i, "method"@), "raise"@) && args is Some
            && any_string(t, t.children(args.unwrap() as int)),
        t,
        i,
        "no-raise-string"@,
        "Avoid `raise \"message\"`; use a specific exception class"@,
    )
}

pub fn no_raise_string_at(t: &SyntaxTree, i: usize, ctx: &mut Ctx)
    requires
        t.wf(),
        i < t.len(),
        old(ctx).wf(),
    ensures
        final(ctx).grew(*old(ctx), no_raise_string_hits(*t, i as int)),
{
    if !(t.kind_is(i, "call") && opt_text_is(t, t.field_child(i, "method"), "raise")) {
        return;
    }
    let a = match t.field_child(i, "arguments") {
        Some(a) => a,
        None => {
            return;
        },
    };
    let ghost start = *ctx;
    let cs = &t.nodes[a].children;
    let mut k: usize = 0;
    while k < cs.len()
        invariant
            t.wf(),
            i < t.len(),
            a < t.len(),
            *ctx == start,
            start == *old(ctx),
            start.wf(),
            t.kind(i as int) == "call"@,
            text_of_is(*t, t.child_by_field(i as int, "method"@), "raise"@),
            t.child_by_field(i as int, "arguments"@) == Some(a),
            cs@ == t.children(a as int),
            k <= cs@.len(),
            forall|q: int| 0 <= q < k ==> t.kind(#[trigger] cs@[q] as int) != "string"@,
        decreases cs@.len() - k,
    {
        let c = cs[k];
        assert(a < c < t.len()) by {
            assert(t.nodes@[a as int].children@[k as int] == c);
        }
        if t.kind_is(c, "string") {
            assert(any_string(*t, t.children(a as int))) by {
                assert(t.kind(cs@[k as int] as int) == "string"@);
            }
            ctx.report(
                t,
                i,
                "no-raise-string",
                "Avoid `raise \"message\"`; use a specific exception class".to_owned(),
            );
            return;
        }
        k = k + 1;
    }
    assert(ctx.found() =~= start.found() + Seq::<HitView>::empty());
}

/// `no-rescue-exception` (Crystal): a `rescue` whose text mentions
/// `Exception`.
pub open spec fn crystal_no_rescue_exception_hits(t: SyntaxTree, i: int) -> Seq<HitView> {
    hit_if(
        t.kind(i) == "rescue"@ && contains(t.text(i), "Exception"@),
        t,
        i,
        "no-rescue-exception"@,
        "Avoid `rescue Exception`; rescue specific error types"@,
    )
}

pub fn crystal_no_rescue_exception_at(t: &SyntaxTree, i: usize, ctx: &mut Ctx)
    requires
        t.wf(),
        i < t.len(),
        old(ctx).wf(),
    ensures
        final(ctx).grew(*old(ctx), crystal_no_rescue_exception_hits(*t, i as int)),
{
    if t.kind_is(i, "rescue") && str_contains(t.node_text(i), "Exception") {
        ctx.report(
            t,
            i,
            "no-rescue-exception",
            "Avoid `rescue Exception`; rescue specific error types".to_owned(),
        );
    }
}

/// `no-shell`: `system` or `exec` called without a receiver.
pub open spec fn no_shell_hits(t: SyntaxTree, i: int) -> Seq<HitView> {
    let n = bare_method(t, i);
    hit_if(
        n is Some && (n.unwrap() == "system"@ || n.unwrap() == "exec"@),
        t,
        i,
        "no-shell"@,
        "Avoid `"@ + n.unwrap() + "`; shell commands are a security risk"@,
    )
}

pub fn no_shell_at(t: &SyntaxTree, i: usize, ctx: &mut Ctx)
    requires
        t.wf(),
        i < t.len(),
        old(ctx).wf(),
    ensures
        final(ctx).grew(*old(ctx), no_shell_hits(*t, i as int)),
{
    if let Some(n) = bare_method_exec(t, i) {
        if str_eq(n, "system") || str_eq(n, "exec") {
            ctx.report(t, i, "no-shell", cat3("Avoid `", n, "`; shell commands are a security risk"));
        }
    }
}

/// `no-sleep` (Crystal): a call of `sleep`; spec and test files are skipped.
pub open spec fn crystal_no_sleep_hits(t: SyntaxTree, i: int) -> Seq<HitView> {
    hit_if(
        t.kind(i) == "call"@ && text_of_is(t, t.child_by_field(i, "method"@), "sleep"@),
        t,
        i,
        "no-sleep"@,
        "Avoid `sleep` in production code"@,
    )
}

pub fn crystal_no_sleep_at(t: &SyntaxTree, i: usize, ctx: &mut Ctx)
    requires
        t.wf(),
        i < t.len(),
        old(ctx).wf(),
    ensures
        final(ctx).grew(*old(ctx), crystal_no_sleep_hits(*t, i as int)),
{
    if t.kind_is(i, "call") && opt_text_is(t, t.field_child(i, "method"), "sleep") {
        ctx.report(t, i, "no-sleep", "Avoid `sleep` in production code".to_owned());
    }
}

} // verus!
