//! Rules for Java.
use vstd::prelude::*;
use crate::lint::{Ctx, HitView, hit, hit_if, hits_each, report_each};
use crate::rules::common::{
    Enclosing, Noise, cat3, cat5, inside, inside_exec, kids_except, kids_except_exec, kind_of_is,
    op_text, opt_kind_is, opt_text_is, text_of_is,
};
use crate::syntax::SyntaxTree;
use crate::text::str_eq;

verus! {

/// `no-sysout`: a call on `System.out` or `System.err`.
pub open spec fn no_sysout_hits(t: SyntaxTree, i: int) -> Seq<HitView> {
    let o = t.child_by_field(i, "object"@);
    let ot = t.text(o.unwrap() as int);
    hit_if(
        t.kind(i) == "method_invocation"@ && o is Some && (ot == "System.out"@ || ot == "System.err"@),
        t,
        i,
        "no-sysout"@,
        "Avoid `"@ + ot + ".println()`, use a logging framework"@,
    )
}

pub fn no_sysout_at(t: &SyntaxTree, i: usize, ctx: &mut Ctx)
    requires
        t.wf(),
        i < t.len(),
        old(ctx).wf(),
    ensures
        final(ctx).grew(*old(ctx), no_sysout_hits(*t, i as int)),
{
    if !t.kind_is(i, "method_invocation") {
        return;
    }
    if let Some(o) = t.field_child(i, "object") {
        let ot = t.node_text(o);
        if str_eq(ot, "System.out") || str_eq(ot, "System.err") {
            ctx.report(t, i, "no-sysout", cat3("Avoid `", ot, ".println()`, use a logging framework"));
        }
    }
}

/// `no-print-stack-trace`: a call of `printStackTrace`.
pub open spec fn no_print_stack_trace_hits(t: SyntaxTree, i: int) -> Seq<HitView> {
    hit_if(
        t.kind(i) == "method_invocation"@ && text_of_is(t, t.child_by_field(i, "name"@), "printStackTrace"@),
        t,
        i,
        "no-print-stack-trace"@,
        "Avoid `printStackTrace()`, use a logging framework"@,
    )
}

pub fn no_print_stack_trace_at(t: &SyntaxTree, i: usize, ctx: &mut Ctx)
    requires
        t.wf(),
        i < t.len(),
        old(ctx).wf(),
    ensures
        final(ctx).grew(*old(ctx), no_print_stack_trace_hits(*t, i as int)),
{
    if t.kind_is(i, "method_invocation") && opt_text_is(t, t.field_child(i, "name"), "printStackTrace") {
        ctx.report(
            t,
            i,
            "no-print-stack-trace",
            "Avoid `printStackTrace()`, use a logging framework".to_owned(),
        );
    }
}

/// Whether the block in field `f` of `i` holds nothing but braces and comments.
pub open spec fn empty_block_in(t: SyntaxTree, i: int, f: Seq<char>, block_kind: Seq<char>) -> bool {
    let b = t.child_by_field(i, f);
    kind_of_is(t, b, block_kind) && kids_except(t, b.unwrap() as int, Noise::BracesComments).len() == 0
}

pub fn empty_block_in_exec(t: &SyntaxTree, i: usize, f: &str, block_kind: &str) -> (r: bool)
    requires
        t.wf(),
        i < t.len(),
    ensures
        r == empty_block_in(*t, i as int, f@, block_kind@),
{
    let b = t.field_child(i, f);
    opt_kind_is(t, b, block_kind) && kids_except_exec(t, b.unwrap(), Noise::BracesComments).len() == 0
}

/// `no-empty-catch`: a catch clause with an empty block.
pub open spec fn no_empty_catch_hits(t: SyntaxTree, i: int) -> Seq<HitView> {
    hit_if(
        t.kind(i) == "catch_clause"@ && empty_block_in(t, i, "body"@, "block"@),
        t,
        i,
        "no-empty-catch"@,
        "Empty catch block; at least log the exception"@,
    )
}

pub fn no_empty_catch_at(t: &SyntaxTree, i: usize, ctx: &mut Ctx)
    requires
        t.wf(),
        i < t.len(),
        old(ctx).wf(),
    ensures
        final(ctx).grew(*old(ctx), no_empty_catch_hits(*t, i as int)),
{
    if t.kind_is(i, "catch_clause") && empty_block_in_exec(t, i, "body", "block") {
        ctx.report(t, i, "no-empty-catch", "Empty catch block; at least log the exception".to_owned());
    }
}

/// The type identifiers `Exception` among `cs`.
pub open spec fn exception_types(t: SyntaxTree, cs: Seq<usize>) -> Seq<int>
    decreases cs.len(),
{
    if cs.len() == 0 {
        seq![]
    } else {
        let c = cs.last() as int;
        exception_types(t, cs.drop_last()) + if t.kind(c) == "type_identifier"@ && t.text(c)
            == "Exception"@ {
            seq![c]
        } else {
            seq![]
        }
    }
}

/// `no-throws-exception`: `throws Exception`, reported at the type.
pub open spec fn no_throws_exception_hits(t: SyntaxTree, i: int) -> Seq<HitView> {
    if t.kind(i) == "throws"@ {
        hits_each(
            t,
            exception_types(t, t.children(i)),
            "no-throws-exception"@,
            "Avoid `throws Exception`, declare specific exception types"@,
        )
    } else {
        seq![]
    }
}

pub fn no_throws_exception_at(t: &SyntaxTree, i: usize, ctx: &mut Ctx)
    requires
        t.wf(),
        i < t.len(),
        old(ctx).wf(),
    ensures
        final(ctx).grew(*old(ctx), no_throws_exception_hits(*t, i as int)),
{
    if !t.kind_is(i, "throws") {
        return;
    }
    let cs = &t.nodes[i].children;
    let mut found: Vec<usize> = Vec::new();
    let mut k: usize = 0;
    while k < cs.len()
        invariant
            t.wf(),
            i < t.len(),
            cs@ == t.children(i as int),
            k <= cs@.len(),
            found@.map_values(|c: usize| c as int) == exception_types(*t, cs@.take(k as int)),
            forall|q: int| 0 <= q < found@.len() ==> #[trigger] found@[q] < t.len(),
        decreases cs@.len() - k,
    {
        let c = cs[k];
        assert(i < c < t.len()) by {
            assert(t.nodes@[i as int].children@[k as int] == c);
        }
        assert(cs@.take(k + 1).drop_last() =~= cs@.take(k as int));
        assert(cs@.take(k + 1).last() == c);
        if t.kind_is(c, "type_identifier") && t.text_is(c, "Exception") {
            let ghost before = found@;
            found.push(c);
            assert(found@.map_values(|c: usize| c as int) =~= before.map_values(|c: usize| c as int)
                + seq![c as int]);
        }
        k = k + 1;
    }
    assert(cs@.take(k as int) =~= cs@);
    report_each(
        ctx,
        t,
        &found,
        "no-throws-exception",
        "Avoid `throws Exception`, declare specific exception types",
    );
}

/// Collection types that should be created with type arguments.
pub open spec fn is_raw_collection(s: Seq<char>) -> bool {
    s == "ArrayList"@ || s == "HashMap"@ || s == "HashSet"@ || s == "LinkedList"@ || s
        == "TreeMap"@ || s == "TreeSet"@ || s == "Vector"@
}

/// `no-raw-type`: `new ArrayList()` and the like, without type arguments.
pub open spec fn no_raw_type_hits(t: SyntaxTree, i: int) -> Seq<HitView> {
    let ty = t.child_by_field(i, "type"@);
    let tt = t.text(ty.unwrap() as int);
    hit_if(
        t.kind(i) == "object_creation_expression"@ && ty is Some && is_raw_collection(tt),
        t,
        i,
        "no-raw-type"@,
        "Use parameterized type instead of raw `"@ + tt + "`"@,
    )
}

pub fn no_raw_type_at(t: &SyntaxTree, i: usize, ctx: &mut Ctx)
    requires
        t.wf(),
        i < t.len(),
        old(ctx).wf(),
    ensures
        final(ctx).grew(*old(ctx), no_raw_type_hits(*t, i as int)),
{
    if !t.kind_is(i, "object_creation_expression") {
        return;
    }
    if let Some(ty) = t.field_child(i, "type") {
        let tt = t.node_text(ty);
        if str_eq(tt, "ArrayList") || str_eq(tt, "HashMap") || str_eq(tt, "HashSet") || str_eq(
            tt,
            "LinkedList",
        ) || str_eq(tt, "TreeMap") || str_eq(tt, "TreeSet") || str_eq(tt, "Vector") {
            ctx.report(t, i, "no-raw-type", cat3("Use parameterized type instead of raw `", tt, "`"));
        }
    }
}

/// `no-string-equality`: `==` or `!=` with a string literal on a side.
pub open spec fn no_string_equality_hits(t: SyntaxTree, i: int) -> Seq<HitView> {
    let o = op_text(t, i);
    let l = t.child_by_field(i, "left"@);
    let r = t.child_by_field(i, "right"@);
    let suggested = if o == "=="@ { ".equals()"@ } else { "!.equals()"@ };
    hit_if(
        t.kind(i) == "binary_expression"@ && t.child_by_field(i, "operator"@) is Some && (o == "=="@
            || o == "!="@) && l is Some && r is Some && (t.kind(l.unwrap() as int) == "string_literal"@
            || t.kind(r.unwrap() as int) == "string_literal"@),
        t,
        i,
        "no-string-equality"@,
        "Use `"@ + suggested + "` instead of `"@ + o + "` for string comparison"@,
    )
}

pub fn no_string_equality_at(t: &SyntaxTree, i: usize, ctx: &mut Ctx)
    requires
        t.wf(),
        i < t.len(),
        old(ctx).wf(),
    ensures
        final(ctx).grew(*old(ctx), no_string_equality_hits(*t, i as int)),
{
    if !t.kind_is(i, "binary_expression") {
        return;
    }
    if let Some(oc) = t.field_child(i, "operator") {
        let o = t.node_text(oc);
        let eq = str_eq(o, "==");
        if eq || str_eq(o, "!=") {
            if let (Some(l), Some(r)) = (t.field_child(i, "left"), t.field_child(i, "right")) {
                if t.kind_is(l, "string_literal") || t.kind_is(r, "string_literal") {
                    let suggested = if eq { ".equals()" } else { "!.equals()" };
                    let msg = cat5("Use `", suggested, "` instead of `", o, "` for string comparison");
                    ctx.report(t, i, "no-string-equality", msg);
                }
            }
        }
    }
}

/// A test on one child that some rules look for among the children.
#[derive(Debug, Clone, Copy, PartialEq, Eq, Structural)]
pub enum KidTest {
    /// A `switch_label` holding `default`.
    DefaultLabel,
    /// A `class_body` holding an initializer block.
    InitializerBody,
    /// A `null` argument.
    NullArgument,
}

pub open spec fn kid_passes(t: SyntaxTree, c: int, q: KidTest) -> bool {
    match q {
        KidTest::DefaultLabel => t.kind(c) == "switch_label"@ && t.child_by_kind(c, "default"@) is Some,
        KidTest::InitializerBody => t.kind(c) == "class_body"@ && (t.child_by_kind(c, "block"@) is Some
            || t.child_by_kind(c, "instance_initializer"@) is Some),
        KidTest::NullArgument => t.kind(c) == "null_literal"@ || (t.kind(c) == "identifier"@ && t.text(c)
            == "null"@),
    }
}

/// Whether one of `cs` passes test `q`.
pub open spec fn some_kid(t: SyntaxTree, cs: Seq<usize>, q: KidTest) -> bool
    decreases cs.len(),
{
    cs.len() > 0 && (kid_passes(t, cs[0] as int, q) || some_kid(t, cs.drop_first(), q))
}

fn some_kid_exec(t: &SyntaxTree, p: usize, q: KidTest) -> (r: bool)
    requires
        t.wf(),
        p < t.len(),
    ensures
        r == some_kid(*t, t.children(p as int), q),
{
    let cs = &t.nodes[p].children;
    let mut k: usize = 0;
    assert(cs@.skip(0) =~= cs@);
    while k < cs.len()
        invariant
            t.wf(),
            p < t.len(),
            cs@ == t.children(p as int),
            k <= cs@.len(),
            some_kid(*t, cs@, q) == some_kid(*t, cs@.skip(k as int), q),
        decreases cs@.len() - k,
    {
        let c = cs[k];
        assert(p < c < t.len()) by {
            assert(t.nodes@[p as int].children@[k as int] == c);
        }
        assert(cs@.skip(k as int).drop_first() =~= cs@.skip(k + 1));
        assert(cs@.skip(k as int)[0] == c);
        let passes = match q {
            KidTest::DefaultLabel => t.kind_is(c, "switch_label") && t.kind_child(c, "default").is_some(),
            KidTest::InitializerBody => t.kind_is(c, "class_body") && (t.kind_child(c, "block").is_some()
                || t.kind_child(c, "instance_initializer").is_some()),
            KidTest::NullArgument => t.kind_is(c, "null_literal") || (t.kind_is(c, "identifier")
                && t.text_is(c, "null")),
        };
        if passes {
            return true;
        }
        k = k + 1;
    }
    false
}

/// `missing-switch-default`: a switch whose body has no `default` label.
pub open spec fn missing_switch_default_hits(t: SyntaxTree, i: int) -> Seq<HitView> {
    let b = t.child_by_field(i, "body"@);
    hit_if(
        t.kind(i) == "switch_expression"@ && b is Some && !some_kid(
            t,
            t.children(b.unwrap() as int),
            KidTest::DefaultLabel,
        ),
        t,
        i,
        "missing-switch-default"@,
        "Switch should include a default case"@,
    )
}

pub fn missing_switch_default_at(t: &SyntaxTree, i: usize, ctx: &mut Ctx)
    requires
        t.wf(),
        i < t.len(),
        old(ctx).wf(),
    ensures
        final(ctx).grew(*old(ctx), missing_switch_default_hits(*t, i as int)),
{
    if !t.kind_is(i, "switch_expression") {
        return;
    }
    if let Some(b) = t.field_child(i, "body") {
        if !some_kid_exec(t, b, KidTest::DefaultLabel) {
            ctx.report(
                t,
                i,
                "missing-switch-default",
                "Switch should include a default case".to_owned(),
            );
        }
    }
}

/// `no-empty-if`: an `if` whose block is empty.
pub open spec fn no_empty_if_hits(t: SyntaxTree, i: int) -> Seq<HitView> {
    hit_if(
        t.kind(i) == "if_statement"@ && empty_block_in(t, i, "consequence"@, "block"@),
        t,
        i,
        "no-empty-if"@,
        "Empty if block"@,
    )
}

pub fn no_empty_if_at(t: &SyntaxTree, i: usize, ctx: &mut Ctx)
    requires
        t.wf(),
        i < t.len(),
        old(ctx).wf(),
    ensures
        final(ctx).grew(*old(ctx), no_empty_if_hits(*t, i as int)),
{
    if t.kind_is(i, "if_statement") && empty_block_in_exec(t, i, "consequence", "block") {
        ctx.report(t, i, "no-empty-if", "Empty if block".to_owned());
    }
}

/// `no-double-brace-init`: `new T() {{ ... }}`.
pub open spec fn no_double_brace_init_hits(t: SyntaxTree, i: int) -> Seq<HitView> {
    hit_if(
        t.kind(i) == "object_creation_expression"@ && some_kid(t, t.children(i), KidTest::InitializerBody),
        t,
        i,
        "no-double-brace-init"@,
        "Avoid double-brace initialization; it creates an anonymous inner class"@,
    )
}

pub fn no_double_brace_init_at(t: &SyntaxTree, i: usize, ctx: &mut Ctx)
    requires
        t.wf(),
        i < t.len(),
        old(ctx).wf(),
    ensures
        final(ctx).grew(*old(ctx), no_double_brace_init_hits(*t, i as int)),
{
    if t.kind_is(i, "object_creation_expression") && some_kid_exec(t, i, KidTest::InitializerBody) {
        ctx.report(
            t,
            i,
            "no-double-brace-init",
            "Avoid double-brace initialization; it creates an anonymous inner class".to_owned(),
        );
    }
}

/// `no-string-concat-in-loop`: `+` or `+=` on a string literal inside a loop.
pub open spec fn no_string_concat_in_loop_hits(t: SyntaxTree, i: int) -> Seq<HitView> {
    let o = op_text(t, i);
    let l = t.child_by_field(i, "left"@);
    let r = t.child_by_field(i, "right"@);
    hit_if(
        t.kind(i) == "binary_expression"@ && t.child_by_field(i, "operator"@) is Some && (o == "+"@
            || o == "+="@) && l is Some && r is Some && (t.kind(l.unwrap() as int) == "string_literal"@
            || t.kind(r.unwrap() as int) == "string_literal"@) && inside(t, i, Enclosing::JavaLoop),
        t,
        i,
        "no-string-concat-in-loop"@,
        "Avoid string concatenation with `+` inside loops; use StringBuilder"@,
    )
}

pub fn no_string_concat_in_loop_at(t: &SyntaxTree, i: usize, ctx: &mut Ctx)
    requires
        t.wf(),
        i < t.len(),
        old(ctx).wf(),
    ensures
        final(ctx).grew(*old(ctx), no_string_concat_in_loop_hits(*t, i as int)),
{
    if !t.kind_is(i, "binary_expression") {
        return;
    }
    if let Some(oc) = t.field_child(i, "operator") {
        if t.text_is(oc, "+") || t.text_is(oc, "+=") {
            if let (Some(l), Some(r)) = (t.field_child(i, "left"), t.field_child(i, "right")) {
                if (t.kind_is(l, "string_literal") || t.kind_is(r, "string_literal")) && inside_exec(
                    t,
                    i,
                    Enclosing::JavaLoop,
                ) {
                    ctx.report(
                        t,
                        i,
                        "no-string-concat-in-loop",
                        "Avoid string concatenation with `+` inside loops; use StringBuilder".to_owned(),
                    );
                }
            }
        }
    }
}

/// `no-nested-try`: a `try` inside another `try` of the same method.
pub open spec fn no_nested_try_hits(t: SyntaxTree, i: int) -> Seq<HitView> {
    hit_if(
        t.kind(i) == "try_statement"@ && inside(t, i, Enclosing::JavaTry),
        t,
        i,
        "no-nested-try"@,
        "Avoid nested try blocks; extract inner try into a separate method"@,
    )
}

pub fn no_nested_try_at(t: &SyntaxTree, i: usize, ctx: &mut Ctx)
    requires
        t.wf(),
        i < t.len(),
        old(ctx).wf(),
    ensures
        final(ctx).grew(*old(ctx), no_nested_try_hits(*t, i as int)),
{
    if t.kind_is(i, "try_statement") && inside_exec(t, i, Enclosing::JavaTry) {
        ctx.report(
            t,
            i,
            "no-nested-try",
            "Avoid nested try blocks; extract inner try into a separate method".to_owned(),
        );
    }
}

/// `equals-null`: `x.equals(null)`.
pub open spec fn equals_null_hits(t: SyntaxTree, i: int) -> Seq<HitView> {
    let args = t.child_by_field(i, "arguments"@);
    hit_if(
        t.kind(i) == "method_invocation"@ && text_of_is(t, t.child_by_field(i, "name"@), "equals"@)
            && args is Some && some_kid(t, t.children(args.unwrap() as int), KidTest::NullArgument),
        t,
        i,
        "equals-null"@,
        "`x.equals(null)` always returns false; use `x == null` instead"@,
    )
}

pub fn equals_null_at(t: &SyntaxTree, i: usize, ctx: &mut Ctx)
    requires
        t.wf(),
        i < t.len(),
        old(ctx).wf(),
    ensures
        final(ctx).grew(*old(ctx), equals_null_hits(*t, i as int)),
{
    if t.kind_is(i, "method_invocation") && opt_text_is(t, t.field_child(i, "name"), "equals") {
        if let Some(a) = t.field_child(i, "arguments") {
            if some_kid_exec(t, a, KidTest::NullArgument) {
                ctx.report(
                    t,
                    i,
                    "equals-null",
                    "`x.equals(null)` always returns false; use `x == null` instead".to_owned(),
                );
            }
        }
    }
}

} // verus!
