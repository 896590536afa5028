//! Rules for C and C++.
use vstd::prelude::*;
use crate::lint::{Ctx, HitView, hit_if};
use crate::rules::common::{
    Noise, cat3, kids_except, kids_except_exec, kids_of_kind, kids_of_kind_exec, kind_of_is,
    opt_kind_is, opt_text_is, text_of_is,
};
use crate::rules::java::{empty_block_in, empty_block_in_exec};
use crate::syntax::SyntaxTree;
use crate::text::{ends_with, str_ends_with, str_eq};

verus! {

/// The callee text of a C call, when `i` is a call.
pub open spec fn c_callee(t: SyntaxTree, i: int) -> Option<usize> {
    if t.kind(i) == "call_expression"@ {
        t.child_by_field(i, "function"@)
    } else {
        None
    }
}

fn c_callee_exec(t: &SyntaxTree, i: usize) -> (r: Option<usize>)
    requires
        t.wf(),
        i < t.len(),
    ensures
        r == c_callee(*t, i as int),
        r matches Some(c) ==> c < t.len(),
{
    if t.kind_is(i, "call_expression") {
        t.field_child(i, "function")
    } else {
        None
    }
}

/// `no-printf`: a call of a `printf`-family function or `puts`.
pub open spec fn no_printf_hits(t: SyntaxTree, i: int) -> Seq<HitView> {
    let f = c_callee(t, i);
    let name = t.text(f.unwrap() as int);
    hit_if(
        f is Some && (name == "printf"@ || name == "fprintf"@ || name == "sprintf"@ || name == "puts"@),
        t,
        i,
        "no-printf"@,
        "Avoid `"@ + name + "()` in production code"@,
    )
}

pub fn no_printf_at(t: &SyntaxTree, i: usize, ctx: &mut Ctx)
    requires
        t.wf(),
        i < t.len(),
        old(ctx).wf(),
    ensures
        final(ctx).grew(*old(ctx), no_printf_hits(*t, i as int)),
{
    if let Some(f) = c_callee_exec(t, i) {
        let name = t.node_text(f);
        if str_eq(name, "printf") || str_eq(name, "fprintf") || str_eq(name, "sprintf") || str_eq(
            name,
            "puts",
        ) {
            ctx.report(t, i, "no-printf", cat3("Avoid `", name, "()` in production code"));
        }
    }
}

/// The bounded replacement of an unbounded C string function.
pub open spec fn safe_alternative(name: Seq<char>) -> Option<Seq<char>> {
    if name == "gets"@ {
        Some("fgets"@)
    } else if name == "strcpy"@ {
        Some("strncpy"@)
    } else if name == "strcat"@ {
        Some("strncat"@)
    } else if name == "sprintf"@ {
        Some("snprintf"@)
    } else {
        None
    }
}

/// `no-unsafe-fn`: a call of `gets`, `strcpy`, `strcat` or `sprintf`.
pub open spec fn no_unsafe_fn_hits(t: SyntaxTree, i: int) -> Seq<HitView> {
    let f = c_callee(t, i);
    let name = t.text(f.unwrap() as int);
    let alt = safe_alternative(name);
    hit_if(
        f is Some && alt is Some,
        t,
        i,
        "no-unsafe-fn"@,
        "`"@ + name + "()` is unsafe, use `"@ + alt.unwrap() + "()` instead"@,
    )
}

pub fn no_unsafe_fn_at(t: &SyntaxTree, i: usize, ctx: &mut Ctx)
    requires
        t.wf(),
        i < t.len(),
        old(ctx).wf(),
    ensures
        final(ctx).grew(*old(ctx), no_unsafe_fn_hits(*t, i as int)),
{
    if let Some(f) = c_callee_exec(t, i) {
        let name = t.node_text(f);
        let alt = if str_eq(name, "gets") {
            Some("fgets")
        } else if str_eq(name, "strcpy") {
            Some("strncpy")
        } else if str_eq(name, "strcat") {
            Some("strncat")
        } else if str_eq(name, "sprintf") {
            Some("snprintf")
        } else {
            None
        };
        if let Some(a) = alt {
            let mut msg = cat3("`", name, "()` is unsafe, use `");
            msg.append(a);
            msg.append("()` instead");
            ctx.report(t, i, "no-unsafe-fn", msg);
        }
    }
}

/// `no-malloc`: a call of `malloc`, `calloc` or `realloc`.
pub open spec fn no_malloc_hits(t: SyntaxTree, i: int) -> Seq<HitView> {
    let f = c_callee(t, i);
    let name = t.text(f.unwrap() as int);
    hit_if(
        f is Some && (name == "malloc"@ || name == "calloc"@ || name == "realloc"@),
        t,
        i,
        "no-malloc"@,
        "`"@ + name + "()` detected; ensure matching `free()` exists"@,
    )
}

pub fn no_malloc_at(t: &SyntaxTree, i: usize, ctx: &mut Ctx)
    requires
        t.wf(),
        i < t.len(),
        old(ctx).wf(),
    ensures
        final(ctx).grew(*old(ctx), no_malloc_hits(*t, i as int)),
{
    if let Some(f) = c_callee_exec(t, i) {
        let name = t.node_text(f);
        if str_eq(name, "malloc") || str_eq(name, "calloc") || str_eq(name, "realloc") {
            ctx.report(t, i, "no-malloc", cat3("`", name, "()` detected; ensure matching `free()` exists"));
        }
    }
}

/// `no-goto`: a `goto` statement.
pub open spec fn no_goto_hits(t: SyntaxTree, i: int) -> Seq<HitView> {
    hit_if(t.kind(i) == "goto_statement"@, t, i, "no-goto"@, "Avoid `goto` statements"@)
}

pub fn no_goto_at(t: &SyntaxTree, i: usize, ctx: &mut Ctx)
    requires
        t.wf(),
        i < t.len(),
        old(ctx).wf(),
    ensures
        final(ctx).grew(*old(ctx), no_goto_hits(*t, i as int)),
{
    if t.kind_is(i, "goto_statement") {
        ctx.report(t, i, "no-goto", "Avoid `goto` statements".to_owned());
    }
}

/// The identifier `sizeof` is applied to, when it is applied to a bare or
/// parenthesized identifier.
pub open spec fn sizeof_ident(t: SyntaxTree, i: int) -> Option<usize> {
    let args = kids_except(t, i, Noise::SizeofParens);
    let arg = args[0] as int;
    let inner = if t.kind(arg) == "parenthesized_expression"@ {
        t.child_at(arg, 1)
    } else {
        Some(arg as usize)
    };
    if t.kind(i) == "sizeof_expression"@ && args.len() == 1 && kind_of_is(t, inner, "identifier"@) {
        inner
    } else {
        None
    }
}

/// `no-sizeof-ptr`: `sizeof(name)` of a plain identifier.
pub open spec fn no_sizeof_ptr_hits(t: SyntaxTree, i: int) -> Seq<HitView> {
    let n = sizeof_ident(t, i);
    let name = t.text(n.unwrap() as int);
    hit_if(
        n is Some,
        t,
        i,
        "no-sizeof-ptr"@,
        "`sizeof("@ + name + ")` returns pointer size if `"@ + name
            + "` is a pointer; consider `sizeof(*"@ + name + ")` or an explicit size"@,
    )
}

pub fn no_sizeof_ptr_at(t: &SyntaxTree, i: usize, ctx: &mut Ctx)
    requires
        t.wf(),
        i < t.len(),
        old(ctx).wf(),
    ensures
        final(ctx).grew(*old(ctx), no_sizeof_ptr_hits(*t, i as int)),
{
    if !t.kind_is(i, "sizeof_expression") {
        return;
    }
    let args = kids_except_exec(t, i, Noise::SizeofParens);
    if args.len() != 1 {
        return;
    }
    let arg = args[0];
    let inner = if t.kind_is(arg, "parenthesized_expression") {
        t.child(arg, 1)
    } else {
        Some(arg)
    };
    if opt_kind_is(t, inner, "identifier") {
        let name = t.node_text(inner.unwrap());
        let mut msg = cat3("`sizeof(", name, ")` returns pointer size if `");
        msg.append(name);
        msg.append("` is a pointer; consider `sizeof(*");
        msg.append(name);
        msg.append(")` or an explicit size");
        ctx.report(t, i, "no-sizeof-ptr", msg);
    }
}

/// Numeric literals that are never magic.
pub open spec fn is_plain_number(s: Seq<char>) -> bool {
    s == "0"@ || s == "1"@ || s == "0.0"@ || s == "1.0"@ || s == "0L"@ || s == "1L"@ || s == "0U"@
        || s == "1U"@ || s == "0UL"@ || s == "1UL"@ || s == "0LL"@ || s == "1LL"@ || s == "0ULL"@
        || s == "1ULL"@
}

/// Whether a number at or below node `j` is an initializer, an enumerator
/// value or a macro body, searching up to the enclosing statement.
pub open spec fn number_allowed_at(t: SyntaxTree, j: int) -> bool
    decreases j,
{
    if 0 <= j < t.len() {
        let k = t.kind(j);
        if k == "init_declarator"@ || k == "enumerator"@ || k == "preproc_def"@ {
            true
        } else if ends_with(k, "_statement"@) || k == "declaration"@ {
            false
        } else {
            match t.parent(j) {
                Some(p) => p < j && number_allowed_at(t, p as int),
                None => false,
            }
        }
    } else {
        false
    }
}

fn number_allowed_at_exec(t: &SyntaxTree, j: usize) -> (r: bool)
    requires
        t.wf(),
        j < t.len(),
    ensures
        r == number_allowed_at(*t, j as int),
    decreases j,
{
    let k = t.node_kind(j);
    if str_eq(k, "init_declarator") || str_eq(k, "enumerator") || str_eq(k, "preproc_def") {
        true
    } else if str_ends_with(k, "_statement") || str_eq(k, "declaration") {
        false
    } else {
        match t.node_parent(j) {
            Some(p) => {
                assert(t.nodes@[j as int].parent == Some(p));
                number_allowed_at_exec(t, p)
            },
            None => false,
        }
    }
}

/// `no-magic-number`: a numeric literal other than 0 and 1 outside an
/// initializer, enumerator or macro.
pub open spec fn no_magic_number_hits(t: SyntaxTree, i: int) -> Seq<HitView> {
    let text = t.text(i);
    hit_if(
        t.kind(i) == "number_literal"@ && !is_plain_number(text) && !match t.parent(i) {
            Some(p) => p < i && number_allowed_at(t, p as int),
            None => false,
        },
        t,
        i,
        "no-magic-number"@,
        "Magic number `"@ + text + "`; consider extracting to a named constant"@,
    )
}

pub fn no_magic_number_at(t: &SyntaxTree, i: usize, ctx: &mut Ctx)
    requires
        t.wf(),
        i < t.len(),
        old(ctx).wf(),
    ensures
        final(ctx).grew(*old(ctx), no_magic_number_hits(*t, i as int)),
{
    if !t.kind_is(i, "number_literal") {
        return;
    }
    let s = t.node_text(i);
    if str_eq(s, "0") || str_eq(s, "1") || str_eq(s, "0.0") || str_eq(s, "1.0") || str_eq(s, "0L")
        || str_eq(s, "1L") || str_eq(s, "0U") || str_eq(s, "1U") || str_eq(s, "0UL") || str_eq(s, "1UL")
        || str_eq(s, "0LL") || str_eq(s, "1LL") || str_eq(s, "0ULL") || str_eq(s, "1ULL") {
        return;
    }
    let allowed = match t.node_parent(i) {
        Some(p) => {
            assert(t.nodes@[i as int].parent == Some(p));
            number_allowed_at_exec(t, p)
        },
        None => false,
    };
    if !allowed {
        ctx.report(
            t,
            i,
            "no-magic-number",
            cat3("Magic number `", s, "`; consider extracting to a named constant"),
        );
    }
}

/// Whether a C statement ends the flow: a jump, or a compound statement or
/// case whose last statement does.
pub open spec fn c_ends_flow(t: SyntaxTree, n: int) -> bool
    decreases t.len() - n,
{
    let k = t.kind(n);
    if k == "break_statement"@ || k == "return_statement"@ || k == "continue_statement"@ || k
        == "goto_statement"@ {
        true
    } else if k == "compound_statement"@ || k == "case_statement"@ {
        let ks = if k == "compound_statement"@ {
            kids_except(t, n, Noise::CloseComment)
        } else {
            kids_except(t, n, Noise::CaseDefaultColon)
        };
        ks.len() > 0 && n < ks.last() < t.len() && c_ends_flow(t, ks.last() as int)
    } else {
        false
    }
}

fn c_ends_flow_exec(t: &SyntaxTree, n: usize) -> (r: bool)
    requires
        t.wf(),
        n < t.len(),
    ensures
        r == c_ends_flow(*t, n as int),
    decreases t.len() - n,
{
    let k = t.node_kind(n);
    if str_eq(k, "break_statement") || str_eq(k, "return_statement") || str_eq(k, "continue_statement")
        || str_eq(k, "goto_statement") {
        return true;
    }
    let compound = str_eq(k, "compound_statement");
    if !compound && !str_eq(k, "case_statement") {
        return false;
    }
    let ks = if compound {
        kids_except_exec(t, n, Noise::CloseComment)
    } else {
        kids_except_exec(t, n, Noise::CaseDefaultColon)
    };
    if ks.len() == 0 {
        false
    } else {
        c_ends_flow_exec(t, ks[ks.len() - 1])
    }
}

/// Whether case `c` has statements and does not end the flow.
pub open spec fn case_falls(t: SyntaxTree, c: int) -> bool {
    let st = kids_except(t, c, Noise::CaseDefaultHead);
    st.len() > 0 && !c_ends_flow(t, st.last() as int)
}

/// The cases of `cs`, out of `total`, that fall into a following case.
pub open spec fn falling_c_cases(t: SyntaxTree, cs: Seq<usize>, total: int) -> Seq<HitView>
    decreases cs.len(),
{
    if cs.len() == 0 {
        seq![]
    } else {
        falling_c_cases(t, cs.drop_last(), total) + hit_if(
            case_falls(t, cs.last() as int) && cs.len() < total,
            t,
            cs.last() as int,
            "no-implicit-fallthrough"@,
            "Case without break, return, or goto before next case"@,
        )
    }
}

/// `no-implicit-fallthrough`: a case that runs on into the next case.
pub open spec fn no_implicit_fallthrough_hits(t: SyntaxTree, i: int) -> Seq<HitView> {
    let b = t.child_by_field(i, "body"@);
    let cases = kids_of_kind(t, b.unwrap() as int, "case_statement"@);
    if t.kind(i) == "switch_statement"@ && b is Some {
        falling_c_cases(t, cases, cases.len() as int)
    } else {
        seq![]
    }
}

pub fn no_implicit_fallthrough_at(t: &SyntaxTree, i: usize, ctx: &mut Ctx)
    requires
        t.wf(),
        i < t.len(),
        old(ctx).wf(),
    ensures
        final(ctx).grew(*old(ctx), no_implicit_fallthrough_hits(*t, i as int)),
{
    if !t.kind_is(i, "switch_statement") {
        return;
    }
    let b = match t.field_child(i, "body") {
        Some(b) => b,
        None => {
            return;
        },
    };
    let cases = kids_of_kind_exec(t, b, "case_statement");
    let ghost start = *ctx;
    let mut k: usize = 0;
    while k < cases.len()
        invariant
            t.wf(),
            k <= cases@.len(),
            forall|q: int| 0 <= q < cases@.len() ==> #[trigger] cases@[q] < t.len(),
            ctx.grew(start, falling_c_cases(*t, cases@.take(k as int), cases@.len() as int)),
        decreases cases@.len() - k,
    {
        let c = cases[k];
        assert(cases@.take(k + 1).drop_last() =~= cases@.take(k as int));
        assert(cases@.take(k + 1).last() == c);
        let st = kids_except_exec(t, c, Noise::CaseDefaultHead);
        if st.len() > 0 && !c_ends_flow_exec(t, st[st.len() - 1]) && k + 1 < cases.len() {
            ctx.report(
                t,
                c,
                "no-implicit-fallthrough",
                "Case without break, return, or goto before next case".to_owned(),
            );
        }
        k = k + 1;
    }
    assert(cases@.take(k as int) =~= cases@);
}

/// `no-empty-if`: an `if` whose compound statement is empty.
pub open spec fn no_empty_if_hits(t: SyntaxTree, i: int) -> Seq<HitView> {
    hit_if(
        t.kind(i) == "if_statement"@ && empty_block_in(t, i, "consequence"@, "compound_statement"@),
        t,
        i,
        "no-empty-if"@,
        "Empty if block"@,
    )
}

pub fn no_empty_if_at(t: &SyntaxTree, i: usize, ctx: &mut Ctx)
    requires
        t.wf(),
        i < t.len(),
        old(ctx).wf(),
    ensures
        final(ctx).grew(*old(ctx), no_empty_if_hits(*t, i as int)),
{
    if t.kind_is(i, "if_statement") && empty_block_in_exec(t, i, "consequence", "compound_statement") {
        ctx.report(t, i, "no-empty-if", "Empty if block".to_owned());
    }
}

/// The declared name of a function definition whose declarator is a
/// function declarator.
pub open spec fn declared_function_name(t: SyntaxTree, i: int) -> Option<usize> {
    let d = t.child_by_field(i, "declarator"@);
    if kind_of_is(t, d, "function_declarator"@) {
        t.child_by_field(d.unwrap() as int, "declarator"@)
    } else {
        None
    }
}

/// `no-void-main`: `void main()`.
pub open spec fn no_void_main_hits(t: SyntaxTree, i: int) -> Seq<HitView> {
    hit_if(
        t.kind(i) == "function_definition"@ && text_of_is(t, declared_function_name(t, i), "main"@)
            && text_of_is(t, t.child_by_field(i, "type"@), "void"@),
        t,
        i,
        "no-void-main"@,
        "`void main()` is non-standard; use `int main()` instead"@,
    )
}

pub fn no_void_main_at(t: &SyntaxTree, i: usize, ctx: &mut Ctx)
    requires
        t.wf(),
        i < t.len(),
        old(ctx).wf(),
    ensures
        final(ctx).grew(*old(ctx), no_void_main_hits(*t, i as int)),
{
    if !t.kind_is(i, "function_definition") {
        return;
    }
    let d = t.field_child(i, "declarator");
    let name = if opt_kind_is(t, d, "function_declarator") {
        t.field_child(d.unwrap(), "declarator")
    } else {
        None
    };
    if opt_text_is(t, name, "main") && opt_text_is(t, t.field_child(i, "type"), "void") {
        ctx.report(
            t,
            i,
            "no-void-main",
            "`void main()` is non-standard; use `int main()` instead".to_owned(),
        );
    }
}

} // verus!
