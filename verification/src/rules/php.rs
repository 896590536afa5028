//! Rules for PHP and Lua.
use vstd::prelude::*;
use crate::lint::{Ctx, HitView, hit_if};
use crate::rules::common::{cat3, field_text, field_text_exec, head_text, head_text_exec, parent_kind_is, parent_is};
use crate::syntax::SyntaxTree;
use crate::text::{contains, starts_with, str_contains, str_eq, str_starts_with};

verus! {

/// The name a PHP function call calls.
pub open spec fn php_callee(t: SyntaxTree, i: int) -> Option<Seq<char>> {
    if t.kind(i) == "function_call_expression"@ {
        field_text(t, i, "function"@)
    } else {
        None
    }
}

fn php_callee_exec<'a>(t: &'a SyntaxTree, i: usize) -> (r: Option<&'a str>)
    requires
        t.wf(),
        i < t.len(),
    ensures
        match r {
            Some(s) => php_callee(*t, i as int) == Some(s@),
            None => php_callee(*t, i as int) is None,
        },
{
    if t.kind_is(i, "function_call_expression") {
        field_text_exec(t, i, "function")
    } else {
        None
    }
}

pub open spec fn is_debug_output(n: Seq<char>) -> bool {
    n == "var_dump"@ || n == "print_r"@ || n == "debug_zval_dump"@ || n == "dd"@
}

/// `no-debug-output`: `var_dump`, `print_r`, `debug_zval_dump` or `dd`.
pub open spec fn no_debug_output_hits(t: SyntaxTree, i: int) -> Seq<HitView> {
    let n = php_callee(t, i);
    hit_if(
        n is Some && is_debug_output(n.unwrap()),
        t,
        i,
        "no-debug-output"@,
        "Remove debug call `"@ + n.unwrap() + "()`"@,
    )
}

pub fn no_debug_output_at(t: &SyntaxTree, i: usize, ctx: &mut Ctx)
    requires
        t.wf(),
        i < t.len(),
        old(ctx).wf(),
    ensures
        final(ctx).grew(*old(ctx), no_debug_output_hits(*t, i as int)),
{
    if let Some(n) = php_callee_exec(t, i) {
        if str_eq(n, "var_dump") || str_eq(n, "print_r") || str_eq(n, "debug_zval_dump") || str_eq(n, "dd") {
            ctx.report(t, i, "no-debug-output", cat3("Remove debug call `", n, "()`"));
        }
    }
}

/// `no-eval` (PHP): a call of `eval`.
pub open spec fn no_eval_hits(t: SyntaxTree, i: int) -> Seq<HitView> {
    hit_if(php_callee(t, i) == Some("eval"@), t, i, "no-eval"@, "`eval()` is a security risk"@)
}

pub fn no_eval_at(t: &SyntaxTree, i: usize, ctx: &mut Ctx)
    requires
        t.wf(),
        i < t.len(),
        old(ctx).wf(),
    ensures
        final(ctx).grew(*old(ctx), no_eval_hits(*t, i as int)),
{
    if let Some(n) = php_callee_exec(t, i) {
        if str_eq(n, "eval") {
            ctx.report(t, i, "no-eval", "`eval()` is a security risk".to_owned());
        }
    }
}

/// `no-exit`: a call of `die` or `exit`.
pub open spec fn no_exit_hits(t: SyntaxTree, i: int) -> Seq<HitView> {
    let n = php_callee(t, i);
    hit_if(
        n is Some && (n.unwrap() == "die"@ || n.unwrap() == "exit"@),
        t,
        i,
        "no-exit"@,
        "Avoid `"@ + n.unwrap() + "()`; throw an exception instead"@,
    )
}

pub fn no_exit_at(t: &SyntaxTree, i: usize, ctx: &mut Ctx)
    requires
        t.wf(),
        i < t.len(),
        old(ctx).wf(),
    ensures
        final(ctx).grew(*old(ctx), no_exit_hits(*t, i as int)),
{
    if let Some(n) = php_callee_exec(t, i) {
        if str_eq(n, "die") || str_eq(n, "exit") {
            ctx.report(t, i, "no-exit", cat3("Avoid `", n, "()`; throw an exception instead"));
        }
    }
}

/// `strict-comparison`: a binary expression written with ` == ` (and no
/// ` === `), and one written with ` != ` (and no ` !== `).
pub open spec fn strict_comparison_hits(t: SyntaxTree, i: int) -> Seq<HitView> {
    let b = t.kind(i) == "binary_expression"@;
    let s = t.text(i);
    hit_if(
        b && contains(s, " == "@) && !contains(s, " === "@),
        t,
        i,
        "strict-comparison"@,
        "Use `===` instead of `==` for strict comparison"@,
    ) + hit_if(
        b && contains(s, " != "@) && !contains(s, " !== "@),
        t,
        i,
        "strict-comparison"@,
        "Use `!==` instead of `!=` for strict comparison"@,
    )
}

pub fn strict_comparison_at(t: &SyntaxTree, i: usize, ctx: &mut Ctx)
    requires
        t.wf(),
        i < t.len(),
        old(ctx).wf(),
    ensures
        final(ctx).grew(*old(ctx), strict_comparison_hits(*t, i as int)),
{
    if !t.kind_is(i, "binary_expression") {
        return;
    }
    let s = t.node_text(i);
    if str_contains(s, " == ") && !str_contains(s, " === ") {
        ctx.report(t, i, "strict-comparison", "Use `===` instead of `==` for strict comparison".to_owned());
    }
    if str_contains(s, " != ") && !str_contains(s, " !== ") {
        ctx.report(t, i, "strict-comparison", "Use `!==` instead of `!=` for strict comparison".to_owned());
    }
}

/// `no-error-suppression`: the `@` operator.
pub open spec fn no_error_suppression_hits(t: SyntaxTree, i: int) -> Seq<HitView> {
    hit_if(
        t.kind(i) == "error_suppression_expression"@,
        t,
        i,
        "no-error-suppression"@,
        "Avoid `@` error suppression; handle errors explicitly"@,
    )
}

pub fn no_error_suppression_at(t: &SyntaxTree, i: usize, ctx: &mut Ctx)
    requires
        t.wf(),
        i < t.len(),
        old(ctx).wf(),
    ensures
        final(ctx).grew(*old(ctx), no_error_suppression_hits(*t, i as int)),
{
    if t.kind_is(i, "error_suppression_expression") {
        ctx.report(
            t,
            i,
            "no-error-suppression",
            "Avoid `@` error suppression; handle errors explicitly".to_owned(),
        );
    }
}

pub open spec fn is_lua_builtin_global(n: Seq<char>) -> bool {
    n == "_G"@ || n == "_ENV"@ || n == "arg"@ || n == "_VERSION"@
}

/// `no-global` (Lua): an assignment directly in a chunk or block, not
/// written with `local`, to a name other than the standard globals.
pub open spec fn lua_no_global_hits(t: SyntaxTree, i: int) -> Seq<HitView> {
    let n = head_text(t, i);
    hit_if(
        t.kind(i) == "variable_assignment"@ && (parent_kind_is(t, i, "chunk"@) || parent_kind_is(
            t,
            i,
            "block"@,
        )) && !starts_with(t.text(i), "local "@) && n is Some && !is_lua_builtin_global(n.unwrap()),
        t,
        i,
        "no-global"@,
        "Global variable `"@ + n.unwrap() + "`; use `local`"@,
    )
}

pub fn lua_no_global_at(t: &SyntaxTree, i: usize, ctx: &mut Ctx)
    requires
        t.wf(),
        i < t.len(),
        old(ctx).wf(),
    ensures
        final(ctx).grew(*old(ctx), lua_no_global_hits(*t, i as int)),
{
    if !t.kind_is(i, "variable_assignment") || !(parent_is(t, i, "chunk") || parent_is(t, i, "block"))
        || str_starts_with(t.node_text(i), "local ") {
        return;
    }
    if let Some(n) = head_text_exec(t, i) {
        if !(str_eq(n, "_G") || str_eq(n, "_ENV") || str_eq(n, "arg") || str_eq(n, "_VERSION")) {
            ctx.report(t, i, "no-global", cat3("Global variable `", n, "`; use `local`"));
        }
    }
}

/// `no-os-execute`: a call written `os.execute...` or `io.popen...`.
pub open spec fn no_os_execute_hits(t: SyntaxTree, i: int) -> Seq<HitView> {
    hit_if(
        t.kind(i) == "function_call"@ && (starts_with(t.text(i), "os.execute"@) || starts_with(
            t.text(i),
            "io.popen"@,
        )),
        t,
        i,
        "no-os-execute"@,
        "Avoid `os.execute`/`io.popen`; shell injection risk"@,
    )
}

pub fn no_os_execute_at(t: &SyntaxTree, i: usize, ctx: &mut Ctx)
    requires
        t.wf(),
        i < t.len(),
        old(ctx).wf(),
    ensures
        final(ctx).grew(*old(ctx), no_os_execute_hits(*t, i as int)),
{
    if t.kind_is(i, "function_call") && (str_starts_with(t.node_text(i), "os.execute") || str_starts_with(
        t.node_text(i),
        "io.popen",
    )) {
        ctx.report(t, i, "no-os-execute", "Avoid `os.execute`/`io.popen`; shell injection risk".to_owned());
    }
}

/// `no-loadstring`: a call written `loadstring(...` or `load(...`.
pub open spec fn no_loadstring_hits(t: SyntaxTree, i: int) -> Seq<HitView> {
    hit_if(
        t.kind(i) == "function_call"@ && (starts_with(t.text(i), "loadstring("@) || starts_with(
            t.text(i),
            "load("@,
        )),
        t,
        i,
        "no-loadstring"@,
        "Avoid `loadstring`/`load` with string; code injection risk"@,
    )
}

pub fn no_loadstring_at(t: &SyntaxTree, i: usize, ctx: &mut Ctx)
    requires
        t.wf(),
        i < t.len(),
        old(ctx).wf(),
    ensures
        final(ctx).grew(*old(ctx), no_loadstring_hits(*t, i as int)),
{
    if t.kind_is(i, "function_call") && (str_starts_with(t.node_text(i), "loadstring(") || str_starts_with(
        t.node_text(i),
        "load(",
    )) {
        ctx.report(
            t,
            i,
            "no-loadstring",
            "Avoid `loadstring`/`load` with string; code injection risk".to_owned(),
        );
    }
}

/// `no-print` (Lua): a call whose first child is `print`.
pub open spec fn lua_no_print_hits(t: SyntaxTree, i: int) -> Seq<HitView> {
    hit_if(
        t.kind(i) == "function_call"@ && head_text(t, i) == Some("print"@),
        t,
        i,
        "no-print"@,
        "Avoid `print()`; use a logging framework"@,
    )
}

pub fn lua_no_print_at(t: &SyntaxTree, i: usize, ctx: &mut Ctx)
    requires
        t.wf(),
        i < t.len(),
        old(ctx).wf(),
    ensures
        final(ctx).grew(*old(ctx), lua_no_print_hits(*t, i as int)),
{
    if t.kind_is(i, "function_call") {
        if let Some(n) = head_text_exec(t, i) {
            if str_eq(n, "print") {
                ctx.report(t, i, "no-print", "Avoid `print()`; use a logging framework".to_owned());
            }
        }
    }
}

} // verus!
