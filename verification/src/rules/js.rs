//! Rules for JavaScript and TypeScript.
use vstd::prelude::*;
use crate::classify::{is_function_node, is_function_node_spec};
use crate::lint::{Ctx, HitView, hit, hit_if, hits_each, report_each};
use crate::rules::common::{
    FlowStyle, Noise, cat3, cat5, holds_text, kids_except, kids_except_exec, kids_have,
    kids_have_exec, kind_of_is, opt_kind_is, opt_text_is, text_of_is, texts, is_noise, is_equality_op, is_equality_op_exec,
    is_comparison_op, is_comparison_op_exec, noise, op_text, operands, operands_exec, unreachable_after,
    unreachable_exec,
};
use crate::syntax::SyntaxTree;
use crate::text::{chars_eq, chars_of, str_eq};

verus! {

/// `no-any`: the `any` type.
pub open spec fn no_any_hits(t: SyntaxTree, i: int) -> Seq<HitView> {
    hit_if(
        t.kind(i) == "predefined_type"@ && t.text(i) == "any"@,
        t,
        i,
        "no-any"@,
        "Unexpected `any` type"@,
    )
}

pub fn no_any_at(t: &SyntaxTree, i: usize, ctx: &mut Ctx)
    requires
        t.wf(),
        i < t.len(),
        old(ctx).wf(),
    ensures
        final(ctx).grew(*old(ctx), no_any_hits(*t, i as int)),
{
    if t.kind_is(i, "predefined_type") && t.text_is(i, "any") {
        ctx.report(t, i, "no-any", "Unexpected `any` type".to_owned());
    }
}

/// `no-console`: a call whose callee is a member of `console`.
pub open spec fn no_console_hits(t: SyntaxTree, i: int) -> Seq<HitView> {
    let callee = t.child_by_field(i, "function"@);
    hit_if(
        t.kind(i) == "call_expression"@ && kind_of_is(t, callee, "member_expression"@)
            && text_of_is(t, t.child_by_field(callee.unwrap() as int, "object"@), "console"@),
        t,
        i,
        "no-console"@,
        "Unexpected console statement"@,
    )
}

pub fn no_console_at(t: &SyntaxTree, i: usize, ctx: &mut Ctx)
    requires
        t.wf(),
        i < t.len(),
        old(ctx).wf(),
    ensures
        final(ctx).grew(*old(ctx), no_console_hits(*t, i as int)),
{
    if t.kind_is(i, "call_expression") {
        let callee = t.field_child(i, "function");
        if opt_kind_is(t, callee, "member_expression") {
            let c = callee.unwrap();
            if opt_text_is(t, t.field_child(c, "object"), "console") {
                ctx.report(t, i, "no-console", "Unexpected console statement".to_owned());
            }
        }
    }
}

/// `no-var`: a declaration introduced by `var`.
pub open spec fn no_var_hits(t: SyntaxTree, i: int) -> Seq<HitView> {
    hit_if(
        t.kind(i) == "variable_declaration"@ && text_of_is(t, t.child_at(i, 0), "var"@),
        t,
        i,
        "no-var"@,
        "Unexpected var, use let or const instead"@,
    )
}

pub fn no_var_at(t: &SyntaxTree, i: usize, ctx: &mut Ctx)
    requires
        t.wf(),
        i < t.len(),
        old(ctx).wf(),
    ensures
        final(ctx).grew(*old(ctx), no_var_hits(*t, i as int)),
{
    if t.kind_is(i, "variable_declaration") && opt_text_is(t, t.child(i, 0), "var") {
        ctx.report(t, i, "no-var", "Unexpected var, use let or const instead".to_owned());
    }
}

/// `eqeqeq`: a loose `==` or `!=`, reported at the operator.
pub open spec fn eqeqeq_hits(t: SyntaxTree, i: int) -> Seq<HitView> {
    let op = t.child_by_field(i, "operator"@);
    let o = op.unwrap() as int;
    let loose = t.text(o);
    let strict = if loose == "=="@ { "==="@ } else { "!=="@ };
    hit_if(
        t.kind(i) == "binary_expression"@ && op is Some && (loose == "=="@ || loose == "!="@),
        t,
        o,
        "eqeqeq"@,
        "Expected '"@ + strict + "' instead of '"@ + loose + "'"@,
    )
}

pub fn eqeqeq_at(t: &SyntaxTree, i: usize, ctx: &mut Ctx)
    requires
        t.wf(),
        i < t.len(),
        old(ctx).wf(),
    ensures
        final(ctx).grew(*old(ctx), eqeqeq_hits(*t, i as int)),
{
    if t.kind_is(i, "binary_expression") {
        if let Some(o) = t.field_child(i, "operator") {
            let loose = t.node_text(o);
            let eq = t.text_is(o, "==");
            if eq || t.text_is(o, "!=") {
                let strict = if eq { "===" } else { "!==" };
                let msg = cat5("Expected '", strict, "' instead of '", loose, "'");
                ctx.report(t, o, "eqeqeq", msg);
            }
        }
    }
}

/// Every binary expression whose operator is `==` or `!=` gets exactly one
/// `eqeqeq` finding, at the operator, suggesting `===` or `!==`
/// respectively; a binary expression with any other operator gets none.
pub proof fn every_loose_equality_is_reported_once_with_its_strict_form(t: SyntaxTree, i: int, o: usize)
    requires
        t.kind(i) == "binary_expression"@,
        t.child_by_field(i, "operator"@) == Some(o),
    ensures
        t.text(o as int) == "=="@ ==> eqeqeq_hits(t, i) == seq![
            (t.line(o as int), t.col(o as int), "eqeqeq"@, "Expected '===' instead of '=='"@),
        ],
        t.text(o as int) == "!="@ ==> eqeqeq_hits(t, i) == seq![
            (t.line(o as int), t.col(o as int), "eqeqeq"@, "Expected '!==' instead of '!='"@),
        ],
        t.text(o as int) != "=="@ && t.text(o as int) != "!="@ ==> eqeqeq_hits(t, i).len() == 0,
{
    reveal_strlit("==");
    reveal_strlit("!=");
    reveal_strlit("===");
    reveal_strlit("!==");
    reveal_strlit("Expected '");
    reveal_strlit("' instead of '");
    reveal_strlit("'");
    reveal_strlit("Expected '===' instead of '=='");
    reveal_strlit("Expected '!==' instead of '!='");
    assert("!="@[0] != "=="@[0]);
    assert("Expected '"@ + "==="@ + "' instead of '"@ + "=="@ + "'"@ =~= "Expected '===' instead of '=='"@);
    assert("Expected '"@ + "!=="@ + "' instead of '"@ + "!="@ + "'"@ =~= "Expected '!==' instead of '!='"@);
}

/// `no-debugger`: a `debugger` statement.
pub open spec fn no_debugger_hits(t: SyntaxTree, i: int) -> Seq<HitView> {
    hit_if(
        t.kind(i) == "debugger_statement"@,
        t,
        i,
        "no-debugger"@,
        "Unexpected 'debugger' statement"@,
    )
}

pub fn no_debugger_at(t: &SyntaxTree, i: usize, ctx: &mut Ctx)
    requires
        t.wf(),
        i < t.len(),
        old(ctx).wf(),
    ensures
        final(ctx).grew(*old(ctx), no_debugger_hits(*t, i as int)),
{
    if t.kind_is(i, "debugger_statement") {
        ctx.report(t, i, "no-debugger", "Unexpected 'debugger' statement".to_owned());
    }
}

/// `no-eval`: a call of the identifier `eval`.
pub open spec fn no_eval_hits(t: SyntaxTree, i: int) -> Seq<HitView> {
    let callee = t.child_by_field(i, "function"@);
    hit_if(
        t.kind(i) == "call_expression"@ && kind_of_is(t, callee, "identifier"@) && text_of_is(
            t,
            callee,
            "eval"@,
        ),
        t,
        i,
        "no-eval"@,
        "eval() is not allowed"@,
    )
}

pub fn no_eval_at(t: &SyntaxTree, i: usize, ctx: &mut Ctx)
    requires
        t.wf(),
        i < t.len(),
        old(ctx).wf(),
    ensures
        final(ctx).grew(*old(ctx), no_eval_hits(*t, i as int)),
{
    if t.kind_is(i, "call_expression") {
        let callee = t.field_child(i, "function");
        if opt_kind_is(t, callee, "identifier") && opt_text_is(t, callee, "eval") {
            ctx.report(t, i, "no-eval", "eval() is not allowed".to_owned());
        }
    }
}

/// `no-empty-function`: a function whose body block holds nothing but comments.
pub open spec fn no_empty_function_hits(t: SyntaxTree, i: int) -> Seq<HitView> {
    let body = t.child_by_field(i, "body"@);
    hit_if(
        is_function_node_spec(t, i) && kind_of_is(t, body, "statement_block"@) && kids_except(
            t,
            body.unwrap() as int,
            Noise::BracesComment,
        ).len() == 0,
        t,
        i,
        "no-empty-function"@,
        "Unexpected empty function"@,
    )
}

pub fn no_empty_function_at(t: &SyntaxTree, i: usize, ctx: &mut Ctx)
    requires
        t.wf(),
        i < t.len(),
        old(ctx).wf(),
    ensures
        final(ctx).grew(*old(ctx), no_empty_function_hits(*t, i as int)),
{
    if is_function_node(t, i) {
        let body = t.field_child(i, "body");
        if opt_kind_is(t, body, "statement_block") {
            if kids_except_exec(t, body.unwrap(), Noise::BracesComment).len() == 0 {
                ctx.report(t, i, "no-empty-function", "Unexpected empty function".to_owned());
            }
        }
    }
}

/// `no-nested-ternary`: a ternary with another ternary below it.
pub open spec fn no_nested_ternary_hits(t: SyntaxTree, i: int) -> Seq<HitView> {
    hit_if(
        t.kind(i) == "ternary_expression"@ && kids_have(t, i, 0, "ternary_expression"@),
        t,
        i,
        "no-nested-ternary"@,
        "Do not nest ternary expressions"@,
    )
}

pub fn no_nested_ternary_at(t: &SyntaxTree, i: usize, ctx: &mut Ctx)
    requires
        t.wf(),
        i < t.len(),
        old(ctx).wf(),
    ensures
        final(ctx).grew(*old(ctx), no_nested_ternary_hits(*t, i as int)),
{
    if t.kind_is(i, "ternary_expression") && kids_have_exec(t, i, "ternary_expression") {
        ctx.report(t, i, "no-nested-ternary", "Do not nest ternary expressions".to_owned());
    }
}

/// The label text of a `switch_case` node, if it has one.
pub open spec fn case_label(t: SyntaxTree, c: int) -> Option<Seq<char>> {
    if t.kind(c) == "switch_case"@ {
        match t.child_by_field(c, "value"@) {
            Some(v) => Some(t.text(v as int)),
            None => None,
        }
    } else {
        None
    }
}

/// The case labels among `cs`, in order.
pub open spec fn labels(t: SyntaxTree, cs: Seq<usize>) -> Seq<Seq<char>>
    decreases cs.len(),
{
    if cs.len() == 0 {
        seq![]
    } else {
        labels(t, cs.drop_last()) + match case_label(t, cs.last() as int) {
            Some(l) => seq![l],
            None => seq![],
        }
    }
}

/// Each case of `cs` whose label an earlier case already had.
pub open spec fn duplicate_cases(t: SyntaxTree, cs: Seq<usize>) -> Seq<HitView>
    decreases cs.len(),
{
    if cs.len() == 0 {
        seq![]
    } else {
        duplicate_cases(t, cs.drop_last()) + match case_label(t, cs.last() as int) {
            Some(l) => hit_if(
                labels(t, cs.drop_last()).contains(l),
                t,
                cs.last() as int,
                "no-duplicate-case"@,
                "Duplicate case label: "@ + l,
            ),
            None => seq![],
        }
    }
}

/// `no-duplicate-case`: a switch case whose label repeats an earlier one.
pub open spec fn no_duplicate_case_hits(t: SyntaxTree, i: int) -> Seq<HitView> {
    if t.kind(i) == "switch_body"@ {
        duplicate_cases(t, t.children(i))
    } else {
        seq![]
    }
}

pub fn no_duplicate_case_at(t: &SyntaxTree, i: usize, ctx: &mut Ctx)
    requires
        t.wf(),
        i < t.len(),
        old(ctx).wf(),
    ensures
        final(ctx).grew(*old(ctx), no_duplicate_case_hits(*t, i as int)),
{
    if !t.kind_is(i, "switch_body") {
        return;
    }
    let ghost start = *ctx;
    let cs = &t.nodes[i].children;
    let mut seen: Vec<&str> = Vec::new();
    let mut k: usize = 0;
    while k < cs.len()
        invariant
            t.wf(),
            i < t.len(),
            cs@ == t.children(i as int),
            k <= cs@.len(),
            texts(seen@) == labels(*t, cs@.take(k as int)),
            ctx.grew(start, duplicate_cases(*t, cs@.take(k as int))),
        decreases cs@.len() - k,
    {
        let c = cs[k];
        assert(i < c < t.len()) by {
            assert(t.nodes@[i as int].children@[k as int] == c);
        }
        assert(cs@.take(k + 1).drop_last() =~= cs@.take(k as int));
        assert(cs@.take(k + 1).last() == c);
        let ghost mid = ctx.found();
        if t.kind_is(c, "switch_case") {
            if let Some(v) = t.field_child(c, "value") {
                let text = t.node_text(v);
                if holds_text(&seen, text) {
                    ctx.report(t, c, "no-duplicate-case", concat_label(text));
                }
                let ghost before = seen@;
                seen.push(text);
                assert(texts(seen@) =~= texts(before) + seq![text@]);
            }
        }
        assert(ctx.found() =~= start.found() + duplicate_cases(*t, cs@.take(k + 1)));
        k = k + 1;
    }
    assert(cs@.take(k as int) =~= cs@);
}

fn concat_label(text: &str) -> (r: String)
    ensures
        r@ == "Duplicate case label: "@ + text@,
{
    let mut s = "Duplicate case label: ".to_owned();
    s.append(text);
    s
}

/// `no-self-assign`: `x = x`.
pub open spec fn no_self_assign_hits(t: SyntaxTree, i: int) -> Seq<HitView> {
    let left = t.child_by_field(i, "left"@);
    let right = t.child_by_field(i, "right"@);
    let lt = t.text(left.unwrap() as int);
    hit_if(
        t.kind(i) == "assignment_expression"@ && text_of_is(t, t.child_by_field(i, "operator"@), "="@)
            && left is Some && right is Some && lt == t.text(right.unwrap() as int),
        t,
        i,
        "no-self-assign"@,
        "'"@ + lt + "' is assigned to itself"@,
    )
}

pub fn no_self_assign_at(t: &SyntaxTree, i: usize, ctx: &mut Ctx)
    requires
        t.wf(),
        i < t.len(),
        old(ctx).wf(),
    ensures
        final(ctx).grew(*old(ctx), no_self_assign_hits(*t, i as int)),
{
    if t.kind_is(i, "assignment_expression") && opt_text_is(t, t.field_child(i, "operator"), "=") {
        if let (Some(l), Some(r)) = (t.field_child(i, "left"), t.field_child(i, "right")) {
            if t.same_text(l, r) {
                let msg = cat3("'", t.node_text(l), "' is assigned to itself");
                ctx.report(t, i, "no-self-assign", msg);
            }
        }
    }
}

/// `no-unreachable`: a statement after `return`, `throw`, `break` or
/// `continue` in the same block; the first of them, once per block.
pub open spec fn no_unreachable_hits(t: SyntaxTree, i: int) -> Seq<HitView> {
    if t.kind(i) == "statement_block"@ {
        hits_each(
            t,
            unreachable_after(t, t.children(i), false, FlowStyle::Js),
            "no-unreachable"@,
            "Unreachable code detected"@,
        )
    } else {
        seq![]
    }
}

pub fn no_unreachable_at(t: &SyntaxTree, i: usize, ctx: &mut Ctx)
    requires
        t.wf(),
        i < t.len(),
        old(ctx).wf(),
    ensures
        final(ctx).grew(*old(ctx), no_unreachable_hits(*t, i as int)),
{
    if t.kind_is(i, "statement_block") {
        let dead = unreachable_exec(t, i, FlowStyle::Js);
        report_each(ctx, t, &dead, "no-unreachable", "Unreachable code detected");
    }
}

/// Kinds of statements whose condition the constant-condition rule reads.
pub open spec fn is_conditional_kind(k: Seq<char>) -> bool {
    k == "if_statement"@ || k == "while_statement"@ || k == "do_statement"@
        || k == "ternary_expression"@ || k == "if_expression"@ || k == "while_expression"@
}

/// A literal, or an identifier that names a constant.
pub open spec fn is_constant_expr(t: SyntaxTree, n: int) -> bool {
    let k = t.kind(n);
    let s = t.text(n);
    k == "true"@ || k == "false"@ || k == "null"@ || k == "nil"@ || k == "none"@ || k == "None"@
        || k == "number"@ || k == "integer"@ || k == "float"@ || k == "string"@
        || k == "template_string"@ || (k == "identifier"@ && (s == "true"@ || s == "false"@
        || s == "True"@ || s == "False"@ || s == "nil"@ || s == "null"@ || s == "None"@
        || s == "undefined"@ || s == "NaN"@))
}

fn is_constant_expr_exec(t: &SyntaxTree, n: usize) -> (r: bool)
    requires
        n < t.len(),
    ensures
        r == is_constant_expr(*t, n as int),
{
    let k = t.node_kind(n);
    if str_eq(k, "true") || str_eq(k, "false") || str_eq(k, "null") || str_eq(k, "nil")
        || str_eq(k, "none") || str_eq(k, "None") || str_eq(k, "number") || str_eq(k, "integer")
        || str_eq(k, "float") || str_eq(k, "string") || str_eq(k, "template_string") {
        return true;
    }
    if !str_eq(k, "identifier") {
        return false;
    }
    let s = t.node_text(n);
    str_eq(s, "true") || str_eq(s, "false") || str_eq(s, "True") || str_eq(s, "False")
        || str_eq(s, "nil") || str_eq(s, "null") || str_eq(s, "None") || str_eq(s, "undefined")
        || str_eq(s, "NaN")
}

/// The condition of `i` with one layer of parentheses taken off.
pub open spec fn bare_condition(t: SyntaxTree, i: int) -> Option<usize> {
    match t.child_by_field(i, "condition"@) {
        Some(c) => if t.kind(c as int) == "parenthesized_expression"@ {
            match t.child_at(c as int, 1) {
                Some(inner) => Some(inner),
                None => Some(c),
            }
        } else {
            Some(c)
        },
        None => None,
    }
}

/// `no-constant-condition`: a condition that is a literal.
pub open spec fn no_constant_condition_hits(t: SyntaxTree, i: int) -> Seq<HitView> {
    let c = bare_condition(t, i);
    hit_if(
        is_conditional_kind(t.kind(i)) && c is Some && is_constant_expr(t, c.unwrap() as int),
        t,
        i,
        "no-constant-condition"@,
        "Unexpected constant condition"@,
    )
}

pub fn no_constant_condition_at(t: &SyntaxTree, i: usize, ctx: &mut Ctx)
    requires
        t.wf(),
        i < t.len(),
        old(ctx).wf(),
    ensures
        final(ctx).grew(*old(ctx), no_constant_condition_hits(*t, i as int)),
{
    let k = t.node_kind(i);
    if !(str_eq(k, "if_statement") || str_eq(k, "while_statement") || str_eq(k, "do_statement")
        || str_eq(k, "ternary_expression") || str_eq(k, "if_expression") || str_eq(
        k,
        "while_expression",
    )) {
        return;
    }
    if let Some(c) = t.field_child(i, "condition") {
        let inner = if t.kind_is(c, "parenthesized_expression") {
            match t.child(c, 1) {
                Some(n) => n,
                None => c,
            }
        } else {
            c
        };
        if is_constant_expr_exec(t, inner) {
            ctx.report(t, i, "no-constant-condition", "Unexpected constant condition".to_owned());
        }
    }
}

/// `default-case`: a switch statement without a default case.
pub open spec fn default_case_hits(t: SyntaxTree, i: int) -> Seq<HitView> {
    let body = t.child_by_field(i, "body"@);
    hit_if(
        t.kind(i) == "switch_statement"@ && body is Some && t.child_by_kind(
            body.unwrap() as int,
            "switch_default"@,
        ) is None,
        t,
        i,
        "default-case"@,
        "Switch statement should include a default case"@,
    )
}

pub fn default_case_at(t: &SyntaxTree, i: usize, ctx: &mut Ctx)
    requires
        t.wf(),
        i < t.len(),
        old(ctx).wf(),
    ensures
        final(ctx).grew(*old(ctx), default_case_hits(*t, i as int)),
{
    if t.kind_is(i, "switch_statement") {
        if let Some(b) = t.field_child(i, "body") {
            if t.kind_child(b, "switch_default").is_none() {
                ctx.report(
                    t,
                    i,
                    "default-case",
                    "Switch statement should include a default case".to_owned(),
                );
            }
        }
    }
}

/// The operator of a binary node, when it has one.
fn operator_text(t: &SyntaxTree, i: usize) -> (r: Option<&str>)
    requires
        t.wf(),
        i < t.len(),
    ensures
        r is Some <==> t.child_by_field(i as int, "operator"@) is Some,
        r matches Some(s) ==> s@ == op_text(*t, i as int),
{
    match t.field_child(i, "operator") {
        Some(o) => Some(t.node_text(o)),
        None => None,
    }
}

/// Children of a case that count as its statements: the case's own head
/// tokens and comments, and nested cases with a label, do not.
pub open spec fn case_noise(t: SyntaxTree, c: int) -> bool {
    is_noise(t.kind(c), Noise::CaseHead) || (t.kind(c) == "switch_case"@ && t.child_by_field(
        c,
        "value"@,
    ) is Some)
}

pub open spec fn case_stmts(t: SyntaxTree, cs: Seq<usize>) -> Seq<usize>
    decreases cs.len(),
{
    if cs.len() == 0 {
        seq![]
    } else {
        case_stmts(t, cs.drop_last()) + if case_noise(t, cs.last() as int) {
            seq![]
        } else {
            seq![cs.last()]
        }
    }
}

fn case_stmts_exec(t: &SyntaxTree, c: usize) -> (r: Vec<usize>)
    requires
        t.wf(),
        c < t.len(),
    ensures
        r@ == case_stmts(*t, t.children(c as int)),
        forall|k: int| 0 <= k < r@.len() ==> c < #[trigger] r@[k] < t.len(),
{
    let cs = &t.nodes[c].children;
    let mut out: Vec<usize> = Vec::new();
    let mut k: usize = 0;
    while k < cs.len()
        invariant
            t.wf(),
            c < t.len(),
            cs@ == t.children(c as int),
            k <= cs@.len(),
            out@ == case_stmts(*t, cs@.take(k as int)),
            forall|q: int| 0 <= q < out@.len() ==> c < #[trigger] out@[q] < t.len(),
        decreases cs@.len() - k,
    {
        let x = cs[k];
        assert(c < x < t.len()) by {
            assert(t.nodes@[c as int].children@[k as int] == x);
        }
        assert(cs@.take(k + 1).drop_last() =~= cs@.take(k as int));
        let skip = noise(t.node_kind(x), Noise::CaseHead) || (t.kind_is(x, "switch_case")
            && t.field_child(x, "value").is_some());
        if !skip {
            out.push(x);
        }
        k = k + 1;
    }
    assert(cs@.take(k as int) =~= cs@);
    out
}

/// Whether `n` ends the flow: a jump, or a block whose last statement does.
pub open spec fn ends_flow(t: SyntaxTree, n: int) -> bool
    decreases t.len() - n,
{
    let k = t.kind(n);
    if k == "break_statement"@ || k == "return_statement"@ || k == "throw_statement"@
        || k == "continue_statement"@ {
        true
    } else if k == "statement_block"@ || k == "block"@ {
        let ks = kids_except(t, n, Noise::CloseComment);
        ks.len() > 0 && n < ks.last() < t.len() && ends_flow(t, ks.last() as int)
    } else {
        false
    }
}

fn ends_flow_exec(t: &SyntaxTree, n: usize) -> (r: bool)
    requires
        t.wf(),
        n < t.len(),
    ensures
        r == ends_flow(*t, n as int),
    decreases t.len() - n,
{
    let k = t.node_kind(n);
    if str_eq(k, "break_statement") || str_eq(k, "return_statement") || str_eq(k, "throw_statement")
        || str_eq(k, "continue_statement") {
        true
    } else if str_eq(k, "statement_block") || str_eq(k, "block") {
        let ks = kids_except_exec(t, n, Noise::CloseComment);
        if ks.len() == 0 {
            false
        } else {
            ends_flow_exec(t, ks[ks.len() - 1])
        }
    } else {
        false
    }
}

/// Each case of `cs` that has statements and does not end the flow.
pub open spec fn falling_cases(t: SyntaxTree, cs: Seq<usize>) -> Seq<HitView>
    decreases cs.len(),
{
    if cs.len() == 0 {
        seq![]
    } else {
        let c = cs.last() as int;
        let st = case_stmts(t, t.children(c));
        falling_cases(t, cs.drop_last()) + hit_if(
            t.kind(c) == "switch_case"@ && st.len() > 0 && !ends_flow(t, st.last() as int),
            t,
            c,
            "no-fallthrough"@,
            "Expected break, return, or throw before next case"@,
        )
    }
}

/// `no-fallthrough`: a case with statements that runs on into the next.
pub open spec fn no_fallthrough_hits(t: SyntaxTree, i: int) -> Seq<HitView> {
    if t.kind(i) == "switch_body"@ {
        falling_cases(t, t.children(i))
    } else {
        seq![]
    }
}

pub fn no_fallthrough_at(t: &SyntaxTree, i: usize, ctx: &mut Ctx)
    requires
        t.wf(),
        i < t.len(),
        old(ctx).wf(),
    ensures
        final(ctx).grew(*old(ctx), no_fallthrough_hits(*t, i as int)),
{
    if !t.kind_is(i, "switch_body") {
        return;
    }
    let ghost start = *ctx;
    let cs = &t.nodes[i].children;
    let mut k: usize = 0;
    while k < cs.len()
        invariant
            t.wf(),
            i < t.len(),
            cs@ == t.children(i as int),
            k <= cs@.len(),
            ctx.grew(start, falling_cases(*t, cs@.take(k as int))),
        decreases cs@.len() - k,
    {
        let c = cs[k];
        assert(i < c < t.len()) by {
            assert(t.nodes@[i as int].children@[k as int] == c);
        }
        assert(cs@.take(k + 1).drop_last() =~= cs@.take(k as int));
        assert(cs@.take(k + 1).last() == c);
        if t.kind_is(c, "switch_case") {
            let st = case_stmts_exec(t, c);
            if st.len() > 0 && !ends_flow_exec(t, st[st.len() - 1]) {
                ctx.report(
                    t,
                    c,
                    "no-fallthrough",
                    "Expected break, return, or throw before next case".to_owned(),
                );
            }
        }
        k = k + 1;
    }
    assert(cs@.take(k as int) =~= cs@);
}

/// `no-self-compare`: an identifier compared with itself.
pub open spec fn no_self_compare_hits(t: SyntaxTree, i: int) -> Seq<HitView> {
    let ops = operands(t, i);
    let l = ops.unwrap().0 as int;
    let r = ops.unwrap().1 as int;
    hit_if(
        t.kind(i) == "binary_expression"@ && t.child_by_field(i, "operator"@) is Some
            && is_comparison_op(op_text(t, i)) && ops is Some && t.text(l) == t.text(r) && t.kind(l)
            == "identifier"@,
        t,
        i,
        "no-self-compare"@,
        "Comparing '"@ + t.text(l) + "' to itself"@,
    )
}

pub fn no_self_compare_at(t: &SyntaxTree, i: usize, ctx: &mut Ctx)
    requires
        t.wf(),
        i < t.len(),
        old(ctx).wf(),
    ensures
        final(ctx).grew(*old(ctx), no_self_compare_hits(*t, i as int)),
{
    if !t.kind_is(i, "binary_expression") {
        return;
    }
    if let Some(o) = operator_text(t, i) {
        if is_comparison_op_exec(o) {
            if let Some((l, r)) = operands_exec(t, i) {
                if t.same_text(l, r) && t.kind_is(l, "identifier") {
                    let msg = cat3("Comparing '", t.node_text(l), "' to itself");
                    ctx.report(t, i, "no-self-compare", msg);
                }
            }
        }
    }
}

/// `no-useless-catch`: a catch clause whose only statement re-throws the
/// caught error.
pub open spec fn no_useless_catch_hits(t: SyntaxTree, i: int) -> Seq<HitView> {
    let param = t.child_by_field(i, "parameter"@);
    let body = t.child_by_field(i, "body"@);
    let stmts = kids_except(t, body.unwrap() as int, Noise::BracesComment);
    let thrown = kids_except(t, stmts[0] as int, Noise::ThrowSemi);
    hit_if(
        t.kind(i) == "catch_clause"@ && param is Some && body is Some && stmts.len() == 1 && t.kind(
            stmts[0] as int,
        ) == "throw_statement"@ && thrown.len() == 1 && t.kind(thrown[0] as int) == "identifier"@
            && t.text(thrown[0] as int) == t.text(param.unwrap() as int),
        t,
        i,
        "no-useless-catch"@,
        "Unnecessary catch clause that only re-throws the caught error"@,
    )
}

pub fn no_useless_catch_at(t: &SyntaxTree, i: usize, ctx: &mut Ctx)
    requires
        t.wf(),
        i < t.len(),
        old(ctx).wf(),
    ensures
        final(ctx).grew(*old(ctx), no_useless_catch_hits(*t, i as int)),
{
    if !t.kind_is(i, "catch_clause") {
        return;
    }
    if let (Some(p), Some(b)) = (t.field_child(i, "parameter"), t.field_child(i, "body")) {
        let stmts = kids_except_exec(t, b, Noise::BracesComment);
        if stmts.len() == 1 && t.kind_is(stmts[0], "throw_statement") {
            let thrown = kids_except_exec(t, stmts[0], Noise::ThrowSemi);
            if thrown.len() == 1 && t.kind_is(thrown[0], "identifier") && t.same_text(thrown[0], p) {
                ctx.report(
                    t,
                    i,
                    "no-useless-catch",
                    "Unnecessary catch clause that only re-throws the caught error".to_owned(),
                );
            }
        }
    }
}

/// The identifier `NaN`.
pub open spec fn is_nan_ident(t: SyntaxTree, n: int) -> bool {
    t.kind(n) == "identifier"@ && t.text(n) == "NaN"@
}

/// `use-isnan`: an equality comparison with `NaN`.
pub open spec fn use_isnan_hits(t: SyntaxTree, i: int) -> Seq<HitView> {
    let ops = operands(t, i);
    hit_if(
        t.kind(i) == "binary_expression"@ && t.child_by_field(i, "operator"@) is Some
            && is_equality_op(op_text(t, i)) && ops is Some && (is_nan_ident(t, ops.unwrap().0 as int)
            || is_nan_ident(t, ops.unwrap().1 as int)),
        t,
        i,
        "use-isnan"@,
        "Use Number.isNaN() instead of comparison with NaN"@,
    )
}

pub fn use_isnan_at(t: &SyntaxTree, i: usize, ctx: &mut Ctx)
    requires
        t.wf(),
        i < t.len(),
        old(ctx).wf(),
    ensures
        final(ctx).grew(*old(ctx), use_isnan_hits(*t, i as int)),
{
    if !t.kind_is(i, "binary_expression") {
        return;
    }
    if let Some(o) = operator_text(t, i) {
        if is_equality_op_exec(o) {
            if let Some((l, r)) = operands_exec(t, i) {
                let nan_l = t.kind_is(l, "identifier") && t.text_is(l, "NaN");
                let nan_r = t.kind_is(r, "identifier") && t.text_is(r, "NaN");
                if nan_l || nan_r {
                    ctx.report(
                        t,
                        i,
                        "use-isnan",
                        "Use Number.isNaN() instead of comparison with NaN".to_owned(),
                    );
                }
            }
        }
    }
}

/// The expression `-0`.
pub open spec fn is_neg_zero(t: SyntaxTree, n: int) -> bool {
    let arg = t.child_by_field(n, "argument"@);
    t.kind(n) == "unary_expression"@ && text_of_is(t, t.child_by_field(n, "operator"@), "-"@)
        && kind_of_is(t, arg, "number"@) && text_of_is(t, arg, "0"@)
}

fn is_neg_zero_exec(t: &SyntaxTree, n: usize) -> (r: bool)
    requires
        t.wf(),
        n < t.len(),
    ensures
        r == is_neg_zero(*t, n as int),
{
    if !t.kind_is(n, "unary_expression") {
        return false;
    }
    let arg = t.field_child(n, "argument");
    opt_text_is(t, t.field_child(n, "operator"), "-") && opt_kind_is(t, arg, "number")
        && opt_text_is(t, arg, "0")
}

/// `no-compare-neg-zero`: a comparison with `-0`.
pub open spec fn no_compare_neg_zero_hits(t: SyntaxTree, i: int) -> Seq<HitView> {
    let ops = operands(t, i);
    hit_if(
        t.kind(i) == "binary_expression"@ && t.child_by_field(i, "operator"@) is Some
            && is_comparison_op(op_text(t, i)) && ops is Some && (is_neg_zero(t, ops.unwrap().0 as int)
            || is_neg_zero(t, ops.unwrap().1 as int)),
        t,
        i,
        "no-compare-neg-zero"@,
        "Do not compare against -0, use Object.is(x, -0) instead"@,
    )
}

pub fn no_compare_neg_zero_at(t: &SyntaxTree, i: usize, ctx: &mut Ctx)
    requires
        t.wf(),
        i < t.len(),
        old(ctx).wf(),
    ensures
        final(ctx).grew(*old(ctx), no_compare_neg_zero_hits(*t, i as int)),
{
    if !t.kind_is(i, "binary_expression") {
        return;
    }
    if let Some(o) = operator_text(t, i) {
        if is_comparison_op_exec(o) {
            if let Some((l, r)) = operands_exec(t, i) {
                if is_neg_zero_exec(t, l) || is_neg_zero_exec(t, r) {
                    ctx.report(
                        t,
                        i,
                        "no-compare-neg-zero",
                        "Do not compare against -0, use Object.is(x, -0) instead".to_owned(),
                    );
                }
            }
        }
    }
}

/// `no-unsafe-negation`: `!a in b` or `!a instanceof B`.
pub open spec fn no_unsafe_negation_hits(t: SyntaxTree, i: int) -> Seq<HitView> {
    let o = op_text(t, i);
    let left = t.child_by_field(i, "left"@);
    hit_if(
        t.kind(i) == "binary_expression"@ && t.child_by_field(i, "operator"@) is Some && (o == "in"@
            || o == "instanceof"@) && kind_of_is(t, left, "unary_expression"@) && text_of_is(
            t,
            t.child_by_field(left.unwrap() as int, "operator"@),
            "!"@,
        ),
        t,
        i,
        "no-unsafe-negation"@,
        "Unexpected negation of left operand of '"@ + o + "' operator"@,
    )
}

pub fn no_unsafe_negation_at(t: &SyntaxTree, i: usize, ctx: &mut Ctx)
    requires
        t.wf(),
        i < t.len(),
        old(ctx).wf(),
    ensures
        final(ctx).grew(*old(ctx), no_unsafe_negation_hits(*t, i as int)),
{
    if !t.kind_is(i, "binary_expression") {
        return;
    }
    if let Some(o) = operator_text(t, i) {
        if str_eq(o, "in") || str_eq(o, "instanceof") {
            let left = t.field_child(i, "left");
            if opt_kind_is(t, left, "unary_expression") {
                if opt_text_is(t, t.field_child(left.unwrap(), "operator"), "!") {
                    let msg = cat3("Unexpected negation of left operand of '", o, "' operator");
                    ctx.report(t, i, "no-unsafe-negation", msg);
                }
            }
        }
    }
}

/// Whether node `j` or one of its ancestors, below the nearest function
/// boundary, is a method named `constructor`.
pub open spec fn in_constructor(t: SyntaxTree, j: int) -> bool
    decreases j,
{
    if 0 <= j < t.len() {
        let k = t.kind(j);
        if k == "method_definition"@ {
            text_of_is(t, t.child_by_field(j, "name"@), "constructor"@)
        } else if k == "function_declaration"@ || k == "function"@ || k == "arrow_function"@ || k
            == "function_expression"@ {
            false
        } else {
            match t.parent(j) {
                Some(p) => p < j && in_constructor(t, p as int),
                None => false,
            }
        }
    } else {
        false
    }
}

fn in_constructor_exec(t: &SyntaxTree, j: usize) -> (r: bool)
    requires
        t.wf(),
        j < t.len(),
    ensures
        r == in_constructor(*t, j as int),
    decreases j,
{
    let k = t.node_kind(j);
    if str_eq(k, "method_definition") {
        opt_text_is(t, t.field_child(j, "name"), "constructor")
    } else if str_eq(k, "function_declaration") || str_eq(k, "function") || str_eq(
        k,
        "arrow_function",
    ) || str_eq(k, "function_expression") {
        false
    } else {
        match t.node_parent(j) {
            Some(p) => {
                assert(t.nodes@[j as int].parent == Some(p));
                in_constructor_exec(t, p)
            },
            None => false,
        }
    }
}

/// `no-constructor-return`: a `return` with a value inside a constructor.
pub open spec fn no_constructor_return_hits(t: SyntaxTree, i: int) -> Seq<HitView> {
    hit_if(
        t.kind(i) == "return_statement"@ && kids_except(t, i, Noise::ReturnSemi).len() > 0 && match t.parent(i) {
            Some(p) => p < i && in_constructor(t, p as int),
            None => false,
        },
        t,
        i,
        "no-constructor-return"@,
        "Unexpected return statement in constructor"@,
    )
}

pub fn no_constructor_return_at(t: &SyntaxTree, i: usize, ctx: &mut Ctx)
    requires
        t.wf(),
        i < t.len(),
        old(ctx).wf(),
    ensures
        final(ctx).grew(*old(ctx), no_constructor_return_hits(*t, i as int)),
{
    if !t.kind_is(i, "return_statement") || kids_except_exec(t, i, Noise::ReturnSemi).len() == 0 {
        return;
    }
    if let Some(p) = t.node_parent(i) {
        assert(t.nodes@[i as int].parent == Some(p));
        if in_constructor_exec(t, p) {
            ctx.report(
                t,
                i,
                "no-constructor-return",
                "Unexpected return statement in constructor".to_owned(),
            );
        }
    }
}

/// A `typeof` expression, in either grammar's spelling.
pub open spec fn is_typeof(t: SyntaxTree, n: int) -> bool {
    t.kind(n) == "typeof_expression"@ || (t.kind(n) == "unary_expression"@ && text_of_is(
        t,
        t.child_by_field(n, "operator"@),
        "typeof"@,
    ))
}

pub open spec fn is_quote(c: char) -> bool {
    c == '"' || c == '\'' || c == '`'
}

pub open spec fn trim_front(s: Seq<char>) -> Seq<char>
    decreases s.len(),
{
    if s.len() > 0 && is_quote(s[0]) {
        trim_front(s.drop_first())
    } else {
        s
    }
}

pub open spec fn trim_back(s: Seq<char>) -> Seq<char>
    decreases s.len(),
{
    if s.len() > 0 && is_quote(s.last()) {
        trim_back(s.drop_last())
    } else {
        s
    }
}

/// A string literal's text with the quote characters at both ends removed.
pub open spec fn unquoted(s: Seq<char>) -> Seq<char> {
    trim_back(trim_front(s))
}

/// The names `typeof` can produce.
pub open spec fn is_typeof_name(s: Seq<char>) -> bool {
    s == "undefined"@ || s == "object"@ || s == "boolean"@ || s == "number"@ || s == "string"@
        || s == "function"@ || s == "symbol"@ || s == "bigint"@
}

fn unquoted_exec(s: &str) -> (r: Vec<char>)
    ensures
        r@ == unquoted(s@),
{
    let v = chars_of(s);
    let n = v.len();
    let mut lo: usize = 0;
    assert(v@.subrange(0, n as int) =~= v@);
    while lo < n && (v[lo] == '"' || v[lo] == '\'' || v[lo] == '`')
        invariant
            n == v@.len(),
            v@ == s@,
            lo <= n,
            trim_front(v@) == trim_front(v@.subrange(lo as int, n as int)),
        decreases n - lo,
    {
        assert(v@.subrange(lo as int, n as int).drop_first() =~= v@.subrange(lo + 1, n as int));
        lo = lo + 1;
    }
    assert(trim_front(v@) == v@.subrange(lo as int, n as int));
    let mut hi: usize = n;
    while hi > lo && (v[hi - 1] == '"' || v[hi - 1] == '\'' || v[hi - 1] == '`')
        invariant
            n == v@.len(),
            lo <= hi <= n,
            trim_back(v@.subrange(lo as int, n as int)) == trim_back(v@.subrange(lo as int, hi as int)),
        decreases hi - lo,
    {
        assert(v@.subrange(lo as int, hi as int).drop_last() =~= v@.subrange(lo as int, hi - 1));
        hi = hi - 1;
    }
    let mut out: Vec<char> = Vec::new();
    let mut k = lo;
    while k < hi
        invariant
            n == v@.len(),
            lo <= k <= hi <= n,
            out@ =~= v@.subrange(lo as int, k as int),
        decreases hi - k,
    {
        out.push(v[k]);
        k = k + 1;
    }
    out
}

fn is_typeof_name_exec(s: &Vec<char>) -> (r: bool)
    ensures
        r == is_typeof_name(s@),
{
    chars_eq(s, &chars_of("undefined")) || chars_eq(s, &chars_of("object")) || chars_eq(
        s,
        &chars_of("boolean"),
    ) || chars_eq(s, &chars_of("number")) || chars_eq(s, &chars_of("string")) || chars_eq(
        s,
        &chars_of("function"),
    ) || chars_eq(s, &chars_of("symbol")) || chars_eq(s, &chars_of("bigint"))
}

/// `typeof` on side `a`, compared with a string that is no type name on side `b`.
pub open spec fn bad_typeof_pair(t: SyntaxTree, a: int, b: int) -> bool {
    is_typeof(t, a) && t.kind(b) == "string"@ && !is_typeof_name(unquoted(t.text(b)))
}

fn bad_typeof_pair_exec(t: &SyntaxTree, a: usize, b: usize) -> (r: bool)
    requires
        t.wf(),
        a < t.len(),
        b < t.len(),
    ensures
        r == bad_typeof_pair(*t, a as int, b as int),
{
    let typeof_side = t.kind_is(a, "typeof_expression") || (t.kind_is(a, "unary_expression")
        && opt_text_is(t, t.field_child(a, "operator"), "typeof"));
    typeof_side && t.kind_is(b, "string") && !is_typeof_name_exec(&unquoted_exec(t.node_text(b)))
}

/// `valid-typeof`: `typeof x` compared with a string no `typeof` produces.
pub open spec fn valid_typeof_hits(t: SyntaxTree, i: int) -> Seq<HitView> {
    let ops = operands(t, i);
    let l = ops.unwrap().0 as int;
    let r = ops.unwrap().1 as int;
    hit_if(
        t.kind(i) == "binary_expression"@ && t.child_by_field(i, "operator"@) is Some
            && is_equality_op(op_text(t, i)) && ops is Some && (bad_typeof_pair(t, l, r)
            || bad_typeof_pair(t, r, l)),
        t,
        i,
        "valid-typeof"@,
        "Invalid typeof comparison value"@,
    )
}

pub fn valid_typeof_at(t: &SyntaxTree, i: usize, ctx: &mut Ctx)
    requires
        t.wf(),
        i < t.len(),
        old(ctx).wf(),
    ensures
        final(ctx).grew(*old(ctx), valid_typeof_hits(*t, i as int)),
{
    if !t.kind_is(i, "binary_expression") {
        return;
    }
    if let Some(o) = operator_text(t, i) {
        if is_equality_op_exec(o) {
            if let Some((l, r)) = operands_exec(t, i) {
                if bad_typeof_pair_exec(t, l, r) || bad_typeof_pair_exec(t, r, l) {
                    ctx.report(t, i, "valid-typeof", "Invalid typeof comparison value".to_owned());
                }
            }
        }
    }
}

/// A `typeof` expression compared by `==`, `!=`, `===` or `!==` with a
/// string literal, on either side, is reported exactly when the literal's
/// content is none of the names that `typeof` produces.
pub proof fn typeof_compared_with_a_string_is_reported_unless_a_type_name(t: SyntaxTree, i: int, o: usize, s: usize)
    requires
        t.kind(i) == "binary_expression"@,
        t.child_by_field(i, "operator"@) is Some,
        is_equality_op(op_text(t, i)),
        operands(t, i) == Some((o, s)) || operands(t, i) == Some((s, o)),
        is_typeof(t, o as int),
        t.kind(s as int) == "string"@,
    ensures
        valid_typeof_hits(t, i).len() == (if is_typeof_name(unquoted(t.text(s as int))) {
            0int
        } else {
            1int
        }),
        valid_typeof_hits(t, i).len() == 1 ==> valid_typeof_hits(t, i)[0].2 == "valid-typeof"@,
{
    reveal_strlit("string");
    reveal_strlit("typeof_expression");
    reveal_strlit("unary_expression");
    assert("string"@.len() != "typeof_expression"@.len());
    assert("string"@.len() != "unary_expression"@.len());
    assert(!is_typeof(t, s as int));
}

/// `no-useless-rename`: `import { a as a }` or `const { a: a } = ...`.
pub open spec fn no_useless_rename_hits(t: SyntaxTree, i: int) -> Seq<HitView> {
    if t.kind(i) == "import_specifier"@ {
        let n = t.child_by_field(i, "name"@);
        let a = t.child_by_field(i, "alias"@);
        let nt = t.text(n.unwrap() as int);
        hit_if(
            n is Some && a is Some && nt == t.text(a.unwrap() as int),
            t,
            i,
            "no-useless-rename"@,
            "Useless rename: '"@ + nt + "' is renamed to itself"@,
        )
    } else if t.kind(i) == "pair_pattern"@ {
        let k = t.child_by_field(i, "key"@);
        let v = t.child_by_field(i, "value"@);
        let kt = t.text(k.unwrap() as int);
        hit_if(
            kind_of_is(t, k, "property_identifier"@) && kind_of_is(t, v, "identifier"@) && kt
                == t.text(v.unwrap() as int),
            t,
            i,
            "no-useless-rename"@,
            "Useless rename: '"@ + kt + "' is destructured to itself"@,
        )
    } else {
        seq![]
    }
}

pub fn no_useless_rename_at(t: &SyntaxTree, i: usize, ctx: &mut Ctx)
    requires
        t.wf(),
        i < t.len(),
        old(ctx).wf(),
    ensures
        final(ctx).grew(*old(ctx), no_useless_rename_hits(*t, i as int)),
{
    if t.kind_is(i, "import_specifier") {
        if let (Some(n), Some(a)) = (t.field_child(i, "name"), t.field_child(i, "alias")) {
            if t.same_text(n, a) {
                let msg = cat3("Useless rename: '", t.node_text(n), "' is renamed to itself");
                ctx.report(t, i, "no-useless-rename", msg);
            }
        }
    } else if t.kind_is(i, "pair_pattern") {
        let k = t.field_child(i, "key");
        let v = t.field_child(i, "value");
        if opt_kind_is(t, k, "property_identifier") && opt_kind_is(t, v, "identifier") {
            if t.same_text(k.unwrap(), v.unwrap()) {
                let msg = cat3(
                    "Useless rename: '",
                    t.node_text(k.unwrap()),
                    "' is destructured to itself",
                );
                ctx.report(t, i, "no-useless-rename", msg);
            }
        }
    }
}

/// `no-empty-pattern`: `const {} = x` or `const [] = x`.
pub open spec fn no_empty_pattern_hits(t: SyntaxTree, i: int) -> Seq<HitView> {
    let what = if t.kind(i) == "object_pattern"@ { "object"@ } else { "array"@ };
    hit_if(
        (t.kind(i) == "object_pattern"@ || t.kind(i) == "array_pattern"@) && kids_except(
            t,
            i,
            Noise::PatternPunct,
        ).len() == 0,
        t,
        i,
        "no-empty-pattern"@,
        "Empty "@ + what + " destructuring pattern"@,
    )
}

pub fn no_empty_pattern_at(t: &SyntaxTree, i: usize, ctx: &mut Ctx)
    requires
        t.wf(),
        i < t.len(),
        old(ctx).wf(),
    ensures
        final(ctx).grew(*old(ctx), no_empty_pattern_hits(*t, i as int)),
{
    let object = t.kind_is(i, "object_pattern");
    if (object || t.kind_is(i, "array_pattern")) && kids_except_exec(t, i, Noise::PatternPunct).len()
        == 0 {
        let what = if object { "object" } else { "array" };
        ctx.report(t, i, "no-empty-pattern", cat3("Empty ", what, " destructuring pattern"));
    }
}

} // verus!
