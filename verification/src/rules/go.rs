//! Rules for Go.
use vstd::prelude::*;
use crate::lint::{Ctx, HitView, hit, hit_if, hits_each, report_each};
use crate::rules::common::{
    Enclosing, FlowStyle, Noise, ReturnSearch, returns_kids, returns_kids_exec, cat3, inside, inside_exec, kids_except, kids_except_exec,
    kind_of_is, opt_kind_is, opt_text_is, text_of_is, trim_ws, trim_ws_exec, unreachable_after,
    unreachable_exec,
};
use crate::syntax::SyntaxTree;
use crate::text::{after_last, chars_after_last, chars_eq, chars_of, str_eq};

verus! {

/// The callee of a call expression, when `i` is one.
pub open spec fn callee(t: SyntaxTree, i: int) -> Option<usize> {
    if t.kind(i) == "call_expression"@ {
        t.child_by_field(i, "function"@)
    } else {
        None
    }
}

fn callee_exec(t: &SyntaxTree, i: usize) -> (r: Option<usize>)
    requires
        t.wf(),
        i < t.len(),
    ensures
        r == callee(*t, i as int),
        r matches Some(c) ==> c < t.len(),
{
    if t.kind_is(i, "call_expression") {
        t.field_child(i, "function")
    } else {
        None
    }
}

/// `pkg` and `name` of a call `pkg.name(...)`.
pub open spec fn selector_call(t: SyntaxTree, i: int) -> Option<(usize, usize)> {
    let f = callee(t, i);
    if kind_of_is(t, f, "selector_expression"@) {
        match (t.child_by_field(f.unwrap() as int, "operand"@), t.child_by_field(f.unwrap() as int, "field"@)) {
            (Some(o), Some(n)) => Some((o, n)),
            _ => None,
        }
    } else {
        None
    }
}

fn selector_call_exec(t: &SyntaxTree, i: usize) -> (r: Option<(usize, usize)>)
    requires
        t.wf(),
        i < t.len(),
    ensures
        r == selector_call(*t, i as int),
        r matches Some((o, n)) ==> o < t.len() && n < t.len(),
{
    let f = callee_exec(t, i);
    if opt_kind_is(t, f, "selector_expression") {
        let g = f.unwrap();
        match (t.field_child(g, "operand"), t.field_child(g, "field")) {
            (Some(o), Some(n)) => Some((o, n)),
            _ => None,
        }
    } else {
        None
    }
}

/// `no-panic`: a bare `panic(...)`.
pub open spec fn no_panic_hits(t: SyntaxTree, i: int) -> Seq<HitView> {
    let f = callee(t, i);
    hit_if(
        kind_of_is(t, f, "identifier"@) && text_of_is(t, f, "panic"@),
        t,
        i,
        "no-panic"@,
        "Avoid bare `panic()`, return an error instead"@,
    )
}

pub fn no_panic_at(t: &SyntaxTree, i: usize, ctx: &mut Ctx)
    requires
        t.wf(),
        i < t.len(),
        old(ctx).wf(),
    ensures
        final(ctx).grew(*old(ctx), no_panic_hits(*t, i as int)),
{
    let f = callee_exec(t, i);
    if opt_kind_is(t, f, "identifier") && opt_text_is(t, f, "panic") {
        ctx.report(t, i, "no-panic", "Avoid bare `panic()`, return an error instead".to_owned());
    }
}

pub open spec fn is_fmt_print(s: Seq<char>) -> bool {
    s == "Println"@ || s == "Printf"@ || s == "Print"@ || s == "Fprintf"@ || s == "Fprintln"@
}

/// `no-fmt-print`: a `fmt` printing call.
pub open spec fn no_fmt_print_hits(t: SyntaxTree, i: int) -> Seq<HitView> {
    let sc = selector_call(t, i);
    let method = t.text(sc.unwrap().1 as int);
    hit_if(
        sc is Some && t.text(sc.unwrap().0 as int) == "fmt"@ && is_fmt_print(method),
        t,
        i,
        "no-fmt-print"@,
        "Avoid `fmt."@ + method + "()`, use a structured logger"@,
    )
}

pub fn no_fmt_print_at(t: &SyntaxTree, i: usize, ctx: &mut Ctx)
    requires
        t.wf(),
        i < t.len(),
        old(ctx).wf(),
    ensures
        final(ctx).grew(*old(ctx), no_fmt_print_hits(*t, i as int)),
{
    if let Some((o, n)) = selector_call_exec(t, i) {
        let method = t.node_text(n);
        if t.text_is(o, "fmt") && (str_eq(method, "Println") || str_eq(method, "Printf") || str_eq(
            method,
            "Print",
        ) || str_eq(method, "Fprintf") || str_eq(method, "Fprintln")) {
            ctx.report(t, i, "no-fmt-print", cat3("Avoid `fmt.", method, "()`, use a structured logger"));
        }
    }
}

/// `no-ignored-error`: an assignment to `_`.
pub open spec fn no_ignored_error_hits(t: SyntaxTree, i: int) -> Seq<HitView> {
    let left = t.child_by_field(i, "left"@);
    hit_if(
        t.kind(i) == "assignment_statement"@ && left is Some && trim_ws(t.text(left.unwrap() as int))
            == "_"@,
        t,
        i,
        "no-ignored-error"@,
        "Error return value is explicitly ignored with `_`"@,
    )
}

pub fn no_ignored_error_at(t: &SyntaxTree, i: usize, ctx: &mut Ctx)
    requires
        t.wf(),
        i < t.len(),
        old(ctx).wf(),
    ensures
        final(ctx).grew(*old(ctx), no_ignored_error_hits(*t, i as int)),
{
    if t.kind_is(i, "assignment_statement") {
        if let Some(l) = t.field_child(i, "left") {
            if str_eq(trim_ws_exec(t.node_text(l)), "_") {
                ctx.report(
                    t,
                    i,
                    "no-ignored-error",
                    "Error return value is explicitly ignored with `_`".to_owned(),
                );
            }
        }
    }
}

/// `no-os-exit`: a call of `os.Exit`.
pub open spec fn no_os_exit_hits(t: SyntaxTree, i: int) -> Seq<HitView> {
    let sc = selector_call(t, i);
    hit_if(
        sc is Some && t.text(sc.unwrap().0 as int) == "os"@ && t.text(sc.unwrap().1 as int) == "Exit"@,
        t,
        i,
        "no-os-exit"@,
        "Avoid `os.Exit()`, return an error instead"@,
    )
}

pub fn no_os_exit_at(t: &SyntaxTree, i: usize, ctx: &mut Ctx)
    requires
        t.wf(),
        i < t.len(),
        old(ctx).wf(),
    ensures
        final(ctx).grew(*old(ctx), no_os_exit_hits(*t, i as int)),
{
    if let Some((o, n)) = selector_call_exec(t, i) {
        if t.text_is(o, "os") && t.text_is(n, "Exit") {
            ctx.report(t, i, "no-os-exit", "Avoid `os.Exit()`, return an error instead".to_owned());
        }
    }
}

/// `no-defer-in-loop`: a `defer` inside a loop of the same function.
pub open spec fn no_defer_in_loop_hits(t: SyntaxTree, i: int) -> Seq<HitView> {
    hit_if(
        t.kind(i) == "defer_statement"@ && inside(t, i, Enclosing::GoLoop),
        t,
        i,
        "no-defer-in-loop"@,
        "Avoid `defer` inside a loop; deferred calls accumulate until function returns"@,
    )
}

pub fn no_defer_in_loop_at(t: &SyntaxTree, i: usize, ctx: &mut Ctx)
    requires
        t.wf(),
        i < t.len(),
        old(ctx).wf(),
    ensures
        final(ctx).grew(*old(ctx), no_defer_in_loop_hits(*t, i as int)),
{
    if t.kind_is(i, "defer_statement") && inside_exec(t, i, Enclosing::GoLoop) {
        ctx.report(
            t,
            i,
            "no-defer-in-loop",
            "Avoid `defer` inside a loop; deferred calls accumulate until function returns".to_owned(),
        );
    }
}

/// The block an `if` or `for` runs.
pub open spec fn guarded_block(t: SyntaxTree, i: int) -> Option<usize> {
    if t.kind(i) == "if_statement"@ {
        t.child_by_field(i, "consequence"@)
    } else if t.kind(i) == "for_statement"@ {
        t.child_by_field(i, "body"@)
    } else {
        None
    }
}

/// `no-empty-block`: an `if` or `for` whose block has no statements.
pub open spec fn no_empty_block_hits(t: SyntaxTree, i: int) -> Seq<HitView> {
    let b = guarded_block(t, i);
    hit_if(
        kind_of_is(t, b, "block"@) && t.child_by_kind(b.unwrap() as int, "statement_list"@) is None,
        t,
        i,
        "no-empty-block"@,
        "Empty `"@ + t.kind(i) + "` block"@,
    )
}

pub fn no_empty_block_at(t: &SyntaxTree, i: usize, ctx: &mut Ctx)
    requires
        t.wf(),
        i < t.len(),
        old(ctx).wf(),
    ensures
        final(ctx).grew(*old(ctx), no_empty_block_hits(*t, i as int)),
{
    let b = if t.kind_is(i, "if_statement") {
        t.field_child(i, "consequence")
    } else if t.kind_is(i, "for_statement") {
        t.field_child(i, "body")
    } else {
        None
    };
    if opt_kind_is(t, b, "block") && t.kind_child(b.unwrap(), "statement_list").is_none() {
        ctx.report(t, i, "no-empty-block", cat3("Empty `", t.node_kind(i), "` block"));
    }
}

/// `no-unreachable`: a statement after `return`, `break` or `continue` in
/// the same statement list; the first of them, once per list.
pub open spec fn no_unreachable_hits(t: SyntaxTree, i: int) -> Seq<HitView> {
    if t.kind(i) == "statement_list"@ {
        hits_each(
            t,
            unreachable_after(t, t.children(i), false, FlowStyle::Go),
            "no-unreachable"@,
            "Unreachable code detected"@,
        )
    } else {
        seq![]
    }
}

pub fn no_unreachable_at(t: &SyntaxTree, i: usize, ctx: &mut Ctx)
    requires
        t.wf(),
        i < t.len(),
        old(ctx).wf(),
    ensures
        final(ctx).grew(*old(ctx), no_unreachable_hits(*t, i as int)),
{
    if t.kind_is(i, "statement_list") {
        let dead = unreachable_exec(t, i, FlowStyle::Go);
        report_each(ctx, t, &dead, "no-unreachable", "Unreachable code detected");
    }
}

/// Whether a parameter declaration among `cs` has a name.
pub open spec fn has_named_param(t: SyntaxTree, cs: Seq<usize>) -> bool
    decreases cs.len(),
{
    if cs.len() == 0 {
        false
    } else {
        (t.kind(cs[0] as int) == "parameter_declaration"@ && t.child_by_field(cs[0] as int, "name"@) is Some)
            || has_named_param(t, cs.drop_first())
    }
}

fn has_named_result_exec(t: &SyntaxTree, r: usize) -> (b: bool)
    requires
        t.wf(),
        r < t.len(),
    ensures
        b == has_named_param(*t, t.children(r as int)),
{
    let cs = &t.nodes[r].children;
    let mut k: usize = 0;
    assert(cs@.skip(0) =~= cs@);
    while k < cs.len()
        invariant
            t.wf(),
            r < t.len(),
            cs@ == t.children(r as int),
            k <= cs@.len(),
            has_named_param(*t, cs@) == has_named_param(*t, cs@.skip(k as int)),
        decreases cs@.len() - k,
    {
        let c = cs[k];
        assert(r < c < t.len()) by {
            assert(t.nodes@[r as int].children@[k as int] == c);
        }
        assert(cs@.skip(k as int).drop_first() =~= cs@.skip(k + 1));
        assert(cs@.skip(k as int)[0] == c);
        if t.kind_is(c, "parameter_declaration") && t.field_child(c, "name").is_some() {
            return true;
        }
        k = k + 1;
    }
    false
}

/// `no-naked-return`: a bare `return` in a function with named results.
pub open spec fn no_naked_return_hits(t: SyntaxTree, i: int) -> Seq<HitView> {
    let r = t.child_by_field(i, "result"@);
    let body = t.child_by_field(i, "body"@);
    if (t.kind(i) == "function_declaration"@ || t.kind(i) == "method_declaration"@) && kind_of_is(
        t,
        r,
        "parameter_list"@,
    ) && has_named_param(t, t.children(r.unwrap() as int)) && body is Some {
        returns_kids(t, body.unwrap() as int, 0, ReturnSearch::Bare)
    } else {
        seq![]
    }
}

pub fn no_naked_return_at(t: &SyntaxTree, i: usize, ctx: &mut Ctx)
    requires
        t.wf(),
        i < t.len(),
        old(ctx).wf(),
    ensures
        final(ctx).grew(*old(ctx), no_naked_return_hits(*t, i as int)),
{
    if !(t.kind_is(i, "function_declaration") || t.kind_is(i, "method_declaration")) {
        return;
    }
    let r = t.field_child(i, "result");
    if !opt_kind_is(t, r, "parameter_list") || !has_named_result_exec(t, r.unwrap()) {
        return;
    }
    if let Some(b) = t.field_child(i, "body") {
        returns_kids_exec(t, b, ReturnSearch::Bare, ctx);
    }
}

/// `no-range-over-string`: `for ... range name`.
pub open spec fn no_range_over_string_hits(t: SyntaxTree, i: int) -> Seq<HitView> {
    let rc = t.child_by_kind(i, "range_clause"@);
    let right = t.child_by_field(rc.unwrap() as int, "right"@);
    let name = t.text(right.unwrap() as int);
    hit_if(
        t.kind(i) == "for_statement"@ && rc is Some && kind_of_is(t, right, "identifier"@) && name.len()
            > 0,
        t,
        i,
        "no-range-over-string"@,
        "Iterating over `"@ + name
            + "` with range yields runes, not bytes; ensure this is intentional"@,
    )
}

pub fn no_range_over_string_at(t: &SyntaxTree, i: usize, ctx: &mut Ctx)
    requires
        t.wf(),
        i < t.len(),
        old(ctx).wf(),
    ensures
        final(ctx).grew(*old(ctx), no_range_over_string_hits(*t, i as int)),
{
    if !t.kind_is(i, "for_statement") {
        return;
    }
    if let Some(rc) = t.kind_child(i, "range_clause") {
        let right = t.field_child(rc, "right");
        if opt_kind_is(t, right, "identifier") {
            let name = t.node_text(right.unwrap());
            if name.unicode_len() > 0 {
                let msg = cat3(
                    "Iterating over `",
                    name,
                    "` with range yields runes, not bytes; ensure this is intentional",
                );
                ctx.report(t, i, "no-range-over-string", msg);
            }
        }
    }
}

/// The statements of a Go block: the block's statement list when that is
/// all it holds, else the block's own children.
pub open spec fn block_stmts(t: SyntaxTree, b: int) -> Seq<usize> {
    let stmts = kids_except(t, b, Noise::BracesComment);
    if stmts.len() == 1 && t.kind(stmts[0] as int) == "statement_list"@ {
        t.children(stmts[0] as int)
    } else {
        stmts
    }
}

/// `collapsible-if`: `if a { if b { .. } }` with no `else` on either.
pub open spec fn collapsible_if_hits(t: SyntaxTree, i: int) -> Seq<HitView> {
    let c = t.child_by_field(i, "consequence"@);
    let inner = block_stmts(t, c.unwrap() as int);
    hit_if(
        t.kind(i) == "if_statement"@ && t.child_by_kind(i, "else_clause"@) is None && kind_of_is(
            t,
            c,
            "block"@,
        ) && inner.len() == 1 && t.kind(inner[0] as int) == "if_statement"@ && t.child_by_kind(
            inner[0] as int,
            "else_clause"@,
        ) is None,
        t,
        i,
        "collapsible-if"@,
        "Nested `if` can be merged with `&&`"@,
    )
}

pub fn collapsible_if_at(t: &SyntaxTree, i: usize, ctx: &mut Ctx)
    requires
        t.wf(),
        i < t.len(),
        old(ctx).wf(),
    ensures
        final(ctx).grew(*old(ctx), collapsible_if_hits(*t, i as int)),
{
    if !t.kind_is(i, "if_statement") || t.kind_child(i, "else_clause").is_some() {
        return;
    }
    let c = t.field_child(i, "consequence");
    if !opt_kind_is(t, c, "block") {
        return;
    }
    let stmts = kids_except_exec(t, c.unwrap(), Noise::BracesComment);
    let inner: Option<usize> = if stmts.len() == 1 && t.kind_is(stmts[0], "statement_list") {
        let sl = stmts[0];
        if t.child_count(sl) == 1 {
            t.child(sl, 0)
        } else {
            None
        }
    } else if stmts.len() == 1 {
        Some(stmts[0])
    } else {
        None
    };
    if let Some(n) = inner {
        if t.kind_is(n, "if_statement") && t.kind_child(n, "else_clause").is_none() {
            ctx.report(t, i, "collapsible-if", "Nested `if` can be merged with `&&`".to_owned());
        }
    }
}

pub open spec fn is_go_jump(k: Seq<char>) -> bool {
    k == "return_statement"@ || k == "break_statement"@ || k == "continue_statement"@
}

/// Whether a Go block, read from its last child back, ends with a jump.
pub open spec fn ends_with_jump(t: SyntaxTree, cs: Seq<usize>) -> bool
    decreases cs.len(),
{
    if cs.len() == 0 {
        false
    } else {
        let c = cs.last() as int;
        if t.kind(c) == "statement_list"@ && t.children(c).len() > 0 {
            is_go_jump(t.kind(t.children(c).last() as int))
        } else if is_go_jump(t.kind(c)) {
            true
        } else {
            ends_with_jump(t, cs.drop_last())
        }
    }
}

fn ends_with_jump_exec(t: &SyntaxTree, b: usize) -> (r: bool)
    requires
        t.wf(),
        b < t.len(),
    ensures
        r == ends_with_jump(*t, t.children(b as int)),
{
    let cs = &t.nodes[b].children;
    let mut k = cs.len();
    assert(cs@.take(k as int) =~= cs@);
    while k > 0
        invariant
            t.wf(),
            b < t.len(),
            cs@ == t.children(b as int),
            k <= cs@.len(),
            ends_with_jump(*t, cs@) == ends_with_jump(*t, cs@.take(k as int)),
        decreases k,
    {
        let c = cs[k - 1];
        assert(b < c < t.len()) by {
            assert(t.nodes@[b as int].children@[k - 1] == c);
        }
        assert(cs@.take(k as int).drop_last() =~= cs@.take(k - 1));
        assert(cs@.take(k as int).last() == c);
        let n = t.child_count(c);
        if t.kind_is(c, "statement_list") && n > 0 {
            let last = t.nodes[c].children[n - 1];
            assert(c < last < t.len()) by {
                assert(t.nodes@[c as int].children@[n - 1] == last);
            }
            let lk = t.node_kind(last);
            return str_eq(lk, "return_statement") || str_eq(lk, "break_statement") || str_eq(
                lk,
                "continue_statement",
            );
        }
        let k2 = t.node_kind(c);
        if str_eq(k2, "return_statement") || str_eq(k2, "break_statement") || str_eq(
            k2,
            "continue_statement",
        ) {
            return true;
        }
        k = k - 1;
    }
    false
}

/// `superfluous-else`: an `else` after a block that ends with a jump.
pub open spec fn superfluous_else_hits(t: SyntaxTree, i: int) -> Seq<HitView> {
    let c = t.child_by_field(i, "consequence"@);
    hit_if(
        t.kind(i) == "if_statement"@ && t.child_by_kind(i, "else_clause"@) is Some && c is Some
            && ends_with_jump(t, t.children(c.unwrap() as int)),
        t,
        i,
        "superfluous-else"@,
        "Remove `else` after `return`; dedent the else body"@,
    )
}

pub fn superfluous_else_at(t: &SyntaxTree, i: usize, ctx: &mut Ctx)
    requires
        t.wf(),
        i < t.len(),
        old(ctx).wf(),
    ensures
        final(ctx).grew(*old(ctx), superfluous_else_hits(*t, i as int)),
{
    if !t.kind_is(i, "if_statement") || t.kind_child(i, "else_clause").is_none() {
        return;
    }
    if let Some(c) = t.field_child(i, "consequence") {
        if ends_with_jump_exec(t, c) {
            ctx.report(
                t,
                i,
                "superfluous-else",
                "Remove `else` after `return`; dedent the else body".to_owned(),
            );
        }
    }
}

pub open spec fn trim_dquote_front(s: Seq<char>) -> Seq<char>
    decreases s.len(),
{
    if s.len() > 0 && s[0] == '"' {
        trim_dquote_front(s.drop_first())
    } else {
        s
    }
}

pub open spec fn trim_dquote_back(s: Seq<char>) -> Seq<char>
    decreases s.len(),
{
    if s.len() > 0 && s.last() == '"' {
        trim_dquote_back(s.drop_last())
    } else {
        s
    }
}

/// An import path with its double quotes removed.
pub open spec fn unquoted_path(s: Seq<char>) -> Seq<char> {
    trim_dquote_back(trim_dquote_front(s))
}

fn unquoted_path_exec(s: &str) -> (r: Vec<char>)
    ensures
        r@ == unquoted_path(s@),
{
    let v = chars_of(s);
    let n = v.len();
    let mut lo: usize = 0;
    assert(v@.subrange(0, n as int) =~= v@);
    while lo < n && v[lo] == '"'
        invariant
            n == v@.len(),
            v@ == s@,
            lo <= n,
            trim_dquote_front(v@) == trim_dquote_front(v@.subrange(lo as int, n as int)),
        decreases n - lo,
    {
        assert(v@.subrange(lo as int, n as int).drop_first() =~= v@.subrange(lo + 1, n as int));
        lo = lo + 1;
    }
    let mut hi: usize = n;
    while hi > lo && v[hi - 1] == '"'
        invariant
            n == v@.len(),
            lo <= hi <= n,
            trim_dquote_back(v@.subrange(lo as int, n as int)) == trim_dquote_back(
                v@.subrange(lo as int, hi as int),
            ),
        decreases hi - lo,
    {
        assert(v@.subrange(lo as int, hi as int).drop_last() =~= v@.subrange(lo as int, hi - 1));
        hi = hi - 1;
    }
    let mut out: Vec<char> = Vec::new();
    let mut k = lo;
    while k < hi
        invariant
            n == v@.len(),
            lo <= k <= hi <= n,
            out@ =~= v@.subrange(lo as int, k as int),
        decreases hi - k,
    {
        out.push(v[k]);
        k = k + 1;
    }
    out
}

/// The package name an import spec brings in: its alias (unless `_` or
/// `.`), else the last segment of its path.
pub open spec fn import_name(t: SyntaxTree, c: int) -> Seq<Seq<char>> {
    match t.child_by_field(c, "name"@) {
        Some(n) => {
            let a = t.text(n as int);
            if a != "_"@ && a != "."@ {
                seq![a]
            } else {
                seq![]
            }
        },
        None => match t.child_by_field(c, "path"@) {
            Some(p) => seq![after_last(unquoted_path(t.text(p as int)), '/')],
            None => seq![],
        },
    }
}

/// The package names imported under node `i`.
pub open spec fn imports_in(t: SyntaxTree, i: int) -> Seq<Seq<char>>
    decreases t.len() - i, 1int, 0int,
{
    imports_kids(t, i, 0)
}

pub open spec fn imports_kids(t: SyntaxTree, p: int, k: int) -> Seq<Seq<char>>
    decreases t.len() - p, 0int, t.children(p).len() - k,
{
    if 0 <= k < t.children(p).len() {
        let c = t.children(p)[k] as int;
        let here = if p < c < t.len() {
            if t.kind(c) == "import_declaration"@ || t.kind(c) == "import_spec_list"@ {
                imports_in(t, c)
            } else if t.kind(c) == "import_spec"@ {
                import_name(t, c)
            } else {
                seq![]
            }
        } else {
            seq![]
        };
        here + imports_kids(t, p, k + 1)
    } else {
        seq![]
    }
}

/// The package names a Go file imports.
pub open spec fn file_imports(t: SyntaxTree) -> Seq<Seq<char>> {
    if t.len() == 0 {
        seq![]
    } else {
        imports_in(t, 0)
    }
}

pub open spec fn char_views(v: Seq<Vec<char>>) -> Seq<Seq<char>> {
    v.map_values(|x: Vec<char>| x@)
}

fn import_name_exec(t: &SyntaxTree, c: usize, out: &mut Vec<Vec<char>>)
    requires
        t.wf(),
        c < t.len(),
    ensures
        char_views(final(out)@) == char_views(old(out)@) + import_name(*t, c as int),
{
    let ghost before = char_views(out@);
    match t.field_child(c, "name") {
        Some(n) => {
            let a = t.node_text(n);
            if !str_eq(a, "_") && !str_eq(a, ".") {
                out.push(chars_of(a));
            }
        },
        None => match t.field_child(c, "path") {
            Some(p) => {
                out.push(chars_after_last(&unquoted_path_exec(t.node_text(p)), '/'));
            },
            None => {},
        },
    }
    assert(char_views(out@) =~= before + import_name(*t, c as int));
}

fn imports_in_exec(t: &SyntaxTree, p: usize, out: &mut Vec<Vec<char>>)
    requires
        t.wf(),
        p < t.len(),
    ensures
        char_views(final(out)@) == char_views(old(out)@) + imports_kids(*t, p as int, 0),
    decreases t.len() - p,
{
    let ghost start = char_views(out@);
    let n = t.child_count(p);
    let mut k: usize = 0;
    while k < n
        invariant
            t.wf(),
            p < t.len(),
            n == t.children(p as int).len(),
            k <= n,
            char_views(out@) + imports_kids(*t, p as int, k as int) =~= start + imports_kids(
                *t,
                p as int,
                0,
            ),
        decreases n - k,
    {
        let c = t.nodes[p].children[k];
        assert(p < c < t.len()) by {
            assert(t.nodes@[p as int].children@[k as int] == c);
        }
        let ghost mid = char_views(out@);
        let ghost here = if t.kind(c as int) == "import_declaration"@ || t.kind(c as int)
            == "import_spec_list"@ {
            imports_in(*t, c as int)
        } else if t.kind(c as int) == "import_spec"@ {
            import_name(*t, c as int)
        } else {
            seq![]
        };
        assert(imports_kids(*t, p as int, k as int) == here + imports_kids(*t, p as int, k + 1));
        if t.kind_is(c, "import_declaration") || t.kind_is(c, "import_spec_list") {
            imports_in_exec(t, c, out);
            assert(imports_in(*t, c as int) == imports_kids(*t, c as int, 0));
        } else if t.kind_is(c, "import_spec") {
            import_name_exec(t, c, out);
        }
        assert(char_views(out@) == mid + here);
        assert(char_views(out@) + imports_kids(*t, p as int, k + 1) =~= mid + imports_kids(
            *t,
            p as int,
            k as int,
        ));
        k = k + 1;
    }
    assert(imports_kids(*t, p as int, k as int) =~= Seq::<Seq<char>>::empty());
}

fn file_imports_exec(t: &SyntaxTree) -> (r: Vec<Vec<char>>)
    requires
        t.wf(),
    ensures
        char_views(r@) == file_imports(*t),
{
    let mut out: Vec<Vec<char>> = Vec::new();
    if t.node_count() > 0 {
        imports_in_exec(t, 0, &mut out);
        assert(char_views(out@) =~= imports_in(*t, 0));
    } else {
        assert(char_views(out@) =~= Seq::<Seq<char>>::empty());
    }
    out
}

fn holds_chars(v: &Vec<Vec<char>>, s: &Vec<char>) -> (r: bool)
    ensures
        r == char_views(v@).contains(s@),
{
    let mut k: usize = 0;
    while k < v.len()
        invariant
            k <= v@.len(),
            forall|q: int| 0 <= q < k ==> v@[q]@ != s@,
        decreases v@.len() - k,
    {
        if chars_eq(&v[k], s) {
            assert(char_views(v@)[k as int] == s@);
            return true;
        }
        k = k + 1;
    }
    assert forall|q: int| 0 <= q < v@.len() implies #[trigger] char_views(v@)[q] != s@ by {
        assert(v@[q]@ != s@);
    }
    false
}

/// One finding at `i` for each identifier of `cs` named like an import.
pub open spec fn shadowing(t: SyntaxTree, i: int, cs: Seq<usize>, imports: Seq<Seq<char>>) -> Seq<HitView>
    decreases cs.len(),
{
    if cs.len() == 0 {
        seq![]
    } else {
        let c = cs.last() as int;
        shadowing(t, i, cs.drop_last(), imports) + hit_if(
            t.kind(c) == "identifier"@ && imports.contains(t.text(c)),
            t,
            i,
            "no-shadow-import"@,
            "Variable `"@ + t.text(c) + "` shadows imported package"@,
        )
    }
}

/// `no-shadow-import`: `name := ...` where `name` is an imported package.
/// This rule visits children last to first.
pub open spec fn no_shadow_import_hits(t: SyntaxTree, i: int) -> Seq<HitView> {
    let left = t.child_by_field(i, "left"@);
    if t.kind(i) == "short_var_declaration"@ && left is Some {
        shadowing(t, i, t.children(left.unwrap() as int), file_imports(t))
    } else {
        seq![]
    }
}

pub fn no_shadow_import_at(t: &SyntaxTree, i: usize, ctx: &mut Ctx)
    requires
        t.wf(),
        i < t.len(),
        old(ctx).wf(),
    ensures
        final(ctx).grew(*old(ctx), no_shadow_import_hits(*t, i as int)),
{
    if !t.kind_is(i, "short_var_declaration") {
        return;
    }
    let l = match t.field_child(i, "left") {
        Some(l) => l,
        None => {
            return;
        },
    };
    let imports = file_imports_exec(t);
    let ghost start = *ctx;
    let cs = &t.nodes[l].children;
    let mut k: usize = 0;
    while k < cs.len()
        invariant
            t.wf(),
            i < t.len(),
            l < t.len(),
            cs@ == t.children(l as int),
            k <= cs@.len(),
            char_views(imports@) == file_imports(*t),
            ctx.grew(start, shadowing(*t, i as int, cs@.take(k as int), file_imports(*t))),
        decreases cs@.len() - k,
    {
        let c = cs[k];
        assert(l < c < t.len()) by {
            assert(t.nodes@[l as int].children@[k as int] == c);
        }
        assert(cs@.take(k + 1).drop_last() =~= cs@.take(k as int));
        assert(cs@.take(k + 1).last() == c);
        if t.kind_is(c, "identifier") {
            let name = t.node_text(c);
            if holds_chars(&imports, &chars_of(name)) {
                ctx.report(t, i, "no-shadow-import", cat3("Variable `", name, "` shadows imported package"));
            }
        }
        k = k + 1;
    }
    assert(cs@.take(k as int) =~= cs@);
}

} // verus!
