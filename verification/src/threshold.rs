//! Threshold rules: file length, nesting depth and parameter count.
use vstd::prelude::*;
use crate::classify::{is_function_node, is_function_node_spec};
use crate::complexity::{sat, sat_add};
use crate::lint::{Ctx, HitView, IssueView, as_issues, hit_if, issue_views};
use crate::rules::common::{Noise, is_ws, is_ws_exec, kids_except, kids_except_exec, trim_ws};
use crate::syntax::SyntaxTree;
use crate::text::{chars_of, chars_starts_with, decimal, push_decimal, starts_with, str_eq};
use crate::types::{Issue, Severity};

verus! {

/// A line that opens the test section of a Rust file.
pub open spec fn opens_tests(line: Seq<char>) -> bool {
    starts_with(trim_ws(line), "#[cfg(test)]"@)
}

/// Lines counted so far: `k` lines are complete, `line` is the one being
/// read, `s` is what is left of the text.
pub open spec fn scan_lines(s: Seq<char>, line: Seq<char>, k: nat) -> nat
    decreases s.len(),
{
    if s.len() == 0 {
        if opens_tests(line) {
            k
        } else {
            k + 1
        }
    } else if s[0] == '\n' {
        if opens_tests(line) {
            k
        } else {
            scan_lines(s.drop_first(), seq![], k + 1)
        }
    } else {
        scan_lines(s.drop_first(), line.push(s[0]), k)
    }
}

/// The number of lines of a file, counting only those before a line that
/// opens a `#[cfg(test)]` section.
pub open spec fn effective_line_count(s: Seq<char>) -> nat {
    scan_lines(s, seq![], 0)
}

fn opens_tests_exec(line: &Vec<char>) -> (r: bool)
    ensures
        r == opens_tests(line@),
{
    let n = line.len();
    let mut lo: usize = 0;
    assert(line@.subrange(0, n as int) =~= line@);
    while lo < n && is_ws_exec(line[lo])
        invariant
            n == line@.len(),
            lo <= n,
            crate::rules::common::trim_ws_front(line@) == crate::rules::common::trim_ws_front(
                line@.subrange(lo as int, n as int),
            ),
        decreases n - lo,
    {
        assert(line@.subrange(lo as int, n as int).drop_first() =~= line@.subrange(lo + 1, n as int));
        lo = lo + 1;
    }
    let mut hi: usize = n;
    while hi > lo && is_ws_exec(line[hi - 1])
        invariant
            n == line@.len(),
            lo <= hi <= n,
            crate::rules::common::trim_ws_back(line@.subrange(lo as int, n as int))
                == crate::rules::common::trim_ws_back(line@.subrange(lo as int, hi as int)),
        decreases hi - lo,
    {
        assert(line@.subrange(lo as int, hi as int).drop_last() =~= line@.subrange(lo as int, hi - 1));
        hi = hi - 1;
    }
    let mut trimmed: Vec<char> = Vec::new();
    let mut k = lo;
    while k < hi
        invariant
            n == line@.len(),
            lo <= k <= hi <= n,
            trimmed@ =~= line@.subrange(lo as int, k as int),
        decreases hi - k,
    {
        trimmed.push(line[k]);
        k = k + 1;
    }
    chars_starts_with(&trimmed, &chars_of("#[cfg(test)]"))
}

/// The number of lines of a file before its `#[cfg(test)]` section,
/// saturating at `usize::MAX`.
pub fn count_effective_lines(source: &str) -> (r: usize)
    ensures
        r == sat(effective_line_count(source@) as int),
{
    let v = chars_of(source);
    let mut line: Vec<char> = Vec::new();
    let mut k: usize = 0;
    let mut j: usize = 0;
    assert(v@.skip(0) =~= v@);
    while j < v.len()
        invariant
            v@ == source@,
            j <= v@.len(),
            k <= j,
            effective_line_count(source@) == scan_lines(v@.skip(j as int), line@, k as nat),
        decreases v@.len() - j,
    {
        assert(v@.skip(j as int).drop_first() =~= v@.skip(j + 1));
        assert(v@.skip(j as int)[0] == v[j as int]);
        if v[j] == '\n' {
            if opens_tests_exec(&line) {
                return k;
            }
            line = Vec::new();
            k = k + 1;
        } else {
            line.push(v[j]);
        }
        j = j + 1;
    }
    assert(v@.skip(j as int) =~= Seq::<char>::empty());
    if opens_tests_exec(&line) {
        k
    } else {
        sat_add(k, 1)
    }
}

/// The `max-lines` finding for a file, if it is too long; the line count
/// saturates at `usize::MAX`.
pub open spec fn max_lines_hits(source: Seq<char>, max: int) -> Seq<HitView> {
    let n = sat(effective_line_count(source) as int) as nat;
    if n > max {
        seq![
            (
                1int,
                1int,
                "max-lines"@,
                "File has "@ + decimal(n) + " lines (max: "@ + decimal(max as nat) + ")"@,
            ),
        ]
    } else {
        seq![]
    }
}

/// `max-lines`: a file longer than `max` lines.
pub fn check_max_lines(source: &str, file_path: &str, severity: Severity, max: usize) -> (r: Vec<Issue>)
    ensures
        issue_views(r@) == as_issues(max_lines_hits(source@, max as int), file_path@, severity),
{
    let n = count_effective_lines(source);
    let mut out: Vec<Issue> = Vec::new();
    if n > max {
        let mut msg = "File has ".to_owned();
        push_decimal(&mut msg, n);
        msg.append(" lines (max: ");
        push_decimal(&mut msg, max);
        msg.append(")");
        out.push(
            Issue {
                file: file_path.to_owned(),
                line: 1,
                column: 1,
                severity,
                rule: "max-lines".to_owned(),
                message: msg,
            },
        );
    }
    assert(issue_views(out@) =~= as_issues(max_lines_hits(source@, max as int), file_path@, severity));
    out
}

/// Kinds of nodes that open a nesting level.
pub open spec fn is_depth_increment(k: Seq<char>) -> bool {
    k == "if_statement"@ || k == "for_statement"@ || k == "for_in_statement"@ || k
        == "while_statement"@ || k == "do_statement"@ || k == "switch_statement"@ || k
        == "if_expression"@ || k == "for_expression"@ || k == "while_expression"@ || k
        == "loop_expression"@ || k == "match_expression"@ || k == "elif_clause"@ || k == "if"@ || k
        == "unless"@ || k == "for"@ || k == "while"@ || k == "until"@ || k == "case"@ || k
        == "select_statement"@ || k == "if_then_else"@ || k == "match_alt"@
}

fn is_depth_increment_exec(k: &str) -> (r: bool)
    ensures
        r == is_depth_increment(k@),
{
    str_eq(k, "if_statement") || str_eq(k, "for_statement") || str_eq(k, "for_in_statement") || str_eq(
        k,
        "while_statement",
    ) || str_eq(k, "do_statement") || str_eq(k, "switch_statement") || str_eq(k, "if_expression")
        || str_eq(k, "for_expression") || str_eq(k, "while_expression") || str_eq(k, "loop_expression")
        || str_eq(k, "match_expression") || str_eq(k, "elif_clause") || str_eq(k, "if") || str_eq(
        k,
        "unless",
    ) || str_eq(k, "for") || str_eq(k, "while") || str_eq(k, "until") || str_eq(k, "case") || str_eq(
        k,
        "select_statement",
    ) || str_eq(k, "if_then_else") || str_eq(k, "match_alt")
}

/// Whether node `i` opens a nesting level: only a named node does, since
/// some grammars give a keyword token the kind of the construct it opens.
pub open spec fn deepens(t: SyntaxTree, i: int) -> bool {
    t.is_named(i) && is_depth_increment(t.kind(i))
}

/// `max-depth` findings in the subtree at `i`, entered at depth `d`.
pub open spec fn depth_at(t: SyntaxTree, i: int, d: int, max: int) -> Seq<HitView>
    decreases t.len() - i, 1int, 0int,
{
    let nd = if deepens(t, i) { d + 1 } else { d };
    hit_if(
        deepens(t, i) && nd > max,
        t,
        i,
        "max-depth"@,
        "Nesting depth "@ + decimal(nd as nat) + " exceeds max of "@ + decimal(max as nat),
    ) + depth_kids(t, i, 0, nd, max)
}

pub open spec fn depth_kids(t: SyntaxTree, p: int, k: int, d: int, max: int) -> Seq<HitView>
    decreases t.len() - p, 0int, t.children(p).len() - k,
{
    if 0 <= k < t.children(p).len() {
        let c = t.children(p)[k] as int;
        (if p < c < t.len() {
            depth_at(t, c, d, max)
        } else {
            seq![]
        }) + depth_kids(t, p, k + 1, d, max)
    } else {
        seq![]
    }
}

/// `max-depth` findings of a whole tree.
pub open spec fn max_depth_hits(t: SyntaxTree, max: int) -> Seq<HitView> {
    if t.len() == 0 {
        seq![]
    } else {
        depth_at(t, 0, 0, max)
    }
}

fn depth_walk(t: &SyntaxTree, i: usize, d: usize, max: usize, ctx: &mut Ctx)
    requires
        t.wf(),
        i < t.len(),
        d <= i,
        old(ctx).wf(),
    ensures
        final(ctx).grew(*old(ctx), depth_at(*t, i as int, d as int, max as int)),
    decreases t.len() - i,
{
    let ghost start = *ctx;
    let total = t.node_count();
    let deeper = t.node_named(i) && is_depth_increment_exec(t.node_kind(i));
    let nd = if deeper { d + 1 } else { d };
    if deeper && nd > max {
        let mut msg = "Nesting depth ".to_owned();
        push_decimal(&mut msg, nd);
        msg.append(" exceeds max of ");
        push_decimal(&mut msg, max);
        ctx.report(t, i, "max-depth", msg);
    }
    let ghost after_node = ctx.found();
    let n = t.child_count(i);
    let mut k: usize = 0;
    while k < n
        invariant
            t.wf(),
            i < t.len(),
            nd <= i + 1,
            n == t.children(i as int).len(),
            k <= n,
            ctx.wf(),
            ctx.file_path@ == start.file_path@,
            ctx.severity == start.severity,
            ctx.found() + depth_kids(*t, i as int, k as int, nd as int, max as int) =~= start.found()
                + depth_at(*t, i as int, d as int, max as int),
        decreases n - k,
    {
        let c = t.nodes[i].children[k];
        assert(i < c < t.len()) by {
            assert(t.nodes@[i as int].children@[k as int] == c);
        }
        let ghost mid = ctx.found();
        depth_walk(t, c, nd, max, ctx);
        assert(ctx.found() + depth_kids(*t, i as int, k + 1, nd as int, max as int) =~= mid
            + depth_kids(*t, i as int, k as int, nd as int, max as int));
        k = k + 1;
    }
    assert(depth_kids(*t, i as int, k as int, nd as int, max as int) =~= Seq::<HitView>::empty());
}

/// `max-depth`: control structures nested deeper than `max`.
pub fn check_max_depth(t: &SyntaxTree, file_path: &str, severity: Severity, max: usize) -> (r: Vec<Issue>)
    requires
        t.wf(),
    ensures
        issue_views(r@) == as_issues(max_depth_hits(*t, max as int), file_path@, severity),
{
    let mut ctx = Ctx::new(file_path, severity);
    if t.node_count() > 0 {
        depth_walk(t, 0, 0, max, &mut ctx);
    }
    proof {
        ctx.lemma_views();
    }
    ctx.issues
}

/// The number of the children `cs` that sit in field `name`.
pub open spec fn names_among(t: SyntaxTree, cs: Seq<usize>) -> int
    decreases cs.len(),
{
    if cs.len() == 0 {
        0
    } else {
        names_among(t, cs.drop_last()) + if t.field(cs.last() as int) == Some("name"@) {
            1int
        } else {
            0int
        }
    }
}

/// The number of parameters a Lean 4 binder introduces: the names of an
/// explicit binder group, or one for a bare identifier or hole.
pub open spec fn binder_arity(t: SyntaxTree, b: int) -> int {
    let k = t.kind(b);
    if k == "explicit_binder"@ || k == "anon_ctor_binder"@ || k == "tuple_binder"@ {
        names_among(t, t.children(b))
    } else if k == "identifier"@ || k == "hole"@ {
        1
    } else {
        0
    }
}

/// The parameters a run of binders introduces, saturating at `usize::MAX`.
pub open spec fn binders_sum(t: SyntaxTree, cs: Seq<usize>) -> int
    decreases cs.len(),
{
    if cs.len() == 0 {
        0
    } else {
        sat(binders_sum(t, cs.drop_last()) + binder_arity(t, cs.last() as int))
    }
}

/// Parameters of a Lean 4 value declaration, implicit and instance binders
/// not counted; `None` for other nodes.
pub open spec fn lean_param_count(t: SyntaxTree, i: int) -> Option<int> {
    let k = t.kind(i);
    if k == "def"@ || k == "abbrev"@ || k == "where_aux_def"@ {
        match t.child_by_kind(i, "binders"@) {
            Some(b) => Some(binders_sum(t, t.children(b as int))),
            None => None,
        }
    } else {
        None
    }
}

/// The number of declared parameters of a function node, or `None` when the
/// grammar does not expose them.
pub open spec fn param_count(t: SyntaxTree, i: int) -> Option<int> {
    match t.child_by_field(i, "parameters"@) {
        Some(p) => Some(kids_except(t, p as int, Noise::ParamPunct).len() as int),
        None => lean_param_count(t, i),
    }
}

fn names_among_exec(t: &SyntaxTree, b: usize) -> (r: usize)
    requires
        t.wf(),
        b < t.len(),
    ensures
        r == names_among(*t, t.children(b as int)),
{
    let cs = &t.nodes[b].children;
    let mut n: usize = 0;
    let mut k: usize = 0;
    while k < cs.len()
        invariant
            t.wf(),
            b < t.len(),
            cs@ == t.children(b as int),
            k <= cs@.len(),
            n <= k,
            n == names_among(*t, cs@.take(k as int)),
        decreases cs@.len() - k,
    {
        let c = cs[k];
        assert(b < c < t.len()) by {
            assert(t.nodes@[b as int].children@[k as int] == c);
        }
        assert(cs@.take(k + 1).drop_last() =~= cs@.take(k as int));
        let named = match &t.nodes[c].field {
            Some(f) => str_eq(f.as_str(), "name"),
            None => false,
        };
        if named {
            n = n + 1;
        }
        k = k + 1;
    }
    assert(cs@.take(k as int) =~= cs@);
    n
}

fn lean_param_count_exec(t: &SyntaxTree, i: usize) -> (r: Option<usize>)
    requires
        t.wf(),
        i < t.len(),
    ensures
        match r {
            Some(n) => lean_param_count(*t, i as int) == Some(n as int),
            None => lean_param_count(*t, i as int) is None,
        },
{
    let k = t.node_kind(i);
    if !(str_eq(k, "def") || str_eq(k, "abbrev") || str_eq(k, "where_aux_def")) {
        return None;
    }
    let b = match t.kind_child(i, "binders") {
        Some(b) => b,
        None => {
            return None;
        },
    };
    let cs = &t.nodes[b].children;
    let mut total: usize = 0;
    let mut q: usize = 0;
    while q < cs.len()
        invariant
            t.wf(),
            b < t.len(),
            cs@ == t.children(b as int),
            q <= cs@.len(),
            total == binders_sum(*t, cs@.take(q as int)),
        decreases cs@.len() - q,
    {
        let c = cs[q];
        assert(b < c < t.len()) by {
            assert(t.nodes@[b as int].children@[q as int] == c);
        }
        assert(cs@.take(q + 1).drop_last() =~= cs@.take(q as int));
        let ck = t.node_kind(c);
        let arity: usize = if str_eq(ck, "explicit_binder") || str_eq(ck, "anon_ctor_binder") || str_eq(
            ck,
            "tuple_binder",
        ) {
            names_among_exec(t, c)
        } else if str_eq(ck, "identifier") || str_eq(ck, "hole") {
            1
        } else {
            0
        };
        total = sat_add(total, arity);
        q = q + 1;
    }
    assert(cs@.take(q as int) =~= cs@);
    Some(total)
}

/// The number of declared parameters of a function node.
pub fn count_params(t: &SyntaxTree, i: usize) -> (r: Option<usize>)
    requires
        t.wf(),
        i < t.len(),
    ensures
        match r {
            Some(n) => param_count(*t, i as int) == Some(n as int),
            None => param_count(*t, i as int) is None,
        },
{
    match t.field_child(i, "parameters") {
        Some(p) => Some(kids_except_exec(t, p, Noise::ParamPunct).len()),
        None => lean_param_count_exec(t, i),
    }
}

/// The `max-params` finding at a function with more than `max` parameters.
pub open spec fn max_params_hits(t: SyntaxTree, i: int, max: int) -> Seq<HitView> {
    let n = param_count(t, i);
    hit_if(
        is_function_node_spec(t, i) && n is Some && n.unwrap() > max,
        t,
        i,
        "max-params"@,
        "Function has "@ + decimal(n.unwrap() as nat) + " parameters (max: "@ + decimal(max as nat)
            + ")"@,
    )
}

pub fn max_params_at(t: &SyntaxTree, i: usize, max: usize, ctx: &mut Ctx)
    requires
        t.wf(),
        i < t.len(),
        old(ctx).wf(),
    ensures
        final(ctx).grew(*old(ctx), max_params_hits(*t, i as int, max as int)),
{
    if !is_function_node(t, i) {
        return;
    }
    if let Some(n) = count_params(t, i) {
        if n > max {
            let mut msg = "Function has ".to_owned();
            push_decimal(&mut msg, n);
            msg.append(" parameters (max: ");
            push_decimal(&mut msg, max);
            msg.append(")");
            ctx.report(t, i, "max-params", msg);
        }
    }
}

/// The finding `max-depth` makes at node `i` for depth `depth`.
pub open spec fn depth_finding(t: SyntaxTree, i: int, depth: int, max: int) -> HitView {
    (t.line(i), t.col(i), "max-depth"@, "Nesting depth "@ + decimal(depth as nat) + " exceeds max of "@ + decimal(
        max as nat,
    ))
}

/// Whether a node of kind `k` is a block construct: a conditional, a loop,
/// a `switch`/`match`/`select` or one of their arms.
pub open spec fn block_construct(k: Seq<char>) -> bool {
    k == "if_statement"@ || k == "for_statement"@ || k == "for_in_statement"@ || k == "while_statement"@ || k == "do_statement"@ || k == "switch_statement"@ || k == "if_expression"@ || k == "for_expression"@ || k == "while_expression"@ || k == "loop_expression"@ || k == "match_expression"@ || k == "elif_clause"@ || k == "if"@ || k == "unless"@ || k == "for"@ || k == "while"@ || k == "until"@ || k == "case"@ || k == "select_statement"@ || k == "if_then_else"@ || k == "match_alt"@
}

proof fn lemma_depth_kids_covers(t: SyntaxTree, p: int, k: int, j: int, d: int, max: int, x: HitView)
    requires
        0 <= k <= j < t.children(p).len(),
        p < t.children(p)[j] < t.len(),
        depth_at(t, t.children(p)[j] as int, d, max).contains(x),
    ensures
        depth_kids(t, p, k, d, max).contains(x),
    decreases j - k,
{
    let c = t.children(p)[k] as int;
    let head = if p < c < t.len() {
        depth_at(t, c, d, max)
    } else {
        seq![]
    };
    if k < j {
        lemma_depth_kids_covers(t, p, k + 1, j, d, max, x);
        let rest = depth_kids(t, p, k + 1, d, max);
        let w = choose|w: int| 0 <= w < rest.len() && #[trigger] rest[w] == x;
        assert((head + depth_kids(t, p, k + 1, d, max))[head.len() + w] == x);
    } else {
        let w = choose|w: int| 0 <= w < head.len() && #[trigger] head[w] == x;
        assert((head + depth_kids(t, p, k + 1, d, max))[w] == x);
    }
}

/// A named block construct entered at depth `d` opens level `d + 1`: when
/// that exceeds the maximum, the first finding of its subtree is its own,
/// `Nesting depth <d + 1> exceeds max of <max>`, at the construct.
pub proof fn a_block_construct_opens_a_nesting_level(t: SyntaxTree, i: int, d: int, max: int)
    requires
        0 <= d,
        0 <= max < d + 1,
        t.is_named(i),
        block_construct(t.kind(i)),
    ensures
        depth_at(t, i, d, max).len() >= 1,
        depth_at(t, i, d, max)[0] == depth_finding(t, i, d + 1, max),
{
}

/// A named block construct directly inside another one, entered at depth
/// `d`, is at depth `d + 2`: when that exceeds the maximum, the findings of
/// the outer construct's subtree hold the inner one's.
pub proof fn a_block_construct_inside_another_is_one_level_deeper(t: SyntaxTree, i: int, j: int, d: int, max: int)
    requires
        t.wf(),
        0 <= i < t.len(),
        0 <= d,
        0 <= max < d + 2,
        t.is_named(i),
        block_construct(t.kind(i)),
        0 <= j < t.children(i).len(),
        t.is_named(t.children(i)[j] as int),
        block_construct(t.kind(t.children(i)[j] as int)),
    ensures
        depth_at(t, i, d, max).contains(depth_finding(t, t.children(i)[j] as int, d + 2, max)),
{
    let c = t.children(i)[j] as int;
    assert(t.nodes@[i].children@[j] == t.children(i)[j]);
    a_block_construct_opens_a_nesting_level(t, c, d + 1, max);
    assert(depth_at(t, c, d + 1, max)[0] == depth_finding(t, c, d + 2, max));
    assert(depth_at(t, c, d + 1, max).contains(depth_finding(t, c, d + 2, max)));
    lemma_depth_kids_covers(t, i, 0, j, d + 1, max, depth_finding(t, c, d + 2, max));
    let own = hit_if(
        deepens(t, i) && d + 1 > max,
        t,
        i,
        "max-depth"@,
        "Nesting depth "@ + decimal((d + 1) as nat) + " exceeds max of "@ + decimal(max as nat),
    );
    let rest = depth_kids(t, i, 0, d + 1, max);
    let w = choose|w: int| 0 <= w < rest.len() && #[trigger] rest[w] == depth_finding(t, c, d + 2, max);
    assert((own + depth_kids(t, i, 0, d + 1, max))[own.len() + w] == depth_finding(t, c, d + 2, max));
}

} // verus!
