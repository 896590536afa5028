//! Cyclomatic and cognitive complexity of every function-sized unit.
//!
//! Counts saturate at `usize::MAX`; the specifications are over unbounded
//! naturals and the results equal them up to that bound.
use vstd::prelude::*;
use crate::classify::{
    count_logical_op_switches, if_fields, if_fields_spec, is_break_continue, is_break_continue_spec,
    is_cc_increment, is_cc_increment_spec, is_clojure_branch_form, is_clojure_branch_form_spec,
    is_function_node, is_function_node_spec, is_if_node, is_if_node_spec, is_nesting_construct,
    is_nesting_construct_spec, is_top_level_logical, is_top_level_logical_spec, logical_op_spec,
    logical_op_text, logical_ops, op_switches,
};
use crate::language::SourceLanguage;
use crate::names::{is_lean_instance, is_lean_instance_spec, unit_name, unit_name_spec};
use crate::syntax::SyntaxTree;
use crate::text::str_eq;
use crate::types::{ComplexityResult, FunctionComplexity};

verus! {

/// `x`, capped at `usize::MAX`.
pub open spec fn sat(x: int) -> int {
    if x > usize::MAX {
        usize::MAX as int
    } else {
        x
    }
}

pub fn sat_add(a: usize, b: usize) -> (r: usize)
    ensures
        r == sat(a + b),
{
    if a > usize::MAX - b {
        usize::MAX
    } else {
        a + b
    }
}

pub open spec fn b2n(b: bool) -> nat {
    if b {
        1
    } else {
        0
    }
}

/// Does node `i` start a new function-sized unit (where a walk scoped to one
/// function stops)?
pub open spec fn is_unit_boundary(t: SyntaxTree, i: int, lang: SourceLanguage) -> bool {
    is_function_node_spec(t, i) || (lang == SourceLanguage::Lean && is_lean_instance_spec(t, i))
}

fn unit_boundary(t: &SyntaxTree, i: usize, lang: SourceLanguage) -> (r: bool)
    requires
        t.wf(),
        i < t.len(),
    ensures
        r == is_unit_boundary(*t, i as int, lang),
{
    is_function_node(t, i) || (lang == SourceLanguage::Lean && is_lean_instance(t, i))
}

/// A Clojure list whose first symbol is a branching form.
pub open spec fn is_clojure_branch(t: SyntaxTree, i: int) -> bool {
    t.kind(i) == "list_lit"@ && match t.child_by_kind(i, "sym_lit"@) {
        Some(c) => is_clojure_branch_form_spec(t.text(c as int)),
        None => false,
    }
}

fn clojure_branch(t: &SyntaxTree, i: usize) -> (r: bool)
    requires
        t.wf(),
        i < t.len(),
    ensures
        r == is_clojure_branch(*t, i as int),
{
    if !t.kind_is(i, "list_lit") {
        return false;
    }
    match t.kind_child(i, "sym_lit") {
        Some(c) => is_clojure_branch_form(t.node_text(c)),
        None => false,
    }
}

/// The paths a single (named, in-unit) node adds.
pub open spec fn cc_increment(t: SyntaxTree, i: int, lang: SourceLanguage) -> nat {
    b2n(is_cc_increment_spec(t.kind(i), lang)) + b2n(logical_op_spec(t, i) is Some) + b2n(
        is_clojure_branch(t, i),
    )
}

/// Paths added by the subtree at `i`, stopping at nested units and skipping
/// keyword tokens.
pub open spec fn cc_walk(t: SyntaxTree, i: int, lang: SourceLanguage) -> nat
    decreases t.len() - i, 1int, 0int,
{
    if is_unit_boundary(t, i, lang) || !t.is_named(i) {
        0
    } else {
        cc_increment(t, i, lang) + cc_kids(t, i, 0, lang)
    }
}

/// Paths added by the children of `p` from the `k`-th on.
pub open spec fn cc_kids(t: SyntaxTree, p: int, k: int, lang: SourceLanguage) -> nat
    decreases t.len() - p, 0int, t.children(p).len() - k,
{
    if 0 <= k < t.children(p).len() {
        let c = t.children(p)[k] as int;
        (if p < c < t.len() {
            cc_walk(t, c, lang)
        } else {
            0
        }) + cc_kids(t, p, k + 1, lang)
    } else {
        0
    }
}

fn cc_walk_exec(t: &SyntaxTree, i: usize, lang: SourceLanguage) -> (r: usize)
    requires
        t.wf(),
        i < t.len(),
    ensures
        r == sat(cc_walk(*t, i as int, lang) as int),
    decreases t.len() - i, 1int,
{
    if unit_boundary(t, i, lang) || !t.node_named(i) {
        return 0;
    }
    let mut inc: usize = 0;
    if is_cc_increment(t.node_kind(i), lang) {
        inc = inc + 1;
    }
    if logical_op_text(t, i).is_some() {
        inc = inc + 1;
    }
    if clojure_branch(t, i) {
        inc = inc + 1;
    }
    let r = sat_add(inc, cc_kids_exec(t, i, lang));
    r
}

/// Sum of `cc_walk` over all children of `p`.
fn cc_kids_exec(t: &SyntaxTree, p: usize, lang: SourceLanguage) -> (r: usize)
    requires
        t.wf(),
        p < t.len(),
    ensures
        r == sat(cc_kids(*t, p as int, 0, lang) as int),
    decreases t.len() - p, 0int,
{
    let n = t.child_count(p);
    let mut acc: usize = 0;
    let mut k: usize = 0;
    while k < n
        invariant
            t.wf(),
            p < t.len(),
            n == t.children(p as int).len(),
            k <= n,
            acc == sat(cc_kids(*t, p as int, 0, lang) - cc_kids(*t, p as int, k as int, lang)),
            cc_kids(*t, p as int, k as int, lang) <= cc_kids(*t, p as int, 0, lang),
        decreases n - k,
    {
        let c = t.nodes[p].children[k];
        assert(p < c < t.len()) by {
            assert(t.nodes@[p as int].children@[k as int] == c);
        }
        let w = cc_walk_exec(t, c, lang);
        acc = sat_add(acc, w);
        k = k + 1;
    }
    acc
}

/// Cyclomatic complexity of a unit, before the base path: the paths added
/// by its body.
pub fn calculate_cyclomatic(t: &SyntaxTree, f: usize, lang: SourceLanguage) -> (r: usize)
    requires
        t.wf(),
        f < t.len(),
    ensures
        r == sat(cc_kids(*t, f as int, 0, lang) as int),
{
    cc_kids_exec(t, f, lang)
}

/// A `break` / `continue` with a non-empty label.
pub open spec fn is_labeled_jump(t: SyntaxTree, i: int) -> bool {
    is_break_continue_spec(t.kind(i)) && t.children(i).len() > 1 && match t.child_by_field(
        i,
        "label"@,
    ) {
        Some(l) => t.text(l as int).len() > 0,
        None => false,
    }
}

fn labeled_jump(t: &SyntaxTree, i: usize) -> (r: bool)
    requires
        t.wf(),
        i < t.len(),
    ensures
        r == is_labeled_jump(*t, i as int),
{
    if !is_break_continue(t.node_kind(i)) || t.child_count(i) <= 1 {
        return false;
    }
    match t.field_child(i, "label") {
        Some(l) => {
            let s = t.node_text(l);
            !s.is_empty()
        },
        None => false,
    }
}

/// An `else if` costs a flat +1: its parent is an `else_clause`, or (Lean 4)
/// it hangs directly off the `else` field of an enclosing if.
pub open spec fn is_else_if(t: SyntaxTree, i: int, lang: SourceLanguage) -> bool {
    match t.parent(i) {
        None => false,
        Some(p) => t.kind(p as int) == "else_clause"@ || (lang == SourceLanguage::Lean
            && is_if_node_spec(t.kind(p as int)) && t.child_by_field(
            p as int,
            if_fields_spec(t.kind(p as int)).2,
        ) == Some(i as usize)),
    }
}

fn else_if(t: &SyntaxTree, i: usize, lang: SourceLanguage) -> (r: bool)
    requires
        t.wf(),
        i < t.len(),
    ensures
        r == is_else_if(*t, i as int, lang),
{
    let p = match t.node_parent(i) {
        Some(p) => p,
        None => return false,
    };
    assert(p < i) by {
        assert(t.nodes@[i as int].parent == Some(p));
    }
    if t.kind_is(p, "else_clause") {
        return true;
    }
    if lang != SourceLanguage::Lean || !is_if_node(t.node_kind(p)) {
        return false;
    }
    let (_, _, else_field) = if_fields(t.node_kind(p));
    match t.field_child(p, else_field) {
        Some(a) => a == i,
        None => false,
    }
}

/// The logical-operator runs of an if's condition (inside parentheses, if any).
pub open spec fn cond_score(t: SyntaxTree, i: int) -> nat {
    match t.child_by_field(i, if_fields_spec(t.kind(i)).0) {
        None => 0,
        Some(c) => {
            let e = if t.kind(c as int) == "parenthesized_expression"@ {
                match t.child_at(c as int, 1) {
                    Some(x) => x,
                    None => c,
                }
            } else {
                c
            };
            op_switches(logical_ops(t, e as int))
        },
    }
}

fn cond_score_exec(t: &SyntaxTree, i: usize) -> (r: usize)
    requires
        t.wf(),
        i < t.len(),
    ensures
        r == cond_score(*t, i as int),
{
    let (cond_field, _, _) = if_fields(t.node_kind(i));
    let c = match t.field_child(i, cond_field) {
        Some(c) => c,
        None => return 0,
    };
    let e = if t.kind_is(c, "parenthesized_expression") {
        match t.child(c, 1) {
            Some(x) => x,
            None => c,
        }
    } else {
        c
    };
    count_logical_op_switches(t, e)
}

/// Whether some child of `a` is an if node.
pub open spec fn has_if_child(t: SyntaxTree, a: int) -> bool {
    exists|k: int| 0 <= k < t.children(a).len() && is_if_node_spec(t.kind(t.children(a)[k] as int))
}

/// Cognitive complexity added by the subtree at `i` at nesting level `nest`.
pub open spec fn cog_walk(t: SyntaxTree, i: int, nest: int, lang: SourceLanguage) -> nat
    decreases t.len() - i, 2int, 0int,
{
    if is_unit_boundary(t, i, lang) || !t.is_named(i) {
        0
    } else if is_if_node_spec(t.kind(i)) {
        cog_if(t, i, nest, lang)
    } else if is_nesting_construct_spec(t.kind(i), lang) {
        (1 + nest + cog_kids(t, i, 0, nest + 1, lang)) as nat
    } else if is_top_level_logical_spec(t, i) {
        op_switches(logical_ops(t, i))
    } else {
        b2n(is_labeled_jump(t, i)) + b2n(t.kind(i) == "optional_chain"@) + cog_kids(
            t,
            i,
            0,
            nest,
            lang,
        )
    }
}

/// `cog_walk` summed over the children of `p` from the `k`-th on.
pub open spec fn cog_kids(t: SyntaxTree, p: int, k: int, nest: int, lang: SourceLanguage) -> nat
    decreases t.len() - p, 0int, t.children(p).len() - k,
{
    if 0 <= k < t.children(p).len() {
        let c = t.children(p)[k] as int;
        (if p < c < t.len() {
            cog_walk(t, c, nest, lang)
        } else {
            0
        }) + cog_kids(t, p, k + 1, nest, lang)
    } else {
        0
    }
}

/// `cog_if` summed over the if-node children of `a` from the `k`-th on.
pub open spec fn cog_if_kids(t: SyntaxTree, a: int, k: int, nest: int, lang: SourceLanguage) -> nat
    decreases t.len() - a, 0int, t.children(a).len() - k,
{
    if 0 <= k < t.children(a).len() {
        let c = t.children(a)[k] as int;
        (if a < c < t.len() && is_if_node_spec(t.kind(c)) {
            cog_if(t, c, nest, lang)
        } else {
            0
        }) + cog_if_kids(t, a, k + 1, nest, lang)
    } else {
        0
    }
}

/// Cognitive complexity of an if node: +1 (plus nesting unless it is an
/// `else if`), its condition's operator runs, its branches one level deeper,
/// and +1 for a plain `else`.
pub open spec fn cog_if(t: SyntaxTree, i: int, nest: int, lang: SourceLanguage) -> nat
    decreases t.len() - i, 1int, 0int,
{
    let (_, then_field, else_field) = if_fields_spec(t.kind(i));
    let lean = lang == SourceLanguage::Lean;
    let head = if is_else_if(t, i, lang) {
        1
    } else {
        1 + nest
    };
    let then_part = match t.child_by_field(i, then_field) {
        Some(c) => if i < c < t.len() {
            if lean {
                cog_walk(t, c as int, nest + 1, lang)
            } else {
                cog_kids(t, c as int, 0, nest + 1, lang)
            }
        } else {
            0
        },
        None => 0,
    };
    let else_part = match t.child_by_field(i, else_field) {
        Some(a) => if i < a < t.len() {
            if lean {
                if is_if_node_spec(t.kind(a as int)) {
                    cog_if(t, a as int, nest, lang)
                } else {
                    1 + cog_walk(t, a as int, nest + 1, lang)
                }
            } else if has_if_child(t, a as int) {
                cog_if_kids(t, a as int, 0, nest, lang)
            } else {
                1 + cog_kids(t, a as int, 0, nest + 1, lang)
            }
        } else {
            0
        },
        None => 0,
    };
    (head + cond_score(t, i) + then_part + else_part) as nat
}

fn cog_walk_exec(t: &SyntaxTree, i: usize, nest: usize, lang: SourceLanguage) -> (r: usize)
    requires
        t.wf(),
        i < t.len(),
        nest <= i,
    ensures
        r == sat(cog_walk(*t, i as int, nest as int, lang) as int),
    decreases t.len() - i, 2int,
{
    if unit_boundary(t, i, lang) || !t.node_named(i) {
        return 0;
    }
    let _ = t.node_count();
    let kind = t.node_kind(i);
    if is_if_node(kind) {
        return cog_if_exec(t, i, nest, lang);
    }
    if is_nesting_construct(kind, lang) {
        return sat_add(1 + nest, cog_kids_exec(t, i, nest + 1, lang));
    }
    if is_top_level_logical(t, i) {
        return count_logical_op_switches(t, i);
    }
    let mut extra: usize = 0;
    if labeled_jump(t, i) {
        extra = extra + 1;
    }
    if str_eq(kind, "optional_chain") {
        extra = extra + 1;
    }
    sat_add(extra, cog_kids_exec(t, i, nest, lang))
}

fn cog_kids_exec(t: &SyntaxTree, p: usize, nest: usize, lang: SourceLanguage) -> (r: usize)
    requires
        t.wf(),
        p < t.len(),
        nest <= p + 1,
    ensures
        r == sat(cog_kids(*t, p as int, 0, nest as int, lang) as int),
    decreases t.len() - p, 0int,
{
    let n = t.child_count(p);
    let mut acc: usize = 0;
    let mut k: usize = 0;
    while k < n
        invariant
            t.wf(),
            p < t.len(),
            nest <= p + 1,
            n == t.children(p as int).len(),
            k <= n,
            acc == sat(cog_kids(*t, p as int, 0, nest as int, lang) - cog_kids(
                *t,
                p as int,
                k as int,
                nest as int,
                lang,
            )),
            cog_kids(*t, p as int, k as int, nest as int, lang) <= cog_kids(
                *t,
                p as int,
                0,
                nest as int,
                lang,
            ),
        decreases n - k,
    {
        let c = t.nodes[p].children[k];
        assert(p < c < t.len()) by {
            assert(t.nodes@[p as int].children@[k as int] == c);
        }
        let w = cog_walk_exec(t, c, nest, lang);
        acc = sat_add(acc, w);
        k = k + 1;
    }
    acc
}

fn cog_if_kids_exec(t: &SyntaxTree, a: usize, nest: usize, lang: SourceLanguage) -> (r: usize)
    requires
        t.wf(),
        a < t.len(),
        nest <= a,
    ensures
        r == sat(cog_if_kids(*t, a as int, 0, nest as int, lang) as int),
    decreases t.len() - a, 0int,
{
    let n = t.child_count(a);
    let mut acc: usize = 0;
    let mut k: usize = 0;
    while k < n
        invariant
            t.wf(),
            a < t.len(),
            nest <= a,
            n == t.children(a as int).len(),
            k <= n,
            acc == sat(cog_if_kids(*t, a as int, 0, nest as int, lang) - cog_if_kids(
                *t,
                a as int,
                k as int,
                nest as int,
                lang,
            )),
            cog_if_kids(*t, a as int, k as int, nest as int, lang) <= cog_if_kids(
                *t,
                a as int,
                0,
                nest as int,
                lang,
            ),
        decreases n - k,
    {
        let c = t.nodes[a].children[k];
        assert(a < c < t.len()) by {
            assert(t.nodes@[a as int].children@[k as int] == c);
        }
        if is_if_node(t.node_kind(c)) {
            let w = cog_if_exec(t, c, nest, lang);
            acc = sat_add(acc, w);
        }
        k = k + 1;
    }
    acc
}

fn has_if_child_exec(t: &SyntaxTree, a: usize) -> (r: bool)
    requires
        t.wf(),
        a < t.len(),
    ensures
        r == has_if_child(*t, a as int),
{
    let n = t.child_count(a);
    let mut k: usize = 0;
    while k < n
        invariant
            t.wf(),
            a < t.len(),
            n == t.children(a as int).len(),
            k <= n,
            forall|q: int| 0 <= q < k ==> !is_if_node_spec(t.kind(t.children(a as int)[q] as int)),
        decreases n - k,
    {
        let c = t.nodes[a].children[k];
        assert(c < t.len()) by {
            assert(t.nodes@[a as int].children@[k as int] == c);
        }
        if is_if_node(t.node_kind(c)) {
            return true;
        }
        k = k + 1;
    }
    false
}

fn cog_if_exec(t: &SyntaxTree, i: usize, nest: usize, lang: SourceLanguage) -> (r: usize)
    requires
        t.wf(),
        i < t.len(),
        nest <= i,
    ensures
        r == sat(cog_if(*t, i as int, nest as int, lang) as int),
    decreases t.len() - i, 1int,
{
    let (_, then_field, else_field) = if_fields(t.node_kind(i));
    let lean = lang == SourceLanguage::Lean;
    let _ = t.node_count();
    let head: usize = if else_if(t, i, lang) {
        1
    } else {
        1 + nest
    };
    let cond = cond_score_exec(t, i);
    let then_part: usize = match t.field_child(i, then_field) {
        Some(c) => if lean {
            cog_walk_exec(t, c, nest + 1, lang)
        } else {
            cog_kids_exec(t, c, nest + 1, lang)
        },
        None => 0,
    };
    let else_part: usize = match t.field_child(i, else_field) {
        Some(a) => if lean {
            if is_if_node(t.node_kind(a)) {
                cog_if_exec(t, a, nest, lang)
            } else {
                sat_add(1, cog_walk_exec(t, a, nest + 1, lang))
            }
        } else if has_if_child_exec(t, a) {
            cog_if_kids_exec(t, a, nest, lang)
        } else {
            sat_add(1, cog_kids_exec(t, a, nest + 1, lang))
        },
        None => 0,
    };
    sat_add(sat_add(sat_add(head, cond), then_part), else_part)
}

/// Cognitive complexity of the unit at `f`.
pub fn calculate_cognitive_complexity(t: &SyntaxTree, f: usize, lang: SourceLanguage) -> (r: usize)
    requires
        t.wf(),
        f < t.len(),
    ensures
        r == sat(cog_kids(*t, f as int, 0, 0, lang) as int),
{
    cog_kids_exec(t, f, 0, lang)
}

/// (name, line, cyclomatic, cognitive) of a unit.
pub type UnitView = (Seq<char>, int, int, int);

pub open spec fn fc_view(f: FunctionComplexity) -> UnitView {
    (f.name@, f.line as int, f.complexity as int, f.cognitive_complexity as int)
}

pub open spec fn fc_views(v: Seq<FunctionComplexity>) -> Seq<UnitView> {
    v.map_values(|f: FunctionComplexity| fc_view(f))
}

/// The figures of the unit node `i` introduces, if it introduces one: its
/// name, line, `1 +` the paths of its body, and its cognitive complexity.
pub open spec fn unit_record(t: SyntaxTree, i: int, lang: SourceLanguage) -> Option<UnitView> {
    match unit_name_spec(t, i, lang) {
        Some(n) => Some(
            (
                n,
                t.line(i),
                sat(1 + cc_kids(t, i, 0, lang) as int),
                sat(cog_kids(t, i, 0, 0, lang) as int),
            ),
        ),
        None => None,
    }
}

/// Units of the subtree at `i`, in pre-order.
pub open spec fn units_at(t: SyntaxTree, i: int, lang: SourceLanguage) -> Seq<UnitView>
    decreases t.len() - i, 1int, 0int,
{
    (match unit_record(t, i, lang) {
        Some(u) => seq![u],
        None => seq![],
    }) + units_kids(t, i, 0, lang)
}

pub open spec fn units_kids(t: SyntaxTree, p: int, k: int, lang: SourceLanguage) -> Seq<UnitView>
    decreases t.len() - p, 0int, t.children(p).len() - k,
{
    if 0 <= k < t.children(p).len() {
        let c = t.children(p)[k] as int;
        (if p < c < t.len() {
            units_at(t, c, lang)
        } else {
            seq![]
        }) + units_kids(t, p, k + 1, lang)
    } else {
        seq![]
    }
}

/// All units of a file, in pre-order from the root.
pub open spec fn file_units(t: SyntaxTree, lang: SourceLanguage) -> Seq<UnitView> {
    if t.len() == 0 {
        seq![]
    } else {
        units_at(t, 0, lang)
    }
}

proof fn lemma_units_at_have_a_path(t: SyntaxTree, i: int, lang: SourceLanguage)
    ensures
        forall|k: int| 0 <= k < units_at(t, i, lang).len() ==> (#[trigger] units_at(t, i, lang)[k]).2 >= 1 && units_at(t, i, lang)[k].1 >= 1,
    decreases t.len() - i, 1int, 0int,
{
    lemma_units_kids_have_a_path(t, i, 0, lang);
    let head = match unit_record(t, i, lang) {
        Some(u) => seq![u],
        None => seq![],
    };
    let rest = units_kids(t, i, 0, lang);
    assert forall|k: int| 0 <= k < units_at(t, i, lang).len() implies (#[trigger] units_at(t, i, lang)[k]).2
        >= 1 && units_at(t, i, lang)[k].1 >= 1 by {
        if k < head.len() {
            assert(units_at(t, i, lang)[k] == head[k]);
        } else {
            assert(units_at(t, i, lang)[k] == rest[k - head.len()]);
        }
    }
}

proof fn lemma_units_kids_have_a_path(t: SyntaxTree, p: int, j: int, lang: SourceLanguage)
    ensures
        forall|k: int| 0 <= k < units_kids(t, p, j, lang).len() ==> (#[trigger] units_kids(t, p, j, lang)[k]).2 >= 1
            && units_kids(t, p, j, lang)[k].1 >= 1,
    decreases t.len() - p, 0int, t.children(p).len() - j,
{
    if 0 <= j < t.children(p).len() {
        let c = t.children(p)[j] as int;
        lemma_units_kids_have_a_path(t, p, j + 1, lang);
        let first = if p < c < t.len() {
            lemma_units_at_have_a_path(t, c, lang);
            units_at(t, c, lang)
        } else {
            seq![]
        };
        let rest = units_kids(t, p, j + 1, lang);
        assert forall|k: int| 0 <= k < units_kids(t, p, j, lang).len() implies (#[trigger] units_kids(
            t,
            p,
            j,
            lang,
        )[k]).2 >= 1 && units_kids(t, p, j, lang)[k].1 >= 1 by {
            if k < first.len() {
                assert(units_kids(t, p, j, lang)[k] == first[k]);
            } else {
                assert(units_kids(t, p, j, lang)[k] == rest[k - first.len()]);
            }
        }
    }
}

/// Every function of a file has a cyclomatic complexity of at least 1 (the
/// path through its body is always counted) and starts at a line of at
/// least 1.
pub proof fn every_function_has_a_line_and_at_least_one_path(t: SyntaxTree, lang: SourceLanguage)
    ensures
        forall|k: int| 0 <= k < file_units(t, lang).len() ==> (#[trigger] file_units(t, lang)[k]).2 >= 1
            && file_units(t, lang)[k].1 >= 1,
{
    if t.len() > 0 {
        lemma_units_at_have_a_path(t, 0, lang);
    }
}

fn visit_units(
    t: &SyntaxTree,
    i: usize,
    lang: SourceLanguage,
    out: &mut Vec<FunctionComplexity>,
)
    requires
        t.wf(),
        i < t.len(),
    ensures
        fc_views(final(out)@) == fc_views(old(out)@) + units_at(*t, i as int, lang),
    decreases t.len() - i,
{
    let ghost before = fc_views(out@);
    if let Some(name) = unit_name(t, i, lang) {
        let cc = calculate_cyclomatic(t, i, lang);
        let cog = calculate_cognitive_complexity(t, i, lang);
        let f = FunctionComplexity {
            name,
            line: t.node_line(i),
            complexity: sat_add(1, cc),
            cognitive_complexity: cog,
        };
        out.push(f);
    }
    assert(fc_views(out@) =~= before + match unit_record(*t, i as int, lang) {
        Some(u) => seq![u],
        None => seq![],
    });
    let n = t.child_count(i);
    let mut k: usize = 0;
    while k < n
        invariant
            t.wf(),
            i < t.len(),
            n == t.children(i as int).len(),
            k <= n,
            units_at(*t, i as int, lang) == (match unit_record(*t, i as int, lang) {
                Some(u) => seq![u],
                None => seq![],
            }) + units_kids(*t, i as int, 0, lang),
            fc_views(out@) + units_kids(*t, i as int, k as int, lang) == before + units_at(
                *t,
                i as int,
                lang,
            ),
        decreases n - k,
    {
        let c = t.nodes[i].children[k];
        assert(i < c < t.len()) by {
            assert(t.nodes@[i as int].children@[k as int] == c);
        }
        let ghost mid = fc_views(out@);
        visit_units(t, c, lang, out);
        assert(units_kids(*t, i as int, k as int, lang) == units_at(*t, c as int, lang) + units_kids(
            *t,
            i as int,
            k + 1,
            lang,
        ));
        assert(fc_views(out@) + units_kids(*t, i as int, k + 1, lang) =~= mid + units_kids(
            *t,
            i as int,
            k as int,
            lang,
        ));
        k = k + 1;
    }
    assert(fc_views(out@) =~= fc_views(out@) + units_kids(*t, i as int, k as int, lang));
}

/// Largest of a sequence of naturals; 0 when empty.
pub open spec fn seq_max(s: Seq<int>) -> int
    decreases s.len(),
{
    if s.len() == 0 {
        0
    } else {
        let m = seq_max(s.drop_last());
        if s.last() > m {
            s.last()
        } else {
            m
        }
    }
}

pub open spec fn cyclomatic_of(u: Seq<UnitView>) -> Seq<int> {
    u.map_values(|x: UnitView| x.2)
}

pub open spec fn cognitive_of(u: Seq<UnitView>) -> Seq<int> {
    u.map_values(|x: UnitView| x.3)
}

/// Largest cyclomatic and cognitive figures among `fs`.
pub fn max_complexities(fs: &Vec<FunctionComplexity>) -> (r: (usize, usize))
    ensures
        r.0 == seq_max(cyclomatic_of(fc_views(fs@))),
        r.1 == seq_max(cognitive_of(fc_views(fs@))),
{
    let mut mc: usize = 0;
    let mut mg: usize = 0;
    let mut k: usize = 0;
    while k < fs.len()
        invariant
            k <= fs@.len(),
            mc == seq_max(cyclomatic_of(fc_views(fs@)).take(k as int)),
            mg == seq_max(cognitive_of(fc_views(fs@)).take(k as int)),
        decreases fs@.len() - k,
    {
        assert(cyclomatic_of(fc_views(fs@)).take(k + 1).drop_last() =~= cyclomatic_of(
            fc_views(fs@),
        ).take(k as int));
        assert(cognitive_of(fc_views(fs@)).take(k + 1).drop_last() =~= cognitive_of(
            fc_views(fs@),
        ).take(k as int));
        if fs[k].complexity > mc {
            mc = fs[k].complexity;
        }
        if fs[k].cognitive_complexity > mg {
            mg = fs[k].cognitive_complexity;
        }
        k = k + 1;
    }
    assert(cyclomatic_of(fc_views(fs@)).take(k as int) =~= cyclomatic_of(fc_views(fs@)));
    assert(cognitive_of(fc_views(fs@)).take(k as int) =~= cognitive_of(fc_views(fs@)));
    (mc, mg)
}

/// Every unit of the file with its complexity figures, and the largest
/// figures among them (0 when there are none).
pub fn analyze_complexity(t: &SyntaxTree, language: SourceLanguage) -> (r: ComplexityResult)
    requires
        t.wf(),
    ensures
        fc_views(r.functions@) == file_units(*t, language),
        r.cyclomatic == seq_max(cyclomatic_of(file_units(*t, language))),
        r.cognitive == seq_max(cognitive_of(file_units(*t, language))),
        forall|k: int| 0 <= k < r.functions@.len() ==> (#[trigger] r.functions@[k]).complexity >= 1
            && r.functions@[k].line >= 1,
{
    proof {
        every_function_has_a_line_and_at_least_one_path(*t, language);
    }
    let mut functions: Vec<FunctionComplexity> = Vec::new();
    if t.node_count() > 0 {
        visit_units(t, 0, language, &mut functions);
        assert(fc_views(functions@) =~= units_at(*t, 0, language));
    } else {
        assert(fc_views(functions@) =~= Seq::<UnitView>::empty());
    }
    let (cyclomatic, cognitive) = max_complexities(&functions);
    assert forall|k: int| 0 <= k < functions@.len() implies (#[trigger] functions@[k]).complexity >= 1
        && functions@[k].line >= 1 by {
        assert(fc_views(functions@) == file_units(*t, language));
        assert(fc_views(functions@)[k] == fc_view(functions@[k]));
        assert(file_units(*t, language)[k].2 >= 1);
    }
    ComplexityResult { cyclomatic, cognitive, functions }
}

proof fn lemma_cog_kids_covers(t: SyntaxTree, p: int, k: int, j: int, nest: int, lang: SourceLanguage)
    requires
        0 <= k <= j < t.children(p).len(),
        p < t.children(p)[j] < t.len(),
    ensures
        cog_kids(t, p, k, nest, lang) >= cog_walk(t, t.children(p)[j] as int, nest, lang),
    decreases j - k,
{
    if k < j {
        lemma_cog_kids_covers(t, p, k + 1, j, nest, lang);
    }
}

/// A nesting construct (a loop, a `switch`, a `catch`, ...) at nesting level
/// `n` costs at least `1 + n`: one for itself and one for each level it is
/// nested in.
pub proof fn a_nesting_construct_costs_one_plus_its_level(t: SyntaxTree, i: int, n: int, lang: SourceLanguage)
    requires
        0 <= n,
        t.is_named(i),
        !is_unit_boundary(t, i, lang),
        !is_if_node_spec(t.kind(i)),
        is_nesting_construct_spec(t.kind(i), lang),
    ensures
        cog_walk(t, i, n, lang) >= 1 + n,
{
}

/// A nesting construct directly inside another, at level `n`, is counted
/// one level deeper: the pair costs at least `(1 + n) + (1 + (n + 1))`,
/// where the same two side by side at level `n` would cost `1 + n` each.
pub proof fn a_construct_nested_in_a_construct_costs_a_level_more(
    t: SyntaxTree,
    i: int,
    j: int,
    n: int,
    lang: SourceLanguage,
)
    requires
        t.wf(),
        0 <= i < t.len(),
        0 <= n,
        t.is_named(i),
        !is_unit_boundary(t, i, lang),
        !is_if_node_spec(t.kind(i)),
        is_nesting_construct_spec(t.kind(i), lang),
        0 <= j < t.children(i).len(),
        t.is_named(t.children(i)[j] as int),
        !is_unit_boundary(t, t.children(i)[j] as int, lang),
        !is_if_node_spec(t.kind(t.children(i)[j] as int)),
        is_nesting_construct_spec(t.kind(t.children(i)[j] as int), lang),
    ensures
        cog_walk(t, i, n, lang) >= (1 + n) + (1 + (n + 1)),
{
    let c = t.children(i)[j] as int;
    assert(t.nodes@[i].children@[j] == t.children(i)[j]);
    lemma_cog_kids_covers(t, i, 0, j, n + 1, lang);
    a_nesting_construct_costs_one_plus_its_level(t, c, n + 1, lang);
}

/// The same when the inner construct sits in a plain block of the outer
/// one (a loop body `{ ... }`): a loop in a loop body at level `n` costs at
/// least `(1 + n) + (1 + (n + 1))`.
pub proof fn a_construct_in_the_body_of_a_construct_costs_a_level_more(
    t: SyntaxTree,
    i: int,
    j: int,
    m: int,
    n: int,
    lang: SourceLanguage,
)
    requires
        t.wf(),
        0 <= i < t.len(),
        0 <= n,
        t.is_named(i),
        !is_unit_boundary(t, i, lang),
        !is_if_node_spec(t.kind(i)),
        is_nesting_construct_spec(t.kind(i), lang),
        0 <= j < t.children(i).len(),
        t.is_named(t.children(i)[j] as int),
        !is_unit_boundary(t, t.children(i)[j] as int, lang),
        !is_if_node_spec(t.kind(t.children(i)[j] as int)),
        !is_nesting_construct_spec(t.kind(t.children(i)[j] as int), lang),
        !is_top_level_logical_spec(t, t.children(i)[j] as int),
        0 <= m < t.children(t.children(i)[j] as int).len(),
        t.is_named(t.children(t.children(i)[j] as int)[m] as int),
        !is_unit_boundary(t, t.children(t.children(i)[j] as int)[m] as int, lang),
        !is_if_node_spec(t.kind(t.children(t.children(i)[j] as int)[m] as int)),
        is_nesting_construct_spec(t.kind(t.children(t.children(i)[j] as int)[m] as int), lang),
    ensures
        cog_walk(t, i, n, lang) >= (1 + n) + (1 + (n + 1)),
{
    let b = t.children(i)[j] as int;
    let c = t.children(b)[m] as int;
    assert(t.nodes@[i].children@[j] == t.children(i)[j]);
    assert(t.nodes@[b].children@[m] == t.children(b)[m]);
    lemma_cog_kids_covers(t, i, 0, j, n + 1, lang);
    lemma_cog_kids_covers(t, b, 0, m, n + 1, lang);
    a_nesting_construct_costs_one_plus_its_level(t, c, n + 1, lang);
}

/// A short-circuit `&&` or `||` adds a path: the paths of a binary
/// expression with one of them as its operator are at least one more than
/// the paths of its operands.
pub proof fn a_short_circuit_operator_adds_a_path(t: SyntaxTree, i: int, o: usize, lang: SourceLanguage)
    requires
        t.is_named(i),
        !is_unit_boundary(t, i, lang),
        t.kind(i) == "binary_expression"@,
        t.child_by_field(i, "operator"@) == Some(o),
        t.text(o as int) == "&&"@ || t.text(o as int) == "||"@,
    ensures
        cc_walk(t, i, lang) >= 1 + cc_kids(t, i, 0, lang),
{
    reveal_strlit("binary_expression");
    reveal_strlit("binary_op");
    reveal_strlit("operator");
    assert("binary_expression"@.len() != "binary_op"@.len());
    assert(crate::classify::binary_op_fields_spec(t.kind(i)) == Some(("left"@, "operator"@, "right"@)));
    assert(logical_op_spec(t, i) is Some);
}

} // verus!
