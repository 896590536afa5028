//! Classification of node kinds and operators, shared by the complexity
//! metrics and the lint rules.
//!
//! Node kinds are not unique across grammars: `match` is a Haskell equation
//! and a Lean 4 pattern match. Where a kind is contested, the language picks
//! the table.
use vstd::prelude::*;
use crate::language::SourceLanguage;
use crate::syntax::SyntaxTree;
use crate::text::str_eq;

verus! {

/// Node kinds of function-like constructs.
pub open spec fn is_function_kind_spec(k: Seq<char>) -> bool {
    k == "function_declaration"@
        || k == "function"@
        || k == "function_expression"@
        || k == "arrow_function"@
        || k == "method_definition"@
        || k == "generator_function_declaration"@
        || k == "generator_function"@
        || k == "function_item"@
        || k == "closure_expression"@
        || k == "method_declaration"@
        || k == "func_literal"@
        || k == "function_definition"@
        || k == "constructor_declaration"@
        || k == "lambda_expression"@
        || k == "method"@
        || k == "singleton_method"@
        || k == "lambda"@
        || k == "anonymous_function_creation_expression"@
        || k == "let_binding"@
        || k == "value_definition"@
        || k == "test_declaration"@
        || k == "fun_expr"@
}

/// Node kinds of function-like constructs.
pub fn is_function_kind(k: &str) -> (r: bool)
    ensures
        r == is_function_kind_spec(k@),
{
    str_eq(k, "function_declaration")
        || str_eq(k, "function")
        || str_eq(k, "function_expression")
        || str_eq(k, "arrow_function")
        || str_eq(k, "method_definition")
        || str_eq(k, "generator_function_declaration")
        || str_eq(k, "generator_function")
        || str_eq(k, "function_item")
        || str_eq(k, "closure_expression")
        || str_eq(k, "method_declaration")
        || str_eq(k, "func_literal")
        || str_eq(k, "function_definition")
        || str_eq(k, "constructor_declaration")
        || str_eq(k, "lambda_expression")
        || str_eq(k, "method")
        || str_eq(k, "singleton_method")
        || str_eq(k, "lambda")
        || str_eq(k, "anonymous_function_creation_expression")
        || str_eq(k, "let_binding")
        || str_eq(k, "value_definition")
        || str_eq(k, "test_declaration")
        || str_eq(k, "fun_expr")
}

/// Lean 4 node kinds that add a path.
pub open spec fn is_lean_cc_kind_spec(k: Seq<char>) -> bool {
    k == "if_then_else"@
        || k == "match_alt"@
        || k == "by_cases"@
}

/// Lean 4 node kinds that add a path.
pub fn is_lean_cc_kind(k: &str) -> (r: bool)
    ensures
        r == is_lean_cc_kind_spec(k@),
{
    str_eq(k, "if_then_else")
        || str_eq(k, "match_alt")
        || str_eq(k, "by_cases")
}

/// Node kinds that add a path (every grammar but Lean 4).
pub open spec fn is_general_cc_kind_spec(k: Seq<char>) -> bool {
    k == "if_statement"@
        || k == "for_statement"@
        || k == "for_in_statement"@
        || k == "while_statement"@
        || k == "do_statement"@
        || k == "switch_case"@
        || k == "ternary_expression"@
        || k == "catch_clause"@
        || k == "if_expression"@
        || k == "for_expression"@
        || k == "while_expression"@
        || k == "loop_expression"@
        || k == "match_arm"@
        || k == "elif_clause"@
        || k == "except_clause"@
        || k == "case_clause"@
        || k == "type_case_clause"@
        || k == "communication_case"@
        || k == "select_statement"@
        || k == "if"@
        || k == "elsif"@
        || k == "unless"@
        || k == "when"@
        || k == "for"@
        || k == "while"@
        || k == "until"@
        || k == "rescue"@
        || k == "match"@
        || k == "alternative"@
        || k == "guard"@
        || k == "for_in_expression"@
        || k == "case_expr"@
        || k == "if_expr"@
        || k == "receive_expr"@
        || k == "try_expr"@
        || k == "cr_clause"@
}

/// Node kinds that add a path (every grammar but Lean 4).
pub fn is_general_cc_kind(k: &str) -> (r: bool)
    ensures
        r == is_general_cc_kind_spec(k@),
{
    str_eq(k, "if_statement")
        || str_eq(k, "for_statement")
        || str_eq(k, "for_in_statement")
        || str_eq(k, "while_statement")
        || str_eq(k, "do_statement")
        || str_eq(k, "switch_case")
        || str_eq(k, "ternary_expression")
        || str_eq(k, "catch_clause")
        || str_eq(k, "if_expression")
        || str_eq(k, "for_expression")
        || str_eq(k, "while_expression")
        || str_eq(k, "loop_expression")
        || str_eq(k, "match_arm")
        || str_eq(k, "elif_clause")
        || str_eq(k, "except_clause")
        || str_eq(k, "case_clause")
        || str_eq(k, "type_case_clause")
        || str_eq(k, "communication_case")
        || str_eq(k, "select_statement")
        || str_eq(k, "if")
        || str_eq(k, "elsif")
        || str_eq(k, "unless")
        || str_eq(k, "when")
        || str_eq(k, "for")
        || str_eq(k, "while")
        || str_eq(k, "until")
        || str_eq(k, "rescue")
        || str_eq(k, "match")
        || str_eq(k, "alternative")
        || str_eq(k, "guard")
        || str_eq(k, "for_in_expression")
        || str_eq(k, "case_expr")
        || str_eq(k, "if_expr")
        || str_eq(k, "receive_expr")
        || str_eq(k, "try_expr")
        || str_eq(k, "cr_clause")
}

/// If-like node kinds.
pub open spec fn is_if_node_spec(k: Seq<char>) -> bool {
    k == "if_statement"@
        || k == "if_expression"@
        || k == "if"@
        || k == "conditional_expression"@
        || k == "if_then_else"@
}

/// If-like node kinds.
pub fn is_if_node(k: &str) -> (r: bool)
    ensures
        r == is_if_node_spec(k@),
{
    str_eq(k, "if_statement")
        || str_eq(k, "if_expression")
        || str_eq(k, "if")
        || str_eq(k, "conditional_expression")
        || str_eq(k, "if_then_else")
}

/// Lean 4 nesting constructs.
pub open spec fn is_lean_nesting_kind_spec(k: Seq<char>) -> bool {
    k == "match"@
        || k == "induction"@
}

/// Lean 4 nesting constructs.
pub fn is_lean_nesting_kind(k: &str) -> (r: bool)
    ensures
        r == is_lean_nesting_kind_spec(k@),
{
    str_eq(k, "match")
        || str_eq(k, "induction")
}

/// Nesting constructs (every grammar but Lean 4).
pub open spec fn is_general_nesting_kind_spec(k: Seq<char>) -> bool {
    k == "for_statement"@
        || k == "for_in_statement"@
        || k == "while_statement"@
        || k == "do_statement"@
        || k == "switch_statement"@
        || k == "catch_clause"@
        || k == "ternary_expression"@
        || k == "for_expression"@
        || k == "while_expression"@
        || k == "loop_expression"@
        || k == "match_expression"@
        || k == "except_clause"@
        || k == "select_statement"@
        || k == "for"@
        || k == "while"@
        || k == "until"@
        || k == "unless"@
        || k == "case"@
        || k == "rescue"@
        || k == "for_in_expression"@
        || k == "do_expression"@
        || k == "case_expr"@
        || k == "receive_expr"@
}

/// Nesting constructs (every grammar but Lean 4).
pub fn is_general_nesting_kind(k: &str) -> (r: bool)
    ensures
        r == is_general_nesting_kind_spec(k@),
{
    str_eq(k, "for_statement")
        || str_eq(k, "for_in_statement")
        || str_eq(k, "while_statement")
        || str_eq(k, "do_statement")
        || str_eq(k, "switch_statement")
        || str_eq(k, "catch_clause")
        || str_eq(k, "ternary_expression")
        || str_eq(k, "for_expression")
        || str_eq(k, "while_expression")
        || str_eq(k, "loop_expression")
        || str_eq(k, "match_expression")
        || str_eq(k, "except_clause")
        || str_eq(k, "select_statement")
        || str_eq(k, "for")
        || str_eq(k, "while")
        || str_eq(k, "until")
        || str_eq(k, "unless")
        || str_eq(k, "case")
        || str_eq(k, "rescue")
        || str_eq(k, "for_in_expression")
        || str_eq(k, "do_expression")
        || str_eq(k, "case_expr")
        || str_eq(k, "receive_expr")
}

/// Break and continue node kinds.
pub open spec fn is_break_continue_spec(k: Seq<char>) -> bool {
    k == "break_statement"@
        || k == "continue_statement"@
        || k == "break_expression"@
        || k == "continue_expression"@
        || k == "break"@
}

/// Break and continue node kinds.
pub fn is_break_continue(k: &str) -> (r: bool)
    ensures
        r == is_break_continue_spec(k@),
{
    str_eq(k, "break_statement")
        || str_eq(k, "continue_statement")
        || str_eq(k, "break_expression")
        || str_eq(k, "continue_expression")
        || str_eq(k, "break")
}

/// Logical operators (`∧` / `∨` are Lean 4's connectives).
pub open spec fn is_logical_op_spec(k: Seq<char>) -> bool {
    k == "&&"@
        || k == "||"@
        || k == "??"@
        || k == "and"@
        || k == "or"@
        || k == "∧"@
        || k == "∨"@
}

/// Logical operators (`∧` / `∨` are Lean 4's connectives).
pub fn is_logical_op(k: &str) -> (r: bool)
    ensures
        r == is_logical_op_spec(k@),
{
    str_eq(k, "&&")
        || str_eq(k, "||")
        || str_eq(k, "??")
        || str_eq(k, "and")
        || str_eq(k, "or")
        || str_eq(k, "∧")
        || str_eq(k, "∨")
}

/// Clojure forms that branch.
pub open spec fn is_clojure_branch_form_spec(k: Seq<char>) -> bool {
    k == "if"@
        || k == "if-let"@
        || k == "if-not"@
        || k == "if-some"@
        || k == "when"@
        || k == "when-let"@
        || k == "when-not"@
        || k == "when-first"@
        || k == "cond"@
        || k == "condp"@
        || k == "case"@
        || k == "and"@
        || k == "or"@
}

/// Clojure forms that branch.
pub fn is_clojure_branch_form(k: &str) -> (r: bool)
    ensures
        r == is_clojure_branch_form_spec(k@),
{
    str_eq(k, "if")
        || str_eq(k, "if-let")
        || str_eq(k, "if-not")
        || str_eq(k, "if-some")
        || str_eq(k, "when")
        || str_eq(k, "when-let")
        || str_eq(k, "when-not")
        || str_eq(k, "when-first")
        || str_eq(k, "cond")
        || str_eq(k, "condp")
        || str_eq(k, "case")
        || str_eq(k, "and")
        || str_eq(k, "or")
}

/// Does a node of this kind add a path for cyclomatic complexity?
pub open spec fn is_cc_increment_spec(k: Seq<char>, lang: SourceLanguage) -> bool {
    if lang == SourceLanguage::Lean {
        is_lean_cc_kind_spec(k)
    } else {
        is_general_cc_kind_spec(k)
    }
}

pub fn is_cc_increment(kind: &str, lang: SourceLanguage) -> (r: bool)
    ensures
        r == is_cc_increment_spec(kind@, lang),
{
    if lang == SourceLanguage::Lean {
        is_lean_cc_kind(kind)
    } else {
        is_general_cc_kind(kind)
    }
}

/// Is a node of this kind a nesting construct for cognitive complexity?
pub open spec fn is_nesting_construct_spec(k: Seq<char>, lang: SourceLanguage) -> bool {
    if lang == SourceLanguage::Lean {
        is_lean_nesting_kind_spec(k)
    } else {
        is_general_nesting_kind_spec(k)
    }
}

pub fn is_nesting_construct(kind: &str, lang: SourceLanguage) -> (r: bool)
    ensures
        r == is_nesting_construct_spec(kind@, lang),
{
    if lang == SourceLanguage::Lean {
        is_lean_nesting_kind(kind)
    } else {
        is_general_nesting_kind(kind)
    }
}

/// Lean 4 nests exactly in `match` and `induction`; in every other grammar
/// neither of those kinds nests.
pub proof fn only_lean_nests_in_match_and_induction(k: Seq<char>, lang: SourceLanguage)
    ensures
        lang == SourceLanguage::Lean ==> (is_nesting_construct_spec(k, lang) <==> (k == "match"@ || k
            == "induction"@)),
        lang != SourceLanguage::Lean ==> !is_nesting_construct_spec("match"@, lang)
            && !is_nesting_construct_spec("induction"@, lang),
{
    reveal_strlit("match");
    reveal_strlit("induction");
    reveal_strlit("for_statement");
    reveal_strlit("for_in_statement");
    reveal_strlit("while_statement");
    reveal_strlit("do_statement");
    reveal_strlit("switch_statement");
    reveal_strlit("catch_clause");
    reveal_strlit("ternary_expression");
    reveal_strlit("for_expression");
    reveal_strlit("while_expression");
    reveal_strlit("loop_expression");
    reveal_strlit("match_expression");
    reveal_strlit("except_clause");
    reveal_strlit("select_statement");
    reveal_strlit("for");
    reveal_strlit("while");
    reveal_strlit("until");
    reveal_strlit("unless");
    reveal_strlit("case");
    reveal_strlit("rescue");
    reveal_strlit("for_in_expression");
    reveal_strlit("do_expression");
    reveal_strlit("case_expr");
    reveal_strlit("receive_expr");
    let (m, n) = ("match"@, "induction"@);
    assert(m.len() != "for_statement"@.len());
    assert(m.len() != "for_in_statement"@.len());
    assert(m.len() != "while_statement"@.len());
    assert(m.len() != "do_statement"@.len());
    assert(m.len() != "switch_statement"@.len());
    assert(m.len() != "catch_clause"@.len());
    assert(m.len() != "ternary_expression"@.len());
    assert(m.len() != "for_expression"@.len());
    assert(m.len() != "while_expression"@.len());
    assert(m.len() != "loop_expression"@.len());
    assert(m.len() != "match_expression"@.len());
    assert(m.len() != "except_clause"@.len());
    assert(m.len() != "select_statement"@.len());
    assert(m.len() != "for"@.len());
    assert(m[0] != "while"@[0]);
    assert(m[0] != "until"@[0]);
    assert(m.len() != "unless"@.len());
    assert(m.len() != "case"@.len());
    assert(m.len() != "rescue"@.len());
    assert(m.len() != "for_in_expression"@.len());
    assert(m.len() != "do_expression"@.len());
    assert(m.len() != "case_expr"@.len());
    assert(m.len() != "receive_expr"@.len());
    assert(n.len() != "for_statement"@.len());
    assert(n.len() != "for_in_statement"@.len());
    assert(n.len() != "while_statement"@.len());
    assert(n.len() != "do_statement"@.len());
    assert(n.len() != "switch_statement"@.len());
    assert(n.len() != "catch_clause"@.len());
    assert(n.len() != "ternary_expression"@.len());
    assert(n.len() != "for_expression"@.len());
    assert(n.len() != "while_expression"@.len());
    assert(n.len() != "loop_expression"@.len());
    assert(n.len() != "match_expression"@.len());
    assert(n.len() != "except_clause"@.len());
    assert(n.len() != "select_statement"@.len());
    assert(n.len() != "for"@.len());
    assert(n.len() != "while"@.len());
    assert(n.len() != "until"@.len());
    assert(n.len() != "unless"@.len());
    assert(n.len() != "case"@.len());
    assert(n.len() != "rescue"@.len());
    assert(n.len() != "for_in_expression"@.len());
    assert(n.len() != "do_expression"@.len());
    assert(n[0] != "case_expr"@[0]);
    assert(n.len() != "receive_expr"@.len());
    assert(!is_general_nesting_kind_spec(m));
    assert(!is_general_nesting_kind_spec(n));
}

/// Field names of the (left, operator, right) parts of a binary expression;
/// Lean 4 uses `lhs`/`op`/`rhs`.
pub open spec fn binary_op_fields_spec(k: Seq<char>) -> Option<(Seq<char>, Seq<char>, Seq<char>)> {
    if k == "binary_expression"@ {
        Some(("left"@, "operator"@, "right"@))
    } else if k == "binary_op"@ {
        Some(("lhs"@, "op"@, "rhs"@))
    } else {
        None
    }
}

pub fn binary_op_fields(kind: &str) -> (r: Option<(&'static str, &'static str, &'static str)>)
    ensures
        match r {
            Some((a, b, c)) => binary_op_fields_spec(kind@) == Some((a@, b@, c@)),
            None => binary_op_fields_spec(kind@) is None,
        },
{
    if str_eq(kind, "binary_expression") {
        Some(("left", "operator", "right"))
    } else if str_eq(kind, "binary_op") {
        Some(("lhs", "op", "rhs"))
    } else {
        None
    }
}

/// Field names of the (condition, consequence, alternative) parts of an if node.
pub open spec fn if_fields_spec(k: Seq<char>) -> (Seq<char>, Seq<char>, Seq<char>) {
    if k == "if_then_else"@ {
        ("cond"@, "then"@, "else"@)
    } else {
        ("condition"@, "consequence"@, "alternative"@)
    }
}

pub fn if_fields(kind: &str) -> (r: (&'static str, &'static str, &'static str))
    ensures
        if_fields_spec(kind@) == (r.0@, r.1@, r.2@),
{
    if str_eq(kind, "if_then_else") {
        ("cond", "then", "else")
    } else {
        ("condition", "consequence", "alternative")
    }
}

/// Is node `i` a function definition? A `function` / `generator_function`
/// directly under another function-like node is the same definition seen twice
/// and does not count.
pub open spec fn is_function_node_spec(t: SyntaxTree, i: int) -> bool {
    let k = t.kind(i);
    is_function_kind_spec(k) && !((k == "function"@ || k == "generator_function"@) && match t.parent(i) {
        Some(p) => is_function_kind_spec(t.kind(p as int)),
        None => false,
    })
}

pub fn is_function_node(t: &SyntaxTree, i: usize) -> (r: bool)
    requires
        t.wf(),
        i < t.len(),
    ensures
        r == is_function_node_spec(*t, i as int),
{
    let k = t.node_kind(i);
    if !is_function_kind(k) {
        return false;
    }
    if str_eq(k, "function") || str_eq(k, "generator_function") {
        if let Some(p) = t.node_parent(i) {
            assert(p < i) by {
                assert(t.nodes@[i as int].parent == Some(p));
            }
            if is_function_kind(t.node_kind(p)) {
                return false;
            }
        }
    }
    true
}

/// The operator of binary node `i`, if it is a logical one.
pub open spec fn logical_op_spec(t: SyntaxTree, i: int) -> Option<Seq<char>> {
    match binary_op_fields_spec(t.kind(i)) {
        None => None,
        Some((_, op_field, _)) => match t.child_by_field(i, op_field) {
            None => None,
            Some(o) => if is_logical_op_spec(t.text(o as int)) {
                Some(t.text(o as int))
            } else {
                None
            },
        },
    }
}

pub fn logical_op_text<'a>(t: &'a SyntaxTree, i: usize) -> (r: Option<&'a str>)
    requires
        t.wf(),
        i < t.len(),
    ensures
        match r {
            Some(s) => logical_op_spec(*t, i as int) == Some(s@),
            None => logical_op_spec(*t, i as int) is None,
        },
{
    let (_, op_field, _) = match binary_op_fields(t.node_kind(i)) {
        Some(f) => f,
        None => return None,
    };
    let o = match t.field_child(i, op_field) {
        Some(o) => o,
        None => return None,
    };
    let text = t.node_text(o);
    if is_logical_op(text) {
        Some(text)
    } else {
        None
    }
}

/// The logical operators of a binary expression tree, flattened left to right.
pub open spec fn logical_ops(t: SyntaxTree, i: int) -> Seq<Seq<char>>
    decreases t.len() - i,
{
    match binary_op_fields_spec(t.kind(i)) {
        None => seq![],
        Some((left_field, _, right_field)) => match logical_op_spec(t, i) {
            None => seq![],
            Some(op) => {
                let left = match t.child_by_field(i, left_field) {
                    Some(l) => if i < l < t.len() {
                        logical_ops(t, l as int)
                    } else {
                        seq![]
                    },
                    None => seq![],
                };
                let right = match t.child_by_field(i, right_field) {
                    Some(r) => if i < r < t.len() {
                        logical_ops(t, r as int)
                    } else {
                        seq![]
                    },
                    None => seq![],
                };
                left + seq![op] + right
            },
        },
    }
}

/// Number of maximal runs of equal adjacent operators.
pub open spec fn op_switches(ops: Seq<Seq<char>>) -> nat
    decreases ops.len(),
{
    if ops.len() == 0 {
        0
    } else {
        op_switches(ops.drop_last()) + if ops.len() == 1 || ops.last() != ops[ops.len() - 2] {
            1nat
        } else {
            0nat
        }
    }
}

pub open spec fn views<'a>(v: Seq<&'a str>) -> Seq<Seq<char>> {
    v.map_values(|s: &'a str| s@)
}

fn collect_logical_ops<'a>(t: &'a SyntaxTree, i: usize, ops: &mut Vec<&'a str>)
    requires
        t.wf(),
        i < t.len(),
    ensures
        views(final(ops)@) == views(old(ops)@) + logical_ops(*t, i as int),
    decreases t.len() - i,
{
    let (left_field, _, right_field) = match binary_op_fields(t.node_kind(i)) {
        Some(f) => f,
        None => {
            assert(views(ops@) =~= views(ops@) + logical_ops(*t, i as int));
            return;
        },
    };
    let op = match logical_op_text(t, i) {
        Some(op) => op,
        None => {
            assert(views(ops@) =~= views(ops@) + logical_ops(*t, i as int));
            return;
        },
    };
    let ghost before = views(ops@);
    if let Some(l) = t.field_child(i, left_field) {
        collect_logical_ops(t, l, ops);
    }
    let ghost after_left = views(ops@);
    ops.push(op);
    assert(views(ops@) =~= after_left + seq![op@]);
    let ghost after_op = views(ops@);
    if let Some(r) = t.field_child(i, right_field) {
        collect_logical_ops(t, r, ops);
    }
    assert(views(ops@) =~= before + logical_ops(*t, i as int));
}

/// Number of runs of equal adjacent logical operators in the expression at `i`
/// (`a && b || c` has two).
pub fn count_logical_op_switches(t: &SyntaxTree, i: usize) -> (r: usize)
    requires
        t.wf(),
        i < t.len(),
    ensures
        r == op_switches(logical_ops(*t, i as int)),
{
    let mut ops: Vec<&str> = Vec::new();
    collect_logical_ops(t, i, &mut ops);
    assert(views(ops@) =~= logical_ops(*t, i as int));
    let mut count: usize = 0;
    let mut k: usize = 0;
    while k < ops.len()
        invariant
            k <= ops@.len(),
            count <= k,
            count == op_switches(views(ops@).take(k as int)),
        decreases ops@.len() - k,
    {
        let is_new = if k == 0 {
            true
        } else {
            !str_eq(ops[k], ops[k - 1])
        };
        assert(views(ops@).take(k + 1).drop_last() =~= views(ops@).take(k as int));
        if is_new {
            count = count + 1;
        }
        k = k + 1;
    }
    assert(views(ops@).take(k as int) =~= views(ops@));
    count
}

/// Is node `i` a logical expression whose parent is not one?
pub open spec fn is_top_level_logical_spec(t: SyntaxTree, i: int) -> bool {
    logical_op_spec(t, i) is Some && match t.parent(i) {
        None => true,
        Some(p) => logical_op_spec(t, p as int) is None,
    }
}

pub fn is_top_level_logical(t: &SyntaxTree, i: usize) -> (r: bool)
    requires
        t.wf(),
        i < t.len(),
    ensures
        r == is_top_level_logical_spec(*t, i as int),
{
    if logical_op_text(t, i).is_none() {
        return false;
    }
    match t.node_parent(i) {
        None => true,
        Some(p) => {
            assert(p < i) by {
                assert(t.nodes@[i as int].parent == Some(p));
            }
            logical_op_text(t, p).is_none()
        },
    }
}

} // verus!
