//! Names of function-sized units, and recognizers for declarations that
//! grammars do not model as a dedicated node kind.
use vstd::prelude::*;
use crate::classify::{is_function_node, is_function_node_spec};
use crate::language::SourceLanguage;
use crate::syntax::SyntaxTree;
use crate::text::str_eq;

verus! {

/// `a + " " + b`.
pub fn join_space(a: &str, b: &str) -> (r: String)
    ensures
        r@ == a@ + " "@ + b@,
{
    let mut s = a.to_owned();
    s.append(" ");
    s.append(b);
    s
}

/// `a + b`.
pub fn concat(a: &str, b: &str) -> (r: String)
    ensures
        r@ == a@ + b@,
{
    let mut s = a.to_owned();
    s.append(b);
    s
}

/// The text of `child` if there is one, else `fallback`.
pub open spec fn text_or(t: SyntaxTree, child: Option<usize>, fallback: Seq<char>) -> Seq<char> {
    match child {
        Some(c) => t.text(c as int),
        None => fallback,
    }
}

/// Name of a C/C++ declarator: the identifier it declares.
pub open spec fn declarator_name(t: SyntaxTree, d: int) -> Option<Seq<char>>
    decreases t.len() - d,
{
    let k = t.kind(d);
    let nested = match t.child_by_field(d, "declarator"@) {
        Some(c) => if d < c < t.len() {
            declarator_name(t, c as int)
        } else {
            None
        },
        None => None,
    };
    if k == "identifier"@ {
        Some(t.text(d))
    } else if k == "function_declarator"@ || k == "pointer_declarator"@ || k
        == "reference_declarator"@ {
        nested
    } else {
        match nested {
            Some(n) => Some(n),
            None => match t.child_by_kind(d, "identifier"@) {
                Some(c) => Some(t.text(c as int)),
                None => None,
            },
        }
    }
}

fn extract_declarator_name(t: &SyntaxTree, d: usize) -> (r: Option<String>)
    requires
        t.wf(),
        d < t.len(),
    ensures
        match r {
            Some(s) => declarator_name(*t, d as int) == Some(s@),
            None => declarator_name(*t, d as int) is None,
        },
    decreases t.len() - d,
{
    if t.kind_is(d, "identifier") {
        return Some(t.node_text(d).to_owned());
    }
    let nested = match t.field_child(d, "declarator") {
        Some(c) => extract_declarator_name(t, c),
        None => None,
    };
    if t.kind_is(d, "function_declarator") || t.kind_is(d, "pointer_declarator") || t.kind_is(
        d,
        "reference_declarator",
    ) {
        return nested;
    }
    match nested {
        Some(n) => Some(n),
        None => match t.kind_child(d, "identifier") {
            Some(c) => Some(t.node_text(c).to_owned()),
            None => None,
        },
    }
}

/// The `name` field, else a `function_name` child (PHP), else the name inside
/// the `declarator` field (C/C++), else `fallback`.
pub open spec fn name_field_or(t: SyntaxTree, i: int, fallback: Seq<char>) -> Seq<char> {
    match t.child_by_field(i, "name"@) {
        Some(n) => t.text(n as int),
        None => match t.child_by_kind(i, "function_name"@) {
            Some(n) => t.text(n as int),
            None => match t.child_by_field(i, "declarator"@) {
                Some(d) => match declarator_name(t, d as int) {
                    Some(n) => n,
                    None => fallback,
                },
                None => fallback,
            },
        },
    }
}

fn name_field_or_exec(t: &SyntaxTree, i: usize, fallback: &str) -> (r: String)
    requires
        t.wf(),
        i < t.len(),
    ensures
        r@ == name_field_or(*t, i as int, fallback@),
{
    if let Some(n) = t.field_child(i, "name") {
        return t.node_text(n).to_owned();
    }
    if let Some(n) = t.kind_child(i, "function_name") {
        return t.node_text(n).to_owned();
    }
    if let Some(d) = t.field_child(i, "declarator") {
        return match extract_declarator_name(t, d) {
            Some(n) => n,
            None => fallback.to_owned(),
        };
    }
    fallback.to_owned()
}

/// A closure bound by `let` is named by the pattern it is bound to.
pub open spec fn closure_name(t: SyntaxTree, i: int) -> Seq<char> {
    match t.parent(i) {
        Some(p) => if t.kind(p as int) == "let_declaration"@ {
            text_or(t, t.child_by_field(p as int, "pattern"@), "(closure)"@)
        } else {
            "(closure)"@
        },
        None => "(closure)"@,
    }
}

fn closure_name_exec(t: &SyntaxTree, i: usize) -> (r: String)
    requires
        t.wf(),
        i < t.len(),
    ensures
        r@ == closure_name(*t, i as int),
{
    if let Some(p) = t.node_parent(i) {
        assert(p < i) by {
            assert(t.nodes@[i as int].parent == Some(p));
        }
        if t.kind_is(p, "let_declaration") {
            if let Some(pat) = t.field_child(p, "pattern") {
                return t.node_text(pat).to_owned();
            }
        }
    }
    "(closure)".to_owned()
}

/// A method's `name` field, prefixed with `get` / `set` for accessors.
pub open spec fn method_name(t: SyntaxTree, i: int) -> Seq<char> {
    match t.child_by_field(i, "name"@) {
        None => "(anonymous)"@,
        Some(n) => match t.child_at(i, 0) {
            Some(f) => if t.text(f as int) == "get"@ || t.text(f as int) == "set"@ {
                t.text(f as int) + " "@ + t.text(n as int)
            } else {
                t.text(n as int)
            },
            None => t.text(n as int),
        },
    }
}

fn method_name_exec(t: &SyntaxTree, i: usize) -> (r: String)
    requires
        t.wf(),
        i < t.len(),
    ensures
        r@ == method_name(*t, i as int),
{
    let n = match t.field_child(i, "name") {
        Some(n) => n,
        None => return "(anonymous)".to_owned(),
    };
    if let Some(f) = t.child(i, 0) {
        if t.text_is(f, "get") || t.text_is(f, "set") {
            return join_space(t.node_text(f), t.node_text(n));
        }
    }
    t.node_text(n).to_owned()
}

/// A function expression is named by its own `name`, else by what it is
/// assigned to: the `name` of a declarator or assignment, the `key` of a pair.
pub open spec fn expr_name(t: SyntaxTree, i: int) -> Seq<char> {
    let k = t.kind(i);
    let own = if k == "function_expression"@ || k == "function"@ {
        t.child_by_field(i, "name"@)
    } else {
        None
    };
    match own {
        Some(n) => t.text(n as int),
        None => match t.parent(i) {
            None => "(anonymous)"@,
            Some(p) => {
                let pk = t.kind(p as int);
                if pk == "variable_declarator"@ || pk == "short_var_declaration"@ || pk
                    == "assignment"@ {
                    text_or(t, t.child_by_field(p as int, "name"@), "(anonymous)"@)
                } else if pk == "pair"@ {
                    text_or(t, t.child_by_field(p as int, "key"@), "(anonymous)"@)
                } else {
                    "(anonymous)"@
                }
            },
        },
    }
}

fn expr_name_exec(t: &SyntaxTree, i: usize) -> (r: String)
    requires
        t.wf(),
        i < t.len(),
    ensures
        r@ == expr_name(*t, i as int),
{
    if t.kind_is(i, "function_expression") || t.kind_is(i, "function") {
        if let Some(n) = t.field_child(i, "name") {
            return t.node_text(n).to_owned();
        }
    }
    if let Some(p) = t.node_parent(i) {
        assert(p < i) by {
            assert(t.nodes@[i as int].parent == Some(p));
        }
        let field = if t.kind_is(p, "variable_declarator") || t.kind_is(p, "short_var_declaration")
            || t.kind_is(p, "assignment") {
            "name"
        } else if t.kind_is(p, "pair") {
            "key"
        } else {
            return "(anonymous)".to_owned();
        };
        if let Some(n) = t.field_child(p, field) {
            return t.node_text(n).to_owned();
        }
    }
    "(anonymous)".to_owned()
}

/// A human-readable name for function node `i`.
pub open spec fn function_name(t: SyntaxTree, i: int) -> Seq<char> {
    let k = t.kind(i);
    if k == "function_item"@ || k == "function_declaration"@ || k
        == "generator_function_declaration"@ || k == "function_definition"@ || k
        == "method_declaration"@ || k == "constructor_declaration"@ {
        name_field_or(t, i, "(anonymous)"@)
    } else if k == "test_declaration"@ {
        text_or(t, t.child_by_kind(i, "string_literal"@), "(test)"@)
    } else if k == "closure_expression"@ {
        closure_name(t, i)
    } else if k == "method_definition"@ || k == "method"@ || k == "singleton_method"@ {
        method_name(t, i)
    } else if k == "arrow_function"@ || k == "function_expression"@ || k == "function"@ || k
        == "generator_function"@ || k == "lambda_expression"@ || k
        == "anonymous_function_creation_expression"@ || k == "lambda"@ || k
        == "func_literal"@ {
        expr_name(t, i)
    } else if k == "let_binding"@ || k == "value_definition"@ {
        name_field_or(t, i, "(anonymous)"@)
    } else {
        "(anonymous)"@
    }
}

pub fn get_function_name(t: &SyntaxTree, i: usize) -> (r: String)
    requires
        t.wf(),
        i < t.len(),
    ensures
        r@ == function_name(*t, i as int),
{
    let k = t.node_kind(i);
    if str_eq(k, "function_item") || str_eq(k, "function_declaration") || str_eq(
        k,
        "generator_function_declaration",
    ) || str_eq(k, "function_definition") || str_eq(k, "method_declaration") || str_eq(
        k,
        "constructor_declaration",
    ) {
        name_field_or_exec(t, i, "(anonymous)")
    } else if str_eq(k, "test_declaration") {
        match t.kind_child(i, "string_literal") {
            Some(c) => t.node_text(c).to_owned(),
            None => "(test)".to_owned(),
        }
    } else if str_eq(k, "closure_expression") {
        closure_name_exec(t, i)
    } else if str_eq(k, "method_definition") || str_eq(k, "method") || str_eq(
        k,
        "singleton_method",
    ) {
        method_name_exec(t, i)
    } else if str_eq(k, "arrow_function") || str_eq(k, "function_expression") || str_eq(
        k,
        "function",
    ) || str_eq(k, "generator_function") || str_eq(k, "lambda_expression") || str_eq(
        k,
        "anonymous_function_creation_expression",
    ) || str_eq(k, "lambda") || str_eq(k, "func_literal") {
        expr_name_exec(t, i)
    } else if str_eq(k, "let_binding") || str_eq(k, "value_definition") {
        name_field_or_exec(t, i, "(anonymous)")
    } else {
        "(anonymous)".to_owned()
    }
}

/// Is node `i` a Lean 4 `instance` declaration? (Haskell has an `instance`
/// kind too; callers check the language first.)
pub open spec fn is_lean_instance_spec(t: SyntaxTree, i: int) -> bool {
    t.kind(i) == "instance"@ && t.is_named(i)
}

pub fn is_lean_instance(t: &SyntaxTree, i: usize) -> (r: bool)
    requires
        i < t.len(),
    ensures
        r == is_lean_instance_spec(*t, i as int),
{
    t.kind_is(i, "instance") && t.node_named(i)
}

/// The first named node of `cs` in field `f`.
pub open spec fn first_named_in_field(t: SyntaxTree, cs: Seq<usize>, f: Seq<char>) -> Option<usize>
    decreases cs.len(),
{
    if cs.len() == 0 {
        None
    } else if t.field(cs[0] as int) == Some(f) && t.is_named(cs[0] as int) {
        Some(cs[0])
    } else {
        first_named_in_field(t, cs.drop_first(), f)
    }
}

/// A Lean instance's name; unnamed instances are called after the type they
/// implement.
pub open spec fn lean_instance_name_spec(t: SyntaxTree, i: int) -> Seq<char> {
    match t.child_by_field(i, "name"@) {
        Some(n) => t.text(n as int),
        None => match first_named_in_field(t, t.children(i), "type"@) {
            Some(ty) => "instance "@ + t.text(ty as int),
            None => "(instance)"@,
        },
    }
}

pub fn lean_instance_name(t: &SyntaxTree, i: usize) -> (r: String)
    requires
        t.wf(),
        i < t.len(),
    ensures
        r@ == lean_instance_name_spec(*t, i as int),
{
    if let Some(n) = t.field_child(i, "name") {
        return t.node_text(n).to_owned();
    }
    let cs = &t.nodes[i].children;
    let mut q: usize = 0;
    assert(cs@.skip(0) =~= cs@);
    while q < cs.len()
        invariant
            t.wf(),
            i < t.len(),
            cs@ == t.children(i as int),
            q <= cs@.len(),
            t.child_by_field(i as int, "name"@) is None,
            first_named_in_field(*t, t.children(i as int), "type"@) == first_named_in_field(
                *t,
                cs@.skip(q as int),
                "type"@,
            ),
        decreases cs@.len() - q,
    {
        let c = cs[q];
        assert(cs@.skip(q as int).drop_first() =~= cs@.skip(q + 1));
        assert(cs@.skip(q as int)[0] == c);
        assert(c < t.nodes@.len()) by {
            assert(t.nodes@[i as int].children@[q as int] == c);
        }
        let in_type = match &t.nodes[c].field {
            Some(f) => str_eq(f.as_str(), "type"),
            None => false,
        };
        if in_type && t.node_named(c) {
            assert(first_named_in_field(*t, cs@.skip(q as int), "type"@) == Some(c));
            return concat("instance ", t.node_text(c));
        }
        q = q + 1;
    }
    assert(cs@.skip(q as int) =~= Seq::<usize>::empty());
    "(instance)".to_owned()
}

/// Is node `i` a Clojure `defn` / `defn-` / `defmacro` form?
pub open spec fn is_clojure_defn_spec(t: SyntaxTree, i: int) -> bool {
    t.kind(i) == "list_lit"@ && match t.child_by_kind(i, "sym_lit"@) {
        Some(c) => {
            let s = t.text(c as int);
            s == "defn"@ || s == "defn-"@ || s == "defmacro"@
        },
        None => false,
    }
}

pub fn is_clojure_defn(t: &SyntaxTree, i: usize) -> (r: bool)
    requires
        t.wf(),
        i < t.len(),
    ensures
        r == is_clojure_defn_spec(*t, i as int),
{
    if !t.kind_is(i, "list_lit") {
        return false;
    }
    match t.kind_child(i, "sym_lit") {
        Some(c) => t.text_is(c, "defn") || t.text_is(c, "defn-") || t.text_is(c, "defmacro"),
        None => false,
    }
}

/// The second node of `cs` of kind `k` (`seen` once the first has passed).
pub open spec fn next_of_kind(t: SyntaxTree, cs: Seq<usize>, k: Seq<char>, seen: bool) -> Option<usize>
    decreases cs.len(),
{
    if cs.len() == 0 {
        None
    } else if t.kind(cs[0] as int) == k {
        if seen {
            Some(cs[0])
        } else {
            next_of_kind(t, cs.drop_first(), k, true)
        }
    } else {
        next_of_kind(t, cs.drop_first(), k, seen)
    }
}

/// A Clojure definition is named by its second symbol.
pub open spec fn clojure_defn_name_spec(t: SyntaxTree, i: int) -> Seq<char> {
    text_or(t, next_of_kind(t, t.children(i), "sym_lit"@, false), "(anonymous)"@)
}

pub fn clojure_defn_name(t: &SyntaxTree, i: usize) -> (r: String)
    requires
        t.wf(),
        i < t.len(),
    ensures
        r@ == clojure_defn_name_spec(*t, i as int),
{
    let cs = &t.nodes[i].children;
    let mut q: usize = 0;
    let mut seen = false;
    assert(cs@.skip(0) =~= cs@);
    while q < cs.len()
        invariant
            t.wf(),
            i < t.len(),
            cs@ == t.children(i as int),
            q <= cs@.len(),
            next_of_kind(*t, t.children(i as int), "sym_lit"@, false) == next_of_kind(
                *t,
                cs@.skip(q as int),
                "sym_lit"@,
                seen,
            ),
        decreases cs@.len() - q,
    {
        let c = cs[q];
        assert(cs@.skip(q as int).drop_first() =~= cs@.skip(q + 1));
        assert(cs@.skip(q as int)[0] == c);
        assert(c < t.nodes@.len()) by {
            assert(t.nodes@[i as int].children@[q as int] == c);
        }
        if t.kind_is(c, "sym_lit") {
            if seen {
                return t.node_text(c).to_owned();
            }
            seen = true;
        }
        q = q + 1;
    }
    assert(cs@.skip(q as int) =~= Seq::<usize>::empty());
    "(anonymous)".to_owned()
}

/// Is node `i` an Erlang function declaration?
pub open spec fn is_erlang_fun_decl_spec(t: SyntaxTree, i: int) -> bool {
    t.kind(i) == "fun_decl"@
}

pub fn is_erlang_fun_decl(t: &SyntaxTree, i: usize) -> (r: bool)
    requires
        i < t.len(),
    ensures
        r == is_erlang_fun_decl_spec(*t, i as int),
{
    t.kind_is(i, "fun_decl")
}

/// The `name` of the first `function_clause` of `cs` that has one.
pub open spec fn first_clause_name(t: SyntaxTree, cs: Seq<usize>) -> Option<usize>
    decreases cs.len(),
{
    if cs.len() == 0 {
        None
    } else if t.kind(cs[0] as int) == "function_clause"@ && t.child_by_field(
        cs[0] as int,
        "name"@,
    ) is Some {
        t.child_by_field(cs[0] as int, "name"@)
    } else {
        first_clause_name(t, cs.drop_first())
    }
}

pub open spec fn erlang_fun_name_spec(t: SyntaxTree, i: int) -> Seq<char> {
    text_or(t, first_clause_name(t, t.children(i)), "(anonymous)"@)
}

pub fn erlang_fun_name(t: &SyntaxTree, i: usize) -> (r: String)
    requires
        t.wf(),
        i < t.len(),
    ensures
        r@ == erlang_fun_name_spec(*t, i as int),
{
    let cs = &t.nodes[i].children;
    let mut q: usize = 0;
    assert(cs@.skip(0) =~= cs@);
    while q < cs.len()
        invariant
            t.wf(),
            i < t.len(),
            cs@ == t.children(i as int),
            q <= cs@.len(),
            first_clause_name(*t, t.children(i as int)) == first_clause_name(*t, cs@.skip(q as int)),
        decreases cs@.len() - q,
    {
        let c = cs[q];
        assert(cs@.skip(q as int).drop_first() =~= cs@.skip(q + 1));
        assert(cs@.skip(q as int)[0] == c);
        assert(c < t.nodes@.len()) by {
            assert(t.nodes@[i as int].children@[q as int] == c);
        }
        if t.kind_is(c, "function_clause") {
            if let Some(n) = t.field_child(c, "name") {
                return t.node_text(n).to_owned();
            }
        }
        q = q + 1;
    }
    assert(cs@.skip(q as int) =~= Seq::<usize>::empty());
    "(anonymous)".to_owned()
}

/// Is node `i` an Elixir `def` / `defp` / `defmacro` / `defmacrop` call?
pub open spec fn is_elixir_def_call_spec(t: SyntaxTree, i: int) -> bool {
    t.kind(i) == "call"@ && match t.child_by_field(i, "target"@) {
        Some(tg) => {
            let s = t.text(tg as int);
            s == "def"@ || s == "defp"@ || s == "defmacro"@ || s == "defmacrop"@
        },
        None => false,
    }
}

pub fn is_elixir_def_call(t: &SyntaxTree, i: usize) -> (r: bool)
    requires
        t.wf(),
        i < t.len(),
    ensures
        r == is_elixir_def_call_spec(*t, i as int),
{
    if !t.kind_is(i, "call") {
        return false;
    }
    match t.field_child(i, "target") {
        Some(tg) => t.text_is(tg, "def") || t.text_is(tg, "defp") || t.text_is(tg, "defmacro")
            || t.text_is(tg, "defmacrop"),
        None => false,
    }
}

/// In the arguments of an Elixir `def`: the first identifier, or the target
/// of the first call that has one.
pub open spec fn elixir_arg_name(t: SyntaxTree, cs: Seq<usize>) -> Option<usize>
    decreases cs.len(),
{
    if cs.len() == 0 {
        None
    } else if t.kind(cs[0] as int) == "identifier"@ {
        Some(cs[0])
    } else if t.kind(cs[0] as int) == "call"@ && t.child_by_field(cs[0] as int, "target"@) is Some {
        t.child_by_field(cs[0] as int, "target"@)
    } else {
        elixir_arg_name(t, cs.drop_first())
    }
}

pub open spec fn elixir_def_name_spec(t: SyntaxTree, i: int) -> Seq<char> {
    match t.child_by_kind(i, "arguments"@) {
        Some(a) => text_or(t, elixir_arg_name(t, t.children(a as int)), "(anonymous)"@),
        None => "(anonymous)"@,
    }
}

pub fn elixir_def_name(t: &SyntaxTree, i: usize) -> (r: String)
    requires
        t.wf(),
        i < t.len(),
    ensures
        r@ == elixir_def_name_spec(*t, i as int),
{
    let a = match t.kind_child(i, "arguments") {
        Some(a) => a,
        None => return "(anonymous)".to_owned(),
    };
    let cs = &t.nodes[a].children;
    let mut q: usize = 0;
    assert(cs@.skip(0) =~= cs@);
    while q < cs.len()
        invariant
            t.wf(),
            a < t.len(),
            i < t.len(),
            t.child_by_kind(i as int, "arguments"@) == Some(a),
            cs@ == t.children(a as int),
            q <= cs@.len(),
            elixir_arg_name(*t, t.children(a as int)) == elixir_arg_name(*t, cs@.skip(q as int)),
        decreases cs@.len() - q,
    {
        let c = cs[q];
        assert(cs@.skip(q as int).drop_first() =~= cs@.skip(q + 1));
        assert(cs@.skip(q as int)[0] == c);
        assert(c < t.nodes@.len()) by {
            assert(t.nodes@[a as int].children@[q as int] == c);
        }
        if t.kind_is(c, "identifier") {
            return t.node_text(c).to_owned();
        }
        if t.kind_is(c, "call") {
            if let Some(tg) = t.field_child(c, "target") {
                return t.node_text(tg).to_owned();
            }
        }
        q = q + 1;
    }
    assert(cs@.skip(q as int) =~= Seq::<usize>::empty());
    "(anonymous)".to_owned()
}

/// The name of the function-sized unit node `i` introduces, if it introduces one.
pub open spec fn unit_name_spec(t: SyntaxTree, i: int, lang: SourceLanguage) -> Option<Seq<char>> {
    if is_function_node_spec(t, i) {
        Some(function_name(t, i))
    } else if is_elixir_def_call_spec(t, i) {
        Some(elixir_def_name_spec(t, i))
    } else if is_clojure_defn_spec(t, i) {
        Some(clojure_defn_name_spec(t, i))
    } else if is_erlang_fun_decl_spec(t, i) {
        Some(erlang_fun_name_spec(t, i))
    } else if lang == SourceLanguage::Lean && is_lean_instance_spec(t, i) {
        Some(lean_instance_name_spec(t, i))
    } else {
        None
    }
}

pub fn unit_name(t: &SyntaxTree, i: usize, lang: SourceLanguage) -> (r: Option<String>)
    requires
        t.wf(),
        i < t.len(),
    ensures
        match r {
            Some(s) => unit_name_spec(*t, i as int, lang) == Some(s@),
            None => unit_name_spec(*t, i as int, lang) is None,
        },
{
    if is_function_node(t, i) {
        Some(get_function_name(t, i))
    } else if is_elixir_def_call(t, i) {
        Some(elixir_def_name(t, i))
    } else if is_clojure_defn(t, i) {
        Some(clojure_defn_name(t, i))
    } else if is_erlang_fun_decl(t, i) {
        Some(erlang_fun_name(t, i))
    } else if lang == SourceLanguage::Lean && is_lean_instance(t, i) {
        Some(lean_instance_name(t, i))
    } else {
        None
    }
}

} // verus!
