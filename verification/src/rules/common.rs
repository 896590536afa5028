//! Small tests on nodes shared by the rules.
use vstd::prelude::*;
use crate::lint::{Ctx, HitView, hit_if};
use crate::syntax::SyntaxTree;
use vstd::string::StrSliceExecFns;
use crate::text::{chars_of, str_eq};

verus! {

/// Whether `c` is a node whose text is `s`.
pub open spec fn text_of_is(t: SyntaxTree, c: Option<usize>, s: Seq<char>) -> bool {
    match c {
        Some(c) => t.text(c as int) == s,
        None => false,
    }
}

/// Whether `c` is a node whose kind is `k`.
pub open spec fn kind_of_is(t: SyntaxTree, c: Option<usize>, k: Seq<char>) -> bool {
    match c {
        Some(c) => t.kind(c as int) == k,
        None => false,
    }
}

/// Whether `c` is a node whose text is `s`.
pub fn opt_text_is(t: &SyntaxTree, c: Option<usize>, s: &str) -> (r: bool)
    requires
        c matches Some(n) ==> n < t.len(),
    ensures
        r == text_of_is(*t, c, s@),
{
    match c {
        Some(n) => t.text_is(n, s),
        None => false,
    }
}

/// Whether `c` is a node whose kind is `k`.
pub fn opt_kind_is(t: &SyntaxTree, c: Option<usize>, k: &str) -> (r: bool)
    requires
        c matches Some(n) ==> n < t.len(),
    ensures
        r == kind_of_is(*t, c, k@),
{
    match c {
        Some(n) => t.kind_is(n, k),
        None => false,
    }
}

/// `a + b + c`.
pub fn cat3(a: &str, b: &str, c: &str) -> (r: String)
    ensures
        r@ == a@ + b@ + c@,
{
    let mut s = a.to_owned();
    s.append(b);
    s.append(c);
    s
}

/// `a + b + c + d + e`.
pub fn cat5(a: &str, b: &str, c: &str, d: &str, e: &str) -> (r: String)
    ensures
        r@ == a@ + b@ + c@ + d@ + e@,
{
    let mut s = a.to_owned();
    s.append(b);
    s.append(c);
    s.append(d);
    s.append(e);
    s
}

/// Sets of token kinds that a rule looks past when it reads a node's children.
#[derive(Debug, Clone, Copy, PartialEq, Eq, Structural)]
pub enum Noise {
    /// `{` `}`
    Braces,
    /// `{` `}` `comment`
    BracesComment,
    /// `{` `}` and the three comment kinds
    BracesComments,
    /// `{` `}` `comment` `multiline_comment`
    BracesKotlinComments,
    /// `{` `}` `else`
    BracesElse,
    /// `{` `}` `line_comment` `block_comment`
    BracesRustComments,
    /// `}` `comment`
    CloseComment,
    /// `{` `}` `[` `]` `,` `comment`
    PatternPunct,
    /// `throw` `;`
    ThrowSemi,
    /// `return` `;`
    ReturnSemi,
    /// `return` `comment`
    ReturnComment,
    /// `case` `:` and the three comment kinds
    CaseHead,
    /// `case` `default` `:` and the three comment kinds
    CaseDefaultHead,
    /// `case` `default` `:` `comment`
    CaseDefaultColon,
    /// Python's layout tokens and `comment`
    PyLayout,
    /// `except` `:` `identifier` `as_pattern` `tuple` `as` `comment`
    ExceptHead,
    /// `sizeof` `(` `)`
    SizeofParens,
    /// `(` `)` `,` `|` and the three comment kinds
    ParamPunct,
    /// Structural tokens: braces, parentheses, commas, comments, layout and
    /// block keywords; none of them is a statement.
    Tokens,
    /// Structural tokens and the parts of a function's head: keywords,
    /// modifiers, its name, parameters and return type.
    FunctionHead,
}

/// Structural tokens: none of them is a statement.
pub open spec fn is_structural(k: Seq<char>) -> bool {
    k == "{"@ || k == "}"@ || k == "comment"@ || k == "line_comment"@ || k == "block_comment"@ || k
        == "hash_comment"@ || k == "("@ || k == ")"@ || k == ","@ || k == "do"@ || k == "end"@ || k
        == "begin"@ || k == "indent"@ || k == "dedent"@ || k == "newline"@ || k == "NEWLINE"@ || k
        == "INDENT"@ || k == "DEDENT"@ || k == "then"@ || k == "keyword_pair"@
}

/// Keywords used in function syntax that are not statements.
pub open spec fn is_function_keyword(k: Seq<char>) -> bool {
    k == "function"@ || k == "func"@ || k == "def"@ || k == "fn"@ || k == "pub"@ || k == "async"@ || k
        == "static"@ || k == "override"@ || k == "virtual"@ || k == "abstract"@ || k == "private"@ || k
        == "protected"@ || k == "public"@ || k == "final"@ || k == "const"@ || k == "export"@ || k
        == "default"@
}

/// The parts of a function's head besides keywords.
pub open spec fn is_head_part(k: Seq<char>) -> bool {
    k == "identifier"@ || k == "simple_identifier"@ || k == "parameters"@ || k == "formal_parameters"@
        || k == "type_annotation"@ || k == "return_type"@ || k == ":"@ || k == "->"@ || k == "=>"@ || k
        == "scope_resolution"@ || k == "field_identifier"@ || k == "name"@ || k == "function_name"@ || k
        == "visibility_modifier"@ || k == "pub"@ || k == "func"@ || k == "function"@ || k == "def"@ || k
        == "fn"@
}

fn is_structural_exec(k: &str) -> (r: bool)
    ensures
        r == is_structural(k@),
{
    str_eq(k, "{") || str_eq(k, "}") || str_eq(k, "comment") || str_eq(k, "line_comment") || str_eq(
        k,
        "block_comment",
    ) || str_eq(k, "hash_comment") || str_eq(k, "(") || str_eq(k, ")") || str_eq(k, ",") || str_eq(
        k,
        "do",
    ) || str_eq(k, "end") || str_eq(k, "begin") || str_eq(k, "indent") || str_eq(k, "dedent")
        || str_eq(k, "newline") || str_eq(k, "NEWLINE") || str_eq(k, "INDENT") || str_eq(k, "DEDENT")
        || str_eq(k, "then") || str_eq(k, "keyword_pair")
}

fn is_function_keyword_exec(k: &str) -> (r: bool)
    ensures
        r == is_function_keyword(k@),
{
    str_eq(k, "function") || str_eq(k, "func") || str_eq(k, "def") || str_eq(k, "fn") || str_eq(k, "pub")
        || str_eq(k, "async") || str_eq(k, "static") || str_eq(k, "override") || str_eq(k, "virtual")
        || str_eq(k, "abstract") || str_eq(k, "private") || str_eq(k, "protected") || str_eq(
        k,
        "public",
    ) || str_eq(k, "final") || str_eq(k, "const") || str_eq(k, "export") || str_eq(k, "default")
}

fn is_head_part_exec(k: &str) -> (r: bool)
    ensures
        r == is_head_part(k@),
{
    str_eq(k, "identifier") || str_eq(k, "simple_identifier") || str_eq(k, "parameters") || str_eq(
        k,
        "formal_parameters",
    ) || str_eq(k, "type_annotation") || str_eq(k, "return_type") || str_eq(k, ":") || str_eq(k, "->")
        || str_eq(k, "=>") || str_eq(k, "scope_resolution") || str_eq(k, "field_identifier") || str_eq(
        k,
        "name",
    ) || str_eq(k, "function_name") || str_eq(k, "visibility_modifier") || str_eq(k, "pub") || str_eq(
        k,
        "func",
    ) || str_eq(k, "function") || str_eq(k, "def") || str_eq(k, "fn")
}

/// Whether kind `k` belongs to noise set `n`.
pub open spec fn is_noise(k: Seq<char>, n: Noise) -> bool {
    let comments = k == "comment"@ || k == "line_comment"@ || k == "block_comment"@;
    let braces = k == "{"@ || k == "}"@;
    match n {
        Noise::Braces => braces,
        Noise::BracesComment => braces || k == "comment"@,
        Noise::BracesComments => braces || comments,
        Noise::BracesKotlinComments => braces || k == "comment"@ || k == "multiline_comment"@,
        Noise::BracesElse => braces || k == "else"@,
        Noise::BracesRustComments => braces || k == "line_comment"@ || k == "block_comment"@,
        Noise::CloseComment => k == "}"@ || k == "comment"@,
        Noise::PatternPunct => braces || k == "["@ || k == "]"@ || k == ","@ || k == "comment"@,
        Noise::ThrowSemi => k == "throw"@ || k == ";"@,
        Noise::ReturnSemi => k == "return"@ || k == ";"@,
        Noise::ReturnComment => k == "return"@ || k == "comment"@,
        Noise::CaseHead => k == "case"@ || k == ":"@ || comments,
        Noise::CaseDefaultHead => k == "case"@ || k == "default"@ || k == ":"@ || comments,
        Noise::CaseDefaultColon => k == "case"@ || k == "default"@ || k == ":"@ || k == "comment"@,
        Noise::PyLayout => k == "NEWLINE"@ || k == "INDENT"@ || k == "DEDENT"@ || k == "newline"@
            || k == "comment"@,
        Noise::ExceptHead => k == "except"@ || k == ":"@ || k == "identifier"@ || k == "as_pattern"@
            || k == "tuple"@ || k == "as"@ || k == "comment"@,
        Noise::SizeofParens => k == "sizeof"@ || k == "("@ || k == ")"@,
        Noise::ParamPunct => k == "("@ || k == ")"@ || k == ","@ || k == "|"@ || comments,
        Noise::Tokens => is_structural(k),
        Noise::FunctionHead => is_structural(k) || is_function_keyword(k) || is_head_part(k),
    }
}

/// Whether kind `k` belongs to noise set `n`.
pub fn noise(k: &str, n: Noise) -> (r: bool)
    ensures
        r == is_noise(k@, n),
{
    let comments = str_eq(k, "comment") || str_eq(k, "line_comment") || str_eq(k, "block_comment");
    let braces = str_eq(k, "{") || str_eq(k, "}");
    match n {
        Noise::Braces => braces,
        Noise::BracesComment => braces || str_eq(k, "comment"),
        Noise::BracesComments => braces || comments,
        Noise::BracesKotlinComments => braces || str_eq(k, "comment") || str_eq(k, "multiline_comment"),
        Noise::BracesElse => braces || str_eq(k, "else"),
        Noise::BracesRustComments => braces || str_eq(k, "line_comment") || str_eq(k, "block_comment"),
        Noise::CloseComment => str_eq(k, "}") || str_eq(k, "comment"),
        Noise::PatternPunct => braces || str_eq(k, "[") || str_eq(k, "]") || str_eq(k, ",")
            || str_eq(k, "comment"),
        Noise::ThrowSemi => str_eq(k, "throw") || str_eq(k, ";"),
        Noise::ReturnSemi => str_eq(k, "return") || str_eq(k, ";"),
        Noise::ReturnComment => str_eq(k, "return") || str_eq(k, "comment"),
        Noise::CaseHead => str_eq(k, "case") || str_eq(k, ":") || comments,
        Noise::CaseDefaultHead => str_eq(k, "case") || str_eq(k, "default") || str_eq(k, ":")
            || comments,
        Noise::CaseDefaultColon => str_eq(k, "case") || str_eq(k, "default") || str_eq(k, ":")
            || str_eq(k, "comment"),
        Noise::PyLayout => str_eq(k, "NEWLINE") || str_eq(k, "INDENT") || str_eq(k, "DEDENT")
            || str_eq(k, "newline") || str_eq(k, "comment"),
        Noise::ExceptHead => str_eq(k, "except") || str_eq(k, ":") || str_eq(k, "identifier")
            || str_eq(k, "as_pattern") || str_eq(k, "tuple") || str_eq(k, "as")
            || str_eq(k, "comment"),
        Noise::SizeofParens => str_eq(k, "sizeof") || str_eq(k, "(") || str_eq(k, ")"),
        Noise::ParamPunct => str_eq(k, "(") || str_eq(k, ")") || str_eq(k, ",") || str_eq(k, "|")
            || comments,
        Noise::Tokens => is_structural_exec(k),
        Noise::FunctionHead => is_structural_exec(k) || is_function_keyword_exec(k) || is_head_part_exec(k),
    }
}

/// The nodes of `cs` whose kind is not in `n`, in order.
pub open spec fn kept(t: SyntaxTree, cs: Seq<usize>, n: Noise) -> Seq<usize>
    decreases cs.len(),
{
    if cs.len() == 0 {
        seq![]
    } else {
        kept(t, cs.drop_last(), n) + if is_noise(t.kind(cs.last() as int), n) {
            seq![]
        } else {
            seq![cs.last()]
        }
    }
}

/// The children of `p` whose kind is not in `n`, in order.
pub open spec fn kids_except(t: SyntaxTree, p: int, n: Noise) -> Seq<usize> {
    kept(t, t.children(p), n)
}

/// The nodes kept from `cs` are among `cs`.
pub proof fn lemma_kept_within(t: SyntaxTree, cs: Seq<usize>, n: Noise)
    ensures
        forall|k: int| 0 <= k < kept(t, cs, n).len() ==> #[trigger] cs.contains(kept(t, cs, n)[k]),
    decreases cs.len(),
{
    if cs.len() > 0 {
        lemma_kept_within(t, cs.drop_last(), n);
        let pre = kept(t, cs.drop_last(), n);
        assert forall|k: int| 0 <= k < kept(t, cs, n).len() implies #[trigger] cs.contains(
            kept(t, cs, n)[k],
        ) by {
            if k < pre.len() {
                assert(cs.drop_last().contains(pre[k]));
                let q = choose|q: int| 0 <= q < cs.drop_last().len() && cs.drop_last()[q] == pre[k];
                assert(cs[q] == pre[k]);
            } else {
                assert(cs[cs.len() - 1] == cs.last());
            }
        }
    }
}

/// The children of `p` whose kind is not in `n`, in order.
pub fn kids_except_exec(t: &SyntaxTree, p: usize, n: Noise) -> (r: Vec<usize>)
    requires
        t.wf(),
        p < t.len(),
    ensures
        r@ == kids_except(*t, p as int, n),
        forall|k: int| 0 <= k < r@.len() ==> p < #[trigger] r@[k] < t.len(),
{
    let cs = &t.nodes[p].children;
    let mut out: Vec<usize> = Vec::new();
    let mut k: usize = 0;
    while k < cs.len()
        invariant
            t.wf(),
            p < t.len(),
            cs@ == t.children(p as int),
            k <= cs@.len(),
            out@ == kept(*t, cs@.take(k as int), n),
        decreases cs@.len() - k,
    {
        let c = cs[k];
        assert(p < c < t.len()) by {
            assert(t.nodes@[p as int].children@[k as int] == c);
        }
        assert(cs@.take(k + 1).drop_last() =~= cs@.take(k as int));
        if !noise(t.node_kind(c), n) {
            out.push(c);
        }
        k = k + 1;
    }
    assert(cs@.take(k as int) =~= cs@);
    proof {
        lemma_kept_within(*t, cs@, n);
        assert forall|q: int| 0 <= q < out@.len() implies p < #[trigger] out@[q] < t.len() by {
            assert(cs@.contains(out@[q]));
            let j = choose|j: int| 0 <= j < cs@.len() && cs@[j] == out@[q];
            assert(t.nodes@[p as int].children@[j] == out@[q]);
        }
    }
    out
}

/// Whether the subtree at `i` holds a node of kind `k`, `i` included.
pub open spec fn sub_has(t: SyntaxTree, i: int, k: Seq<char>) -> bool
    decreases t.len() - i, 1int, 0int,
{
    t.kind(i) == k || kids_have(t, i, 0, k)
}

/// Whether the subtrees of the children of `p`, from the `j`-th on, hold a
/// node of kind `k`.
pub open spec fn kids_have(t: SyntaxTree, p: int, j: int, k: Seq<char>) -> bool
    decreases t.len() - p, 0int, t.children(p).len() - j,
{
    if 0 <= j < t.children(p).len() {
        let c = t.children(p)[j] as int;
        (p < c < t.len() && sub_has(t, c, k)) || kids_have(t, p, j + 1, k)
    } else {
        false
    }
}

/// Whether the subtree at `i` holds a node of kind `k`, `i` included.
pub fn sub_has_exec(t: &SyntaxTree, i: usize, k: &str) -> (r: bool)
    requires
        t.wf(),
        i < t.len(),
    ensures
        r == sub_has(*t, i as int, k@),
    decreases t.len() - i, 1int,
{
    t.kind_is(i, k) || kids_have_exec(t, i, k)
}

/// Whether some proper descendant of `p` has kind `k`.
pub fn kids_have_exec(t: &SyntaxTree, p: usize, k: &str) -> (r: bool)
    requires
        t.wf(),
        p < t.len(),
    ensures
        r == kids_have(*t, p as int, 0, k@),
    decreases t.len() - p, 0int,
{
    let n = t.child_count(p);
    let mut j: usize = 0;
    while j < n
        invariant
            t.wf(),
            p < t.len(),
            n == t.children(p as int).len(),
            j <= n,
            kids_have(*t, p as int, 0, k@) == kids_have(*t, p as int, j as int, k@),
        decreases n - j,
    {
        let c = t.nodes[p].children[j];
        assert(p < c < t.len()) by {
            assert(t.nodes@[p as int].children@[j as int] == c);
        }
        if sub_has_exec(t, c, k) {
            return true;
        }
        j = j + 1;
    }
    false
}

/// How a language's unreachable-code rule reads a block.
#[derive(Debug, Clone, Copy, PartialEq, Eq, Structural)]
pub enum FlowStyle {
    /// JavaScript blocks: braces and comments are skipped; `return`, `throw`,
    /// `break` and `continue` end the flow.
    Js,
    /// Go statement lists: comments are skipped; `return`, `break` and
    /// `continue` end the flow.
    Go,
    /// Python blocks: layout tokens and comments are skipped; `return`,
    /// `raise`, `break` and `continue` end the flow.
    Python,
}

pub open spec fn flow_skips(k: Seq<char>, s: FlowStyle) -> bool {
    match s {
        FlowStyle::Js => k == "{"@ || k == "}"@ || k == "comment"@,
        FlowStyle::Go => k == "comment"@,
        FlowStyle::Python => is_noise(k, Noise::PyLayout),
    }
}

pub open spec fn flow_ends(k: Seq<char>, s: FlowStyle) -> bool {
    k == "return_statement"@ || k == "break_statement"@ || k == "continue_statement"@ || match s {
        FlowStyle::Js => k == "throw_statement"@,
        FlowStyle::Go => false,
        FlowStyle::Python => k == "raise_statement"@,
    }
}

pub fn flow_skips_exec(k: &str, s: FlowStyle) -> (r: bool)
    ensures
        r == flow_skips(k@, s),
{
    match s {
        FlowStyle::Js => str_eq(k, "{") || str_eq(k, "}") || str_eq(k, "comment"),
        FlowStyle::Go => str_eq(k, "comment"),
        FlowStyle::Python => noise(k, Noise::PyLayout),
    }
}

pub fn flow_ends_exec(k: &str, s: FlowStyle) -> (r: bool)
    ensures
        r == flow_ends(k@, s),
{
    str_eq(k, "return_statement") || str_eq(k, "break_statement") || str_eq(k, "continue_statement")
        || match s {
        FlowStyle::Js => str_eq(k, "throw_statement"),
        FlowStyle::Go => false,
        FlowStyle::Python => str_eq(k, "raise_statement"),
    }
}

/// The first statement of `cs` after a flow-ending statement, if any: the
/// rest of the block is just as dead, and the block is reported once.
/// `after_end` is whether the statement before `cs` ended the flow.
pub open spec fn unreachable_after(t: SyntaxTree, cs: Seq<usize>, after_end: bool, s: FlowStyle) -> Seq<int>
    decreases cs.len(),
{
    if cs.len() == 0 {
        seq![]
    } else {
        let c = cs[0] as int;
        if flow_skips(t.kind(c), s) {
            unreachable_after(t, cs.drop_first(), after_end, s)
        } else if after_end {
            seq![c]
        } else {
            unreachable_after(t, cs.drop_first(), flow_ends(t.kind(c), s), s)
        }
    }
}

/// The unreachable statements among the children of `p`.
pub fn unreachable_exec(t: &SyntaxTree, p: usize, s: FlowStyle) -> (r: Vec<usize>)
    requires
        t.wf(),
        p < t.len(),
    ensures
        r@.map_values(|c: usize| c as int) == unreachable_after(*t, t.children(p as int), false, s),
        forall|k: int| 0 <= k < r@.len() ==> p < #[trigger] r@[k] < t.len(),
{
    let cs = &t.nodes[p].children;
    let mut out: Vec<usize> = Vec::new();
    let mut after_end = false;
    let mut k: usize = 0;
    assert(cs@.skip(0) =~= cs@);
    while k < cs.len()
        invariant
            t.wf(),
            p < t.len(),
            cs@ == t.children(p as int),
            k <= cs@.len(),
            out@.map_values(|c: usize| c as int) + unreachable_after(*t, cs@.skip(k as int), after_end, s)
                =~= unreachable_after(*t, cs@, false, s),
            forall|q: int| 0 <= q < out@.len() ==> p < #[trigger] out@[q] < t.len(),
        decreases cs@.len() - k,
    {
        let c = cs[k];
        assert(p < c < t.len()) by {
            assert(t.nodes@[p as int].children@[k as int] == c);
        }
        assert(cs@.skip(k as int).drop_first() =~= cs@.skip(k + 1));
        assert(cs@.skip(k as int)[0] == c);
        let kind = t.node_kind(c);
        if flow_skips_exec(kind, s) {
            k = k + 1;
        } else if after_end {
            let ghost before = out@;
            out.push(c);
            assert(out@.map_values(|c: usize| c as int) =~= before.map_values(|c: usize| c as int)
                + seq![c as int]);
            after_end = false;
            k = cs.len();
            assert(cs@.skip(k as int) =~= Seq::<usize>::empty());
        } else {
            after_end = flow_ends_exec(kind, s);
            k = k + 1;
        }
    }
    assert(cs@.skip(k as int) =~= Seq::<usize>::empty());
    out
}

/// The texts of a sequence of string slices.
pub open spec fn texts(v: Seq<&str>) -> Seq<Seq<char>> {
    v.map_values(|x: &str| x@)
}

/// Whether `v` holds the text `s`.
pub fn holds_text(v: &Vec<&str>, s: &str) -> (r: bool)
    ensures
        r == texts(v@).contains(s@),
{
    let mut k: usize = 0;
    while k < v.len()
        invariant
            k <= v@.len(),
            forall|q: int| 0 <= q < k ==> v@[q]@ != s@,
        decreases v@.len() - k,
    {
        if str_eq(v[k], s) {
            assert(texts(v@)[k as int] == s@);
            return true;
        }
        k = k + 1;
    }
    assert forall|q: int| 0 <= q < v@.len() implies #[trigger] texts(v@)[q] != s@ by {
        assert(v@[q]@ != s@);
    }
    false
}

/// `==` `===` `!=` `!==`
pub open spec fn is_equality_op(o: Seq<char>) -> bool {
    o == "==="@ || o == "=="@ || o == "!=="@ || o == "!="@
}

/// The equality operators and `<` `>` `<=` `>=`.
pub open spec fn is_comparison_op(o: Seq<char>) -> bool {
    is_equality_op(o) || o == ">"@ || o == "<"@ || o == ">="@ || o == "<="@
}

pub fn is_equality_op_exec(o: &str) -> (r: bool)
    ensures
        r == is_equality_op(o@),
{
    str_eq(o, "===") || str_eq(o, "==") || str_eq(o, "!==") || str_eq(o, "!=")
}

pub fn is_comparison_op_exec(o: &str) -> (r: bool)
    ensures
        r == is_comparison_op(o@),
{
    is_equality_op_exec(o) || str_eq(o, ">") || str_eq(o, "<") || str_eq(o, ">=") || str_eq(o, "<=")
}

/// The operator text of a binary node, or the empty text when it has none.
pub open spec fn op_text(t: SyntaxTree, i: int) -> Seq<char> {
    match t.child_by_field(i, "operator"@) {
        Some(o) => t.text(o as int),
        None => Seq::empty(),
    }
}

/// The `left` and `right` operands of `i`, when it has both.
pub open spec fn operands(t: SyntaxTree, i: int) -> Option<(usize, usize)> {
    match (t.child_by_field(i, "left"@), t.child_by_field(i, "right"@)) {
        (Some(l), Some(r)) => Some((l, r)),
        _ => None,
    }
}

pub fn operands_exec(t: &SyntaxTree, i: usize) -> (r: Option<(usize, usize)>)
    requires
        t.wf(),
        i < t.len(),
    ensures
        r == operands(*t, i as int),
        r matches Some((l, q)) ==> l < t.len() && q < t.len(),
{
    match (t.field_child(i, "left"), t.field_child(i, "right")) {
        (Some(l), Some(r)) => Some((l, r)),
        _ => None,
    }
}

/// The children of `p` of kind `k`, in order.
pub open spec fn of_kind(t: SyntaxTree, cs: Seq<usize>, k: Seq<char>) -> Seq<usize>
    decreases cs.len(),
{
    if cs.len() == 0 {
        seq![]
    } else {
        of_kind(t, cs.drop_last(), k) + if t.kind(cs.last() as int) == k {
            seq![cs.last()]
        } else {
            seq![]
        }
    }
}

pub open spec fn kids_of_kind(t: SyntaxTree, p: int, k: Seq<char>) -> Seq<usize> {
    of_kind(t, t.children(p), k)
}

/// The children of `p` of kind `k`, in order.
pub fn kids_of_kind_exec(t: &SyntaxTree, p: usize, k: &str) -> (r: Vec<usize>)
    requires
        t.wf(),
        p < t.len(),
    ensures
        r@ == kids_of_kind(*t, p as int, k@),
        forall|q: int| 0 <= q < r@.len() ==> p < #[trigger] r@[q] < t.len(),
{
    let cs = &t.nodes[p].children;
    let mut out: Vec<usize> = Vec::new();
    let mut j: usize = 0;
    while j < cs.len()
        invariant
            t.wf(),
            p < t.len(),
            cs@ == t.children(p as int),
            j <= cs@.len(),
            out@ == of_kind(*t, cs@.take(j as int), k@),
            forall|q: int| 0 <= q < out@.len() ==> p < #[trigger] out@[q] < t.len(),
        decreases cs@.len() - j,
    {
        let c = cs[j];
        assert(p < c < t.len()) by {
            assert(t.nodes@[p as int].children@[j as int] == c);
        }
        assert(cs@.take(j + 1).drop_last() =~= cs@.take(j as int));
        if t.kind_is(c, k) {
            out.push(c);
        }
        j = j + 1;
    }
    assert(cs@.take(j as int) =~= cs@);
    out
}

/// Unicode white space, as `char::is_whitespace` defines it.
pub open spec fn is_ws(c: char) -> bool {
    ('\u{9}' <= c <= '\u{d}') || c == ' ' || c == '\u{85}' || c == '\u{a0}' || c == '\u{1680}' || (
    '\u{2000}' <= c <= '\u{200a}') || c == '\u{2028}' || c == '\u{2029}' || c == '\u{202f}' || c
        == '\u{205f}' || c == '\u{3000}'
}

pub fn is_ws_exec(c: char) -> (r: bool)
    ensures
        r == is_ws(c),
{
    ('\u{9}' <= c && c <= '\u{d}') || c == ' ' || c == '\u{85}' || c == '\u{a0}' || c == '\u{1680}'
        || ('\u{2000}' <= c && c <= '\u{200a}') || c == '\u{2028}' || c == '\u{2029}' || c
        == '\u{202f}' || c == '\u{205f}' || c == '\u{3000}'
}

pub open spec fn trim_ws_front(s: Seq<char>) -> Seq<char>
    decreases s.len(),
{
    if s.len() > 0 && is_ws(s[0]) {
        trim_ws_front(s.drop_first())
    } else {
        s
    }
}

pub open spec fn trim_ws_back(s: Seq<char>) -> Seq<char>
    decreases s.len(),
{
    if s.len() > 0 && is_ws(s.last()) {
        trim_ws_back(s.drop_last())
    } else {
        s
    }
}

/// `s` without white space at either end.
pub open spec fn trim_ws(s: Seq<char>) -> Seq<char> {
    trim_ws_back(trim_ws_front(s))
}

/// `s` without white space at either end.
pub fn trim_ws_exec(s: &str) -> (r: &str)
    ensures
        r@ == trim_ws(s@),
{
    let v = chars_of(s);
    let n = v.len();
    let mut lo: usize = 0;
    assert(v@.subrange(0, n as int) =~= v@);
    while lo < n && is_ws_exec(v[lo])
        invariant
            n == v@.len(),
            v@ == s@,
            lo <= n,
            trim_ws_front(v@) == trim_ws_front(v@.subrange(lo as int, n as int)),
        decreases n - lo,
    {
        assert(v@.subrange(lo as int, n as int).drop_first() =~= v@.subrange(lo + 1, n as int));
        lo = lo + 1;
    }
    let mut hi: usize = n;
    while hi > lo && is_ws_exec(v[hi - 1])
        invariant
            n == v@.len(),
            v@ == s@,
            lo <= hi <= n,
            trim_ws_back(v@.subrange(lo as int, n as int)) == trim_ws_back(
                v@.subrange(lo as int, hi as int),
            ),
        decreases hi - lo,
    {
        assert(v@.subrange(lo as int, hi as int).drop_last() =~= v@.subrange(lo as int, hi - 1));
        hi = hi - 1;
    }
    s.substring_char(lo, hi)
}

/// Which enclosing construct an ancestor search looks for, and where it stops.
#[derive(Debug, Clone, Copy, PartialEq, Eq, Structural)]
pub enum Enclosing {
    /// A Go loop, below the nearest Go function.
    GoLoop,
    /// A Java loop, below the nearest method, constructor or lambda.
    JavaLoop,
    /// A Java `try`, below the nearest method, constructor or lambda.
    JavaTry,
}

pub open spec fn encloses(k: Seq<char>, e: Enclosing) -> bool {
    match e {
        Enclosing::GoLoop => k == "for_statement"@ || k == "for_range_clause"@,
        Enclosing::JavaLoop => k == "for_statement"@ || k == "while_statement"@
            || k == "enhanced_for_statement"@,
        Enclosing::JavaTry => k == "try_statement"@,
    }
}

pub open spec fn bounds(k: Seq<char>, e: Enclosing) -> bool {
    match e {
        Enclosing::GoLoop => k == "function_declaration"@ || k == "method_declaration"@
            || k == "func_literal"@,
        Enclosing::JavaLoop | Enclosing::JavaTry => k == "method_declaration"@
            || k == "constructor_declaration"@ || k == "lambda_expression"@,
    }
}

/// Whether node `j` or an ancestor is the construct `e` looks for, with no
/// boundary of `e` met first.
pub open spec fn enclosed(t: SyntaxTree, j: int, e: Enclosing) -> bool
    decreases j,
{
    if 0 <= j < t.len() {
        if encloses(t.kind(j), e) {
            true
        } else if bounds(t.kind(j), e) {
            false
        } else {
            match t.parent(j) {
                Some(p) => p < j && enclosed(t, p as int, e),
                None => false,
            }
        }
    } else {
        false
    }
}

/// Whether the parent of `i`, or one of its ancestors, is the construct `e`
/// looks for, with no boundary of `e` met first.
pub open spec fn inside(t: SyntaxTree, i: int, e: Enclosing) -> bool {
    match t.parent(i) {
        Some(p) => p < i && enclosed(t, p as int, e),
        None => false,
    }
}

fn encloses_exec(k: &str, e: Enclosing) -> (r: bool)
    ensures
        r == encloses(k@, e),
{
    match e {
        Enclosing::GoLoop => str_eq(k, "for_statement") || str_eq(k, "for_range_clause"),
        Enclosing::JavaLoop => str_eq(k, "for_statement") || str_eq(k, "while_statement") || str_eq(
            k,
            "enhanced_for_statement",
        ),
        Enclosing::JavaTry => str_eq(k, "try_statement"),
    }
}

fn bounds_exec(k: &str, e: Enclosing) -> (r: bool)
    ensures
        r == bounds(k@, e),
{
    match e {
        Enclosing::GoLoop => str_eq(k, "function_declaration") || str_eq(k, "method_declaration")
            || str_eq(k, "func_literal"),
        Enclosing::JavaLoop | Enclosing::JavaTry => str_eq(k, "method_declaration") || str_eq(
            k,
            "constructor_declaration",
        ) || str_eq(k, "lambda_expression"),
    }
}

fn enclosed_exec(t: &SyntaxTree, j: usize, e: Enclosing) -> (r: bool)
    requires
        t.wf(),
        j < t.len(),
    ensures
        r == enclosed(*t, j as int, e),
    decreases j,
{
    let k = t.node_kind(j);
    if encloses_exec(k, e) {
        true
    } else if bounds_exec(k, e) {
        false
    } else {
        match t.node_parent(j) {
            Some(p) => {
                assert(t.nodes@[j as int].parent == Some(p));
                enclosed_exec(t, p, e)
            },
            None => false,
        }
    }
}

pub fn inside_exec(t: &SyntaxTree, i: usize, e: Enclosing) -> (r: bool)
    requires
        t.wf(),
        i < t.len(),
    ensures
        r == inside(*t, i as int, e),
{
    match t.node_parent(i) {
        Some(p) => {
            assert(t.nodes@[i as int].parent == Some(p));
            enclosed_exec(t, p, e)
        },
        None => false,
    }
}

/// Which `return` statements a search below a function body reports.
#[derive(Debug, Clone, Copy, PartialEq, Eq, Structural)]
pub enum ReturnSearch {
    /// Go: bare `return`s, not entering nested functions.
    Bare,
    /// Python: `return`s with a value, not entering nested functions or classes.
    Valued,
}

pub open spec fn search_skips(k: Seq<char>, s: ReturnSearch) -> bool {
    match s {
        ReturnSearch::Bare => k == "func_literal"@ || k == "function_declaration"@
            || k == "method_declaration"@,
        ReturnSearch::Valued => k == "function_definition"@ || k == "class_definition"@,
    }
}

pub open spec fn search_finds(t: SyntaxTree, c: int, s: ReturnSearch) -> bool {
    t.kind(c) == "return_statement"@ && match s {
        ReturnSearch::Bare => kids_except(t, c, Noise::ReturnComment).len() == 0,
        ReturnSearch::Valued => kids_except(t, c, Noise::ReturnComment).len() > 0,
    }
}

pub open spec fn search_rule(s: ReturnSearch) -> Seq<char> {
    match s {
        ReturnSearch::Bare => "no-naked-return"@,
        ReturnSearch::Valued => "no-return-in-init"@,
    }
}

pub open spec fn search_message(s: ReturnSearch) -> Seq<char> {
    match s {
        ReturnSearch::Bare => "Naked return in function with named return values"@,
        ReturnSearch::Valued => "`__init__` should not return a value"@,
    }
}

/// The returns search `s` reports at node `c` and below.
pub open spec fn returns_at(t: SyntaxTree, c: int, s: ReturnSearch) -> Seq<HitView>
    decreases t.len() - c, 1int, 0int,
{
    if search_skips(t.kind(c), s) {
        seq![]
    } else {
        hit_if(search_finds(t, c, s), t, c, search_rule(s), search_message(s)) + returns_kids(
            t,
            c,
            0,
            s,
        )
    }
}

/// The returns search `s` reports below the children of `p` from the `k`-th on.
pub open spec fn returns_kids(t: SyntaxTree, p: int, k: int, s: ReturnSearch) -> Seq<HitView>
    decreases t.len() - p, 0int, t.children(p).len() - k,
{
    if 0 <= k < t.children(p).len() {
        let c = t.children(p)[k] as int;
        (if p < c < t.len() {
            returns_at(t, c, s)
        } else {
            seq![]
        }) + returns_kids(t, p, k + 1, s)
    } else {
        seq![]
    }
}

fn returns_at_exec(t: &SyntaxTree, c: usize, s: ReturnSearch, ctx: &mut Ctx)
    requires
        t.wf(),
        c < t.len(),
        old(ctx).wf(),
    ensures
        final(ctx).grew(*old(ctx), returns_at(*t, c as int, s)),
    decreases t.len() - c, 1int,
{
    let k = t.node_kind(c);
    let skip = match s {
        ReturnSearch::Bare => str_eq(k, "func_literal") || str_eq(k, "function_declaration")
            || str_eq(k, "method_declaration"),
        ReturnSearch::Valued => str_eq(k, "function_definition") || str_eq(k, "class_definition"),
    };
    if skip {
        return;
    }
    let ghost start = ctx.found();
    if str_eq(k, "return_statement") {
        let rest = kids_except_exec(t, c, Noise::ReturnComment).len();
        match s {
            ReturnSearch::Bare => if rest == 0 {
                ctx.report(
                    t,
                    c,
                    "no-naked-return",
                    "Naked return in function with named return values".to_owned(),
                );
            },
            ReturnSearch::Valued => if rest > 0 {
                ctx.report(t, c, "no-return-in-init", "`__init__` should not return a value".to_owned());
            },
        }
    }
    returns_kids_exec(t, c, s, ctx);
    assert(ctx.found() =~= start + returns_at(*t, c as int, s));
}

pub fn returns_kids_exec(t: &SyntaxTree, p: usize, s: ReturnSearch, ctx: &mut Ctx)
    requires
        t.wf(),
        p < t.len(),
        old(ctx).wf(),
    ensures
        final(ctx).grew(*old(ctx), returns_kids(*t, p as int, 0, s)),
    decreases t.len() - p, 0int,
{
    let ghost start = *ctx;
    let n = t.child_count(p);
    let mut k: usize = 0;
    while k < n
        invariant
            t.wf(),
            p < t.len(),
            n == t.children(p as int).len(),
            k <= n,
            ctx.wf(),
            ctx.file_path@ == start.file_path@,
            ctx.severity == start.severity,
            ctx.found() + returns_kids(*t, p as int, k as int, s) =~= start.found() + returns_kids(
                *t,
                p as int,
                0,
                s,
            ),
        decreases n - k,
    {
        let c = t.nodes[p].children[k];
        assert(p < c < t.len()) by {
            assert(t.nodes@[p as int].children@[k as int] == c);
        }
        let ghost mid = ctx.found();
        returns_at_exec(t, c, s, ctx);
        assert(ctx.found() + returns_kids(*t, p as int, k + 1, s) =~= mid + returns_kids(
            *t,
            p as int,
            k as int,
            s,
        ));
        k = k + 1;
    }
    assert(returns_kids(*t, p as int, k as int, s) =~= Seq::<HitView>::empty());
}

/// Whether one of `cs` has kind `k` and text `s`.
pub open spec fn has_kind_text(t: SyntaxTree, cs: Seq<usize>, k: Seq<char>, s: Seq<char>) -> bool
    decreases cs.len(),
{
    cs.len() > 0 && ((t.kind(cs[0] as int) == k && t.text(cs[0] as int) == s) || has_kind_text(
        t,
        cs.drop_first(),
        k,
        s,
    ))
}

/// Whether a child of `p` has kind `k` and text `s`.
pub fn child_with_kind_text(t: &SyntaxTree, p: usize, k: &str, s: &str) -> (r: bool)
    requires
        t.wf(),
        p < t.len(),
    ensures
        r == has_kind_text(*t, t.children(p as int), k@, s@),
{
    let cs = &t.nodes[p].children;
    let mut j: usize = 0;
    assert(cs@.skip(0) =~= cs@);
    while j < cs.len()
        invariant
            t.wf(),
            p < t.len(),
            cs@ == t.children(p as int),
            j <= cs@.len(),
            has_kind_text(*t, cs@, k@, s@) == has_kind_text(*t, cs@.skip(j as int), k@, s@),
        decreases cs@.len() - j,
    {
        let c = cs[j];
        assert(p < c < t.len()) by {
            assert(t.nodes@[p as int].children@[j as int] == c);
        }
        assert(cs@.skip(j as int).drop_first() =~= cs@.skip(j + 1));
        assert(cs@.skip(j as int)[0] == c);
        if t.kind_is(c, k) && t.text_is(c, s) {
            return true;
        }
        j = j + 1;
    }
    false
}


/// Whether node `i` has a parent of kind `k`.
pub open spec fn parent_kind_is(t: SyntaxTree, i: int, k: Seq<char>) -> bool {
    match t.parent(i) {
        Some(p) => t.kind(p as int) == k,
        None => false,
    }
}

/// Whether node `i` has a parent of kind `k`.
pub fn parent_is(t: &SyntaxTree, i: usize, k: &str) -> (r: bool)
    requires
        t.wf(),
        i < t.len(),
    ensures
        r == parent_kind_is(*t, i as int, k@),
{
    match t.node_parent(i) {
        Some(p) => {
            assert(t.nodes@[i as int].parent == Some(p));
            t.kind_is(p, k)
        },
        None => false,
    }
}

/// The text of the first child of `i`, if it has one.
pub open spec fn head_text(t: SyntaxTree, i: int) -> Option<Seq<char>> {
    match t.child_at(i, 0) {
        Some(c) => Some(t.text(c as int)),
        None => None,
    }
}

pub fn head_text_exec<'a>(t: &'a SyntaxTree, i: usize) -> (r: Option<&'a str>)
    requires
        t.wf(),
        i < t.len(),
    ensures
        match r {
            Some(s) => head_text(*t, i as int) == Some(s@),
            None => head_text(*t, i as int) is None,
        },
{
    match t.child(i, 0) {
        Some(c) => Some(t.node_text(c)),
        None => None,
    }
}

/// The text of the child of `i` in field `f`, if it has one.
pub open spec fn field_text(t: SyntaxTree, i: int, f: Seq<char>) -> Option<Seq<char>> {
    match t.child_by_field(i, f) {
        Some(c) => Some(t.text(c as int)),
        None => None,
    }
}

pub fn field_text_exec<'a>(t: &'a SyntaxTree, i: usize, f: &str) -> (r: Option<&'a str>)
    requires
        t.wf(),
        i < t.len(),
    ensures
        match r {
            Some(s) => field_text(*t, i as int, f@) == Some(s@),
            None => field_text(*t, i as int, f@) is None,
        },
{
    match t.field_child(i, f) {
        Some(c) => Some(t.node_text(c)),
        None => None,
    }
}


/// `s` without white space at its start.
pub fn trim_front_exec(s: &str) -> (r: &str)
    ensures
        r@ == trim_ws_front(s@),
{
    let v = chars_of(s);
    let n = v.len();
    let mut lo: usize = 0;
    assert(v@.subrange(0, n as int) =~= v@);
    while lo < n && is_ws_exec(v[lo])
        invariant
            n == v@.len(),
            v@ == s@,
            lo <= n,
            trim_ws_front(v@) == trim_ws_front(v@.subrange(lo as int, n as int)),
        decreases n - lo,
    {
        assert(v@.subrange(lo as int, n as int).drop_first() =~= v@.subrange(lo + 1, n as int));
        lo = lo + 1;
    }
    s.substring_char(lo, n)
}


/// `line` without white space at either end.
pub fn trim_chars(line: &Vec<char>) -> (r: Vec<char>)
    ensures
        r@ == trim_ws(line@),
{
    let n = line.len();
    let mut lo: usize = 0;
    assert(line@.subrange(0, n as int) =~= line@);
    while lo < n && is_ws_exec(line[lo])
        invariant
            n == line@.len(),
            lo <= n,
            trim_ws_front(line@) == trim_ws_front(line@.subrange(lo as int, n as int)),
        decreases n - lo,
    {
        assert(line@.subrange(lo as int, n as int).drop_first() =~= line@.subrange(lo + 1, n as int));
        lo = lo + 1;
    }
    let mut hi: usize = n;
    while hi > lo && is_ws_exec(line[hi - 1])
        invariant
            n == line@.len(),
            lo <= hi <= n,
            trim_ws_back(line@.subrange(lo as int, n as int)) == trim_ws_back(
                line@.subrange(lo as int, hi as int),
            ),
        decreases hi - lo,
    {
        assert(line@.subrange(lo as int, hi as int).drop_last() =~= line@.subrange(lo as int, hi - 1));
        hi = hi - 1;
    }
    let mut out: Vec<char> = Vec::new();
    let mut k = lo;
    while k < hi
        invariant
            n == line@.len(),
            lo <= k <= hi <= n,
            out@ =~= line@.subrange(lo as int, k as int),
        decreases hi - k,
    {
        out.push(line[k]);
        k = k + 1;
    }
    out
}

} // verus!
