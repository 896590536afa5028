//! Unused imports in Python and JavaScript/TypeScript.
//!
//! Two passes over the tree: first the names that import statements bring
//! in, in pre-order; then, for each name, a search of the tree outside the
//! import statements for a use of it.
use vstd::prelude::*;
use crate::lint::{Ctx, HitView, IssueView, as_issues, issue_views};
use crate::rules::common::{cat3, field_text, field_text_exec};
use crate::syntax::SyntaxTree;
use crate::text::{after_last, chars_of, starts_with, str_eq, str_starts_with};
use crate::types::{Issue, Severity};
use vstd::string::StrSliceExecFns;

verus! {

/// The language whose imports are checked.
#[derive(Debug, Clone, Copy, PartialEq, Eq, Structural)]
pub enum ImportSyntax {
    Python,
    Js,
}

/// A name an import brings in, with the line and column of the node naming it.
pub type ImportView = (Seq<char>, int, int);

pub open spec fn import_at(t: SyntaxTree, c: int, name: Seq<char>) -> ImportView {
    (name, t.line(c), t.col(c))
}

/// The name an `aliased_import` brings in: its alias, else its name (only
/// the last dotted segment of it when `to_last`).
pub open spec fn aliased_import(t: SyntaxTree, c: int, to_last: bool) -> Seq<ImportView> {
    match t.child_by_field(c, "alias"@) {
        Some(a) => seq![import_at(t, a as int, t.text(a as int))],
        None => match t.child_by_field(c, "name"@) {
            Some(n) => seq![
                import_at(
                    t,
                    n as int,
                    if to_last {
                        after_last(t.text(n as int), '.')
                    } else {
                        t.text(n as int)
                    },
                ),
            ],
            None => seq![],
        },
    }
}

/// The node a JavaScript import specifier names: its alias, else its name.
pub open spec fn specifier_name(t: SyntaxTree, c: int) -> Option<usize> {
    match t.child_by_field(c, "alias"@) {
        Some(a) => Some(a),
        None => t.child_by_field(c, "name"@),
    }
}

/// The level of an import statement a node sits at.
#[derive(Debug, Clone, Copy, PartialEq, Eq, Structural)]
pub enum Part {
    /// A child of a Python `import` statement.
    PyPlain,
    /// A child of a JavaScript `import` statement.
    JsStmt,
    /// A child of a JavaScript import clause.
    JsClause,
    /// A child of a JavaScript list of named imports.
    JsSpecs,
}

pub open spec fn rank(p: Part) -> nat {
    match p {
        Part::JsStmt => 2,
        Part::JsClause => 1,
        _ => 0,
    }
}

/// The names node `c`, at level `p`, brings in.
pub open spec fn part_of(t: SyntaxTree, c: int, p: Part) -> Seq<ImportView>
    decreases rank(p), 0int,
{
    match p {
        Part::PyPlain => if t.kind(c) == "dotted_name"@ {
            seq![import_at(t, c, after_last(t.text(c), '.'))]
        } else if t.kind(c) == "aliased_import"@ {
            aliased_import(t, c, true)
        } else {
            seq![]
        },
        Part::JsStmt => if t.kind(c) == "import_clause"@ {
            parts(t, t.children(c), Part::JsClause)
        } else {
            seq![]
        },
        Part::JsClause => if t.kind(c) == "identifier"@ {
            seq![import_at(t, c, t.text(c))]
        } else if t.kind(c) == "named_imports"@ {
            parts(t, t.children(c), Part::JsSpecs)
        } else if t.kind(c) == "namespace_import"@ {
            match t.child_at(c, 2) {
                Some(a) => seq![import_at(t, a as int, t.text(a as int))],
                None => seq![],
            }
        } else {
            seq![]
        },
        Part::JsSpecs => if t.kind(c) == "import_specifier"@ {
            match specifier_name(t, c) {
                Some(n) => seq![import_at(t, n as int, t.text(n as int))],
                None => seq![],
            }
        } else {
            seq![]
        },
    }
}

/// The names the nodes `cs`, at level `p`, bring in, in order.
pub open spec fn parts(t: SyntaxTree, cs: Seq<usize>, p: Part) -> Seq<ImportView>
    decreases rank(p), cs.len(),
{
    if cs.len() == 0 {
        seq![]
    } else {
        parts(t, cs.drop_last(), p) + part_of(t, cs.last() as int, p)
    }
}

/// The name a child of a Python `from ... import` statement brings in, once
/// the `import` keyword has passed.
pub open spec fn from_child(t: SyntaxTree, c: int) -> Seq<ImportView> {
    if t.kind(c) == "aliased_import"@ {
        aliased_import(t, c, false)
    } else if (t.kind(c) == "dotted_name"@ || t.kind(c) == "identifier"@) && t.text(c) != ""@ && t.text(c)
        != ","@ {
        seq![import_at(t, c, t.text(c))]
    } else {
        seq![]
    }
}

/// The names the children `cs` of a `from ... import` statement bring in:
/// those after the `import` keyword (`past` is whether it has passed).
pub open spec fn from_parts(t: SyntaxTree, cs: Seq<usize>, past: bool) -> Seq<ImportView>
    decreases cs.len(),
{
    if cs.len() == 0 {
        seq![]
    } else if t.text(cs[0] as int) == "import"@ {
        from_parts(t, cs.drop_first(), true)
    } else if !past {
        from_parts(t, cs.drop_first(), false)
    } else {
        from_child(t, cs[0] as int) + from_parts(t, cs.drop_first(), true)
    }
}

/// The names the statement at node `i` imports.
pub open spec fn node_imports(t: SyntaxTree, i: int, s: ImportSyntax) -> Seq<ImportView> {
    match s {
        ImportSyntax::Python => if t.kind(i) == "import_statement"@ {
            parts(t, t.children(i), Part::PyPlain)
        } else if t.kind(i) == "import_from_statement"@ {
            from_parts(t, t.children(i), false)
        } else {
            seq![]
        },
        ImportSyntax::Js => if t.kind(i) == "import_statement"@ {
            parts(t, t.children(i), Part::JsStmt)
        } else {
            seq![]
        },
    }
}

/// The names imported in the subtree at `i`, in pre-order.
pub open spec fn imports_at(t: SyntaxTree, i: int, s: ImportSyntax) -> Seq<ImportView>
    decreases t.len() - i, 1int, 0int,
{
    node_imports(t, i, s) + imports_kids(t, i, 0, s)
}

pub open spec fn imports_kids(t: SyntaxTree, p: int, k: int, s: ImportSyntax) -> Seq<ImportView>
    decreases t.len() - p, 0int, t.children(p).len() - k,
{
    if 0 <= k < t.children(p).len() {
        let c = t.children(p)[k] as int;
        (if p < c < t.len() {
            imports_at(t, c, s)
        } else {
            seq![]
        }) + imports_kids(t, p, k + 1, s)
    } else {
        seq![]
    }
}

/// Import statements, whose subtrees the search for uses skips.
pub open spec fn skips(k: Seq<char>, s: ImportSyntax) -> bool {
    k == "import_statement"@ || match s {
        ImportSyntax::Python => k == "import_from_statement"@,
        ImportSyntax::Js => k == "import_declaration"@,
    }
}

/// Node `i` uses `name`: an identifier spelling it, or (Python) an
/// attribute access on it.
pub open spec fn names_at(t: SyntaxTree, i: int, name: Seq<char>, s: ImportSyntax) -> bool {
    (t.kind(i) == "identifier"@ && t.text(i) == name) || (s == ImportSyntax::Python && t.kind(i)
        == "attribute"@ && field_text(t, i, "object"@) == Some(name))
}

/// The subtree at `i`, import statements left out, uses `name`.
pub open spec fn uses(t: SyntaxTree, i: int, name: Seq<char>, s: ImportSyntax) -> bool
    decreases t.len() - i, 1int, 0int,
{
    !skips(t.kind(i), s) && (names_at(t, i, name, s) || uses_kids(t, i, 0, name, s))
}

pub open spec fn uses_kids(t: SyntaxTree, p: int, j: int, name: Seq<char>, s: ImportSyntax) -> bool
    decreases t.len() - p, 0int, t.children(p).len() - j,
{
    if 0 <= j < t.children(p).len() {
        let c = t.children(p)[j] as int;
        (p < c < t.len() && uses(t, c, name, s)) || uses_kids(t, p, j + 1, name, s)
    } else {
        false
    }
}

/// The finding for each imported name that does not start with `_` and is
/// used nowhere outside the import statements.
pub open spec fn unused_of(t: SyntaxTree, imps: Seq<ImportView>, s: ImportSyntax) -> Seq<HitView>
    decreases imps.len(),
{
    if imps.len() == 0 {
        seq![]
    } else {
        let m = imps.last();
        unused_of(t, imps.drop_last(), s) + if !starts_with(m.0, "_"@) && !uses(t, 0, m.0, s) {
            seq![(m.1, m.2, "unused-import"@, "`"@ + m.0 + "` imported but unused"@)]
        } else {
            seq![]
        }
    }
}

/// The `unused-import` issues of a file.
pub open spec fn unused_import_issues(t: SyntaxTree, file: Seq<char>, sev: Severity, s: ImportSyntax) -> Seq<
    IssueView,
> {
    if t.len() == 0 {
        seq![]
    } else {
        as_issues(unused_of(t, imports_at(t, 0, s), s), file, sev)
    }
}

/// What follows the last `c` in `s`; all of `s` when there is none.
fn str_after_last(s: &str, c: char) -> (r: &str)
    ensures
        r@ == after_last(s@, c),
{
    let v = chars_of(s);
    let n = v.len();
    let mut j = n;
    while j > 0
        invariant
            j <= n,
            n == s@.len(),
            v@ == s@,
            forall|k: int| j <= k < n ==> s@[k] != c,
        decreases j,
    {
        if v[j - 1] == c {
            let ghost jj = (j - 1) as int;
            assert(is_last(s@, c, jj));
            assert forall|q: int| crate::text::is_last_of(s@, c, q) implies q == jj by {
                if q < jj {
                    assert(s@[jj] == c);
                }
            }
            return s.substring_char(j, n);
        }
        j = j - 1;
    }
    assert(!exists|q: int| crate::text::is_last_of(s@, c, q));
    s
}

spec fn is_last(s: Seq<char>, c: char, j: int) -> bool {
    crate::text::is_last_of(s, c, j)
}

pub open spec fn found_views(v: Seq<(String, usize, usize)>) -> Seq<ImportView> {
    v.map_values(|f: (String, usize, usize)| (f.0@, f.1 as int, f.2 as int))
}

fn push_import(t: &SyntaxTree, c: usize, name: &str, out: &mut Vec<(String, usize, usize)>)
    requires
        t.wf(),
        c < t.len(),
    ensures
        found_views(final(out)@) == found_views(old(out)@) + seq![import_at(*t, c as int, name@)],
{
    let ghost before = found_views(out@);
    out.push((name.to_owned(), t.node_line(c), t.node_column(c)));
    assert(found_views(out@) =~= before + seq![import_at(*t, c as int, name@)]);
}

fn aliased_exec(t: &SyntaxTree, c: usize, to_last: bool, out: &mut Vec<(String, usize, usize)>)
    requires
        t.wf(),
        c < t.len(),
    ensures
        found_views(final(out)@) == found_views(old(out)@) + aliased_import(*t, c as int, to_last),
{
    match t.field_child(c, "alias") {
        Some(a) => push_import(t, a, t.node_text(a), out),
        None => match t.field_child(c, "name") {
            Some(n) => {
                let text = t.node_text(n);
                if to_last {
                    push_import(t, n, str_after_last(text, '.'), out);
                } else {
                    push_import(t, n, text, out);
                }
            },
            None => {
                assert(aliased_import(*t, c as int, to_last) =~= Seq::<ImportView>::empty());
                assert(found_views(out@) =~= found_views(out@) + Seq::<ImportView>::empty());
            },
        },
    }
}

fn nothing(out: &Vec<(String, usize, usize)>)
    ensures
        found_views(out@) == found_views(out@) + Seq::<ImportView>::empty(),
{
    assert(found_views(out@) =~= found_views(out@) + Seq::<ImportView>::empty());
}

fn part_exec(t: &SyntaxTree, c: usize, p: Part, out: &mut Vec<(String, usize, usize)>)
    requires
        t.wf(),
        c < t.len(),
    ensures
        found_views(final(out)@) == found_views(old(out)@) + part_of(*t, c as int, p),
    decreases rank(p), 0int,
{
    match p {
        Part::PyPlain => {
            if t.kind_is(c, "dotted_name") {
                push_import(t, c, str_after_last(t.node_text(c), '.'), out);
            } else if t.kind_is(c, "aliased_import") {
                aliased_exec(t, c, true, out);
            } else {
                nothing(out);
            }
        },
        Part::JsStmt => {
            if t.kind_is(c, "import_clause") {
                parts_exec(t, c, Part::JsClause, out);
            } else {
                nothing(out);
            }
        },
        Part::JsClause => {
            if t.kind_is(c, "identifier") {
                push_import(t, c, t.node_text(c), out);
            } else if t.kind_is(c, "named_imports") {
                parts_exec(t, c, Part::JsSpecs, out);
            } else if t.kind_is(c, "namespace_import") {
                match t.child(c, 2) {
                    Some(a) => push_import(t, a, t.node_text(a), out),
                    None => nothing(out),
                }
            } else {
                nothing(out);
            }
        },
        Part::JsSpecs => {
            if t.kind_is(c, "import_specifier") {
                let named = match t.field_child(c, "alias") {
                    Some(a) => Some(a),
                    None => t.field_child(c, "name"),
                };
                match named {
                    Some(n) => push_import(t, n, t.node_text(n), out),
                    None => nothing(out),
                }
            } else {
                nothing(out);
            }
        },
    }
}

fn parts_exec(t: &SyntaxTree, parent: usize, p: Part, out: &mut Vec<(String, usize, usize)>)
    requires
        t.wf(),
        parent < t.len(),
    ensures
        found_views(final(out)@) == found_views(old(out)@) + parts(*t, t.children(parent as int), p),
    decreases rank(p), 1int,
{
    let ghost start = found_views(out@);
    let ghost cs = t.children(parent as int);
    let n = t.child_count(parent);
    let mut k: usize = 0;
    while k < n
        invariant
            t.wf(),
            parent < t.len(),
            cs == t.children(parent as int),
            n == cs.len(),
            k <= n,
            found_views(out@) == start + parts(*t, cs.take(k as int), p),
        decreases n - k,
    {
        let c = t.nodes[parent].children[k];
        assert(parent < c < t.len()) by {
            assert(t.nodes@[parent as int].children@[k as int] == c);
        }
        assert(cs.take(k + 1).drop_last() =~= cs.take(k as int));
        assert(cs.take(k + 1).last() == c);
        part_exec(t, c, p, out);
        assert(found_views(out@) =~= start + parts(*t, cs.take(k + 1), p));
        k = k + 1;
    }
    assert(cs.take(k as int) =~= cs);
}

fn from_parts_exec(t: &SyntaxTree, parent: usize, out: &mut Vec<(String, usize, usize)>)
    requires
        t.wf(),
        parent < t.len(),
    ensures
        found_views(final(out)@) == found_views(old(out)@) + from_parts(*t, t.children(parent as int), false),
{
    let ghost start = found_views(out@);
    let ghost cs = t.children(parent as int);
    let n = t.child_count(parent);
    let mut past = false;
    let mut k: usize = 0;
    assert(cs.skip(0) =~= cs);
    while k < n
        invariant
            t.wf(),
            parent < t.len(),
            cs == t.children(parent as int),
            n == cs.len(),
            k <= n,
            found_views(out@) + from_parts(*t, cs.skip(k as int), past) =~= start + from_parts(
                *t,
                cs,
                false,
            ),
        decreases n - k,
    {
        let c = t.nodes[parent].children[k];
        assert(parent < c < t.len()) by {
            assert(t.nodes@[parent as int].children@[k as int] == c);
        }
        assert(cs.skip(k as int)[0] == c);
        assert(cs.skip(k as int).drop_first() =~= cs.skip(k + 1));
        let ghost mid = found_views(out@);
        if t.text_is(c, "import") {
            past = true;
        } else if past {
            if t.kind_is(c, "aliased_import") {
                aliased_exec(t, c, false, out);
            } else if (t.kind_is(c, "dotted_name") || t.kind_is(c, "identifier")) && !t.text_is(c, "")
                && !t.text_is(c, ",") {
                push_import(t, c, t.node_text(c), out);
            } else {
                nothing(out);
            }
            assert(found_views(out@) == mid + from_child(*t, c as int));
        }
        k = k + 1;
    }
    assert(cs.skip(k as int) =~= Seq::<usize>::empty());
    assert(from_parts(*t, cs.skip(k as int), past) =~= Seq::<ImportView>::empty());
}

fn imports_exec(t: &SyntaxTree, i: usize, s: ImportSyntax, out: &mut Vec<(String, usize, usize)>)
    requires
        t.wf(),
        i < t.len(),
    ensures
        found_views(final(out)@) == found_views(old(out)@) + imports_at(*t, i as int, s),
    decreases t.len() - i,
{
    let ghost start = found_views(out@);
    match s {
        ImportSyntax::Python => {
            if t.kind_is(i, "import_statement") {
                parts_exec(t, i, Part::PyPlain, out);
            } else if t.kind_is(i, "import_from_statement") {
                from_parts_exec(t, i, out);
            } else {
                nothing(out);
            }
        },
        ImportSyntax::Js => {
            if t.kind_is(i, "import_statement") {
                parts_exec(t, i, Part::JsStmt, out);
            } else {
                nothing(out);
            }
        },
    }
    let n = t.child_count(i);
    let mut k: usize = 0;
    while k < n
        invariant
            t.wf(),
            i < t.len(),
            n == t.children(i as int).len(),
            k <= n,
            found_views(out@) + imports_kids(*t, i as int, k as int, s) =~= start + imports_at(
                *t,
                i as int,
                s,
            ),
        decreases n - k,
    {
        let c = t.nodes[i].children[k];
        assert(i < c < t.len()) by {
            assert(t.nodes@[i as int].children@[k as int] == c);
        }
        let ghost mid = found_views(out@);
        imports_exec(t, c, s, out);
        assert(imports_kids(*t, i as int, k as int, s) == imports_at(*t, c as int, s) + imports_kids(
            *t,
            i as int,
            k + 1,
            s,
        ));
        assert(found_views(out@) + imports_kids(*t, i as int, k + 1, s) =~= mid + imports_kids(
            *t,
            i as int,
            k as int,
            s,
        ));
        k = k + 1;
    }
    assert(imports_kids(*t, i as int, k as int, s) =~= Seq::<ImportView>::empty());
}

fn skips_exec(k: &str, s: ImportSyntax) -> (r: bool)
    ensures
        r == skips(k@, s),
{
    str_eq(k, "import_statement") || match s {
        ImportSyntax::Python => str_eq(k, "import_from_statement"),
        ImportSyntax::Js => str_eq(k, "import_declaration"),
    }
}

fn uses_exec(t: &SyntaxTree, i: usize, name: &str, s: ImportSyntax) -> (r: bool)
    requires
        t.wf(),
        i < t.len(),
    ensures
        r == uses(*t, i as int, name@, s),
    decreases t.len() - i, 1int,
{
    if skips_exec(t.node_kind(i), s) {
        return false;
    }
    if t.kind_is(i, "identifier") && t.text_is(i, name) {
        return true;
    }
    if s == ImportSyntax::Python && t.kind_is(i, "attribute") {
        if let Some(o) = field_text_exec(t, i, "object") {
            if str_eq(o, name) {
                return true;
            }
        }
    }
    uses_kids_exec(t, i, name, s)
}

fn uses_kids_exec(t: &SyntaxTree, p: usize, name: &str, s: ImportSyntax) -> (r: bool)
    requires
        t.wf(),
        p < t.len(),
    ensures
        r == uses_kids(*t, p as int, 0, name@, s),
    decreases t.len() - p, 0int,
{
    let n = t.child_count(p);
    let mut j: usize = 0;
    while j < n
        invariant
            t.wf(),
            p < t.len(),
            n == t.children(p as int).len(),
            j <= n,
            uses_kids(*t, p as int, 0, name@, s) == uses_kids(*t, p as int, j as int, name@, s),
        decreases n - j,
    {
        let c = t.nodes[p].children[j];
        assert(p < c < t.len()) by {
            assert(t.nodes@[p as int].children@[j as int] == c);
        }
        if uses_exec(t, c, name, s) {
            return true;
        }
        j = j + 1;
    }
    false
}

fn check_unused_import(t: &SyntaxTree, fp: &str, sev: Severity, s: ImportSyntax) -> (r: Vec<Issue>)
    requires
        t.wf(),
    ensures
        issue_views(r@) == unused_import_issues(*t, fp@, sev, s),
{
    let mut ctx = Ctx::new(fp, sev);
    if t.node_count() == 0 {
        assert(issue_views(ctx.issues@) =~= Seq::<IssueView>::empty());
        return ctx.issues;
    }
    let mut imports: Vec<(String, usize, usize)> = Vec::new();
    imports_exec(t, 0, s, &mut imports);
    let ghost imps = found_views(imports@);
    assert(imps =~= imports_at(*t, 0, s));
    let ghost start = ctx;
    let mut k: usize = 0;
    while k < imports.len()
        invariant
            t.wf(),
            0 < t.len(),
            imps == found_views(imports@),
            k <= imports@.len(),
            ctx.grew(start, unused_of(*t, imps.take(k as int), s)),
        decreases imports@.len() - k,
    {
        let name = imports[k].0.as_str();
        assert(imps.take(k + 1).drop_last() =~= imps.take(k as int));
        assert(imps.take(k + 1).last() == imps[k as int]);
        let ghost before = ctx.found();
        if !str_starts_with(name, "_") && !uses_exec(t, 0, name, s) {
            ctx.report_at(imports[k].1, imports[k].2, "unused-import", cat3("`", name, "` imported but unused"));
        } else {
            assert(ctx.found() =~= before + Seq::<HitView>::empty());
        }
        k = k + 1;
    }
    assert(imps.take(k as int) =~= imps);
    proof {
        ctx.lemma_views();
    }
    ctx.issues
}

/// `unused-import` (Python): each name an `import` or `from ... import`
/// statement brings in (the last dotted segment for a plain `import`, the
/// alias where there is one) that does not start with `_` and that no
/// identifier or attribute access outside the import statements uses.
pub fn check_unused_import_python(t: &SyntaxTree, fp: &str, sev: Severity) -> (r: Vec<Issue>)
    requires
        t.wf(),
    ensures
        issue_views(r@) == unused_import_issues(*t, fp@, sev, ImportSyntax::Python),
{
    check_unused_import(t, fp, sev, ImportSyntax::Python)
}

/// `unused-import` (JavaScript and TypeScript): each name an `import`
/// statement brings in (default, named with its alias, or namespace) that
/// does not start with `_` and that no identifier outside the import
/// statements uses.
pub fn check_unused_import_js(t: &SyntaxTree, fp: &str, sev: Severity) -> (r: Vec<Issue>)
    requires
        t.wf(),
    ensures
        issue_views(r@) == unused_import_issues(*t, fp@, sev, ImportSyntax::Js),
{
    check_unused_import(t, fp, sev, ImportSyntax::Js)
}

} // verus!
