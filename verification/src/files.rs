//! Which files of a directory tree are analyzed.
use vstd::prelude::*;
use crate::baseline::{lemma_lex_lt_irreflexive, lemma_lex_lt_transitive, lex_lt, str_lt, strs};
use crate::language::{get_language, spec_get_language};
use crate::text::{contains, ends_with, str_contains, str_ends_with};

verus! {

/// Path fragments that mark a directory that is never analyzed.
pub open spec fn default_skip_dirs() -> Seq<Seq<char>> {
    seq![
        "node_modules"@,
        "/dist/"@,
        "/target/"@,
        "/vendor/"@,
        "/__pycache__/"@,
        "/.venv/"@,
        "/venv/"@,
        "/site-packages/"@,
        "/build/"@,
        "/bin/obj/"@,
        "/bundle/"@,
        "/.git/"@,
        "/generated/"@,
    ]
}

/// File-name endings of files that are never analyzed.
pub open spec fn default_skip_files() -> Seq<Seq<char>> {
    seq![
        "package-lock.json"@,
        "package.json"@,
        "tsconfig.json"@,
        "composer.json"@,
        "Cargo.lock"@,
        ".d.ts"@,
        ".d.tsx"@,
    ]
}

fn default_skip_dirs_exec() -> (r: Vec<&'static str>)
    ensures
        crate::rules::common::texts(r@) == default_skip_dirs(),
{
    let v = vec![
        "node_modules",
        "/dist/",
        "/target/",
        "/vendor/",
        "/__pycache__/",
        "/.venv/",
        "/venv/",
        "/site-packages/",
        "/build/",
        "/bin/obj/",
        "/bundle/",
        "/.git/",
        "/generated/",
    ];
    assert(crate::rules::common::texts(v@) =~= default_skip_dirs());
    v
}

fn default_skip_files_exec() -> (r: Vec<&'static str>)
    ensures
        crate::rules::common::texts(r@) == default_skip_files(),
{
    let v = vec![
        "package-lock.json",
        "package.json",
        "tsconfig.json",
        "composer.json",
        "Cargo.lock",
        ".d.ts",
        ".d.tsx",
    ];
    assert(crate::rules::common::texts(v@) =~= default_skip_files());
    v
}

/// Whether `path` holds one of `frags`.
pub open spec fn holds_any(path: Seq<char>, frags: Seq<Seq<char>>) -> bool {
    exists|k: int| 0 <= k < frags.len() && contains(path, #[trigger] frags[k])
}

/// Whether `path` ends with one of `ends`.
pub open spec fn ends_any(path: Seq<char>, ends: Seq<Seq<char>>) -> bool {
    exists|k: int| 0 <= k < ends.len() && ends_with(path, #[trigger] ends[k])
}

/// Whether a path is left out of the analysis: it lies in a skipped
/// directory, has a skipped file name, or ends with `/dist`.
pub open spec fn skipped(path: Seq<char>, extra_dirs: Seq<Seq<char>>, extra_files: Seq<Seq<char>>) -> bool {
    holds_any(path, default_skip_dirs()) || holds_any(path, extra_dirs) || ends_any(
        path,
        default_skip_files(),
    ) || ends_any(path, extra_files) || ends_with(path, "/dist"@)
}

fn holds_any_exec(path: &str, frags: &Vec<&str>) -> (r: bool)
    ensures
        r == holds_any(path@, crate::rules::common::texts(frags@)),
{
    let ghost fv = crate::rules::common::texts(frags@);
    let mut k: usize = 0;
    while k < frags.len()
        invariant
            k <= frags@.len(),
            fv == crate::rules::common::texts(frags@),
            forall|q: int| 0 <= q < k ==> !contains(path@, #[trigger] fv[q]),
        decreases frags@.len() - k,
    {
        if str_contains(path, frags[k]) {
            assert(contains(path@, fv[k as int]));
            return true;
        }
        k = k + 1;
    }
    false
}

fn ends_any_exec(path: &str, ends: &Vec<&str>) -> (r: bool)
    ensures
        r == ends_any(path@, crate::rules::common::texts(ends@)),
{
    let ghost ev = crate::rules::common::texts(ends@);
    let mut k: usize = 0;
    while k < ends.len()
        invariant
            k <= ends@.len(),
            ev == crate::rules::common::texts(ends@),
            forall|q: int| 0 <= q < k ==> !ends_with(path@, #[trigger] ev[q]),
        decreases ends@.len() - k,
    {
        if str_ends_with(path, ends[k]) {
            assert(ends_with(path@, ev[k as int]));
            return true;
        }
        k = k + 1;
    }
    false
}

/// Whether a path is left out of the analysis.
pub fn should_skip(path: &str, extra_dirs: &Vec<&str>, extra_files: &Vec<&str>) -> (r: bool)
    ensures
        r == skipped(
            path@,
            crate::rules::common::texts(extra_dirs@),
            crate::rules::common::texts(extra_files@),
        ),
{
    holds_any_exec(path, &default_skip_dirs_exec()) || holds_any_exec(path, extra_dirs)
        || ends_any_exec(path, &default_skip_files_exec()) || ends_any_exec(path, extra_files)
        || str_ends_with(path, "/dist")
}

/// The position at which `x` goes into `s` kept in order: after every
/// path that does not come after it.
pub open spec fn path_slot(s: Seq<Seq<char>>, x: Seq<char>, k: int) -> int
    decreases s.len() - k,
{
    if k < 0 || k >= s.len() {
        s.len() as int
    } else if lex_lt(x, s[k]) {
        k
    } else {
        path_slot(s, x, k + 1)
    }
}

/// `s` in order.
pub open spec fn sorted_paths(s: Seq<Seq<char>>) -> Seq<Seq<char>>
    decreases s.len(),
{
    if s.len() == 0 {
        seq![]
    } else {
        let sorted = sorted_paths(s.drop_last());
        sorted.insert(path_slot(sorted, s.last(), 0), s.last())
    }
}

proof fn lemma_path_slot_range(s: Seq<Seq<char>>, x: Seq<char>, k: int)
    requires
        0 <= k <= s.len(),
    ensures
        k <= path_slot(s, x, k) <= s.len(),
    decreases s.len() - k,
{
    if k < s.len() && !lex_lt(x, s[k]) {
        lemma_path_slot_range(s, x, k + 1);
    }
}

/// Whether a path found under the analyzed directory is analyzed: its
/// language is known and it is not skipped.
pub open spec fn selected(path: Seq<char>, extra_dirs: Seq<Seq<char>>, extra_files: Seq<Seq<char>>) -> bool {
    spec_get_language(path) is Some && !skipped(path, extra_dirs, extra_files)
}

/// The paths of `ps` that are analyzed, in order.
pub open spec fn selection(ps: Seq<Seq<char>>, extra_dirs: Seq<Seq<char>>, extra_files: Seq<Seq<char>>) -> Seq<Seq<char>>
    decreases ps.len(),
{
    if ps.len() == 0 {
        seq![]
    } else {
        selection(ps.drop_last(), extra_dirs, extra_files) + if selected(ps.last(), extra_dirs, extra_files) {
            seq![ps.last()]
        } else {
            seq![]
        }
    }
}

/// The source files among the paths found under a directory: those whose
/// language is known and that are not skipped (by default or by the extra
/// directory fragments and file endings), sorted.
pub fn find_source_files_with_config(paths: Vec<String>, extra_dirs: &Vec<&str>, extra_files: &Vec<&str>) -> (r: Vec<String>)
    ensures
        strs(r@) == sorted_paths(
            selection(
                strs(paths@),
                crate::rules::common::texts(extra_dirs@),
                crate::rules::common::texts(extra_files@),
            ),
        ),
{
    let ghost dirs = crate::rules::common::texts(extra_dirs@);
    let ghost fls = crate::rules::common::texts(extra_files@);
    let ghost pv = strs(paths@);
    let mut out: Vec<String> = Vec::new();
    let mut i: usize = 0;
    while i < paths.len()
        invariant
            i <= paths@.len(),
            pv == strs(paths@),
            dirs == crate::rules::common::texts(extra_dirs@),
            fls == crate::rules::common::texts(extra_files@),
            strs(out@) == sorted_paths(selection(pv.take(i as int), dirs, fls)),
        decreases paths@.len() - i,
    {
        assert(pv.take(i + 1).drop_last() =~= pv.take(i as int));
        assert(pv.take(i + 1).last() == paths@[i as int]@);
        let p = paths[i].as_str();
        if get_language(p).is_some() && !should_skip(p, extra_dirs, extra_files) {
            let ghost before = strs(out@);
            let ghost x = p@;
            let mut j: usize = 0;
            while j < out.len() && !str_lt(p, out[j].as_str())
                invariant
                    j <= out@.len(),
                    before == strs(out@),
                    x == p@,
                    path_slot(before, x, 0) == path_slot(before, x, j as int),
                decreases out@.len() - j,
            {
                j = j + 1;
            }
            proof {
                lemma_path_slot_range(before, x, 0);
            }
            out.insert(j, paths[i].clone());
            assert(strs(out@) =~= before.insert(j as int, x));
            let ghost sel = selection(pv.take(i as int), dirs, fls);
            assert((sel + seq![x]).drop_last() =~= sel);
            assert((sel + seq![x]).last() == x);
        } else {
            assert(selection(pv.take(i as int), dirs, fls) + seq![] =~= selection(pv.take(i as int), dirs, fls));
        }
        i = i + 1;
    }
    assert(pv.take(i as int) =~= pv);
    out
}


/// `s` is in order: no path comes after a later one.
pub open spec fn in_order(s: Seq<Seq<char>>) -> bool {
    forall|i: int, j: int| 0 <= i < j < s.len() ==> !lex_lt(#[trigger] s[j], #[trigger] s[i])
}

proof fn lemma_path_slot_props(s: Seq<Seq<char>>, x: Seq<char>, k: int)
    requires
        0 <= k <= s.len(),
    ensures
        forall|i: int| k <= i < path_slot(s, x, k) ==> !lex_lt(x, #[trigger] s[i]),
        path_slot(s, x, k) < s.len() ==> lex_lt(x, s[path_slot(s, x, k)]),
    decreases s.len() - k,
{
    if k < s.len() && !lex_lt(x, s[k]) {
        lemma_path_slot_props(s, x, k + 1);
    }
}

/// Sorting paths keeps each of them, as often as it occurs, and puts them
/// in order.
pub proof fn sorting_keeps_every_path_in_order(s: Seq<Seq<char>>)
    ensures
        in_order(sorted_paths(s)),
        sorted_paths(s).to_multiset() == s.to_multiset(),
        forall|k: int| 0 <= k < sorted_paths(s).len() ==> s.contains(#[trigger] sorted_paths(s)[k]),
    decreases s.len(),
{
    if s.len() > 0 {
        let sorted = sorted_paths(s.drop_last());
        let x = s.last();
        sorting_keeps_every_path_in_order(s.drop_last());
        lemma_path_slot_range(sorted, x, 0);
        lemma_path_slot_props(sorted, x, 0);
        let p = path_slot(sorted, x, 0);
        let r = sorted.insert(p, x);
        assert(r == sorted_paths(s));
        assert forall|i: int, j: int| 0 <= i < j < r.len() implies !lex_lt(#[trigger] r[j], #[trigger] r[i]) by {
            if j < p {
                assert(r[i] == sorted[i] && r[j] == sorted[j]);
            } else if j == p {
                assert(r[i] == sorted[i]);
            } else if i < p {
                assert(r[i] == sorted[i] && r[j] == sorted[j - 1]);
            } else if i == p {
                assert(r[j] == sorted[j - 1]);
                if j - 1 > p {
                    assert(!lex_lt(sorted[j - 1], sorted[p]));
                }
                assert(lex_lt(x, sorted[p]));
                lemma_lex_lt_irreflexive(sorted[p]);
                if lex_lt(sorted[j - 1], x) {
                    lemma_lex_lt_transitive(sorted[j - 1], x, sorted[p]);
                }
            } else {
                assert(r[i] == sorted[i - 1] && r[j] == sorted[j - 1]);
            }
        }
        assert forall|k: int| 0 <= k < r.len() implies s.contains(#[trigger] r[k]) by {
            if k == p {
                assert(s[s.len() - 1] == x);
            } else {
                let q = if k < p { k } else { k - 1 };
                assert(r[k] == sorted[q]);
                assert(s.drop_last().contains(sorted[q]));
                let w = choose|w: int| 0 <= w < s.drop_last().len() && s.drop_last()[w] == sorted[q];
                assert(s[w] == sorted[q]);
            }
        }
        assert(s.drop_last().push(x) == s);
        vstd::seq_lib::to_multiset_insert(sorted, p, x);
        vstd::seq_lib::to_multiset_build(s.drop_last(), x);
    } else {
        assert(sorted_paths(s) =~= s);
    }
}

proof fn lemma_selection_selected(ps: Seq<Seq<char>>, dirs: Seq<Seq<char>>, fls: Seq<Seq<char>>)
    ensures
        forall|k: int| 0 <= k < selection(ps, dirs, fls).len() ==> selected(
            #[trigger] selection(ps, dirs, fls)[k],
            dirs,
            fls,
        ) && ps.contains(selection(ps, dirs, fls)[k]),
    decreases ps.len(),
{
    if ps.len() > 0 {
        lemma_selection_selected(ps.drop_last(), dirs, fls);
        let prev = selection(ps.drop_last(), dirs, fls);
        assert forall|k: int| 0 <= k < selection(ps, dirs, fls).len() implies selected(
            #[trigger] selection(ps, dirs, fls)[k],
            dirs,
            fls,
        ) && ps.contains(selection(ps, dirs, fls)[k]) by {
            if k < prev.len() {
                assert(selection(ps, dirs, fls)[k] == prev[k]);
                let w = choose|w: int| 0 <= w < ps.drop_last().len() && ps.drop_last()[w] == prev[k];
                assert(ps[w] == prev[k]);
            } else {
                assert(selection(ps, dirs, fls)[k] == ps.last());
                assert(ps[ps.len() - 1] == ps.last());
            }
        }
    }
}

/// The source files found under a directory are in order, each a path that
/// was found there, whose language is known and that is not skipped; every
/// such path is among them.
pub proof fn the_files_found_are_the_selected_paths_in_order(
    ps: Seq<Seq<char>>,
    extra_dirs: Seq<Seq<char>>,
    extra_files: Seq<Seq<char>>,
)
    ensures
        in_order(sorted_paths(selection(ps, extra_dirs, extra_files))),
        sorted_paths(selection(ps, extra_dirs, extra_files)).to_multiset() == selection(
            ps,
            extra_dirs,
            extra_files,
        ).to_multiset(),
        forall|k: int| 0 <= k < sorted_paths(selection(ps, extra_dirs, extra_files)).len() ==> {
            let f = #[trigger] sorted_paths(selection(ps, extra_dirs, extra_files))[k];
            ps.contains(f) && selected(f, extra_dirs, extra_files)
        },
{
    let sel = selection(ps, extra_dirs, extra_files);
    sorting_keeps_every_path_in_order(sel);
    lemma_selection_selected(ps, extra_dirs, extra_files);
    assert forall|k: int| 0 <= k < sorted_paths(sel).len() implies {
        let f = #[trigger] sorted_paths(sel)[k];
        ps.contains(f) && selected(f, extra_dirs, extra_files)
    } by {
        let f = sorted_paths(sel)[k];
        assert(sel.contains(f));
        let w = choose|w: int| 0 <= w < sel.len() && sel[w] == f;
        assert(selected(sel[w], extra_dirs, extra_files) && ps.contains(sel[w]));
    }
}


/// The source files among the paths found under a directory, with only the
/// default skips.
pub fn find_source_files(paths: Vec<String>) -> (r: Vec<String>)
    ensures
        strs(r@) == sorted_paths(selection(strs(paths@), seq![], seq![])),
        in_order(strs(r@)),
        strs(r@).to_multiset() == selection(strs(paths@), seq![], seq![]).to_multiset(),
        forall|k: int| 0 <= k < r@.len() ==> strs(paths@).contains(#[trigger] strs(r@)[k]) && selected(
            strs(r@)[k],
            seq![],
            seq![],
        ),
{
    let ghost ps = strs(paths@);
    let none: Vec<&str> = Vec::new();
    assert(crate::rules::common::texts(none@) =~= Seq::<Seq<char>>::empty());
    let r = find_source_files_with_config(paths, &none, &none);
    proof {
        the_files_found_are_the_selected_paths_in_order(ps, seq![], seq![]);
    }
    r
}


/// The paths of `files` that `changed` lists, in order.
pub open spec fn changed_only(files: Seq<Seq<char>>, changed: Seq<Seq<char>>) -> Seq<Seq<char>>
    decreases files.len(),
{
    if files.len() == 0 {
        seq![]
    } else {
        changed_only(files.drop_last(), changed) + if changed.contains(files.last()) {
            seq![files.last()]
        } else {
            seq![]
        }
    }
}

fn listed(changed: &Vec<String>, f: &str) -> (r: bool)
    ensures
        r == strs(changed@).contains(f@),
{
    let mut k: usize = 0;
    while k < changed.len()
        invariant
            k <= changed@.len(),
            forall|q: int| 0 <= q < k ==> (#[trigger] changed@[q])@ != f@,
        decreases changed@.len() - k,
    {
        if crate::text::str_eq(changed[k].as_str(), f) {
            assert(strs(changed@)[k as int] == f@);
            return true;
        }
        k = k + 1;
    }
    assert(!strs(changed@).contains(f@)) by {
        if strs(changed@).contains(f@) {
            let q = choose|q: int| 0 <= q < strs(changed@).len() && strs(changed@)[q] == f@;
            assert(changed@[q]@ == f@);
        }
    }
    false
}

/// The files of a run restricted to those a diff reports as changed.
pub fn keep_changed(files: Vec<String>, changed: &Vec<String>) -> (r: Vec<String>)
    ensures
        strs(r@) == changed_only(strs(files@), strs(changed@)),
{
    let ghost fv = strs(files@);
    let mut out: Vec<String> = Vec::new();
    let mut i: usize = 0;
    while i < files.len()
        invariant
            i <= files@.len(),
            fv == strs(files@),
            strs(out@) == changed_only(fv.take(i as int), strs(changed@)),
        decreases files@.len() - i,
    {
        assert(fv.take(i + 1).drop_last() =~= fv.take(i as int));
        assert(fv.take(i + 1).last() == files@[i as int]@);
        if listed(changed, files[i].as_str()) {
            let ghost before = strs(out@);
            out.push(files[i].clone());
            assert(strs(out@) =~= before.push(files@[i as int]@));
        }
        i = i + 1;
    }
    assert(fv.take(i as int) =~= fv);
    out
}

} // verus!
