//! Rules for shell scripts.
use vstd::prelude::*;
use crate::lint::{Ctx, HitView, hit_if};
use crate::rules::common::{cat5, field_text, field_text_exec, parent_kind_is, parent_is, trim_chars, trim_ws};
use crate::syntax::SyntaxTree;
use crate::text::{chars_of, chars_starts_with, contains, starts_with, str_contains, str_eq, str_starts_with};

verus! {

/// `unquoted-expansion`: `$var` outside double quotes and `[[ ]]`.
pub open spec fn unquoted_expansion_hits(t: SyntaxTree, i: int) -> Seq<HitView> {
    hit_if(
        t.kind(i) == "simple_expansion"@ && !parent_kind_is(t, i, "string"@) && !parent_kind_is(
            t,
            i,
            "string_expansion"@,
        ) && !parent_kind_is(t, i, "test_command"@),
        t,
        i,
        "unquoted-expansion"@,
        "Unquoted variable "@ + t.text(i) + "; use \""@ + t.text(i) + "\" to prevent word splitting"@,
    )
}

pub fn unquoted_expansion_at(t: &SyntaxTree, i: usize, ctx: &mut Ctx)
    requires
        t.wf(),
        i < t.len(),
        old(ctx).wf(),
    ensures
        final(ctx).grew(*old(ctx), unquoted_expansion_hits(*t, i as int)),
{
    if t.kind_is(i, "simple_expansion") && !parent_is(t, i, "string") && !parent_is(t, i, "string_expansion")
        && !parent_is(t, i, "test_command") {
        let v = t.node_text(i);
        ctx.report(
            t,
            i,
            "unquoted-expansion",
            cat5("Unquoted variable ", v, "; use \"", v, "\" to prevent word splitting"),
        );
    }
}

/// The name a shell command runs.
pub open spec fn command_name(t: SyntaxTree, i: int) -> Option<Seq<char>> {
    if t.kind(i) == "command"@ {
        field_text(t, i, "name"@)
    } else {
        None
    }
}

fn command_name_exec<'a>(t: &'a SyntaxTree, i: usize) -> (r: Option<&'a str>)
    requires
        t.wf(),
        i < t.len(),
    ensures
        match r {
            Some(s) => command_name(*t, i as int) == Some(s@),
            None => command_name(*t, i as int) is None,
        },
{
    if t.kind_is(i, "command") {
        field_text_exec(t, i, "name")
    } else {
        None
    }
}

/// `no-eval` (shell): the `eval` command.
pub open spec fn no_eval_hits(t: SyntaxTree, i: int) -> Seq<HitView> {
    hit_if(
        command_name(t, i) == Some("eval"@),
        t,
        i,
        "no-eval"@,
        "Avoid `eval`; it's a security risk and makes code harder to debug"@,
    )
}

pub fn no_eval_at(t: &SyntaxTree, i: usize, ctx: &mut Ctx)
    requires
        t.wf(),
        i < t.len(),
        old(ctx).wf(),
    ensures
        final(ctx).grew(*old(ctx), no_eval_hits(*t, i as int)),
{
    if let Some(n) = command_name_exec(t, i) {
        if str_eq(n, "eval") {
            ctx.report(
                t,
                i,
                "no-eval",
                "Avoid `eval`; it's a security risk and makes code harder to debug".to_owned(),
            );
        }
    }
}

/// Whether some child of `p` reads `||`.
pub open spec fn has_or_child(t: SyntaxTree, p: int) -> bool {
    exists|k: int| 0 <= k < t.children(p).len() && t.text(#[trigger] t.children(p)[k] as int) == "||"@
}

/// Whether `cd` at `i` is handled: it sits in a list joined by `||`.
pub open spec fn cd_handled(t: SyntaxTree, i: int) -> bool {
    match t.parent(i) {
        Some(p) => t.kind(p as int) == "list"@ && has_or_child(t, p as int),
        None => false,
    }
}

fn cd_handled_exec(t: &SyntaxTree, i: usize) -> (r: bool)
    requires
        t.wf(),
        i < t.len(),
    ensures
        r == cd_handled(*t, i as int),
{
    let p = match t.node_parent(i) {
        Some(p) => p,
        None => {
            return false;
        },
    };
    assert(t.nodes@[i as int].parent == Some(p));
    if !t.kind_is(p, "list") {
        return false;
    }
    let cs = &t.nodes[p].children;
    let mut k: usize = 0;
    while k < cs.len()
        invariant
            t.wf(),
            p < t.len(),
            i < t.len(),
            t.parent(i as int) == Some(p),
            t.kind(p as int) == "list"@,
            cs@ == t.children(p as int),
            k <= cs@.len(),
            forall|q: int| 0 <= q < k ==> t.text(#[trigger] cs@[q] as int) != "||"@,
        decreases cs@.len() - k,
    {
        let c = cs[k];
        assert(p < c < t.len()) by {
            assert(t.nodes@[p as int].children@[k as int] == c);
        }
        if t.text_is(c, "||") {
            assert(t.text(t.children(p as int)[k as int] as int) == "||"@);
            return true;
        }
        k = k + 1;
    }
    false
}

/// `cd-without-or`: `cd` whose failure is not handled with `||`.
pub open spec fn cd_without_or_hits(t: SyntaxTree, i: int) -> Seq<HitView> {
    hit_if(
        command_name(t, i) == Some("cd"@) && !cd_handled(t, i),
        t,
        i,
        "cd-without-or"@,
        "Use `cd dir || exit 1` to handle failure"@,
    )
}

pub fn cd_without_or_at(t: &SyntaxTree, i: usize, ctx: &mut Ctx)
    requires
        t.wf(),
        i < t.len(),
        old(ctx).wf(),
    ensures
        final(ctx).grew(*old(ctx), cd_without_or_hits(*t, i as int)),
{
    if let Some(n) = command_name_exec(t, i) {
        if str_eq(n, "cd") && !cd_handled_exec(t, i) {
            ctx.report(t, i, "cd-without-or", "Use `cd dir || exit 1` to handle failure".to_owned());
        }
    }
}

/// The number of `word` nodes among `cs` other than `skip`.
pub open spec fn other_words(t: SyntaxTree, cs: Seq<usize>, skip: usize) -> nat
    decreases cs.len(),
{
    if cs.len() == 0 {
        0
    } else {
        other_words(t, cs.drop_last(), skip) + if t.kind(cs.last() as int) == "word"@ && cs.last() != skip {
            1nat
        } else {
            0nat
        }
    }
}

/// Whether node `f` runs `cat` on exactly one argument.
pub open spec fn cats_one_file(t: SyntaxTree, f: int) -> bool {
    let name = t.child_by_field(f, "name"@);
    t.kind(f) == "command"@ && name is Some && t.text(name.unwrap() as int) == "cat"@ && other_words(
        t,
        t.children(f),
        name.unwrap(),
    ) == 1
}

/// `useless-cat`: a pipeline that starts with `cat file`; reported at
/// that command.
pub open spec fn useless_cat_hits(t: SyntaxTree, i: int) -> Seq<HitView> {
    let first = t.child_at(i, 0);
    if t.kind(i) == "pipeline"@ && first is Some && cats_one_file(t, first.unwrap() as int) {
        seq![
            crate::lint::hit(
                t,
                first.unwrap() as int,
                "useless-cat"@,
                "Useless `cat`; use `cmd < file` instead of `cat file | cmd`"@,
            ),
        ]
    } else {
        seq![]
    }
}

fn cats_one_file_exec(t: &SyntaxTree, f: usize) -> (r: bool)
    requires
        t.wf(),
        f < t.len(),
    ensures
        r == cats_one_file(*t, f as int),
{
    if !t.kind_is(f, "command") {
        return false;
    }
    let name = match t.field_child(f, "name") {
        Some(n) => n,
        None => {
            return false;
        },
    };
    if !t.text_is(name, "cat") {
        return false;
    }
    let cs = &t.nodes[f].children;
    let mut count: usize = 0;
    let mut k: usize = 0;
    while k < cs.len()
        invariant
            t.wf(),
            f < t.len(),
            cs@ == t.children(f as int),
            k <= cs@.len(),
            count == other_words(*t, cs@.take(k as int), name),
            count <= k,
        decreases cs@.len() - k,
    {
        let c = cs[k];
        assert(f < c < t.len()) by {
            assert(t.nodes@[f as int].children@[k as int] == c);
        }
        assert(cs@.take(k + 1).drop_last() =~= cs@.take(k as int));
        assert(cs@.take(k + 1).last() == c);
        if t.kind_is(c, "word") && c != name {
            count = count + 1;
        }
        k = k + 1;
    }
    assert(cs@.take(k as int) =~= cs@);
    count == 1
}

pub fn useless_cat_at(t: &SyntaxTree, i: usize, ctx: &mut Ctx)
    requires
        t.wf(),
        i < t.len(),
        old(ctx).wf(),
    ensures
        final(ctx).grew(*old(ctx), useless_cat_hits(*t, i as int)),
{
    if !t.kind_is(i, "pipeline") {
        return;
    }
    if let Some(f) = t.child(i, 0) {
        if cats_one_file_exec(t, f) {
            ctx.report(
                t,
                f,
                "useless-cat",
                "Useless `cat`; use `cmd < file` instead of `cat file | cmd`".to_owned(),
            );
        }
    }
}

/// `dangerous-rm`: `rm` with a recursive-force flag and a variable or glob.
pub open spec fn dangerous_rm_hits(t: SyntaxTree, i: int) -> Seq<HitView> {
    let s = t.text(i);
    hit_if(
        command_name(t, i) == Some("rm"@) && (contains(s, "-rf"@) || contains(s, "-r -f"@) || contains(
            s,
            "-fr"@,
        )) && (contains(s, "$"@) || contains(s, "*"@)),
        t,
        i,
        "dangerous-rm"@,
        "Dangerous `rm -rf` with variable/glob expansion; validate paths first"@,
    )
}

pub fn dangerous_rm_at(t: &SyntaxTree, i: usize, ctx: &mut Ctx)
    requires
        t.wf(),
        i < t.len(),
        old(ctx).wf(),
    ensures
        final(ctx).grew(*old(ctx), dangerous_rm_hits(*t, i as int)),
{
    if let Some(n) = command_name_exec(t, i) {
        if str_eq(n, "rm") {
            let s = t.node_text(i);
            if (str_contains(s, "-rf") || str_contains(s, "-r -f") || str_contains(s, "-fr")) && (str_contains(
                s,
                "$",
            ) || str_contains(s, "*")) {
                ctx.report(
                    t,
                    i,
                    "dangerous-rm",
                    "Dangerous `rm -rf` with variable/glob expansion; validate paths first".to_owned(),
                );
            }
        }
    }
}

/// `test-equals`: `[ a == b ]`.
pub open spec fn test_equals_hits(t: SyntaxTree, i: int) -> Seq<HitView> {
    hit_if(
        t.kind(i) == "test_command"@ && starts_with(t.text(i), "[ "@) && contains(t.text(i), " == "@),
        t,
        i,
        "test-equals"@,
        "Use `=` instead of `==` in `[ ]`, or use `[[ ]]` for bash-specific features"@,
    )
}

pub fn test_equals_at(t: &SyntaxTree, i: usize, ctx: &mut Ctx)
    requires
        t.wf(),
        i < t.len(),
        old(ctx).wf(),
    ensures
        final(ctx).grew(*old(ctx), test_equals_hits(*t, i as int)),
{
    if t.kind_is(i, "test_command") && str_starts_with(t.node_text(i), "[ ") && str_contains(
        t.node_text(i),
        " == ",
    ) {
        ctx.report(
            t,
            i,
            "test-equals",
            "Use `=` instead of `==` in `[ ]`, or use `[[ ]]` for bash-specific features".to_owned(),
        );
    }
}

/// Whether a line turns on exit-on-error.
pub open spec fn sets_errexit(line: Seq<char>) -> bool {
    starts_with(trim_ws(line), "set -e"@) || starts_with(trim_ws(line), "set -o errexit"@)
}

/// Whether one of the first ten lines turns on exit-on-error: `k` lines
/// are read, `line` is being read, `s` is what is left.
pub open spec fn errexit_scan(s: Seq<char>, line: Seq<char>, k: nat) -> bool
    decreases s.len(),
{
    if k >= 10 {
        false
    } else if s.len() == 0 {
        sets_errexit(line)
    } else if s[0] == '\n' {
        sets_errexit(line) || errexit_scan(s.drop_first(), seq![], k + 1)
    } else {
        errexit_scan(s.drop_first(), line.push(s[0]), k)
    }
}

fn sets_errexit_exec(line: &Vec<char>) -> (r: bool)
    ensures
        r == sets_errexit(line@),
{
    let tl = trim_chars(line);
    chars_starts_with(&tl, &chars_of("set -e")) || chars_starts_with(&tl, &chars_of("set -o errexit"))
}

fn errexit_in_head(source: &str) -> (r: bool)
    ensures
        r == errexit_scan(source@, seq![], 0),
{
    let v = chars_of(source);
    let mut line: Vec<char> = Vec::new();
    let mut k: usize = 0;
    let mut j: usize = 0;
    assert(v@.skip(0) =~= v@);
    while j < v.len()
        invariant
            v@ == source@,
            j <= v@.len(),
            k <= j,
            errexit_scan(source@, seq![], 0) == errexit_scan(v@.skip(j as int), line@, k as nat),
        decreases v@.len() - j,
    {
        if k >= 10 {
            return false;
        }
        assert(v@.skip(j as int).drop_first() =~= v@.skip(j + 1));
        assert(v@.skip(j as int)[0] == v[j as int]);
        if v[j] == '\n' {
            if sets_errexit_exec(&line) {
                return true;
            }
            line = Vec::new();
            k = k + 1;
        } else {
            line.push(v[j]);
        }
        j = j + 1;
    }
    assert(v@.skip(j as int) =~= Seq::<char>::empty());
    if k >= 10 {
        false
    } else {
        sets_errexit_exec(&line)
    }
}

/// `no-set-e`: a script with content whose first ten lines never turn on
/// exit-on-error; reported once, at the top of the file.
pub open spec fn no_set_e_hits(t: SyntaxTree, i: int) -> Seq<HitView> {
    if i == 0 && t.children(0).len() > 0 && !errexit_scan(t.source@, seq![], 0) {
        seq![(1int, 1int, "no-set-e"@, "Consider adding `set -euo pipefail` for safer error handling"@)]
    } else {
        seq![]
    }
}

pub fn no_set_e_at(t: &SyntaxTree, i: usize, ctx: &mut Ctx)
    requires
        t.wf(),
        i < t.len(),
        old(ctx).wf(),
    ensures
        final(ctx).grew(*old(ctx), no_set_e_hits(*t, i as int)),
{
    if i == 0 && t.child_count(0) > 0 && !errexit_in_head(t.source.as_str()) {
        ctx.report_at(1, 1, "no-set-e", "Consider adding `set -euo pipefail` for safer error handling".to_owned());
    }
}

} // verus!
