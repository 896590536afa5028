//! Rules for Haskell and Elm.
use vstd::prelude::*;
use crate::lint::{Ctx, HitView, hit_if};
use crate::rules::common::{cat3, is_ws, is_ws_exec, parent_kind_is, parent_is};
use crate::syntax::SyntaxTree;
use crate::text::{
    after_last, chars_after_last, chars_contains, chars_occur_at, chars_of, contains, occurs_at, starts_with,
    str_eq, str_starts_with,
};
use vstd::string::StrSliceExecFns;

verus! {

/// Whether `s` is the name `p` or an application of it (`p ...`).
pub open spec fn applies(s: Seq<char>, p: Seq<char>) -> bool {
    s == p || starts_with(s, p + " "@)
}

fn applies_exec(s: &str, p: &str, p_sp: &str) -> (r: bool)
    requires
        p_sp@ == p@ + " "@,
    ensures
        r == applies(s@, p@),
{
    str_eq(s, p) || str_starts_with(s, p_sp)
}

/// The first partial function (`head`, `tail`, `init`, `last`, `fromJust`,
/// `read`) that text `s` names or applies.
pub open spec fn partial_named(s: Seq<char>) -> Option<Seq<char>> {
    if applies(s, "head"@) {
        Some("head"@)
    } else if applies(s, "tail"@) {
        Some("tail"@)
    } else if applies(s, "init"@) {
        Some("init"@)
    } else if applies(s, "last"@) {
        Some("last"@)
    } else if applies(s, "fromJust"@) {
        Some("fromJust"@)
    } else if applies(s, "read"@) {
        Some("read"@)
    } else {
        None
    }
}

fn partial_named_exec(s: &str) -> (r: Option<&'static str>)
    ensures
        match r {
            Some(p) => partial_named(s@) == Some(p@),
            None => partial_named(s@) is None,
        },
{
    proof {
        reveal_strlit("head ");
        reveal_strlit("head");
        reveal_strlit("tail ");
        reveal_strlit("tail");
        reveal_strlit("init ");
        reveal_strlit("init");
        reveal_strlit("last ");
        reveal_strlit("last");
        reveal_strlit("fromJust ");
        reveal_strlit("fromJust");
        reveal_strlit("read ");
        reveal_strlit("read");
        reveal_strlit(" ");
        assert("head "@ =~= "head"@ + " "@);
        assert("tail "@ =~= "tail"@ + " "@);
        assert("init "@ =~= "init"@ + " "@);
        assert("last "@ =~= "last"@ + " "@);
        assert("fromJust "@ =~= "fromJust"@ + " "@);
        assert("read "@ =~= "read"@ + " "@);
    }
    if applies_exec(s, "head", "head ") {
        Some("head")
    } else if applies_exec(s, "tail", "tail ") {
        Some("tail")
    } else if applies_exec(s, "init", "init ") {
        Some("init")
    } else if applies_exec(s, "last", "last ") {
        Some("last")
    } else if applies_exec(s, "fromJust", "fromJust ") {
        Some("fromJust")
    } else if applies_exec(s, "read", "read ") {
        Some("read")
    } else {
        None
    }
}

/// `no-partial-function`: a variable or application naming a partial
/// function; the first of the list that matches is reported.
pub open spec fn no_partial_functions_hits(t: SyntaxTree, i: int) -> Seq<HitView> {
    let p = partial_named(t.text(i));
    hit_if(
        (t.kind(i) == "variable"@ || t.kind(i) == "function_application"@) && p is Some,
        t,
        i,
        "no-partial-function"@,
        "`"@ + p.unwrap() + "` is partial; crashes on empty input. Use pattern matching or safe alternatives"@,
    )
}

pub fn no_partial_functions_at(t: &SyntaxTree, i: usize, ctx: &mut Ctx)
    requires
        t.wf(),
        i < t.len(),
        old(ctx).wf(),
    ensures
        final(ctx).grew(*old(ctx), no_partial_functions_hits(*t, i as int)),
{
    if !(t.kind_is(i, "variable") || t.kind_is(i, "function_application")) {
        return;
    }
    if let Some(p) = partial_named_exec(t.node_text(i)) {
        ctx.report(
            t,
            i,
            "no-partial-function",
            cat3("`", p, "` is partial; crashes on empty input. Use pattern matching or safe alternatives"),
        );
    }
}

/// `no-undefined`: the variable `undefined`.
pub open spec fn no_undefined_hits(t: SyntaxTree, i: int) -> Seq<HitView> {
    hit_if(
        t.kind(i) == "variable"@ && t.text(i) == "undefined"@,
        t,
        i,
        "no-undefined"@,
        "`undefined` will crash at runtime; implement the function"@,
    )
}

pub fn no_undefined_at(t: &SyntaxTree, i: usize, ctx: &mut Ctx)
    requires
        t.wf(),
        i < t.len(),
        old(ctx).wf(),
    ensures
        final(ctx).grew(*old(ctx), no_undefined_hits(*t, i as int)),
{
    if t.kind_is(i, "variable") && t.text_is(i, "undefined") {
        ctx.report(t, i, "no-undefined", "`undefined` will crash at runtime; implement the function".to_owned());
    }
}

/// `no-error`: the variable `error` applied to an argument.
pub open spec fn no_error_hits(t: SyntaxTree, i: int) -> Seq<HitView> {
    hit_if(
        t.kind(i) == "variable"@ && t.text(i) == "error"@ && parent_kind_is(t, i, "function_application"@),
        t,
        i,
        "no-error"@,
        "`error` throws an exception; return `Maybe`/`Either` instead"@,
    )
}

pub fn no_error_at(t: &SyntaxTree, i: usize, ctx: &mut Ctx)
    requires
        t.wf(),
        i < t.len(),
        old(ctx).wf(),
    ensures
        final(ctx).grew(*old(ctx), no_error_hits(*t, i as int)),
{
    if t.kind_is(i, "variable") && t.text_is(i, "error") && parent_is(t, i, "function_application") {
        ctx.report(t, i, "no-error", "`error` throws an exception; return `Maybe`/`Either` instead".to_owned());
    }
}

/// `no-unsafe-perform-io`: the variable `unsafePerformIO`.
pub open spec fn no_unsafe_perform_io_hits(t: SyntaxTree, i: int) -> Seq<HitView> {
    hit_if(
        t.kind(i) == "variable"@ && t.text(i) == "unsafePerformIO"@,
        t,
        i,
        "no-unsafe-perform-io"@,
        "`unsafePerformIO` breaks referential transparency"@,
    )
}

pub fn no_unsafe_perform_io_at(t: &SyntaxTree, i: usize, ctx: &mut Ctx)
    requires
        t.wf(),
        i < t.len(),
        old(ctx).wf(),
    ensures
        final(ctx).grew(*old(ctx), no_unsafe_perform_io_hits(*t, i as int)),
{
    if t.kind_is(i, "variable") && t.text_is(i, "unsafePerformIO") {
        ctx.report(t, i, "no-unsafe-perform-io", "`unsafePerformIO` breaks referential transparency".to_owned());
    }
}

pub open spec fn is_trace_name(s: Seq<char>) -> bool {
    s == "trace"@ || s == "traceShow"@ || s == "traceShowId"@
}

/// `no-trace`: the variable `trace`, `traceShow` or `traceShowId`.
pub open spec fn no_trace_hits(t: SyntaxTree, i: int) -> Seq<HitView> {
    hit_if(
        is_trace_name(t.text(i)) && t.kind(i) == "variable"@,
        t,
        i,
        "no-trace"@,
        "Remove debug `"@ + t.text(i) + "` call"@,
    )
}

pub fn no_trace_at(t: &SyntaxTree, i: usize, ctx: &mut Ctx)
    requires
        t.wf(),
        i < t.len(),
        old(ctx).wf(),
    ensures
        final(ctx).grew(*old(ctx), no_trace_hits(*t, i as int)),
{
    let s = t.node_text(i);
    if (str_eq(s, "trace") || str_eq(s, "traceShow") || str_eq(s, "traceShowId")) && t.kind_is(i, "variable") {
        ctx.report(t, i, "no-trace", cat3("Remove debug `", s, "` call"));
    }
}

pub open spec fn is_elm_debug(s: Seq<char>) -> bool {
    s == "Debug.log"@ || s == "Debug.todo"@ || s == "Debug.toString"@
}

/// `no-debug` (Elm): any node reading `Debug.log`, `Debug.todo` or
/// `Debug.toString`.
pub open spec fn no_debug_hits(t: SyntaxTree, i: int) -> Seq<HitView> {
    hit_if(is_elm_debug(t.text(i)), t, i, "no-debug"@, "Remove `"@ + t.text(i) + "` before shipping"@)
}

pub fn no_debug_at(t: &SyntaxTree, i: usize, ctx: &mut Ctx)
    requires
        t.wf(),
        i < t.len(),
        old(ctx).wf(),
    ensures
        final(ctx).grew(*old(ctx), no_debug_hits(*t, i as int)),
{
    let s = t.node_text(i);
    if str_eq(s, "Debug.log") || str_eq(s, "Debug.todo") || str_eq(s, "Debug.toString") {
        ctx.report(t, i, "no-debug", cat3("Remove `", s, "` before shipping"));
    }
}

/// `no-todo` (Elm): any node reading `Debug.todo`.
pub open spec fn elm_no_todo_hits(t: SyntaxTree, i: int) -> Seq<HitView> {
    hit_if(
        t.text(i) == "Debug.todo"@,
        t,
        i,
        "no-todo"@,
        "`Debug.todo` will crash at runtime; implement the function"@,
    )
}

pub fn elm_no_todo_at(t: &SyntaxTree, i: usize, ctx: &mut Ctx)
    requires
        t.wf(),
        i < t.len(),
        old(ctx).wf(),
    ensures
        final(ctx).grew(*old(ctx), elm_no_todo_hits(*t, i as int)),
{
    if t.text_is(i, "Debug.todo") {
        ctx.report(t, i, "no-todo", "`Debug.todo` will crash at runtime; implement the function".to_owned());
    }
}


/// The white-space separated words of `s`, given the word `cur` being read.
pub open spec fn words_from(s: Seq<char>, cur: Seq<char>) -> Seq<Seq<char>>
    decreases s.len(),
{
    if s.len() == 0 {
        if cur.len() > 0 {
            seq![cur]
        } else {
            seq![]
        }
    } else if is_ws(s[0]) {
        (if cur.len() > 0 {
            seq![cur]
        } else {
            seq![]
        }) + words_from(s.drop_first(), seq![])
    } else {
        words_from(s.drop_first(), cur.push(s[0]))
    }
}

/// The white-space separated words of `s`, as `str::split_whitespace`
/// yields them.
pub open spec fn words(s: Seq<char>) -> Seq<Seq<char>> {
    words_from(s, seq![])
}

pub open spec fn span_views(s: Seq<char>, spans: Seq<(usize, usize)>) -> Seq<Seq<char>> {
    spans.map_values(|p: (usize, usize)| s.subrange(p.0 as int, p.1 as int))
}

/// Where the words of `s` start and end.
fn word_spans(s: &str) -> (r: Vec<(usize, usize)>)
    ensures
        span_views(s@, r@) == words(s@),
        forall|k: int| 0 <= k < r@.len() ==> (#[trigger] r@[k]).0 <= r@[k].1 <= s@.len(),
{
    let v = chars_of(s);
    let n = v.len();
    let mut spans: Vec<(usize, usize)> = Vec::new();
    let mut cs: usize = 0;
    let mut j: usize = 0;
    assert(v@.skip(0) =~= v@);
    assert(v@.subrange(0, 0) =~= Seq::<char>::empty());
    while j < n
        invariant
            v@ == s@,
            n == v@.len(),
            cs <= j <= n,
            words(s@) == span_views(s@, spans@) + words_from(v@.skip(j as int), v@.subrange(cs as int, j as int)),
            forall|k: int| 0 <= k < spans@.len() ==> (#[trigger] spans@[k]).0 <= spans@[k].1 <= s@.len(),
        decreases n - j,
    {
        assert(v@.skip(j as int).drop_first() =~= v@.skip(j + 1));
        assert(v@.skip(j as int)[0] == v[j as int]);
        let ghost before = span_views(s@, spans@);
        if is_ws_exec(v[j]) {
            if cs < j {
                spans.push((cs, j));
                assert(span_views(s@, spans@) =~= before + seq![v@.subrange(cs as int, j as int)]);
            } else {
                assert(v@.subrange(cs as int, j as int) =~= Seq::<char>::empty());
            }
            cs = j + 1;
            assert(v@.subrange(cs as int, j + 1) =~= Seq::<char>::empty());
        } else {
            assert(v@.subrange(cs as int, j as int).push(v[j as int]) =~= v@.subrange(cs as int, j + 1));
        }
        j = j + 1;
    }
    assert(v@.skip(j as int) =~= Seq::<char>::empty());
    let ghost before = span_views(s@, spans@);
    if cs < n {
        spans.push((cs, n));
        assert(span_views(s@, spans@) =~= before + seq![v@.subrange(cs as int, n as int)]);
    } else {
        assert(v@.subrange(cs as int, n as int) =~= Seq::<char>::empty());
        assert(span_views(s@, spans@) =~= before + Seq::<Seq<char>>::empty());
    }
    spans
}

/// `s` with every occurrence of `pat` removed, scanning left to right, as
/// `str::replace(pat, "")` does; `s` itself when `pat` is empty.
pub open spec fn remove_all(s: Seq<char>, pat: Seq<char>) -> Seq<char>
    decreases s.len(),
{
    if pat.len() == 0 || s.len() == 0 {
        s
    } else if starts_with(s, pat) {
        remove_all(s.subrange(pat.len() as int, s.len() as int), pat)
    } else {
        seq![s[0]] + remove_all(s.drop_first(), pat)
    }
}

fn remove_all_exec(s: &Vec<char>, pat: &Vec<char>) -> (r: Vec<char>)
    ensures
        r@ == remove_all(s@, pat@),
{
    let n = s.len();
    let m = pat.len();
    if m == 0 {
        let mut out: Vec<char> = Vec::new();
        let mut k: usize = 0;
        while k < n
            invariant
                n == s@.len(),
                k <= n,
                out@ == s@.subrange(0, k as int),
            decreases n - k,
        {
            out.push(s[k]);
            k = k + 1;
            assert(out@ =~= s@.subrange(0, k as int));
        }
        assert(out@ =~= s@);
        return out;
    }
    let mut out: Vec<char> = Vec::new();
    let mut j: usize = 0;
    assert(s@.skip(0) =~= s@);
    while j < n
        invariant
            n == s@.len(),
            m == pat@.len(),
            m > 0,
            j <= n,
            remove_all(s@, pat@) == out@ + remove_all(s@.skip(j as int), pat@),
        decreases n - j,
    {
        let ghost rest = s@.skip(j as int);
        if chars_occur_at(s, pat, j) {
            assert(rest.subrange(0, m as int) =~= s@.subrange(j as int, j + m));
            assert(starts_with(rest, pat@));
            assert(rest.subrange(m as int, rest.len() as int) =~= s@.skip(j + m));
            j = j + m;
        } else {
            assert(!starts_with(rest, pat@)) by {
                if starts_with(rest, pat@) {
                    assert(rest.subrange(0, m as int) =~= s@.subrange(j as int, j + m));
                }
            }
            assert(rest.drop_first() =~= s@.skip(j + 1));
            assert(rest[0] == s@[j as int]);
            let ghost o = out@;
            out.push(s[j]);
            assert(out@ =~= o + seq![s@[j as int]]);
            j = j + 1;
        }
    }
    assert(s@.skip(j as int) =~= Seq::<char>::empty());
    assert(out@ + Seq::<char>::empty() =~= out@);
    out
}

/// The finding of an unused import `c`, if it is one: an import whose
/// module's last segment appears nowhere in the file once the import's own
/// text is removed.
pub open spec fn unused_import_of(t: SyntaxTree, c: int) -> Seq<HitView> {
    let parts = words(t.text(c));
    let module = parts[1];
    let last = after_last(module, '.');
    hit_if(
        t.kind(c) == "import_clause"@ && parts.len() >= 2 && !contains(remove_all(t.source@, t.text(c)), last),
        t,
        c,
        "unused-import"@,
        "`"@ + module + "` imported but unused"@,
    )
}

/// The unused imports among `cs`.
pub open spec fn unused_imports(t: SyntaxTree, cs: Seq<usize>) -> Seq<HitView>
    decreases cs.len(),
{
    if cs.len() == 0 {
        seq![]
    } else {
        unused_imports(t, cs.drop_last()) + unused_import_of(t, cs.last() as int)
    }
}

/// `unused-import` (Elm): a top-level import whose module is not mentioned
/// elsewhere in the file; checked once, from the root.
pub open spec fn unused_import_hits(t: SyntaxTree, i: int) -> Seq<HitView> {
    if i == 0 {
        unused_imports(t, t.children(0))
    } else {
        seq![]
    }
}

fn unused_import_one(t: &SyntaxTree, c: usize, src: &Vec<char>, ctx: &mut Ctx)
    requires
        t.wf(),
        c < t.len(),
        src@ == t.source@,
        old(ctx).wf(),
    ensures
        final(ctx).grew(*old(ctx), unused_import_of(*t, c as int)),
{
    if !t.kind_is(c, "import_clause") {
        return;
    }
    let text = t.node_text(c);
    let spans = word_spans(text);
    if spans.len() < 2 {
        return;
    }
    let (a, b) = spans[1];
    let module = text.substring_char(a, b);
    assert(module@ == words(text@)[1]);
    let last = chars_after_last(&chars_of(module), '.');
    let rest = remove_all_exec(src, &chars_of(text));
    if !chars_contains(&rest, &last) {
        ctx.report(t, c, "unused-import", cat3("`", module, "` imported but unused"));
    }
}

pub fn unused_import_at(t: &SyntaxTree, i: usize, ctx: &mut Ctx)
    requires
        t.wf(),
        i < t.len(),
        old(ctx).wf(),
    ensures
        final(ctx).grew(*old(ctx), unused_import_hits(*t, i as int)),
{
    if i != 0 {
        return;
    }
    let src = chars_of(t.source.as_str());
    let ghost start = *ctx;
    let cs = &t.nodes[0].children;
    let mut k: usize = 0;
    while k < cs.len()
        invariant
            t.wf(),
            0 < t.len(),
            src@ == t.source@,
            cs@ == t.children(0),
            k <= cs@.len(),
            ctx.grew(start, unused_imports(*t, cs@.take(k as int))),
        decreases cs@.len() - k,
    {
        let c = cs[k];
        assert(0 < c < t.len()) by {
            assert(t.nodes@[0].children@[k as int] == c);
        }
        assert(cs@.take(k + 1).drop_last() =~= cs@.take(k as int));
        assert(cs@.take(k + 1).last() == c);
        unused_import_one(t, c, &src, ctx);
        k = k + 1;
    }
    assert(cs@.take(k as int) =~= cs@);
}

} // verus!
