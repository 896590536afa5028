//! Language-version awareness: the version a project declares, and syntax
//! that needs a newer one.
//!
//! Go generic methods need go1.27. The caller finds the project's go.mod
//! and hands its text to [`parse_go_directive`]; [`check_version_features`]
//! then reports generic methods the declared version does not allow.
use vstd::prelude::*;
use crate::config::CodopsyConfig;
use crate::language::SourceLanguage;
use crate::lint::{Ctx, HitView, IssueView, run_check, hit_if, issue_views, rule_issues};
use crate::rules::Rule;
use crate::rules::common::{is_ws, is_ws_exec, trim_ws, trim_ws_back, trim_ws_front};
use crate::syntax::SyntaxTree;
use crate::text::{decimal, push_decimal, starts_with};
use crate::types::Severity;

verus! {

/// The go.mod version from which generic methods are legal: go1.27.
pub const GO_GENERIC_METHODS_MAJOR: u32 = 1;
pub const GO_GENERIC_METHODS_MINOR: u32 = 27;

/// Whether version `a` is older than version `b`: by major, then minor.
pub open spec fn version_lt(a: (u32, u32), b: (u32, u32)) -> bool {
    a.0 < b.0 || (a.0 == b.0 && a.1 < b.1)
}

/// Whether version `a` is older than version `b`: by major, then minor.
pub fn version_older(a: (u32, u32), b: (u32, u32)) -> (r: bool)
    ensures
        r == version_lt(a, b),
{
    a.0 < b.0 || (a.0 == b.0 && a.1 < b.1)
}

pub open spec fn is_digit(c: char) -> bool {
    '0' <= c <= '9'
}

/// The number a run of decimal digits spells.
pub open spec fn digits_value(s: Seq<char>) -> nat
    decreases s.len(),
{
    if s.len() == 0 {
        0
    } else {
        digits_value(s.drop_last()) * 10 + (s.last() as nat - '0' as nat) as nat
    }
}

pub open spec fn all_digits(s: Seq<char>) -> bool {
    forall|k: int| 0 <= k < s.len() ==> is_digit(#[trigger] s[k])
}

/// A `u32` written as an optional `+` and one or more decimal digits, as
/// `str::parse::<u32>` reads it; `None` when malformed or too large.
pub open spec fn parse_u32(s: Seq<char>) -> Option<u32> {
    let d = if s.len() > 0 && s[0] == '+' {
        s.drop_first()
    } else {
        s
    };
    if d.len() > 0 && all_digits(d) && digits_value(d) <= u32::MAX {
        Some(digits_value(d) as u32)
    } else {
        None
    }
}

/// The longest prefix of `s` made of decimal digits.
pub open spec fn leading_digits(s: Seq<char>) -> Seq<char>
    decreases s.len(),
{
    if s.len() > 0 && is_digit(s[0]) {
        seq![s[0]] + leading_digits(s.drop_first())
    } else {
        seq![]
    }
}

/// The position of the first `.` in `s`.
pub open spec fn first_dot(s: Seq<char>, k: int) -> Option<int>
    decreases s.len() - k,
{
    if k < 0 || k >= s.len() {
        None
    } else if s[k] == '.' {
        Some(k)
    } else {
        first_dot(s, k + 1)
    }
}

/// The `major.minor` a version text starts with: the number before the
/// first `.`, and the digits that follow it; any patch or pre-release part
/// is ignored.
pub open spec fn version_of(ver: Seq<char>) -> Option<(u32, u32)> {
    match first_dot(ver, 0) {
        Some(d) => match (parse_u32(ver.take(d)), parse_u32(leading_digits(ver.skip(d + 1)))) {
            (Some(major), Some(minor)) => Some((major, minor)),
            _ => None,
        },
        None => None,
    }
}

/// What a go.mod line says: `None` when it is not a `go` directive, else
/// the version it declares (or `None` when that is malformed).
pub open spec fn directive_of(line: Seq<char>) -> Option<Option<(u32, u32)>> {
    let l = trim_ws(line);
    if starts_with(l, "go "@) {
        Some(version_of(trim_ws(l.skip(3))))
    } else {
        None
    }
}

/// The version of the first `go` directive in the text, `line` being the
/// part of the current line read so far.
pub open spec fn first_directive(s: Seq<char>, line: Seq<char>) -> Option<(u32, u32)>
    decreases s.len(),
{
    if s.len() == 0 {
        match directive_of(line) {
            Some(r) => r,
            None => None,
        }
    } else if s[0] == '\n' {
        match directive_of(line) {
            Some(r) => r,
            None => first_directive(s.drop_first(), seq![]),
        }
    } else {
        first_directive(s.drop_first(), line.push(s[0]))
    }
}

/// The version of the first `go` directive of a go.mod text.
pub open spec fn go_directive(contents: Seq<char>) -> Option<(u32, u32)> {
    first_directive(contents, seq![])
}

const DIGITS_CAP: u64 = 4294967296;

/// `parse_u32` of `v[lo..hi]`.
fn parse_u32_exec(v: &Vec<char>, lo: usize, hi: usize) -> (r: Option<u32>)
    requires
        lo <= hi <= v@.len(),
    ensures
        r == parse_u32(v@.subrange(lo as int, hi as int)),
{
    let ghost s = v@.subrange(lo as int, hi as int);
    let start = if lo < hi && v[lo] == '+' {
        lo + 1
    } else {
        lo
    };
    let ghost d = v@.subrange(start as int, hi as int);
    assert(d =~= if s.len() > 0 && s[0] == '+' {
        s.drop_first()
    } else {
        s
    });
    if start == hi {
        return None;
    }
    let mut val: u64 = 0;
    let mut k = start;
    while k < hi
        invariant
            lo <= start <= k <= hi <= v@.len(),
            d == v@.subrange(start as int, hi as int),
            s == v@.subrange(lo as int, hi as int),
            d == (if s.len() > 0 && s[0] == '+' {
                s.drop_first()
            } else {
                s
            }),
            all_digits(v@.subrange(start as int, k as int)),
            val == if digits_value(v@.subrange(start as int, k as int)) < DIGITS_CAP {
                digits_value(v@.subrange(start as int, k as int))
            } else {
                DIGITS_CAP as nat
            },
        decreases hi - k,
    {
        let c = v[k];
        if !('0' <= c && c <= '9') {
            assert(!all_digits(d)) by {
                assert(d[k - start] == c);
                assert(!is_digit(d[k - start]));
            }
            return None;
        }
        let ghost pre = v@.subrange(start as int, k as int);
        assert(v@.subrange(start as int, k + 1).drop_last() =~= pre);
        assert(v@.subrange(start as int, k + 1).last() == c);
        assert(all_digits(v@.subrange(start as int, k + 1))) by {
            assert forall|q: int| 0 <= q < k + 1 - start implies is_digit(
                #[trigger] v@.subrange(start as int, k + 1)[q],
            ) by {
                if q < k - start {
                    assert(v@.subrange(start as int, k + 1)[q] == pre[q]);
                }
            }
        }
        let digit = (c as u32 - '0' as u32) as u64;
        val = if val >= 429496730 {
            DIGITS_CAP
        } else {
            let n = val * 10 + digit;
            if n >= DIGITS_CAP {
                DIGITS_CAP
            } else {
                n
            }
        };
        k = k + 1;
    }
    if val <= 4294967295 {
        Some(val as u32)
    } else {
        None
    }
}

/// The bounds of `v[lo..hi]` with white space trimmed at both ends.
pub fn trim_bounds(v: &Vec<char>, lo: usize, hi: usize) -> (r: (usize, usize))
    requires
        lo <= hi <= v@.len(),
    ensures
        lo <= r.0 <= r.1 <= hi,
        v@.subrange(r.0 as int, r.1 as int) == trim_ws(v@.subrange(lo as int, hi as int)),
{
    let mut a = lo;
    assert(v@.subrange(lo as int, hi as int) =~= v@.subrange(a as int, hi as int));
    while a < hi && is_ws_exec(v[a])
        invariant
            lo <= a <= hi <= v@.len(),
            trim_ws_front(v@.subrange(lo as int, hi as int)) == trim_ws_front(
                v@.subrange(a as int, hi as int),
            ),
        decreases hi - a,
    {
        assert(v@.subrange(a as int, hi as int).drop_first() =~= v@.subrange(a + 1, hi as int));
        a = a + 1;
    }
    let mut b = hi;
    while b > a && is_ws_exec(v[b - 1])
        invariant
            lo <= a <= b <= hi <= v@.len(),
            trim_ws_back(v@.subrange(a as int, hi as int)) == trim_ws_back(
                v@.subrange(a as int, b as int),
            ),
        decreases b - a,
    {
        assert(v@.subrange(a as int, b as int).drop_last() =~= v@.subrange(a as int, b - 1));
        b = b - 1;
    }
    (a, b)
}

/// `directive_of` of the line `v[lo..hi]`.
fn directive_exec(v: &Vec<char>, lo: usize, hi: usize) -> (r: Option<Option<(u32, u32)>>)
    requires
        lo <= hi <= v@.len(),
    ensures
        r == directive_of(v@.subrange(lo as int, hi as int)),
{
    let (a, b) = trim_bounds(v, lo, hi);
    let ghost l = v@.subrange(a as int, b as int);
    proof {
        reveal_strlit("go ");
    }
    if !(b - a >= 3 && v[a] == 'g' && v[a + 1] == 'o' && v[a + 2] == ' ') {
        assert(!starts_with(l, "go "@)) by {
            if starts_with(l, "go "@) {
                assert(l.take(3) == "go "@);
                assert(l[0] == l.take(3)[0]);
                assert(l[1] == l.take(3)[1]);
                assert(l[2] == l.take(3)[2]);
            }
        }
        return None;
    }
    assert(starts_with(l, "go "@)) by {
        assert(l.take(3) =~= "go "@);
    }
    let (c, d) = trim_bounds(v, a + 3, b);
    assert(l.skip(3) =~= v@.subrange(a + 3, b as int));
    let ghost ver = v@.subrange(c as int, d as int);
    let mut k = c;
    while k < d && v[k] != '.'
        invariant
            c <= k <= d <= v@.len(),
            ver == v@.subrange(c as int, d as int),
            first_dot(ver, 0) == first_dot(ver, (k - c) as int),
        decreases d - k,
    {
        assert(ver[k - c] == v[k as int]);
        k = k + 1;
    }
    if k == d {
        return Some(None);
    }
    assert(ver[k - c] == '.');
    assert(first_dot(ver, 0) == Some((k - c) as int));
    assert(ver.take((k - c) as int) =~= v@.subrange(c as int, k as int));
    let major = parse_u32_exec(v, c, k);
    let mut e = k + 1;
    while e < d && '0' <= v[e] && v[e] <= '9'
        invariant
            k + 1 <= e <= d <= v@.len(),
            leading_digits(v@.subrange(k + 1, d as int)) == v@.subrange(k + 1, e as int)
                + leading_digits(v@.subrange(e as int, d as int)),
        decreases d - e,
    {
        assert(v@.subrange(e as int, d as int).drop_first() =~= v@.subrange(e + 1, d as int));
        assert(v@.subrange(k + 1, e + 1) =~= v@.subrange(k + 1, e as int) + seq![v[e as int]]);
        e = e + 1;
    }
    assert(leading_digits(v@.subrange(e as int, d as int)) =~= Seq::<char>::empty());
    assert(ver.skip(k - c + 1) =~= v@.subrange(k + 1, d as int));
    assert(leading_digits(ver.skip(k - c + 1)) =~= v@.subrange(k + 1, e as int));
    let minor = parse_u32_exec(v, k + 1, e);
    match (major, minor) {
        (Some(x), Some(y)) => Some(Some((x, y))),
        _ => Some(None),
    }
}

/// The version the first `go` directive of a go.mod text declares:
/// `go 1.27`, `go 1.27.0` and `go 1.27rc2` all declare `(1, 27)`. `None`
/// when there is no such directive or the first one is malformed.
pub fn parse_go_directive(contents: &str) -> (r: Option<(u32, u32)>)
    ensures
        r == go_directive(contents@),
{
    let v = crate::text::chars_of(contents);
    let mut start: usize = 0;
    let mut j: usize = 0;
    assert(v@.skip(0) =~= v@);
    assert(v@.subrange(0, 0) =~= Seq::<char>::empty());
    while j < v.len()
        invariant
            v@ == contents@,
            start <= j <= v@.len(),
            go_directive(contents@) == first_directive(v@.skip(j as int), v@.subrange(start as int, j as int)),
        decreases v@.len() - j,
    {
        assert(v@.skip(j as int).drop_first() =~= v@.skip(j + 1));
        assert(v@.skip(j as int)[0] == v[j as int]);
        if v[j] == '\n' {
            match directive_exec(&v, start, j) {
                Some(r) => {
                    return r;
                },
                None => {},
            }
            start = j + 1;
            assert(v@.subrange(start as int, j + 1) =~= Seq::<char>::empty());
        } else {
            assert(v@.subrange(start as int, j + 1) =~= v@.subrange(start as int, j as int).push(v[j as int]));
        }
        j = j + 1;
    }
    assert(v@.skip(j as int) =~= Seq::<char>::empty());
    match directive_exec(&v, start, j) {
        Some(r) => r,
        None => None,
    }
}

/// `go-generic-method`: a method declaration with type parameters, while
/// go.mod declares `declared`.
pub open spec fn generic_method_hits(t: SyntaxTree, i: int, declared: (u32, u32)) -> Seq<HitView> {
    hit_if(
        t.kind(i) == "method_declaration"@ && t.child_by_field(i, "type_parameters"@) is Some,
        t,
        i,
        "go-generic-method"@,
        "Generic methods require go1.27, but go.mod declares go"@ + decimal(declared.0 as nat) + "."@
            + decimal(declared.1 as nat),
    )
}

pub fn generic_method_at(t: &SyntaxTree, i: usize, declared: (u32, u32), ctx: &mut Ctx)
    requires
        t.wf(),
        i < t.len(),
        old(ctx).wf(),
    ensures
        final(ctx).grew(*old(ctx), generic_method_hits(*t, i as int, declared)),
{
    if t.kind_is(i, "method_declaration") && t.field_child(i, "type_parameters").is_some() {
        let mut msg = "Generic methods require go1.27, but go.mod declares go".to_owned();
        push_decimal(&mut msg, declared.0 as usize);
        msg.append(".");
        push_decimal(&mut msg, declared.1 as usize);
        ctx.report(t, i, "go-generic-method", msg);
    }
}

/// The version-gate issues of a file: for Go, unless `go-generic-method`
/// is disabled, each generic method when go.mod declares a version older
/// than go1.27; nothing when no version was found.
pub open spec fn version_issues(
    t: SyntaxTree,
    language: SourceLanguage,
    file: Seq<char>,
    config: CodopsyConfig,
    declared: Option<(u32, u32)>,
) -> Seq<IssueView> {
    match declared {
        Some(v) => if language == SourceLanguage::Go && !config.spec_disabled("go-generic-method"@)
            && version_lt(v, (GO_GENERIC_METHODS_MAJOR, GO_GENERIC_METHODS_MINOR)) {
            rule_issues(
                t,
                file,
                Rule::GoGenericMethod(v.0, v.1),
                config.severity_or("go-generic-method"@, Severity::Warning),
            )
        } else {
            seq![]
        },
        None => seq![],
    }
}

/// The version-gate issues of a file, given the version its go.mod declares.
pub fn check_version_features(
    t: &SyntaxTree,
    language: SourceLanguage,
    file_path: &str,
    config: &CodopsyConfig,
    declared: Option<(u32, u32)>,
) -> (r: Vec<crate::types::Issue>)
    requires
        t.wf(),
    ensures
        issue_views(r@) == version_issues(*t, language, file_path@, *config, declared),
{
    let none: Vec<crate::types::Issue> = Vec::new();
    assert(issue_views(none@) =~= Seq::<IssueView>::empty());
    let v = match declared {
        Some(v) => v,
        None => {
            return none;
        },
    };
    if language != SourceLanguage::Go || config.is_rule_disabled("go-generic-method") || !version_older(
        v,
        (GO_GENERIC_METHODS_MAJOR, GO_GENERIC_METHODS_MINOR),
    ) {
        return none;
    }
    let severity = config.severity_for("go-generic-method", Severity::Warning);
    run_check(t, file_path, Rule::GoGenericMethod(v.0, v.1), severity)
}

} // verus!
