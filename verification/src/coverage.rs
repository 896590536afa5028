//! How much of a file the grammar could not read.
//!
//! tree-sitter marks text it cannot fit into the grammar with `ERROR` nodes.
//! The unparsed bytes of a file are the bytes its outermost `ERROR` nodes
//! span; a file with at least one unparsed byte and an unparsed share of 20%
//! or more is left unanalyzed.
use vstd::prelude::*;
use crate::complexity::{sat, sat_add};
use crate::defaults::UNANALYZED_MIN_SHARE;
use crate::syntax::SyntaxTree;
use vstd::string::StringSliceAdditionalSpecFns;

verus! {

/// The bytes node `i` spans.
pub open spec fn span(t: SyntaxTree, i: int) -> nat {
    if t.nodes@[i].end_byte >= t.nodes@[i].start_byte {
        (t.nodes@[i].end_byte - t.nodes@[i].start_byte) as nat
    } else {
        0
    }
}

/// The bytes of the outermost `ERROR` nodes in the subtree at `i`.
pub open spec fn error_bytes_at(t: SyntaxTree, i: int) -> nat
    decreases t.len() - i, 1int, 0int,
{
    if t.kind(i) == "ERROR"@ {
        span(t, i)
    } else {
        error_bytes_kids(t, i, 0)
    }
}

/// `error_bytes_at` summed over the children of `p` from the `k`-th on.
pub open spec fn error_bytes_kids(t: SyntaxTree, p: int, k: int) -> nat
    decreases t.len() - p, 0int, t.children(p).len() - k,
{
    if 0 <= k < t.children(p).len() {
        let c = t.children(p)[k] as int;
        (if p < c < t.len() {
            error_bytes_at(t, c)
        } else {
            0
        }) + error_bytes_kids(t, p, k + 1)
    } else {
        0
    }
}

/// The bytes of a file the grammar could not read.
pub open spec fn unparsed(t: SyntaxTree) -> nat {
    if t.len() == 0 {
        0
    } else {
        error_bytes_at(t, 0)
    }
}

/// Whether the grammar failed on so much of a file that it is left
/// unanalyzed: some bytes are unparsed, and they make up at least
/// `UNANALYZED_MIN_SHARE` percent of the source.
pub open spec fn mostly_unparsed(t: SyntaxTree) -> bool {
    unparsed(t) > 0 && 100 * unparsed(t) >= UNANALYZED_MIN_SHARE * t.source_bytes().len()
}

fn error_bytes_exec(t: &SyntaxTree, i: usize) -> (r: usize)
    requires
        t.wf(),
        i < t.len(),
    ensures
        r == sat(error_bytes_at(*t, i as int) as int),
    decreases t.len() - i, 1int,
{
    if t.kind_is(i, "ERROR") {
        let s = t.nodes[i].start_byte;
        let e = t.nodes[i].end_byte;
        if e >= s {
            e - s
        } else {
            0
        }
    } else {
        error_bytes_kids_exec(t, i)
    }
}

fn error_bytes_kids_exec(t: &SyntaxTree, p: usize) -> (r: usize)
    requires
        t.wf(),
        p < t.len(),
    ensures
        r == sat(error_bytes_kids(*t, p as int, 0) as int),
    decreases t.len() - p, 0int,
{
    let n = t.child_count(p);
    let mut acc: usize = 0;
    let mut k: usize = 0;
    while k < n
        invariant
            t.wf(),
            p < t.len(),
            n == t.children(p as int).len(),
            k <= n,
            acc == sat(error_bytes_kids(*t, p as int, 0) - error_bytes_kids(*t, p as int, k as int)),
            error_bytes_kids(*t, p as int, k as int) <= error_bytes_kids(*t, p as int, 0),
        decreases n - k,
    {
        let c = t.nodes[p].children[k];
        assert(p < c < t.len()) by {
            assert(t.nodes@[p as int].children@[k as int] == c);
        }
        let w = error_bytes_exec(t, c);
        acc = sat_add(acc, w);
        k = k + 1;
    }
    acc
}

/// The bytes of a file the grammar could not read, capped at `usize::MAX`.
pub fn unparsed_bytes(t: &SyntaxTree) -> (r: usize)
    requires
        t.wf(),
    ensures
        r == sat(unparsed(*t) as int),
{
    if t.node_count() == 0 {
        0
    } else {
        error_bytes_exec(t, 0)
    }
}

/// Whether a file is left unanalyzed because the grammar could not read
/// enough of it.
pub fn is_mostly_unparsed(t: &SyntaxTree) -> (r: bool)
    requires
        t.wf(),
    ensures
        r == mostly_unparsed(*t),
{
    let e = unparsed_bytes(t);
    let s: &str = t.source.as_str();
    let len = s.as_bytes().len();
    assert(s.spec_bytes() == t.source_bytes());
    e > 0 && (e as u128) * 100 >= (UNANALYZED_MIN_SHARE as u128) * (len as u128)
}

} // verus!
