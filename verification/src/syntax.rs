//! A plain-data syntax tree: every node of a parsed file, in pre-order.
//!
//! Node `0` is the root. Every child has a larger index than its parent, so
//! a walk that always descends to children terminates, and spec functions
//! over the tree can recurse on `t.len() - i`.
use vstd::prelude::*;
use vstd::utf8::*;
use vstd::string::StringSliceAdditionalSpecFns;
use crate::text::str_eq;

verus! {

broadcast use encode_utf8_decode_utf8;

/// One node of a syntax tree.
pub struct SyntaxNode {
    /// The grammar's name for this node (`if_statement`, `identifier`, `{`, ...).
    pub kind: String,
    /// Named nodes are grammar rules; anonymous nodes are literal tokens.
    pub named: bool,
    /// Name of the field this node occupies in its parent, if any.
    pub field: Option<String>,
    /// Index of the parent node; `None` only for the root.
    pub parent: Option<usize>,
    /// Indices of the children, in source order.
    pub children: Vec<usize>,
    /// Byte range of the node in the source.
    pub start_byte: usize,
    pub end_byte: usize,
    /// Zero-based row and column of the node's first byte.
    pub row: usize,
    pub column: usize,
}

/// A parsed file: its source text and its nodes in pre-order.
pub struct SyntaxTree {
    pub source: String,
    pub nodes: Vec<SyntaxNode>,
}

impl SyntaxTree {
    pub open spec fn len(&self) -> nat {
        self.nodes@.len()
    }

    pub open spec fn valid(&self, i: int) -> bool {
        0 <= i < self.nodes@.len()
    }

    pub open spec fn kind(&self, i: int) -> Seq<char> {
        self.nodes@[i].kind@
    }

    pub open spec fn is_named(&self, i: int) -> bool {
        self.nodes@[i].named
    }

    pub open spec fn children(&self, i: int) -> Seq<usize> {
        self.nodes@[i].children@
    }

    pub open spec fn parent(&self, i: int) -> Option<usize> {
        self.nodes@[i].parent
    }

    pub open spec fn field(&self, i: int) -> Option<Seq<char>> {
        match self.nodes@[i].field {
            Some(f) => Some(f@),
            None => None,
        }
    }

    /// Structural well-formedness: parents precede their children and every
    /// child index is in range.
    pub open spec fn wf(&self) -> bool {
        &&& forall|j: int| #![trigger self.nodes@[j].parent]
            0 <= j < self.nodes@.len() ==> match self.nodes@[j].parent {
                Some(p) => p < j,
                None => true,
            }
        &&& forall|j: int, k: int| #![trigger self.nodes@[j].children@[k]]
            0 <= j < self.nodes@.len() && 0 <= k < self.nodes@[j].children@.len() ==>
                j < self.nodes@[j].children@[k] < self.nodes@.len()
        &&& forall|j: int| #![trigger self.nodes@[j].row]
            0 <= j < self.nodes@.len() ==> self.nodes@[j].row < usize::MAX
        &&& forall|j: int| #![trigger self.nodes@[j].column]
            0 <= j < self.nodes@.len() ==> self.nodes@[j].column < usize::MAX
    }

    /// A child found by field is one of the children.
    pub proof fn lemma_first_in_field(&self, cs: Seq<usize>, f: Seq<char>)
        ensures
            self.first_in_field(cs, f) matches Some(c) ==> cs.contains(c),
        decreases cs.len(),
    {
        if cs.len() > 0 && self.field(cs[0] as int) != Some(f) {
            self.lemma_first_in_field(cs.drop_first(), f);
            if let Some(c) = self.first_in_field(cs, f) {
                let k = choose|k: int| 0 <= k < cs.drop_first().len() && cs.drop_first()[k] == c;
                assert(cs[k + 1] == c);
            }
        } else if cs.len() > 0 {
            assert(cs[0] == cs[0]);
        }
    }

    /// A child found by kind is one of the children.
    pub proof fn lemma_first_of_kind(&self, cs: Seq<usize>, k: Seq<char>)
        ensures
            self.first_of_kind(cs, k) matches Some(c) ==> cs.contains(c),
        decreases cs.len(),
    {
        if cs.len() > 0 && self.kind(cs[0] as int) != k {
            self.lemma_first_of_kind(cs.drop_first(), k);
            if let Some(c) = self.first_of_kind(cs, k) {
                let q = choose|q: int| 0 <= q < cs.drop_first().len() && cs.drop_first()[q] == c;
                assert(cs[q + 1] == c);
            }
        } else if cs.len() > 0 {
            assert(cs[0] == cs[0]);
        }
    }

    /// In a well-formed tree, a child found by field lies after its parent.
    pub proof fn lemma_child_by_field_range(&self, i: int, f: Seq<char>)
        requires
            self.wf(),
            self.valid(i),
        ensures
            self.child_by_field(i, f) matches Some(c) ==> i < c < self.len(),
    {
        self.lemma_first_in_field(self.children(i), f);
        if let Some(c) = self.child_by_field(i, f) {
            let k = choose|k: int| 0 <= k < self.children(i).len() && self.children(i)[k] == c;
            assert(self.nodes@[i].children@[k] == c);
        }
    }

    /// In a well-formed tree, a child found by kind lies after its parent.
    pub proof fn lemma_child_by_kind_range(&self, i: int, k: Seq<char>)
        requires
            self.wf(),
            self.valid(i),
        ensures
            self.child_by_kind(i, k) matches Some(c) ==> i < c < self.len(),
    {
        self.lemma_first_of_kind(self.children(i), k);
        if let Some(c) = self.child_by_kind(i, k) {
            let q = choose|q: int| 0 <= q < self.children(i).len() && self.children(i)[q] == c;
            assert(self.nodes@[i].children@[q] == c);
        }
    }

    /// The source text as UTF-8 bytes.
    pub open spec fn source_bytes(&self) -> Seq<u8> {
        encode_utf8(self.source@)
    }

    /// The text a node spans, or the empty text when its byte range does not
    /// fall on character boundaries of the source.
    pub open spec fn text(&self, i: int) -> Seq<char> {
        let b = self.source_bytes();
        let s = self.nodes@[i].start_byte as int;
        let e = self.nodes@[i].end_byte as int;
        if s <= e <= b.len() && is_char_boundary(b, s) && is_char_boundary(
            b.subrange(s, b.len() as int),
            e - s,
        ) {
            decode_utf8(b.subrange(s, e))
        } else {
            Seq::empty()
        }
    }

    /// 1-based line of a node.
    pub open spec fn line(&self, i: int) -> int {
        self.nodes@[i].row + 1
    }

    /// 1-based column of a node.
    pub open spec fn col(&self, i: int) -> int {
        self.nodes@[i].column + 1
    }

    /// `k`-th child of `i`, if there is one.
    pub open spec fn child_at(&self, i: int, k: int) -> Option<usize> {
        if 0 <= k < self.children(i).len() {
            Some(self.children(i)[k])
        } else {
            None
        }
    }

    /// The first of `cs` whose field name is `f`.
    pub open spec fn first_in_field(&self, cs: Seq<usize>, f: Seq<char>) -> Option<usize>
        decreases cs.len(),
    {
        if cs.len() == 0 {
            None
        } else if self.field(cs[0] as int) == Some(f) {
            Some(cs[0])
        } else {
            self.first_in_field(cs.drop_first(), f)
        }
    }

    /// The first child of `i` in field `f`.
    pub open spec fn child_by_field(&self, i: int, f: Seq<char>) -> Option<usize> {
        self.first_in_field(self.children(i), f)
    }

    /// The first child of `i` whose kind is `k`.
    pub open spec fn first_of_kind(&self, cs: Seq<usize>, k: Seq<char>) -> Option<usize>
        decreases cs.len(),
    {
        if cs.len() == 0 {
            None
        } else if self.kind(cs[0] as int) == k {
            Some(cs[0])
        } else {
            self.first_of_kind(cs.drop_first(), k)
        }
    }

    pub open spec fn child_by_kind(&self, i: int, k: Seq<char>) -> Option<usize> {
        self.first_of_kind(self.children(i), k)
    }

    /// 1-based line of node `i`.
    pub fn node_line(&self, i: usize) -> (r: usize)
        requires
            self.wf(),
            i < self.len(),
        ensures
            r == self.line(i as int),
    {
        self.nodes[i].row + 1
    }

    /// 1-based column of node `i`.
    pub fn node_column(&self, i: usize) -> (r: usize)
        requires
            self.wf(),
            i < self.len(),
        ensures
            r == self.col(i as int),
    {
        self.nodes[i].column + 1
    }

    /// The first child of `i` whose kind is `k`.
    pub fn kind_child(&self, i: usize, k: &str) -> (r: Option<usize>)
        requires
            self.wf(),
            i < self.len(),
        ensures
            r == self.child_by_kind(i as int, k@),
            r matches Some(c) ==> i < c < self.len(),
    {
        proof {
            self.lemma_child_by_kind_range(i as int, k@);
        }
        let cs = &self.nodes[i].children;
        let mut q: usize = 0;
        assert(cs@.skip(0) =~= cs@);
        while q < cs.len()
            invariant
                self.wf(),
                i < self.len(),
                cs@ == self.children(i as int),
                q <= cs@.len(),
                self.child_by_kind(i as int, k@) == self.first_of_kind(cs@.skip(q as int), k@),
            decreases cs@.len() - q,
        {
            let c = cs[q];
            assert(cs@.skip(q as int).drop_first() =~= cs@.skip(q + 1));
            assert(cs@.skip(q as int)[0] == c);
            assert(c < self.nodes@.len()) by {
                assert(self.nodes@[i as int].children@[q as int] == c);
            }
            if self.kind_is(c, k) {
                return Some(c);
            }
            q = q + 1;
        }
        assert(cs@.skip(q as int) =~= Seq::<usize>::empty());
        None
    }

    pub fn node_count(&self) -> (r: usize)
        ensures
            r == self.len(),
    {
        self.nodes.len()
    }

    pub fn node_kind(&self, i: usize) -> (r: &str)
        requires
            i < self.len(),
        ensures
            r@ == self.kind(i as int),
    {
        self.nodes[i].kind.as_str()
    }

    /// Whether node `i` has kind `k`.
    pub fn kind_is(&self, i: usize, k: &str) -> (r: bool)
        requires
            i < self.len(),
        ensures
            r == (self.kind(i as int) == k@),
    {
        str_eq(self.nodes[i].kind.as_str(), k)
    }

    pub fn node_named(&self, i: usize) -> (r: bool)
        requires
            i < self.len(),
        ensures
            r == self.is_named(i as int),
    {
        self.nodes[i].named
    }

    pub fn node_parent(&self, i: usize) -> (r: Option<usize>)
        requires
            i < self.len(),
        ensures
            r == self.parent(i as int),
    {
        self.nodes[i].parent
    }

    pub fn child_count(&self, i: usize) -> (r: usize)
        requires
            i < self.len(),
        ensures
            r == self.children(i as int).len(),
    {
        self.nodes[i].children.len()
    }

    pub fn child(&self, i: usize, k: usize) -> (r: Option<usize>)
        requires
            i < self.len(),
        ensures
            r == self.child_at(i as int, k as int),
            self.wf() ==> (r matches Some(c) ==> i < c < self.len()),
    {
        if k < self.nodes[i].children.len() {
            assert(self.wf() ==> i < self.nodes@[i as int].children@[k as int] < self.len());
            Some(self.nodes[i].children[k])
        } else {
            None
        }
    }

    /// The text node `i` spans.
    pub fn node_text(&self, i: usize) -> (r: &str)
        requires
            i < self.len(),
        ensures
            r@ == self.text(i as int),
    {
        let s: &str = self.source.as_str();
        let st = self.nodes[i].start_byte;
        let en = self.nodes[i].end_byte;
        assert(s.spec_bytes() == self.source_bytes());
        let n = s.as_bytes().len();
        if st <= en && en <= n && s.is_char_boundary(st) {
            let (_, rest) = s.split_at(st);
            proof {
                let b = self.source_bytes();
                assert(s.spec_bytes() == b);
                assert(rest.spec_bytes() =~= b.subrange(st as int, b.len() as int));
            }
            if rest.is_char_boundary(en - st) {
                let (mid, _) = rest.split_at(en - st);
                proof {
                    let b = self.source_bytes();
                    assert(mid.spec_bytes() =~= b.subrange(st as int, en as int));
                    assert(decode_utf8(encode_utf8(mid@)) == mid@);
                }
                return mid;
            }
        }
        proof {
            reveal_strlit("");
            assert(""@ =~= Seq::<char>::empty());
            assert(s@ == self.source@);
        }
        ""
    }

    /// Whether the text of node `i` is `s`.
    pub fn text_is(&self, i: usize, s: &str) -> (r: bool)
        requires
            i < self.len(),
        ensures
            r == (self.text(i as int) == s@),
    {
        str_eq(self.node_text(i), s)
    }

    /// Whether nodes `i` and `j` span equal text.
    pub fn same_text(&self, i: usize, j: usize) -> (r: bool)
        requires
            i < self.len(),
            j < self.len(),
        ensures
            r == (self.text(i as int) == self.text(j as int)),
    {
        str_eq(self.node_text(i), self.node_text(j))
    }

    /// The first child of `i` in field `f`.
    pub fn field_child(&self, i: usize, f: &str) -> (r: Option<usize>)
        requires
            self.wf(),
            i < self.len(),
        ensures
            r == self.child_by_field(i as int, f@),
            r matches Some(c) ==> i < c < self.len(),
    {
        proof {
            self.lemma_child_by_field_range(i as int, f@);
        }
        let cs = &self.nodes[i].children;
        let mut k: usize = 0;
        assert(cs@.skip(0) =~= cs@);
        while k < cs.len()
            invariant
                self.wf(),
                i < self.len(),
                cs@ == self.children(i as int),
                k <= cs@.len(),
                self.child_by_field(i as int, f@) == self.first_in_field(cs@.skip(k as int), f@),
            decreases cs@.len() - k,
        {
            let c = cs[k];
            assert(cs@.skip(k as int).drop_first() =~= cs@.skip(k + 1));
            assert(cs@.skip(k as int)[0] == c);
            assert(c < self.nodes@.len()) by {
                assert(self.nodes@[i as int].children@[k as int] == c);
            }
            let matches = match &self.nodes[c].field {
                Some(name) => str_eq(name.as_str(), f),
                None => false,
            };
            if matches {
                return Some(c);
            }
            k = k + 1;
        }
        assert(cs@.skip(k as int) =~= Seq::<usize>::empty());
        None
    }
}

} // verus!
