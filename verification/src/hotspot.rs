//! Hotspots: files that are both complex and often changed.
//!
//! A file's hotspot score is its number of recent commits times its largest
//! cyclomatic complexity plus half its largest cognitive complexity. Scores
//! are kept in half points, so they are exact.
use vstd::prelude::*;
use crate::complexity::{cognitive_of, cyclomatic_of, fc_views, max_complexities, seq_max};
use crate::paths::{relative_or_whole, relative_to};
use crate::text::{chars_of, chars_eq, push_decimal};
use crate::types::FileAnalysis;

verus! {

/// How often a file changed recently, and by how many people.
#[derive(Debug, Clone, Copy, PartialEq, Eq, Structural)]
pub struct ChurnStats {
    pub commits: usize,
    pub authors: usize,
}

/// The key under which the history reports a file: its path relative to
/// the repository root, or the whole path when there is no root or the file
/// lies outside it.
pub open spec fn spec_churn_key(file: Seq<char>, root: Option<Seq<char>>) -> Seq<char> {
    match root {
        Some(r) => relative_or_whole(file, r),
        None => file,
    }
}

/// The key under which the history reports a file.
pub fn churn_key(file: &str, root: Option<&str>) -> (r: String)
    ensures
        r@ == spec_churn_key(file@, match root {
            Some(s) => Some(s@),
            None => None,
        }),
{
    match root {
        Some(r) => relative_to(file, r),
        None => file.to_owned(),
    }
}

/// Risk levels of a hotspot.
pub open spec fn spec_risk(score_halves: u128) -> Seq<char> {
    if score_halves > 200 {
        "high"@
    } else if score_halves > 60 {
        "medium"@
    } else {
        "low"@
    }
}

/// The risk of a hotspot score given in half points: high above 100,
/// medium above 30, low otherwise.
pub fn classify_risk(score_halves: u128) -> (r: &'static str)
    ensures
        r@ == spec_risk(score_halves),
{
    if score_halves > 200 {
        "high"
    } else if score_halves > 60 {
        "medium"
    } else {
        "low"
    }
}

/// A hotspot: the file, its churn, its largest complexities, its score in
/// half points and its risk.
pub struct HotspotInfo {
    pub file: String,
    pub commits: usize,
    pub authors: usize,
    pub complexity: usize,
    pub cognitive_complexity: usize,
    pub score_halves: u128,
    pub risk: String,
}

/// The hotspots of a period, riskiest first.
pub struct HotspotResult {
    pub period: String,
    pub hotspots: Vec<HotspotInfo>,
}

pub type HotView = (Seq<char>, int, int, int, int, int);

pub open spec fn hot_view(h: HotspotInfo) -> HotView {
    (
        h.file@,
        h.commits as int,
        h.authors as int,
        h.complexity as int,
        h.cognitive_complexity as int,
        h.score_halves as int,
    )
}

pub open spec fn hot_views(v: Seq<HotspotInfo>) -> Seq<HotView> {
    v.map_values(|h: HotspotInfo| hot_view(h))
}

/// `commits × (2 × cyclomatic + cognitive)`, saturating at `u128::MAX`.
pub open spec fn score_halves(commits: int, cyclomatic: int, cognitive: int) -> int {
    let s = commits * (2 * cyclomatic + cognitive);
    if s > u128::MAX {
        u128::MAX as int
    } else {
        s
    }
}

fn score_halves_exec(commits: usize, cyclomatic: usize, cognitive: usize) -> (r: u128)
    ensures
        r == score_halves(commits as int, cyclomatic as int, cognitive as int),
{
    let weight: u128 = 2 * (cyclomatic as u128) + (cognitive as u128);
    match (commits as u128).checked_mul(weight) {
        Some(p) => p,
        None => u128::MAX,
    }
}

/// The stats recorded for `key`, the first entry for it.
pub open spec fn churn_of(churn: Seq<(String, ChurnStats)>, key: Seq<char>) -> Option<ChurnStats>
    decreases churn.len(),
{
    if churn.len() == 0 {
        None
    } else if churn[0].0@ == key {
        Some(churn[0].1)
    } else {
        churn_of(churn.drop_first(), key)
    }
}

fn churn_of_exec(churn: &Vec<(String, ChurnStats)>, key: &str) -> (r: Option<ChurnStats>)
    ensures
        r == churn_of(churn@, key@),
{
    let mut k: usize = 0;
    assert(churn@.skip(0) =~= churn@);
    while k < churn.len()
        invariant
            k <= churn@.len(),
            churn_of(churn@, key@) == churn_of(churn@.skip(k as int), key@),
        decreases churn@.len() - k,
    {
        assert(churn@.skip(k as int).drop_first() =~= churn@.skip(k + 1));
        assert(churn@.skip(k as int)[0] == churn@[k as int]);
        if crate::text::str_eq(churn[k].0.as_str(), key) {
            return Some(churn[k].1);
        }
        k = k + 1;
    }
    None
}

/// The hotspot a file makes: only a file the history reports with at least
/// one commit is one.
pub open spec fn hotspot_of(
    fa: FileAnalysis,
    churn: Seq<(String, ChurnStats)>,
    root: Option<Seq<char>>,
) -> Option<HotView> {
    let key = spec_churn_key(fa.file@, root);
    let cc = seq_max(cyclomatic_of(fc_views(fa.complexity.functions@)));
    let cog = seq_max(cognitive_of(fc_views(fa.complexity.functions@)));
    match churn_of(churn, key) {
        Some(c) => if c.commits > 0 {
            Some((key, c.commits as int, c.authors as int, cc, cog, score_halves(c.commits as int, cc, cog)))
        } else {
            None
        },
        None => None,
    }
}

/// The hotspots of the files, in file order.
pub open spec fn hotspots_in(
    fs: Seq<FileAnalysis>,
    churn: Seq<(String, ChurnStats)>,
    root: Option<Seq<char>>,
) -> Seq<HotView>
    decreases fs.len(),
{
    if fs.len() == 0 {
        seq![]
    } else {
        hotspots_in(fs.drop_last(), churn, root) + match hotspot_of(fs.last(), churn, root) {
            Some(h) => seq![h],
            None => seq![],
        }
    }
}

/// The position at which `x` goes into `s` sorted by descending score:
/// after every entry scoring at least as much.
pub open spec fn desc_slot(s: Seq<HotView>, x: HotView, k: int) -> int
    decreases s.len() - k,
{
    if k < 0 || k >= s.len() {
        s.len() as int
    } else if s[k].5 < x.5 {
        k
    } else {
        desc_slot(s, x, k + 1)
    }
}

/// `s` sorted by descending score; equal scores keep their order.
pub open spec fn by_score(s: Seq<HotView>) -> Seq<HotView>
    decreases s.len(),
{
    if s.len() == 0 {
        seq![]
    } else {
        let sorted = by_score(s.drop_last());
        sorted.insert(desc_slot(sorted, s.last(), 0), s.last())
    }
}

proof fn lemma_desc_slot_range(s: Seq<HotView>, x: HotView, k: int)
    requires
        0 <= k <= s.len(),
    ensures
        k <= desc_slot(s, x, k) <= s.len(),
    decreases s.len() - k,
{
    if k < s.len() && s[k].5 >= x.5 {
        lemma_desc_slot_range(s, x, k + 1);
    }
}

/// The hotspots of `files` over the last `months` months, riskiest first,
/// at most `top` of them.
pub fn detect_hotspots(
    files: &Vec<FileAnalysis>,
    churn: &Vec<(String, ChurnStats)>,
    root: Option<&str>,
    months: usize,
    top: usize,
) -> (r: HotspotResult)
    ensures
        hot_views(r.hotspots@) == by_score(
            hotspots_in(files@, churn@, match root {
                Some(s) => Some(s@),
                None => None,
            }),
        ).take(if top < by_score(hotspots_in(files@, churn@, match root {
            Some(s) => Some(s@),
            None => None,
        })).len() {
            top as int
        } else {
            by_score(hotspots_in(files@, churn@, match root {
                Some(s) => Some(s@),
                None => None,
            })).len() as int
        }),
        forall|k: int| 0 <= k < r.hotspots@.len() ==> r.hotspots@[k].risk@ == spec_risk(#[trigger] r.hotspots@[k].score_halves),
        r.period@ == crate::text::decimal(months as nat) + " months"@,
{
    let ghost rv = match root {
        Some(s) => Some(s@),
        None => None,
    };
    let mut sorted: Vec<HotspotInfo> = Vec::new();
    let mut i: usize = 0;
    while i < files.len()
        invariant
            i <= files@.len(),
            rv == (match root {
                Some(s) => Some(s@),
                None => None,
            }),
            hot_views(sorted@) == by_score(hotspots_in(files@.take(i as int), churn@, rv)),
            forall|k: int| 0 <= k < sorted@.len() ==> sorted@[k].risk@ == spec_risk(#[trigger] sorted@[k].score_halves),
        decreases files@.len() - i,
    {
        assert(files@.take(i + 1).drop_last() =~= files@.take(i as int));
        assert(files@.take(i + 1).last() == files@[i as int]);
        let fa = &files[i];
        let ghost prev = hotspots_in(files@.take(i as int), churn@, rv);
        assert(hotspots_in(files@.take(i + 1), churn@, rv) == prev + match hotspot_of(
            files@[i as int],
            churn@,
            rv,
        ) {
            Some(h) => seq![h],
            None => seq![],
        });
        let key = churn_key(fa.file.as_str(), root);
        if let Some(c) = churn_of_exec(churn, key.as_str()) {
            if c.commits > 0 {
                let (cc, cog) = max_complexities(&fa.complexity.functions);
                let score = score_halves_exec(c.commits, cc, cog);
                let info = HotspotInfo {
                    file: key,
                    commits: c.commits,
                    authors: c.authors,
                    complexity: cc,
                    cognitive_complexity: cog,
                    score_halves: score,
                    risk: classify_risk(score).to_owned(),
                };
                let ghost x = hot_view(info);
                let ghost before = hot_views(sorted@);
                let mut j: usize = 0;
                while j < sorted.len() && sorted[j].score_halves >= score
                    invariant
                        j <= sorted@.len(),
                        before == hot_views(sorted@),
                        desc_slot(before, x, 0) == desc_slot(before, x, j as int),
                        x.5 == score,
                    decreases sorted@.len() - j,
                {
                    j = j + 1;
                }
                proof {
                    lemma_desc_slot_range(before, x, 0);
                }
                assert(desc_slot(before, x, 0) == j);
                sorted.insert(j, info);
                assert(hot_views(sorted@) =~= before.insert(j as int, x));
                assert(hotspot_of(files@[i as int], churn@, rv) == Some(x));
                assert((prev + seq![x]).drop_last() =~= prev);
                assert((prev + seq![x]).last() == x);
            } else {
                assert(prev + seq![] =~= prev);
            }
        } else {
            assert(prev + seq![] =~= prev);
        }
        i = i + 1;
    }
    assert(files@.take(i as int) =~= files@);
    let n = if top < sorted.len() {
        top
    } else {
        sorted.len()
    };
    let ghost full = hot_views(sorted@);
    sorted.truncate(n);
    assert(hot_views(sorted@) =~= full.take(n as int));
    let mut period = String::new();
    push_decimal(&mut period, months);
    period.append(" months");
    HotspotResult { period, hotspots: sorted }
}


/// Whether `s` is sorted by descending score.
pub open spec fn riskiest_first(s: Seq<HotView>) -> bool {
    forall|i: int, j: int| 0 <= i < j < s.len() ==> (#[trigger] s[i]).5 >= (#[trigger] s[j]).5
}

proof fn lemma_desc_slot_props(s: Seq<HotView>, x: HotView, k: int)
    requires
        0 <= k <= s.len(),
    ensures
        k <= desc_slot(s, x, k) <= s.len(),
        forall|q: int| k <= q < desc_slot(s, x, k) ==> (#[trigger] s[q]).5 >= x.5,
        desc_slot(s, x, k) < s.len() ==> s[desc_slot(s, x, k)].5 < x.5,
    decreases s.len() - k,
{
    if k < s.len() && s[k].5 >= x.5 {
        lemma_desc_slot_props(s, x, k + 1);
    }
}

/// Ranking hotspots keeps every one of them and puts them riskiest first.
pub proof fn hotspots_are_ranked_riskiest_first(s: Seq<HotView>)
    ensures
        riskiest_first(by_score(s)),
        by_score(s).len() == s.len(),
        by_score(s).to_multiset() == s.to_multiset(),
    decreases s.len(),
{
    if s.len() > 0 {
        let sorted = by_score(s.drop_last());
        let x = s.last();
        hotspots_are_ranked_riskiest_first(s.drop_last());
        lemma_desc_slot_props(sorted, x, 0);
        let p = desc_slot(sorted, x, 0);
        let r = sorted.insert(p, x);
        assert(r == by_score(s));
        assert forall|i: int, j: int| 0 <= i < j < r.len() implies (#[trigger] r[i]).5 >= (#[trigger] r[j]).5 by {
            if j < p {
                assert(r[i] == sorted[i] && r[j] == sorted[j]);
            } else if j == p {
                assert(r[i] == sorted[i]);
            } else if i < p {
                assert(r[i] == sorted[i] && r[j] == sorted[j - 1]);
                assert(sorted[i].5 >= x.5);
                if p < sorted.len() {
                    assert(sorted[p].5 < x.5);
                }
            } else if i == p {
                assert(r[j] == sorted[j - 1]);
                assert(sorted[p].5 < x.5);
                if j - 1 > p {
                    assert(sorted[p].5 >= sorted[j - 1].5);
                }
            } else {
                assert(r[i] == sorted[i - 1] && r[j] == sorted[j - 1]);
            }
        }
        assert(s.drop_last().push(x) == s);
        vstd::seq_lib::to_multiset_insert(sorted, p, x);
        vstd::seq_lib::to_multiset_build(s.drop_last(), x);
    } else {
        assert(by_score(s) =~= s);
    }
}

} // verus!
