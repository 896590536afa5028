//! Baselines: a saved snapshot of a run, and how a later run compares with it.
use vstd::prelude::*;
use crate::analysis::{AnalysisResult, severity_count};
use crate::complexity::{cognitive_of, cyclomatic_of, fc_views, max_complexities, seq_max};
use crate::lint::issue_views;
use crate::paths::{relative_or_whole, relative_to};
use crate::text::chars_of;
use crate::types::{
    ComparisonStatus, FileAnalysis, Issue, Severity, spec_grade_letter, spec_status_word,
};

verus! {

/// One file of a baseline.
pub struct BaselineEntry {
    pub file: String,
    pub issue_count: usize,
    pub error_count: usize,
    pub warning_count: usize,
    pub max_cyclomatic: usize,
    pub max_cognitive: usize,
    pub score: i32,
}

/// The totals of a baseline. The average complexity is kept in tenths,
/// rounded half up.
pub struct BaselineOverall {
    pub total_issues: usize,
    pub total_errors: usize,
    pub total_warnings: usize,
    pub average_complexity_tenths: u64,
    pub score: i32,
    pub grade: String,
}

pub struct Baseline {
    pub version: u32,
    pub timestamp: String,
    pub overall: BaselineOverall,
    pub files: Vec<BaselineEntry>,
}

/// How the totals moved.
pub struct BaselineOverallComparison {
    pub issues_delta: i64,
    pub score_delta: i64,
    pub grade_before: String,
    pub grade_after: String,
}

/// How a run compares with a baseline.
pub struct BaselineComparison {
    pub status: String,
    pub overall: BaselineOverallComparison,
    pub new_files: usize,
    pub removed_files: usize,
    pub degraded_files: Vec<String>,
    pub improved_files: Vec<String>,
}

/// An entry as plain values: file, issues, errors, warnings, largest
/// cyclomatic and cognitive complexity, score.
pub type EntryView = (Seq<char>, int, int, int, int, int, int);

pub open spec fn entry_view(e: BaselineEntry) -> EntryView {
    (
        e.file@,
        e.issue_count as int,
        e.error_count as int,
        e.warning_count as int,
        e.max_cyclomatic as int,
        e.max_cognitive as int,
        e.score as int,
    )
}

pub open spec fn entry_views(v: Seq<BaselineEntry>) -> Seq<EntryView> {
    v.map_values(|e: BaselineEntry| entry_view(e))
}

/// The entry of a file: its path relative to the analyzed directory, its
/// issue counts, its largest complexities, and its score (100 if unscored).
pub open spec fn entry_of(fa: FileAnalysis, target: Seq<char>) -> EntryView {
    let units = fc_views(fa.complexity.functions@);
    (
        relative_or_whole(fa.file@, target),
        fa.issues@.len() as int,
        severity_count(issue_views(fa.issues@), Severity::Error),
        severity_count(issue_views(fa.issues@), Severity::Warning),
        seq_max(cyclomatic_of(units)),
        seq_max(cognitive_of(units)),
        match fa.score {
            Some(s) => s.score as int,
            None => 100,
        },
    )
}

/// Whether `a` comes before `b` in the order of their characters.
pub open spec fn lex_lt(a: Seq<char>, b: Seq<char>) -> bool
    decreases a.len(),
{
    if a.len() == 0 {
        b.len() > 0
    } else if b.len() == 0 {
        false
    } else if a[0] != b[0] {
        (a[0] as u32) < (b[0] as u32)
    } else {
        lex_lt(a.drop_first(), b.drop_first())
    }
}

/// Whether `a` comes before `b` in the order of their characters.
pub fn str_lt(a: &str, b: &str) -> (r: bool)
    ensures
        r == lex_lt(a@, b@),
{
    let x = chars_of(a);
    let y = chars_of(b);
    let mut k: usize = 0;
    assert(x@.skip(0) =~= x@);
    assert(y@.skip(0) =~= y@);
    while k < x.len() && k < y.len() && x[k] == y[k]
        invariant
            k <= x@.len(),
            k <= y@.len(),
            lex_lt(a@, b@) == lex_lt(x@.skip(k as int), y@.skip(k as int)),
            x@ == a@,
            y@ == b@,
        decreases x@.len() - k,
    {
        assert(x@.skip(k as int).drop_first() =~= x@.skip(k + 1));
        assert(y@.skip(k as int).drop_first() =~= y@.skip(k + 1));
        assert(x@.skip(k as int)[0] == x[k as int]);
        assert(y@.skip(k as int)[0] == y[k as int]);
        k = k + 1;
    }
    if k == x.len() {
        k < y.len()
    } else if k == y.len() {
        false
    } else {
        assert(x@.skip(k as int)[0] == x[k as int]);
        assert(y@.skip(k as int)[0] == y[k as int]);
        (x[k] as u32) < (y[k] as u32)
    }
}

/// The position at which `x` goes into `s` sorted by file: after every
/// entry whose file does not come after `x`'s.
pub open spec fn file_slot(s: Seq<EntryView>, x: EntryView, k: int) -> int
    decreases s.len() - k,
{
    if k < 0 || k >= s.len() {
        s.len() as int
    } else if lex_lt(x.0, s[k].0) {
        k
    } else {
        file_slot(s, x, k + 1)
    }
}

/// `s` sorted by file; entries of the same file keep their order.
pub open spec fn by_file(s: Seq<EntryView>) -> Seq<EntryView>
    decreases s.len(),
{
    if s.len() == 0 {
        seq![]
    } else {
        let sorted = by_file(s.drop_last());
        sorted.insert(file_slot(sorted, s.last(), 0), s.last())
    }
}

proof fn lemma_file_slot_range(s: Seq<EntryView>, x: EntryView, k: int)
    requires
        0 <= k <= s.len(),
    ensures
        k <= file_slot(s, x, k) <= s.len(),
    decreases s.len() - k,
{
    if k < s.len() && !lex_lt(x.0, s[k].0) {
        lemma_file_slot_range(s, x, k + 1);
    }
}

pub(crate) proof fn lemma_lex_lt_transitive(a: Seq<char>, b: Seq<char>, c: Seq<char>)
    requires
        lex_lt(a, b),
        lex_lt(b, c),
    ensures
        lex_lt(a, c),
    decreases a.len(),
{
    if a.len() > 0 && a[0] == b[0] && b[0] == c[0] {
        lemma_lex_lt_transitive(a.drop_first(), b.drop_first(), c.drop_first());
    }
}

pub(crate) proof fn lemma_lex_lt_irreflexive(a: Seq<char>)
    ensures
        !lex_lt(a, a),
    decreases a.len(),
{
    if a.len() > 0 {
        lemma_lex_lt_irreflexive(a.drop_first());
    }
}


/// The order of entries by file: no entry's file comes after a later one's.
pub open spec fn in_file_order(s: Seq<EntryView>) -> bool {
    forall|i: int, j: int| 0 <= i < j < s.len() ==> !lex_lt((#[trigger] s[j]).0, (#[trigger] s[i]).0)
}

proof fn lemma_file_slot_props(s: Seq<EntryView>, x: EntryView, k: int)
    requires
        0 <= k <= s.len(),
    ensures
        forall|i: int| k <= i < file_slot(s, x, k) ==> !lex_lt(x.0, (#[trigger] s[i]).0),
        file_slot(s, x, k) < s.len() ==> lex_lt(x.0, s[file_slot(s, x, k)].0),
    decreases s.len() - k,
{
    if k < s.len() && !lex_lt(x.0, s[k].0) {
        lemma_file_slot_props(s, x, k + 1);
    }
}

proof fn lemma_by_file_sorts(s: Seq<EntryView>)
    ensures
        in_file_order(by_file(s)),
        by_file(s).to_multiset() == s.to_multiset(),
    decreases s.len(),
{
    if s.len() > 0 {
        let sorted = by_file(s.drop_last());
        let x = s.last();
        lemma_by_file_sorts(s.drop_last());
        lemma_file_slot_range(sorted, x, 0);
        lemma_file_slot_props(sorted, x, 0);
        let p = file_slot(sorted, x, 0);
        let r = sorted.insert(p, x);
        assert(r == by_file(s));
        assert forall|i: int, j: int| 0 <= i < j < r.len() implies !lex_lt((#[trigger] r[j]).0, (#[trigger] r[i]).0) by {
            if j < p {
                assert(r[i] == sorted[i] && r[j] == sorted[j]);
            } else if j == p {
                assert(r[i] == sorted[i]);
            } else if i < p {
                assert(r[i] == sorted[i] && r[j] == sorted[j - 1]);
            } else if i == p {
                assert(r[j] == sorted[j - 1]);
                assert(lex_lt(x.0, sorted[p].0));
                lemma_lex_lt_irreflexive(sorted[p].0);
                if lex_lt(sorted[j - 1].0, x.0) {
                    lemma_lex_lt_transitive(sorted[j - 1].0, x.0, sorted[p].0);
                }
            } else {
                assert(r[i] == sorted[i - 1] && r[j] == sorted[j - 1]);
            }
        }
        assert(s.drop_last().push(x) == s);
        vstd::seq_lib::to_multiset_insert(sorted, p, x);
        vstd::seq_lib::to_multiset_build(s.drop_last(), x);
    } else {
        assert(by_file(s) =~= s);
    }
}

/// A baseline holds one entry for each file of the run, sorted by file.
pub proof fn a_baseline_lists_each_file_once_in_file_order(fs: Seq<FileAnalysis>, target: Seq<char>)
    ensures
        in_file_order(baseline_entries(fs, target)),
        baseline_entries(fs, target).to_multiset() == fs.map_values(
            |fa: FileAnalysis| entry_of(fa, target),
        ).to_multiset(),
{
    lemma_by_file_sorts(fs.map_values(|fa: FileAnalysis| entry_of(fa, target)));
}

/// The entries of the files of a run, sorted by file.
pub open spec fn baseline_entries(fs: Seq<FileAnalysis>, target: Seq<char>) -> Seq<EntryView>
    decreases fs.len(),
{
    by_file(fs.map_values(|fa: FileAnalysis| entry_of(fa, target)))
}

pub fn count_severity(issues: &Vec<Issue>, sev: Severity) -> (r: usize)
    ensures
        r == severity_count(issue_views(issues@), sev),
{
    let mut n: usize = 0;
    let mut k: usize = 0;
    while k < issues.len()
        invariant
            k <= issues@.len(),
            n <= k,
            n == severity_count(issue_views(issues@).take(k as int), sev),
        decreases issues@.len() - k,
    {
        assert(issue_views(issues@).take(k + 1).drop_last() =~= issue_views(issues@).take(k as int));
        assert(issue_views(issues@).take(k + 1).last().3 == issues@[k as int].severity);
        if issues[k].severity == sev {
            n = n + 1;
        }
        k = k + 1;
    }
    assert(issue_views(issues@).take(k as int) =~= issue_views(issues@));
    n
}

fn entry_for(fa: &FileAnalysis, target: &str) -> (e: BaselineEntry)
    ensures
        entry_view(e) == entry_of(*fa, target@),
{
    let (cc, cog) = max_complexities(&fa.complexity.functions);
    BaselineEntry {
        file: relative_to(fa.file.as_str(), target),
        issue_count: fa.issues.len(),
        error_count: count_severity(&fa.issues, Severity::Error),
        warning_count: count_severity(&fa.issues, Severity::Warning),
        max_cyclomatic: cc,
        max_cognitive: cog,
        score: match &fa.score {
            Some(s) => s.score,
            None => 100,
        },
    }
}

/// The average in tenths, `10 × sum / count` rounded half up, saturating at
/// `u64::MAX`; 0 for no items.
pub open spec fn tenths(sum: int, count: int) -> int {
    if count == 0 {
        0
    } else if (20 * sum + count) / (2 * count) > u64::MAX {
        u64::MAX as int
    } else {
        (20 * sum + count) / (2 * count)
    }
}

fn tenths_exec(sum: usize, count: usize) -> (r: u64)
    ensures
        r == tenths(sum as int, count as int),
{
    if count == 0 {
        return 0;
    }
    let num: u128 = 20 * (sum as u128) + (count as u128);
    let den: u128 = 2 * (count as u128);
    let q = num / den;
    if q > u64::MAX as u128 {
        u64::MAX
    } else {
        q as u64
    }
}

/// The baseline of a run: the totals of its summary and score (100 and A
/// when unscored), and one entry per file sorted by file.
pub fn create_baseline(result: &AnalysisResult) -> (b: Baseline)
    ensures
        b.version == 1,
        b.timestamp == result.timestamp,
        entry_views(b.files@) == baseline_entries(result.files@, result.target_dir@),
        b.overall.total_issues == result.summary.total_issues,
        b.overall.total_errors == result.summary.issues_by_severity.error,
        b.overall.total_warnings == result.summary.issues_by_severity.warning,
        b.overall.average_complexity_tenths == tenths(
            result.summary.complexity_sum as int,
            result.summary.function_count as int,
        ),
        b.overall.score == match result.score {
            Some(s) => s.overall,
            None => 100,
        },
        b.overall.grade@ == match result.score {
            Some(s) => spec_grade_letter(s.grade),
            None => "A"@,
        },
{
    let target = result.target_dir.as_str();
    let ghost all = result.files@.map_values(|fa: FileAnalysis| entry_of(fa, target@));
    let mut files: Vec<BaselineEntry> = Vec::new();
    let mut i: usize = 0;
    while i < result.files.len()
        invariant
            i <= result.files@.len(),
            target@ == result.target_dir@,
            all == result.files@.map_values(|fa: FileAnalysis| entry_of(fa, target@)),
            entry_views(files@) == by_file(all.take(i as int)),
        decreases result.files@.len() - i,
    {
        assert(all.take(i + 1).drop_last() =~= all.take(i as int));
        assert(all.take(i + 1).last() == entry_of(result.files@[i as int], target@));
        let e = entry_for(&result.files[i], target);
        let ghost x = entry_view(e);
        let ghost before = entry_views(files@);
        let mut j: usize = 0;
        while j < files.len() && !str_lt(e.file.as_str(), files[j].file.as_str())
            invariant
                j <= files@.len(),
                before == entry_views(files@),
                x == entry_view(e),
                file_slot(before, x, 0) == file_slot(before, x, j as int),
            decreases files@.len() - j,
        {
            j = j + 1;
        }
        proof {
            lemma_file_slot_range(before, x, 0);
        }
        files.insert(j, e);
        assert(entry_views(files@) =~= before.insert(j as int, x));
        i = i + 1;
    }
    assert(all.take(i as int) =~= all);
    let s = &result.summary;
    let (score, grade) = match &result.score {
        Some(p) => (p.overall, p.grade.to_string()),
        None => (100, "A".to_owned()),
    };
    Baseline {
        version: 1,
        timestamp: result.timestamp.clone(),
        overall: BaselineOverall {
            total_issues: s.total_issues,
            total_errors: s.issues_by_severity.error,
            total_warnings: s.issues_by_severity.warning,
            average_complexity_tenths: tenths_exec(s.complexity_sum, s.function_count),
            score,
            grade,
        },
        files,
    }
}

/// The score of the last entry of `es` for file `f`.
pub open spec fn last_score(es: Seq<EntryView>, f: Seq<char>) -> Option<int>
    decreases es.len(),
{
    if es.len() == 0 {
        None
    } else if es.last().0 == f {
        Some(es.last().6)
    } else {
        last_score(es.drop_last(), f)
    }
}

/// The files of `es`, each once, in the order they first appear.
pub open spec fn distinct_files(es: Seq<EntryView>) -> Seq<Seq<char>>
    decreases es.len(),
{
    if es.len() == 0 {
        seq![]
    } else {
        let d = distinct_files(es.drop_last());
        if d.contains(es.last().0) {
            d
        } else {
            d.push(es.last().0)
        }
    }
}

/// The files of `fs` that `cur` has and `base` does not.
pub open spec fn count_missing(fs: Seq<Seq<char>>, other: Seq<EntryView>) -> int
    decreases fs.len(),
{
    if fs.len() == 0 {
        0
    } else {
        count_missing(fs.drop_last(), other) + if last_score(other, fs.last()) is None {
            1int
        } else {
            0int
        }
    }
}

/// The files of `fs` whose score in `cur` is below (`worse`) or above their
/// score in `base`.
pub open spec fn moved(fs: Seq<Seq<char>>, cur: Seq<EntryView>, base: Seq<EntryView>, worse: bool) -> Seq<Seq<char>>
    decreases fs.len(),
{
    if fs.len() == 0 {
        seq![]
    } else {
        let f = fs.last();
        let keep = match (last_score(cur, f), last_score(base, f)) {
            (Some(c), Some(b)) => if worse {
                c < b
            } else {
                c > b
            },
            _ => false,
        };
        moved(fs.drop_last(), cur, base, worse) + if keep {
            seq![f]
        } else {
            seq![]
        }
    }
}

/// Improved when the score rose or the issues fell; else degraded when the
/// score fell or the issues rose; else unchanged.
pub open spec fn spec_status(score_delta: int, issues_delta: int) -> ComparisonStatus {
    if score_delta > 0 || issues_delta < 0 {
        ComparisonStatus::Improved
    } else if score_delta < 0 || issues_delta > 0 {
        ComparisonStatus::Degraded
    } else {
        ComparisonStatus::Unchanged
    }
}

fn last_score_exec(es: &Vec<BaselineEntry>, f: &str) -> (r: Option<i32>)
    ensures
        match r {
            Some(s) => last_score(entry_views(es@), f@) == Some(s as int),
            None => last_score(entry_views(es@), f@) is None,
        },
{
    let mut k = es.len();
    assert(entry_views(es@).take(k as int) =~= entry_views(es@));
    while k > 0
        invariant
            k <= es@.len(),
            last_score(entry_views(es@), f@) == last_score(entry_views(es@).take(k as int), f@),
        decreases k,
    {
        assert(entry_views(es@).take(k as int).drop_last() =~= entry_views(es@).take(k - 1));
        assert(entry_views(es@).take(k as int).last() == entry_view(es@[k - 1]));
        if crate::text::str_eq(es[k - 1].file.as_str(), f) {
            return Some(es[k - 1].score);
        }
        k = k - 1;
    }
    None
}

pub open spec fn strs(v: Seq<String>) -> Seq<Seq<char>> {
    v.map_values(|s: String| s@)
}

fn distinct_files_exec(es: &Vec<BaselineEntry>) -> (r: Vec<String>)
    ensures
        strs(r@) == distinct_files(entry_views(es@)),
{
    let mut out: Vec<String> = Vec::new();
    let mut k: usize = 0;
    while k < es.len()
        invariant
            k <= es@.len(),
            strs(out@) == distinct_files(entry_views(es@).take(k as int)),
        decreases es@.len() - k,
    {
        assert(entry_views(es@).take(k + 1).drop_last() =~= entry_views(es@).take(k as int));
        assert(entry_views(es@).take(k + 1).last() == entry_view(es@[k as int]));
        let ghost d = strs(out@);
        let mut j: usize = 0;
        while j < out.len() && !crate::text::str_eq(out[j].as_str(), es[k].file.as_str())
            invariant
                k < es@.len(),
                j <= out@.len(),
                d == strs(out@),
                forall|q: int| 0 <= q < j ==> d[q] != es@[k as int].file@,
            decreases out@.len() - j,
        {
            j = j + 1;
        }
        if j == out.len() {
            assert(!d.contains(es@[k as int].file@)) by {
                if d.contains(es@[k as int].file@) {
                    let q = choose|q: int| 0 <= q < d.len() && d[q] == es@[k as int].file@;
                }
            }
            out.push(es[k].file.clone());
            assert(strs(out@) =~= d.push(es@[k as int].file@));
        } else {
            assert(d[j as int] == es@[k as int].file@);
            assert(d.contains(es@[k as int].file@));
        }
        k = k + 1;
    }
    assert(entry_views(es@).take(k as int) =~= entry_views(es@));
    out
}

/// Whether `c` is how run `result` compares with `baseline`: both deltas,
/// the status they give, both grades, the files new and removed, and the
/// files whose score fell or rose, in the order of the run's entries.
pub open spec fn comparison_of(c: BaselineComparison, result: AnalysisResult, baseline: Baseline) -> bool {
    let cur = baseline_entries(result.files@, result.target_dir@);
    let base = entry_views(baseline.files@);
    let score_after: int = match result.score {
        Some(s) => s.overall as int,
        None => 100,
    };
    &&& c.overall.score_delta == score_after - baseline.overall.score
    &&& c.overall.issues_delta == result.summary.total_issues - baseline.overall.total_issues
    &&& c.status@ == spec_status_word(spec_status(c.overall.score_delta as int, c.overall.issues_delta as int))
    &&& c.overall.grade_before@ == baseline.overall.grade@
    &&& c.overall.grade_after@ == match result.score {
        Some(s) => spec_grade_letter(s.grade),
        None => "A"@,
    }
    &&& c.new_files == count_missing(distinct_files(cur), base)
    &&& c.removed_files == count_missing(distinct_files(base), cur)
    &&& strs(c.degraded_files@) == moved(distinct_files(cur), cur, base, true)
    &&& strs(c.improved_files@) == moved(distinct_files(cur), cur, base, false)
}

/// How a run compares with a baseline. Of several entries for one file, the
/// last counts; the degraded and improved files are listed in the order of
/// the run's entries.
pub fn compare_with_baseline(result: &AnalysisResult, baseline: &Baseline) -> (c: BaselineComparison)
    requires
        result.summary.total_issues <= i64::MAX,
        baseline.overall.total_issues <= i64::MAX,
    ensures
        comparison_of(c, *result, *baseline),
{
    let current = create_baseline(result);
    let ghost cur = entry_views(current.files@);
    let ghost base = entry_views(baseline.files@);
    let cur_files = distinct_files_exec(&current.files);
    let mut new_files: usize = 0;
    let mut degraded: Vec<String> = Vec::new();
    let mut improved: Vec<String> = Vec::new();
    let mut k: usize = 0;
    while k < cur_files.len()
        invariant
            k <= cur_files@.len(),
            cur == entry_views(current.files@),
            base == entry_views(baseline.files@),
            new_files <= k,
            new_files == count_missing(strs(cur_files@).take(k as int), base),
            strs(degraded@) == moved(strs(cur_files@).take(k as int), cur, base, true),
            strs(improved@) == moved(strs(cur_files@).take(k as int), cur, base, false),
        decreases cur_files@.len() - k,
    {
        assert(strs(cur_files@).take(k + 1).drop_last() =~= strs(cur_files@).take(k as int));
        assert(strs(cur_files@).take(k + 1).last() == cur_files@[k as int]@);
        let f = cur_files[k].as_str();
        let c = last_score_exec(&current.files, f);
        let b = last_score_exec(&baseline.files, f);
        let ghost dv = strs(degraded@);
        let ghost iv = strs(improved@);
        match (c, b) {
            (Some(cs), Some(bs)) => {
                if cs < bs {
                    degraded.push(cur_files[k].clone());
                }
                if cs > bs {
                    improved.push(cur_files[k].clone());
                }
            },
            _ => {},
        }
        if b.is_none() {
            new_files = new_files + 1;
        }
        assert(strs(degraded@) =~= moved(strs(cur_files@).take(k + 1), cur, base, true));
        assert(strs(improved@) =~= moved(strs(cur_files@).take(k + 1), cur, base, false));
        k = k + 1;
    }
    assert(strs(cur_files@).take(k as int) =~= strs(cur_files@));
    let base_files = distinct_files_exec(&baseline.files);
    let mut removed: usize = 0;
    let mut k: usize = 0;
    while k < base_files.len()
        invariant
            k <= base_files@.len(),
            cur == entry_views(current.files@),
            removed <= k,
            removed == count_missing(strs(base_files@).take(k as int), cur),
        decreases base_files@.len() - k,
    {
        assert(strs(base_files@).take(k + 1).drop_last() =~= strs(base_files@).take(k as int));
        assert(strs(base_files@).take(k + 1).last() == base_files@[k as int]@);
        if last_score_exec(&current.files, base_files[k].as_str()).is_none() {
            removed = removed + 1;
        }
        k = k + 1;
    }
    assert(strs(base_files@).take(k as int) =~= strs(base_files@));
    let score_delta = current.overall.score as i64 - baseline.overall.score as i64;
    let issues_delta = current.overall.total_issues as i64 - baseline.overall.total_issues as i64;
    let status = if score_delta > 0 || issues_delta < 0 {
        ComparisonStatus::Improved
    } else if score_delta < 0 || issues_delta > 0 {
        ComparisonStatus::Degraded
    } else {
        ComparisonStatus::Unchanged
    };
    BaselineComparison {
        status: status.to_string(),
        overall: BaselineOverallComparison {
            issues_delta,
            score_delta,
            grade_before: baseline.overall.grade.clone(),
            grade_after: current.overall.grade,
        },
        new_files,
        removed_files: removed,
        degraded_files: degraded,
        improved_files: improved,
    }
}


proof fn lemma_last_score_found(es: Seq<EntryView>, f: Seq<char>, k: int)
    requires
        0 <= k < es.len(),
        es[k].0 == f,
    ensures
        last_score(es, f) is Some,
    decreases es.len(),
{
    if es.last().0 != f {
        assert(es.drop_last()[k] == es[k]);
        lemma_last_score_found(es.drop_last(), f, k);
    }
}

proof fn lemma_distinct_files_found(es: Seq<EntryView>)
    ensures
        forall|j: int| 0 <= j < distinct_files(es).len() ==> last_score(es, #[trigger] distinct_files(es)[j]) is Some,
    decreases es.len(),
{
    if es.len() > 0 {
        let d = distinct_files(es.drop_last());
        lemma_distinct_files_found(es.drop_last());
        assert forall|j: int| 0 <= j < distinct_files(es).len() implies last_score(es, #[trigger] distinct_files(es)[j]) is Some by {
            let f = distinct_files(es)[j];
            if es.last().0 != f {
                assert(j < d.len());
                assert(d[j] == f);
            }
        }
    }
}

proof fn lemma_nothing_missing(fs: Seq<Seq<char>>, es: Seq<EntryView>)
    requires
        forall|j: int| 0 <= j < fs.len() ==> last_score(es, #[trigger] fs[j]) is Some,
    ensures
        count_missing(fs, es) == 0,
    decreases fs.len(),
{
    if fs.len() > 0 {
        assert forall|j: int| 0 <= j < fs.drop_last().len() implies last_score(es, #[trigger] fs.drop_last()[j]) is Some by {
            assert(fs.drop_last()[j] == fs[j]);
        }
        lemma_nothing_missing(fs.drop_last(), es);
        assert(fs.last() == fs[fs.len() - 1]);
    }
}

proof fn lemma_nothing_moved(fs: Seq<Seq<char>>, es: Seq<EntryView>, worse: bool)
    ensures
        moved(fs, es, es, worse) == Seq::<Seq<char>>::empty(),
    decreases fs.len(),
{
    if fs.len() > 0 {
        lemma_nothing_moved(fs.drop_last(), es, worse);
    }
}

/// A run whose score rose, or whose issues fell, since the baseline has
/// improved, whatever the other figure did; otherwise one whose score fell
/// or whose issues rose has degraded; a run with the same score and the
/// same number of issues is unchanged.
pub proof fn a_run_is_improved_degraded_or_unchanged_by_its_score_and_issues(
    c: BaselineComparison,
    result: AnalysisResult,
    baseline: Baseline,
)
    requires
        comparison_of(c, result, baseline),
    ensures
        ({
            let after: int = match result.score {
                Some(s) => s.overall as int,
                None => 100,
            };
            let (before, issues, base_issues) = (
                baseline.overall.score as int,
                result.summary.total_issues as int,
                baseline.overall.total_issues as int,
            );
            &&& (after > before || issues < base_issues) ==> c.status@ == "improved"@
            &&& !(after > before || issues < base_issues) && (after < before || issues > base_issues)
                ==> c.status@ == "degraded"@
            &&& (after == before && issues == base_issues) ==> c.status@ == "unchanged"@
        }),
{
}

/// A run compared with the baseline made from it shows no change: no score
/// or issue delta, status `unchanged`, no new, removed, degraded or
/// improved file.
pub proof fn a_run_compared_with_its_own_baseline_is_unchanged(result: AnalysisResult, b: Baseline)
    requires
        entry_views(b.files@) == baseline_entries(result.files@, result.target_dir@),
        b.overall.total_issues == result.summary.total_issues,
        b.overall.score == match result.score {
            Some(s) => s.overall,
            None => 100,
        },
    ensures
        ({
            let cur = baseline_entries(result.files@, result.target_dir@);
            let base = entry_views(b.files@);
            let score_after: int = match result.score {
                Some(s) => s.overall as int,
                None => 100,
            };
            &&& score_after - b.overall.score == 0
            &&& result.summary.total_issues - b.overall.total_issues == 0
            &&& spec_status(score_after - b.overall.score, result.summary.total_issues - b.overall.total_issues)
                == ComparisonStatus::Unchanged
            &&& count_missing(distinct_files(cur), base) == 0
            &&& count_missing(distinct_files(base), cur) == 0
            &&& moved(distinct_files(cur), cur, base, true).len() == 0
            &&& moved(distinct_files(cur), cur, base, false).len() == 0
        }),
{
    let cur = baseline_entries(result.files@, result.target_dir@);
    lemma_distinct_files_found(cur);
    lemma_nothing_missing(distinct_files(cur), cur);
    lemma_nothing_moved(distinct_files(cur), cur, true);
    lemma_nothing_moved(distinct_files(cur), cur, false);
}


/// A run compared with the baseline made from it is unchanged in every
/// field of the comparison: status `unchanged`, no score or issue delta, the
/// same grade before and after, and no new, removed, degraded or improved
/// file.
pub proof fn comparing_a_run_with_its_own_baseline_changes_nothing(
    result: AnalysisResult,
    b: Baseline,
    c: BaselineComparison,
)
    requires
        entry_views(b.files@) == baseline_entries(result.files@, result.target_dir@),
        b.overall.total_issues == result.summary.total_issues,
        b.overall.score == match result.score {
            Some(s) => s.overall,
            None => 100,
        },
        b.overall.grade@ == match result.score {
            Some(s) => spec_grade_letter(s.grade),
            None => "A"@,
        },
        comparison_of(c, result, b),
    ensures
        c.status@ == "unchanged"@,
        c.overall.score_delta == 0,
        c.overall.issues_delta == 0,
        c.overall.grade_before@ == c.overall.grade_after@,
        c.new_files == 0,
        c.removed_files == 0,
        c.degraded_files@.len() == 0,
        c.improved_files@.len() == 0,
{
    a_run_compared_with_its_own_baseline_is_unchanged(result, b);
}


/// The files the entries of `es` name.
pub open spec fn entry_files(es: Seq<EntryView>) -> Set<Seq<char>>
    decreases es.len(),
{
    if es.len() == 0 {
        Set::empty()
    } else {
        entry_files(es.drop_last()).insert(es.last().0)
    }
}

/// The paths of `fs`, as a set.
pub open spec fn path_set(fs: Seq<Seq<char>>) -> Set<Seq<char>>
    decreases fs.len(),
{
    if fs.len() == 0 {
        Set::empty()
    } else {
        path_set(fs.drop_last()).insert(fs.last())
    }
}

/// No path occurs twice in `fs`.
pub open spec fn no_repeats(fs: Seq<Seq<char>>) -> bool {
    forall|i: int, j: int| 0 <= i < j < fs.len() ==> #[trigger] fs[i] != #[trigger] fs[j]
}

proof fn lemma_path_set(fs: Seq<Seq<char>>)
    ensures
        path_set(fs).finite(),
        forall|f: Seq<char>| #[trigger] path_set(fs).contains(f) <==> fs.contains(f),
    decreases fs.len(),
{
    broadcast use vstd::set::group_set_axioms;
    if fs.len() > 0 {
        let prev = fs.drop_last();
        lemma_path_set(prev);
        assert forall|f: Seq<char>| #[trigger] path_set(fs).contains(f) <==> fs.contains(f) by {
            if fs.contains(f) {
                let k = choose|k: int| 0 <= k < fs.len() && fs[k] == f;
                if k < fs.len() - 1 {
                    assert(prev[k] == f);
                }
            }
            if prev.contains(f) {
                let k = choose|k: int| 0 <= k < prev.len() && prev[k] == f;
                assert(fs[k] == f);
            }
            assert(fs[fs.len() - 1] == fs.last());
        }
    }
}

proof fn lemma_entry_files(es: Seq<EntryView>)
    ensures
        entry_files(es).finite(),
        forall|f: Seq<char>| #[trigger] entry_files(es).contains(f) <==> last_score(es, f) is Some,
    decreases es.len(),
{
    broadcast use vstd::set::group_set_axioms;
    if es.len() > 0 {
        lemma_entry_files(es.drop_last());
    }
}

proof fn lemma_distinct_files_set(es: Seq<EntryView>)
    ensures
        no_repeats(distinct_files(es)),
        forall|f: Seq<char>| #[trigger] distinct_files(es).contains(f) <==> entry_files(es).contains(f),
    decreases es.len(),
{
    broadcast use vstd::set::group_set_axioms;
    if es.len() > 0 {
        let prev = es.drop_last();
        let d = distinct_files(prev);
        let x = es.last().0;
        lemma_distinct_files_set(prev);
        if !d.contains(x) {
            let dx = d.push(x);
            assert forall|i: int, j: int| 0 <= i < j < dx.len() implies #[trigger] dx[i] != #[trigger] dx[j] by {
                if j == dx.len() - 1 {
                    assert(dx[i] == d[i]);
                } else {
                    assert(dx[i] == d[i] && dx[j] == d[j]);
                }
            }
            assert forall|f: Seq<char>| #[trigger] dx.contains(f) <==> entry_files(es).contains(f) by {
                if dx.contains(f) {
                    let k = choose|k: int| 0 <= k < dx.len() && dx[k] == f;
                    if k < d.len() {
                        assert(d[k] == f);
                    }
                }
                if d.contains(f) {
                    let k = choose|k: int| 0 <= k < d.len() && d[k] == f;
                    assert(dx[k] == f);
                }
                assert(dx[dx.len() - 1] == x);
            }
        }
    }
}

proof fn lemma_count_missing_set(fs: Seq<Seq<char>>, other: Seq<EntryView>)
    requires
        no_repeats(fs),
    ensures
        count_missing(fs, other) == path_set(fs).difference(entry_files(other)).len(),
    decreases fs.len(),
{
    broadcast use vstd::set::group_set_axioms;
    lemma_entry_files(other);
    lemma_path_set(fs);
    if fs.len() > 0 {
        let prev = fs.drop_last();
        let x = fs.last();
        assert(no_repeats(prev)) by {
            assert forall|i: int, j: int| 0 <= i < j < prev.len() implies #[trigger] prev[i] != #[trigger] prev[j] by {
                assert(prev[i] == fs[i] && prev[j] == fs[j]);
            }
        }
        lemma_count_missing_set(prev, other);
        lemma_path_set(prev);
        assert(!prev.contains(x)) by {
            if prev.contains(x) {
                let k = choose|k: int| 0 <= k < prev.len() && prev[k] == x;
                assert(fs[k] == fs[fs.len() - 1]);
            }
        }
        let before = path_set(prev).difference(entry_files(other));
        if entry_files(other).contains(x) {
            assert(path_set(fs).difference(entry_files(other)) =~= before);
        } else {
            assert(path_set(fs).difference(entry_files(other)) =~= before.insert(x));
            assert(!before.contains(x));
        }
    } else {
        assert(path_set(fs).difference(entry_files(other)) =~= Set::<Seq<char>>::empty());
    }
}

proof fn lemma_moved_members(fs: Seq<Seq<char>>, cur: Seq<EntryView>, base: Seq<EntryView>, worse: bool)
    requires
        no_repeats(fs),
    ensures
        no_repeats(moved(fs, cur, base, worse)),
        forall|f: Seq<char>| #[trigger] moved(fs, cur, base, worse).contains(f) <==> fs.contains(f) && match (
            last_score(cur, f),
            last_score(base, f),
        ) {
            (Some(c), Some(b)) => if worse {
                c < b
            } else {
                c > b
            },
            _ => false,
        },
    decreases fs.len(),
{
    if fs.len() > 0 {
        let prev = fs.drop_last();
        let x = fs.last();
        assert(no_repeats(prev)) by {
            assert forall|i: int, j: int| 0 <= i < j < prev.len() implies #[trigger] prev[i] != #[trigger] prev[j] by {
                assert(prev[i] == fs[i] && prev[j] == fs[j]);
            }
        }
        lemma_moved_members(prev, cur, base, worse);
        let m = moved(prev, cur, base, worse);
        assert(!prev.contains(x)) by {
            if prev.contains(x) {
                let k = choose|k: int| 0 <= k < prev.len() && prev[k] == x;
                assert(fs[k] == fs[fs.len() - 1]);
            }
        }
        let r = moved(fs, cur, base, worse);
        assert forall|f: Seq<char>| #[trigger] r.contains(f) <==> fs.contains(f) && match (
            last_score(cur, f),
            last_score(base, f),
        ) {
            (Some(c), Some(b)) => if worse {
                c < b
            } else {
                c > b
            },
            _ => false,
        } by {
            if r.contains(f) {
                let k = choose|k: int| 0 <= k < r.len() && r[k] == f;
                if k < m.len() {
                    assert(r[k] == m[k]);
                    assert(m.contains(f));
                    assert(prev.contains(f));
                    let q = choose|q: int| 0 <= q < prev.len() && prev[q] == f;
                    assert(fs[q] == prev[q]);
                } else {
                    assert(r.len() > m.len());
                    assert(r[k] == x);
                    assert(fs[fs.len() - 1] == f);
                }
            }
            if fs.contains(f) {
                let k = choose|k: int| 0 <= k < fs.len() && fs[k] == f;
                if k < fs.len() - 1 {
                    assert(prev[k] == f);
                    if m.contains(f) {
                        let q = choose|q: int| 0 <= q < m.len() && m[q] == f;
                        assert(r[q] == f);
                    }
                } else {
                    assert(f == x);
                    if r.len() > m.len() {
                        assert(r[m.len() as int] == x);
                    }
                }
            }
        }
        assert forall|i: int, j: int| 0 <= i < j < r.len() implies #[trigger] r[i] != #[trigger] r[j] by {
            if j >= m.len() {
                assert(r[j] == x);
                assert(r[i] == m[i]);
                assert(m.contains(m[i]));
            } else {
                assert(r[i] == m[i] && r[j] == m[j]);
            }
        }
    }
}

/// What a comparison with a baseline counts and lists, as sets of files:
/// the new files are those of the run that the baseline lacks, the removed
/// ones those of the baseline that the run lacks; the degraded files are,
/// each once, the files of both whose score fell, the improved ones those
/// whose score rose.
pub proof fn comparison_counts_are_set_differences(cur: Seq<EntryView>, base: Seq<EntryView>)
    ensures
        count_missing(distinct_files(cur), base) == entry_files(cur).difference(entry_files(base)).len(),
        count_missing(distinct_files(base), cur) == entry_files(base).difference(entry_files(cur)).len(),
        no_repeats(moved(distinct_files(cur), cur, base, true)),
        no_repeats(moved(distinct_files(cur), cur, base, false)),
        forall|f: Seq<char>| #[trigger] moved(distinct_files(cur), cur, base, true).contains(f) <==> (last_score(
            cur,
            f,
        ) matches Some(c) && last_score(base, f) matches Some(b) && c < b),
        forall|f: Seq<char>| #[trigger] moved(distinct_files(cur), cur, base, false).contains(f) <==> (last_score(
            cur,
            f,
        ) matches Some(c) && last_score(base, f) matches Some(b) && c > b),
{
    broadcast use vstd::set::group_set_axioms;
    lemma_distinct_files_set(cur);
    lemma_distinct_files_set(base);
    lemma_entry_files(cur);
    lemma_entry_files(base);
    lemma_path_set(distinct_files(cur));
    lemma_path_set(distinct_files(base));
    assert(path_set(distinct_files(cur)) =~= entry_files(cur));
    assert(path_set(distinct_files(base)) =~= entry_files(base));
    lemma_count_missing_set(distinct_files(cur), base);
    lemma_count_missing_set(distinct_files(base), cur);
    lemma_moved_members(distinct_files(cur), cur, base, true);
    lemma_moved_members(distinct_files(cur), cur, base, false);
}

} // verus!
