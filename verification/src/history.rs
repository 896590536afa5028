//! Reading version-control history: which files changed since a base, and
//! how often each file changed recently and by how many people.
//!
//! The caller runs `git log --format='%H %aN' --name-only` and
//! `git diff --name-only` and hands their output here.
use vstd::prelude::*;
use crate::hotspot::ChurnStats;
use crate::paths::{join_path, path_joined};
use crate::rules::common::trim_ws;
use crate::text::{chars_of, str_eq};
use crate::version::trim_bounds;

verus! {

/// A file changed by a commit: file, commit hash, author.
pub type Record = (Seq<char>, Seq<char>, Seq<char>);

pub open spec fn is_hex(c: char) -> bool {
    ('0' <= c <= '9') || ('a' <= c <= 'f') || ('A' <= c <= 'F')
}

/// A commit header line, `<40 hex digits> <author>`: its hash and author.
pub open spec fn header_of(l: Seq<char>) -> Option<(Seq<char>, Seq<char>)> {
    if l.len() > 41 && (forall|k: int| 0 <= k < 40 ==> is_hex(#[trigger] l[k])) && l[40] == ' ' {
        Some((l.take(40), l.skip(41)))
    } else {
        None
    }
}

/// What one trimmed line of the log contributes: the records it adds, and
/// the commit current after it. A header line makes its commit current; any
/// other non-empty line names a file the current commit changed.
pub open spec fn log_line(l: Seq<char>, cur: (Seq<char>, Seq<char>)) -> (Seq<Record>, (Seq<char>, Seq<char>)) {
    if l.len() == 0 {
        (seq![], cur)
    } else {
        match header_of(l) {
            Some(h) => (seq![], h),
            None => (seq![(l, cur.0, cur.1)], cur),
        }
    }
}

/// The records of the rest `s` of a log, `line` being the part of the
/// current line read so far and `cur` the current commit.
pub open spec fn log_scan(s: Seq<char>, line: Seq<char>, cur: (Seq<char>, Seq<char>)) -> Seq<Record>
    decreases s.len(),
{
    if s.len() == 0 {
        log_line(trim_ws(line), cur).0
    } else if s[0] == '\n' {
        let step = log_line(trim_ws(line), cur);
        step.0 + log_scan(s.drop_first(), seq![], step.1)
    } else {
        log_scan(s.drop_first(), line.push(s[0]), cur)
    }
}

/// The records of a whole log; file lines before any header belong to an
/// empty hash and author.
pub open spec fn log_records(text: Seq<char>) -> Seq<Record> {
    log_scan(text, seq![], (seq![], seq![]))
}

/// A file with the distinct commits and authors that changed it.
pub type Tally = (Seq<char>, Seq<Seq<char>>, Seq<Seq<char>>);

pub open spec fn add_once(s: Seq<Seq<char>>, x: Seq<char>) -> Seq<Seq<char>> {
    if s.contains(x) {
        s
    } else {
        s.push(x)
    }
}

/// The position of the tally of file `f` among `ts`, from `k` on.
pub open spec fn file_slot(ts: Seq<Tally>, f: Seq<char>, k: int) -> Option<int>
    decreases ts.len() - k,
{
    if k < 0 || k >= ts.len() {
        None
    } else if ts[k].0 == f {
        Some(k)
    } else {
        file_slot(ts, f, k + 1)
    }
}

/// The records tallied by file, files in the order they first appear.
pub open spec fn tally(recs: Seq<Record>) -> Seq<Tally>
    decreases recs.len(),
{
    if recs.len() == 0 {
        seq![]
    } else {
        let ts = tally(recs.drop_last());
        let r = recs.last();
        match file_slot(ts, r.0, 0) {
            Some(k) => ts.update(k, (ts[k].0, add_once(ts[k].1, r.1), add_once(ts[k].2, r.2))),
            None => ts.push((r.0, seq![r.1], seq![r.2])),
        }
    }
}

/// For each file of a log, in the order files first appear: the number of
/// distinct commits and of distinct authors that changed it.
pub open spec fn churn_table(text: Seq<char>) -> Seq<(Seq<char>, int, int)> {
    tally(log_records(text)).map_values(|t: Tally| (t.0, t.1.len() as int, t.2.len() as int))
}

pub open spec fn strs(v: Seq<String>) -> Seq<Seq<char>> {
    v.map_values(|s: String| s@)
}

pub open spec fn churn_views(v: Seq<(String, ChurnStats)>) -> Seq<(Seq<char>, int, int)> {
    v.map_values(|e: (String, ChurnStats)| (e.0@, e.1.commits as int, e.1.authors as int))
}

pub open spec fn record_views(v: Seq<(String, String, String)>) -> Seq<Record> {
    v.map_values(|r: (String, String, String)| (r.0@, r.1@, r.2@))
}

fn is_header(v: &Vec<char>, a: usize, b: usize) -> (r: bool)
    requires
        a <= b <= v@.len(),
    ensures
        r == header_of(v@.subrange(a as int, b as int)) is Some,
{
    let ghost l = v@.subrange(a as int, b as int);
    if b - a <= 41 {
        return false;
    }
    let mut k: usize = 0;
    while k < 40
        invariant
            a <= b <= v@.len(),
            b - a > 41,
            l == v@.subrange(a as int, b as int),
            k <= 40,
            forall|q: int| 0 <= q < k ==> is_hex(#[trigger] l[q]),
        decreases 40 - k,
    {
        let c = v[a + k];
        assert(l[k as int] == c);
        if !(('0' <= c && c <= '9') || ('a' <= c && c <= 'f') || ('A' <= c && c <= 'F')) {
            assert(!is_hex(l[k as int]));
            return false;
        }
        k = k + 1;
    }
    assert(l[40] == v[a + 40]);
    v[a + 40] == ' '
}

/// The records of a log text.
fn parse_records(text: &str) -> (r: Vec<(String, String, String)>)
    ensures
        record_views(r@) == log_records(text@),
{
    let v = chars_of(text);
    let mut out: Vec<(String, String, String)> = Vec::new();
    let mut hash = String::new();
    let mut author = String::new();
    let mut start: usize = 0;
    let mut j: usize = 0;
    assert(v@.skip(0) =~= v@);
    assert(v@.subrange(0, 0) =~= Seq::<char>::empty());
    proof {
        reveal_strlit("");
    }
    assert(hash@ =~= Seq::<char>::empty());
    loop
        invariant
            v@ == text@,
            start <= j <= v@.len(),
            record_views(out@) + log_scan(
                v@.skip(j as int),
                v@.subrange(start as int, j as int),
                (hash@, author@),
            ) == log_records(text@),
        decreases v@.len() - j,
    {
        let at_end = j == v.len();
        if !at_end && v[j] != '\n' {
            assert(v@.skip(j as int).drop_first() =~= v@.skip(j + 1));
            assert(v@.skip(j as int)[0] == v[j as int]);
            assert(v@.subrange(start as int, j + 1) =~= v@.subrange(start as int, j as int).push(v[j as int]));
            j = j + 1;
            continue;
        }
        let ghost before = record_views(out@);
        let ghost cur = (hash@, author@);
        let ghost line = v@.subrange(start as int, j as int);
        let (a, b) = trim_bounds(&v, start, j);
        let ghost l = v@.subrange(a as int, b as int);
        let ghost step = log_line(l, cur);
        if b > a {
            if is_header(&v, a, b) {
                hash = text.substring_char(a, a + 40).to_owned();
                author = text.substring_char(a + 41, b).to_owned();
                assert(hash@ =~= l.take(40));
                assert(author@ =~= l.skip(41));
            } else {
                let file = text.substring_char(a, b).to_owned();
                out.push((file, hash.clone(), author.clone()));
                assert(record_views(out@) =~= before + seq![(l, cur.0, cur.1)]);
            }
        }
        assert(record_views(out@) =~= before + step.0);
        assert((hash@, author@) == step.1);
        if at_end {
            assert(v@.skip(j as int) =~= Seq::<char>::empty());
            return out;
        }
        assert(v@.skip(j as int).drop_first() =~= v@.skip(j + 1));
        assert(v@.skip(j as int)[0] == '\n');
        j = j + 1;
        start = j;
        assert(v@.subrange(start as int, j as int) =~= Seq::<char>::empty());
    }
}

fn find_str(v: &Vec<String>, s: &str) -> (r: Option<usize>)
    ensures
        match r {
            Some(k) => k < v@.len() && v@[k as int]@ == s@ && forall|q: int| 0 <= q < k ==> v@[q]@ != s@,
            None => forall|q: int| 0 <= q < v@.len() ==> v@[q]@ != s@,
        },
{
    let mut k: usize = 0;
    while k < v.len()
        invariant
            k <= v@.len(),
            forall|q: int| 0 <= q < k ==> v@[q]@ != s@,
        decreases v@.len() - k,
    {
        if str_eq(v[k].as_str(), s) {
            return Some(k);
        }
        k = k + 1;
    }
    None
}

fn add_once_exec(v: &mut Vec<String>, s: &String)
    ensures
        strs(final(v)@) == add_once(strs(old(v)@), s@),
{
    let ghost before = strs(v@);
    match find_str(v, s.as_str()) {
        Some(k) => {
            assert(before[k as int] == s@);
            assert(before.contains(s@));
        },
        None => {
            assert(!before.contains(s@)) by {
                if before.contains(s@) {
                    let q = choose|q: int| 0 <= q < before.len() && before[q] == s@;
                    assert(v@[q]@ == s@);
                }
            }
            v.push(s.clone());
            assert(strs(v@) =~= before.push(s@));
        },
    }
}

proof fn lemma_file_slot(ts: Seq<Tally>, f: Seq<char>, k: int, j: int)
    requires
        0 <= k <= j <= ts.len(),
        j < ts.len() ==> ts[j].0 == f,
        forall|q: int| k <= q < j ==> ts[q].0 != f,
    ensures
        file_slot(ts, f, k) == if j < ts.len() {
            Some(j)
        } else {
            None
        },
    decreases j - k,
{
    if k < j {
        lemma_file_slot(ts, f, k + 1, j);
    }
}

/// For each file a log names, in the order files first appear: how many
/// distinct commits and authors changed it.
pub fn churn_stats_from_log(text: &str) -> (r: Vec<(String, ChurnStats)>)
    ensures
        churn_views(r@) == churn_table(text@),
{
    let recs = parse_records(text);
    let ghost rv = record_views(recs@);
    let mut files: Vec<String> = Vec::new();
    let mut hashes: Vec<Vec<String>> = Vec::new();
    let mut authors: Vec<Vec<String>> = Vec::new();
    let mut i: usize = 0;
    while i < recs.len()
        invariant
            i <= recs@.len(),
            rv == record_views(recs@),
            files@.len() == hashes@.len(),
            files@.len() == authors@.len(),
            tally(rv.take(i as int)).len() == files@.len(),
            forall|k: int| 0 <= k < files@.len() ==> #[trigger] tally(rv.take(i as int))[k] == (
                files@[k]@,
                strs(hashes@[k]@),
                strs(authors@[k]@),
            ),
        decreases recs@.len() - i,
    {
        let ghost ts = tally(rv.take(i as int));
        assert(rv.take(i + 1).drop_last() =~= rv.take(i as int));
        assert(rv.take(i + 1).last() == rv[i as int]);
        let r = &recs[i];
        let ghost rr = rv[i as int];
        assert(rr == (r.0@, r.1@, r.2@));
        match find_str(&files, r.0.as_str()) {
            Some(k) => {
                proof {
                    assert forall|q: int| 0 <= q < k implies ts[q].0 != rr.0 by {
                        assert(ts[q] == (files@[q]@, strs(hashes@[q]@), strs(authors@[q]@)));
                    }
                    assert(ts[k as int] == (files@[k as int]@, strs(hashes@[k as int]@), strs(authors@[k as int]@)));
                    lemma_file_slot(ts, rr.0, 0, k as int);
                }
                let mut hs = hashes.remove(k);
                add_once_exec(&mut hs, &r.1);
                hashes.insert(k, hs);
                let mut aus = authors.remove(k);
                add_once_exec(&mut aus, &r.2);
                authors.insert(k, aus);
                assert forall|q: int| 0 <= q < files@.len() implies #[trigger] tally(rv.take(i + 1))[q] == (
                    files@[q]@,
                    strs(hashes@[q]@),
                    strs(authors@[q]@),
                ) by {
                    if q != k {
                        assert(ts[q] == (files@[q]@, strs(hashes@[q]@), strs(authors@[q]@)));
                    }
                }
            },
            None => {
                proof {
                    assert forall|q: int| 0 <= q < ts.len() implies ts[q].0 != rr.0 by {
                        assert(ts[q] == (files@[q]@, strs(hashes@[q]@), strs(authors@[q]@)));
                    }
                    lemma_file_slot(ts, rr.0, 0, ts.len() as int);
                }
                files.push(r.0.clone());
                let mut hs: Vec<String> = Vec::new();
                hs.push(r.1.clone());
                assert(strs(hs@) =~= seq![rr.1]);
                hashes.push(hs);
                let mut aus: Vec<String> = Vec::new();
                aus.push(r.2.clone());
                assert(strs(aus@) =~= seq![rr.2]);
                authors.push(aus);
                assert forall|q: int| 0 <= q < files@.len() implies #[trigger] tally(rv.take(i + 1))[q] == (
                    files@[q]@,
                    strs(hashes@[q]@),
                    strs(authors@[q]@),
                ) by {
                    if q < ts.len() {
                        assert(ts[q] == (files@[q]@, strs(hashes@[q]@), strs(authors@[q]@)));
                    }
                }
            },
        }
        i = i + 1;
    }
    assert(rv.take(i as int) =~= rv);
    let ghost table = tally(rv);
    let mut out: Vec<(String, ChurnStats)> = Vec::new();
    let mut k: usize = 0;
    while k < files.len()
        invariant
            k <= files@.len(),
            files@.len() == hashes@.len(),
            files@.len() == authors@.len(),
            table.len() == files@.len(),
            forall|q: int| 0 <= q < files@.len() ==> #[trigger] table[q] == (
                files@[q]@,
                strs(hashes@[q]@),
                strs(authors@[q]@),
            ),
            churn_views(out@) =~= table.map_values(
                |t: Tally| (t.0, t.1.len() as int, t.2.len() as int),
            ).take(k as int),
        decreases files@.len() - k,
    {
        assert(table[k as int] == (files@[k as int]@, strs(hashes@[k as int]@), strs(authors@[k as int]@)));
        let ghost m = table.map_values(|t: Tally| (t.0, t.1.len() as int, t.2.len() as int));
        assert(strs(hashes@[k as int]@).len() == hashes@[k as int]@.len());
        assert(strs(authors@[k as int]@).len() == authors@[k as int]@.len());
        assert(m[k as int] == (files@[k as int]@, hashes@[k as int]@.len() as int, authors@[k as int]@.len() as int));
        let ghost before = churn_views(out@);
        let stats = ChurnStats { commits: hashes[k].len(), authors: authors[k].len() };
        out.push((files[k].clone(), stats));
        assert(churn_views(out@) =~= before.push(m[k as int]));
        assert(m.take(k + 1) =~= m.take(k as int).push(m[k as int]));
        k = k + 1;
    }
    out
}

/// The files a diff lists, one per non-empty line of the rest `s` of its
/// output, each joined to the repository root.
pub open spec fn diff_scan(s: Seq<char>, line: Seq<char>, root: Seq<char>) -> Seq<Seq<char>>
    decreases s.len(),
{
    let l = trim_ws(line);
    let here = if l.len() > 0 {
        seq![path_joined(root, l)]
    } else {
        seq![]
    };
    if s.len() == 0 {
        here
    } else if s[0] == '\n' {
        here + diff_scan(s.drop_first(), seq![], root)
    } else {
        diff_scan(s.drop_first(), line.push(s[0]), root)
    }
}

/// The files a `git diff --name-only` output lists, as paths under the
/// repository root.
pub fn changed_files_from_diff(diff_output: &str, repo_root: &str) -> (r: Vec<String>)
    ensures
        strs(r@) == diff_scan(diff_output@, seq![], repo_root@),
{
    let v = chars_of(diff_output);
    let mut out: Vec<String> = Vec::new();
    let mut start: usize = 0;
    let mut j: usize = 0;
    assert(v@.skip(0) =~= v@);
    assert(v@.subrange(0, 0) =~= Seq::<char>::empty());
    loop
        invariant
            v@ == diff_output@,
            start <= j <= v@.len(),
            strs(out@) + diff_scan(v@.skip(j as int), v@.subrange(start as int, j as int), repo_root@)
                == diff_scan(diff_output@, seq![], repo_root@),
        decreases v@.len() - j,
    {
        let at_end = j == v.len();
        if !at_end && v[j] != '\n' {
            assert(v@.skip(j as int).drop_first() =~= v@.skip(j + 1));
            assert(v@.skip(j as int)[0] == v[j as int]);
            assert(v@.subrange(start as int, j + 1) =~= v@.subrange(start as int, j as int).push(v[j as int]));
            j = j + 1;
            continue;
        }
        let ghost before = strs(out@);
        let (a, b) = trim_bounds(&v, start, j);
        if b > a {
            let p = join_path(repo_root, diff_output.substring_char(a, b));
            out.push(p);
            assert(strs(out@) =~= before + seq![path_joined(repo_root@, v@.subrange(a as int, b as int))]);
        } else {
            assert(strs(out@) =~= before + seq![]);
        }
        if at_end {
            assert(v@.skip(j as int) =~= Seq::<char>::empty());
            return out;
        }
        assert(v@.skip(j as int).drop_first() =~= v@.skip(j + 1));
        assert(v@.skip(j as int)[0] == '\n');
        j = j + 1;
        start = j;
        assert(v@.subrange(start as int, j as int) =~= Seq::<char>::empty());
    }
}


proof fn lemma_file_slot_found(ts: Seq<Tally>, f: Seq<char>, k: int)
    requires
        0 <= k <= ts.len(),
    ensures
        file_slot(ts, f, k) matches Some(j) ==> k <= j < ts.len() && ts[j].0 == f,
        file_slot(ts, f, k) is None ==> forall|q: int| k <= q < ts.len() ==> ts[q].0 != f,
    decreases ts.len() - k,
{
    if k < ts.len() && ts[k].0 != f {
        lemma_file_slot_found(ts, f, k + 1);
    }
}

/// A log's churn table lists every file the log names, each once.
pub proof fn every_file_of_a_log_is_tallied_once(recs: Seq<Record>)
    ensures
        forall|i: int, j: int| 0 <= i < j < tally(recs).len() ==> (#[trigger] tally(recs)[i]).0 != (#[trigger] tally(
            recs,
        )[j]).0,
        forall|k: int| 0 <= k < recs.len() ==> exists|q: int| 0 <= q < tally(recs).len() && tally(recs)[q].0 == (
            #[trigger] recs[k]).0,
    decreases recs.len(),
{
    if recs.len() > 0 {
        let prev = recs.drop_last();
        every_file_of_a_log_is_tallied_once(prev);
        let ts = tally(prev);
        let r = recs.last();
        lemma_file_slot_found(ts, r.0, 0);
        let out = tally(recs);
        match file_slot(ts, r.0, 0) {
            Some(k) => {
                assert forall|q: int| 0 <= q < out.len() implies #[trigger] out[q].0 == ts[q].0 by {}
            },
            None => {
                assert forall|q: int| 0 <= q < ts.len() implies #[trigger] out[q] == ts[q] by {}
                assert(out[ts.len() as int].0 == r.0);
            },
        }
        assert forall|i: int, j: int| 0 <= i < j < out.len() implies (#[trigger] out[i]).0 != (#[trigger] out[j]).0 by {
            match file_slot(ts, r.0, 0) {
                Some(k) => {
                    assert(out[i].0 == ts[i].0 && out[j].0 == ts[j].0);
                },
                None => {
                    if j == ts.len() {
                        assert(out[i] == ts[i]);
                    } else {
                        assert(out[i] == ts[i] && out[j] == ts[j]);
                    }
                },
            }
        }
        assert forall|k: int| 0 <= k < recs.len() implies exists|q: int| 0 <= q < out.len() && out[q].0 == (
            #[trigger] recs[k]).0 by {
            if k < recs.len() - 1 {
                assert(prev[k] == recs[k]);
                let q = choose|q: int| 0 <= q < ts.len() && ts[q].0 == prev[k].0;
                match file_slot(ts, r.0, 0) {
                    Some(s) => {
                        assert(out[q].0 == ts[q].0);
                    },
                    None => {
                        assert(out[q] == ts[q]);
                    },
                }
            } else {
                assert(recs[k] == r);
                match file_slot(ts, r.0, 0) {
                    Some(s) => {
                        assert(out[s].0 == r.0);
                    },
                    None => {
                        assert(out[ts.len() as int].0 == r.0);
                    },
                }
            }
        }
    }
}

} // verus!
