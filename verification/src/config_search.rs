//! Where a run's configuration comes from: the first `.codopsyrc.json`
//! going up from the target directory to the home directory, then the home
//! directory itself, else no settings. The caller reads the files.
use vstd::prelude::*;
use crate::baseline::strs;
use crate::config::CodopsyConfig;
use crate::paths::opt_string_view;
use crate::text::str_eq;

verus! {

/// What `std::path::Path::parent` gives for `p`: `p` without its final
/// component, or `None` when `p` ends in a root or prefix or is empty.
pub uninterp spec fn path_parent(p: Seq<char>) -> Option<Seq<char>>;

/// Calls `std::path::Path::parent` and converts the result to a string. The
/// parent is named, not described; as the path without its final component
/// it is shorter than the path.
#[verifier::external_body]
pub fn parent_dir(p: &str) -> (r: Option<String>)
    ensures
        opt_string_view(r) == path_parent(p@),
        r matches Some(q) ==> q@.len() < p@.len(),
{
    std::path::Path::new(p).parent().map(|q| q.to_string_lossy().into_owned())
}

/// What `std::path::Path::new(a) == std::path::Path::new(b)` gives: whether
/// the two paths have the same components.
pub uninterp spec fn same_path(a: Seq<char>, b: Seq<char>) -> bool;

/// Compares two paths with `std::path::Path`'s `==`, which compares their
/// components (so `/home/u/` and `/home/u` are the same path). The result is
/// named, not described.
#[verifier::external_body]
fn paths_equal(a: &str, b: &str) -> (r: bool)
    ensures
        r == same_path(a@, b@),
{
    std::path::Path::new(a) == std::path::Path::new(b)
}

/// The directories searched from `dir` up: `dir`, then (unless `dir` is the
/// home directory, compared as a path, or has no parent other than itself) the directories
/// searched from its parent; at most `fuel` of them.
pub open spec fn search_chain(dir: Seq<char>, home: Option<Seq<char>>, fuel: nat) -> Seq<Seq<char>>
    decreases fuel,
{
    if fuel == 0 {
        seq![]
    } else if home matches Some(h) && same_path(h, dir) {
        seq![dir]
    } else {
        match path_parent(dir) {
            Some(p) => if p != dir {
                seq![dir] + search_chain(p, home, (fuel - 1) as nat)
            } else {
                seq![dir]
            },
            None => seq![dir],
        }
    }
}

/// The directories whose `.codopsyrc.json` is tried, in order: the chain
/// from the target directory up (no longer than the target's path has
/// characters, plus one), then the home directory.
pub open spec fn config_dirs(target: Seq<char>, home: Option<Seq<char>>) -> Seq<Seq<char>> {
    search_chain(target, home, target.len() + 1) + match home {
        Some(h) => seq![h],
        None => seq![],
    }
}

/// The directories whose `.codopsyrc.json` is tried, in order.
pub fn config_search_dirs(target_dir: &str, home: Option<&str>) -> (r: Vec<String>)
    ensures
        strs(r@) == config_dirs(target_dir@, match home {
            Some(h) => Some(h@),
            None => None,
        }),
{
    let ghost hv = match home {
        Some(h) => Some(h@),
        None => None,
    };
    let ghost goal = search_chain(target_dir@, hv, target_dir@.len() + 1);
    let mut out: Vec<String> = Vec::new();
    let mut dir: String = target_dir.to_owned();
    let ghost mut fuel: nat = target_dir@.len() + 1;
    let mut going = true;
    while going
        invariant
            going ==> fuel >= dir@.len() + 1,
            going ==> strs(out@) + search_chain(dir@, hv, fuel) == goal,
            !going ==> strs(out@) == goal,
            hv == match home {
                Some(h) => Some(h@),
                None => None,
            },
        decreases dir@.len() + if going {
            1int
        } else {
            0int
        },
    {
        let ghost before = strs(out@);
        out.push(dir.as_str().to_owned());
        assert(strs(out@) =~= before + seq![dir@]);
        let at_home = match home {
            Some(h) => paths_equal(h, dir.as_str()),
            None => false,
        };
        if at_home {
            going = false;
        } else {
            match parent_dir(dir.as_str()) {
                Some(p) => {
                    if str_eq(p.as_str(), dir.as_str()) {
                        going = false;
                    } else {
                        proof {
                            assert(search_chain(dir@, hv, fuel) == seq![dir@] + search_chain(
                                p@,
                                hv,
                                (fuel - 1) as nat,
                            ));
                            assert(strs(out@) + search_chain(p@, hv, (fuel - 1) as nat) =~= before
                                + search_chain(dir@, hv, fuel));
                            fuel = (fuel - 1) as nat;
                        }
                        dir = p;
                    }
                },
                None => {
                    going = false;
                },
            }
        }
    }
    if let Some(h) = home {
        let ghost before = strs(out@);
        out.push(h.to_owned());
        assert(strs(out@) =~= before + seq![h@]);
    }
    out
}

/// The first configuration found among `found`, if any.
pub open spec fn first_found(found: Seq<Option<CodopsyConfig>>) -> Option<CodopsyConfig>
    decreases found.len(),
{
    if found.len() == 0 {
        None
    } else {
        match found[0] {
            Some(c) => Some(c),
            None => first_found(found.drop_first()),
        }
    }
}

/// The configuration of a run, given what each directory of
/// [`config_search_dirs`] held, in the same order: the first found, else no
/// settings.
pub fn choose_config(found: Vec<Option<CodopsyConfig>>) -> (r: CodopsyConfig)
    ensures
        match first_found(found@) {
            Some(c) => r == c,
            None => r.plugins is None && r.rules is None,
        },
{
    let ghost all = found@;
    let mut v = found;
    let mut k: usize = 0;
    assert(all.skip(0) =~= all);
    while k < v.len()
        invariant
            v@ == all,
            all == found@,
            k <= all.len(),
            first_found(all.skip(k as int)) == first_found(all),
            forall|q: int| 0 <= q < k ==> all[q] is None,
        decreases all.len() - k,
    {
        assert(all.skip(k as int)[0] == all[k as int]);
        assert(all.skip(k as int).drop_first() =~= all.skip(k + 1));
        if v[k].is_some() {
            assert(first_found(all.skip(k as int)) == all[k as int]);
            let c = v.swap_remove(k);
            assert(c == all[k as int]);
            match c {
                Some(config) => {
                    return config;
                },
                None => {},
            }
        }
        k = k + 1;
    }
    assert(all.skip(k as int) =~= Seq::<Option<CodopsyConfig>>::empty());
    CodopsyConfig::new()
}

} // verus!
