//! Choosing the entry file: among the paths that match the entry glob, the
//! one with the fewest components wins, and between equally shallow matches
//! the one listed first.

use crate::config::{glob_matches, Config};
use crate::paths::{depth_of, path_depth};
use vstd::prelude::*;

verus! {

/// Index `j` holds the selected entry among `paths` for the glob `pat`: it
/// matches, no match is shallower, and every earlier match is deeper.
pub open spec fn is_selected(pat: Seq<char>, paths: Seq<Seq<char>>, j: int) -> bool {
    &&& 0 <= j < paths.len()
    &&& glob_matches(pat, paths[j])
    &&& forall|i: int|
        0 <= i < paths.len() && glob_matches(pat, paths[i]) ==> depth_of(paths[j]) <= depth_of(
            paths[i],
        )
    &&& forall|i: int| 0 <= i < j && glob_matches(pat, paths[i]) ==> depth_of(paths[i]) > depth_of(
        paths[j],
    )
}

/// Selects the entry file among `paths`: the first of the shallowest paths
/// matching the configuration's entry glob, or nothing when no path
/// matches.
pub fn select_entry(config: &Config, paths: &Vec<String>) -> (r: Option<usize>)
    ensures
        r matches Some(j) ==> is_selected(config.entry_glob_spec(), paths.deep_view(), j as int),
        r is None ==> forall|i: int|
            0 <= i < paths.deep_view().len() ==> !glob_matches(
                config.entry_glob_spec(),
                paths.deep_view()[i],
            ),
{
    let ghost dv = paths.deep_view();
    let ghost pat = config.entry_glob_spec();
    let mut best: Option<usize> = None;
    let mut best_depth: usize = 0;
    let n = paths.len();
    let mut i: usize = 0;
    while i < n
        invariant
            i <= n,
            n == paths@.len(),
            dv == paths.deep_view(),
            dv.len() == paths@.len(),
            pat == config.entry_glob_spec(),
            best matches Some(j) ==> {
                &&& j < i
                &&& glob_matches(pat, dv[j as int])
                &&& best_depth as nat == depth_of(dv[j as int])
                &&& forall|k: int|
                    0 <= k < i && glob_matches(pat, dv[k]) ==> depth_of(dv[j as int]) <= depth_of(
                        dv[k],
                    )
                &&& forall|k: int|
                    0 <= k < j && glob_matches(pat, dv[k]) ==> depth_of(dv[k]) > depth_of(
                        dv[j as int],
                    )
            },
            best is None ==> forall|k: int| 0 <= k < i ==> !glob_matches(pat, dv[k]),
        decreases n - i,
    {
        let p = &paths[i];
        proof {
            assert(dv[i as int] == paths@[i as int].deep_view());
        }
        if config.matches_entry_glob(p.as_str()) {
            let d = path_depth(p.as_str());
            let better = match best {
                Some(_) => d < best_depth,
                None => true,
            };
            if better {
                best = Some(i);
                best_depth = d;
            }
        }
        i += 1;
    }
    best
}

} // verus!
