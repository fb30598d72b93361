//! The ignore matcher: which changed paths are suppressed.
//!
//! Built once from the watched paths: every ignore entry is joined to its
//! root (the root itself resolved against the working directory when it is
//! relative), and a changed path is ignored exactly when some resolved
//! entry covers it as a path-component prefix.

use crate::config::Config;
use crate::config::PathConfig;
use crate::paths::path_has_root;
use crate::paths::path_join;
use crate::paths::path_starts_with;
use crate::paths::spec_has_root;
use crate::paths::spec_is_path_prefix;
use crate::paths::spec_path_join;
use vstd::prelude::*;

verus! {

/// A watched root as the matcher sees it: itself when absolute, joined to
/// the working directory when relative.
pub open spec fn spec_resolved_root(root: Seq<char>, cwd: Seq<char>) -> Seq<char> {
    if spec_has_root(root) {
        root
    } else {
        spec_path_join(cwd, root)
    }
}

/// The ignored prefixes one watched path contributes, in configured order.
pub open spec fn spec_watch_prefixes(pc: PathConfig, cwd: Seq<char>) -> Seq<Seq<char>> {
    match pc.ignore {
        Some(ig) => ig.deep_view().map(
            |i: int, e: Seq<char>| spec_path_join(spec_resolved_root(pc.path@, cwd), e),
        ),
        None => Seq::empty(),
    }
}

/// All ignored prefixes of a list of watched paths, in configured order.
pub open spec fn spec_ignore_prefixes(pcs: Seq<PathConfig>, cwd: Seq<char>) -> Seq<Seq<char>>
    decreases pcs.len(),
{
    if pcs.len() == 0 {
        Seq::empty()
    } else {
        spec_ignore_prefixes(pcs.drop_last(), cwd) + spec_watch_prefixes(pcs.last(), cwd)
    }
}

/// The set of ignored path prefixes, fixed at construction.
pub struct Ignore {
    paths: Vec<String>,
}

impl Ignore {
    /// The resolved ignore prefixes, in configured order.
    pub closed spec fn prefixes(&self) -> Seq<Seq<char>> {
        self.paths.deep_view()
    }

    /// A path is ignored when some resolved prefix covers it.
    pub open spec fn spec_should_ignore(&self, p: Seq<char>) -> bool {
        exists|i: int| 0 <= i < self.prefixes().len() && spec_is_path_prefix(self.prefixes()[i], p)
    }

    /// Collects the resolved ignore prefixes of every watched path, using
    /// `current_dir` to resolve relative roots.
    pub fn new(config: &Config, current_dir: &str) -> (ig: Ignore)
        ensures
            ig.prefixes() == spec_ignore_prefixes(config.paths_to_watch@, current_dir@),
    {
        let mut paths: Vec<String> = Vec::new();
        let n = config.paths_to_watch.len();
        let mut i: usize = 0;
        while i < n
            invariant
                0 <= i <= n,
                n == config.paths_to_watch@.len(),
                paths.deep_view() == spec_ignore_prefixes(
                    config.paths_to_watch@.take(i as int),
                    current_dir@,
                ),
            decreases n - i,
        {
            let pc = &config.paths_to_watch[i];
            let ghost prev: Seq<Seq<char>> = paths.deep_view();
            match &pc.ignore {
                Some(ig_list) => {
                    let root: String = if path_has_root(pc.path.as_str()) {
                        pc.path.clone()
                    } else {
                        path_join(current_dir, pc.path.as_str())
                    };
                    let m = ig_list.len();
                    let mut j: usize = 0;
                    while j < m
                        invariant
                            0 <= j <= m,
                            m == ig_list@.len(),
                            pc.ignore == Some(*ig_list),
                            root@ == spec_resolved_root(pc.path@, current_dir@),
                            paths.deep_view().len() == prev.len() + j,
                            forall|k: int| 0 <= k < prev.len() ==> paths.deep_view()[k] == prev[k],
                            forall|k: int|
                                0 <= k < j ==> paths.deep_view()[prev.len() + k] == spec_path_join(
                                    spec_resolved_root(pc.path@, current_dir@),
                                    ig_list.deep_view()[k],
                                ),
                        decreases m - j,
                    {
                        let combined = path_join(root.as_str(), ig_list[j].as_str());
                        paths.push(combined);
                        j += 1;
                    }
                    proof {
                        assert(paths.deep_view() =~= prev + spec_watch_prefixes(
                            config.paths_to_watch@[i as int],
                            current_dir@,
                        ));
                    }
                },
                None => {
                    proof {
                        assert(paths.deep_view() =~= prev + spec_watch_prefixes(
                            config.paths_to_watch@[i as int],
                            current_dir@,
                        ));
                    }
                },
            }
            proof {
                assert(config.paths_to_watch@.take(i + 1).drop_last() =~= config.paths_to_watch@
                    .take(i as int));
                assert(paths.deep_view() =~= spec_ignore_prefixes(
                    config.paths_to_watch@.take(i + 1),
                    current_dir@,
                ));
            }
            i += 1;
        }
        proof {
            assert(config.paths_to_watch@.take(n as int) =~= config.paths_to_watch@);
        }
        Ignore { paths }
    }

    /// Whether `path` is equal to or a descendant of any ignored prefix.
    pub fn should_ignore(&self, path: &str) -> (r: bool)
        ensures
            r == self.spec_should_ignore(path@),
    {
        let n = self.paths.len();
        let mut i: usize = 0;
        while i < n
            invariant
                0 <= i <= n,
                n == self.prefixes().len(),
                forall|j: int| 0 <= j < i ==> !spec_is_path_prefix(self.prefixes()[j], path@),
            decreases n - i,
        {
            if path_starts_with(path, self.paths[i].as_str()) {
                proof {
                    assert(spec_is_path_prefix(self.prefixes()[i as int], path@));
                }
                return true;
            }
            i += 1;
        }
        false
    }
}

} // verus!
