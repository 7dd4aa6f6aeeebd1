//! The upward search for the config file.
//!
//! Directories are modelled as their component sequences from the
//! filesystem root, so the search itself — deepest match first, stop at the
//! root — is pure and fully verified; the caller supplies the one fact per
//! candidate directory that only the filesystem knows, namely whether the
//! config file exists there.

use vstd::prelude::*;

use crate::lints::Lints;

verus! {

/// The fixed name of the configuration file looked for in every candidate
/// directory.
pub fn config_file_name() -> (r: &'static str)
    ensures
        r@ == "lints.toml"@,
{
    "lints.toml"
}

/// `dir` is `start` itself or one of its ancestors, both given as their
/// component sequences from the filesystem root.
pub open spec fn is_ancestor_or_self(dir: Seq<Seq<char>>, start: Seq<Seq<char>>) -> bool {
    dir.len() <= start.len() && dir == start.take(dir.len() as int)
}

/// Clones the first `n` components of a path.
fn prefix_of(v: &Vec<String>, n: usize) -> (r: Vec<String>)
    requires
        n <= v@.len(),
    ensures
        r.deep_view() == v.deep_view().take(n as int),
{
    let mut r: Vec<String> = Vec::new();
    let mut i: usize = 0;
    proof {
        assert(r.deep_view() =~= v.deep_view().take(0));
    }
    while i < n
        invariant
            i <= n <= v@.len(),
            r.deep_view() == v.deep_view().take(i as int),
        decreases n - i,
    {
        let ghost pre = r.deep_view();
        r.push(v[i].clone());
        proof {
            assert(r.deep_view() =~= pre.push(v.deep_view()[i as int]));
            assert(r.deep_view() =~= v.deep_view().take(i as int + 1));
        }
        i = i + 1;
    }
    r
}

impl Lints {
    /// Finds the innermost directory, among the starting directory and its
    /// ancestors, that holds the config file.
    ///
    /// `start` is the starting directory as its components from the root.
    /// `has_config` says, innermost first, whether the config file exists
    /// in each of the `start.len() + 1` candidate directories (the starting
    /// directory itself, each ancestor, and finally the root). The result
    /// is the deepest candidate that holds the file — always an
    /// ancestor-or-self of the start — or `None` once the root has been
    /// reached without a match; the search never goes further.
    pub fn find_config_path(start: &Vec<String>, has_config: &Vec<bool>) -> (r: Option<
        Vec<String>,
    >)
        requires
            has_config@.len() == start@.len() + 1,
        ensures
            r matches Some(d) ==> {
                &&& is_ancestor_or_self(d.deep_view(), start.deep_view())
                &&& has_config@[start@.len() - d@.len()]
                &&& forall|j: int| 0 <= j < start@.len() - d@.len() ==> !has_config@[j]
            },
            r is None ==> forall|j: int| 0 <= j < has_config@.len() ==> !has_config@[j],
    {
        let mut i: usize = 0;
        while i < has_config.len()
            invariant
                i <= has_config@.len(),
                has_config@.len() == start@.len() + 1,
                forall|j: int| 0 <= j < i ==> !has_config@[j],
            decreases has_config@.len() - i,
        {
            if has_config[i] {
                let d = prefix_of(start, start.len() - i);
                proof {
                    assert(d.deep_view().len() == start@.len() - i);
                    assert(d@.len() == d.deep_view().len());
                    assert(is_ancestor_or_self(d.deep_view(), start.deep_view()));
                    assert(has_config@[start@.len() - d@.len()]);
                    assert(forall|j: int| 0 <= j < start@.len() - d@.len() ==> !has_config@[j]);
                }
                return Some(d);
            }
            i = i + 1;
        }
        None
    }
}

} // verus!
