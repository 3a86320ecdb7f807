use vstd::prelude::*;

use crate::path::{clone_components, component_views, FsPath, PathView};

verus! {

/// What matching a glob `pattern` against a relative path with `components`
/// gives: `None` where the pattern does not parse or cannot be compiled.
pub uninterp spec fn glob_match(pattern: Seq<char>, components: Seq<Seq<char>>) -> Option<bool>;

/// Relies on `globset::Glob::new` to parse `pattern`, on `globset::GlobSet::new`
/// to compile it (an error, not a panic, where it cannot be), and on
/// `globset::GlobSet::is_match` to match the relative path that `components`
/// spell out against it.
#[verifier::external_body]
fn glob_is_match(pattern: &str, components: &Vec<String>) -> (r: Option<bool>)
    ensures
        r == glob_match(pattern@, component_views(components@)),
{
    let glob = globset::Glob::new(pattern).ok()?;
    let set = globset::GlobSet::new([glob]).ok()?;
    Some(set.is_match(components.iter().collect::<std::path::PathBuf>()))
}

/// `base` is a leading part of `path`, component by component.
pub open spec fn is_prefix(base: PathView, path: PathView) -> bool {
    &&& base.absolute == path.absolute
    &&& base.components.len() <= path.components.len()
    &&& path.components.take(base.components.len() as int) == base.components
}

/// A path passes the rule unless it lies under `base` and the rest of it,
/// relative to `base`, matches the glob.
pub open spec fn rule_passes(glob: Seq<char>, base: PathView, path: PathView) -> bool {
    is_prefix(base, path) ==> glob_match(glob, path.components.skip(base.components.len() as int))
        != Some(true)
}

/// A rule that leaves out of a build the paths under `base_path` that match `glob`.
pub struct PathIgnoreRule {
    pub glob: String,
    pub base_path: FsPath,
}

impl PathIgnoreRule {
    pub open spec fn passes_spec(&self, path: PathView) -> bool {
        rule_passes(self.glob@, self.base_path@, path)
    }

    pub fn new(glob: String, base_path: FsPath) -> (r: PathIgnoreRule)
        ensures
            r.glob == glob,
            r.base_path == base_path,
    {
        PathIgnoreRule { glob, base_path }
    }

    /// Whether `path` is kept by this rule.
    pub fn passes(&self, path: &FsPath) -> (r: bool)
        ensures
            r == self.passes_spec(path@),
    {
        let base = &self.base_path.components;
        let comps = &path.components;
        if self.base_path.absolute != path.absolute || base.len() > comps.len() {
            return true;
        }
        let mut i: usize = 0;
        while i < base.len()
            invariant
                base.len() <= comps.len(),
                base@ == self.base_path.components@,
                comps@ == path.components@,
                i <= base.len(),
                forall|j: int| 0 <= j < i ==> comps@[j]@ == base@[j]@,
            decreases base.len() - i,
        {
            if comps[i] != base[i] {
                proof {
                    assert(component_views(comps@).take(base@.len() as int)[i as int]
                        == comps@[i as int]@);
                    assert(component_views(base@)[i as int] == base@[i as int]@);
                    assert(path@.components.take(self.base_path@.components.len() as int)[i as int]
                        != self.base_path@.components[i as int]);
                    assert(!is_prefix(self.base_path@, path@));
                }
                return true;
            }
            i = i + 1;
        }
        proof {
            assert(component_views(comps@).take(base@.len() as int) =~= component_views(base@));
        }
        let all = clone_components(comps);
        let mut suffix: Vec<String> = Vec::new();
        let mut k: usize = base.len();
        while k < all.len()
            invariant
                all@ == comps@,
                base.len() <= k <= all.len(),
                suffix@ == all@.subrange(base.len() as int, k as int),
            decreases all.len() - k,
        {
            suffix.push(all[k].clone());
            k = k + 1;
            assert(suffix@ =~= all@.subrange(base.len() as int, k as int));
        }
        proof {
            assert(component_views(suffix@) =~= component_views(comps@).skip(base@.len() as int));
        }
        match glob_is_match(self.glob.as_str(), &suffix) {
            Some(m) => !m,
            None => true,
        }
    }
}

} // verus!
