use vstd::prelude::*;

verus! {

/// A filesystem path held as its components, with a flag for a leading root.
#[derive(Debug, PartialEq, Eq)]
pub struct FsPath {
    pub absolute: bool,
    pub components: Vec<String>,
}

/// Abstract form of a path: the root flag and the text of each component.
pub struct PathView {
    pub absolute: bool,
    pub components: Seq<Seq<char>>,
}

pub open spec fn component_views(c: Seq<String>) -> Seq<Seq<char>> {
    c.map_values(|s: String| s@)
}

impl View for FsPath {
    type V = PathView;

    open spec fn view(&self) -> PathView {
        PathView { absolute: self.absolute, components: component_views(self.components@) }
    }
}

pub fn clone_components(c: &Vec<String>) -> (r: Vec<String>)
    ensures
        r@ == c@,
{
    let mut r: Vec<String> = Vec::new();
    let mut i: usize = 0;
    while i < c.len()
        invariant
            i <= c@.len(),
            r@ == c@.subrange(0, i as int),
        decreases c@.len() - i,
    {
        r.push(c[i].clone());
        i = i + 1;
        assert(r@ =~= c@.subrange(0, i as int));
    }
    assert(r@ =~= c@);
    r
}

impl FsPath {
    pub fn new(absolute: bool, components: Vec<String>) -> (r: FsPath)
        ensures
            r.absolute == absolute,
            r.components == components,
    {
        FsPath { absolute, components }
    }

    pub fn copy(&self) -> (r: FsPath)
        ensures
            r@ == self@,
    {
        FsPath { absolute: self.absolute, components: clone_components(&self.components) }
    }

    /// The last component, if the path has one.
    pub fn file_name(&self) -> (r: Option<String>)
        ensures
            self@.components.len() == 0 ==> r.is_none(),
            self@.components.len() > 0 ==> r.is_some() && r.unwrap()@ == self@.components.last(),
    {
        let n = self.components.len();
        if n == 0 {
            None
        } else {
            Some(self.components[n - 1].clone())
        }
    }

    /// The same path with its last component replaced by `name`
    /// (or, for a path with no components, with `name` appended).
    pub fn with_file_name(&self, name: String) -> (r: FsPath)
        ensures
            r@ == with_file_name_spec(self@, name@),
    {
        let mut c = clone_components(&self.components);
        if c.len() > 0 {
            c.pop();
        }
        c.push(name);
        let r = FsPath { absolute: self.absolute, components: c };
        assert(r@.components =~= parent_components(self@).push(name@));
        r
    }
}

pub open spec fn parent_components(p: PathView) -> Seq<Seq<char>> {
    if p.components.len() > 0 {
        p.components.drop_last()
    } else {
        p.components
    }
}

pub open spec fn with_file_name_spec(p: PathView, name: Seq<char>) -> PathView {
    PathView { absolute: p.absolute, components: parent_components(p).push(name) }
}

} // verus!
