use vstd::prelude::*;

use crate::ignore::PathIgnoreRule;
use crate::path::{FsPath, PathView};

verus! {

/// A typed property value of an instance.
#[derive(Debug, PartialEq, Eq)]
pub enum PropValue {
    Text(String),
    Bool(bool),
    /// A member of an enum, by its numeric value.
    Enum(u32),
}

pub enum PropView {
    Text(Seq<char>),
    Bool(bool),
    Enum(u32),
}

impl View for PropValue {
    type V = PropView;

    open spec fn view(&self) -> PropView {
        match self {
            PropValue::Text(s) => PropView::Text(s@),
            PropValue::Bool(b) => PropView::Bool(*b),
            PropValue::Enum(e) => PropView::Enum(*e),
        }
    }
}

impl PropValue {
    pub fn copy(&self) -> (r: PropValue)
        ensures
            r@ == self@,
    {
        match self {
            PropValue::Text(s) => PropValue::Text(s.clone()),
            PropValue::Bool(b) => PropValue::Bool(*b),
            PropValue::Enum(e) => PropValue::Enum(*e),
        }
    }
}

pub type Property = (String, PropValue);

/// The property map that a list of entries stands for; a later entry wins.
pub open spec fn props_map(s: Seq<Property>) -> Map<Seq<char>, PropView>
    decreases s.len(),
{
    if s.len() == 0 {
        Map::empty()
    } else {
        props_map(s.drop_last()).insert(s.last().0@, s.last().1@)
    }
}

pub open spec fn keys_unique(s: Seq<Property>) -> bool {
    forall|i: int, j: int| 0 <= i < j < s.len() ==> s[i].0@ != s[j].0@
}

proof fn lemma_props_map_domain(s: Seq<Property>, k: Seq<char>)
    ensures
        props_map(s).contains_key(k) <==> exists|i: int| 0 <= i < s.len() && s[i].0@ == k,
    decreases s.len(),
{
    if s.len() > 0 {
        lemma_props_map_domain(s.drop_last(), k);
        if props_map(s).contains_key(k) && s.last().0@ != k {
            let i = choose|i: int| 0 <= i < s.drop_last().len() && s.drop_last()[i].0@ == k;
            assert(s[i].0@ == k);
        }
        if exists|i: int| 0 <= i < s.len() && s[i].0@ == k {
            let i = choose|i: int| 0 <= i < s.len() && s[i].0@ == k;
            if i < s.len() - 1 {
                assert(s.drop_last()[i].0@ == k);
            }
        }
    }
}

proof fn lemma_props_map_index(s: Seq<Property>, i: int)
    requires
        keys_unique(s),
        0 <= i < s.len(),
    ensures
        props_map(s).contains_key(s[i].0@),
        props_map(s)[s[i].0@] == s[i].1@,
    decreases s.len(),
{
    if i < s.len() - 1 {
        lemma_props_map_index(s.drop_last(), i);
    }
}

proof fn lemma_props_map_update(s: Seq<Property>, i: int, e: Property)
    requires
        keys_unique(s),
        0 <= i < s.len(),
        e.0@ == s[i].0@,
    ensures
        props_map(s.update(i, e)) == props_map(s).insert(e.0@, e.1@),
    decreases s.len(),
{
    let u = s.update(i, e);
    if i == s.len() - 1 {
        assert(u.drop_last() =~= s.drop_last());
        assert(props_map(u) =~= props_map(s).insert(e.0@, e.1@));
    } else {
        assert(u.drop_last() =~= s.drop_last().update(i, e));
        lemma_props_map_update(s.drop_last(), i, e);
        assert(props_map(u) =~= props_map(s).insert(e.0@, e.1@));
    }
}

/// Sets `key` to `value`, replacing an entry with that key if there is one.
pub fn set_property(props: &mut Vec<Property>, key: String, value: PropValue)
    requires
        keys_unique(old(props)@),
    ensures
        keys_unique(final(props)@),
        props_map(final(props)@) == props_map(old(props)@).insert(key@, value@),
{
    let ghost k = key@;
    let ghost v = value@;
    let mut i: usize = 0;
    while i < props.len()
        invariant
            i <= props@.len(),
            props@ == old(props)@,
            keys_unique(props@),
            forall|j: int| 0 <= j < i ==> props@[j].0@ != key@,
        decreases props@.len() - i,
    {
        if props[i].0 == key {
            proof {
                lemma_props_map_update(props@, i as int, (key, value));
            }
            let ghost before = props@;
            props.set(i, (key, value));
            assert(keys_unique(props@)) by {
                assert forall|a: int, b: int| 0 <= a < b < props@.len() implies props@[a].0@
                    != props@[b].0@ by {
                    if a != i && b != i {
                        assert(before[a].0@ != before[b].0@);
                    }
                }
            }
            return;
        }
        i = i + 1;
    }
    let ghost before = props@;
    props.push((key, value));
    assert(props@.drop_last() =~= before);
}

/// Looks up the value of the property `key`.
pub fn get_property<'a>(props: &'a Vec<Property>, key: &String) -> (r: Option<&'a PropValue>)
    requires
        keys_unique(props@),
    ensures
        r.is_some() == props_map(props@).contains_key(key@),
        r.is_some() ==> r.unwrap()@ == props_map(props@)[key@],
{
    let mut i: usize = 0;
    while i < props.len()
        invariant
            i <= props@.len(),
            keys_unique(props@),
            forall|j: int| 0 <= j < i ==> props@[j].0@ != key@,
        decreases props@.len() - i,
    {
        if props[i].0 == *key {
            proof {
                lemma_props_map_index(props@, i as int);
            }
            return Some(&props[i].1);
        }
        i = i + 1;
    }
    proof {
        lemma_props_map_domain(props@, key@);
    }
    None
}

/// Why a build failed.
#[derive(PartialEq, Eq, Structural, Clone, Copy, Debug)]
pub enum SnapshotError {
    /// The reflection database lacks the `RunContext` enum or the member needed.
    MissingRunContext,
    /// A directory path has no last component to name its node by.
    NoFileName,
}

/// The tri-state setting that picks how scripts express where they run.
#[derive(PartialEq, Eq, Structural, Clone, Copy, Debug)]
pub enum EmitLegacyScripts {
    Unset,
    ForceOn,
    ForceOff,
}

/// The configuration that a whole build shares.
pub struct InstanceContext {
    pub path_ignore_rules: Vec<PathIgnoreRule>,
    pub emit_legacy_scripts: EmitLegacyScripts,
}

impl InstanceContext {
    /// No ignore rules, and the legacy setting unset.
    pub fn new() -> (r: InstanceContext)
        ensures
            r.path_ignore_rules@.len() == 0,
            r.emit_legacy_scripts == EmitLegacyScripts::Unset,
    {
        InstanceContext { path_ignore_rules: Vec::new(), emit_legacy_scripts: EmitLegacyScripts::Unset }
    }

    /// No ignore rules, and the legacy setting forced on (`Some(true)`),
    /// forced off (`Some(false)`) or unset (`None`).
    pub fn with_emit_legacy_scripts(emit: Option<bool>) -> (r: InstanceContext)
        ensures
            r.path_ignore_rules@.len() == 0,
            r.emit_legacy_scripts == match emit {
                Some(true) => EmitLegacyScripts::ForceOn,
                Some(false) => EmitLegacyScripts::ForceOff,
                None => EmitLegacyScripts::Unset,
            },
    {
        let emit_legacy_scripts = match emit {
            Some(true) => EmitLegacyScripts::ForceOn,
            Some(false) => EmitLegacyScripts::ForceOff,
            None => EmitLegacyScripts::Unset,
        };
        InstanceContext { path_ignore_rules: Vec::new(), emit_legacy_scripts }
    }
}

impl Default for InstanceContext {
    fn default() -> (r: InstanceContext)
        ensures
            r.path_ignore_rules@.len() == 0,
            r.emit_legacy_scripts == EmitLegacyScripts::Unset,
    {
        InstanceContext::new()
    }
}

/// What a node records of where it came from.
#[derive(Debug)]
pub struct InstanceMetadata {
    pub instigating_source: Option<FsPath>,
    pub relevant_paths: Vec<FsPath>,
    pub ignore_unknown_instances: bool,
}

pub open spec fn path_views(s: Seq<FsPath>) -> Seq<PathView> {
    s.map_values(|p: FsPath| p@)
}

/// A node of the instance tree that a build produces.
#[derive(Debug)]
pub struct InstanceSnapshot {
    pub name: String,
    pub class_name: String,
    pub properties: Vec<Property>,
    pub children: Vec<InstanceSnapshot>,
    pub metadata: InstanceMetadata,
}

impl InstanceSnapshot {
    pub open spec fn props(&self) -> Map<Seq<char>, PropView> {
        props_map(self.properties@)
    }

    pub open spec fn relevant(&self) -> Seq<PathView> {
        path_views(self.metadata.relevant_paths@)
    }

    pub open spec fn wf(&self) -> bool {
        keys_unique(self.properties@)
    }

    /// The value of the property `key`, if it is set.
    pub fn property(&self, key: &String) -> (r: Option<&PropValue>)
        requires
            self.wf(),
        ensures
            r.is_some() == self.props().contains_key(key@),
            r.is_some() ==> r.unwrap()@ == self.props()[key@],
    {
        get_property(&self.properties, key)
    }
}

} // verus!
