use vstd::prelude::*;

use crate::snapshot::{keys_unique, props_map, set_property, InstanceSnapshot, PropView, Property};

verus! {

/// The overrides that a sidecar `<name>.meta.json` file carries, already
/// parsed into typed values.
pub struct AdjacentMetadata {
    pub ignore_unknown_instances: Option<bool>,
    pub properties: Vec<Property>,
}

/// The property map after the overrides `overlay` are laid over `base`.
pub open spec fn overlay_props(
    base: Map<Seq<char>, PropView>,
    overlay: Seq<Property>,
) -> Map<Seq<char>, PropView> {
    base.union_prefer_right(props_map(overlay))
}

/// The "ignore unknown instances" flag after an overlay.
pub open spec fn overlay_ignore(old_flag: bool, overlay: Option<bool>) -> bool {
    match overlay {
        Some(b) => b,
        None => old_flag,
    }
}

impl AdjacentMetadata {
    pub fn new() -> (r: AdjacentMetadata)
        ensures
            r.ignore_unknown_instances.is_none(),
            r.properties@.len() == 0,
    {
        AdjacentMetadata { ignore_unknown_instances: None, properties: Vec::new() }
    }

    /// Applies every override onto `snapshot`: each property is set (replacing
    /// a value already there) and the flag is set where the sidecar gives it.
    pub fn apply_all(&self, snapshot: &mut InstanceSnapshot)
        requires
            old(snapshot).wf(),
        ensures
            final(snapshot).wf(),
            final(snapshot).props() == overlay_props(old(snapshot).props(), self.properties@),
            final(snapshot).metadata.ignore_unknown_instances == overlay_ignore(
                old(snapshot).metadata.ignore_unknown_instances,
                self.ignore_unknown_instances,
            ),
            final(snapshot).name == old(snapshot).name,
            final(snapshot).class_name == old(snapshot).class_name,
            final(snapshot).children == old(snapshot).children,
            final(snapshot).metadata.instigating_source == old(
                snapshot,
            ).metadata.instigating_source,
            final(snapshot).metadata.relevant_paths == old(snapshot).metadata.relevant_paths,
    {
        if let Some(flag) = self.ignore_unknown_instances {
            snapshot.metadata.ignore_unknown_instances = flag;
        }
        let ghost base = props_map(snapshot.properties@);
        let ghost overlay = self.properties@;
        let mut i: usize = 0;
        let n = self.properties.len();
        proof {
            assert(overlay_props(base, overlay.subrange(0, 0)) =~= base);
        }
        while i < n
            invariant
                n == overlay.len(),
                i <= n,
                overlay == self.properties@,
                keys_unique(snapshot.properties@),
                props_map(snapshot.properties@) == overlay_props(base, overlay.subrange(0, i as int)),
                snapshot.name == old(snapshot).name,
                snapshot.class_name == old(snapshot).class_name,
                snapshot.children == old(snapshot).children,
                snapshot.metadata.instigating_source == old(snapshot).metadata.instigating_source,
                snapshot.metadata.relevant_paths == old(snapshot).metadata.relevant_paths,
                snapshot.metadata.ignore_unknown_instances == overlay_ignore(
                    old(snapshot).metadata.ignore_unknown_instances,
                    self.ignore_unknown_instances,
                ),
            decreases n - i,
        {
            let key = self.properties[i].0.clone();
            let value = self.properties[i].1.copy();
            proof {
                assert(overlay.subrange(0, i + 1).drop_last() =~= overlay.subrange(0, i as int));
            }
            set_property(&mut snapshot.properties, key, value);
            i = i + 1;
            proof {
                assert(overlay_props(base, overlay.subrange(0, i as int)) =~= props_map(
                    snapshot.properties@,
                ));
            }
        }
        proof {
            assert(overlay.subrange(0, n as int) =~= overlay);
        }
    }
}

} // verus!
