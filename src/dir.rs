use vstd::prelude::*;

use crate::ignore::PathIgnoreRule;
use crate::path::{FsPath, PathView};
use crate::snapshot::{
    path_views, InstanceContext, InstanceMetadata, InstanceSnapshot, Property, SnapshotError,
};

verus! {

/// `path` passes every rule.
pub open spec fn rules_pass(rules: Seq<PathIgnoreRule>, path: PathView) -> bool {
    forall|i: int| 0 <= i < rules.len() ==> #[trigger] rules[i].passes_spec(path)
}

/// The children that a directory keeps: the nodes built, in order, leaving out
/// the entries that produced none.
pub open spec fn kept_children(built: Seq<Option<InstanceSnapshot>>) -> Seq<InstanceSnapshot> {
    built.filter_map(|o: Option<InstanceSnapshot>| o)
}

/// An empty directory, or one whose entries all built nothing, gets no children.
pub proof fn lemma_empty_directory(built: Seq<Option<InstanceSnapshot>>)
    requires
        forall|i: int| 0 <= i < built.len() ==> (#[trigger] built[i]).is_none(),
    ensures
        kept_children(built).len() == 0,
    decreases built.len(),
{
    if built.len() > 0 {
        assert forall|i: int| 0 <= i < built.drop_last().len() implies (
        #[trigger] built.drop_last()[i]).is_none() by {
            assert(built.drop_last()[i] == built[i]);
        }
        lemma_empty_directory(built.drop_last());
        assert(built.last().is_none());
    }
}

/// Whether `path` passes every ignore rule of `context`.
pub fn passes_filter_rules(context: &InstanceContext, path: &FsPath) -> (r: bool)
    ensures
        r == rules_pass(context.path_ignore_rules@, path@),
{
    let rules = &context.path_ignore_rules;
    let mut i: usize = 0;
    while i < rules.len()
        invariant
            i <= rules@.len(),
            rules@ == context.path_ignore_rules@,
            forall|j: int| 0 <= j < i ==> #[trigger] rules@[j].passes_spec(path@),
        decreases rules@.len() - i,
    {
        if !rules[i].passes(path) {
            assert(!rules_pass(context.path_ignore_rules@, path@)) by {
                assert(!context.path_ignore_rules@[i as int].passes_spec(path@));
            }
            return false;
        }
        i = i + 1;
    }
    true
}

/// The entries of a directory listing that every ignore rule of `context`
/// passes, in listing order.
pub fn passing_entries(context: &InstanceContext, entries: &Vec<FsPath>) -> (r: Vec<FsPath>)
    ensures
        path_views(r@) == path_views(entries@).filter(
            |p: PathView| rules_pass(context.path_ignore_rules@, p),
        ),
{
    let ghost pred = |p: PathView| rules_pass(context.path_ignore_rules@, p);
    let mut r: Vec<FsPath> = Vec::new();
    let mut i: usize = 0;
    while i < entries.len()
        invariant
            i <= entries@.len(),
            pred == (|p: PathView| rules_pass(context.path_ignore_rules@, p)),
            path_views(r@) == path_views(entries@.take(i as int)).filter(pred),
        decreases entries@.len() - i,
    {
        let ghost before = r@;
        let keep = passes_filter_rules(context, &entries[i]);
        if keep {
            r.push(entries[i].copy());
            assert(path_views(r@) =~= path_views(before).push(entries@[i as int]@));
        }
        proof {
            let s0 = path_views(entries@.take(i as int));
            let e = entries@[i as int]@;
            assert(path_views(entries@.take(i + 1)) =~= s0.push(e));
            assert(pred(e) == keep);
            s0.lemma_filter_push(e, pred);
        }
        i = i + 1;
    }
    proof {
        assert(entries@.take(entries@.len() as int) =~= entries@);
    }
    r
}

/// Builds the `Folder` node for the directory at `path` from what each of its
/// passing entries built, in listing order. It fails only where `path` has no
/// last component to name the node by.
pub fn snapshot_dir(
    context: &InstanceContext,
    path: &FsPath,
    built: Vec<Option<InstanceSnapshot>>,
) -> (r: Result<InstanceSnapshot, SnapshotError>)
    ensures
        r.is_err() <==> path@.components.len() == 0,
        r.is_err() ==> r == Err::<InstanceSnapshot, SnapshotError>(SnapshotError::NoFileName),
        r matches Ok(s) ==> {
            &&& s.wf()
            &&& s.name@ == path@.components.last()
            &&& s.class_name@ == "Folder"@
            &&& s.props().dom().len() == 0
            &&& s.children@ == kept_children(built@)
            &&& s.metadata.instigating_source.is_some()
            &&& s.metadata.instigating_source.unwrap()@ == path@
            &&& s.relevant() == seq![path@]
            &&& !s.metadata.ignore_unknown_instances
        },
{
    let name = match path.file_name() {
        Some(n) => n,
        None => {
            return Err(SnapshotError::NoFileName);
        },
    };
    let n = built.len();
    let ghost all = built@;
    let ghost f = |o: Option<InstanceSnapshot>| o;
    let mut rest = built;
    let mut children: Vec<InstanceSnapshot> = Vec::new();
    let mut k: usize = 0;
    while rest.len() > 0
        invariant
            k <= all.len(),
            all.len() == n,
            rest@ == all.skip(k as int),
            f == (|o: Option<InstanceSnapshot>| o),
            children@ == all.take(k as int).filter_map(f),
        decreases rest@.len(),
    {
        let item = rest.remove(0);
        proof {
            assert(all.take(k + 1).drop_last() =~= all.take(k as int));
            assert(all.take(k + 1).last() == item);
        }
        if let Some(child) = item {
            children.push(child);
        }
        k = k + 1;
        assert(rest@ =~= all.skip(k as int));
        assert(children@ =~= all.take(k as int).filter_map(f));
    }
    proof {
        assert(all.take(k as int) =~= all);
    }
    let properties: Vec<Property> = Vec::new();
    let s = InstanceSnapshot {
        name,
        class_name: "Folder".to_owned(),
        properties,
        children,
        metadata: InstanceMetadata {
            instigating_source: Some(path.copy()),
            relevant_paths: vec![path.copy()],
            ignore_unknown_instances: false,
        },
    };
    proof {
        assert(s.relevant() =~= seq![path@]);
        assert(s.props() =~= Map::empty());
    }
    Ok(s)
}

} // verus!
