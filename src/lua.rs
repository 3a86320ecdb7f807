use vstd::prelude::*;
use vstd::string::StringExecFns;

use crate::meta::{overlay_ignore, overlay_props, AdjacentMetadata};
use crate::path::{with_file_name_spec, FsPath, PathView};
use crate::snapshot::{
    props_map, EmitLegacyScripts, InstanceContext, InstanceMetadata, InstanceSnapshot,
    PropValue, PropView, SnapshotError,
};
use crate::text::{
    normalize_eol, has_no_cr, lemma_crlf_and_lf_agree, lf_to_crlf, normalize_line_endings,
};

verus! {

/// Where a script runs, as its file name tells (`.server.lua`, `.client.lua`, `.lua`).
#[derive(PartialEq, Eq, Structural, Clone, Copy, Debug)]
pub enum ScriptType {
    Server,
    Client,
    Module,
}

/// The class a script of type `t` becomes.
pub open spec fn script_class(legacy: EmitLegacyScripts, t: ScriptType) -> Seq<char> {
    match t {
        ScriptType::Module => "ModuleScript"@,
        ScriptType::Server => "Script"@,
        ScriptType::Client => if legacy == EmitLegacyScripts::ForceOff {
            "Script"@
        } else {
            "LocalScript"@
        },
    }
}

/// The member of the `RunContext` enum a script of type `t` is tagged with, if any.
/// An unset legacy setting behaves as a forced-on one.
pub open spec fn run_context_member(legacy: EmitLegacyScripts, t: ScriptType) -> Option<Seq<char>> {
    match t {
        ScriptType::Module => None,
        ScriptType::Server => if legacy == EmitLegacyScripts::ForceOff {
            Some("Server"@)
        } else {
            Some("Legacy"@)
        },
        ScriptType::Client => if legacy == EmitLegacyScripts::ForceOff {
            Some("Client"@)
        } else {
            None
        },
    }
}

/// The sidecar file of a script named `name`: `<name>.meta.json` beside it.
pub open spec fn meta_path_spec(path: PathView, name: Seq<char>) -> PathView {
    with_file_name_spec(path, name + ".meta.json"@)
}

/// The properties of a fresh script node: its text, and the run context if one applies.
pub open spec fn script_props(text: Seq<char>, run_context: Option<u32>) -> Map<Seq<char>, PropView> {
    let base = Map::empty().insert("Source"@, PropView::Text(text));
    match run_context {
        Some(v) => base.insert("RunContext"@, PropView::Enum(v)),
        None => base,
    }
}

/// `s` is the node for the script at `path` named `name`, whose file holds
/// `contents`, with sidecar overrides `meta` and run context value `run_context`.
pub open spec fn is_script_node(
    s: InstanceSnapshot,
    legacy: EmitLegacyScripts,
    path: PathView,
    name: Seq<char>,
    t: ScriptType,
    contents: Seq<char>,
    meta: Option<AdjacentMetadata>,
    run_context: Option<u32>,
) -> bool {
    let props = script_props(normalize_eol(contents), run_context);
    &&& s.wf()
    &&& s.name@ == name
    &&& s.class_name@ == script_class(legacy, t)
    &&& s.children@.len() == 0
    &&& s.metadata.instigating_source.is_some()
    &&& s.metadata.instigating_source.unwrap()@ == path
    &&& s.relevant() == seq![path, meta_path_spec(path, name)]
    &&& s.props() == match meta {
        Some(m) => overlay_props(props, m.properties@),
        None => props,
    }
    &&& s.metadata.ignore_unknown_instances == match meta {
        Some(m) => overlay_ignore(false, m.ignore_unknown_instances),
        None => false,
    }
}

fn classify(legacy: EmitLegacyScripts, t: ScriptType) -> (r: (&'static str, Option<&'static str>))
    ensures
        r.0@ == script_class(legacy, t),
        r.1.is_some() == run_context_member(legacy, t).is_some(),
        r.1.is_some() ==> r.1.unwrap()@ == run_context_member(legacy, t).unwrap(),
{
    let force_off = legacy == EmitLegacyScripts::ForceOff;
    match t {
        ScriptType::Server => if force_off {
            ("Script", Some("Server"))
        } else {
            ("Script", Some("Legacy"))
        },
        ScriptType::Client => if force_off {
            ("Script", Some("Client"))
        } else {
            ("LocalScript", None)
        },
        ScriptType::Module => ("ModuleScript", None),
    }
}

/// Relies on `rbx_reflection_database::get`: looks `member` up among the items
/// of the enum `enum_name` in the reflection database in use. Which database
/// that is depends on the machine, so nothing is stated of the value.
#[verifier::external_body]
fn lookup_enum_item(enum_name: &str, member: &str) -> (r: Option<u32>) {
    let database = rbx_reflection_database::get().ok()?;
    database.enums.get(enum_name)?.items.get(member).copied()
}

/// The path of the sidecar file of the script at `path` named `name`.
pub fn meta_path(path: &FsPath, name: &String) -> (r: FsPath)
    ensures
        r@ == meta_path_spec(path@, name@),
{
    path.with_file_name(name.clone().concat(".meta.json"))
}

/// Builds the node for a script whose run context value, where one applies,
/// is already resolved to `run_context`.
pub fn build_script_snapshot(
    context: &InstanceContext,
    path: &FsPath,
    name: &String,
    script_type: ScriptType,
    contents: &str,
    run_context: Option<u32>,
    meta: &Option<AdjacentMetadata>,
) -> (r: InstanceSnapshot)
    requires
        run_context.is_some() == run_context_member(context.emit_legacy_scripts, script_type).is_some(),
    ensures
        is_script_node(
            r,
            context.emit_legacy_scripts,
            path@,
            name@,
            script_type,
            contents@,
            *meta,
            run_context,
        ),
{
    let (class_name, _) = classify(context.emit_legacy_scripts, script_type);
    let text = normalize_line_endings(contents);
    let mut properties: Vec<(String, PropValue)> = Vec::new();
    properties.push(("Source".to_owned(), PropValue::Text(text)));
    if let Some(v) = run_context {
        properties.push(("RunContext".to_owned(), PropValue::Enum(v)));
    }
    let sidecar = meta_path(path, name);
    let relevant_paths = vec![path.copy(), sidecar];
    let mut snapshot = InstanceSnapshot {
        name: name.clone(),
        class_name: class_name.to_owned(),
        properties,
        children: Vec::new(),
        metadata: InstanceMetadata {
            instigating_source: Some(path.copy()),
            relevant_paths,
            ignore_unknown_instances: false,
        },
    };
    proof {
        reveal_strlit("Source");
        reveal_strlit("RunContext");
        reveal_with_fuel(props_map, 3);
        assert("Source"@.len() != "RunContext"@.len());
        let p = snapshot.properties@;
        if run_context.is_some() {
            assert(p.drop_last().drop_last().len() == 0);
        } else {
            assert(p.drop_last().len() == 0);
        }
        assert(snapshot.props() =~= script_props(normalize_eol(contents@), run_context));
        assert(snapshot.wf());
        assert(snapshot.relevant() =~= seq![path@, meta_path_spec(path@, name@)]);
    }
    if let Some(m) = meta {
        m.apply_all(&mut snapshot);
    }
    snapshot
}

/// Builds the node for a script file: its class and run context follow from
/// `script_type` and the legacy setting of `context`, its text from `contents`
/// with line endings normalized, and the sidecar overrides `meta` are applied last.
/// It fails only where a run context applies and the reflection database lacks it.
pub fn snapshot_lua(
    context: &InstanceContext,
    path: &FsPath,
    name: &String,
    script_type: ScriptType,
    contents: &str,
    meta: &Option<AdjacentMetadata>,
) -> (r: Result<InstanceSnapshot, SnapshotError>)
    ensures
        run_context_member(context.emit_legacy_scripts, script_type).is_none() ==> r.is_ok(),
        match r {
            Ok(s) => exists|rc: Option<u32>|
                rc.is_some() == run_context_member(context.emit_legacy_scripts, script_type).is_some()
                    && #[trigger] is_script_node(
                    s,
                    context.emit_legacy_scripts,
                    path@,
                    name@,
                    script_type,
                    contents@,
                    *meta,
                    rc,
                ),
            Err(e) => e == SnapshotError::MissingRunContext && run_context_member(
                context.emit_legacy_scripts,
                script_type,
            ).is_some(),
        },
{
    let (_, member) = classify(context.emit_legacy_scripts, script_type);
    let run_context = match member {
        Some(m) => match lookup_enum_item("RunContext", m) {
            Some(v) => Some(v),
            None => {
                return Err(SnapshotError::MissingRunContext);
            },
        },
        None => None,
    };
    let s = build_script_snapshot(context, path, name, script_type, contents, run_context, meta);
    Ok(s)
}

/// Server and client scripts follow the legacy convention unless it is forced
/// off: with it off both become `Script` tagged `Server` or `Client`; otherwise
/// a server script is a `Script` tagged `Legacy` and a client script a
/// `LocalScript` with no tag. An unset setting behaves as a forced-on one.
pub proof fn lemma_classification(legacy: EmitLegacyScripts)
    ensures
        script_class(legacy, ScriptType::Server) == "Script"@,
        legacy == EmitLegacyScripts::ForceOff ==> {
            &&& run_context_member(legacy, ScriptType::Server) == Some("Server"@)
            &&& script_class(legacy, ScriptType::Client) == "Script"@
            &&& run_context_member(legacy, ScriptType::Client) == Some("Client"@)
        },
        legacy != EmitLegacyScripts::ForceOff ==> {
            &&& run_context_member(legacy, ScriptType::Server) == Some("Legacy"@)
            &&& script_class(legacy, ScriptType::Client) == "LocalScript"@
            &&& run_context_member(legacy, ScriptType::Client).is_none()
        },
        script_class(EmitLegacyScripts::Unset, ScriptType::Server) == script_class(
            EmitLegacyScripts::ForceOn,
            ScriptType::Server,
        ),
        script_class(EmitLegacyScripts::Unset, ScriptType::Client) == script_class(
            EmitLegacyScripts::ForceOn,
            ScriptType::Client,
        ),
        run_context_member(EmitLegacyScripts::Unset, ScriptType::Server) == run_context_member(
            EmitLegacyScripts::ForceOn,
            ScriptType::Server,
        ),
        run_context_member(EmitLegacyScripts::Unset, ScriptType::Client) == run_context_member(
            EmitLegacyScripts::ForceOn,
            ScriptType::Client,
        ),
{
}

/// A module script is a `ModuleScript` with no run context, whatever the legacy setting.
pub proof fn lemma_module_ignores_legacy(a: EmitLegacyScripts, b: EmitLegacyScripts)
    ensures
        script_class(a, ScriptType::Module) == "ModuleScript"@,
        script_class(a, ScriptType::Module) == script_class(b, ScriptType::Module),
        run_context_member(a, ScriptType::Module).is_none(),
{
}

/// A script node always lists the script and its sidecar path as relevant,
/// whether or not a sidecar was found.
pub proof fn lemma_script_relevant_paths(
    s: InstanceSnapshot,
    legacy: EmitLegacyScripts,
    path: PathView,
    name: Seq<char>,
    t: ScriptType,
    contents: Seq<char>,
    meta: Option<AdjacentMetadata>,
    rc: Option<u32>,
)
    requires
        is_script_node(s, legacy, path, name, t, contents, meta, rc),
    ensures
        s.relevant().contains(path),
        s.relevant().contains(meta_path_spec(path, name)),
        s.relevant().len() == 2,
{
    assert(s.relevant()[0] == path);
    assert(s.relevant()[1] == meta_path_spec(path, name));
}

/// A property that the sidecar sets has, on the built node, the value the
/// sidecar gives it.
pub proof fn lemma_sidecar_property_wins(
    s: InstanceSnapshot,
    legacy: EmitLegacyScripts,
    path: PathView,
    name: Seq<char>,
    t: ScriptType,
    contents: Seq<char>,
    m: AdjacentMetadata,
    rc: Option<u32>,
    key: Seq<char>,
)
    requires
        is_script_node(s, legacy, path, name, t, contents, Some(m), rc),
        props_map(m.properties@).contains_key(key),
    ensures
        s.props().contains_key(key),
        s.props()[key] == props_map(m.properties@)[key],
{
}

/// The same text saved once with CR LF and once with LF line endings gives
/// script nodes with identical properties.
pub proof fn lemma_line_endings_do_not_matter(
    s1: InstanceSnapshot,
    s2: InstanceSnapshot,
    legacy: EmitLegacyScripts,
    path: PathView,
    name: Seq<char>,
    t: ScriptType,
    text: Seq<char>,
    meta: Option<AdjacentMetadata>,
    rc: Option<u32>,
)
    requires
        has_no_cr(text),
        is_script_node(s1, legacy, path, name, t, lf_to_crlf(text), meta, rc),
        is_script_node(s2, legacy, path, name, t, text, meta, rc),
    ensures
        s1.props() == s2.props(),
        meta.is_none() ==> s1.props()["Source"@] == PropView::Text(text),
{
    lemma_crlf_and_lf_agree(text);
    reveal_strlit("Source");
    reveal_strlit("RunContext");
    assert("Source"@.len() != "RunContext"@.len());
}

} // verus!
