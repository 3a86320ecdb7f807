use std::path::{Component, Path};

use memofs::{InMemoryFs, Vfs, VfsSnapshot};
use snapshot_middleware::lua::{build_script_snapshot, meta_path};
use snapshot_middleware::meta::AdjacentMetadata;
use snapshot_middleware::path::FsPath;
use snapshot_middleware::snapshot::{InstanceContext, InstanceSnapshot, PropValue};
use snapshot_middleware::text::normalize_line_endings;
use snapshot_middleware::{snapshot_lua, ScriptType};

fn fs_path(p: &Path) -> FsPath {
    let mut absolute = false;
    let mut components = Vec::new();
    for c in p.components() {
        match c {
            Component::RootDir => absolute = true,
            Component::Normal(s) => components.push(s.to_str().unwrap().to_string()),
            _ => {}
        }
    }
    FsPath::new(absolute, components)
}

fn std_path(p: &FsPath) -> std::path::PathBuf {
    let mut out = std::path::PathBuf::from(if p.absolute { "/" } else { "" });
    for c in &p.components {
        out.push(c);
    }
    out
}

fn parse_sidecar(bytes: &[u8]) -> AdjacentMetadata {
    let value: serde_json::Value = serde_json::from_slice(bytes).unwrap();
    let mut meta = AdjacentMetadata::new();
    meta.ignore_unknown_instances = value.get("ignoreUnknownInstances").and_then(|v| v.as_bool());
    if let Some(props) = value.get("properties").and_then(|v| v.as_object()) {
        for (key, v) in props {
            let value = match v {
                serde_json::Value::Bool(b) => PropValue::Bool(*b),
                serde_json::Value::String(s) => PropValue::Text(s.clone()),
                other => panic!("unexpected value {}", other),
            };
            meta.properties.push((key.clone(), value));
        }
    }
    meta
}

fn snapshot(
    context: &InstanceContext,
    vfs: &Vfs,
    path: &str,
    name: &str,
    script_type: ScriptType,
) -> InstanceSnapshot {
    let path = fs_path(Path::new(path));
    let name = name.to_string();
    let contents = vfs.read_to_string(std_path(&path)).unwrap();
    let sidecar = match vfs.read(std_path(&meta_path(&path, &name))) {
        Ok(bytes) => Some(parse_sidecar(&bytes)),
        Err(e) if e.kind() == std::io::ErrorKind::NotFound => None,
        Err(e) => panic!("{}", e),
    };
    snapshot_lua(context, &path, &name, script_type, contents.as_str(), &sidecar).unwrap()
}

fn prop<'a>(s: &'a InstanceSnapshot, key: &str) -> Option<&'a PropValue> {
    s.property(&key.to_string())
}

fn run_context(member: &str) -> u32 {
    let database = rbx_reflection_database::get().unwrap();
    database.enums.get("RunContext").unwrap().items[member]
}

fn vfs_with(files: &[(&str, &str)]) -> Vfs {
    let mut imfs = InMemoryFs::new();
    for (path, contents) in files {
        imfs.load_snapshot(*path, VfsSnapshot::file(*contents)).unwrap();
    }
    Vfs::new(imfs)
}

fn check_common(s: &InstanceSnapshot, name: &str, script: &str, meta: &str) {
    assert_eq!(s.name, name);
    assert_eq!(prop(s, "Source"), Some(&PropValue::Text("Hello there!".to_string())));
    assert!(s.children.is_empty());
    assert_eq!(s.metadata.instigating_source, Some(fs_path(Path::new(script))));
    assert_eq!(
        s.metadata.relevant_paths,
        vec![fs_path(Path::new(script)), fs_path(Path::new(meta))]
    );
}

const IGNORE_UNKNOWN: &str = r#"
    {
        "ignoreUnknownInstances": true
    }
"#;

const DISABLED: &str = r#"
    {
        "properties": {
            "Disabled": true
        }
    }
"#;

#[test]
fn class_module_from_vfs() {
    let vfs = vfs_with(&[("/foo.lua", "Hello there!")]);
    let context = InstanceContext::with_emit_legacy_scripts(Some(true));
    let s = snapshot(&context, &vfs, "/foo.lua", "foo", ScriptType::Module);
    check_common(&s, "foo", "/foo.lua", "/foo.meta.json");
    assert_eq!(s.class_name, "ModuleScript");
    assert_eq!(prop(&s, "RunContext"), None);
    assert_eq!(s.properties.len(), 1);
    assert!(!s.metadata.ignore_unknown_instances);
}

#[test]
fn runcontext_module_from_vfs() {
    let vfs = vfs_with(&[("/foo.lua", "Hello there!")]);
    let context = InstanceContext::with_emit_legacy_scripts(Some(false));
    let s = snapshot(&context, &vfs, "/foo.lua", "foo", ScriptType::Module);
    check_common(&s, "foo", "/foo.lua", "/foo.meta.json");
    assert_eq!(s.class_name, "ModuleScript");
    assert_eq!(prop(&s, "RunContext"), None);
    assert_eq!(s.properties.len(), 1);
}

#[test]
fn class_server_from_vfs() {
    let vfs = vfs_with(&[("/foo.server.lua", "Hello there!")]);
    let context = InstanceContext::with_emit_legacy_scripts(Some(true));
    let s = snapshot(&context, &vfs, "/foo.server.lua", "foo", ScriptType::Server);
    check_common(&s, "foo", "/foo.server.lua", "/foo.meta.json");
    assert_eq!(s.class_name, "Script");
    assert_eq!(prop(&s, "RunContext"), Some(&PropValue::Enum(run_context("Legacy"))));
}

#[test]
fn runcontext_server_from_vfs() {
    let vfs = vfs_with(&[("/foo.server.lua", "Hello there!")]);
    let context = InstanceContext::with_emit_legacy_scripts(Some(false));
    let s = snapshot(&context, &vfs, "/foo.server.lua", "foo", ScriptType::Server);
    check_common(&s, "foo", "/foo.server.lua", "/foo.meta.json");
    assert_eq!(s.class_name, "Script");
    assert_eq!(prop(&s, "RunContext"), Some(&PropValue::Enum(run_context("Server"))));
}

#[test]
fn class_client_from_vfs() {
    let vfs = vfs_with(&[("/foo.client.lua", "Hello there!")]);
    let context = InstanceContext::with_emit_legacy_scripts(Some(true));
    let s = snapshot(&context, &vfs, "/foo.client.lua", "foo", ScriptType::Client);
    check_common(&s, "foo", "/foo.client.lua", "/foo.meta.json");
    assert_eq!(s.class_name, "LocalScript");
    assert_eq!(prop(&s, "RunContext"), None);
}

#[test]
fn runcontext_client_from_vfs() {
    let vfs = vfs_with(&[("/foo.client.lua", "Hello there!")]);
    let context = InstanceContext::with_emit_legacy_scripts(Some(false));
    let s = snapshot(&context, &vfs, "/foo.client.lua", "foo", ScriptType::Client);
    check_common(&s, "foo", "/foo.client.lua", "/foo.meta.json");
    assert_eq!(s.class_name, "Script");
    assert_eq!(prop(&s, "RunContext"), Some(&PropValue::Enum(run_context("Client"))));
}

#[test]
fn class_module_with_meta() {
    let vfs = vfs_with(&[("/foo.lua", "Hello there!"), ("/foo.meta.json", IGNORE_UNKNOWN)]);
    let context = InstanceContext::with_emit_legacy_scripts(Some(true));
    let s = snapshot(&context, &vfs, "/foo.lua", "foo", ScriptType::Module);
    check_common(&s, "foo", "/foo.lua", "/foo.meta.json");
    assert_eq!(s.class_name, "ModuleScript");
    assert!(s.metadata.ignore_unknown_instances);
}

#[test]
fn runcontext_module_with_meta() {
    let vfs = vfs_with(&[("/foo.lua", "Hello there!"), ("/foo.meta.json", IGNORE_UNKNOWN)]);
    let context = InstanceContext::with_emit_legacy_scripts(Some(false));
    let s = snapshot(&context, &vfs, "/foo.lua", "foo", ScriptType::Module);
    check_common(&s, "foo", "/foo.lua", "/foo.meta.json");
    assert_eq!(s.class_name, "ModuleScript");
    assert_eq!(prop(&s, "RunContext"), None);
    assert!(s.metadata.ignore_unknown_instances);
}

#[test]
fn class_script_with_meta() {
    let vfs =
        vfs_with(&[("/foo.server.lua", "Hello there!"), ("/foo.meta.json", IGNORE_UNKNOWN)]);
    let context = InstanceContext::with_emit_legacy_scripts(Some(true));
    let s = snapshot(&context, &vfs, "/foo.server.lua", "foo", ScriptType::Server);
    check_common(&s, "foo", "/foo.server.lua", "/foo.meta.json");
    assert_eq!(s.class_name, "Script");
    assert_eq!(prop(&s, "RunContext"), Some(&PropValue::Enum(run_context("Legacy"))));
    assert!(s.metadata.ignore_unknown_instances);
}

#[test]
fn runcontext_script_with_meta() {
    let vfs =
        vfs_with(&[("/foo.server.lua", "Hello there!"), ("/foo.meta.json", IGNORE_UNKNOWN)]);
    let context = InstanceContext::with_emit_legacy_scripts(Some(false));
    let s = snapshot(&context, &vfs, "/foo.server.lua", "foo", ScriptType::Server);
    check_common(&s, "foo", "/foo.server.lua", "/foo.meta.json");
    assert_eq!(s.class_name, "Script");
    assert_eq!(prop(&s, "RunContext"), Some(&PropValue::Enum(run_context("Server"))));
    assert!(s.metadata.ignore_unknown_instances);
}

#[test]
fn class_script_disabled() {
    let vfs = vfs_with(&[("/bar.server.lua", "Hello there!"), ("/bar.meta.json", DISABLED)]);
    let context = InstanceContext::with_emit_legacy_scripts(Some(true));
    let s = snapshot(&context, &vfs, "/bar.server.lua", "bar", ScriptType::Server);
    check_common(&s, "bar", "/bar.server.lua", "/bar.meta.json");
    assert_eq!(s.class_name, "Script");
    assert_eq!(prop(&s, "Disabled"), Some(&PropValue::Bool(true)));
    assert_eq!(prop(&s, "RunContext"), Some(&PropValue::Enum(run_context("Legacy"))));
}

#[test]
fn runcontext_script_disabled() {
    let vfs = vfs_with(&[("/bar.server.lua", "Hello there!"), ("/bar.meta.json", DISABLED)]);
    let context = InstanceContext::with_emit_legacy_scripts(Some(false));
    let s = snapshot(&context, &vfs, "/bar.server.lua", "bar", ScriptType::Server);
    check_common(&s, "bar", "/bar.server.lua", "/bar.meta.json");
    assert_eq!(s.class_name, "Script");
    assert_eq!(prop(&s, "Disabled"), Some(&PropValue::Bool(true)));
    assert_eq!(prop(&s, "RunContext"), Some(&PropValue::Enum(run_context("Server"))));
}

#[test]
fn unset_legacy_setting_acts_as_forced_on() {
    let vfs = vfs_with(&[("/foo.client.lua", "Hello there!"), ("/foo.server.lua", "Hello there!")]);
    let context = InstanceContext::new();
    let c = snapshot(&context, &vfs, "/foo.client.lua", "foo", ScriptType::Client);
    assert_eq!(c.class_name, "LocalScript");
    assert_eq!(prop(&c, "RunContext"), None);
    let s = snapshot(&context, &vfs, "/foo.server.lua", "foo", ScriptType::Server);
    assert_eq!(s.class_name, "Script");
    assert_eq!(prop(&s, "RunContext"), Some(&PropValue::Enum(run_context("Legacy"))));
}

#[test]
fn crlf_and_lf_give_same_source() {
    let crlf = vfs_with(&[("/a.lua", "local x = 1\r\nreturn x\r\n")]);
    let lf = vfs_with(&[("/a.lua", "local x = 1\nreturn x\n")]);
    let context = InstanceContext::new();
    let s1 = snapshot(&context, &crlf, "/a.lua", "a", ScriptType::Module);
    let s2 = snapshot(&context, &lf, "/a.lua", "a", ScriptType::Module);
    assert_eq!(prop(&s1, "Source"), prop(&s2, "Source"));
    assert_eq!(
        prop(&s1, "Source"),
        Some(&PropValue::Text("local x = 1\nreturn x\n".to_string()))
    );
}

#[test]
fn normalize_turns_cr_into_lf() {
    assert_eq!(normalize_line_endings("bar\r\nfoo\r\n\r\n"), "bar\nfoo\n\n");
    assert_eq!(normalize_line_endings("a\rb\r\r\nc"), "a\nb\n\nc");
    assert_eq!(normalize_line_endings(""), "");
}

#[test]
fn cr_and_lf_give_same_source() {
    let cr = vfs_with(&[("/a.lua", "local x = 1\rreturn x\r")]);
    let lf = vfs_with(&[("/a.lua", "local x = 1\nreturn x\n")]);
    let context = InstanceContext::new();
    let s1 = snapshot(&context, &cr, "/a.lua", "a", ScriptType::Module);
    let s2 = snapshot(&context, &lf, "/a.lua", "a", ScriptType::Module);
    assert_eq!(prop(&s1, "Source"), prop(&s2, "Source"));
}

#[test]
fn sidecar_overrides_existing_property() {
    let context = InstanceContext::with_emit_legacy_scripts(Some(false));
    let mut meta = AdjacentMetadata::new();
    meta.properties.push(("RunContext".to_string(), PropValue::Enum(7)));
    meta.properties.push(("Disabled".to_string(), PropValue::Bool(false)));
    meta.properties.push(("Disabled".to_string(), PropValue::Bool(true)));
    let s = build_script_snapshot(
        &context,
        &fs_path(Path::new("/x/s.server.lua")),
        &"s".to_string(),
        ScriptType::Server,
        "print(1)",
        Some(run_context("Server")),
        &Some(meta),
    );
    assert_eq!(prop(&s, "RunContext"), Some(&PropValue::Enum(7)));
    assert_eq!(prop(&s, "Disabled"), Some(&PropValue::Bool(true)));
    assert_eq!(s.properties.len(), 3);
    assert_eq!(meta_path(&fs_path(Path::new("/x/s.server.lua")), &"s".to_string()), fs_path(Path::new("/x/s.meta.json")));
}
