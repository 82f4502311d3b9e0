use shader_reload::library::ManifestError;
use shader_reload::library::Registry;
use shader_reload::library::parse_manifest;
use shader_reload::library::resolve_entries;
use shader_reload::path::AssetPath;

fn p(s: &str) -> AssetPath {
    AssetPath::new(s.as_bytes().to_vec())
}

fn bytes(s: &str) -> Vec<u8> {
    s.as_bytes().to_vec()
}

#[test]
fn manifest_parses_ordered_entries() {
    let doc = bytes(r#"["noise.glsl", "sdf.glsl"]"#);
    let entries = parse_manifest(&doc).unwrap();
    assert_eq!(entries.len(), 2);
    assert_eq!(entries[0].as_slice(), b"noise.glsl");
    assert_eq!(entries[1].as_slice(), b"sdf.glsl");
}

#[test]
fn manifest_empty_array_is_empty_list() {
    let entries = parse_manifest(&bytes("[]")).unwrap();
    assert!(entries.is_empty());
}

#[test]
fn manifest_rejects_non_array_of_strings() {
    assert_eq!(parse_manifest(&bytes("{}")), Err(ManifestError::Parse));
    assert_eq!(parse_manifest(&bytes("[1, 2]")), Err(ManifestError::Parse));
    assert_eq!(parse_manifest(&bytes("nonsense")), Err(ManifestError::Parse));
}

#[test]
fn entries_resolve_under_library_root() {
    let doc = bytes(r#"["noise.glsl"]"#);
    let entries = parse_manifest(&doc).unwrap();
    let library_root = p("/assets/shader_library");
    let resolved = resolve_entries(&entries, &library_root);
    assert_eq!(resolved.len(), 1);
    assert_eq!(resolved[0].name.as_slice(), b"noise.glsl");
    assert_eq!(resolved[0].path.as_bytes().as_slice(), b"/assets/shader_library/noise.glsl");
}

#[test]
fn registry_add_and_get() {
    let mut reg = Registry::new();
    assert_eq!(reg.len(), 0);
    reg.add(bytes("noise.glsl"), bytes("float n() { return 0.0; }"));
    assert_eq!(reg.len(), 1);
    assert_eq!(reg.get(&bytes("noise.glsl")).unwrap().as_slice(), b"float n() { return 0.0; }");
    assert!(reg.get(&bytes("sdf.glsl")).is_none());
}

#[test]
fn registry_overwrite_keeps_one_entry() {
    let mut reg = Registry::new();
    reg.add(bytes("noise.glsl"), bytes("old"));
    reg.add(bytes("noise.glsl"), bytes("new"));
    assert_eq!(reg.len(), 1);
    assert_eq!(reg.get(&bytes("noise.glsl")).unwrap().as_slice(), b"new");
}

#[test]
fn registry_same_content_twice_is_no_op() {
    let mut reg = Registry::new();
    reg.add(bytes("a"), bytes("body"));
    reg.add(bytes("a"), bytes("body"));
    assert_eq!(reg.len(), 1);
    assert_eq!(reg.get(&bytes("a")).unwrap().as_slice(), b"body");
}
