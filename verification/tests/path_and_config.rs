use shader_reload::config::Config;
use shader_reload::config::ConfigError;
use shader_reload::config::config_from_fields;
use shader_reload::config::parse_config;
use shader_reload::path::AssetPath;

fn p(s: &str) -> AssetPath {
    AssetPath::new(s.as_bytes().to_vec())
}

fn bytes(s: &str) -> Vec<u8> {
    s.as_bytes().to_vec()
}

#[test]
fn resolve_relative_path() {
    let root = p("/assets");
    let rel = p("shaders/main.glsl");
    let resolved = rel.resolve_against(&root);
    assert_eq!(resolved.as_bytes().as_slice(), b"/assets/shaders/main.glsl");
    assert_eq!(resolved.len(), b"/assets/shaders/main.glsl".len());
}

#[test]
fn resolve_absolute_path_is_kept() {
    let root = p("/assets");
    let abs = p("/elsewhere/x.glsl");
    let resolved = abs.resolve_against(&root);
    assert_eq!(resolved.as_bytes().as_slice(), b"/elsewhere/x.glsl");
}

#[test]
fn path_equality() {
    assert!(p("/a/b").same_as(&p("/a/b")));
    assert!(!p("/a/b").same_as(&p("/a/c")));
    assert!(!p("/a").same_as(&p("/a/b")));
}

#[test]
fn config_from_fields_resolves() {
    let root = p("/assets");
    let c = config_from_fields(p("s.glsl"), 7, 2, &root).unwrap();
    assert_eq!(c.shader_path.as_bytes().as_slice(), b"/assets/s.glsl");
    assert_eq!(c.vertices, 7);
    assert_eq!(c.instances, 2);
}

#[test]
fn parse_config_accepts_full_document() {
    let doc = bytes(
        r#"{"path": "shaders/main.glsl", "parameters": {"k": 1}, "vertices": 3, "instances": 2, "fov": 1.5}"#,
    );
    let root = p("/assets");
    let c: Config = parse_config(&doc, &root).unwrap();
    assert_eq!(c.shader_path.as_bytes().as_slice(), b"/assets/shaders/main.glsl");
    assert_eq!(c.vertices, 3);
    assert_eq!(c.instances, 2);
}

#[test]
fn parse_config_rejects_malformed_json() {
    let root = p("/assets");
    assert!(matches!(parse_config(&bytes("not json"), &root), Err(ConfigError::Parse)));
}

#[test]
fn parse_config_rejects_unknown_field() {
    let doc = bytes(
        r#"{"path": "s", "parameters": {}, "vertices": 1, "instances": 1, "fov": 1.0, "extra": 0}"#,
    );
    assert!(matches!(parse_config(&doc, &p("/assets")), Err(ConfigError::Schema)));
}

#[test]
fn parse_config_rejects_missing_field() {
    let doc = bytes(r#"{"path": "s", "parameters": {}, "vertices": 1, "instances": 1, "other": 1}"#);
    assert!(matches!(parse_config(&doc, &p("/assets")), Err(ConfigError::Schema)));
}

#[test]
fn parse_config_rejects_non_integer_vertices() {
    let doc = bytes(
        r#"{"path": "s", "parameters": {}, "vertices": -1, "instances": 1, "fov": 1.0}"#,
    );
    assert!(matches!(parse_config(&doc, &p("/assets")), Err(ConfigError::Schema)));
    let doc = bytes(
        r#"{"path": "s", "parameters": {}, "vertices": 1.5, "instances": 1, "fov": 1.0}"#,
    );
    assert!(matches!(parse_config(&doc, &p("/assets")), Err(ConfigError::Schema)));
}

#[test]
fn parse_config_rejects_bad_fov_and_parameters() {
    let doc = bytes(
        r#"{"path": "s", "parameters": {}, "vertices": 1, "instances": 1, "fov": "wide"}"#,
    );
    assert!(matches!(parse_config(&doc, &p("/assets")), Err(ConfigError::Schema)));
    let doc = bytes(
        r#"{"path": "s", "parameters": [], "vertices": 1, "instances": 1, "fov": 1.0}"#,
    );
    assert!(matches!(parse_config(&doc, &p("/assets")), Err(ConfigError::Schema)));
}

#[test]
fn parse_config_rejects_non_object() {
    assert!(matches!(parse_config(&bytes("[1, 2]"), &p("/assets")), Err(ConfigError::Schema)));
}
