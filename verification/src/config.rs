use vstd::prelude::*;

use crate::jsonio;
use crate::path::AssetPath;
use crate::path::resolve_spec;

verus! {

/// The declarative description the reload pipeline works from.  The render
/// parameters and the field of view are opaque to the reload logic and stay
/// with the host driver; the controller only reads the fields below.
pub struct Config {
    /// The target shader path, always resolved against the assets root.
    pub shader_path: AssetPath,
    pub vertices: usize,
    pub instances: usize,
}

/// The mathematical image of a `Config`.
pub ghost struct ConfigV {
    pub shader_path: Seq<u8>,
    pub vertices: usize,
    pub instances: usize,
}

impl View for Config {
    type V = ConfigV;

    open spec fn view(&self) -> ConfigV {
        ConfigV { shader_path: self.shader_path@, vertices: self.vertices, instances: self.instances }
    }
}

impl Clone for Config {
    fn clone(&self) -> (r: Self)
        ensures
            r@ == self@,
    {
        Config {
            shader_path: self.shader_path.clone(),
            vertices: self.vertices,
            instances: self.instances,
        }
    }
}

#[derive(Clone, Copy, Debug, PartialEq, Eq, Structural)]
pub enum ConfigError {
    /// The document is not well-formed JSON.
    Parse,
    /// The document is JSON but not an object holding exactly the known
    /// fields with their expected kinds.
    Schema,
    /// A geometry count does not fit the machine's size type.
    Range,
}

/// The configuration a document with the given raw fields resolves to.
pub open spec fn config_of_fields(
    path_raw: Seq<u8>,
    vertices: u64,
    instances: u64,
    root: Seq<u8>,
) -> ConfigV {
    ConfigV {
        shader_path: resolve_spec(root, path_raw),
        vertices: vertices as usize,
        instances: instances as usize,
    }
}

/// Builds the configuration from the plain field values a parsed document
/// carries: the shader path is resolved against the assets root, and the
/// geometry counts must fit the machine's size type.
pub fn config_from_fields(path_raw: AssetPath, vertices: u64, instances: u64, root: &AssetPath) -> (r:
    Result<Config, ConfigError>)
    ensures
        r is Ok <==> (vertices <= usize::MAX && instances <= usize::MAX),
        r matches Ok(c) ==> c@ == config_of_fields(path_raw@, vertices, instances, root@),
        r is Err ==> r == Err::<Config, ConfigError>(ConfigError::Range),
{
    if vertices > usize::MAX as u64 || instances > usize::MAX as u64 {
        return Err(ConfigError::Range);
    }
    Ok(
        Config {
            shader_path: path_raw.resolve_against(root),
            vertices: vertices as usize,
            instances: instances as usize,
        },
    )
}

/// Parses a configuration document.  serde_json decides what the bytes
/// hold; the contract pins the result to exactly that: a configuration is
/// produced precisely for an object of the five known fields — the strict
/// schema, unknown fields rejected — whose counts fit the machine's size
/// type, with the document's path resolved against the assets root and the
/// counts taken verbatim.
pub fn parse_config(bytes: &Vec<u8>, root: &AssetPath) -> (r: Result<Config, ConfigError>)
    ensures
        r is Ok <==> (jsonio::config_fields(bytes@) matches Some(f) && f.1 <= usize::MAX && f.2
            <= usize::MAX),
        r matches Ok(c) ==> (jsonio::config_fields(bytes@) matches Some(f) && c@
            == config_of_fields(f.0, f.1, f.2, root@)),
        r == Err::<Config, ConfigError>(ConfigError::Parse) <==> !jsonio::json_well_formed(bytes@),
        r == Err::<Config, ConfigError>(ConfigError::Schema) <==> (jsonio::json_well_formed(bytes@)
            && jsonio::config_fields(bytes@) is None),
        r == Err::<Config, ConfigError>(ConfigError::Range) <==> (jsonio::config_fields(bytes@)
            matches Some(f) && (f.1 > usize::MAX || f.2 > usize::MAX)),
{
    match jsonio::parse_config_fields(bytes) {
        Some((path_raw, vertices, instances)) => config_from_fields(
            AssetPath::new(path_raw),
            vertices,
            instances,
            root,
        ),
        None => {
            if jsonio::parse_value(bytes).is_some() {
                Err(ConfigError::Schema)
            } else {
                Err(ConfigError::Parse)
            }
        },
    }
}

} // verus!
