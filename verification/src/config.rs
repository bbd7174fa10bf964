//! Settings of the client code generator, as read from `codegen.toml`.
pub mod typescript;

use vstd::prelude::*;

verus! {

/// The generator's settings: one section per target language.
#[derive(Debug, Default)]
pub struct Config {
    pub typescript: Option<typescript::Config>,
}

/// The crate's directory: `CARGO_MANIFEST_DIR` when it is set, else `./`.
pub fn manifest_dir(cargo_manifest_dir: Option<String>) -> (r: String)
    ensures
        r@ == (match cargo_manifest_dir {
            Some(d) => d@,
            None => "./"@,
        }),
{
    match cargo_manifest_dir {
        Some(d) => d,
        None => "./".to_owned(),
    }
}

/// Where generated files go by default: `CARGO_TARGET_DIR` when it is set, else
/// the current directory when it can be read, else the crate's directory.
pub fn out_dir(
    cargo_target_dir: Option<String>,
    current_dir: Option<String>,
    cargo_manifest_dir: Option<String>,
) -> (r: String)
    ensures
        r@ == (match cargo_target_dir {
            Some(d) => d@,
            None => match current_dir {
                Some(d) => d@,
                None => match cargo_manifest_dir {
                    Some(d) => d@,
                    None => "./"@,
                },
            },
        }),
{
    if let Some(dir) = cargo_target_dir {
        return dir;
    }
    if let Some(cwd) = current_dir {
        return cwd;
    }
    manifest_dir(cargo_manifest_dir)
}

} // verus!
