//! Settings of the TypeScript client generator.
use vstd::prelude::*;
use vstd::string::StringExecFns;

verus! {

/// Where the TypeScript client goes, and how it imports its runtime.
#[derive(Debug)]
pub struct Config {
    /// The directory the generated files are written to.
    pub out_dir: String,
    /// Whether imports keep the `.ts` extension.
    pub preserve_import_extension: bool,
}

impl Config {
    /// The settings used when `codegen.toml` gives none: files go to `out_dir`,
    /// imports drop the extension.
    pub fn with_out_dir(out_dir: String) -> (r: Self)
        ensures
            r.out_dir == out_dir,
            !r.preserve_import_extension,
    {
        Config { out_dir, preserve_import_extension: false }
    }

    /// The first line of a generated client: the import of the runtime library.
    pub fn import_line(&self) -> (r: String)
        ensures
            r@ == "import* as use from './databuf.lib"@ + (if self.preserve_import_extension {
                ".ts"@
            } else {
                ""@
            }) + "'\n"@,
    {
        let mut line = "import* as use from './databuf.lib".to_owned();
        if self.preserve_import_extension {
            line.append(".ts");
        }
        proof {
            reveal_strlit("");
        }
        line.append("'\n");
        line
    }
}

/// The name of the file a service's client is written to: `<name>.ts`.
pub fn output_file_name(service_name: &str) -> (r: String)
    ensures
        r@ == service_name@ + ".ts"@,
{
    let mut name = service_name.to_owned();
    name.append(".ts");
    name
}

} // verus!
