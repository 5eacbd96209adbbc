//! Apps and toolchain properties: the inputs a batch build works on.

use vstd::prelude::*;
use vstd::string::StringExecFns;

verus! {

/// One buildable unit of a project: its name, its source root and the
/// destination its artifacts are installed under. Owned by the manifest
/// loader and read-only for the duration of a build invocation.
#[derive(Debug)]
pub struct App {
    pub name: String,
    pub root_path: String,
    pub output_root: String,
}

impl App {
    /// Where generated code for this app lands, as a function of its
    /// output root alone.
    pub open spec fn spec_src_gen_dir(&self) -> Seq<char> {
        self.output_root@ + "/src-gen"@
    }

    /// The generated-code directory of this app.
    pub fn src_gen_dir(&self) -> (r: String)
        ensures
            r@ == self.spec_src_gen_dir(),
    {
        self.output_root.clone().concat("/src-gen")
    }
}

/// Resolved properties of the Lingua Franca compiler toolchain: the path of
/// the compiler binary a build must use. Backends never fall back to a
/// different toolchain than the one resolved here.
#[derive(Debug)]
pub struct LFCProperties {
    pub path: String,
}

} // verus!
