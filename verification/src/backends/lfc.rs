//! The toolchain-direct backend: it invokes the Lingua Franca compiler
//! itself, for code generation and, when requested, for the full build.
//!
//! Code generation for a batch always runs for every app before any
//! compilation starts, so a generate-only request short-circuits cheaply
//! and compilation reuses all freshly generated sources.

use vstd::prelude::*;
use crate::backends::{BuildCommandOptions, CommandInvocation};
use crate::package::{App, LFCProperties};

verus! {

/// The native backend instance: it drives the resolved compiler binary
/// directly and never falls back to a different toolchain.
#[derive(Debug)]
pub struct LFC {
    pub lfc_path: String,
}

impl LFC {
    /// Pure construction from an app and the resolved toolchain; no I/O.
    pub fn from_target(_app: &App, lfc: &LFCProperties) -> (r: LFC)
        ensures
            r.lfc_path@ == lfc.path@,
    {
        LFC { lfc_path: lfc.path.clone() }
    }
}

/// What a code-generation invocation for one app looks like: the resolved
/// compiler, told the target language, the platform, the app's generated-code
/// directory and its source root, with compilation switched off.
pub open spec fn is_codegen_invocation(
    inv: CommandInvocation,
    lfc_path: Seq<char>,
    options: BuildCommandOptions,
    app: App,
) -> bool {
    &&& inv.program@ == lfc_path
    &&& inv.args@.len() == 8
    &&& inv.args@[0]@ == "--language"@
    &&& inv.args@[1]@ == options.language.spec_name()
    &&& inv.args@[2]@ == "--platform"@
    &&& inv.args@[3]@ == options.platform.spec_name()
    &&& inv.args@[4]@ == "--output-path"@
    &&& inv.args@[5]@ == app.spec_src_gen_dir()
    &&& inv.args@[6]@ == "--no-compile"@
    &&& inv.args@[7]@ == app.root_path@
    &&& inv.cwd is None
}

/// What a full (compile) invocation of the native backend looks like:
/// identical to code generation, but without the `--no-compile` switch.
pub open spec fn is_native_compile_invocation(
    inv: CommandInvocation,
    lfc_path: Seq<char>,
    options: BuildCommandOptions,
    app: App,
) -> bool {
    &&& inv.program@ == lfc_path
    &&& inv.args@.len() == 7
    &&& inv.args@[0]@ == "--language"@
    &&& inv.args@[1]@ == options.language.spec_name()
    &&& inv.args@[2]@ == "--platform"@
    &&& inv.args@[3]@ == options.platform.spec_name()
    &&& inv.args@[4]@ == "--output-path"@
    &&& inv.args@[5]@ == app.spec_src_gen_dir()
    &&& inv.args@[6]@ == app.root_path@
    &&& inv.cwd is None
}

/// The code-generation invocation for one app. Every app's invocation is
/// independent (separate source and output directories), which is what makes
/// the codegen fan-out safe to run in parallel.
pub fn codegen_invocation(
    lfc_path: &String,
    options: &BuildCommandOptions,
    app: &App,
) -> (r: CommandInvocation)
    ensures
        is_codegen_invocation(r, lfc_path@, *options, *app),
{
    let mut args: Vec<String> = Vec::new();
    args.push("--language".to_owned());
    args.push(options.language.name());
    args.push("--platform".to_owned());
    args.push(options.platform.name());
    args.push("--output-path".to_owned());
    args.push(app.src_gen_dir());
    args.push("--no-compile".to_owned());
    args.push(app.root_path.clone());
    CommandInvocation { program: lfc_path.clone(), args, cwd: Option::None }
}

/// The per-app compile invocation of the native backend, issued in batch
/// order once the codegen phase is complete.
pub fn native_compile_invocation(
    lfc_path: &String,
    options: &BuildCommandOptions,
    app: &App,
) -> (r: CommandInvocation)
    ensures
        is_native_compile_invocation(r, lfc_path@, *options, *app),
{
    let mut args: Vec<String> = Vec::new();
    args.push("--language".to_owned());
    args.push(options.language.name());
    args.push("--platform".to_owned());
    args.push(options.platform.name());
    args.push("--output-path".to_owned());
    args.push(app.src_gen_dir());
    args.push(app.root_path.clone());
    CommandInvocation { program: lfc_path.clone(), args, cwd: Option::None }
}

} // verus!
