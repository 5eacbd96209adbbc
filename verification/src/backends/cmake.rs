//! The CMake-based backend: code generation is shared with the native
//! backend, and compilation is delegated to CMake's configure, build and
//! install pipeline, one app at a time and strictly ordered: every step
//! must succeed before the next one runs.

use vstd::prelude::*;
use vstd::string::StringExecFns;
use crate::backends::{BuildAction, BuildCommandOptions, BuildProfile, CommandInvocation};
use crate::errors::{AppError, ErrorKind};
use crate::package::{App, LFCProperties};

verus! {

/// The CMake backend instance, constructed from the resolved toolchain
/// (code generation still goes through the Lingua Franca compiler).
#[derive(Debug)]
pub struct Cmake {
    pub lfc_path: String,
}

impl Cmake {
    /// Pure construction from an app and the resolved toolchain; no I/O.
    pub fn from_target(_app: &App, lfc: &LFCProperties) -> (r: Cmake)
        ensures
            r.lfc_path@ == lfc.path@,
    {
        Cmake { lfc_path: lfc.path.clone() }
    }
}

/// The CMake build type derived from the profile: Release builds are
/// optimized and stripped ("RELEASE"), everything else is "DEBUG".
pub open spec fn spec_cmake_build_type(profile: BuildProfile) -> Seq<char> {
    if profile == BuildProfile::Release {
        "RELEASE"@
    } else {
        "DEBUG"@
    }
}

/// The build type string handed to CMake for this profile.
pub fn cmake_build_type(profile: BuildProfile) -> (r: String)
    ensures
        r@ == spec_cmake_build_type(profile),
{
    match profile {
        BuildProfile::Release => "RELEASE".to_owned(),
        BuildProfile::Debug => "DEBUG".to_owned(),
    }
}

/// Where this app's CMake build directory lives, under its output root.
pub open spec fn spec_build_dir(app: App) -> Seq<char> {
    app.output_root@ + "/build"@
}

/// The app's CMake build directory.
pub fn build_dir(app: &App) -> (r: String)
    ensures
        r@ == spec_build_dir(*app),
{
    app.output_root.clone().concat("/build")
}

/// What the configure invocation looks like: build type from the profile,
/// install prefix at the app's output root, a fixed binary subdirectory,
/// runtime flags, the source-package path at the app's source root, and the
/// generated-code directory as the source argument, run inside the build
/// directory.
pub open spec fn is_configure_invocation(
    inv: CommandInvocation,
    options: BuildCommandOptions,
    app: App,
) -> bool {
    &&& inv.program@ == "cmake"@
    &&& inv.args@.len() == 9
    &&& inv.args@[0]@ == "-DCMAKE_BUILD_TYPE="@ + spec_cmake_build_type(options.profile)
    &&& inv.args@[1]@ == "-DCMAKE_INSTALL_PREFIX="@ + app.output_root@
    &&& inv.args@[2]@ == "-DCMAKE_INSTALL_BINDIR=bin"@
    &&& inv.args@[3]@ == "-DREACTOR_CPP_VALIDATE=ON"@
    &&& inv.args@[4]@ == "-DREACTOR_CPP_TRACE=OFF"@
    &&& inv.args@[5]@ == "-DREACTOR_CPP_LOG_LEVEL=3"@
    &&& inv.args@[6]@ == "-DLF_SRC_PKG_PATH="@ + app.root_path@
    &&& inv.args@[7]@ == app.spec_src_gen_dir()
    &&& inv.args@[8]@ == "-B "@ + spec_build_dir(app)
    &&& inv.cwd matches Some(d) && d@ == spec_build_dir(app)
}

/// The CMake configure invocation for one app.
pub fn configure_invocation(app: &App, options: &BuildCommandOptions) -> (r: CommandInvocation)
    ensures
        is_configure_invocation(r, *options, *app),
{
    let mut args: Vec<String> = Vec::new();
    args.push("-DCMAKE_BUILD_TYPE=".to_owned().concat(cmake_build_type(options.profile).as_str()));
    args.push("-DCMAKE_INSTALL_PREFIX=".to_owned().concat(app.output_root.as_str()));
    args.push("-DCMAKE_INSTALL_BINDIR=bin".to_owned());
    args.push("-DREACTOR_CPP_VALIDATE=ON".to_owned());
    args.push("-DREACTOR_CPP_TRACE=OFF".to_owned());
    args.push("-DREACTOR_CPP_LOG_LEVEL=3".to_owned());
    args.push("-DLF_SRC_PKG_PATH=".to_owned().concat(app.root_path.as_str()));
    args.push(app.src_gen_dir());
    args.push("-B ".to_owned().concat(build_dir(app).as_str()));
    CommandInvocation { program: "cmake".to_owned(), args, cwd: Option::Some(build_dir(app)) }
}

/// What the build-tool-agnostic build step looks like: `cmake --build .`
/// inside the configured build directory.
pub open spec fn is_build_invocation(inv: CommandInvocation, app: App) -> bool {
    &&& inv.program@ == "cmake"@
    &&& inv.args@.len() == 2
    &&& inv.args@[0]@ == "--build"@
    &&& inv.args@[1]@ == "."@
    &&& inv.cwd matches Some(d) && d@ == spec_build_dir(app)
}

/// The CMake build invocation for one app.
pub fn build_invocation(app: &App) -> (r: CommandInvocation)
    ensures
        is_build_invocation(r, *app),
{
    let mut args: Vec<String> = Vec::new();
    args.push("--build".to_owned());
    args.push(".".to_owned());
    CommandInvocation { program: "cmake".to_owned(), args, cwd: Option::Some(build_dir(app)) }
}

/// What the install step looks like: `cmake --install .` inside the same
/// configured build directory, so artifacts land under the output root.
pub open spec fn is_install_invocation(inv: CommandInvocation, app: App) -> bool {
    &&& inv.program@ == "cmake"@
    &&& inv.args@.len() == 2
    &&& inv.args@[0]@ == "--install"@
    &&& inv.args@[1]@ == "."@
    &&& inv.cwd matches Some(d) && d@ == spec_build_dir(app)
}

/// The CMake install invocation for one app.
pub fn install_invocation(app: &App) -> (r: CommandInvocation)
    ensures
        is_install_invocation(r, *app),
{
    let mut args: Vec<String> = Vec::new();
    args.push("--install".to_owned());
    args.push(".".to_owned());
    CommandInvocation { program: "cmake".to_owned(), args, cwd: Option::Some(build_dir(app)) }
}

/// The stages of one app's CMake build, in their mandatory order.
#[derive(Clone, Copy, Debug, PartialEq, Eq, Structural)]
pub enum CmakeStage {
    CreateBuildDir,
    Configure,
    Build,
    Install,
    Done,
}

/// The stage a successful step leads to: create the build directory,
/// configure, build, install, done.
pub open spec fn spec_next_stage(stage: CmakeStage) -> CmakeStage {
    match stage {
        CmakeStage::CreateBuildDir => CmakeStage::Configure,
        CmakeStage::Configure => CmakeStage::Build,
        CmakeStage::Build => CmakeStage::Install,
        CmakeStage::Install => CmakeStage::Done,
        CmakeStage::Done => CmakeStage::Done,
    }
}

/// The stage of an app's build: each step runs only after the one before
/// it succeeded, and any failing step aborts the rest of that app's build
/// (steps are never retried).
pub fn next_stage(stage: CmakeStage, success: bool) -> (r: CmakeStage)
    ensures
        success ==> r == spec_next_stage(stage),
        !success ==> r is Done,
{
    if success {
        match stage {
            CmakeStage::CreateBuildDir => CmakeStage::Configure,
            CmakeStage::Configure => CmakeStage::Build,
            CmakeStage::Build => CmakeStage::Install,
            CmakeStage::Install => CmakeStage::Done,
            CmakeStage::Done => CmakeStage::Done,
        }
    } else {
        CmakeStage::Done
    }
}

/// The outside work one stage asks for, and none for a finished build.
/// A pre-existing build directory is reused for incremental builds, so the
/// first stage is a plain create-if-absent.
pub fn stage_action(stage: CmakeStage, app: &App, options: &BuildCommandOptions) -> (r: Option<
    BuildAction,
>)
    ensures
        stage == CmakeStage::CreateBuildDir ==> (r matches Some(BuildAction::CreateDir { path })
            && path@ == spec_build_dir(*app)),
        stage == CmakeStage::Configure ==> (r matches Some(BuildAction::RunProcess(inv))
            && is_configure_invocation(inv, *options, *app)),
        stage == CmakeStage::Build ==> (r matches Some(BuildAction::RunProcess(inv))
            && is_build_invocation(inv, *app)),
        stage == CmakeStage::Install ==> (r matches Some(BuildAction::RunProcess(inv))
            && is_install_invocation(inv, *app)),
        stage == CmakeStage::Done ==> r is None,
{
    match stage {
        CmakeStage::CreateBuildDir => Option::Some(
            BuildAction::CreateDir { path: build_dir(app) },
        ),
        CmakeStage::Configure => Option::Some(
            BuildAction::RunProcess(configure_invocation(app, options)),
        ),
        CmakeStage::Build => Option::Some(BuildAction::RunProcess(build_invocation(app))),
        CmakeStage::Install => Option::Some(BuildAction::RunProcess(install_invocation(app))),
        CmakeStage::Done => Option::None,
    }
}

/// Which error class a failure in the given stage belongs to.
pub open spec fn spec_stage_error_kind(stage: CmakeStage) -> ErrorKind {
    match stage {
        CmakeStage::CreateBuildDir => ErrorKind::FileSystem,
        CmakeStage::Configure => ErrorKind::Configure,
        CmakeStage::Build => ErrorKind::Compile,
        CmakeStage::Install => ErrorKind::Install,
        CmakeStage::Done => ErrorKind::FileSystem,
    }
}

/// The failure record for one app's failed stage: the app's name, the
/// stage's error class, and the failing tool's captured diagnostic output,
/// preserved verbatim.
pub fn stage_failure(app: &App, stage: CmakeStage, output: String) -> (e: AppError)
    requires
        stage != CmakeStage::Done,
    ensures
        e.app@ == app.name@,
        e.kind == spec_stage_error_kind(stage),
        e.output@ == output@,
{
    AppError { app: app.name.clone(), kind: stage_error_kind_exec(stage), output }
}

/// Executable mapping from a stage to its error class.
pub fn stage_error_kind_exec(stage: CmakeStage) -> (k: ErrorKind)
    ensures
        k == spec_stage_error_kind(stage),
{
    match stage {
        CmakeStage::CreateBuildDir => ErrorKind::FileSystem,
        CmakeStage::Configure => ErrorKind::Configure,
        CmakeStage::Build => ErrorKind::Compile,
        CmakeStage::Install => ErrorKind::Install,
        CmakeStage::Done => ErrorKind::FileSystem,
    }
}

} // verus!
