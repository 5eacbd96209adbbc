//! The backend abstraction: the closed set of build-system drivers and the
//! data a batch command carries. A backend is selected by a pure mapping
//! from the `BuildSystem` enumeration; the orchestrator is backend-agnostic.

pub mod cmake;
pub mod lfc;

use vstd::prelude::*;
use crate::args::{BuildSystem, Platform, TargetLanguage};
use crate::package::{App, LFCProperties};

verus! {

/// Debug or Release; Release implies optimization flags and stripped
/// symbols in the invocations a backend derives from it.
#[derive(Clone, Copy, Debug, PartialEq, Eq, Structural)]
pub enum BuildProfile {
    Debug,
    Release,
}

/// Configuration of one build command, passed by value into every
/// backend call. When `compile_target_code` is false only code generation
/// runs and no compiler or CMake pipeline is invoked.
#[derive(Debug)]
pub struct BuildCommandOptions {
    /// Debug or Release build.
    pub profile: BuildProfile,
    /// Language the code generator emits.
    pub language: TargetLanguage,
    /// Platform the binaries run on.
    pub platform: Platform,
    /// Explicit toolchain location, overriding the resolved one.
    pub toolchain: Option<String>,
    /// Whether the compilation phase runs at all, or only code generation.
    pub compile_target_code: bool,
    /// Whether to continue past per-app failures and report all of them.
    pub keep_going: bool,
}

/// The requested operation, orthogonal to which apps it targets.
#[derive(Debug)]
pub enum CommandSpec {
    Build(BuildCommandOptions),
    Clean,
    Run(BuildCommandOptions),
}

/// One batch invocation: a command applied to an ordered set of apps.
/// App order is preserved and determines build order for backends that
/// build serially.
#[derive(Debug)]
pub struct BatchLingoCommand {
    pub task: CommandSpec,
    pub apps: Vec<App>,
}

/// One external tool invocation, fully determined before anything runs:
/// the program, its arguments in order, and the directory to run it in.
#[derive(Debug)]
pub struct CommandInvocation {
    pub program: String,
    pub args: Vec<String>,
    pub cwd: Option<String>,
}

/// One unit of outside work a backend asks for: create a directory, or
/// run an external tool to completion and capture its output.
#[derive(Debug)]
pub enum BuildAction {
    CreateDir { path: String },
    RunProcess(CommandInvocation),
}

/// The closed set of backends a batch can be driven by.
#[derive(Debug)]
pub enum Backend {
    LFC(lfc::LFC),
    CMake(cmake::Cmake),
}

impl Backend {
    /// The toolchain path this backend was constructed with.
    pub open spec fn lfc_path_view(&self) -> Seq<char> {
        match self {
            Backend::LFC(b) => b.lfc_path@,
            Backend::CMake(b) => b.lfc_path@,
        }
    }

    /// The toolchain path this backend invokes for code generation.
    pub fn lfc_path(&self) -> (r: &String)
        ensures
            r@ == self.lfc_path_view(),
    {
        match self {
            Backend::LFC(b) => &b.lfc_path,
            Backend::CMake(b) => &b.lfc_path,
        }
    }
}

/// Pure mapping from the build-system enumeration to a concrete backend
/// instance constructed from the app and the resolved toolchain. There is
/// no silent default: each enumeration value names its backend.
pub fn select_backend(name: &BuildSystem, app: &App, lfc: &LFCProperties) -> (r: Backend)
    ensures
        r.lfc_path_view() == lfc.path@,
        *name == BuildSystem::LFC ==> r is LFC,
        *name == BuildSystem::CMake ==> r is CMake,
{
    match name {
        BuildSystem::LFC => Backend::LFC(lfc::LFC::from_target(app, lfc)),
        BuildSystem::CMake => Backend::CMake(cmake::Cmake::from_target(app, lfc)),
    }
}

} // verus!
