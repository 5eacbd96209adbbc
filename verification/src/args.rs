//! Command-line facing data types: which command to run, against which
//! language, platform and build system. Parsing itself is not done here;
//! these are the plain values the orchestrator works on.

use vstd::prelude::*;

verus! {

/// Target language the code generator emits.
#[derive(Clone, Copy, Debug, PartialEq, Eq, Structural)]
pub enum TargetLanguage {
    C,
    Cpp,
    Rust,
    TypeScript,
    Python,
}

impl TargetLanguage {
    /// The language's name as handed to the code generator.
    pub open spec fn spec_name(&self) -> Seq<char> {
        match self {
            TargetLanguage::C => "C"@,
            TargetLanguage::Cpp => "Cpp"@,
            TargetLanguage::Rust => "Rust"@,
            TargetLanguage::TypeScript => "TypeScript"@,
            TargetLanguage::Python => "Python"@,
        }
    }

    /// The language's name as a string.
    pub fn name(&self) -> (r: String)
        ensures
            r@ == self.spec_name(),
    {
        match self {
            TargetLanguage::C => "C".to_owned(),
            TargetLanguage::Cpp => "Cpp".to_owned(),
            TargetLanguage::Rust => "Rust".to_owned(),
            TargetLanguage::TypeScript => "TypeScript".to_owned(),
            TargetLanguage::Python => "Python".to_owned(),
        }
    }
}

/// Platform the built binaries run on.
#[derive(Clone, Copy, Debug, PartialEq, Eq, Structural)]
pub enum Platform {
    Native,
    Zephyr,
}

impl Platform {
    /// The platform's name as handed to the code generator.
    pub open spec fn spec_name(&self) -> Seq<char> {
        match self {
            Platform::Native => "Native"@,
            Platform::Zephyr => "Zephyr"@,
        }
    }

    /// The platform's name as a string.
    pub fn name(&self) -> (r: String)
        ensures
            r@ == self.spec_name(),
    {
        match self {
            Platform::Native => "Native".to_owned(),
            Platform::Zephyr => "Zephyr".to_owned(),
        }
    }
}

/// Which build system drives compilation. Unknown values are a
/// configuration error at parse time, never a silent default.
#[derive(Clone, Copy, Debug, PartialEq, Eq, Structural)]
pub enum BuildSystem {
    LFC,
    CMake,
}

/// Options of the `build` and `run` subcommands.
#[derive(Debug)]
pub struct BuildArgs {
    /// which build system to use
    pub build_system: Option<BuildSystem>,
    /// which target to build
    pub language: Option<TargetLanguage>,
    /// overwrites any possible board definition in Lingo.toml
    pub platform: Option<Platform>,
    /// where the lfc toolchain can be found
    pub lfc: Option<String>,
    /// skip invoking the build system so that only code is generated
    pub no_compile: bool,
    /// if one of the apps fails to build, don't interrupt the build process
    pub keep_going: bool,
    /// compile with optimizations turned on and strip debug symbols
    pub release: bool,
    /// list of apps to build; if left empty, all apps are built
    pub apps: Vec<String>,
}

/// Options of the `init` subcommand.
#[derive(Debug)]
pub struct InitArgs {
    pub language: Option<TargetLanguage>,
    pub platform: Option<Platform>,
}

/// The language `init` settles on when none is given explicitly:
/// Zephyr targets default to C, everything else to Cpp.
pub open spec fn spec_target_language(
    language: Option<TargetLanguage>,
    platform: Option<Platform>,
) -> TargetLanguage {
    match language {
        Option::Some(l) => l,
        Option::None => match platform {
            Option::Some(Platform::Zephyr) => TargetLanguage::C,
            _ => TargetLanguage::Cpp,
        },
    }
}

impl InitArgs {
    /// The target language to initialize the project with: the explicit
    /// choice if one was given, else C for Zephyr and Cpp otherwise.
    pub fn get_target_language(&self) -> (r: TargetLanguage)
        ensures
            r == spec_target_language(self.language, self.platform),
    {
        match self.language {
            Option::Some(l) => l,
            Option::None => match self.platform {
                Option::Some(Platform::Zephyr) => TargetLanguage::C,
                _ => TargetLanguage::Cpp,
            },
        }
    }
}

/// Toolchain management subcommands.
#[derive(Debug)]
pub enum ToolchainCommand {
    /// Install the toolchain with the given version, or the latest stable.
    Install { version: Option<String> },
    /// Uninstall the toolchain with the given version.
    Uninstall { version: String },
    /// Switch to the toolchain with the given version.
    Use { version: String },
    /// Operate on the downloaded toolchain cache.
    Cache(CacheCommand),
    /// List downloaded toolchain versions.
    List,
    /// List available toolchain versions.
    ListRemote,
}

/// Toolchain cache subcommands.
#[derive(Debug)]
pub enum CacheCommand {
    /// Display the path to the cache directory.
    Dir,
    /// Empty the cache directory.
    Purge,
}

/// The subcommands the tool offers.
#[derive(Debug)]
pub enum Command {
    /// initialize a lingua-franca project
    Init(InitArgs),
    /// compile one or multiple binaries in a lingua-franca package
    Build(BuildArgs),
    /// update the dependencies and potentially build tools
    Update,
    /// build and run binaries
    Run(BuildArgs),
    /// remove build artifacts
    Clean,
    /// manage the Lingua Franca toolchain
    Toolchain(ToolchainCommand),
}

/// One full command-line invocation.
#[derive(Debug)]
pub struct CommandLineArgs {
    /// which subcommand to run
    pub command: Command,
    /// produce no output
    pub quiet: bool,
    /// produce verbose output
    pub verbose: bool,
}

} // verus!
