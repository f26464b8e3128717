//! Compiles Python modules into native extension modules.
//!
//! The library holds the verified core of the pipeline: the top-level
//! statements of a module are split by kind, native binding source and a
//! build manifest are emitted for them, and the decisions of the build
//! step (which artifact to take, what a failed build reports, how a batch
//! is counted) are made on plain values handed in by the caller.
use vstd::prelude::*;

pub mod build_tools;
pub mod config;
pub mod dcc;
pub mod orchestrator;
pub mod parser;
pub mod paths;
pub mod python_env;
pub mod text;
pub mod transformer;

pub use build_tools::{check_build_tools, BuildTools, Platform, ToolchainUnavailable};
pub use dcc::{DCCConfig, DCCEnvironment};
pub use config::{CompileConfig, PythonEnvironment, UvEnvConfig};
pub use orchestrator::{module_extension, BatchReport, BuildError};
use orchestrator::module_extension_of;
use build_tools::{any_tools, instructions_for, missing_tools_message};
pub use parser::{
    extract, extract_classes, extract_from_imports, extract_functions, extract_imports,
    extract_module_vars, parse_source, ExtractionResult, ParseError, Statement,
};
pub use transformer::{generate_cargo_toml, transform_ast, transform_source, TransformedModule};

verus! {

/// Relies on `std::path::MAIN_SEPARATOR`: the path separator of the platform
/// the library was built for, `\\` on Windows and `/` elsewhere.
#[verifier::external_body]
fn main_separator() -> (r: char)
    ensures
        r == '/' || r == '\\',
{
    std::path::MAIN_SEPARATOR
}

/// The platform family a path separator stands for: `\\` for Windows, any
/// other for a Unix.
pub open spec fn platform_of_separator_spec(sep: char) -> Platform {
    if sep == '\\' {
        Platform::Windows
    } else {
        Platform::Unix
    }
}

/// The platform family the path separator `sep` stands for.
pub fn platform_of_separator(sep: char) -> (r: Platform)
    ensures
        r == platform_of_separator_spec(sep),
{
    if sep == '\\' {
        Platform::Windows
    } else {
        Platform::Unix
    }
}

/// The extension of compiled Python modules on the platform family that the
/// path separator `sep` stands for.
pub fn extension_for_separator(sep: char) -> (r: &'static str)
    ensures
        r@ == module_extension_of(platform_of_separator_spec(sep)),
{
    module_extension(platform_of_separator(sep))
}

/// The platform family of the host, as far as its path separator tells.
/// Which separator the host has is known only when the program runs; the
/// result is the family of whichever of the two it is.
pub fn host_family() -> (r: Platform)
    ensures
        exists|sep: char| (sep == '/' || sep == '\\') && r == platform_of_separator_spec(sep),
{
    let sep = main_separator();
    platform_of_separator(sep)
}

/// The extension of compiled Python modules on this platform: "pyd" on
/// Windows, "so" elsewhere. It is the extension for the host's path
/// separator, whichever of the two that is.
pub fn get_extension() -> (r: &'static str)
    ensures
        exists|sep: char|
            (sep == '/' || sep == '\\') && r@ == module_extension_of(
                platform_of_separator_spec(sep),
            ),
{
    let sep = main_separator();
    extension_for_separator(sep)
}

/// Accepts the detected build tools when some toolchain is among them,
/// else reports what to install on `platform`.
pub fn verify_build_tools(tools: BuildTools, platform: Platform) -> (r: Result<
    BuildTools,
    ToolchainUnavailable,
>)
    ensures
        r is Ok <==> any_tools(tools),
        r is Ok ==> r->Ok_0 == tools,
        r is Err ==> r->Err_0.message@ == missing_tools_message(platform)
            && r->Err_0.instructions@ == instructions_for(platform),
{
    check_build_tools(tools, platform)
}

} // verus!
