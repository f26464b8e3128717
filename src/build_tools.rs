use vstd::prelude::*;
use vstd::string::*;

verus! {

/// The operating-system family the extension is built for.
#[derive(Debug, Clone, Copy, PartialEq, Eq, Structural)]
pub enum Platform {
    Windows,
    MacOs,
    Unix,
}

/// The compilers and tools found on the system, each with its path if found.
#[derive(Debug)]
pub struct BuildTools {
    /// Path to the MSVC compiler (cl.exe).
    pub msvc: Option<String>,
    /// Path to the MinGW compiler (gcc.exe).
    pub mingw: Option<String>,
    /// Path to dlltool, part of MinGW.
    pub dlltool: Option<String>,
    /// Path to the Visual Studio installation.
    pub vs: Option<String>,
    /// Path to GCC, on Unix systems.
    pub gcc: Option<String>,
    /// Path to the Xcode Command Line Tools, on macOS.
    pub xcode: Option<String>,
}

/// `label` and the path, on a line of its own, where a path was found.
pub open spec fn tool_entry(label: Seq<char>, path: Option<String>) -> Seq<char> {
    match path {
        Some(p) => label + p@ + "\n"@,
        None => Seq::empty(),
    }
}

/// One line per tool found, in a fixed order.
pub open spec fn tool_entries(t: BuildTools) -> Seq<char> {
    tool_entry("MSVC: "@, t.msvc) + tool_entry("MinGW: "@, t.mingw) + tool_entry(
        "dlltool: "@,
        t.dlltool,
    ) + tool_entry("Visual Studio: "@, t.vs) + tool_entry("GCC: "@, t.gcc) + tool_entry(
        "Xcode Command Line Tools: "@,
        t.xcode,
    )
}

/// The summary of the tools found, or a notice that none were.
pub open spec fn tools_info(t: BuildTools) -> Seq<char> {
    if tool_entries(t).len() == 0 {
        "No build tools found"@
    } else {
        tool_entries(t)
    }
}

pub open spec fn any_tools(t: BuildTools) -> bool {
    t.msvc is Some || (t.mingw is Some && t.dlltool is Some) || t.gcc is Some || t.xcode is Some
}

fn push_entry(out: &mut String, label: &str, path: &Option<String>)
    ensures
        final(out)@ == old(out)@ + tool_entry(label@, *path),
{
    match path {
        Some(p) => {
            out.append(label);
            out.append(p.as_str());
            out.append("\n");
            assert(final(out)@ =~= old(out)@ + tool_entry(label@, *path));
        },
        None => {
            assert(old(out)@ + tool_entry(label@, *path) =~= old(out)@);
        },
    }
}

impl BuildTools {
    /// MSVC is available.
    pub fn has_msvc(&self) -> (r: bool)
        ensures
            r == self.msvc is Some,
    {
        self.msvc.is_some()
    }

    /// MinGW is available: its compiler and dlltool were both found.
    pub fn has_mingw(&self) -> (r: bool)
        ensures
            r == (self.mingw is Some && self.dlltool is Some),
    {
        self.mingw.is_some() && self.dlltool.is_some()
    }

    /// GCC is available.
    pub fn has_gcc(&self) -> (r: bool)
        ensures
            r == self.gcc is Some,
    {
        self.gcc.is_some()
    }

    /// The Xcode Command Line Tools are available.
    pub fn has_xcode(&self) -> (r: bool)
        ensures
            r == self.xcode is Some,
    {
        self.xcode.is_some()
    }

    /// Some toolchain is available.
    pub fn has_any_tools(&self) -> (r: bool)
        ensures
            r == any_tools(*self),
    {
        self.has_msvc() || self.has_mingw() || self.has_gcc() || self.has_xcode()
    }

    /// One line per tool found, with its path, or "No build tools found".
    pub fn get_tools_info(&self) -> (r: String)
        ensures
            r@ == tools_info(*self),
    {
        let mut info = String::new();
        push_entry(&mut info, "MSVC: ", &self.msvc);
        push_entry(&mut info, "MinGW: ", &self.mingw);
        push_entry(&mut info, "dlltool: ", &self.dlltool);
        push_entry(&mut info, "Visual Studio: ", &self.vs);
        push_entry(&mut info, "GCC: ", &self.gcc);
        push_entry(&mut info, "Xcode Command Line Tools: ", &self.xcode);
        assert(info@ =~= tool_entries(*self));
        if info.as_str().unicode_len() == 0 {
            info.append("No build tools found");
            assert(info@ =~= "No build tools found"@);
        }
        info
    }
}

/// How to install a toolchain on Windows.
pub open spec fn windows_instructions() -> Seq<char> {
    "\nTo install the required build tools on Windows, you have two options:\n\n1. Install Visual Studio Build Tools (Recommended):\n   - Download from: https://visualstudio.microsoft.com/visual-cpp-build-tools/\n   - During installation, select \"C++ build tools\" workload\n   - This will install MSVC compiler and necessary tools\n\n2. Install MinGW-w64:\n   - Download from: https://www.mingw-w64.org/downloads/\n   - Add the bin directory to your PATH environment variable\n   - Restart your terminal after installation\n\nAfter installation, try running py2pyd again.\n"@
}

/// How to install a toolchain on Linux or macOS.
pub open spec fn unix_instructions() -> Seq<char> {
    "\nTo install the required build tools on Linux/macOS:\n\n1. On Ubuntu/Debian:\n   sudo apt-get update\n   sudo apt-get install build-essential\n\n2. On macOS:\n   xcode-select --install\n\nAfter installation, try running py2pyd again.\n"@
}

pub open spec fn instructions_for(platform: Platform) -> Seq<char> {
    if platform == Platform::Windows {
        windows_instructions()
    } else {
        unix_instructions()
    }
}

/// Installation instructions for a toolchain on `platform`.
pub fn get_build_tools_installation_instructions(platform: Platform) -> (r: String)
    ensures
        r@ == instructions_for(platform),
{
    if platform == Platform::Windows {
        String::from_str("\nTo install the required build tools on Windows, you have two options:\n\n1. Install Visual Studio Build Tools (Recommended):\n   - Download from: https://visualstudio.microsoft.com/visual-cpp-build-tools/\n   - During installation, select \"C++ build tools\" workload\n   - This will install MSVC compiler and necessary tools\n\n2. Install MinGW-w64:\n   - Download from: https://www.mingw-w64.org/downloads/\n   - Add the bin directory to your PATH environment variable\n   - Restart your terminal after installation\n\nAfter installation, try running py2pyd again.\n")
    } else {
        String::from_str("\nTo install the required build tools on Linux/macOS:\n\n1. On Ubuntu/Debian:\n   sudo apt-get update\n   sudo apt-get install build-essential\n\n2. On macOS:\n   xcode-select --install\n\nAfter installation, try running py2pyd again.\n")
    }
}

/// No usable toolchain was found; `instructions` says how to install one.
#[derive(Debug)]
pub struct ToolchainUnavailable {
    pub message: String,
    pub instructions: String,
}

impl ToolchainUnavailable {
    /// The message followed by the installation instructions.
    pub fn describe(&self) -> (r: String)
        ensures
            r@ == self.message@ + "\n\n"@ + self.instructions@,
    {
        let mut s = self.message.clone();
        s.append("\n\n");
        s.append(self.instructions.as_str());
        s
    }
}

/// What is missing on `platform` when no toolchain is found.
pub open spec fn missing_tools_message(platform: Platform) -> Seq<char> {
    match platform {
        Platform::Windows =>
            "No suitable build tools found. You need either MSVC or MinGW to compile Python extensions."@,
        Platform::MacOs =>
            "No suitable build tools found. You need Xcode Command Line Tools to compile Python extensions."@,
        Platform::Unix =>
            "No suitable build tools found. You need GCC and development tools to compile Python extensions."@,
    }
}

/// Accepts the detected tools when some toolchain is among them; otherwise
/// says what is missing on `platform` and how to install it.
pub fn check_build_tools(tools: BuildTools, platform: Platform) -> (r: Result<
    BuildTools,
    ToolchainUnavailable,
>)
    ensures
        r is Ok <==> any_tools(tools),
        r is Ok ==> r->Ok_0 == tools,
        r is Err ==> r->Err_0.message@ == missing_tools_message(platform)
            && r->Err_0.instructions@ == instructions_for(platform),
{
    if tools.has_any_tools() {
        return Ok(tools);
    }
    let instructions = get_build_tools_installation_instructions(platform);
    let message = match platform {
        Platform::Windows => String::from_str(
            "No suitable build tools found. You need either MSVC or MinGW to compile Python extensions.",
        ),
        Platform::MacOs => String::from_str(
            "No suitable build tools found. You need Xcode Command Line Tools to compile Python extensions.",
        ),
        Platform::Unix => String::from_str(
            "No suitable build tools found. You need GCC and development tools to compile Python extensions.",
        ),
    };
    Err(ToolchainUnavailable { message, instructions })
}

/// What looking for each tool on the system found, as paths.
#[derive(Debug)]
pub struct ToolLookups {
    /// The MSVC compiler `cl` on PATH.
    pub cl: Option<String>,
    /// `gcc` on PATH.
    pub gcc: Option<String>,
    /// `dlltool` on PATH.
    pub dlltool: Option<String>,
    /// The Visual Studio installation that holds `devenv.exe`, if found.
    pub visual_studio: Option<String>,
    /// The existing developer directory that `xcode-select -p` reports.
    pub xcode_dir: Option<String>,
}

fn copy_path(o: &Option<String>) -> (r: Option<String>)
    ensures
        r == *o,
{
    match o {
        Some(s) => Some(s.clone()),
        None => None,
    }
}

/// The build tools that the lookups amount to on `platform`: Visual Studio
/// counts only beside MSVC, `gcc` counts as GCC only on Unix systems (macOS
/// included), and the Xcode tools only on macOS.
pub fn assemble_build_tools(found: &ToolLookups, platform: Platform) -> (r: BuildTools)
    ensures
        r.msvc == found.cl,
        r.vs == (if found.cl is Some { found.visual_studio } else { None }),
        r.mingw == found.gcc,
        r.dlltool == found.dlltool,
        r.gcc == (if platform != Platform::Windows { found.gcc } else { None }),
        r.xcode == (if platform == Platform::MacOs { found.xcode_dir } else { None }),
{
    let msvc = copy_path(&found.cl);
    let vs = if found.cl.is_some() { copy_path(&found.visual_studio) } else { None };
    let gcc = if platform != Platform::Windows { copy_path(&found.gcc) } else { None };
    let xcode = if platform == Platform::MacOs { copy_path(&found.xcode_dir) } else { None };
    BuildTools { msvc, mingw: copy_path(&found.gcc), dlltool: copy_path(&found.dlltool), vs, gcc, xcode }
}

} // verus!
