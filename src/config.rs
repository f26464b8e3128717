use crate::text::{emit_line, emit_named_line, join_lines};
use vstd::prelude::*;
use vstd::string::*;

verus! {

/// Settings for compiling one Python module.
#[derive(Debug)]
pub struct CompileConfig {
    /// The Python interpreter to use.
    pub python_path: Option<String>,
    /// The Python version to use (e.g. "3.9").
    pub python_version: Option<String>,
    /// Optimization level; levels above 3 act as 3.
    pub optimize_level: u8,
    /// Keep the temporary build directory.
    pub keep_temp_files: bool,
    /// Target application environment, kept for later use.
    pub target_dcc: Option<String>,
    /// Extra packages to install into the build environment.
    pub packages: Vec<String>,
}

impl Default for CompileConfig {
    fn default() -> (r: Self)
        ensures
            r.python_path is None,
            r.python_version is None,
            r.optimize_level == 2,
            !r.keep_temp_files,
            r.target_dcc is None,
            r.packages@.len() == 0,
    {
        CompileConfig {
            python_path: None,
            python_version: None,
            optimize_level: 2,
            keep_temp_files: false,
            target_dcc: None,
            packages: Vec::new(),
        }
    }
}

/// Settings for an isolated Python environment.
#[derive(Debug)]
pub struct UvEnvConfig {
    /// The Python interpreter to use.
    pub python_path: Option<String>,
    /// The Python version to use (e.g. "3.9").
    pub python_version: Option<String>,
    /// Keep the environment after use.
    pub keep_venv: bool,
    /// Packages to install into the environment.
    pub packages: Vec<String>,
}

impl Default for UvEnvConfig {
    fn default() -> (r: Self)
        ensures
            r.python_path is None,
            r.python_version is None,
            !r.keep_venv,
            r.packages@.len() == 0,
    {
        UvEnvConfig { python_path: None, python_version: None, keep_venv: false, packages: Vec::new() }
    }
}

/// Where the interpreter comes from, passed explicitly rather than held
/// process-wide.
#[derive(Debug)]
pub struct PythonEnvironment {
    python_path: Option<String>,
    uv_path: Option<String>,
    venv_path: Option<String>,
    initialized: bool,
}

/// The interpreter was asked for before one was set up.
#[derive(Debug, Clone, Copy, PartialEq, Eq, Structural)]
pub enum EnvironmentError {
    NotInitialized,
    InterpreterNotFound,
}

impl PythonEnvironment {
    pub closed spec fn is_initialized(&self) -> bool {
        self.initialized
    }

    pub closed spec fn interpreter(&self) -> Option<String> {
        self.python_path
    }

    pub closed spec fn uv(&self) -> Option<String> {
        self.uv_path
    }

    pub closed spec fn venv(&self) -> Option<String> {
        self.venv_path
    }

    /// An environment with nothing set up yet.
    pub fn new() -> (r: Self)
        ensures
            !r.is_initialized(),
            r.interpreter() is None,
            r.uv() is None,
            r.venv() is None,
    {
        PythonEnvironment { python_path: None, uv_path: None, venv_path: None, initialized: false }
    }

    /// Records the interpreter found or provisioned, with the package manager
    /// and virtual environment used for it, if any.
    pub fn initialize(&mut self, python_path: String, uv_path: Option<String>, venv_path: Option<String>)
        ensures
            final(self).is_initialized(),
            final(self).interpreter() == Some(python_path),
            final(self).uv() == uv_path,
            final(self).venv() == venv_path,
    {
        self.python_path = Some(python_path);
        self.uv_path = uv_path;
        self.venv_path = venv_path;
        self.initialized = true;
    }

    /// The interpreter to use, once the environment is set up.
    pub fn get_python_path(&self) -> (r: Result<String, EnvironmentError>)
        ensures
            !self.is_initialized() ==> r == Err::<String, EnvironmentError>(
                EnvironmentError::NotInitialized,
            ),
            self.is_initialized() && self.interpreter() is None ==> r == Err::<
                String,
                EnvironmentError,
            >(EnvironmentError::InterpreterNotFound),
            self.is_initialized() && self.interpreter() is Some ==> r == Ok::<
                String,
                EnvironmentError,
            >(self.interpreter()->0),
    {
        if !self.initialized {
            return Err(EnvironmentError::NotInitialized);
        }
        match &self.python_path {
            Some(p) => Ok(p.clone()),
            None => Err(EnvironmentError::InterpreterNotFound),
        }
    }
}

/// The packages every build environment gets before the user's own.
pub open spec fn base_build_packages() -> Seq<Seq<char>> {
    seq!["setuptools>=60.0.0"@, "wheel>=0.37.0"@, "cython>=3.0.0"@]
}

pub open spec fn string_views(v: Seq<String>) -> Seq<Seq<char>> {
    v.map_values(|s: String| s@)
}

fn copy_option(o: &Option<String>) -> (r: Option<String>)
    ensures
        r == *o,
{
    match o {
        Some(s) => Some(s.clone()),
        None => None,
    }
}

/// The packages to install for a build: the build backend's packages, then
/// those the configuration asks for, in order.
pub fn build_environment_packages(config: &CompileConfig) -> (r: Vec<String>)
    ensures
        string_views(r@) == base_build_packages() + string_views(config.packages@),
{
    let mut packages: Vec<String> = Vec::new();
    packages.push(String::from_str("setuptools>=60.0.0"));
    packages.push(String::from_str("wheel>=0.37.0"));
    packages.push(String::from_str("cython>=3.0.0"));
    assert(string_views(packages@) =~= base_build_packages());
    let mut i: usize = 0;
    while i < config.packages.len()
        invariant
            i <= config.packages@.len(),
            string_views(packages@) == base_build_packages() + string_views(
                config.packages@.take(i as int),
            ),
        decreases config.packages@.len() - i,
    {
        let ghost before = packages@;
        packages.push(config.packages[i].clone());
        assert(string_views(packages@) =~= string_views(before).push(config.packages@[i as int]@));
        assert(string_views(config.packages@.take(i + 1)) =~= string_views(
            config.packages@.take(i as int),
        ).push(config.packages@[i as int]@));
        assert(string_views(packages@) =~= base_build_packages() + string_views(
            config.packages@.take(i + 1),
        ));
        i += 1;
    }
    assert(config.packages@.take(config.packages@.len() as int) =~= config.packages@);
    packages
}

/// The environment settings for building with `config`.
pub fn build_environment_config(config: &CompileConfig) -> (r: UvEnvConfig)
    ensures
        r.python_path == config.python_path,
        r.python_version == config.python_version,
        r.keep_venv == config.keep_temp_files,
        string_views(r.packages@) == base_build_packages() + string_views(config.packages@),
{
    UvEnvConfig {
        python_path: copy_option(&config.python_path),
        python_version: copy_option(&config.python_version),
        keep_venv: config.keep_temp_files,
        packages: build_environment_packages(config),
    }
}

/// The arguments of the package manager's command that creates a virtual
/// environment at `venv_path`: a requested version wins over an interpreter
/// path.
pub open spec fn venv_args(config: UvEnvConfig, venv_path: Seq<char>) -> Seq<Seq<char>> {
    match config.python_version {
        Some(v) => seq!["venv"@, "--python"@, v@, venv_path],
        None => match config.python_path {
            Some(p) => seq!["venv"@, "--python"@, p@, venv_path],
            None => seq!["venv"@, venv_path],
        },
    }
}

pub fn venv_command_args(config: &UvEnvConfig, venv_path: &str) -> (r: Vec<String>)
    ensures
        string_views(r@) == venv_args(*config, venv_path@),
{
    let mut args: Vec<String> = Vec::new();
    args.push(String::from_str("venv"));
    match &config.python_version {
        Some(v) => {
            args.push(String::from_str("--python"));
            args.push(v.clone());
        },
        None => match &config.python_path {
            Some(p) => {
                args.push(String::from_str("--python"));
                args.push(p.clone());
            },
            None => {},
        },
    }
    args.push(String::from_str(venv_path));
    assert(string_views(args@) =~= venv_args(*config, venv_path@));
    args
}

/// The arguments of the package manager's command that installs `packages`.
pub fn install_command_args(packages: &Vec<String>) -> (r: Vec<String>)
    ensures
        string_views(r@) == seq!["pip"@, "install"@] + string_views(packages@),
{
    let mut args: Vec<String> = Vec::new();
    args.push(String::from_str("pip"));
    args.push(String::from_str("install"));
    let mut i: usize = 0;
    while i < packages.len()
        invariant
            i <= packages@.len(),
            string_views(args@) == seq!["pip"@, "install"@] + string_views(packages@.take(i as int)),
        decreases packages@.len() - i,
    {
        let ghost before = args@;
        args.push(packages[i].clone());
        assert(string_views(args@) =~= string_views(before).push(packages@[i as int]@));
        assert(string_views(packages@.take(i + 1)) =~= string_views(packages@.take(i as int)).push(
            packages@[i as int]@,
        ));
        assert(string_views(args@) =~= seq!["pip"@, "install"@] + string_views(
            packages@.take(i + 1),
        ));
        i += 1;
    }
    assert(packages@.take(packages@.len() as int) =~= packages@);
    args
}

/// The lines of the setup script that builds `module_name` from its source
/// file as a limited-API extension.
pub open spec fn setup_py_lines(module_name: Seq<char>) -> Seq<Seq<char>> {
    seq![
        "from setuptools import setup, Extension"@,
        "from setuptools.command.build_ext import build_ext"@,
        "import sys"@,
        ""@,
        "class ABI3BuildExt(build_ext):"@,
        "    def build_extension(self, ext):"@,
        "        ext.py_limited_api = True"@,
        "        super().build_extension(ext)"@,
        ""@,
        "setup("@,
        "    name='"@ + module_name + "',"@,
        "    version='0.1',"@,
        "    ext_modules=[Extension("@,
        "        '"@ + module_name + "',"@,
        "        sources=['"@ + module_name + ".py'],"@,
        "        py_limited_api=True,"@,
        "        define_macros=[('Py_LIMITED_API', '0x03070000')],"@,
        "    )],"@,
        "    cmdclass={'build_ext': ABI3BuildExt},"@,
        ")"@,
    ]
}

/// Emits the setup script that builds `module_name` as an extension.
pub fn generate_setup_py(module_name: &str) -> (r: String)
    ensures
        r@ == join_lines(setup_py_lines(module_name@)),
{
    let mut out = String::new();
    let ghost mut ls: Seq<Seq<char>> = Seq::empty();
    proof {
        reveal_strlit("");
    }
    emit_line(&mut out, Ghost(ls), "from setuptools import setup, Extension");
    proof { ls = ls.push("from setuptools import setup, Extension"@); }
    emit_line(&mut out, Ghost(ls), "from setuptools.command.build_ext import build_ext");
    proof { ls = ls.push("from setuptools.command.build_ext import build_ext"@); }
    emit_line(&mut out, Ghost(ls), "import sys");
    proof { ls = ls.push("import sys"@); }
    emit_line(&mut out, Ghost(ls), "");
    proof { ls = ls.push(""@); }
    emit_line(&mut out, Ghost(ls), "class ABI3BuildExt(build_ext):");
    proof { ls = ls.push("class ABI3BuildExt(build_ext):"@); }
    emit_line(&mut out, Ghost(ls), "    def build_extension(self, ext):");
    proof { ls = ls.push("    def build_extension(self, ext):"@); }
    emit_line(&mut out, Ghost(ls), "        ext.py_limited_api = True");
    proof { ls = ls.push("        ext.py_limited_api = True"@); }
    emit_line(&mut out, Ghost(ls), "        super().build_extension(ext)");
    proof { ls = ls.push("        super().build_extension(ext)"@); }
    emit_line(&mut out, Ghost(ls), "");
    proof { ls = ls.push(""@); }
    emit_line(&mut out, Ghost(ls), "setup(");
    proof { ls = ls.push("setup("@); }
    emit_named_line(&mut out, Ghost(ls), "    name='", module_name, "',");
    proof { ls = ls.push("    name='"@ + module_name@ + "',"@); }
    emit_line(&mut out, Ghost(ls), "    version='0.1',");
    proof { ls = ls.push("    version='0.1',"@); }
    emit_line(&mut out, Ghost(ls), "    ext_modules=[Extension(");
    proof { ls = ls.push("    ext_modules=[Extension("@); }
    emit_named_line(&mut out, Ghost(ls), "        '", module_name, "',");
    proof { ls = ls.push("        '"@ + module_name@ + "',"@); }
    emit_named_line(&mut out, Ghost(ls), "        sources=['", module_name, ".py'],");
    proof { ls = ls.push("        sources=['"@ + module_name@ + ".py'],"@); }
    emit_line(&mut out, Ghost(ls), "        py_limited_api=True,");
    proof { ls = ls.push("        py_limited_api=True,"@); }
    emit_line(&mut out, Ghost(ls), "        define_macros=[('Py_LIMITED_API', '0x03070000')],");
    proof { ls = ls.push("        define_macros=[('Py_LIMITED_API', '0x03070000')],"@); }
    emit_line(&mut out, Ghost(ls), "    )],");
    proof { ls = ls.push("    )],"@); }
    emit_line(&mut out, Ghost(ls), "    cmdclass={'build_ext': ABI3BuildExt},");
    proof { ls = ls.push("    cmdclass={'build_ext': ABI3BuildExt},"@); }
    emit_line(&mut out, Ghost(ls), ")");
    proof {
        ls = ls.push(")"@);
        assert(ls =~= setup_py_lines(module_name@));
    }
    out
}

/// The lines of the `pyproject.toml` that lets maturin build the extension.
pub open spec fn pyproject_lines() -> Seq<Seq<char>> {
    seq![
        "[build-system]"@,
        "requires = [\"maturin>=1.0,<2.0\"]"@,
        "build-backend = \"maturin\""@,
        ""@,
        "[project]"@,
        "name = \"extension_module\""@,
        "requires-python = \">=3.7\""@,
        ""@,
        "[tool.maturin]"@,
        "features = [\"pyo3/extension-module\"]"@,
    ]
}

/// Emits the `pyproject.toml` of the extension project.
pub fn generate_pyproject_toml() -> (r: String)
    ensures
        r@ == join_lines(pyproject_lines()),
{
    let mut out = String::new();
    let ghost mut ls: Seq<Seq<char>> = Seq::empty();
    proof {
        reveal_strlit("");
    }
    emit_line(&mut out, Ghost(ls), "[build-system]");
    proof { ls = ls.push("[build-system]"@); }
    emit_line(&mut out, Ghost(ls), "requires = [\"maturin>=1.0,<2.0\"]");
    proof { ls = ls.push("requires = [\"maturin>=1.0,<2.0\"]"@); }
    emit_line(&mut out, Ghost(ls), "build-backend = \"maturin\"");
    proof { ls = ls.push("build-backend = \"maturin\""@); }
    emit_line(&mut out, Ghost(ls), "");
    proof { ls = ls.push(""@); }
    emit_line(&mut out, Ghost(ls), "[project]");
    proof { ls = ls.push("[project]"@); }
    emit_line(&mut out, Ghost(ls), "name = \"extension_module\"");
    proof { ls = ls.push("name = \"extension_module\""@); }
    emit_line(&mut out, Ghost(ls), "requires-python = \">=3.7\"");
    proof { ls = ls.push("requires-python = \">=3.7\""@); }
    emit_line(&mut out, Ghost(ls), "");
    proof { ls = ls.push(""@); }
    emit_line(&mut out, Ghost(ls), "[tool.maturin]");
    proof { ls = ls.push("[tool.maturin]"@); }
    emit_line(&mut out, Ghost(ls), "features = [\"pyo3/extension-module\"]");
    proof {
        ls = ls.push("features = [\"pyo3/extension-module\"]"@);
        assert(ls =~= pyproject_lines());
    }
    out
}

} // verus!
