use crate::build_tools::Platform;
use vstd::prelude::*;
use vstd::string::*;

verus! {

/// Why building one module failed.
#[derive(Debug)]
pub enum BuildError {
    /// The build command exited unsuccessfully; its output, verbatim.
    ToolchainFailed { output: String },
    /// The build succeeded but left no library with the platform's extension.
    ArtifactNotFound,
    /// A file could not be read, written or copied.
    IoError { message: String },
}

/// The extension of a dynamic library on `platform`.
pub open spec fn library_extension_of(platform: Platform) -> Seq<char> {
    match platform {
        Platform::Windows => "dll"@,
        Platform::MacOs => "dylib"@,
        Platform::Unix => "so"@,
    }
}

pub fn library_extension(platform: Platform) -> (r: &'static str)
    ensures
        r@ == library_extension_of(platform),
{
    match platform {
        Platform::Windows => "dll",
        Platform::MacOs => "dylib",
        Platform::Unix => "so",
    }
}

/// The extension of a compiled Python module on `platform`.
pub open spec fn module_extension_of(platform: Platform) -> Seq<char> {
    if platform == Platform::Windows {
        "pyd"@
    } else {
        "so"@
    }
}

pub fn module_extension(platform: Platform) -> (r: &'static str)
    ensures
        r@ == module_extension_of(platform),
{
    if platform == Platform::Windows {
        "pyd"
    } else {
        "so"
    }
}

/// The file name `name` ends in `.` and the extension `ext`, after a
/// non-empty stem.
pub open spec fn has_extension_spec(name: Seq<char>, ext: Seq<char>) -> bool {
    ext.len() + 2 <= name.len() && name.skip(name.len() - ext.len()) == ext && name[name.len()
        - ext.len() - 1] == '.'
}

/// Whether the file name `name` has the extension `ext`.
pub fn has_extension(name: &str, ext: &str) -> (r: bool)
    ensures
        r == has_extension_spec(name@, ext@),
{
    let n = name.unicode_len();
    let e = ext.unicode_len();
    if n < 2 || e > n - 2 {
        return false;
    }
    let start = n - e;
    if name.get_char(start - 1) != '.' {
        return false;
    }
    let mut i: usize = 0;
    while i < e
        invariant
            e == ext@.len(),
            n == name@.len(),
            start == n - e,
            e + 2 <= n,
            i <= e,
            forall|j: int| 0 <= j < i ==> name@[start + j] == ext@[j],
        decreases e - i,
    {
        if name.get_char(start + i) != ext.get_char(i) {
            assert(name@.skip(start as int)[i as int] != ext@[i as int]);
            return false;
        }
        i += 1;
    }
    assert(name@.skip(start as int) =~= ext@);
    true
}

/// Index of the first file name in `names` that has the extension `ext`.
pub fn find_first_with_extension(names: &Vec<String>, ext: &str) -> (r: Option<usize>)
    ensures
        r is Some ==> r->0 < names@.len() && has_extension_spec(names@[r->0 as int]@, ext@)
            && forall|j: int| 0 <= j < r->0 ==> !has_extension_spec(#[trigger] names@[j]@, ext@),
        r is None ==> forall|j: int|
            0 <= j < names@.len() ==> !has_extension_spec(#[trigger] names@[j]@, ext@),
{
    let mut i: usize = 0;
    while i < names.len()
        invariant
            i <= names@.len(),
            forall|j: int| 0 <= j < i ==> !has_extension_spec(#[trigger] names@[j]@, ext@),
        decreases names@.len() - i,
    {
        if has_extension(names[i].as_str(), ext) {
            return Some(i);
        }
        i += 1;
    }
    None
}

/// Index of the built library among the file names of the output directory:
/// the first whose extension is the platform's library extension.
pub fn find_artifact(names: &Vec<String>, platform: Platform) -> (r: Option<usize>)
    ensures
        r is Some ==> r->0 < names@.len() && has_extension_spec(
            names@[r->0 as int]@,
            library_extension_of(platform),
        ) && forall|j: int|
            0 <= j < r->0 ==> !has_extension_spec(
                #[trigger] names@[j]@,
                library_extension_of(platform),
            ),
        r is None ==> forall|j: int|
            0 <= j < names@.len() ==> !has_extension_spec(
                #[trigger] names@[j]@,
                library_extension_of(platform),
            ),
{
    find_first_with_extension(names, library_extension(platform))
}

/// A Python source file, by its name.
pub fn is_python_file(name: &str) -> (r: bool)
    ensures
        r == has_extension_spec(name@, "py"@),
{
    has_extension(name, "py")
}

/// The file name the build gives the library of a crate named `crate_name`.
pub open spec fn expected_library_name_of(crate_name: Seq<char>, platform: Platform) -> Seq<char> {
    match platform {
        Platform::Windows => crate_name + ".dll"@,
        Platform::MacOs => "lib"@ + crate_name + ".dylib"@,
        Platform::Unix => "lib"@ + crate_name + ".so"@,
    }
}

pub fn expected_library_name(crate_name: &str, platform: Platform) -> (r: String)
    ensures
        r@ == expected_library_name_of(crate_name@, platform),
{
    match platform {
        Platform::Windows => {
            let mut s = String::from_str(crate_name);
            s.append(".dll");
            s
        },
        Platform::MacOs => {
            let mut s = String::from_str("lib");
            s.append(crate_name);
            s.append(".dylib");
            s
        },
        Platform::Unix => {
            let mut s = String::from_str("lib");
            s.append(crate_name);
            s.append(".so");
            s
        },
    }
}

/// Decides the outcome of one build from what the build command reported:
/// a failed command gives its output back verbatim and nothing is copied;
/// a successful one needs a located library, which is then the file to copy.
pub fn build_outcome(succeeded: bool, output: String, artifact: Option<String>) -> (r: Result<
    String,
    BuildError,
>)
    ensures
        !succeeded ==> (r matches Err(BuildError::ToolchainFailed { output: o }) && o == output),
        succeeded && artifact is None ==> (r matches Err(BuildError::ArtifactNotFound)),
        succeeded && artifact is Some ==> r == Ok::<String, BuildError>(artifact->0),
{
    if !succeeded {
        return Err(BuildError::ToolchainFailed { output });
    }
    match artifact {
        Some(path) => Ok(path),
        None => Err(BuildError::ArtifactNotFound),
    }
}

/// The counts of a batch: units built and units that failed.
#[derive(Debug, Clone, Copy, PartialEq, Eq, Structural)]
pub struct BatchReport {
    pub success_count: usize,
    pub failure_count: usize,
}

/// The number of outcomes equal to `b`.
pub open spec fn count_outcomes(outcomes: Seq<bool>, b: bool) -> nat {
    outcomes.filter(outcome_is(b)).len()
}

pub open spec fn outcome_is(b: bool) -> spec_fn(bool) -> bool {
    |x: bool| x == b
}

impl BatchReport {
    /// A batch with nothing done yet.
    pub fn new() -> (r: Self)
        ensures
            r.success_count == 0,
            r.failure_count == 0,
    {
        BatchReport { success_count: 0, failure_count: 0 }
    }

    /// Counts one more unit, built or failed; a failure does not stop the batch.
    pub fn record(&mut self, succeeded: bool)
        requires
            old(self).success_count + old(self).failure_count < usize::MAX,
        ensures
            succeeded ==> final(self).success_count == old(self).success_count + 1
                && final(self).failure_count == old(self).failure_count,
            !succeeded ==> final(self).failure_count == old(self).failure_count + 1
                && final(self).success_count == old(self).success_count,
    {
        if succeeded {
            self.success_count = self.success_count + 1;
        } else {
            self.failure_count = self.failure_count + 1;
        }
    }

    /// The process exit code of a batch run: 0 whatever failed, the failures
    /// being reported by the counts.
    pub fn exit_code(&self) -> (r: i32)
        ensures
            r == 0,
    {
        0
    }
}

/// The report of a batch whose units ended with `outcomes`, one per unit.
pub fn tally(outcomes: &Vec<bool>) -> (r: BatchReport)
    ensures
        r.success_count == count_outcomes(outcomes@, true),
        r.failure_count == count_outcomes(outcomes@, false),
{
    let mut report = BatchReport::new();
    let mut i: usize = 0;
    while i < outcomes.len()
        invariant
            i <= outcomes@.len(),
            report.success_count == count_outcomes(outcomes@.take(i as int), true),
            report.failure_count == count_outcomes(outcomes@.take(i as int), false),
            report.success_count + report.failure_count == i,
        decreases outcomes@.len() - i,
    {
        proof {
            let p = outcomes@.take(i as int);
            assert(outcomes@.take(i + 1) =~= p.push(outcomes@[i as int]));
            p.lemma_filter_push(outcomes@[i as int], outcome_is(true));
            p.lemma_filter_push(outcomes@[i as int], outcome_is(false));
        }
        report.record(outcomes[i]);
        i += 1;
    }
    assert(outcomes@.take(outcomes@.len() as int) =~= outcomes@);
    report
}

} // verus!
