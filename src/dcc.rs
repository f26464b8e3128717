use crate::build_tools::Platform;
use crate::config::string_views;
use crate::paths::{join1, join2, join3, joined};
use vstd::prelude::*;
use vstd::string::*;

verus! {

/// The host applications an extension can be built for.
#[derive(Debug, Clone, Copy, PartialEq, Eq, Structural)]
pub enum DCCEnvironment {
    Maya2022,
    Maya2023,
    Houdini19,
    Houdini20,
    Generic,
}

/// The name does not denote a known environment.
#[derive(Debug)]
pub struct UnknownEnvironment {
    pub name: String,
}

/// What `str::to_lowercase` makes of a text.
pub uninterp spec fn lowercase_of(s: Seq<char>) -> Seq<char>;

/// Relies on `str::to_lowercase`: the result depends on the characters alone.
#[verifier::external_body]
fn to_lowercase(s: &str) -> (r: String)
    ensures
        r@ == lowercase_of(s@),
{
    s.to_lowercase()
}

/// The environment a lower-case name denotes.
pub open spec fn environment_named(name: Seq<char>) -> Option<DCCEnvironment> {
    if name == "maya2022"@ {
        Some(DCCEnvironment::Maya2022)
    } else if name == "maya2023"@ {
        Some(DCCEnvironment::Maya2023)
    } else if name == "houdini19"@ {
        Some(DCCEnvironment::Houdini19)
    } else if name == "houdini20"@ {
        Some(DCCEnvironment::Houdini20)
    } else if name == "generic"@ {
        Some(DCCEnvironment::Generic)
    } else {
        None
    }
}

fn is_named(s: &String, lit: &str) -> (r: bool)
    ensures
        r == (s@ == lit@),
{
    *s == String::from_str(lit)
}

impl DCCEnvironment {
    /// The environment named by `name`, given in lower case.
    pub fn from_lowercase(name: &String) -> (r: Option<DCCEnvironment>)
        ensures
            r == environment_named(name@),
    {
        if is_named(name, "maya2022") {
            Some(DCCEnvironment::Maya2022)
        } else if is_named(name, "maya2023") {
            Some(DCCEnvironment::Maya2023)
        } else if is_named(name, "houdini19") {
            Some(DCCEnvironment::Houdini19)
        } else if is_named(name, "houdini20") {
            Some(DCCEnvironment::Houdini20)
        } else if is_named(name, "generic") {
            Some(DCCEnvironment::Generic)
        } else {
            None
        }
    }

    /// The environment named by `s`, in any case.
    pub fn from_str(s: &str) -> (r: Result<DCCEnvironment, UnknownEnvironment>)
        ensures
            r is Ok <==> environment_named(lowercase_of(s@)) is Some,
            r is Ok ==> r->Ok_0 == environment_named(lowercase_of(s@))->0,
            r is Err ==> r->Err_0.name@ == s@,
    {
        let lowered = to_lowercase(s);
        match DCCEnvironment::from_lowercase(&lowered) {
            Some(e) => Ok(e),
            None => Err(UnknownEnvironment { name: String::from_str(s) }),
        }
    }
}

/// `needle` occurs in `hay` at some position.
pub open spec fn occurs_in(needle: Seq<char>, hay: Seq<char>) -> bool {
    exists|i: int| 0 <= i <= hay.len() - needle.len() && #[trigger] hay.subrange(i, i + needle.len()) == needle
}

/// Whether `needle` occurs in `hay`.
pub fn contains_text(hay: &str, needle: &str) -> (r: bool)
    ensures
        r == occurs_in(needle@, hay@),
{
    let n = hay.unicode_len();
    let m = needle.unicode_len();
    if m > n {
        assert forall|i: int| 0 <= i <= hay@.len() - needle@.len() implies #[trigger] hay@.subrange(i, i + needle@.len()) != needle@ by {}
        return false;
    }
    let mut i: usize = 0;
    while i <= n - m
        invariant
            n == hay@.len(),
            m == needle@.len(),
            m <= n,
            i <= n - m + 1,
            forall|k: int| 0 <= k < i ==> #[trigger] hay@.subrange(k, k + m) != needle@,
        decreases n - m + 1 - i,
    {
        let mut j: usize = 0;
        let mut same = true;
        while j < m
            invariant
                n == hay@.len(),
                m == needle@.len(),
                i + m <= n,
                j <= m,
                same == forall|t: int| 0 <= t < j ==> hay@[i + t] == needle@[t],
            decreases m - j,
        {
            if hay.get_char(i + j) != needle.get_char(j) {
                same = false;
            }
            j += 1;
        }
        if same {
            assert(hay@.subrange(i as int, i + m) =~= needle@);
            return true;
        }
        proof {
            let t = choose|t: int| 0 <= t < m && hay@[i + t] != needle@[t];
            assert(hay@.subrange(i as int, i + m)[t] != needle@[t]);
        }
        i += 1;
    }
    false
}

/// The environment that the install locations of Maya and Houdini point to,
/// Maya first; `Generic` where neither names a known version.
pub open spec fn detected_environment(maya_location: Option<Seq<char>>, hfs: Option<Seq<char>>) -> DCCEnvironment {
    if maya_location is Some && occurs_in("2022"@, maya_location->0) {
        DCCEnvironment::Maya2022
    } else if maya_location is Some && occurs_in("2023"@, maya_location->0) {
        DCCEnvironment::Maya2023
    } else if hfs is Some && occurs_in("19."@, hfs->0) {
        DCCEnvironment::Houdini19
    } else if hfs is Some && occurs_in("20."@, hfs->0) {
        DCCEnvironment::Houdini20
    } else {
        DCCEnvironment::Generic
    }
}

pub open spec fn opt_view(o: Option<&str>) -> Option<Seq<char>> {
    match o {
        Some(s) => Some(s@),
        None => None,
    }
}

/// Detects the host application from the values of `MAYA_LOCATION` and `HFS`.
pub fn detect_dcc_environment(maya_location: Option<&str>, hfs: Option<&str>) -> (r: DCCEnvironment)
    ensures
        r == detected_environment(opt_view(maya_location), opt_view(hfs)),
{
    if let Some(m) = maya_location {
        if contains_text(m, "2022") {
            return DCCEnvironment::Maya2022;
        } else if contains_text(m, "2023") {
            return DCCEnvironment::Maya2023;
        }
    }
    if let Some(h) = hfs {
        if contains_text(h, "19.") {
            return DCCEnvironment::Houdini19;
        } else if contains_text(h, "20.") {
            return DCCEnvironment::Houdini20;
        }
    }
    DCCEnvironment::Generic
}

/// Build settings for a host application.
#[derive(Debug)]
pub struct DCCConfig {
    pub python_version: (u8, u8),
    pub include_paths: Vec<String>,
    pub library_paths: Vec<String>,
    pub required_libs: Vec<String>,
}

/// The settings of each host application, its paths under `location` (the
/// install directory the environment reports, possibly empty).
pub open spec fn dcc_config_of(env: DCCEnvironment, location: Seq<char>, platform: Platform) -> (
    (u8, u8),
    Seq<Seq<char>>,
    Seq<Seq<char>>,
    Seq<Seq<char>>,
) {
    match env {
        DCCEnvironment::Maya2022 => (
            (3, 7),
            seq![joined(location, seq!["include"@, "python3.7m"@], platform)],
            seq![joined(location, seq!["lib"@], platform)],
            seq!["python37"@],
        ),
        DCCEnvironment::Maya2023 => (
            (3, 9),
            seq![joined(location, seq!["include"@, "python3.9"@], platform)],
            seq![joined(location, seq!["lib"@], platform)],
            seq!["python39"@],
        ),
        DCCEnvironment::Houdini19 => (
            (3, 9),
            seq![joined(location, seq!["python"@, "include"@, "python3.9"@], platform)],
            seq![joined(location, seq!["python"@, "lib"@], platform)],
            seq!["python3.9"@],
        ),
        DCCEnvironment::Houdini20 => (
            (3, 10),
            seq![joined(location, seq!["python"@, "include"@, "python3.10"@], platform)],
            seq![joined(location, seq!["python"@, "lib"@], platform)],
            seq!["python3.10"@],
        ),
        DCCEnvironment::Generic => ((3, 10), seq![], seq![], seq![]),
    }
}

fn one(s: String) -> (r: Vec<String>)
    ensures
        string_views(r@) == seq![s@],
{
    let mut v: Vec<String> = Vec::new();
    v.push(s);
    assert(string_views(v@) =~= seq![s@]);
    v
}

/// The build settings of `env`, with paths under `location`: `MAYA_LOCATION`
/// for Maya, `HFS` for Houdini.
pub fn get_dcc_config(env: DCCEnvironment, location: &str, platform: Platform) -> (r: DCCConfig)
    ensures
        (r.python_version, string_views(r.include_paths@), string_views(r.library_paths@), string_views(
            r.required_libs@,
        )) == dcc_config_of(env, location@, platform),
{
    let r = match env {
        DCCEnvironment::Maya2022 => DCCConfig {
            python_version: (3, 7),
            include_paths: one(join2(location, "include", "python3.7m", platform)),
            library_paths: one(join1(location, "lib", platform)),
            required_libs: one(String::from_str("python37")),
        },
        DCCEnvironment::Maya2023 => DCCConfig {
            python_version: (3, 9),
            include_paths: one(join2(location, "include", "python3.9", platform)),
            library_paths: one(join1(location, "lib", platform)),
            required_libs: one(String::from_str("python39")),
        },
        DCCEnvironment::Houdini19 => DCCConfig {
            python_version: (3, 9),
            include_paths: one(join3(location, "python", "include", "python3.9", platform)),
            library_paths: one(join2(location, "python", "lib", platform)),
            required_libs: one(String::from_str("python3.9")),
        },
        DCCEnvironment::Houdini20 => DCCConfig {
            python_version: (3, 10),
            include_paths: one(join3(location, "python", "include", "python3.10", platform)),
            library_paths: one(join2(location, "python", "lib", platform)),
            required_libs: one(String::from_str("python3.10")),
        },
        DCCEnvironment::Generic => DCCConfig {
            python_version: (3, 10),
            include_paths: Vec::new(),
            library_paths: Vec::new(),
            required_libs: Vec::new(),
        },
    };
    proof {
        if env == DCCEnvironment::Generic {
            assert(string_views(r.include_paths@) =~= seq![]);
            assert(string_views(r.library_paths@) =~= seq![]);
            assert(string_views(r.required_libs@) =~= seq![]);
        }
    }
    r
}

} // verus!
