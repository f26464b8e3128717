use crate::build_tools::Platform;
use crate::orchestrator::{module_extension, module_extension_of};
use vstd::prelude::*;
use vstd::string::*;

verus! {

pub open spec fn separator_of(platform: Platform) -> Seq<char> {
    if platform == Platform::Windows {
        "\\"@
    } else {
        "/"@
    }
}

/// A character that separates path components on `platform`: `/` always,
/// and `\\` on Windows as well.
pub open spec fn is_separator(c: char, platform: Platform) -> bool {
    c == '/' || (platform == Platform::Windows && c == '\\')
}

/// `base` extended by the component `part`, as a path joins them: an empty
/// base adds no separator, nor does a base that already ends in one.
pub open spec fn join_one(base: Seq<char>, part: Seq<char>, platform: Platform) -> Seq<char> {
    if base.len() == 0 {
        part
    } else if is_separator(base.last(), platform) {
        base + part
    } else {
        base + separator_of(platform) + part
    }
}

/// `base` extended by the components `parts`, one after another.
pub open spec fn joined(base: Seq<char>, parts: Seq<Seq<char>>, platform: Platform) -> Seq<char>
    decreases parts.len(),
{
    if parts.len() == 0 {
        base
    } else {
        join_one(joined(base, parts.drop_last(), platform), parts.last(), platform)
    }
}

/// Whether `c` separates path components on `platform`.
pub fn separator_char(c: char, platform: Platform) -> (r: bool)
    ensures
        r == is_separator(c, platform),
{
    c == '/' || (platform == Platform::Windows && c == '\\')
}

pub fn join_component(base: String, part: &str, platform: Platform) -> (r: String)
    ensures
        r@ == join_one(base@, part@, platform),
{
    let n = base.as_str().unicode_len();
    if n == 0 {
        String::from_str(part)
    } else if separator_char(base.as_str().get_char(n - 1), platform) {
        let mut s = base;
        s.append(part);
        s
    } else {
        let mut s = base;
        if platform == Platform::Windows {
            s.append("\\");
        } else {
            s.append("/");
        }
        s.append(part);
        s
    }
}

pub fn join2(base: &str, a: &str, b: &str, platform: Platform) -> (r: String)
    ensures
        r@ == joined(base@, seq![a@, b@], platform),
{
    let s = join1(base, a, platform);
    let r = join_component(s, b, platform);
    proof {
        assert(seq![a@, b@].drop_last() =~= seq![a@]);
    }
    r
}

pub fn join3(base: &str, a: &str, b: &str, c: &str, platform: Platform) -> (r: String)
    ensures
        r@ == joined(base@, seq![a@, b@, c@], platform),
{
    let s = join2(base, a, b, platform);
    let r = join_component(s, c, platform);
    proof {
        assert(seq![a@, b@, c@].drop_last() =~= seq![a@, b@]);
    }
    r
}

pub fn join1(base: &str, a: &str, platform: Platform) -> (r: String)
    ensures
        r@ == joined(base@, seq![a@], platform),
{
    let r = join_component(String::from_str(base), a, platform);
    proof {
        assert(seq![a@].drop_last() =~= Seq::<Seq<char>>::empty());
        assert(joined(base@, Seq::<Seq<char>>::empty(), platform) == base@);
        assert(seq![a@].last() == a@);
    }
    r
}

/// The interpreter inside the virtual environment at `venv_dir`.
pub open spec fn venv_python_of(venv_dir: Seq<char>, platform: Platform) -> Seq<char> {
    if platform == Platform::Windows {
        joined(venv_dir, seq!["Scripts"@, "python.exe"@], platform)
    } else {
        joined(venv_dir, seq!["bin"@, "python"@], platform)
    }
}

/// The path of the interpreter inside the virtual environment at `venv_dir`.
pub fn venv_python_path(venv_dir: &str, platform: Platform) -> (r: String)
    ensures
        r@ == venv_python_of(venv_dir@, platform),
{
    if platform == Platform::Windows {
        join2(venv_dir, "Scripts", "python.exe", platform)
    } else {
        join2(venv_dir, "bin", "python", platform)
    }
}

/// Index of the last `.` in `s`, or -1 where there is none.
pub open spec fn last_dot(s: Seq<char>) -> int
    decreases s.len(),
{
    if s.len() == 0 {
        -1
    } else if s.last() == '.' {
        s.len() - 1
    } else {
        last_dot(s.drop_last())
    }
}

/// The stem of a file name, as `Path::file_stem` takes it: the name up to
/// its last `.`, or the whole name where the only `.` leads it, there is
/// none, or the name is `..`.
pub open spec fn stem_of(name: Seq<char>) -> Seq<char> {
    if name == ".."@ || last_dot(name) <= 0 {
        name
    } else {
        name.take(last_dot(name))
    }
}

proof fn lemma_last_dot_bounds(s: Seq<char>)
    ensures
        -1 <= last_dot(s) < s.len(),
        last_dot(s) >= 0 ==> s[last_dot(s)] == '.',
    decreases s.len(),
{
    if s.len() > 0 {
        lemma_last_dot_bounds(s.drop_last());
    }
}

/// The stem of the file name `name`: the module name of a source file.
pub fn module_name_of(name: &str) -> (r: String)
    ensures
        r@ == stem_of(name@),
{
    let n = name.unicode_len();
    let mut i: usize = n;
    assert(name@.take(n as int) =~= name@);
    while i > 0 && name.get_char(i - 1) != '.'
        invariant
            i <= n,
            n == name@.len(),
            last_dot(name@) == last_dot(name@.take(i as int)),
        decreases i,
    {
        proof {
            assert(name@.take(i as int).drop_last() =~= name@.take(i - 1));
        }
        i -= 1;
    }
    proof {
        lemma_last_dot_bounds(name@);
        if i > 0 {
            assert(name@.take(i as int).last() == '.');
            assert(last_dot(name@) == i - 1);
        } else {
            assert(name@.take(0) =~= Seq::<char>::empty());
        }
        reveal_strlit("..");
    }
    if n == 2 && name.get_char(0) == '.' && name.get_char(1) == '.' {
        assert(name@ =~= ".."@);
        return String::from_str(name);
    }
    assert(name@ != ".."@ ==> !(n == 2 && name@[0] == '.' && name@[1] == '.'));
    if i <= 1 {
        String::from_str(name)
    } else {
        let r = name.substring_char(0, i - 1);
        assert(r@ =~= name@.take(i - 1));
        String::from_str(r)
    }
}

/// The output file name for the source file `name`: its stem with the
/// platform's extension for compiled modules.
pub open spec fn output_name_of(name: Seq<char>, platform: Platform) -> Seq<char> {
    stem_of(name) + "."@ + module_extension_of(platform)
}

/// The default output file name for the source file named `name`.
pub fn default_output_name(name: &str, platform: Platform) -> (r: String)
    ensures
        r@ == output_name_of(name@, platform),
{
    let mut r = module_name_of(name);
    r.append(".");
    r.append(module_extension(platform));
    r
}

/// Index one past the last separator in `s`, or 0 where there is none.
pub open spec fn after_last_separator(s: Seq<char>, platform: Platform) -> int
    decreases s.len(),
{
    if s.len() == 0 {
        0
    } else if is_separator(s.last(), platform) {
        s.len() as int
    } else {
        after_last_separator(s.drop_last(), platform)
    }
}

proof fn lemma_after_last_separator_bounds(s: Seq<char>, platform: Platform)
    ensures
        0 <= after_last_separator(s, platform) <= s.len(),
    decreases s.len(),
{
    if s.len() > 0 {
        lemma_after_last_separator_bounds(s.drop_last(), platform);
    }
}

/// Where a batch writes the module built from the source at `relative`
/// (its path below the input root): under `output_dir`, in the same
/// directories, with the platform's module extension in place of its own.
pub open spec fn batch_output_of(relative: Seq<char>, output_dir: Seq<char>, platform: Platform) -> Seq<char> {
    let k = after_last_separator(relative, platform);
    join_one(output_dir, relative.take(k) + output_name_of(relative.skip(k), platform), platform)
}

/// The output path of one unit of a batch.
pub fn batch_output_path(relative: &str, output_dir: &str, platform: Platform) -> (r: String)
    ensures
        r@ == batch_output_of(relative@, output_dir@, platform),
{
    let n = relative.unicode_len();
    let mut k: usize = n;
    assert(relative@.take(n as int) =~= relative@);
    while k > 0 && !separator_char(relative.get_char(k - 1), platform)
        invariant
            k <= n,
            n == relative@.len(),
            after_last_separator(relative@, platform) == after_last_separator(
                relative@.take(k as int),
                platform,
            ),
        decreases k,
    {
        proof {
            assert(relative@.take(k as int).drop_last() =~= relative@.take(k - 1));
        }
        k -= 1;
    }
    proof {
        if k == 0 {
            assert(relative@.take(0) =~= Seq::<char>::empty());
        } else {
            assert(relative@.take(k as int).last() == relative@[k - 1]);
        }
    }
    let dir = relative.substring_char(0, k);
    let file = relative.substring_char(k, n);
    let mut rest = String::from_str(dir);
    let name = default_output_name(file, platform);
    rest.append(name.as_str());
    assert(dir@ =~= relative@.take(k as int));
    assert(file@ =~= relative@.skip(k as int));
    join_component(String::from_str(output_dir), rest.as_str(), platform)
}

} // verus!
