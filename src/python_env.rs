use vstd::prelude::*;
use vstd::string::*;

verus! {

/// The text of the first capture group of the leftmost match of `pattern`
/// in `text`; `None` where the pattern is invalid, nothing matches, or the
/// group took no part in the match.
pub uninterp spec fn first_group(pattern: Seq<char>, text: Seq<char>) -> Option<Seq<char>>;

/// Relies on `regex::Regex::new` and `Regex::captures`: the first group of
/// the leftmost match, which depends on the pattern and the text alone.
#[verifier::external_body]
fn capture_first_group(pattern: &str, text: &str) -> (r: Option<String>)
    ensures
        r is Some <==> first_group(pattern@, text@) is Some,
        r is Some ==> r->0@ == first_group(pattern@, text@)->0,
{
    regex::Regex::new(pattern).ok()?.captures(text)?.get(1).map(|m| m.as_str().to_string())
}

pub open spec fn is_ascii_digit(c: char) -> bool {
    '0' <= c && c <= '9'
}

pub open spec fn all_ascii_digits(d: Seq<char>) -> bool {
    forall|i: int| 0 <= i < d.len() ==> is_ascii_digit(#[trigger] d[i])
}

/// The value of a run of decimal digits.
pub open spec fn digits_value(d: Seq<char>) -> nat
    decreases d.len(),
{
    if d.len() == 0 {
        0
    } else {
        digits_value(d.drop_last()) * 10 + ((d.last() as nat) - ('0' as nat)) as nat
    }
}

/// The digits after an optional leading `+`.
pub open spec fn unsigned_digits(s: Seq<char>) -> Seq<char> {
    if s.len() > 0 && s[0] == '+' {
        s.skip(1)
    } else {
        s
    }
}

/// What `str::parse::<u32>` gives: an optional `+` and at least one ASCII
/// digit, whose value fits in a `u32`.
pub open spec fn parsed_u32(s: Seq<char>) -> Option<u32> {
    let d = unsigned_digits(s);
    if d.len() > 0 && all_ascii_digits(d) && digits_value(d) <= u32::MAX {
        Some(digits_value(d) as u32)
    } else {
        None
    }
}

proof fn lemma_digits_value_grows(d: Seq<char>, i: int)
    requires
        0 <= i <= d.len(),
        all_ascii_digits(d),
    ensures
        digits_value(d.take(i)) <= digits_value(d),
    decreases d.len() - i,
{
    if i < d.len() {
        lemma_digits_value_grows(d, i + 1);
        assert(d.take(i + 1).drop_last() =~= d.take(i));
        assert(is_ascii_digit(d[i]));
    } else {
        assert(d.take(i) =~= d);
    }
}

/// Reads a decimal `u32` as `str::parse` does.
pub fn parse_u32(s: &str) -> (r: Option<u32>)
    ensures
        r == parsed_u32(s@),
{
    let n = s.unicode_len();
    let mut i: usize = 0;
    if n > 0 && s.get_char(0) == '+' {
        i = 1;
    }
    let start = i;
    let ghost d = unsigned_digits(s@);
    assert(d =~= s@.skip(start as int));
    if start == n {
        return None;
    }
    let mut acc: u64 = 0;
    while i < n
        invariant
            start <= i <= n,
            n == s@.len(),
            d == s@.skip(start as int),
            d == unsigned_digits(s@),
            start < n,
            all_ascii_digits(d.take(i - start)),
            acc == digits_value(d.take(i - start)),
            acc <= u32::MAX,
        decreases n - i,
    {
        let c = s.get_char(i);
        assert(c == d[i - start]);
        if c < '0' || c > '9' {
            assert(!is_ascii_digit(d[i - start]));
            assert(!all_ascii_digits(d));
            assert(parsed_u32(s@) is None);
            return None;
        }
        let digit = (c as u32 - '0' as u32) as u64;
        proof {
            assert(d.take(i - start + 1).drop_last() =~= d.take(i - start));
            assert(d.take(i - start + 1).last() == c);
        }
        acc = acc * 10 + digit;
        assert(acc == digits_value(d.take(i - start + 1)));
        assert(all_ascii_digits(d.take(i - start + 1)));
        if acc > u32::MAX as u64 {
            proof {
                if all_ascii_digits(d) {
                    lemma_digits_value_grows(d, i - start + 1);
                }
                assert(parsed_u32(s@) is None);
            }
            return None;
        }
        i += 1;
    }
    assert(d.take(n - start) =~= d);
    Some(acc as u32)
}

/// The major version in an interpreter's `--version` text was not a number.
#[derive(Debug)]
pub struct VersionParseError {
    pub version_text: String,
}

/// What the major version digits `digits` (if any were found) say of the
/// interpreter: version 3 or later, or an error where they are no `u32`.
pub open spec fn major_at_least_3(digits: Option<Seq<char>>) -> Option<bool> {
    match digits {
        None => Some(false),
        Some(d) => match parsed_u32(d) {
            Some(v) => Some(v >= 3),
            None => None,
        },
    }
}

/// Decides from the major version digits found, if any.
pub fn is_major_at_least_3(digits: Option<&str>) -> (r: Option<bool>)
    ensures
        r == major_at_least_3(
            match digits {
                Some(d) => Some(d@),
                None => None,
            },
        ),
{
    match digits {
        None => Some(false),
        Some(d) => match parse_u32(d) {
            Some(v) => Some(v >= 3),
            None => None,
        },
    }
}

/// Whether an interpreter's version text names Python 3 or later: the number
/// after the first `Python ` and before the next `.`.
pub fn is_python3_version(version_str: &str) -> (r: Result<bool, VersionParseError>)
    ensures
        major_at_least_3(first_group("Python (\\d+)\\."@, version_str@)) is Some ==> r == Ok::<
            bool,
            VersionParseError,
        >(major_at_least_3(first_group("Python (\\d+)\\."@, version_str@))->0),
        major_at_least_3(first_group("Python (\\d+)\\."@, version_str@)) is None ==> r is Err,
{
    let found = capture_first_group("Python (\\d+)\\.", version_str);
    let decided = match &found {
        Some(d) => is_major_at_least_3(Some(d.as_str())),
        None => is_major_at_least_3(None),
    };
    match decided {
        Some(b) => Ok(b),
        None => Err(VersionParseError { version_text: String::from_str(version_str) }),
    }
}

} // verus!
