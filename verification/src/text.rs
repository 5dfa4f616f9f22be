//! Small helpers on strings.

use vstd::prelude::*;
use vstd::string::*;

verus! {

/// The path separator that endpoint addresses end with.
pub open spec fn slash() -> Seq<char> {
    seq!['/']
}

/// Whether `s` ends with the character `c`.
pub open spec fn ends_with(s: Seq<char>, c: char) -> bool {
    s.len() > 0 && s.last() == c
}

/// Calls `str::ends_with` with a `char` pattern. The standard library
/// documents that it returns `true` exactly when the pattern matches a suffix
/// of the slice; for a single character that is: the slice is not empty and
/// its last character is that one.
#[verifier::external_body]
pub(crate) fn has_suffix_char(s: &str, c: char) -> (result: bool)
    ensures
        result == ends_with(s@, c),
{
    s.ends_with(c)
}

/// `a` followed by `b`, as an owned string.
pub fn join(a: &str, b: &str) -> (result: String)
    ensures
        result@ == a@ + b@,
{
    let mut out = String::from_str(a);
    out.append(b);
    out
}

/// `s`, with a `/` added at its end unless it ends with one already.
pub open spec fn with_trailing_slash(s: Seq<char>) -> Seq<char> {
    if ends_with(s, '/') {
        s
    } else {
        s + slash()
    }
}

/// Makes `s` end with a `/`: adds one unless the last character is one.
pub fn ensure_trailing_slash(s: String) -> (result: String)
    ensures
        result@ == with_trailing_slash(s@),
        ends_with(result@, '/'),
{
    if has_suffix_char(s.as_str(), '/') {
        s
    } else {
        proof {
            reveal_strlit("/");
            assert("/"@ =~= slash());
        }
        s.concat("/")
    }
}

} // verus!
