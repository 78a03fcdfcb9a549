//! Tests on identifier text.

use vstd::prelude::*;
use vstd::string::StrSliceExecFns;

verus! {

/// `A` to `Z`.
pub open spec fn is_upper(c: char) -> bool {
    'A' <= c <= 'Z'
}

/// `a` to `z`.
pub open spec fn is_lower(c: char) -> bool {
    'a' <= c <= 'z'
}

/// `0` to `9`.
pub open spec fn is_digit(c: char) -> bool {
    '0' <= c <= '9'
}

/// An ASCII letter or digit.
pub open spec fn is_alnum(c: char) -> bool {
    is_upper(c) || is_lower(c) || is_digit(c)
}

/// The text begins with the four letters `with`.
pub open spec fn with_prefixed(s: Seq<char>) -> bool {
    &&& s.len() >= 4
    &&& s[0] == 'w'
    &&& s[1] == 'i'
    &&& s[2] == 't'
    &&& s[3] == 'h'
}

/// Some element of `names` reads the same as `name`.
pub open spec fn listed(names: Seq<String>, name: Seq<char>) -> bool {
    exists|i: int| 0 <= i < names.len() && (#[trigger] names[i])@ == name
}

/// `==` of `str`: the two hold the same characters.
#[verifier::external_body]
pub(crate) fn str_eq(a: &str, b: &str) -> (r: bool)
    ensures
        r == (a@ == b@),
{
    a == b
}

/// Whether `name` begins with `with`.
pub fn has_with_prefix(name: &str) -> (r: bool)
    ensures
        r == with_prefixed(name@),
{
    if name.unicode_len() < 4 {
        return false;
    }
    name.get_char(0) == 'w' && name.get_char(1) == 'i' && name.get_char(2) == 't'
        && name.get_char(3) == 'h'
}

/// Whether `name` is among `names`.
pub fn is_listed(names: &Vec<String>, name: &str) -> (r: bool)
    ensures
        r == listed(names@, name@),
{
    let mut i: usize = 0;
    while i < names.len()
        invariant
            i <= names.len(),
            forall|j: int| 0 <= j < i ==> (#[trigger] names@[j])@ != name@,
        decreases names.len() - i,
    {
        if str_eq(names[i].as_str(), name) {
            return true;
        }
        i += 1;
    }
    false
}

} // verus!
