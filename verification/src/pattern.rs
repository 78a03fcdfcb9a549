//! Compiled regular expressions, and what the three expressions that this
//! crate compiles accept.

use crate::text::{is_alnum, is_lower, is_upper};
use regex::Regex;
use vstd::prelude::*;

verus! {

/// `regex::Regex`, opaque to the verifier.
#[verifier::external_type_specification]
#[verifier::external_body]
pub struct ExRegex(regex::Regex);

/// `regex::Error`, opaque to the verifier.
#[verifier::external_type_specification]
#[verifier::external_body]
pub struct ExRegexError(regex::Error);

/// The pattern text from which `Regex::new` built the expression. Of an
/// expression built in any other way nothing is said.
pub uninterp spec fn regex_source(re: Regex) -> Seq<char>;

/// Admits any name that could be a component's.
pub const LOOSE_COMPONENT: &'static str = "^[A-Z][a-zA-Z0-9]*$";

/// Admits only names that cannot be taken for a constant's.
pub const STRICT_COMPONENT: &'static str = "^[A-Z][a-zA-Z0-9]*[a-z]+[a-zA-Z0-9]*$";

/// Admits the names of state setters.
pub const SETTER: &'static str = "^set[A-Z]";

/// An upper-case letter followed by letters and digits only.
pub open spec fn loose_pascal(s: Seq<char>) -> bool {
    &&& s.len() >= 1
    &&& is_upper(s[0])
    &&& forall|i: int| 1 <= i < s.len() ==> is_alnum(#[trigger] s[i])
}

/// As `loose_pascal`, with a lower-case letter somewhere after the first
/// character.
pub open spec fn strict_pascal(s: Seq<char>) -> bool {
    &&& loose_pascal(s)
    &&& exists|i: int| 1 <= i < s.len() && is_lower(#[trigger] s[i])
}

/// The text begins with `set` and an upper-case letter.
pub open spec fn setter_like(s: Seq<char>) -> bool {
    &&& s.len() >= 4
    &&& s[0] == 's'
    &&& s[1] == 'e'
    &&& s[2] == 't'
    &&& is_upper(s[3])
}

/// Which of this crate's expressions could not be compiled.
#[derive(Clone, Copy, Debug, PartialEq, Eq, Structural)]
pub enum PatternError {
    LooseComponent,
    StrictComponent,
    Setter,
}

/// Whether `Regex::new` accepts the pattern text: it is well-formed and the
/// expression it stands for is within the outside crate's fixed size limit.
/// Which texts those are is the outside crate's to say.
pub uninterp spec fn pattern_compiles(pattern: Seq<char>) -> bool;

/// `Regex::new`. Whether it succeeds depends on the pattern text alone;
/// when it does, the expression remembers the text it was given.
#[verifier::external_body]
pub(crate) fn compile(pattern: &str) -> (r: Result<Regex, regex::Error>)
    ensures
        r is Ok <==> pattern_compiles(pattern@),
        r matches Ok(re) ==> regex_source(re) == pattern@,
{
    Regex::new(pattern)
}

/// `Regex::is_match`: whether the expression matches somewhere in `text`.
/// Of an arbitrary expression nothing is claimed. For the three that this
/// crate compiles the answer is written out as the syntax documentation of
/// the outside crate reads: `^` and `$` stand for the two ends of the text,
/// a bracketed class for one character within its ranges, `*` for any number
/// of repetitions and `+` for at least one.
#[verifier::external_body]
pub(crate) fn is_match(re: &Regex, text: &str) -> (b: bool)
    ensures
        regex_source(*re) == LOOSE_COMPONENT@ ==> b == loose_pascal(text@),
        regex_source(*re) == STRICT_COMPONENT@ ==> b == strict_pascal(text@),
        regex_source(*re) == SETTER@ ==> b == setter_like(text@),
{
    re.is_match(text)
}

} // verus!
