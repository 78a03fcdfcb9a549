//! Calls that wrap a function into a component.

use crate::binding::FirstArgument;
use crate::text::{has_with_prefix, str_eq, with_prefixed};
use vstd::prelude::*;

verus! {

/// The wrapper that forwards a reference to the function it is given.
pub const REFERENCE_FORWARDER: &'static str = "forwardRef";

/// The callee is a known wrapper: the reference forwarder, or any name that
/// begins with `with`.
pub open spec fn hoc_name(name: Seq<char>) -> bool {
    name == REFERENCE_FORWARDER@ || with_prefixed(name)
}

/// The call is one to a known wrapper.
pub open spec fn wraps(callee: Option<String>) -> bool {
    callee matches Some(c) && hoc_name(c@)
}

/// The name under which the function wrapped by a call is judged: its own
/// where it has one, else `own`, the name that the call's result is bound
/// or exported under. `None` where the callee is no known wrapper or what it
/// is given is no function.
pub open spec fn unwrapped(callee: Option<String>, first: FirstArgument, own: Seq<char>) -> Option<
    Seq<char>,
> {
    if wraps(callee) {
        match first {
            FirstArgument::Arrow => Some(own),
            FirstArgument::Function { name: Some(n) } => Some(n@),
            FirstArgument::Function { name: None } => Some(own),
            FirstArgument::Other => None,
        }
    } else {
        None
    }
}

/// Whether `name` is that of a known wrapper.
pub fn is_hoc_name(name: &str) -> (r: bool)
    ensures
        r == hoc_name(name@),
{
    str_eq(name, REFERENCE_FORWARDER) || has_with_prefix(name)
}

/// Whether a call with this callee is one to a known wrapper.
pub fn is_wrapper_call(callee: &Option<String>) -> (r: bool)
    ensures
        r == wraps(*callee),
{
    match callee {
        Some(c) => is_hoc_name(c.as_str()),
        None => false,
    }
}

/// Looks through a call to a known wrapper for the name to judge.
pub fn unwrap_hoc<'a>(callee: &Option<String>, first: &'a FirstArgument, own: &'a str) -> (r:
    Option<&'a str>)
    ensures
        r is Some <==> unwrapped(*callee, *first, own@) is Some,
        r matches Some(s) ==> Some(s@) == unwrapped(*callee, *first, own@),
{
    if !is_wrapper_call(callee) {
        return None;
    }
    match first {
        FirstArgument::Arrow => Some(own),
        FirstArgument::Function { name: Some(n) } => Some(n.as_str()),
        FirstArgument::Function { name: None } => Some(own),
        FirstArgument::Other => None,
    }
}

} // verus!
