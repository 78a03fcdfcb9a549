//! The naming convention that tells components from other bindings.

use crate::pattern::{
    compile, is_match, loose_pascal, pattern_compiles, regex_source, strict_pascal, PatternError,
    LOOSE_COMPONENT, STRICT_COMPONENT,
};
use regex::Regex;
use vstd::prelude::*;

verus! {

/// The two compiled tests on a name. Built once and lent to every
/// classification.
pub struct NameHeuristic {
    loose: Regex,
    strict: Regex,
}

impl NameHeuristic {
    #[verifier::type_invariant]
    spec fn well_formed(self) -> bool {
        &&& regex_source(self.loose) == LOOSE_COMPONENT@
        &&& regex_source(self.strict) == STRICT_COMPONENT@
    }

    /// Compiles both expressions. Succeeds just when the outside crate
    /// accepts both pattern texts; else names the first that it refuses.
    pub fn new() -> (r: Result<NameHeuristic, PatternError>)
        ensures
            r is Ok <==> pattern_compiles(LOOSE_COMPONENT@) && pattern_compiles(STRICT_COMPONENT@),
            r == Err::<NameHeuristic, PatternError>(PatternError::LooseComponent)
                <==> !pattern_compiles(LOOSE_COMPONENT@),
            r == Err::<NameHeuristic, PatternError>(PatternError::StrictComponent)
                <==> pattern_compiles(LOOSE_COMPONENT@) && !pattern_compiles(STRICT_COMPONENT@),
    {
        let loose = compile(LOOSE_COMPONENT);
        let strict = compile(STRICT_COMPONENT);
        NameHeuristic::assemble(loose, strict)
    }

    /// Puts the two compiled expressions together, or names the first that
    /// was refused. An expression handed in must be what `Regex::new` made of
    /// the pattern text it stands for, `LOOSE_COMPONENT` or
    /// `STRICT_COMPONENT`: one built in another way, or from another text,
    /// makes the tests answer for something else.
    pub fn assemble(
        loose: Result<Regex, regex::Error>,
        strict: Result<Regex, regex::Error>,
    ) -> (r: Result<NameHeuristic, PatternError>)
        requires
            loose matches Ok(re) ==> regex_source(re) == LOOSE_COMPONENT@,
            strict matches Ok(re) ==> regex_source(re) == STRICT_COMPONENT@,
        ensures
            r is Ok <==> loose is Ok && strict is Ok,
            r == Err::<NameHeuristic, PatternError>(PatternError::LooseComponent) <==> loose is Err,
            r == Err::<NameHeuristic, PatternError>(PatternError::StrictComponent) <==> loose is Ok
                && strict is Err,
    {
        match loose {
            Err(_) => Err(PatternError::LooseComponent),
            Ok(loose) => match strict {
                Err(_) => Err(PatternError::StrictComponent),
                Ok(strict) => Ok(NameHeuristic { loose, strict }),
            },
        }
    }

    /// Whether `name` could be a component's: loose PascalCase.
    pub fn possible_component(&self, name: &str) -> (b: bool)
        ensures
            b == loose_pascal(name@),
    {
        proof {
            use_type_invariant(self);
        }
        is_match(&self.loose, name)
    }

    /// Whether `name` is PascalCase and not all capitals.
    pub fn strict_non_constant(&self, name: &str) -> (b: bool)
        ensures
            b == strict_pascal(name@),
    {
        proof {
            use_type_invariant(self);
        }
        is_match(&self.strict, name)
    }
}

} // verus!
