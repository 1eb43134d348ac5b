//! Sibling-field matching validation.
//!
//! The rule succeeds iff the value equals another field's value; the sibling
//! field's name is part of the rule's arguments, so that the message can name
//! it.

use vstd::prelude::*;
use vstd::string::StringExecFns;

use crate::error::Error;

verus! {

/// A value the matching rule can compare against a value of type `O`.
pub trait Matches<O> {
    /// Whether the two values count as matching.
    spec fn matches_spec(&self, other: &O) -> bool;

    /// Decides the match.
    fn validate_matches(&self, other: &O) -> (r: bool)
        ensures
            r == self.matches_spec(other),
    ;
}

impl Matches<String> for String {
    open spec fn matches_spec(&self, other: &String) -> bool {
        self@ == other@
    }

    fn validate_matches(&self, other: &String) -> (r: bool) {
        *self == *other
    }
}

impl Matches<u64> for u64 {
    open spec fn matches_spec(&self, other: &u64) -> bool {
        self == other
    }

    fn validate_matches(&self, other: &u64) -> (r: bool) {
        *self == *other
    }
}

impl<T: Matches<O>, O> Matches<O> for Option<T> {
    open spec fn matches_spec(&self, other: &O) -> bool {
        match self {
            Some(value) => value.matches_spec(other),
            None => true,
        }
    }

    fn validate_matches(&self, other: &O) -> (r: bool) {
        match self {
            Some(value) => value.validate_matches(other),
            None => true,
        }
    }
}

/// The message reported when the sibling field named `field` differs.
pub open spec fn matches_error(field: Seq<char>) -> Seq<char> {
    "does not match "@ + field + " field"@
}

/// Applies the matching rule: `args` are the sibling field's name and value.
pub fn apply<T: Matches<O>, O>(v: &T, args: (&str, &O)) -> (r: Result<(), Error>)
    ensures
        r is Ok <==> v.matches_spec(args.1),
        r matches Err(e) ==> e@ == matches_error(args.0@),
{
    if v.validate_matches(args.1) {
        Ok(())
    } else {
        let mut m = String::new();
        m.append("does not match ");
        m.append(args.0);
        m.append(" field");
        proof {
            assert(m@ =~= matches_error(args.0@));
        }
        Err(Error::new(m))
    }
}

} // verus!
