//! Presence validation.
//!
//! Optional-and-absent fields skip every other rule; this is the one rule
//! that forbids absence.  It succeeds iff the optional value is populated.

use vstd::prelude::*;

use crate::error::Error;

verus! {

/// A value whose presence can be checked.  Only option-shaped values satisfy
/// this capability.
pub trait Required {
    /// Whether the value is populated.
    spec fn is_set_spec(&self) -> bool;

    /// Decides presence.
    fn is_set(&self) -> (r: bool)
        ensures
            r == self.is_set_spec(),
    ;
}

impl<T> Required for Option<T> {
    open spec fn is_set_spec(&self) -> bool {
        self is Some
    }

    fn is_set(&self) -> (r: bool) {
        self.is_some()
    }
}

/// An optional value satisfies the presence rule iff it is populated,
/// whatever it holds.
pub proof fn lemma_presence<T>(v: Option<T>)
    ensures
        v.is_set_spec() <==> v is Some,
{
}

/// Applies the presence rule; it takes no arguments.
pub fn apply<T: Required>(v: &T, _args: ()) -> (r: Result<(), Error>)
    ensures
        r is Ok <==> v.is_set_spec(),
        r matches Err(e) ==> e@ == "not set"@,
{
    if v.is_set() {
        Ok(())
    } else {
        Err(Error::new("not set".to_owned()))
    }
}

} // verus!
