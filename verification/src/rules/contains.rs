//! Substring validation.
//!
//! The rule succeeds iff the value's string view contains a given literal
//! substring.  An absent optional value is not checked: it passes
//! unconditionally, and only the explicit `required` rule forbids absence.

use vstd::prelude::*;
use vstd::string::StringExecFns;

use crate::error::Error;

verus! {

/// `pat` occurs as a contiguous substring of `text`.
pub open spec fn is_substring_of(pat: Seq<char>, text: Seq<char>) -> bool {
    exists|i: int|
        0 <= i <= text.len() - pat.len() && #[trigger] text.subrange(i, i + pat.len()) == pat
}

/// Relies on `str::contains` with a string pattern: it returns true iff the
/// pattern occurs as a contiguous substring of the receiver.
#[verifier::external_body]
pub(crate) fn str_contains(text: &str, pat: &str) -> (r: bool)
    ensures
        r == is_substring_of(pat@, text@),
{
    text.contains(pat)
}

/// A value the substring rule can check.
pub trait Contains {
    /// Whether the value counts as containing `pat`.
    spec fn contains_spec(&self, pat: Seq<char>) -> bool;

    /// Decides containment.
    fn validate_contains(&self, pat: &str) -> (r: bool)
        ensures
            r == self.contains_spec(pat@),
    ;
}

impl Contains for String {
    open spec fn contains_spec(&self, pat: Seq<char>) -> bool {
        is_substring_of(pat, self@)
    }

    fn validate_contains(&self, pat: &str) -> (r: bool) {
        str_contains(self.as_str(), pat)
    }
}

impl<T: Contains> Contains for Option<T> {
    open spec fn contains_spec(&self, pat: Seq<char>) -> bool {
        match self {
            Some(value) => value.contains_spec(pat),
            None => true,
        }
    }

    fn validate_contains(&self, pat: &str) -> (r: bool) {
        match self {
            Some(value) => value.validate_contains(pat),
            None => true,
        }
    }
}

/// An absent optional value passes the substring rule unconditionally.
pub proof fn lemma_absent_contains<T: Contains>(v: Option<T>, pat: Seq<char>)
    requires
        v is None,
    ensures
        v.contains_spec(pat),
{
}

/// The message reported when `pat` is missing.
pub open spec fn contains_error(pat: Seq<char>) -> Seq<char> {
    "does not contain \""@ + pat + "\""@
}

/// Applies the substring rule: `args` is the literal substring looked for.
pub fn apply<T: Contains>(v: &T, args: (&str,)) -> (r: Result<(), Error>)
    ensures
        r is Ok <==> v.contains_spec(args.0@),
        r matches Err(e) ==> e@ == contains_error(args.0@),
{
    if v.validate_contains(args.0) {
        Ok(())
    } else {
        let mut m = String::new();
        m.append("does not contain \"");
        m.append(args.0);
        m.append("\"");
        proof {
            assert(m@ =~= contains_error(args.0@));
        }
        Err(Error::new(m))
    }
}

} // verus!
