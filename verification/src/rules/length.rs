//! Length validation.
//!
//! A length rule succeeds iff `min <= length <= max`; violating the lower
//! bound and the upper bound produce distinguishable messages, each carrying
//! the configured bound.  The rule here counts under the simple policy: the
//! number of characters for strings, the number of elements for vectors.
//! Other counting policies plug in by implementing [`HasSimpleLength`] for a
//! wrapper with the wanted count.

use vstd::prelude::*;
use vstd::string::StrSliceExecFns;
use vstd::string::StringExecFns;
use vstd::string::StringSliceAdditionalSpecFns;

use crate::decimal::{decimal_rep, push_decimal};
use crate::error::Error;

verus! {

/// What the length rule says about a count `len` under bounds `min`, `max`:
/// no message when the count is within bounds, otherwise the message of the
/// violated bound.
pub open spec fn length_check(len: nat, min: nat, max: nat) -> Option<Seq<char>> {
    if len < min {
        Some("length is lower than "@ + decimal_rep(min))
    } else if len > max {
        Some("length is greater than "@ + decimal_rep(max))
    } else {
        None
    }
}

/// A value with a length under the simple counting policy.
pub trait HasSimpleLength {
    /// The count the rule checks.
    spec fn simple_len(&self) -> nat;

    /// Computes the count.
    fn length(&self) -> (n: usize)
        ensures
            n as nat == self.simple_len(),
    ;
}

impl HasSimpleLength for String {
    open spec fn simple_len(&self) -> nat {
        self@.len()
    }

    fn length(&self) -> (n: usize) {
        self.as_str().unicode_len()
    }
}

impl<'a> HasSimpleLength for &'a str {
    open spec fn simple_len(&self) -> nat {
        self@.len()
    }

    fn length(&self) -> (n: usize) {
        self.unicode_len()
    }
}

impl<T> HasSimpleLength for Vec<T> {
    open spec fn simple_len(&self) -> nat {
        self@.len()
    }

    fn length(&self) -> (n: usize) {
        self.len()
    }
}

/// A value with a length under the byte counting policy: the size of the
/// value's UTF-8 encoding.
pub trait HasBytes {
    /// The count the rule checks.
    spec fn byte_len(&self) -> nat;

    /// Computes the count.
    fn byte_length(&self) -> (n: usize)
        ensures
            n as nat == self.byte_len(),
    ;
}

impl HasBytes for String {
    open spec fn byte_len(&self) -> nat {
        vstd::utf8::encode_utf8(self@).len()
    }

    fn byte_length(&self) -> (n: usize) {
        let b = self.as_str().as_bytes();
        let n = b.len();
        proof {
            broadcast use vstd::slice::axiom_spec_len;

            assert(b@ == vstd::utf8::encode_utf8(self@));
        }
        n
    }
}

impl<'a> HasBytes for &'a str {
    open spec fn byte_len(&self) -> nat {
        vstd::utf8::encode_utf8(self@).len()
    }

    fn byte_length(&self) -> (n: usize) {
        let b = self.as_bytes();
        let n = b.len();
        proof {
            broadcast use vstd::slice::axiom_spec_len;

            assert(b@ == vstd::utf8::encode_utf8(self@));
        }
        n
    }
}

/// Checks a count against inclusive bounds: success iff
/// `min <= len <= max`, otherwise exactly the message of the violated bound.
pub fn check_len(len: usize, min: usize, max: usize) -> (r: Result<(), Error>)
    ensures
        r is Ok <==> min <= len <= max,
        r matches Err(e) ==> (length_check(len as nat, min as nat, max as nat) matches Some(m)
            && e@ == m),
{
    if len < min {
        let mut m = String::new();
        m.append("length is lower than ");
        push_decimal(&mut m, min);
        proof {
            assert(m@ =~= "length is lower than "@ + decimal_rep(min as nat));
        }
        Err(Error::new(m))
    } else if len > max {
        let mut m = String::new();
        m.append("length is greater than ");
        push_decimal(&mut m, max);
        proof {
            assert(m@ =~= "length is greater than "@ + decimal_rep(max as nat));
        }
        Err(Error::new(m))
    } else {
        Ok(())
    }
}

/// Applies the length rule: `args` are the inclusive `(min, max)` bounds.
pub fn apply<T: HasSimpleLength>(v: &T, args: (usize, usize)) -> (r: Result<(), Error>)
    ensures
        r is Ok <==> args.0 <= v.simple_len() <= args.1,
        r matches Err(e) ==> (length_check(v.simple_len(), args.0 as nat, args.1 as nat)
            matches Some(m) && e@ == m),
{
    check_len(v.length(), args.0, args.1)
}

/// Applies the length rule under the byte counting policy.
pub fn apply_bytes<T: HasBytes>(v: &T, args: (usize, usize)) -> (r: Result<(), Error>)
    ensures
        r is Ok <==> args.0 <= v.byte_len() <= args.1,
        r matches Err(e) ==> (length_check(v.byte_len(), args.0 as nat, args.1 as nat)
            matches Some(m) && e@ == m),
{
    check_len(v.byte_length(), args.0, args.1)
}

} // verus!
