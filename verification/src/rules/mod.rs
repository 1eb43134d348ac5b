//! The rules and the capability traits that make a value eligible for them.
//!
//! Each rule module exposes a uniform `apply` function: it takes the value
//! reference and a tuple of rule-specific arguments and returns either
//! success or a single [`crate::error::Error`].  A value type becomes
//! eligible for a rule by implementing that rule's capability trait; new
//! rules are added by defining a new capability trait plus an `apply`
//! function, with no change to the aggregation machinery.

use vstd::prelude::*;

pub mod contains;
pub mod inner;
pub mod length;
pub mod matches;
pub mod pattern;
pub mod required;
pub mod url;

verus! {

/// A value that exposes itself as a borrowed character sequence.  String-like
/// types satisfy this, and through it the substring, pattern and url rules.
pub trait AsStr {
    /// The character sequence the value exposes.
    spec fn str_view(&self) -> Seq<char>;

    /// Borrows the value as a string slice.
    fn as_str(&self) -> (r: &str)
        ensures
            r@ == self.str_view(),
    ;
}

impl AsStr for String {
    open spec fn str_view(&self) -> Seq<char> {
        self@
    }

    fn as_str(&self) -> (r: &str) {
        String::as_str(self)
    }
}

impl<'a> AsStr for &'a str {
    open spec fn str_view(&self) -> Seq<char> {
        self@
    }

    fn as_str(&self) -> (r: &str) {
        *self
    }
}

} // verus!
