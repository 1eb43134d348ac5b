//! Pattern validation.
//!
//! The rule succeeds iff some part of the value's string view matches a
//! caller-supplied matcher.  The matcher value is handed in on every call and
//! is not cached by the framework: a caller with an expensive matcher is
//! responsible for amortizing its construction (for instance behind a
//! lazily-initialized static).  A regular-expression engine plugs in by
//! implementing [`Matcher`]; [`TextMatcher`] is the built-in matcher for a
//! fixed fragment of text.

use vstd::prelude::*;
use vstd::string::StringExecFns;

use crate::error::Error;
use crate::rules::AsStr;
use crate::rules::contains::{is_substring_of, str_contains};

verus! {

/// Something that can be matched against a haystack.  The textual form of
/// the pattern (for messages) comes from [`AsStr`].
pub trait Matcher: AsStr {
    /// Whether the pattern matches anywhere in `haystack`.
    spec fn match_spec(&self, haystack: Seq<char>) -> bool;

    /// Returns true if and only if there is a match for the pattern anywhere
    /// in the haystack given.
    fn is_match(&self, haystack: &str) -> (r: bool)
        ensures
            r == self.match_spec(haystack@),
    ;
}

/// A matcher that looks for a fixed fragment of text.
pub struct TextMatcher {
    text: String,
}

impl TextMatcher {
    /// A matcher for the given fragment.
    pub fn new(text: String) -> (m: TextMatcher)
        ensures
            m.str_view() == text@,
    {
        TextMatcher { text }
    }
}

impl AsStr for TextMatcher {
    closed spec fn str_view(&self) -> Seq<char> {
        self.text@
    }

    fn as_str(&self) -> (r: &str) {
        self.text.as_str()
    }
}

impl Matcher for TextMatcher {
    open spec fn match_spec(&self, haystack: Seq<char>) -> bool {
        is_substring_of(self.str_view(), haystack)
    }

    fn is_match(&self, haystack: &str) -> (r: bool) {
        str_contains(haystack, self.text.as_str())
    }
}

/// A value the pattern rule can check: it either exposes a haystack to match
/// against, or opts out (an absent optional value, which passes
/// unconditionally).
pub trait Pattern {
    /// The haystack to match, or `None` when the check is vacuous.
    spec fn pattern_target(&self) -> Option<Seq<char>>;

    /// Borrows the haystack, if the value exposes one.
    fn target(&self) -> (r: Option<&str>)
        ensures
            match r {
                Some(h) => self.pattern_target() == Some(h@),
                None => self.pattern_target() is None,
            },
    ;
}

impl Pattern for String {
    open spec fn pattern_target(&self) -> Option<Seq<char>> {
        Some(self@)
    }

    fn target(&self) -> (r: Option<&str>) {
        Some(self.as_str())
    }
}

impl<T: Pattern> Pattern for Option<T> {
    open spec fn pattern_target(&self) -> Option<Seq<char>> {
        match self {
            Some(value) => value.pattern_target(),
            None => None,
        }
    }

    fn target(&self) -> (r: Option<&str>) {
        match self {
            Some(value) => value.target(),
            None => None,
        }
    }
}

/// What the pattern rule says about a value: satisfied either vacuously or
/// because the matcher matches the exposed haystack.
pub open spec fn pattern_ok<T: Pattern, M: Matcher>(v: &T, m: &M) -> bool {
    match v.pattern_target() {
        Some(h) => m.match_spec(h),
        None => true,
    }
}

/// The message reported when the pattern whose text is `pat` does not match.
pub open spec fn pattern_error(pat: Seq<char>) -> Seq<char> {
    "does not match pattern /"@ + pat + "/"@
}

/// Applies the pattern rule: `args` is the matcher, evaluated on this call
/// alone.
pub fn apply<T: Pattern, M: Matcher>(v: &T, args: (&M,)) -> (r: Result<(), Error>)
    ensures
        r is Ok <==> pattern_ok(v, args.0),
        r matches Err(e) ==> e@ == pattern_error(args.0.str_view()),
{
    let matched = match v.target() {
        Some(h) => args.0.is_match(h),
        None => true,
    };
    if matched {
        Ok(())
    } else {
        let mut m = String::new();
        m.append("does not match pattern /");
        m.append(args.0.as_str());
        m.append("/");
        proof {
            assert(m@ =~= pattern_error(args.0.str_view()));
        }
        Err(Error::new(m))
    }
}

} // verus!
