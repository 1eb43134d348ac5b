//! URL validity validation, through the `url` crate's parser.
//!
//! The rule succeeds iff the value's string view parses as an absolute URL;
//! on failure the message carries the parser's own diagnostic text.

use vstd::prelude::*;
use vstd::string::StringExecFns;

use crate::error::Error;

verus! {

/// What parsing `s` as an absolute URL yields: `None` on success, otherwise
/// the parser's diagnostic text.  Parsing depends on the characters alone.
pub uninterp spec fn url_parse_diagnostic(s: Seq<char>) -> Option<Seq<char>>;

/// Relies on `url::Url::parse`: it accepts or rejects an absolute URL
/// depending on the input characters alone, and its error renders a fixed
/// diagnostic per failure kind.
#[verifier::external_body]
fn parse_url(s: &str) -> (r: Option<String>)
    ensures
        match r {
            None => url_parse_diagnostic(s@) is None,
            Some(d) => url_parse_diagnostic(s@) == Some(d@),
        },
{
    match url::Url::parse(s) {
        Ok(_) => None,
        Err(e) => Some(format!("{e}")),
    }
}

/// A value the url rule can check.
pub trait Url {
    /// `None` when the value counts as a valid URL (or is absent), otherwise
    /// the parser's diagnostic.
    spec fn url_spec(&self) -> Option<Seq<char>>;

    /// Parses the value; on failure, returns the parser's diagnostic text.
    fn validate_url(&self) -> (r: Result<(), String>)
        ensures
            match r {
                Ok(()) => self.url_spec() is None,
                Err(d) => self.url_spec() == Some(d@),
            },
    ;
}

impl Url for String {
    open spec fn url_spec(&self) -> Option<Seq<char>> {
        url_parse_diagnostic(self@)
    }

    fn validate_url(&self) -> (r: Result<(), String>) {
        match parse_url(self.as_str()) {
            None => Ok(()),
            Some(d) => Err(d),
        }
    }
}

impl<T: Url> Url for Option<T> {
    open spec fn url_spec(&self) -> Option<Seq<char>> {
        match self {
            Some(value) => value.url_spec(),
            None => None,
        }
    }

    fn validate_url(&self) -> (r: Result<(), String>) {
        match self {
            Some(value) => value.validate_url(),
            None => Ok(()),
        }
    }
}

/// An absent optional value passes the url rule unconditionally.
pub proof fn lemma_absent_url<T: Url>(v: Option<T>)
    requires
        v is None,
    ensures
        v.url_spec() is None,
{
}

/// The message reported for an invalid URL, around the parser's diagnostic.
pub open spec fn url_error(diagnostic: Seq<char>) -> Seq<char> {
    "not a valid url: "@ + diagnostic
}

/// Applies the url rule; it takes no arguments.
pub fn apply<T: Url>(v: &T, _args: ()) -> (r: Result<(), Error>)
    ensures
        r is Ok <==> v.url_spec() is None,
        r matches Err(e) ==> (v.url_spec() matches Some(d) && e@ == url_error(d)),
{
    match v.validate_url() {
        Ok(()) => Ok(()),
        Err(d) => {
            let mut m = String::new();
            m.append("not a valid url: ");
            m.append(d.as_str());
            proof {
                assert(m@ =~= url_error(d@));
            }
            Err(Error::new(m))
        },
    }
}

} // verus!
