//! Violations and their aggregation.
//!
//! An [`Error`] is a single human-readable message describing one violation;
//! the location is attached externally, by recording the pair of a
//! [`crate::path::Path`] and the error in a [`Report`].  A report is ordered,
//! keeps duplicates, and is only ever appended to during one validation call:
//! a failure never prevents further checks from running and recording.

use vstd::prelude::*;

use crate::path::{Path, PathComponentView};

verus! {

/// A single human-readable message describing one violation.
pub struct Error {
    message: String,
}

impl View for Error {
    type V = Seq<char>;

    closed spec fn view(&self) -> Seq<char> {
        self.message@
    }
}

impl Error {
    /// Wraps a message.
    pub fn new(message: String) -> (e: Error)
        ensures
            e@ == message@,
    {
        Error { message }
    }

    /// The message text.
    pub fn message(&self) -> (m: &str)
        ensures
            m@ == self@,
    {
        self.message.as_str()
    }
}

impl Clone for Error {
    fn clone(&self) -> (e: Self)
        ensures
            e@ == self@,
    {
        Error { message: self.message.clone() }
    }
}

/// The abstract value of one report entry: where a violation occurred, and
/// its message.
pub struct EntryView {
    pub path: Seq<PathComponentView>,
    pub message: Seq<char>,
}

/// An ordered collection of (path, error) pairs, one per violation found in
/// one validation call.  Insertion order is preserved and duplicates are
/// permitted; the report is empty iff the value is fully valid.
pub struct Report {
    entries: Vec<(Path, Error)>,
}

impl View for Report {
    type V = Seq<EntryView>;

    closed spec fn view(&self) -> Seq<EntryView> {
        self.entries@.map_values(|e: (Path, Error)| EntryView { path: e.0@, message: e.1@ })
    }
}

impl Report {
    /// A report with no entries.
    pub fn new() -> (r: Report)
        ensures
            r@ == Seq::<EntryView>::empty(),
    {
        let r = Report { entries: Vec::new() };
        proof {
            assert(r@ =~= Seq::<EntryView>::empty());
        }
        r
    }

    /// Appends one entry.  No deduplication, no reordering.
    pub fn record(&mut self, path: Path, error: Error)
        ensures
            final(self)@ == old(self)@.push((EntryView { path: path@, message: error@ })),
    {
        let ghost entry = EntryView { path: path@, message: error@ };
        self.entries.push((path, error));
        proof {
            assert(self@ =~= old(self)@.push(entry));
        }
    }

    /// Appends every entry of `other`, in order.
    pub fn merge(&mut self, other: &Report)
        ensures
            final(self)@ == old(self)@ + other@,
    {
        let n = other.entries.len();
        for i in 0..n
            invariant
                n == other@.len(),
                self@ == old(self)@ + other@.take(i as int),
        {
            let path = other.entries[i].0.clone();
            let error = other.entries[i].1.clone();
            let ghost entry = EntryView { path: path@, message: error@ };
            proof {
                assert(entry == other@[i as int]);
            }
            self.record(path, error);
            proof {
                assert(self@ =~= old(self)@ + other@.take(i as int + 1));
            }
        }
        proof {
            assert(other@.take(n as int) =~= other@);
        }
    }

    /// True iff no violation has been recorded.
    pub fn is_empty(&self) -> (r: bool)
        ensures
            r == (self@.len() == 0),
    {
        self.entries.len() == 0
    }

    /// How many violations have been recorded.
    pub fn len(&self) -> (n: usize)
        ensures
            n == self@.len(),
    {
        self.entries.len()
    }

    /// The location of the `i`-th violation.
    pub fn path_at(&self, i: usize) -> (p: &Path)
        requires
            i < self@.len(),
        ensures
            p@ == self@[i as int].path,
    {
        &self.entries[i].0
    }

    /// The message of the `i`-th violation.
    pub fn message_at(&self, i: usize) -> (m: &str)
        requires
            i < self@.len(),
        ensures
            m@ == self@[i as int].message,
    {
        self.entries[i].1.message()
    }
}

} // verus!
