//! The validate contract: the recursive-descent protocol a value type
//! implements to drive rule application over its own fields and, for
//! containers, over its elements.
//!
//! A type's `violations` spec function pins down exactly which (path,
//! message) pairs one validation pass records; `validate_into` is proved to
//! append exactly those to the caller's report.  Aggregation is strictly
//! collect-all: the contract speaks of appending, so a failure can never
//! erase or suppress a sibling's entries.
//!
//! [`Unvalidated`] and [`Valid`] are the two wrapper states around a value:
//! a value moves from unvalidated to valid only through a validation pass
//! that recorded nothing, and back only by extracting and rewrapping it.

use vstd::prelude::*;

use crate::error::{EntryView, Report};
use crate::path::{NoKey, Path, PathComponentView};

verus! {

/// A value that can drive validation over itself.
pub trait Validate {
    /// Exactly the violations one validation pass records for this value,
    /// were it reached along `prefix`, in recording order.
    spec fn violations(&self, prefix: Seq<PathComponentView>) -> Seq<EntryView>;

    /// Runs the pass: appends exactly `self.violations(parent@)` to the
    /// report, never removing or reordering what others recorded.
    fn validate_into(&self, parent: &Path, report: &mut Report)
        ensures
            final(report)@ == old(report)@ + self.violations(parent@),
    ;
}

/// The violations of a sequence of elements, each validated with its own key
/// appended to the prefix: element `i` contributes its violations below
/// `prefix + keys[i]`, and contributions concatenate in element order.
pub open spec fn traversal_violations<U: Validate>(
    elems: Seq<U>,
    keys: Seq<PathComponentView>,
    prefix: Seq<PathComponentView>,
) -> Seq<EntryView>
    decreases elems.len(),
{
    if elems.len() == 0 {
        Seq::empty()
    } else {
        traversal_violations(elems.drop_last(), keys, prefix) + elems.last().violations(
            prefix.push(keys[elems.len() - 1]),
        )
    }
}

/// Traversal visits each element exactly once and in order: after the first
/// `i` elements, visiting element `i` appends exactly that element's own
/// violations, reported below `prefix + keys[i]`, and touches nothing else.
pub proof fn lemma_traversal_step<U: Validate>(
    elems: Seq<U>,
    keys: Seq<PathComponentView>,
    prefix: Seq<PathComponentView>,
    i: int,
)
    requires
        0 <= i < elems.len(),
    ensures
        traversal_violations(elems.take(i + 1), keys, prefix) == traversal_violations(
            elems.take(i),
            keys,
            prefix,
        ) + elems[i].violations(prefix.push(keys[i])),
{
    assert(elems.take(i + 1).drop_last() =~= elems.take(i));
    assert(elems.take(i + 1).last() == elems[i]);
}

impl<T: Validate> Validate for Vec<T> {
    open spec fn violations(&self, prefix: Seq<PathComponentView>) -> Seq<EntryView> {
        traversal_violations(
            self@,
            Seq::new(self@.len(), |i: int| PathComponentView::Index(i)),
            prefix,
        )
    }

    fn validate_into(&self, parent: &Path, report: &mut Report) {
        crate::rules::inner::apply(self, parent, report);
        proof {
            assert(Seq::new(self@.len(), |i: int| crate::rules::inner::Inner::key_at(self, i))
                =~= Seq::new(self@.len(), |i: int| PathComponentView::Index(i)));
        }
    }
}

impl<T: Validate> Validate for Option<T> {
    open spec fn violations(&self, prefix: Seq<PathComponentView>) -> Seq<EntryView> {
        match self {
            Some(value) => value.violations(prefix.push(PathComponentView::NoKey)),
            None => Seq::empty(),
        }
    }

    fn validate_into(&self, parent: &Path, report: &mut Report) {
        match self {
            Some(value) => {
                let child = parent.join(&NoKey);
                value.validate_into(&child, report);
            },
            None => {
                proof {
                    assert(report@ =~= old(report)@ + Seq::<EntryView>::empty());
                }
            },
        }
    }
}

/// A freshly constructed value: nothing is guaranteed about it yet.
pub struct Unvalidated<T: Validate> {
    value: T,
}

/// A value that has passed through validation successfully: one full pass
/// over it records no violation.
pub struct Valid<T: Validate> {
    value: T,
}

impl<T: Validate> View for Unvalidated<T> {
    type V = T;

    closed spec fn view(&self) -> T {
        self.value
    }
}

impl<T: Validate> View for Valid<T> {
    type V = T;

    closed spec fn view(&self) -> T {
        self.value
    }
}

impl<T: Validate> Unvalidated<T> {
    /// Wraps a value about which nothing is known.
    pub fn new(value: T) -> (u: Self)
        ensures
            u@ == value,
    {
        Unvalidated { value }
    }

    /// A borrow of the wrapped value.
    pub fn get(&self) -> (v: &T)
        ensures
            *v == self@,
    {
        &self.value
    }

    /// Unwraps without validating.
    pub fn into_inner(self) -> (v: T)
        ensures
            v == self@,
    {
        self.value
    }

    /// Runs one full validation pass.  Success — and only success — moves
    /// the value into the valid state; rejection hands it back unchanged,
    /// with the complete, non-empty report of every violation found.
    pub fn validate(self) -> (r: Result<Valid<T>, (Unvalidated<T>, Report)>)
        ensures
            r is Ok <==> self@.violations(Seq::empty()).len() == 0,
            r matches Ok(v) ==> v@ == self@,
            r matches Err(p) ==> p.0@ == self@ && p.1@ == self@.violations(Seq::empty())
                && p.1@.len() > 0,
    {
        let Unvalidated { value } = self;
        let root = Path::empty();
        let mut report = Report::new();
        value.validate_into(&root, &mut report);
        proof {
            assert(report@ =~= value.violations(Seq::empty()));
        }
        if report.is_empty() {
            Ok(Valid { value })
        } else {
            Err((Unvalidated { value }, report))
        }
    }
}

impl<T: Validate> Valid<T> {
    #[verifier::type_invariant]
    closed spec fn wf(self) -> bool {
        self.value.violations(Seq::empty()).len() == 0
    }

    /// A borrow of the wrapped value.
    pub fn get(&self) -> (v: &T)
        ensures
            *v == self@,
            v.violations(Seq::empty()).len() == 0,
    {
        proof {
            use_type_invariant(self);
        }
        &self.value
    }

    /// Extracts the value; re-wrapping it is the only way back to the
    /// unvalidated state.
    pub fn into_inner(self) -> (v: T)
        ensures
            v == self@,
            v.violations(Seq::empty()).len() == 0,
    {
        proof {
            use_type_invariant(&self);
        }
        let Valid { value } = self;
        value
    }

    /// Re-validating a valid value reports nothing new: with the data held
    /// constant, the valid state always round-trips back to an empty report.
    pub fn revalidate(&self) -> (r: Report)
        ensures
            r@ == Seq::<EntryView>::empty(),
    {
        proof {
            use_type_invariant(self);
        }
        let root = Path::empty();
        let mut report = Report::new();
        self.value.validate_into(&root, &mut report);
        proof {
            assert(report@ =~= Seq::<EntryView>::empty());
        }
        report
    }
}

} // verus!
