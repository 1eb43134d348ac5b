//! Inner type validation: traversal over the elements of container-shaped
//! values.
//!
//! A container exposes its elements together with per-element keys; the keys
//! become additional path components for the elements' own validation, so a
//! violation inside element `i` of field `f` is reported at `f[i]`.  A
//! sequence yields integer indices `0, 1, ...` in ascending order; an
//! optional slot yields the no-key marker for its single element.

use vstd::prelude::*;

use crate::error::Report;
use crate::path::{NoKey, Path, PathComponentKind, PathComponentView};
use crate::validate::{traversal_violations, Validate};

verus! {

/// A container-shaped value whose elements can be visited with keys.
pub trait Inner<T> {
    /// The key type that locates one element: an index, or the no-key marker.
    type Key: PathComponentKind;

    /// The elements, in traversal order.
    spec fn inner_seq(&self) -> Seq<T>;

    /// The path component attached to the `i`-th element.
    spec fn key_at(&self, i: int) -> PathComponentView;

    /// How many elements the traversal visits.
    fn inner_len(&self) -> (n: usize)
        ensures
            n as nat == self.inner_seq().len(),
    ;

    /// The `i`-th element and its key.
    fn inner_at(&self, i: usize) -> (entry: (&T, Self::Key))
        requires
            (i as nat) < self.inner_seq().len(),
        ensures
            *entry.0 == self.inner_seq()[i as int],
            entry.1.component_view() == self.key_at(i as int),
    ;
}

impl<T> Inner<T> for Vec<T> {
    type Key = usize;

    open spec fn inner_seq(&self) -> Seq<T> {
        self@
    }

    open spec fn key_at(&self, i: int) -> PathComponentView {
        PathComponentView::Index(i)
    }

    fn inner_len(&self) -> (n: usize) {
        self.len()
    }

    fn inner_at(&self, i: usize) -> (entry: (&T, usize)) {
        (&self[i], i)
    }
}

impl<T, const N: usize> Inner<T> for [T; N] {
    type Key = usize;

    open spec fn inner_seq(&self) -> Seq<T> {
        self@
    }

    open spec fn key_at(&self, i: int) -> PathComponentView {
        PathComponentView::Index(i)
    }

    fn inner_len(&self) -> (n: usize) {
        N
    }

    fn inner_at(&self, i: usize) -> (entry: (&T, usize)) {
        (vstd::array::array_index_get(self, i), i)
    }
}

impl<'a, T> Inner<T> for &'a [T] {
    type Key = usize;

    open spec fn inner_seq(&self) -> Seq<T> {
        self@
    }

    open spec fn key_at(&self, i: int) -> PathComponentView {
        PathComponentView::Index(i)
    }

    fn inner_len(&self) -> (n: usize) {
        self.len()
    }

    fn inner_at(&self, i: usize) -> (entry: (&T, usize)) {
        (vstd::slice::slice_index_get(*self, i), i)
    }
}

impl<T> Inner<T> for Option<T> {
    type Key = NoKey;

    open spec fn inner_seq(&self) -> Seq<T> {
        match self {
            Some(value) => seq![*value],
            None => Seq::empty(),
        }
    }

    open spec fn key_at(&self, i: int) -> PathComponentView {
        PathComponentView::NoKey
    }

    fn inner_len(&self) -> (n: usize) {
        match self {
            Some(_) => 1,
            None => 0,
        }
    }

    fn inner_at(&self, i: usize) -> (entry: (&T, NoKey)) {
        match self {
            Some(value) => (value, NoKey),
            None => vstd::pervasive::unreached(),
        }
    }
}

/// Applies the inner rule: validates every element of the container, with
/// that element's key appended to the path.  Every element is visited, in
/// order, whatever earlier elements reported.
pub fn apply<T: Inner<U>, U: Validate>(field: &T, parent: &Path, report: &mut Report)
    ensures
        final(report)@ == old(report)@ + traversal_violations(
            field.inner_seq(),
            Seq::new(field.inner_seq().len(), |i: int| field.key_at(i)),
            parent@,
        ),
{
    let ghost keys = Seq::new(field.inner_seq().len(), |j: int| field.key_at(j));
    let n = field.inner_len();
    for i in 0..n
        invariant
            n as nat == field.inner_seq().len(),
            keys == Seq::new(field.inner_seq().len(), |j: int| field.key_at(j)),
            report@ == old(report)@ + traversal_violations(
                field.inner_seq().take(i as int),
                keys,
                parent@,
            ),
    {
        let entry = field.inner_at(i);
        let child = parent.join(&entry.1);
        entry.0.validate_into(&child, report);
        proof {
            let elems = field.inner_seq();
            assert(keys.len() == elems.len());
            assert(keys[i as int] == field.key_at(i as int));
            assert(child@ == parent@.push(keys[i as int]));
            crate::validate::lemma_traversal_step(elems, keys, parent@, i as int);
            assert(report@ =~= old(report)@ + traversal_violations(
                elems.take(i as int + 1),
                keys,
                parent@,
            ));
        }
    }
    proof {
        assert(field.inner_seq().take(n as int) =~= field.inner_seq());
    }
}

} // verus!
