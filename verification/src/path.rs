//! The path model: an immutable, ordered sequence of components identifying a
//! location inside a validated value.
//!
//! A path is built by appending components as validation descends into nested
//! structures.  Appending is non-destructive: the parent path stays usable,
//! because the same prefix is shared across many sibling checks.

use vstd::prelude::*;

verus! {

/// The abstract value of a single path component.
pub enum PathComponentView {
    Field(Seq<char>),
    Index(int),
    NoKey,
}

/// One step inside a nested value: a named field, a sequence index, or the
/// anonymous slot of an optional value.
pub enum PathComponent {
    Field(String),
    Index(usize),
    NoKey,
}

impl View for PathComponent {
    type V = PathComponentView;

    open spec fn view(&self) -> PathComponentView {
        match self {
            PathComponent::Field(name) => PathComponentView::Field(name@),
            PathComponent::Index(i) => PathComponentView::Index(*i as int),
            PathComponent::NoKey => PathComponentView::NoKey,
        }
    }
}

impl Clone for PathComponent {
    fn clone(&self) -> (c: Self)
        ensures
            c@ == self@,
    {
        match self {
            PathComponent::Field(name) => PathComponent::Field(name.clone()),
            PathComponent::Index(i) => PathComponent::Index(*i),
            PathComponent::NoKey => PathComponent::NoKey,
        }
    }
}

impl PathComponent {
    /// Structural equality of two components.
    pub fn equals(&self, other: &PathComponent) -> (r: bool)
        ensures
            r == (self@ == other@),
    {
        match (self, other) {
            (PathComponent::Field(a), PathComponent::Field(b)) => *a == *b,
            (PathComponent::Index(a), PathComponent::Index(b)) => *a == *b,
            (PathComponent::NoKey, PathComponent::NoKey) => true,
            _ => false,
        }
    }
}

/// The singleton key used when traversing an optional slot, where no
/// distinguishing field name or index exists.
#[derive(Clone, Copy)]
pub struct NoKey;

/// A value that can serve as one path component: a field name, a sequence
/// index, or the no-key marker.
pub trait PathComponentKind {
    /// The component this value stands for.
    spec fn component_view(&self) -> PathComponentView;

    /// Builds the concrete component.
    fn to_component(&self) -> (c: PathComponent)
        ensures
            c@ == self.component_view(),
    ;
}

impl PathComponentKind for String {
    open spec fn component_view(&self) -> PathComponentView {
        PathComponentView::Field(self@)
    }

    fn to_component(&self) -> (c: PathComponent) {
        PathComponent::Field(self.clone())
    }
}

impl<'a> PathComponentKind for &'a str {
    open spec fn component_view(&self) -> PathComponentView {
        PathComponentView::Field(self@)
    }

    fn to_component(&self) -> (c: PathComponent) {
        PathComponent::Field((*self).to_owned())
    }
}

impl PathComponentKind for usize {
    open spec fn component_view(&self) -> PathComponentView {
        PathComponentView::Index(*self as int)
    }

    fn to_component(&self) -> (c: PathComponent) {
        PathComponent::Index(*self)
    }
}

impl PathComponentKind for NoKey {
    open spec fn component_view(&self) -> PathComponentView {
        PathComponentView::NoKey
    }

    fn to_component(&self) -> (c: PathComponent) {
        PathComponent::NoKey
    }
}

impl PathComponentKind for PathComponent {
    open spec fn component_view(&self) -> PathComponentView {
        self@
    }

    fn to_component(&self) -> (c: PathComponent) {
        self.clone()
    }
}

/// An ordered, immutable sequence of components identifying a location inside
/// a nested value.  Two paths are equal iff their component sequences are.
pub struct Path {
    components: Vec<PathComponent>,
}

impl View for Path {
    type V = Seq<PathComponentView>;

    closed spec fn view(&self) -> Seq<PathComponentView> {
        self.components@.map_values(|c: PathComponent| c@)
    }
}

impl Path {
    /// The zero-component path: the location of the top-level value itself.
    pub fn empty() -> (p: Path)
        ensures
            p@ == Seq::<PathComponentView>::empty(),
    {
        let p = Path { components: Vec::new() };
        proof {
            assert(p@ =~= Seq::<PathComponentView>::empty());
        }
        p
    }

    /// A new path equal to the receiver with one component appended.  The
    /// receiver is untouched, so a parent path can be extended once per
    /// sibling field.
    pub fn join<C: PathComponentKind>(&self, component: &C) -> (p: Path)
        ensures
            p@ == self@.push(component.component_view()),
    {
        let n = self.components.len();
        let mut components: Vec<PathComponent> = Vec::new();
        for i in 0..n
            invariant
                n == self.components@.len(),
                components@.len() == i,
                forall|j: int| 0 <= j < i ==> components@[j]@ == self.components@[j]@,
        {
            components.push(self.components[i].clone());
        }
        components.push(component.to_component());
        let p = Path { components };
        proof {
            assert(p@ =~= self@.push(component.component_view()));
        }
        p
    }

    /// How many components the path has.
    pub fn len(&self) -> (n: usize)
        ensures
            n == self@.len(),
    {
        self.components.len()
    }

    /// The component at position `i`, counted from the top-level value.
    pub fn component(&self, i: usize) -> (c: &PathComponent)
        requires
            i < self@.len(),
        ensures
            c@ == self@[i as int],
    {
        &self.components[i]
    }
}

impl Clone for Path {
    fn clone(&self) -> (p: Self)
        ensures
            p@ == self@,
    {
        let n = self.components.len();
        let mut components: Vec<PathComponent> = Vec::new();
        for i in 0..n
            invariant
                n == self.components@.len(),
                components@.len() == i,
                forall|j: int| 0 <= j < i ==> components@[j]@ == self.components@[j]@,
        {
            components.push(self.components[i].clone());
        }
        let p = Path { components };
        proof {
            assert(p@ =~= self@);
        }
        p
    }
}

impl PartialEq for Path {
    fn eq(&self, other: &Self) -> (r: bool) {
        let n = self.components.len();
        if n != other.components.len() {
            proof {
                assert(self@.len() != other@.len());
            }
            return false;
        }
        for i in 0..n
            invariant
                n == self.components@.len(),
                n == other.components@.len(),
                forall|j: int| 0 <= j < i ==> self@[j] == other@[j],
        {
            if !self.components[i].equals(&other.components[i]) {
                proof {
                    assert(self@[i as int] != other@[i as int]);
                }
                return false;
            }
        }
        proof {
            assert(self@ =~= other@);
        }
        true
    }
}

impl Eq for Path {
}

impl vstd::std_specs::cmp::PartialEqSpecImpl for Path {
    open spec fn obeys_eq_spec() -> bool {
        true
    }

    open spec fn eq_spec(&self, other: &Path) -> bool {
        self@ == other@
    }
}

} // verus!
