//! The lazy path builder.
//!
//! Building a nested path costs an allocation, and the overwhelmingly common
//! case is that no rule fails, so no path is ever needed.  A traversal frame
//! therefore keeps an `Option<Path>` memo cell, initially `None`, and joins
//! the parent path with the frame's component only the first time a rule
//! actually records a violation; later queries in the same frame reuse the
//! memoized path.

use vstd::prelude::*;

use crate::path::{Path, PathComponentKind, PathComponentView};

verus! {

/// A memo cell for a nested path: compute `parent + component` on the first
/// query, reuse the result afterwards.
pub trait MaybeJoin {
    /// The path memoized so far, if any.
    spec fn memo(&self) -> Option<Seq<PathComponentView>>;

    /// The nested path for this frame.  On the first call it is computed and
    /// memoized; on later calls the memoized path is returned unchanged.
    fn maybe_join<C: PathComponentKind>(&mut self, parent: &Path, component: &C) -> (path: Path)
        ensures
            path@ == (match old(self).memo() {
                Some(s) => s,
                None => parent@.push(component.component_view()),
            }),
            final(self).memo() == Some(path@),
    ;
}

impl MaybeJoin for Option<Path> {
    open spec fn memo(&self) -> Option<Seq<PathComponentView>> {
        match self {
            Some(p) => Some(p@),
            None => None,
        }
    }

    fn maybe_join<C: PathComponentKind>(&mut self, parent: &Path, component: &C) -> (path: Path) {
        match self {
            Some(p) => p.clone(),
            None => {
                let path = parent.join(component);
                *self = Some(path.clone());
                path
            },
        }
    }
}

} // verus!
