//! A small record type wired to the rule set by hand, in the shape that
//! generated validators take: one lazily-joined path cell per field, one
//! `apply` call per declared rule, every failure recorded and none allowed
//! to stop the pass.
//!
//! The record declares a length rule on its `name` field and a per-element
//! length rule on its `tags` field.

use vstd::prelude::*;

use crate::error::{EntryView, Report};
use crate::path::{Path, PathComponentView};
use crate::rules::length;
use crate::rules::length::length_check;
use crate::util::MaybeJoin;
use crate::validate::Validate;

verus! {

/// Inclusive bounds of the length rule on `name`.
pub const NAME_MIN: usize = 1;

/// See [`NAME_MIN`].
pub const NAME_MAX: usize = 50;

/// Inclusive bounds of the per-element length rule on `tags`.
pub const TAG_MIN: usize = 2;

/// See [`TAG_MIN`].
pub const TAG_MAX: usize = 2;

/// A named record with a list of tags.
pub struct Record {
    pub name: String,
    pub tags: Vec<String>,
}

/// The violations the `name` field's length rule contributes, at the path
/// `prefix + "name"`.
pub open spec fn name_violations(name: Seq<char>, prefix: Seq<PathComponentView>) -> Seq<
    EntryView,
> {
    match length_check(name.len(), NAME_MIN as nat, NAME_MAX as nat) {
        Some(m) => seq![
            EntryView { path: prefix.push(PathComponentView::Field("name"@)), message: m },
        ],
        None => Seq::empty(),
    }
}

/// The violations the per-element length rule on `tags` contributes: element
/// `i` fails at the path `tags_prefix + i`, and contributions concatenate in
/// element order.
pub open spec fn tag_violations(tags: Seq<String>, tags_prefix: Seq<PathComponentView>) -> Seq<
    EntryView,
>
    decreases tags.len(),
{
    if tags.len() == 0 {
        Seq::empty()
    } else {
        tag_violations(tags.drop_last(), tags_prefix) + (match length_check(
            tags.last()@.len(),
            TAG_MIN as nat,
            TAG_MAX as nat,
        ) {
            Some(m) => seq![
                EntryView {
                    path: tags_prefix.push(PathComponentView::Index(tags.len() - 1)),
                    message: m,
                },
            ],
            None => Seq::empty(),
        })
    }
}

/// The path of the `tags` field under `prefix`.
pub open spec fn tags_prefix_of(prefix: Seq<PathComponentView>) -> Seq<PathComponentView> {
    prefix.push(PathComponentView::Field("tags"@))
}

impl Validate for Record {
    open spec fn violations(&self, prefix: Seq<PathComponentView>) -> Seq<EntryView> {
        name_violations(self.name@, prefix) + tag_violations(self.tags@, tags_prefix_of(prefix))
    }

    fn validate_into(&self, parent: &Path, report: &mut Report) {
        // name: length rule, path joined only if the rule fails
        let mut name_cell: Option<Path> = None;
        match length::apply(&self.name, (NAME_MIN, NAME_MAX)) {
            Ok(()) => {},
            Err(e) => {
                let p = name_cell.maybe_join(parent, &"name");
                report.record(p, e);
            },
        }
        proof {
            assert(report@ =~= old(report)@ + name_violations(self.name@, parent@));
        }
        // tags: length rule per element; the field path is joined at most
        // once, on the first failing element
        let mut tags_cell: Option<Path> = None;
        let n = self.tags.len();
        for i in 0..n
            invariant
                n == self.tags@.len(),
                tags_cell.memo() is None || tags_cell.memo() == Some(tags_prefix_of(parent@)),
                report@ == old(report)@ + name_violations(self.name@, parent@) + tag_violations(
                    self.tags@.take(i as int),
                    tags_prefix_of(parent@),
                ),
        {
            match length::apply(&self.tags[i], (TAG_MIN, TAG_MAX)) {
                Ok(()) => {},
                Err(e) => {
                    let tp = tags_cell.maybe_join(parent, &"tags");
                    let p = tp.join(&i);
                    report.record(p, e);
                },
            }
            proof {
                let tags = self.tags@;
                assert(tags.take(i as int + 1).drop_last() =~= tags.take(i as int));
                assert(tags.take(i as int + 1).last() == tags[i as int]);
                assert(report@ =~= old(report)@ + name_violations(self.name@, parent@)
                    + tag_violations(tags.take(i as int + 1), tags_prefix_of(parent@)));
            }
        }
        proof {
            assert(self.tags@.take(n as int) =~= self.tags@);
            assert(report@ =~= old(report)@ + self.violations(parent@));
        }
    }
}

/// Collect-all: a record's report is the concatenation of each field's own
/// violations, so sibling fields contribute independently and a failure at
/// one field never prevents — or hides — the checks of another.
pub proof fn lemma_collect_all(r: Record, prefix: Seq<PathComponentView>)
    ensures
        r.violations(prefix).len() == name_violations(r.name@, prefix).len() + tag_violations(
            r.tags@,
            tags_prefix_of(prefix),
        ).len(),
{
}

} // verus!
