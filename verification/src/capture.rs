//! Observing edits: which controls are watched, what an edit writes to the
//! store, and what a submitted form invalidates.

use crate::keys::{submitted_flag_key, submitted_key};
use crate::page::{views, Element, ElementView};
use crate::storage::{
    applied, merge_keeps_other_fields, snapshot_at, write_views, FieldView, FormField, StoreWrite,
    StoreWriteView, Stored,
};
use vstd::prelude::*;

verus! {

/// The selector of the elements that the scan at bind time looks at.
pub const CONTROL_SELECTOR: &'static str = "input, select, textarea";

/// The selector of the elements whose submission invalidates the snapshot.
pub const FORM_SELECTOR: &'static str = "form";

/// The first of the two notifications of a control that are listened for.
pub const INPUT_EVENT: &'static str = "input";

/// The second of the two notifications of a control that are listened for.
pub const CHANGE_EVENT: &'static str = "change";

/// The notification of a form that is listened for.
pub const SUBMIT_EVENT: &'static str = "submit";

/// Whether edits of the element are watched: it is a form control and has
/// a field name.
pub open spec fn watched(element: ElementView) -> bool {
    element.kind is Some && element.field_id() is Some
}

/// Whether edits of the element at `i` of `page` are watched.
pub open spec fn watched_at(page: Seq<ElementView>, i: int) -> bool {
    0 <= i < page.len() && watched(page[i])
}

/// The write that an edit of `target` causes on the page whose key is
/// `key`: the one field that the target stands for, merged into the page's
/// snapshot; or none, where the target has no field name.
pub open spec fn captured(key: Seq<char>, target: ElementView) -> Option<StoreWriteView> {
    match target.field_id() {
        Some(name) => Some(
            StoreWriteView::MergeField { key, field: FieldView { name, value: target.text() } },
        ),
        None => None,
    }
}

/// The writes that the submission of a form causes on the page whose key is
/// `key`: the submitted flag is set, then the snapshot is deleted.
pub open spec fn invalidation(key: Seq<char>) -> Seq<StoreWriteView> {
    seq![
        StoreWriteView::SetFlag { key: submitted_key(key), value: true },
        StoreWriteView::Clear { key },
    ]
}

/// The view of a write that may be absent.
pub open spec fn optional_write_view(write: Option<StoreWrite>) -> Option<StoreWriteView> {
    match write {
        Some(w) => Some(w@),
        None => None,
    }
}

/// The places of the elements of `page` whose edits are watched, in
/// document order. The page is scanned once: an element that is added later
/// is not among them.
pub fn bind_targets(page: &Vec<Element>) -> (targets: Vec<usize>)
    ensures
        forall|i: usize| targets@.contains(i) <==> watched_at(views(page@), i as int),
        forall|a: int, b: int| 0 <= a < b < targets@.len() ==> targets@[a] < targets@[b],
{
    let mut targets: Vec<usize> = Vec::new();
    let mut i: usize = 0;
    while i < page.len()
        invariant
            i <= page@.len(),
            forall|j: usize|
                targets@.contains(j) <==> j < i && watched_at(views(page@), j as int),
            forall|a: int, b: int| 0 <= a < b < targets@.len() ==> targets@[a] < targets@[b],
        decreases page@.len() - i,
    {
        let watch = page[i].kind.is_some() && page[i].field_id().is_some();
        let ghost earlier = targets@;
        if watch {
            targets.push(i);
        }
        proof {
            assert(views(page@)[i as int] == page@[i as int]@);
            assert(watch == watched_at(views(page@), i as int));
            assert forall|j: usize| targets@.contains(j) <==> j < i + 1 && watched_at(
                views(page@),
                j as int,
            ) by {
                assert(earlier.contains(j) <==> j < i && watched_at(views(page@), j as int));
                if earlier.contains(j) {
                    let m = choose|m: int| 0 <= m < earlier.len() && earlier[m] == j;
                    assert(targets@[m] == j);
                }
                if watch && j == i {
                    assert(targets@[earlier.len() as int] == j);
                }
                if targets@.contains(j) {
                    let m = choose|m: int| 0 <= m < targets@.len() && targets@[m] == j;
                    if m < earlier.len() {
                        assert(earlier[m] == j);
                    }
                }
            }
            assert forall|a: int, b: int| 0 <= a < b < targets@.len() implies targets@[a]
                < targets@[b] by {
                if b == earlier.len() {
                    assert(earlier[a] == targets@[a]);
                    assert(earlier.contains(earlier[a]));
                } else {
                    assert(earlier[a] < earlier[b]);
                }
            }
        }
        i += 1;
    }
    targets
}

/// The write that an edit of `target` causes on the page whose key is
/// `key`. Name, kind and value are those that the target has when the edit
/// is observed.
pub fn capture(key: &str, target: &Element) -> (write: Option<StoreWrite>)
    ensures
        optional_write_view(write) == captured(key@, target@),
{
    match target.field_id() {
        Some(name) => {
            let field = FormField { name: name.clone(), value: target.text() };
            Some(StoreWrite::MergeField { key: key.to_owned(), field })
        },
        None => None,
    }
}

/// The writes that the submission of a form causes on the page whose key is
/// `key`.
pub fn invalidate(key: &str) -> (writes: Vec<StoreWrite>)
    ensures
        write_views(writes@) == invalidation(key@),
{
    let mut writes: Vec<StoreWrite> = Vec::new();
    writes.push(StoreWrite::SetFlag { key: submitted_flag_key(key), value: true });
    writes.push(StoreWrite::Clear { key: key.to_owned() });
    proof {
        assert(write_views(writes@) =~= invalidation(key@));
    }
    writes
}

/// Capturing merges; it does not replace. The write that an edit of one
/// field causes leaves every other field of the page's snapshot as it was
/// persisted, and gives the edited field the target's text.
pub proof fn capture_keeps_other_fields(
    store: Map<Seq<char>, Stored>,
    key: Seq<char>,
    target: ElementView,
    other: Seq<char>,
)
    requires
        target.field_id() is Some,
        target.field_id() != Some(other),
        snapshot_at(store, key) is Some,
    ensures
        captured(key, target) is Some,
        ({
            let before = snapshot_at(store, key).unwrap();
            let after = snapshot_at(applied(store, captured(key, target).unwrap()), key);
            &&& after is Some
            &&& after.unwrap().contains_key(other) == before.contains_key(other)
            &&& before.contains_key(other) ==> after.unwrap()[other] == before[other]
            &&& after.unwrap().contains_key(target.field_id().unwrap())
            &&& after.unwrap()[target.field_id().unwrap()] == target.text()
        }),
{
    let name = target.field_id().unwrap();
    merge_keeps_other_fields(store, key, FieldView { name, value: target.text() }, other);
}

} // verus!