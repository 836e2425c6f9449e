//! Restoring a snapshot into a page without touching what the user typed.

use crate::page::{find_by_id, first_named, views, ControlKind, Element, ElementView};
use crate::snapshot::{
    has_name, lemma_snapshot_names, lemma_snapshot_values, names_unique, snapshot_of, FormSnapshot,
};
use crate::storage::FormField;
use vstd::prelude::*;

verus! {

/// Whether restoring `snapshot` sets the value of the element at `i`: the
/// snapshot holds a value for the element's field name, the element is the
/// first of the page with that name, and it accepts the value.
pub open spec fn receives(
    snapshot: Map<Seq<char>, Seq<char>>,
    page: Seq<ElementView>,
    i: int,
) -> bool {
    &&& 0 <= i < page.len()
    &&& page[i].field_id() matches Some(name)
    &&& snapshot.contains_key(name)
    &&& first_named(page, name, i)
    &&& page[i].accepts_restore()
}

/// The element at `i` after `snapshot` was restored into `page`.
pub open spec fn restored_element(
    snapshot: Map<Seq<char>, Seq<char>>,
    page: Seq<ElementView>,
    i: int,
) -> ElementView {
    if receives(snapshot, page, i) {
        page[i].with_value(snapshot[page[i].field_id().unwrap()])
    } else {
        page[i]
    }
}

/// The page after `snapshot` was restored into it.
pub open spec fn restored(
    snapshot: Map<Seq<char>, Seq<char>>,
    page: Seq<ElementView>,
) -> Seq<ElementView> {
    Seq::new(page.len(), |i: int| restored_element(snapshot, page, i))
}

/// Restoring never changes how many elements the page has, nor the `id` or
/// the kind of any of them.
pub proof fn restore_keeps_identity(
    snapshot: Map<Seq<char>, Seq<char>>,
    page: Seq<ElementView>,
    i: int,
)
    requires
        0 <= i < page.len(),
    ensures
        restored(snapshot, page).len() == page.len(),
        restored(snapshot, page)[i].id == page[i].id,
        restored(snapshot, page)[i].kind == page[i].kind,
{
}

/// Restoring is non-destructive: an element that already holds text keeps
/// it, whatever the snapshot holds for its name, unless it is a drop-down
/// list.
pub proof fn restore_keeps_typed_text(
    snapshot: Map<Seq<char>, Seq<char>>,
    page: Seq<ElementView>,
    i: int,
)
    requires
        0 <= i < page.len(),
        page[i].value.len() > 0,
        page[i].kind != Some(ControlKind::Select),
    ensures
        restored(snapshot, page)[i] == page[i],
{
}

/// A drop-down list always takes the value saved under its name, provided
/// that it is the first element of the page with that name.
pub proof fn restore_overwrites_select(
    snapshot: Map<Seq<char>, Seq<char>>,
    page: Seq<ElementView>,
    i: int,
    name: Seq<char>,
)
    requires
        first_named(page, name, i),
        page[i].kind == Some(ControlKind::Select),
        snapshot.contains_key(name),
    ensures
        restored(snapshot, page)[i].value == snapshot[name],
{
}

/// An empty input or text area takes the value saved under its name,
/// provided that it is the first element of the page with that name.
pub proof fn restore_fills_empty_control(
    snapshot: Map<Seq<char>, Seq<char>>,
    page: Seq<ElementView>,
    i: int,
    name: Seq<char>,
)
    requires
        first_named(page, name, i),
        page[i].kind is Some,
        page[i].value.len() == 0,
        snapshot.contains_key(name),
    ensures
        restored(snapshot, page)[i].value == snapshot[name],
{
}

/// Only the first element that carries a name is restored: a later element
/// with the same `id` stays as it is. So does an element without a field
/// name, and one for whose name nothing is saved.
pub proof fn restore_skips_unmatched(
    snapshot: Map<Seq<char>, Seq<char>>,
    page: Seq<ElementView>,
    i: int,
)
    requires
        0 <= i < page.len(),
        match page[i].field_id() {
            Some(name) => !snapshot.contains_key(name) || exists|j: int|
                0 <= j < i && (#[trigger] page[j]).field_id() == Some(name),
            None => true,
        },
    ensures
        restored(snapshot, page)[i] == page[i],
{
}

/// Restoring is idempotent: restoring the same snapshot a second time
/// changes nothing.
pub proof fn restore_is_idempotent(snapshot: Map<Seq<char>, Seq<char>>, page: Seq<ElementView>)
    ensures
        restored(snapshot, restored(snapshot, page)) == restored(snapshot, page),
{
    let once = restored(snapshot, page);
    let twice = restored(snapshot, once);
    assert forall|i: int| 0 <= i < page.len() implies twice[i] == once[i] by {
        if receives(snapshot, once, i) {
            let name = once[i].field_id().unwrap();
            assert(page[i].field_id() == Some(name));
            assert forall|j: int| 0 <= j < i implies (#[trigger] page[j]).field_id() != Some(
                name,
            ) by {
                assert(once[j].field_id() != Some(name));
            }
            assert(first_named(page, name, i));
        }
    }
    assert(twice =~= once);
}

/// What holds of the page while the fields before `done` have been restored.
spec fn partly_restored(
    fields: Seq<FormField>,
    done: int,
    before: Seq<ElementView>,
    now: Seq<ElementView>,
) -> bool {
    &&& now.len() == before.len()
    &&& forall|i: int|
        0 <= i < before.len() ==> #[trigger] now[i] == (if receives(
            snapshot_of(fields.take(done)),
            before,
            i,
        ) {
            before[i].with_value(snapshot_of(fields)[before[i].field_id().unwrap()])
        } else {
            before[i]
        })
}

/// Restores `snapshot` into `page`, and returns the places of the elements
/// whose value it set.
///
/// A field of the snapshot goes to the first element that carries its name;
/// a field without such an element is passed over. A drop-down list always
/// takes the saved value; an input or a text area takes it only while it is
/// empty; any other element is left alone.
pub fn restore(snapshot: &FormSnapshot, page: &mut Vec<Element>) -> (written: Vec<usize>)
    ensures
        final(page)@.len() == old(page)@.len(),
        views(final(page)@) == restored(snapshot@, views(old(page)@)),
        forall|i: usize| written@.contains(i) <==> receives(snapshot@, views(old(page)@), i as int),
        written@.no_duplicates(),
{
    let fields = snapshot.fields();
    let ghost before = views(page@);
    let mut written: Vec<usize> = Vec::new();
    let mut k: usize = 0;
    proof {
        assert(fields@.take(0) =~= Seq::<FormField>::empty());
    }
    while k < fields.len()
        invariant
            k <= fields@.len(),
            names_unique(fields@),
            before == views(old(page)@),
            partly_restored(fields@, k as int, before, views(page@)),
            forall|i: usize|
                written@.contains(i) <==> receives(
                    snapshot_of(fields@.take(k as int)),
                    before,
                    i as int,
                ),
            written@.no_duplicates(),
        decreases fields@.len() - k,
    {
        let ghost seen = snapshot_of(fields@.take(k as int));
        let ghost next = snapshot_of(fields@.take(k + 1));
        let ghost name = fields@[k as int].name@;
        let ghost now = views(page@);
        proof {
            // This field's name is new: no field before it has it.
            assert(fields@.take(k + 1).drop_last() =~= fields@.take(k as int));
            assert(next == seen.insert(name, fields@[k as int].value@));
            lemma_snapshot_names(fields@.take(k as int));
            lemma_snapshot_values(fields@);
            assert(!seen.contains_key(name)) by {
                if has_name(fields@.take(k as int), name) {
                    let m = choose|m: int|
                        0 <= m < fields@.take(k as int).len() && (#[trigger] fields@.take(
                            k as int,
                        )[m]).name@ == name;
                    assert(fields@[m].name@ != fields@[k as int].name@);
                }
            }
            // What was restored so far has changed values only.
            assert forall|m: int| 0 <= m < before.len() implies (#[trigger] now[m]).field_id()
                == before[m].field_id() by {}
        }
        let target = find_by_id(page, &fields[k].name);
        let mut hit: Option<usize> = None;
        match target {
            Some(j) => {
                proof {
                    // The element still is as it was before the call.
                    assert(now[j as int].field_id() == Some(name));
                    assert(!receives(seen, before, j as int));
                    assert(now[j as int] == before[j as int]);
                    assert forall|m: int| 0 <= m < j implies (#[trigger] before[m]).field_id()
                        != Some(name) by {
                        assert(now[m].field_id() != Some(name));
                    }
                    assert(first_named(before, name, j as int));
                }
                if page[j].accepts_restore() {
                    let element = page[j].with_value(fields[k].value.clone());
                    page.set(j, element);
                    hit = Some(j);
                }
            },
            None => {
                proof {
                    assert forall|m: int| 0 <= m < before.len() implies (#[trigger] before[m]).field_id()
                        != Some(name) by {
                        assert(now[m].field_id() != Some(name));
                    }
                }
            },
        }
        proof {
            // With this field, the elements that receive a value are those
            // that did so far and the one that was hit, if one was.
            let after = views(page@);
            let hit_at: int = match hit {
                Some(j) => j as int,
                None => -1,
            };
            assert forall|i: int| 0 <= i < before.len() implies (receives(next, before, i) <==> (
            receives(seen, before, i) || hit_at == i)) by {
                if receives(seen, before, i) {
                    assert(receives(next, before, i));
                }
                if hit_at == i {
                    assert(now[i].accepts_restore());
                    assert(receives(next, before, i));
                }
                if receives(next, before, i) && !receives(seen, before, i) {
                    assert(before[i].field_id() == Some(name));
                    assert(target == Some(i as usize));
                    assert(now[i].accepts_restore());
                    assert(hit_at == i);
                }
            }
            assert forall|i: int| 0 <= i < before.len() implies #[trigger] after[i] == (
            if receives(next, before, i) {
                before[i].with_value(snapshot_of(fields@)[before[i].field_id().unwrap()])
            } else {
                before[i]
            }) by {
                assert(now[i] == (if receives(seen, before, i) {
                    before[i].with_value(snapshot_of(fields@)[before[i].field_id().unwrap()])
                } else {
                    before[i]
                }));
            }
        }
        let ghost earlier = written@;
        match hit {
            Some(j) => {
                written.push(j);
            },
            None => {},
        }
        proof {
            let hit_at: int = match hit {
                Some(j) => j as int,
                None => -1,
            };
            assert forall|i: usize| written@.contains(i) <==> receives(
                next,
                before,
                i as int,
            ) by {
                assert(earlier.contains(i) <==> receives(seen, before, i as int));
                if i < before.len() {
                    assert(receives(next, before, i as int) <==> (receives(seen, before, i as int)
                        || hit_at == i as int));
                }
                if earlier.contains(i) {
                    let m = choose|m: int| 0 <= m < earlier.len() && earlier[m] == i;
                    assert(written@[m] == i);
                }
                if hit == Some(i) {
                    assert(written@[earlier.len() as int] == i);
                }
            }
            assert(written@.no_duplicates()) by {
                if hit is Some {
                    assert(!receives(seen, before, hit_at));
                    assert(!earlier.contains(hit.unwrap()));
                }
            }
        }
        k += 1;
    }
    proof {
        assert(fields@.take(k as int) =~= fields@);
        assert(views(page@) =~= restored(snapshot@, before));
    }
    written
}

} // verus!
