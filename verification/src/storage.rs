//! What the engine saves in the persisted store: the fields of a page, the
//! writes that it asks of the store, and what the store is taken to do with
//! them.
//!
//! The store itself is the host's. It maps string keys to values, and a
//! write that saves a field is a merge: it changes that one field of the
//! snapshot under the key and leaves the others as they are.

use vstd::prelude::*;

verus! {

/// One field of a form: the `id` of its control and the text it holds.
#[derive(Debug)]
pub struct FormField {
    pub name: String,
    pub value: String,
}

/// The mathematical value of a [`FormField`].
pub struct FieldView {
    pub name: Seq<char>,
    pub value: Seq<char>,
}

impl View for FormField {
    type V = FieldView;

    open spec fn view(&self) -> FieldView {
        FieldView { name: self.name@, value: self.value@ }
    }
}

impl Clone for FormField {
    fn clone(&self) -> (copy: FormField)
        ensures
            copy@ == self@,
    {
        FormField { name: self.name.clone(), value: self.value.clone() }
    }
}

/// A write that the host is to pass on to the store.
#[derive(Debug)]
pub enum StoreWrite {
    /// Save one field into the snapshot under `key`.
    MergeField { key: String, field: FormField },
    /// Set the flag under `key`.
    SetFlag { key: String, value: bool },
    /// Delete what the store holds under `key`.
    Clear { key: String },
}

/// The mathematical value of a [`StoreWrite`].
pub enum StoreWriteView {
    MergeField { key: Seq<char>, field: FieldView },
    SetFlag { key: Seq<char>, value: bool },
    Clear { key: Seq<char> },
}

impl View for StoreWrite {
    type V = StoreWriteView;

    open spec fn view(&self) -> StoreWriteView {
        match self {
            StoreWrite::MergeField { key, field } => StoreWriteView::MergeField {
                key: key@,
                field: field@,
            },
            StoreWrite::SetFlag { key, value } => StoreWriteView::SetFlag {
                key: key@,
                value: *value,
            },
            StoreWrite::Clear { key } => StoreWriteView::Clear { key: key@ },
        }
    }
}

impl Clone for StoreWrite {
    fn clone(&self) -> (copy: StoreWrite)
        ensures
            copy@ == self@,
    {
        match self {
            StoreWrite::MergeField { key, field } => StoreWrite::MergeField {
                key: key.clone(),
                field: field.clone(),
            },
            StoreWrite::SetFlag { key, value } => StoreWrite::SetFlag {
                key: key.clone(),
                value: *value,
            },
            StoreWrite::Clear { key } => StoreWrite::Clear { key: key.clone() },
        }
    }
}

/// The mathematical values of a list of writes, in their order.
pub open spec fn write_views(writes: Seq<StoreWrite>) -> Seq<StoreWriteView> {
    writes.map_values(|w: StoreWrite| w@)
}

/// What the store holds under one key.
pub enum Stored {
    /// A boolean flag.
    Flag(bool),
    /// A page's saved fields.
    Snapshot(Map<Seq<char>, Seq<char>>),
}

/// The flag that `store` holds under `key`, if it holds one there.
pub open spec fn flag_at(store: Map<Seq<char>, Stored>, key: Seq<char>) -> Option<bool> {
    if store.contains_key(key) {
        match store[key] {
            Stored::Flag(value) => Some(value),
            Stored::Snapshot(_) => None,
        }
    } else {
        None
    }
}

/// The snapshot that `store` holds under `key`, if it holds one there.
pub open spec fn snapshot_at(store: Map<Seq<char>, Stored>, key: Seq<char>) -> Option<
    Map<Seq<char>, Seq<char>>,
> {
    if store.contains_key(key) {
        match store[key] {
            Stored::Snapshot(fields) => Some(fields),
            Stored::Flag(_) => None,
        }
    } else {
        None
    }
}

/// The snapshot with `field` merged into it: the field's value stands under
/// the field's name, and every other name keeps what it had.
pub open spec fn merged(snapshot: Map<Seq<char>, Seq<char>>, field: FieldView) -> Map<
    Seq<char>,
    Seq<char>,
> {
    snapshot.insert(field.name, field.value)
}

/// The store after one write.
pub open spec fn applied(store: Map<Seq<char>, Stored>, write: StoreWriteView) -> Map<
    Seq<char>,
    Stored,
> {
    match write {
        StoreWriteView::MergeField { key, field } => {
            let fields = match snapshot_at(store, key) {
                Some(fields) => fields,
                None => Map::empty(),
            };
            store.insert(key, Stored::Snapshot(merged(fields, field)))
        },
        StoreWriteView::SetFlag { key, value } => store.insert(key, Stored::Flag(value)),
        StoreWriteView::Clear { key } => store.remove(key),
    }
}

/// The store after a list of writes, the first of them applied first.
pub open spec fn applied_all(store: Map<Seq<char>, Stored>, writes: Seq<StoreWriteView>) -> Map<
    Seq<char>,
    Stored,
>
    decreases writes.len(),
{
    if writes.len() == 0 {
        store
    } else {
        applied(applied_all(store, writes.drop_last()), writes.last())
    }
}

/// Whether `write` saves a field under `key`.
pub open spec fn merges_into(write: StoreWriteView, key: Seq<char>) -> bool {
    write matches StoreWriteView::MergeField { key: k, .. } && k == key
}

/// Saving a field merges; it does not replace. Every other field of the
/// page's snapshot keeps its value, and so does everything that the store
/// holds under another key.
pub proof fn merge_keeps_other_fields(
    store: Map<Seq<char>, Stored>,
    key: Seq<char>,
    field: FieldView,
    other: Seq<char>,
)
    requires
        other != field.name,
    ensures
        ({
            let after = applied(store, StoreWriteView::MergeField { key, field });
            &&& snapshot_at(after, key) is Some
            &&& snapshot_at(after, key).unwrap()[field.name] == field.value
            &&& snapshot_at(store, key) matches Some(before) ==> {
                &&& snapshot_at(after, key).unwrap().contains_key(other) == before.contains_key(
                    other,
                )
                &&& before.contains_key(other) ==> snapshot_at(after, key).unwrap()[other]
                    == before[other]
            }
            &&& snapshot_at(store, key) is None ==> !snapshot_at(after, key).unwrap().contains_key(
                other,
            )
            &&& forall|k: Seq<char>|
                k != key ==> after.contains_key(k) == store.contains_key(k) && (store.contains_key(
                    k,
                ) ==> after[k] == store[k])
        }),
{
}

} // verus!
