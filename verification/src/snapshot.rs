//! A page's saved field values: one value per field name.

use crate::storage::FormField;
use vstd::prelude::*;

verus! {

/// No name occurs twice in `fields`.
pub open spec fn names_unique(fields: Seq<FormField>) -> bool {
    forall|i: int, j: int|
        0 <= i < j < fields.len() ==> (#[trigger] fields[i]).name@ != (#[trigger] fields[j]).name@
}

/// Some field of `fields` is called `name`.
pub open spec fn has_name(fields: Seq<FormField>, name: Seq<char>) -> bool {
    exists|i: int| 0 <= i < fields.len() && (#[trigger] fields[i]).name@ == name
}

/// The mapping that a list of fields stands for: each name with the value of
/// the last field of that name.
pub open spec fn snapshot_of(fields: Seq<FormField>) -> Map<Seq<char>, Seq<char>>
    decreases fields.len(),
{
    if fields.len() == 0 {
        Map::empty()
    } else {
        snapshot_of(fields.drop_last()).insert(fields.last().name@, fields.last().value@)
    }
}

/// The names of the mapping are the names of the list.
pub proof fn lemma_snapshot_names(fields: Seq<FormField>)
    ensures
        forall|name: Seq<char>|
            #[trigger] snapshot_of(fields).contains_key(name) <==> has_name(fields, name),
        snapshot_of(fields).dom().finite(),
    decreases fields.len(),
{
    if fields.len() > 0 {
        let front = fields.drop_last();
        lemma_snapshot_names(front);
        assert forall|name: Seq<char>| #[trigger]
            snapshot_of(fields).contains_key(name) <==> has_name(fields, name) by {
            if has_name(fields, name) {
                let i = choose|i: int| 0 <= i < fields.len() && (#[trigger] fields[i]).name@ == name;
                if i < front.len() {
                    assert(front[i].name@ == name);
                }
            }
            if has_name(front, name) {
                let i = choose|i: int| 0 <= i < front.len() && (#[trigger] front[i]).name@ == name;
                assert(fields[i].name@ == name);
            }
            if name == fields.last().name@ {
                assert(fields[fields.len() - 1].name@ == name);
            }
        }
    }
}

/// Where no name occurs twice, each field's value is the one that the
/// mapping gives its name, and the mapping has as many names as the list has
/// fields.
pub proof fn lemma_snapshot_values(fields: Seq<FormField>)
    requires
        names_unique(fields),
    ensures
        forall|i: int|
            0 <= i < fields.len() ==> snapshot_of(fields)[(#[trigger] fields[i]).name@]
                == fields[i].value@,
        snapshot_of(fields).dom().len() == fields.len(),
    decreases fields.len(),
{
    if fields.len() > 0 {
        let front = fields.drop_last();
        let last = fields.last();
        assert(names_unique(front)) by {
            assert forall|i: int, j: int| 0 <= i < j < front.len() implies (#[trigger] front[i]).name@
                != (#[trigger] front[j]).name@ by {
                assert(fields[i].name@ != fields[j].name@);
            }
        }
        lemma_snapshot_values(front);
        lemma_snapshot_names(front);
        assert(!has_name(front, last.name@)) by {
            if has_name(front, last.name@) {
                let i = choose|i: int|
                    0 <= i < front.len() && (#[trigger] front[i]).name@ == last.name@;
                assert(fields[i].name@ != fields[fields.len() - 1].name@);
            }
        }
        assert forall|i: int| 0 <= i < fields.len() implies snapshot_of(fields)[(
        #[trigger] fields[i]).name@] == fields[i].value@ by {
            if i < front.len() {
                assert(front[i].name@ == fields[i].name@);
                assert(fields[i].name@ != fields[fields.len() - 1].name@);
            }
        }
    }
}

/// The latest known values of a page's fields, one per field name. The
/// order of the fields carries no meaning.
#[derive(Debug)]
pub struct FormSnapshot {
    fields: Vec<FormField>,
}

impl View for FormSnapshot {
    type V = Map<Seq<char>, Seq<char>>;

    closed spec fn view(&self) -> Map<Seq<char>, Seq<char>> {
        snapshot_of(self.fields@)
    }
}

impl FormSnapshot {
    #[verifier::type_invariant]
    spec fn names_occur_once(&self) -> bool {
        names_unique(self.fields@)
    }

    /// The snapshot of a page of which nothing was saved.
    pub fn new() -> (snapshot: FormSnapshot)
        ensures
            snapshot@ == Map::<Seq<char>, Seq<char>>::empty(),
    {
        FormSnapshot { fields: Vec::new() }
    }

    /// The saved fields, each name once.
    pub fn fields(&self) -> (fields: &Vec<FormField>)
        ensures
            names_unique(fields@),
            snapshot_of(fields@) == self@,
    {
        proof {
            use_type_invariant(self);
        }
        &self.fields
    }

    /// How many fields are saved.
    pub fn len(&self) -> (n: usize)
        ensures
            self@.dom().finite(),
            n == self@.dom().len(),
    {
        proof {
            use_type_invariant(self);
            lemma_snapshot_names(self.fields@);
            lemma_snapshot_values(self.fields@);
        }
        self.fields.len()
    }

    /// Where the field called `name` stands, if there is one.
    fn position(&self, name: &String) -> (found: Option<usize>)
        ensures
            match found {
                Some(i) => i < self.fields@.len() && self.fields@[i as int].name@ == name@,
                None => !has_name(self.fields@, name@),
            },
    {
        let mut i: usize = 0;
        while i < self.fields.len()
            invariant
                i <= self.fields@.len(),
                forall|j: int| 0 <= j < i ==> (#[trigger] self.fields@[j]).name@ != name@,
            decreases self.fields@.len() - i,
        {
            if self.fields[i].name == *name {
                return Some(i);
            }
            i += 1;
        }
        None
    }

    /// The value saved for `name`, if one is.
    pub fn get(&self, name: &str) -> (value: Option<&String>)
        ensures
            match value {
                Some(v) => self@.contains_key(name@) && v@ == self@[name@],
                None => !self@.contains_key(name@),
            },
    {
        let owned = name.to_owned();
        proof {
            use_type_invariant(self);
            lemma_snapshot_names(self.fields@);
            lemma_snapshot_values(self.fields@);
        }
        match self.position(&owned) {
            Some(i) => Some(&self.fields[i].value),
            None => None,
        }
    }

    /// Saves `field`: its value replaces the one saved under its name, or is
    /// added where none was. Every other field stays as it is.
    pub fn upsert(&mut self, field: FormField)
        ensures
            final(self)@ == old(self)@.insert(field.name@, field.value@),
    {
        proof {
            use_type_invariant(&*self);
            lemma_snapshot_names(self.fields@);
            lemma_snapshot_values(self.fields@);
        }
        let ghost before = self.fields@;
        let found = self.position(&field.name);
        let mut fields: Vec<FormField> = Vec::new();
        std::mem::swap(&mut self.fields, &mut fields);
        match found {
            Some(i) => {
                fields.set(i, field);
                proof {
                    let after = fields@;
                    assert(names_unique(after)) by {
                        assert forall|a: int, b: int| 0 <= a < b < after.len() implies (
                        #[trigger] after[a]).name@ != (#[trigger] after[b]).name@ by {
                            assert(before[a].name@ != before[b].name@);
                        }
                    }
                    lemma_snapshot_names(after);
                    lemma_snapshot_values(after);
                    assert forall|name: Seq<char>| has_name(after, name) <==> has_name(
                        before,
                        name,
                    ) by {
                        if has_name(after, name) {
                            let a = choose|a: int|
                                0 <= a < after.len() && (#[trigger] after[a]).name@ == name;
                            assert(before[a].name@ == name);
                        }
                        if has_name(before, name) {
                            let a = choose|a: int|
                                0 <= a < before.len() && (#[trigger] before[a]).name@ == name;
                            assert(after[a].name@ == name);
                        }
                    }
                    assert forall|name: Seq<char>| snapshot_of(after).contains_key(name) implies (
                    #[trigger] snapshot_of(after)[name]) == snapshot_of(before).insert(
                        field.name@,
                        field.value@,
                    )[name] by {
                        let a = choose|a: int|
                            0 <= a < after.len() && (#[trigger] after[a]).name@ == name;
                        if a != i {
                            assert(before[a].name@ == name);
                            assert(before[a].name@ != before[i as int].name@);
                        }
                    }
                    assert(snapshot_of(after) =~= snapshot_of(before).insert(
                        field.name@,
                        field.value@,
                    ));
                }
            },
            None => {
                fields.push(field);
                proof {
                    let after = fields@;
                    assert(after.drop_last() =~= before);
                    assert(names_unique(after)) by {
                        assert forall|a: int, b: int| 0 <= a < b < after.len() implies (
                        #[trigger] after[a]).name@ != (#[trigger] after[b]).name@ by {
                            if b < before.len() {
                                assert(before[a].name@ != before[b].name@);
                            } else {
                                assert(before[a].name@ == after[a].name@);
                            }
                        }
                    }
                }
            },
        }
        self.fields = fields;
    }

    /// The snapshot that a list of fields stands for. Where a name comes more
    /// than once, its last value is the one kept.
    pub fn from_fields(fields: &Vec<FormField>) -> (snapshot: FormSnapshot)
        ensures
            snapshot@ == snapshot_of(fields@),
    {
        let mut snapshot = FormSnapshot::new();
        let mut i: usize = 0;
        while i < fields.len()
            invariant
                i <= fields@.len(),
                snapshot@ == snapshot_of(fields@.take(i as int)),
            decreases fields@.len() - i,
        {
            snapshot.upsert(fields[i].clone());
            proof {
                assert(fields@.take(i + 1).drop_last() =~= fields@.take(i as int));
            }
            i += 1;
        }
        proof {
            assert(fields@.take(i as int) =~= fields@);
        }
        snapshot
    }
}

impl Clone for FormSnapshot {
    fn clone(&self) -> (copy: FormSnapshot)
        ensures
            copy@ == self@,
    {
        FormSnapshot::from_fields(&self.fields)
    }
}

} // verus!
