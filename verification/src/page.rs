//! The page as the engine sees it: its elements in document order, each with
//! its `id`, the kind of form control it is, and the text it holds.

use vstd::prelude::*;

verus! {

/// The kinds of form control whose values are saved and restored.
#[derive(Debug, Clone, Copy, PartialEq, Eq, Structural)]
pub enum ControlKind {
    /// A text-like input.
    Input,
    /// A drop-down list.
    Select,
    /// A multi-line text area.
    TextArea,
}

/// One element of the page.
#[derive(Debug)]
pub struct Element {
    /// The `id` attribute, where the element has one.
    pub id: Option<String>,
    /// The kind of form control, or `None` for any other element.
    pub kind: Option<ControlKind>,
    /// The text that the control holds.
    pub value: String,
}

/// The mathematical value of an [`Element`].
pub struct ElementView {
    pub id: Option<Seq<char>>,
    pub kind: Option<ControlKind>,
    pub value: Seq<char>,
}

impl ElementView {
    /// The name under which the element's value is saved: its `id`, unless
    /// that is missing or empty.
    pub open spec fn field_id(self) -> Option<Seq<char>> {
        match self.id {
            Some(id) => if id.len() > 0 {
                Some(id)
            } else {
                None
            },
            None => None,
        }
    }

    /// The text that the element holds as a form control; an element that is
    /// none holds the empty text.
    pub open spec fn text(self) -> Seq<char> {
        match self.kind {
            Some(_) => self.value,
            None => Seq::empty(),
        }
    }

    /// Whether restoring may set the element's value: always for a
    /// drop-down list, for an input or a text area only while it is empty,
    /// and never for an element that is no form control.
    pub open spec fn accepts_restore(self) -> bool {
        match self.kind {
            Some(ControlKind::Select) => true,
            Some(ControlKind::Input) | Some(ControlKind::TextArea) => self.value.len() == 0,
            None => false,
        }
    }

    /// The element with `text` as its value.
    pub open spec fn with_value(self, text: Seq<char>) -> ElementView {
        ElementView { id: self.id, kind: self.kind, value: text }
    }
}

impl View for Element {
    type V = ElementView;

    open spec fn view(&self) -> ElementView {
        ElementView {
            id: match self.id {
                Some(id) => Some(id@),
                None => None,
            },
            kind: self.kind,
            value: self.value@,
        }
    }
}

impl Clone for Element {
    fn clone(&self) -> (copy: Element)
        ensures
            copy@ == self@,
    {
        self.with_value(self.value.clone())
    }
}

/// The mathematical value of a page: that of each of its elements, in
/// document order.
pub open spec fn views(page: Seq<Element>) -> Seq<ElementView> {
    page.map_values(|e: Element| e@)
}

/// Whether the element at `i` is the first of `page`, in document order,
/// whose field name is `name`.
pub open spec fn first_named(page: Seq<ElementView>, name: Seq<char>, i: int) -> bool {
    &&& 0 <= i < page.len()
    &&& page[i].field_id() == Some(name)
    &&& forall|j: int| 0 <= j < i ==> (#[trigger] page[j]).field_id() != Some(name)
}

impl Element {
    /// The name under which the element's value is saved.
    pub fn field_id(&self) -> (name: Option<&String>)
        ensures
            match name {
                Some(n) => self@.field_id() == Some(n@),
                None => self@.field_id() is None,
            },
    {
        match &self.id {
            Some(id) => if id.as_str().is_empty() {
                None
            } else {
                Some(id)
            },
            None => None,
        }
    }

    /// The text that the element holds as a form control.
    pub fn text(&self) -> (text: String)
        ensures
            text@ == self@.text(),
    {
        match self.kind {
            Some(_) => self.value.clone(),
            None => String::new(),
        }
    }

    /// A copy of the element with `text` as its value.
    pub fn with_value(&self, text: String) -> (element: Element)
        ensures
            element@ == self@.with_value(text@),
    {
        let id = match &self.id {
            Some(id) => Some(id.clone()),
            None => None,
        };
        Element { id, kind: self.kind, value: text }
    }

    /// Whether restoring may set the element's value.
    pub fn accepts_restore(&self) -> (accepts: bool)
        ensures
            accepts == self@.accepts_restore(),
    {
        match self.kind {
            Some(ControlKind::Select) => true,
            Some(ControlKind::Input) | Some(ControlKind::TextArea) => self.value.as_str().is_empty(),
            None => false,
        }
    }
}

/// Looks an element up by its field name: the first one in document order,
/// as a single-element lookup by `id` gives it.
pub fn find_by_id(page: &Vec<Element>, name: &String) -> (found: Option<usize>)
    ensures
        match found {
            Some(i) => first_named(views(page@), name@, i as int),
            None => forall|j: int|
                0 <= j < page@.len() ==> (#[trigger] views(page@)[j]).field_id() != Some(name@),
        },
{
    let mut i: usize = 0;
    while i < page.len()
        invariant
            i <= page@.len(),
            forall|j: int| 0 <= j < i ==> (#[trigger] views(page@)[j]).field_id() != Some(name@),
        decreases page@.len() - i,
    {
        let hit = match page[i].field_id() {
            Some(id) => *id == *name,
            None => false,
        };
        if hit {
            return Some(i);
        }
        i += 1;
    }
    None
}

} // verus!
