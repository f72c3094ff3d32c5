use vstd::prelude::*;

verus! {

/// An optional text field seen as an optional sequence of characters.
pub open spec fn optional_text(t: Option<String>) -> Option<Seq<char>> {
    match t {
        Some(s) => Some(s@),
        None => None,
    }
}

/// Copies an optional text field, keeping its contents.
pub fn copy_optional_text(t: &Option<String>) -> (r: Option<String>)
    ensures
        optional_text(r) == optional_text(*t),
{
    match t {
        Some(s) => Some(s.clone()),
        None => None,
    }
}

/// The payload of a create request: the new item's fields, without an id.
pub struct CreateItem {
    pub name: String,
    pub description: Option<String>,
}

/// The payload of an update request: the values that replace both fields.
pub struct UpdateItem {
    pub name: String,
    pub description: Option<String>,
}

/// A stored item, as a row of the items table.
#[derive(Debug, PartialEq, Eq)]
pub struct Item {
    pub id: i32,
    pub name: String,
    pub description: Option<String>,
}

/// What an item holds, as mathematical values.
pub struct ItemView {
    pub id: i32,
    pub name: Seq<char>,
    pub description: Option<Seq<char>>,
}

impl View for Item {
    type V = ItemView;

    open spec fn view(&self) -> ItemView {
        ItemView { id: self.id, name: self.name@, description: optional_text(self.description) }
    }
}

impl Clone for Item {
    fn clone(&self) -> (r: Self)
        ensures
            r@ == self@,
    {
        Item { id: self.id, name: self.name.clone(), description: copy_optional_text(&self.description) }
    }
}

impl CreateItem {
    /// The item that storing this payload under `id` gives.
    pub open spec fn with_id(self, id: i32) -> ItemView {
        ItemView { id, name: self.name@, description: optional_text(self.description) }
    }
}

impl UpdateItem {
    /// The item that replacing the fields of the item `id` by this payload gives.
    pub open spec fn with_id(self, id: i32) -> ItemView {
        ItemView { id, name: self.name@, description: optional_text(self.description) }
    }
}

} // verus!
