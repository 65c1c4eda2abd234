//! The menu items that a registry stores: what each one exposes to the
//! click protocol, held as plain values.

use vstd::prelude::*;

use crate::menu_id::MenuId;

verus! {

/// A clickable item without check state, as the registry sees it.
pub struct ItemView {
    pub id: Seq<char>,
    pub text: Seq<char>,
}

/// A checkable item, as the registry sees it.
pub struct CheckItemView {
    pub id: Seq<char>,
    pub text: Seq<char>,
    pub checked: bool,
}

impl CheckItemView {
    /// The same item with its check mark set to `checked`.
    pub open spec fn with_checked(self, checked: bool) -> CheckItemView {
        CheckItemView { id: self.id, text: self.text, checked }
    }
}

/// A simple clickable action.
#[derive(Debug)]
pub struct MenuItem {
    id: MenuId,
    text: String,
}

impl View for MenuItem {
    type V = ItemView;

    closed spec fn view(&self) -> ItemView {
        ItemView { id: self.id@, text: self.text@ }
    }
}

impl Clone for MenuItem {
    fn clone(&self) -> (r: Self)
        ensures
            r@ == self@,
    {
        MenuItem { id: self.id.clone(), text: self.text.clone() }
    }
}

impl MenuItem {
    /// Creates an item named `id` that displays `text`.
    pub fn new(id: MenuId, text: &str) -> (r: Self)
        ensures
            r@ == (ItemView { id: id@, text: text@ }),
    {
        MenuItem { id, text: text.to_owned() }
    }

    /// The identifier of this item.
    pub fn id(&self) -> (r: &MenuId)
        ensures
            r@ == self@.id,
    {
        &self.id
    }

    /// The text that this item displays.
    pub fn text(&self) -> (r: String)
        ensures
            r@ == self@.text,
    {
        self.text.clone()
    }
}

/// A clickable action decorated with an icon.
#[derive(Debug)]
pub struct IconMenuItem {
    id: MenuId,
    text: String,
}

impl View for IconMenuItem {
    type V = ItemView;

    closed spec fn view(&self) -> ItemView {
        ItemView { id: self.id@, text: self.text@ }
    }
}

impl Clone for IconMenuItem {
    fn clone(&self) -> (r: Self)
        ensures
            r@ == self@,
    {
        IconMenuItem { id: self.id.clone(), text: self.text.clone() }
    }
}

impl IconMenuItem {
    /// Creates an icon item named `id` that displays `text`.
    pub fn new(id: MenuId, text: &str) -> (r: Self)
        ensures
            r@ == (ItemView { id: id@, text: text@ }),
    {
        IconMenuItem { id, text: text.to_owned() }
    }

    /// The identifier of this item.
    pub fn id(&self) -> (r: &MenuId)
        ensures
            r@ == self@.id,
    {
        &self.id
    }

    /// The text that this item displays.
    pub fn text(&self) -> (r: String)
        ensures
            r@ == self@.text,
    {
        self.text.clone()
    }
}

/// An item that carries a check mark.
#[derive(Debug)]
pub struct CheckMenuItem {
    id: MenuId,
    text: String,
    checked: bool,
}

impl View for CheckMenuItem {
    type V = CheckItemView;

    closed spec fn view(&self) -> CheckItemView {
        CheckItemView { id: self.id@, text: self.text@, checked: self.checked }
    }
}

impl Clone for CheckMenuItem {
    fn clone(&self) -> (r: Self)
        ensures
            r@ == self@,
    {
        CheckMenuItem { id: self.id.clone(), text: self.text.clone(), checked: self.checked }
    }
}

impl CheckMenuItem {
    /// Creates a checkable item named `id` that displays `text` and starts
    /// out checked or not as `checked` says.
    pub fn new(id: MenuId, text: &str, checked: bool) -> (r: Self)
        ensures
            r@ == (CheckItemView { id: id@, text: text@, checked }),
    {
        CheckMenuItem { id, text: text.to_owned(), checked }
    }

    /// The identifier of this item.
    pub fn id(&self) -> (r: &MenuId)
        ensures
            r@ == self@.id,
    {
        &self.id
    }

    /// The text that this item displays.
    pub fn text(&self) -> (r: String)
        ensures
            r@ == self@.text,
    {
        self.text.clone()
    }

    /// Whether this item is checked.
    pub fn is_checked(&self) -> (r: bool)
        ensures
            r == self@.checked,
    {
        self.checked
    }

    /// Checks or unchecks this item; identifier and text stay as they are.
    pub fn set_checked(&mut self, checked: bool)
        ensures
            final(self)@ == old(self)@.with_checked(checked),
    {
        self.checked = checked;
    }
}

} // verus!
