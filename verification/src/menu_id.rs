//! Identifiers of menu controls.

use vstd::prelude::*;
use vstd::std_specs::cmp::PartialEqSpecImpl;

verus! {

/// The unique name of one menu control.
///
/// Two identifiers name the same control exactly when their texts are equal,
/// so the mathematical view of an identifier is its text.
#[derive(Debug, Hash)]
pub struct MenuId(pub String);

impl View for MenuId {
    type V = Seq<char>;

    open spec fn view(&self) -> Seq<char> {
        self.0@
    }
}

impl MenuId {
    /// Creates the identifier with the given text.
    pub fn new(id: &str) -> (r: Self)
        ensures
            r@ == id@,
    {
        MenuId(id.to_owned())
    }

    /// The text of this identifier.
    pub fn as_str(&self) -> (r: &str)
        ensures
            r@ == self@,
    {
        self.0.as_str()
    }
}

impl Clone for MenuId {
    fn clone(&self) -> (r: Self)
        ensures
            r@ == self@,
    {
        MenuId(self.0.clone())
    }
}

impl PartialEq for MenuId {
    fn eq(&self, other: &Self) -> (r: bool) {
        self.0 == other.0
    }
}

impl Eq for MenuId {}

impl PartialEqSpecImpl for MenuId {
    open spec fn obeys_eq_spec() -> bool {
        true
    }

    open spec fn eq_spec(&self, other: &Self) -> bool {
        self@ == other@
    }
}

} // verus!
