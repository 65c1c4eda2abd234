//! Menu controls: the closed set of kinds that a registry can hold.

use vstd::prelude::*;

use crate::item::{CheckItemView, CheckMenuItem, IconMenuItem, ItemView, MenuItem};
use crate::menu_id::MenuId;

verus! {

/// The mathematical view of a [`CheckMenuKind`].
pub enum CheckKindView<G> {
    CheckBox(CheckItemView, G),
    Radio(CheckItemView, Option<Seq<char>>, G),
    Separate(CheckItemView),
}

impl<G> CheckKindView<G> {
    /// The checkable item, whatever its grouping.
    pub open spec fn item(self) -> CheckItemView {
        match self {
            CheckKindView::CheckBox(item, _) => item,
            CheckKindView::Radio(item, _, _) => item,
            CheckKindView::Separate(item) => item,
        }
    }

    /// The group that the item belongs to, if it belongs to one.
    pub open spec fn group(self) -> Option<G> {
        match self {
            CheckKindView::CheckBox(_, group) => Some(group),
            CheckKindView::Radio(_, _, group) => Some(group),
            CheckKindView::Separate(_) => None,
        }
    }

    /// Whether `copy` is what cloning yields: the same kind around the same
    /// item, in a group that is a clone of this one's.
    pub open spec fn cloned_as(self, copy: CheckKindView<G>) -> bool where G: Clone {
        match (self, copy) {
            (
                CheckKindView::CheckBox(item, group),
                CheckKindView::CheckBox(item_copy, group_copy),
            ) => item == item_copy && cloned(group, group_copy),
            (
                CheckKindView::Radio(item, fallback, group),
                CheckKindView::Radio(item_copy, fallback_copy, group_copy),
            ) => item == item_copy && fallback == fallback_copy && cloned(group, group_copy),
            (CheckKindView::Separate(item), CheckKindView::Separate(item_copy)) => item
                == item_copy,
            _ => false,
        }
    }

    /// The same kind and grouping around an item whose check mark is `checked`.
    pub open spec fn with_checked(self, checked: bool) -> CheckKindView<G> {
        match self {
            CheckKindView::CheckBox(item, group) => CheckKindView::CheckBox(
                item.with_checked(checked),
                group,
            ),
            CheckKindView::Radio(item, fallback, group) => CheckKindView::Radio(
                item.with_checked(checked),
                fallback,
                group,
            ),
            CheckKindView::Separate(item) => CheckKindView::Separate(item.with_checked(checked)),
        }
    }
}

/// The mathematical view of a [`MenuControl`].
pub enum ControlView<G> {
    MenuItem(ItemView),
    IconMenu(ItemView),
    CheckMenu(CheckKindView<G>),
}

impl<G> ControlView<G> {
    /// Whether `copy` is what cloning yields: the same control, in a group
    /// that is a clone of this one's.
    pub open spec fn cloned_as(self, copy: ControlView<G>) -> bool where G: Clone {
        match (self, copy) {
            (ControlView::MenuItem(item), ControlView::MenuItem(item_copy)) => item == item_copy,
            (ControlView::IconMenu(item), ControlView::IconMenu(item_copy)) => item == item_copy,
            (ControlView::CheckMenu(kind), ControlView::CheckMenu(kind_copy)) => kind.cloned_as(
                kind_copy,
            ),
            _ => false,
        }
    }

    /// The identifier that the control is registered under.
    pub open spec fn id(self) -> Seq<char> {
        match self {
            ControlView::MenuItem(item) => item.id,
            ControlView::IconMenu(item) => item.id,
            ControlView::CheckMenu(kind) => kind.item().id,
        }
    }

    /// The text that the control displays.
    pub open spec fn text(self) -> Seq<char> {
        match self {
            ControlView::MenuItem(item) => item.text,
            ControlView::IconMenu(item) => item.text,
            ControlView::CheckMenu(kind) => kind.item().text,
        }
    }

    /// The checkable item of the control, if it has a check mark at all.
    pub open spec fn check_item(self) -> Option<CheckItemView> {
        match self {
            ControlView::CheckMenu(kind) => Some(kind.item()),
            _ => None,
        }
    }

    /// Whether the control has a check mark.
    pub open spec fn is_checkable(self) -> bool {
        self is CheckMenu
    }

    /// Whether the control has a check mark and it is set.
    pub open spec fn is_checked(self) -> bool {
        match self {
            ControlView::CheckMenu(kind) => kind.item().checked,
            _ => false,
        }
    }

    /// The group of the control: that of a checkbox or radio member, and none
    /// for every other kind.
    pub open spec fn group(self) -> Option<G> {
        match self {
            ControlView::CheckMenu(kind) => kind.group(),
            _ => None,
        }
    }

    /// Whether the control is a member of an exclusive group.
    pub open spec fn is_radio(self) -> bool {
        self matches ControlView::CheckMenu(kind) && kind is Radio
    }

    /// The fallback identifier that a radio member was configured with.
    pub open spec fn fallback(self) -> Option<Seq<char>> {
        match self {
            ControlView::CheckMenu(CheckKindView::Radio(_, fallback, _)) => fallback,
            _ => None,
        }
    }

    /// The same control with its check mark set to `checked`; a control
    /// without a check mark is left as it is.
    pub open spec fn with_checked(self, checked: bool) -> ControlView<G> {
        match self {
            ControlView::CheckMenu(kind) => ControlView::CheckMenu(kind.with_checked(checked)),
            _ => self,
        }
    }
}

/// A checkable item together with its grouping.
#[derive(Debug)]
pub enum CheckMenuKind<G> {
    /// A checkbox of the group `G`: checked and unchecked independently of
    /// the other members.
    CheckBox(CheckMenuItem, G),
    /// A radio member of the exclusive group `G`. The identifier, where there
    /// is one, names the member to check when a click would leave the group
    /// with nothing checked.
    Radio(CheckMenuItem, Option<MenuId>, G),
    /// A standalone checkbox that belongs to no group.
    Separate(CheckMenuItem),
}

impl<G> View for CheckMenuKind<G> {
    type V = CheckKindView<G>;

    open spec fn view(&self) -> CheckKindView<G> {
        match self {
            CheckMenuKind::CheckBox(item, group) => CheckKindView::CheckBox(item@, *group),
            CheckMenuKind::Radio(item, fallback, group) => CheckKindView::Radio(
                item@,
                match fallback {
                    Some(id) => Some(id@),
                    None => None,
                },
                *group,
            ),
            CheckMenuKind::Separate(item) => CheckKindView::Separate(item@),
        }
    }
}

impl<G: Clone> Clone for CheckMenuKind<G> {
    fn clone(&self) -> (r: Self)
        ensures
            self@.cloned_as(r@),
    {
        match self {
            CheckMenuKind::CheckBox(item, group) => CheckMenuKind::CheckBox(
                item.clone(),
                group.clone(),
            ),
            CheckMenuKind::Radio(item, fallback, group) => CheckMenuKind::Radio(
                item.clone(),
                match fallback {
                    Some(id) => Some(id.clone()),
                    None => None,
                },
                group.clone(),
            ),
            CheckMenuKind::Separate(item) => CheckMenuKind::Separate(item.clone()),
        }
    }
}

impl<G> CheckMenuKind<G> {
    /// Checks or unchecks the item; its grouping stays as it is.
    pub fn set_checked(&mut self, checked: bool)
        ensures
            final(self)@ == old(self)@.with_checked(checked),
    {
        match self {
            CheckMenuKind::CheckBox(item, _) => item.set_checked(checked),
            CheckMenuKind::Radio(item, _, _) => item.set_checked(checked),
            CheckMenuKind::Separate(item) => item.set_checked(checked),
        }
    }

    /// The checkable item, whatever its grouping.
    pub fn item(&self) -> (r: &CheckMenuItem)
        ensures
            r@ == self@.item(),
    {
        match self {
            CheckMenuKind::CheckBox(item, _) => item,
            CheckMenuKind::Radio(item, _, _) => item,
            CheckMenuKind::Separate(item) => item,
        }
    }

    /// The group that the item belongs to, if it belongs to one.
    pub fn group(&self) -> (r: Option<&G>)
        ensures
            match r {
                Some(group) => self@.group() == Some(*group),
                None => self@.group().is_none(),
            },
    {
        match self {
            CheckMenuKind::CheckBox(_, group) => Some(group),
            CheckMenuKind::Radio(_, _, group) => Some(group),
            CheckMenuKind::Separate(_) => None,
        }
    }
}

/// One control of a menu.
#[derive(Debug)]
pub enum MenuControl<G> {
    MenuItem(MenuItem),
    IconMenu(IconMenuItem),
    CheckMenu(CheckMenuKind<G>),
}

impl<G> View for MenuControl<G> {
    type V = ControlView<G>;

    open spec fn view(&self) -> ControlView<G> {
        match self {
            MenuControl::MenuItem(item) => ControlView::MenuItem(item@),
            MenuControl::IconMenu(item) => ControlView::IconMenu(item@),
            MenuControl::CheckMenu(kind) => ControlView::CheckMenu(kind@),
        }
    }
}

impl<G: Clone> Clone for MenuControl<G> {
    fn clone(&self) -> (r: Self)
        ensures
            self@.cloned_as(r@),
    {
        match self {
            MenuControl::MenuItem(item) => MenuControl::MenuItem(item.clone()),
            MenuControl::IconMenu(item) => MenuControl::IconMenu(item.clone()),
            MenuControl::CheckMenu(kind) => MenuControl::CheckMenu(kind.clone()),
        }
    }
}

impl<G> MenuControl<G> {
    /// Checks or unchecks the control; one without a check mark is left as
    /// it is.
    pub fn set_checked(&mut self, checked: bool)
        ensures
            final(self)@ == old(self)@.with_checked(checked),
    {
        match self {
            MenuControl::CheckMenu(kind) => kind.set_checked(checked),
            _ => {},
        }
    }

    /// The group of the control: that of a checkbox or radio member, and none
    /// for every other kind.
    pub fn group(&self) -> (r: Option<&G>)
        ensures
            match r {
                Some(group) => self@.group() == Some(*group),
                None => self@.group().is_none(),
            },
    {
        match self {
            MenuControl::CheckMenu(kind) => kind.group(),
            _ => None,
        }
    }

    /// The identifier of the control.
    pub fn id(&self) -> (r: &MenuId)
        ensures
            r@ == self@.id(),
    {
        match self {
            MenuControl::MenuItem(item) => item.id(),
            MenuControl::IconMenu(item) => item.id(),
            MenuControl::CheckMenu(kind) => kind.item().id(),
        }
    }

    /// The text that the control displays.
    pub fn text(&self) -> (r: String)
        ensures
            r@ == self@.text(),
    {
        match self {
            MenuControl::MenuItem(item) => item.text(),
            MenuControl::IconMenu(item) => item.text(),
            MenuControl::CheckMenu(kind) => kind.item().text(),
        }
    }

    /// The plain item, if the control is one.
    pub fn as_menu_item(&self) -> (r: Option<&MenuItem>)
        ensures
            match r {
                Some(item) => self@ == ControlView::<G>::MenuItem(item@),
                None => !(self@ is MenuItem),
            },
    {
        match self {
            MenuControl::MenuItem(item) => Some(item),
            _ => None,
        }
    }

    /// The icon item, if the control is one.
    pub fn as_icon_menu(&self) -> (r: Option<&IconMenuItem>)
        ensures
            match r {
                Some(item) => self@ == ControlView::<G>::IconMenu(item@),
                None => !(self@ is IconMenu),
            },
    {
        match self {
            MenuControl::IconMenu(item) => Some(item),
            _ => None,
        }
    }

    /// The checkable item, if the control has a check mark, whatever its
    /// grouping.
    pub fn as_check_menu(&self) -> (r: Option<&CheckMenuItem>)
        ensures
            match r {
                Some(item) => self@.check_item() == Some(item@),
                None => self@.check_item().is_none(),
            },
    {
        match self {
            MenuControl::CheckMenu(kind) => Some(kind.item()),
            _ => None,
        }
    }
}

} // verus!
