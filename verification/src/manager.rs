//! The registry of menu controls and the click protocol that keeps radio
//! groups exclusive.

use vstd::laws_eq::obeys_concrete_eq;
use vstd::prelude::*;

use crate::control::{CheckMenuKind, ControlView, MenuControl};
use crate::item::{CheckItemView, CheckMenuItem};
use crate::menu_id::MenuId;
use crate::model::{group_members, keyed_by_id, lists, reported, selected, settled, updated};
use crate::registry::{
    distinct_ids, lemma_registry_at, lemma_registry_push, lemma_registry_remove,
    lemma_registry_replace, lemma_registry_settled, named_at, registry_of,
};

verus! {

/// The view of what a callback is handed: the view of the control, or
/// nothing.
pub open spec fn shown<G>(control: Option<&MenuControl<G>>) -> Option<ControlView<G>> {
    match control {
        Some(control) => Some(control@),
        None => None,
    }
}

/// Manages the controls of a menu: stores them by identifier, lists the
/// checkable ones by group, and keeps radio groups exclusive when a click is
/// reported.
///
/// `G` is the type of the group identifiers.
pub struct MenuManager<G> {
    controls: Vec<MenuControl<G>>,
}

impl<G> View for MenuManager<G> {
    type V = Map<Seq<char>, ControlView<G>>;

    closed spec fn view(&self) -> Map<Seq<char>, ControlView<G>> {
        registry_of(self.controls@)
    }
}

impl<G> Default for MenuManager<G> {
    fn default() -> (r: Self)
        ensures
            r@ == Map::<Seq<char>, ControlView<G>>::empty(),
    {
        Self::new()
    }
}

impl<G> MenuManager<G> {
    /// No two controls of a manager share an identifier.
    #[verifier::type_invariant]
    spec fn well_formed(self) -> bool {
        distinct_ids(self.controls@)
    }

    /// Every control of a manager is registered under its own identifier.
    pub proof fn lemma_keyed_by_id(&self)
        ensures
            keyed_by_id(self@),
    {
        assert forall|id: Seq<char>| self@.contains_key(id) implies (#[trigger] self@[id]).id()
            == id by {
            let at = choose|at: int| named_at(self.controls@, id, at);
            assert(named_at(self.controls@, id, at));
        }
    }

    /// Creates a manager without controls.
    pub fn new() -> (r: Self)
        ensures
            r@ == Map::<Seq<char>, ControlView<G>>::empty(),
    {
        let r = MenuManager { controls: Vec::new() };
        assert(r@ =~= Map::<Seq<char>, ControlView<G>>::empty());
        r
    }

    /// Inserts a control under its identifier. A control that was registered
    /// under the same identifier is replaced.
    pub fn insert(&mut self, menu_control: MenuControl<G>)
        ensures
            final(self)@ == old(self)@.insert(menu_control@.id(), menu_control@),
    {
        proof {
            use_type_invariant(&*self);
        }
        let found = self.position(menu_control.id());
        let mut controls = Vec::new();
        std::mem::swap(&mut controls, &mut self.controls);
        match found {
            Some(at) => {
                proof {
                    lemma_registry_replace(controls@, at as int, menu_control);
                }
                controls[at] = menu_control;
            },
            None => {
                proof {
                    lemma_registry_push(controls@, menu_control);
                }
                controls.push(menu_control);
            },
        }
        self.controls = controls;
    }

    /// Removes the control named `menu_id`. Where no control is registered
    /// under that identifier, nothing changes.
    pub fn remove(&mut self, menu_id: &MenuId)
        ensures
            final(self)@ == old(self)@.remove(menu_id@),
    {
        proof {
            use_type_invariant(&*self);
        }
        match self.position(menu_id) {
            Some(at) => {
                let mut controls = Vec::new();
                std::mem::swap(&mut controls, &mut self.controls);
                proof {
                    lemma_registry_remove(controls@, at as int);
                }
                controls.remove(at);
                self.controls = controls;
            },
            None => {
                assert(self@ =~= self@.remove(menu_id@));
            },
        }
    }

    /// Records the check mark that the control named `menu_id` shows, and
    /// says whether a checkable control is registered under that identifier.
    /// Where none is, nothing changes.
    pub fn set_checked(&mut self, menu_id: &MenuId, checked: bool) -> (r: bool)
        ensures
            r == (old(self)@.contains_key(menu_id@) && old(self)@[menu_id@].is_checkable()),
            final(self)@ == if old(self)@.contains_key(menu_id@) {
                old(self)@.insert(menu_id@, old(self)@[menu_id@].with_checked(checked))
            } else {
                old(self)@
            },
    {
        proof {
            use_type_invariant(&*self);
        }
        match self.position(menu_id) {
            Some(at) => {
                let mut controls = Vec::new();
                std::mem::swap(&mut controls, &mut self.controls);
                let ghost before = controls@;
                controls[at].set_checked(checked);
                proof {
                    assert(controls@ =~= before.update(at as int, controls@[at as int]));
                    lemma_registry_at(before, at as int);
                    lemma_registry_replace(before, at as int, controls@[at as int]);
                }
                let checkable = controls[at].as_check_menu().is_some();
                self.controls = controls;
                checkable
            },
            None => false,
        }
    }

    /// Handles a click on the control named `menu_id` and hands the
    /// authoritative control to `callback`, which must accept it.
    ///
    /// The check mark of the clicked control is taken as it stands: whoever
    /// reports the click has set it already. A click on a radio member that is
    /// now checked selects that member. A click on a radio member that is now
    /// unchecked selects the member that its fallback identifier names, if
    /// that identifier names a registered radio member. The selected member is
    /// checked, every other member of the clicked control's group is
    /// unchecked, and the selected member is reported. Every other click
    /// changes nothing and reports the clicked control; an identifier that is
    /// not registered reports nothing.
    ///
    /// The `==` of the group identifiers must agree with the equality of
    /// their values.
    pub fn update(&mut self, menu_id: &MenuId, callback: impl Fn(Option<&MenuControl<G>>)) where
        G: PartialEq,

        requires
            obeys_concrete_eq::<G>(),
            forall|control: Option<&MenuControl<G>>|
                shown(control) == reported(old(self)@, menu_id@) ==> callback.requires(
                    (control,),
                ),
        ensures
            final(self)@ == updated(old(self)@, menu_id@),
            exists|control: Option<&MenuControl<G>>|
                shown(control) == reported(old(self)@, menu_id@) && callback.ensures(
                    (control,),
                    (),
                ),
    {
        let control = match self.settle_click(menu_id) {
            Some(at) => Some(&self.controls[at]),
            None => None,
        };
        assert(shown(control) == reported(old(self)@, menu_id@));
        callback(control);
    }

    /// Settles the check marks for a click on the control named `menu_id`
    /// and gives the position of the control that the click reports.
    fn settle_click(&mut self, menu_id: &MenuId) -> (r: Option<usize>) where G: PartialEq
        requires
            obeys_concrete_eq::<G>(),
        ensures
            final(self)@ == updated(old(self)@, menu_id@),
            match r {
                Some(at) => at < final(self).controls.len() && Some(
                    final(self).controls[at as int]@,
                ) == reported(old(self)@, menu_id@),
                None => reported(old(self)@, menu_id@).is_none(),
            },
    {
        proof {
            use_type_invariant(&*self);
        }
        let Some(clicked) = self.position(menu_id) else {
            return None;
        };
        proof {
            lemma_registry_at(self.controls@, clicked as int);
        }
        let Some(member) = self.selected_position(clicked) else {
            return Some(clicked);
        };
        let mut controls = Vec::new();
        std::mem::swap(&mut controls, &mut self.controls);
        let ghost before = controls@;
        settle(&mut controls, clicked, member);
        proof {
            lemma_registry_settled(before, controls@, clicked as int, member as int);
            lemma_registry_at(before, member as int);
            lemma_registry_at(controls@, member as int);
        }
        self.controls = controls;
        Some(member)
    }

    /// Gets the checkable items registered under `group_id`, each of them once
    /// and in no particular order, or nothing if the group has no members.
    ///
    /// The `==` of the group identifiers must agree with the equality of
    /// their values.
    pub fn get_check_items_from_grouped(&self, group_id: &G) -> (r: Option<Vec<&CheckMenuItem>>)
        where G: PartialEq
        requires
            obeys_concrete_eq::<G>(),
        ensures
            match r {
                Some(items) => items.len() > 0 && lists(
                    items@.map_values(|item: &CheckMenuItem| item@),
                    group_members(self@, *group_id),
                ),
                None => group_members(self@, *group_id) == Map::<Seq<char>, CheckItemView>::empty(),
            },
    {
        proof {
            use_type_invariant(self);
        }
        let mut items: Vec<&CheckMenuItem> = Vec::new();
        let ghost mut origin: Seq<int> = Seq::empty();
        let mut at: usize = 0;
        while at < self.controls.len()
            invariant
                obeys_concrete_eq::<G>(),
                at <= self.controls.len(),
                origin.len() == items.len(),
                forall|k: int|
                    0 <= k < origin.len() ==> 0 <= (#[trigger] origin[k]) < at
                        && self.controls[origin[k]]@.group() == Some(*group_id)
                        && self.controls[origin[k]]@.check_item() == Some(items[k]@),
                forall|k: int, l: int|
                    #![trigger origin[k], origin[l]]
                    0 <= k < l < origin.len() ==> origin[k] < origin[l],
                forall|i: int|
                    0 <= i < at && (#[trigger] self.controls[i])@.group() == Some(*group_id)
                        ==> exists|k: int| 0 <= k < origin.len() && #[trigger] origin[k] == i,
            decreases self.controls.len() - at,
        {
            proof {
                reveal(obeys_concrete_eq);
            }
            let ghost grown = origin.push(at as int);
            if let MenuControl::CheckMenu(kind) = &self.controls[at] {
                if let Some(group) = kind.group() {
                    if *group == *group_id {
                        items.push(kind.item());
                        proof {
                            assert(grown[origin.len() as int] == at);
                            assert forall|i: int|
                                0 <= i < at + 1 && (#[trigger] self.controls[i])@.group() == Some(
                                    *group_id,
                                ) implies exists|k: int|
                                0 <= k < grown.len() && #[trigger] grown[k] == i by {
                                if i < at {
                                    let k = choose|k: int|
                                        0 <= k < origin.len() && #[trigger] origin[k] == i;
                                    assert(grown[k] == i);
                                }
                            }
                            origin = grown;
                        }
                    }
                }
            }
            at += 1;
        }
        proof {
            let views = items@.map_values(|item: &CheckMenuItem| item@);
            let members = group_members(self@, *group_id);
            assert forall|k: int| 0 <= k < views.len() implies members.contains_key(
                (#[trigger] views[k]).id,
            ) && members[views[k].id] == views[k] by {
                lemma_registry_at(self.controls@, origin[k]);
            }
            assert forall|id: Seq<char>| #[trigger] members.contains_key(id) implies exists|k: int|
                0 <= k < views.len() && (#[trigger] views[k]).id == id by {
                let i = choose|i: int| named_at(self.controls@, id, i);
                lemma_registry_at(self.controls@, i);
                let k = choose|k: int| 0 <= k < origin.len() && #[trigger] origin[k] == i;
                assert(views[k].id == id);
            }
            assert forall|k: int, l: int| 0 <= k < l < views.len() implies views[k].id
                != views[l].id by {
                assert(origin[k] < origin[l]);
                assert(self.controls[origin[k]]@.id() != self.controls[origin[l]]@.id());
            }
            if items.len() == 0 {
                assert(members =~= Map::<Seq<char>, CheckItemView>::empty());
            }
        }
        if items.len() == 0 {
            None
        } else {
            Some(items)
        }
    }

    /// The position of the member that a click on the control at `clicked`
    /// selects, if the click selects one.
    fn selected_position(&self, clicked: usize) -> (r: Option<usize>)
        requires
            clicked < self.controls.len(),
        ensures
            match r {
                Some(member) => member < self.controls.len() && selected(
                    self@,
                    self.controls[clicked as int]@.id(),
                ) == Some(self.controls[member as int]@.id()),
                None => selected(self@, self.controls[clicked as int]@.id()).is_none(),
            },
    {
        proof {
            use_type_invariant(self);
            lemma_registry_at(self.controls@, clicked as int);
        }
        match &self.controls[clicked] {
            MenuControl::CheckMenu(CheckMenuKind::Radio(item, fallback, _)) => {
                if item.is_checked() {
                    Some(clicked)
                } else {
                    match fallback {
                        Some(id) => match self.position(id) {
                            Some(member) => {
                                proof {
                                    lemma_registry_at(self.controls@, member as int);
                                }
                                match &self.controls[member] {
                                    MenuControl::CheckMenu(CheckMenuKind::Radio(_, _, _)) => Some(
                                        member,
                                    ),
                                    _ => None,
                                }
                            },
                            None => None,
                        },
                        None => None,
                    }
                }
            },
            _ => None,
        }
    }

    /// The position of the control named `menu_id`, if there is one.
    fn position(&self, menu_id: &MenuId) -> (r: Option<usize>)
        ensures
            match r {
                Some(at) => named_at(self.controls@, menu_id@, at as int),
                None => !self@.contains_key(menu_id@),
            },
    {
        let mut at: usize = 0;
        while at < self.controls.len()
            invariant
                at <= self.controls.len(),
                forall|i: int| 0 <= i < at ==> !named_at(self.controls@, menu_id@, i),
            decreases self.controls.len() - at,
        {
            if *self.controls[at].id() == *menu_id {
                return Some(at);
            }
            at += 1;
        }
        None
    }

    /// Gets the control named `menu_id`, or nothing if no control is
    /// registered under that identifier.
    pub fn get_menu_item_from_id(&self, menu_id: &MenuId) -> (r: Option<&MenuControl<G>>)
        ensures
            match r {
                Some(control) => self@.contains_key(menu_id@) && control@ == self@[menu_id@],
                None => !self@.contains_key(menu_id@),
            },
    {
        proof {
            use_type_invariant(self);
        }
        match self.position(menu_id) {
            Some(at) => {
                proof {
                    lemma_registry_at(self.controls@, at as int);
                }
                Some(&self.controls[at])
            },
            None => None,
        }
    }
}

/// Checks the member at `member` and unchecks every other member of the
/// group of the control at `clicked`; controls outside that group stay as
/// they are.
fn settle<G: PartialEq>(controls: &mut Vec<MenuControl<G>>, clicked: usize, member: usize)
    requires
        obeys_concrete_eq::<G>(),
        distinct_ids(old(controls)@),
        clicked < old(controls).len(),
        member < old(controls).len(),
        old(controls)[clicked as int]@.group().is_some(),
    ensures
        final(controls).len() == old(controls).len(),
        forall|i: int|
            0 <= i < old(controls).len() ==> (#[trigger] final(controls)[i])@ == settled(
                old(controls)[i]@,
                old(controls)[i]@.id(),
                old(controls)[member as int]@.id(),
                old(controls)[clicked as int]@.group().unwrap(),
            ),
{
    let ghost before = controls@;
    let mut at: usize = 0;
    while at < controls.len()
        invariant
            obeys_concrete_eq::<G>(),
            distinct_ids(before),
            controls.len() == before.len(),
            clicked < before.len(),
            member < before.len(),
            before[clicked as int]@.group().is_some(),
            at <= controls.len(),
            forall|i: int|
                0 <= i < at ==> (#[trigger] controls[i])@ == settled(
                    before[i]@,
                    before[i]@.id(),
                    before[member as int]@.id(),
                    before[clicked as int]@.group().unwrap(),
                ),
            forall|i: int| at <= i < before.len() ==> controls[i] == before[i],
            controls[clicked as int]@.group() == before[clicked as int]@.group(),
        decreases controls.len() - at,
    {
        proof {
            reveal(obeys_concrete_eq);
            if at < member {
                assert(before[at as int]@.id() != before[member as int]@.id());
            } else if member < at {
                assert(before[member as int]@.id() != before[at as int]@.id());
            }
        }
        if at == member {
            controls[at].set_checked(true);
        } else {
            let same_group = match (controls[at].group(), controls[clicked].group()) {
                (Some(group), Some(exclusive)) => *group == *exclusive,
                _ => false,
            };
            if same_group {
                controls[at].set_checked(false);
            }
        }
        at += 1;
    }
}

} // verus!
