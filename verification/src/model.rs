//! The registry as a mathematical map from identifier texts to controls, and
//! the click protocol as functions on that map.

use vstd::prelude::*;

use crate::control::ControlView;
use crate::item::CheckItemView;

verus! {

/// Whether every control of `registry` is stored under its own identifier.
pub open spec fn keyed_by_id<G>(registry: Map<Seq<char>, ControlView<G>>) -> bool {
    forall|id: Seq<char>| registry.contains_key(id) ==> (#[trigger] registry[id]).id() == id
}

/// Whether `id` names a checkbox or radio member of `group`.
pub open spec fn is_member<G>(
    registry: Map<Seq<char>, ControlView<G>>,
    group: G,
    id: Seq<char>,
) -> bool {
    registry.contains_key(id) && registry[id].group() == Some(group)
}

/// The checkable items registered under `group`, by identifier.
pub open spec fn group_members<G>(registry: Map<Seq<char>, ControlView<G>>, group: G) -> Map<
    Seq<char>,
    CheckItemView,
> {
    Map::new(
        |id: Seq<char>| is_member(registry, group, id),
        |id: Seq<char>| registry[id].check_item().unwrap(),
    )
}

/// The identifiers of the members of `group` that are checked.
pub open spec fn checked_members<G>(registry: Map<Seq<char>, ControlView<G>>, group: G) -> Set<
    Seq<char>,
> {
    Set::new(|id: Seq<char>| is_member(registry, group, id) && registry[id].is_checked())
}

/// Whether `items` lists the entries of `members`, each of them exactly once.
pub open spec fn lists(items: Seq<CheckItemView>, members: Map<Seq<char>, CheckItemView>) -> bool {
    &&& forall|i: int|
        0 <= i < items.len() ==> members.contains_key((#[trigger] items[i]).id)
            && members[items[i].id] == items[i]
    &&& forall|id: Seq<char>| #[trigger]
        members.contains_key(id) ==> exists|i: int|
            0 <= i < items.len() && (#[trigger] items[i]).id == id
    &&& forall|i: int, j: int|
        #![trigger items[i], items[j]]
        0 <= i < j < items.len() ==> items[i].id != items[j].id
}

/// The member that a click on `clicked` selects, if the click selects one.
///
/// A click selects a member when the clicked control is a radio member that
/// is now checked (the clicked member itself), or one that is now unchecked
/// and whose fallback identifier names a registered radio member (that
/// member, of whichever group it is). Every other click selects nothing.
pub open spec fn selected<G>(
    registry: Map<Seq<char>, ControlView<G>>,
    clicked: Seq<char>,
) -> Option<Seq<char>> {
    if registry.contains_key(clicked) && registry[clicked].is_radio() {
        if registry[clicked].is_checked() {
            Some(clicked)
        } else {
            match registry[clicked].fallback() {
                Some(fallback) => if registry.contains_key(fallback)
                    && registry[fallback].is_radio() {
                    Some(fallback)
                } else {
                    None
                },
                None => None,
            }
        }
    } else {
        None
    }
}

/// The identifier of the control that a click on `clicked` reports: the
/// selected member where the click selects one, else the clicked control
/// itself, and nothing for an identifier that is not registered.
pub open spec fn authoritative<G>(
    registry: Map<Seq<char>, ControlView<G>>,
    clicked: Seq<char>,
) -> Option<Seq<char>> {
    if registry.contains_key(clicked) {
        match selected(registry, clicked) {
            Some(member) => Some(member),
            None => Some(clicked),
        }
    } else {
        None
    }
}

/// What becomes of the control registered under `id` when `member` is
/// selected for a click in `group`: the selected member is checked, every
/// other member of the group is unchecked, and a control outside the group is
/// left as it is.
pub open spec fn settled<G>(
    control: ControlView<G>,
    id: Seq<char>,
    member: Seq<char>,
    group: G,
) -> ControlView<G> {
    if id == member {
        control.with_checked(true)
    } else if control.group() == Some(group) {
        control.with_checked(false)
    } else {
        control
    }
}

/// The registry after a click on `clicked`.
///
/// Where the click selects a member, that member is checked and every other
/// member of the clicked control's group is unchecked. Where it selects
/// nothing, the registry is left as it is.
pub open spec fn updated<G>(
    registry: Map<Seq<char>, ControlView<G>>,
    clicked: Seq<char>,
) -> Map<Seq<char>, ControlView<G>> {
    match selected(registry, clicked) {
        Some(member) => Map::new(
            |id: Seq<char>| registry.contains_key(id),
            |id: Seq<char>|
                settled(registry[id], id, member, registry[clicked].group().unwrap()),
        ),
        None => registry,
    }
}

/// The control that a click on `clicked` reports, as it stands after the
/// click was handled.
pub open spec fn reported<G>(
    registry: Map<Seq<char>, ControlView<G>>,
    clicked: Seq<char>,
) -> Option<ControlView<G>> {
    match authoritative(registry, clicked) {
        Some(id) => Some(updated(registry, clicked)[id]),
        None => None,
    }
}

} // verus!
