//! What holds of the registry and of the click protocol, whatever the
//! controls and whatever the order of calls.

use vstd::prelude::*;

use crate::control::ControlView;
use crate::model::{authoritative, checked_members, group_members, reported, selected, updated};

verus! {

/// A second insertion under an identifier replaces the first: the registry
/// is as if the first had never been made, and a lookup finds the second
/// control only.
pub proof fn law_last_insert_wins<G>(
    registry: Map<Seq<char>, ControlView<G>>,
    first: ControlView<G>,
    second: ControlView<G>,
)
    requires
        first.id() == second.id(),
    ensures
        registry.insert(first.id(), first).insert(second.id(), second) == registry.insert(
            second.id(),
            second,
        ),
        registry.insert(first.id(), first).insert(second.id(), second)[second.id()] == second,
{
    assert(registry.insert(first.id(), first).insert(second.id(), second) =~= registry.insert(
        second.id(),
        second,
    ));
}

/// After a click that selects a member of the clicked control's own group,
/// that member is the one checked member of the group, and it is what the
/// click reports.
pub proof fn law_selected_member_alone_is_checked<G>(
    registry: Map<Seq<char>, ControlView<G>>,
    clicked: Seq<char>,
    member: Seq<char>,
    group: G,
)
    requires
        selected(registry, clicked) == Some(member),
        registry[clicked].group() == Some(group),
        registry[member].group() == Some(group),
    ensures
        checked_members(updated(registry, clicked), group) == set![member],
        reported(registry, clicked) == Some(updated(registry, clicked)[member]),
{
    assert(checked_members(updated(registry, clicked), group) =~= set![member]);
}

/// A radio group with at most one checked member stays so across a click on
/// one of its members, provided that a fallback which takes over belongs to
/// the group. Where the click selects nothing, this rests on the state that
/// the click left behind: it took the mark from the clicked member, so no
/// member of the group is checked.
pub proof fn law_radio_group_stays_exclusive<G>(
    registry: Map<Seq<char>, ControlView<G>>,
    clicked: Seq<char>,
    group: G,
    one: Seq<char>,
    other: Seq<char>,
)
    requires
        registry.contains_key(clicked),
        registry[clicked].is_radio(),
        registry[clicked].group() == Some(group),
        selected(registry, clicked) matches Some(member) ==> registry[member].group() == Some(
            group,
        ),
        selected(registry, clicked).is_none() ==> checked_members(registry, group)
            == Set::<Seq<char>>::empty(),
        checked_members(updated(registry, clicked), group).contains(one),
        checked_members(updated(registry, clicked), group).contains(other),
    ensures
        one == other,
{
    match selected(registry, clicked) {
        Some(member) => {
            law_selected_member_alone_is_checked(registry, clicked, member, group);
        },
        None => {},
    }
}

/// A click that selects no member changes nothing and reports the clicked
/// control as it is. This is so for a radio member that is now unchecked and
/// has no fallback, or one whose fallback names no registered radio member.
pub proof fn law_click_without_selection_changes_nothing<G>(
    registry: Map<Seq<char>, ControlView<G>>,
    clicked: Seq<char>,
)
    requires
        registry.contains_key(clicked),
        selected(registry, clicked).is_none(),
    ensures
        updated(registry, clicked) == registry,
        reported(registry, clicked) == Some(registry[clicked]),
{
}

/// A click on a control that is no radio member (a plain item, an icon item,
/// a standalone checkbox, a member of a checkbox group) changes no control,
/// so no sibling of a checkbox is ever touched, and reports the clicked
/// control as it is.
pub proof fn law_only_radio_clicks_change_marks<G>(
    registry: Map<Seq<char>, ControlView<G>>,
    clicked: Seq<char>,
)
    requires
        registry.contains_key(clicked),
        !registry[clicked].is_radio(),
    ensures
        updated(registry, clicked) == registry,
        reported(registry, clicked) == Some(registry[clicked]),
{
}

/// A click on an identifier that is not registered changes nothing and
/// reports nothing.
pub proof fn law_unknown_click_reports_nothing<G>(
    registry: Map<Seq<char>, ControlView<G>>,
    clicked: Seq<char>,
)
    requires
        !registry.contains_key(clicked),
    ensures
        updated(registry, clicked) == registry,
        reported(registry, clicked).is_none(),
{
}

/// A removed identifier is gone from the registry and from every group.
pub proof fn law_removal_cleans_groups<G>(
    registry: Map<Seq<char>, ControlView<G>>,
    id: Seq<char>,
    group: G,
)
    ensures
        !registry.remove(id).contains_key(id),
        !group_members(registry.remove(id), group).contains_key(id),
        forall|other: Seq<char>|
            other != id ==> (group_members(registry.remove(id), group).contains_key(other)
                <==> group_members(registry, group).contains_key(other)),
{
}

/// Handling the same click a second time, with no check mark changed in
/// between, changes nothing more and reports the same control.
pub proof fn law_update_is_idempotent<G>(
    registry: Map<Seq<char>, ControlView<G>>,
    clicked: Seq<char>,
)
    ensures
        updated(updated(registry, clicked), clicked) == updated(registry, clicked),
        reported(updated(registry, clicked), clicked) == reported(registry, clicked),
        authoritative(updated(registry, clicked), clicked) == authoritative(registry, clicked),
{
    let once = updated(registry, clicked);
    let twice = updated(once, clicked);
    match selected(registry, clicked) {
        Some(member) => {
            assert(once.contains_key(clicked));
            assert(once.contains_key(member));
            assert(selected(once, clicked) == Some(member));
            assert(twice =~= once);
        },
        None => {},
    }
}

} // verus!
