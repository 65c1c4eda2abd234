//! Lists of controls as maps: what a list without repeated identifiers
//! stands for, and how the changes made to such a list change the map.

use vstd::prelude::*;

use crate::control::{ControlView, MenuControl};
use crate::model::{selected, settled, updated};

verus! {

/// Whether the control at position `at` of `controls` is named `id`.
pub(crate) open spec fn named_at<G>(
    controls: Seq<MenuControl<G>>,
    id: Seq<char>,
    at: int,
) -> bool {
    0 <= at < controls.len() && controls[at]@.id() == id
}

/// Whether no two controls of `controls` share an identifier.
pub(crate) open spec fn distinct_ids<G>(controls: Seq<MenuControl<G>>) -> bool {
    forall|i: int, j: int|
        #![trigger controls[i], controls[j]]
        0 <= i < j < controls.len() ==> controls[i]@.id() != controls[j]@.id()
}

/// The map that a list of controls stands for: each identifier that occurs
/// in the list, with the control that carries it.
pub(crate) open spec fn registry_of<G>(controls: Seq<MenuControl<G>>) -> Map<
    Seq<char>,
    ControlView<G>,
> {
    Map::new(
        |id: Seq<char>| exists|at: int| named_at(controls, id, at),
        |id: Seq<char>| controls[choose|at: int| named_at(controls, id, at)]@,
    )
}

/// In a list without repeated identifiers, the control at `at` is the one
/// that the map holds under its identifier.
pub(crate) proof fn lemma_registry_at<G>(controls: Seq<MenuControl<G>>, at: int)
    requires
        distinct_ids(controls),
        0 <= at < controls.len(),
    ensures
        registry_of(controls).contains_key(controls[at]@.id()),
        registry_of(controls)[controls[at]@.id()] == controls[at]@,
{
    let id = controls[at]@.id();
    assert(named_at(controls, id, at));
    let found = choose|i: int| named_at(controls, id, i);
    assert(named_at(controls, id, found));
    if found < at {
        assert(controls[found]@.id() != controls[at]@.id());
    } else if at < found {
        assert(controls[at]@.id() != controls[found]@.id());
    }
}

/// Replacing a control by one of the same identifier replaces it in the map.
pub(crate) proof fn lemma_registry_replace<G>(
    controls: Seq<MenuControl<G>>,
    at: int,
    control: MenuControl<G>,
)
    requires
        distinct_ids(controls),
        named_at(controls, control@.id(), at),
    ensures
        distinct_ids(controls.update(at, control)),
        registry_of(controls.update(at, control)) == registry_of(controls).insert(
            control@.id(),
            control@,
        ),
{
    let replaced = controls.update(at, control);
    assert forall|i: int, j: int| 0 <= i < j < replaced.len() implies replaced[i]@.id()
        != replaced[j]@.id() by {
        assert(controls[i]@.id() != controls[j]@.id());
    }
    assert forall|id: Seq<char>|
        registry_of(replaced).contains_key(id) <==> registry_of(controls).insert(
            control@.id(),
            control@,
        ).contains_key(id) by {
        if registry_of(replaced).contains_key(id) {
            let i = choose|i: int| named_at(replaced, id, i);
            assert(named_at(controls, id, i));
        }
        if registry_of(controls).contains_key(id) {
            let i = choose|i: int| named_at(controls, id, i);
            assert(named_at(replaced, id, i));
        }
        if id == control@.id() {
            assert(named_at(replaced, id, at));
        }
    }
    assert forall|id: Seq<char>| registry_of(replaced).contains_key(id) implies registry_of(
        replaced,
    )[id] == registry_of(controls).insert(control@.id(), control@)[id] by {
        let i = choose|i: int| named_at(replaced, id, i);
        lemma_registry_at(replaced, i);
        if i != at {
            lemma_registry_at(controls, i);
        }
    }
    assert(registry_of(replaced) =~= registry_of(controls).insert(control@.id(), control@));
}

/// Appending a control whose identifier is new adds it to the map.
pub(crate) proof fn lemma_registry_push<G>(
    controls: Seq<MenuControl<G>>,
    control: MenuControl<G>,
)
    requires
        distinct_ids(controls),
        !registry_of(controls).contains_key(control@.id()),
    ensures
        distinct_ids(controls.push(control)),
        registry_of(controls.push(control)) == registry_of(controls).insert(
            control@.id(),
            control@,
        ),
{
    let grown = controls.push(control);
    let last = controls.len() as int;
    assert forall|i: int, j: int| 0 <= i < j < grown.len() implies grown[i]@.id()
        != grown[j]@.id() by {
        if j < last {
            assert(controls[i]@.id() != controls[j]@.id());
        } else {
            assert(!named_at(controls, control@.id(), i));
        }
    }
    assert forall|id: Seq<char>|
        registry_of(grown).contains_key(id) <==> registry_of(controls).insert(
            control@.id(),
            control@,
        ).contains_key(id) by {
        if registry_of(grown).contains_key(id) {
            let i = choose|i: int| named_at(grown, id, i);
            if i < last {
                assert(named_at(controls, id, i));
            }
        }
        if registry_of(controls).contains_key(id) {
            let i = choose|i: int| named_at(controls, id, i);
            assert(named_at(grown, id, i));
        }
        if id == control@.id() {
            assert(named_at(grown, id, last));
        }
    }
    assert forall|id: Seq<char>| registry_of(grown).contains_key(id) implies registry_of(
        grown,
    )[id] == registry_of(controls).insert(control@.id(), control@)[id] by {
        let i = choose|i: int| named_at(grown, id, i);
        lemma_registry_at(grown, i);
        if i < last {
            lemma_registry_at(controls, i);
        }
    }
    assert(registry_of(grown) =~= registry_of(controls).insert(control@.id(), control@));
}

/// Taking the control at `at` out of the list removes its identifier from
/// the map.
pub(crate) proof fn lemma_registry_remove<G>(controls: Seq<MenuControl<G>>, at: int)
    requires
        distinct_ids(controls),
        0 <= at < controls.len(),
    ensures
        distinct_ids(controls.remove(at)),
        registry_of(controls.remove(at)) == registry_of(controls).remove(controls[at]@.id()),
{
    let rest = controls.remove(at);
    let gone = controls[at]@.id();
    assert forall|i: int, j: int| 0 <= i < j < rest.len() implies rest[i]@.id()
        != rest[j]@.id() by {
        let before_i = if i < at { i } else { i + 1 };
        let before_j = if j < at { j } else { j + 1 };
        assert(controls[before_i]@.id() != controls[before_j]@.id());
    }
    assert forall|id: Seq<char>|
        registry_of(rest).contains_key(id) <==> registry_of(controls).remove(gone).contains_key(
            id,
        ) by {
        if registry_of(rest).contains_key(id) {
            let i = choose|i: int| named_at(rest, id, i);
            let before = if i < at { i } else { i + 1 };
            assert(named_at(controls, id, before));
            if before < at {
                assert(controls[before]@.id() != controls[at]@.id());
            } else {
                assert(controls[at]@.id() != controls[before]@.id());
            }
        }
        if registry_of(controls).contains_key(id) && id != gone {
            let i = choose|i: int| named_at(controls, id, i);
            let after = if i < at { i } else { i - 1 };
            assert(named_at(rest, id, after));
        }
    }
    assert forall|id: Seq<char>| registry_of(rest).contains_key(id) implies registry_of(rest)[id]
        == registry_of(controls).remove(gone)[id] by {
        let i = choose|i: int| named_at(rest, id, i);
        let before = if i < at { i } else { i + 1 };
        lemma_registry_at(rest, i);
        lemma_registry_at(controls, before);
    }
    assert(registry_of(rest) =~= registry_of(controls).remove(gone));
}

/// Selecting the member at `member` for a click on the control at `clicked`
/// turns the map of `before` into the updated map, given that `after` holds
/// the settled controls.
pub(crate) proof fn lemma_registry_settled<G>(
    before: Seq<MenuControl<G>>,
    after: Seq<MenuControl<G>>,
    clicked: int,
    member: int,
)
    requires
        distinct_ids(before),
        0 <= clicked < before.len(),
        0 <= member < before.len(),
        selected(registry_of(before), before[clicked]@.id()) == Some(before[member]@.id()),
        after.len() == before.len(),
        forall|i: int|
            0 <= i < before.len() ==> (#[trigger] after[i])@ == settled(
                before[i]@,
                before[i]@.id(),
                before[member]@.id(),
                before[clicked]@.group().unwrap(),
            ),
    ensures
        distinct_ids(after),
        registry_of(after) == updated(registry_of(before), before[clicked]@.id()),
{
    let goal = updated(registry_of(before), before[clicked]@.id());
    lemma_registry_at(before, clicked);
    assert forall|i: int| 0 <= i < before.len() implies (#[trigger] after[i])@.id()
        == before[i]@.id() by {}
    assert forall|i: int, j: int| 0 <= i < j < after.len() implies after[i]@.id()
        != after[j]@.id() by {
        assert(before[i]@.id() != before[j]@.id());
    }
    assert forall|id: Seq<char>| registry_of(after).contains_key(id) <==> goal.contains_key(
        id,
    ) by {
        if registry_of(after).contains_key(id) {
            let i = choose|i: int| named_at(after, id, i);
            assert(named_at(before, id, i));
        }
        if registry_of(before).contains_key(id) {
            let i = choose|i: int| named_at(before, id, i);
            assert(named_at(after, id, i));
        }
    }
    assert forall|id: Seq<char>| registry_of(after).contains_key(id) implies registry_of(
        after,
    )[id] == goal[id] by {
        let i = choose|i: int| named_at(after, id, i);
        lemma_registry_at(after, i);
        lemma_registry_at(before, i);
    }
    assert(registry_of(after) =~= goal);
}

} // verus!
