//! Laws of the source switches.

use crate::ui::source::all_off;
use crate::ui::source::distinct_ids;
use crate::ui::source::enabled_ids;
use crate::ui::source::filter_text;
use crate::ui::source::fresh_switches;
use crate::ui::source::has_id;
use crate::ui::source::lookup;
use crate::ui::source::set_state;
use crate::ui::source::Switches;
use vstd::prelude::*;

verus! {

/// An id has a recorded state exactly when it is recorded.
pub proof fn lookup_finds_what_is_recorded(s: Switches, id: Seq<char>)
    ensures
        lookup(s, id) is Some <==> has_id(s, id),
    decreases s.len(),
{
    if s.len() > 0 {
        let earlier = s.drop_last();
        lookup_finds_what_is_recorded(earlier, id);
        if s.last().0 == id {
            assert(s[s.len() - 1].0 == id);
        } else if has_id(earlier, id) {
            let i: int = choose|i: int| 0 <= i < earlier.len() && (#[trigger] earlier[i]).0 == id;
            assert(s[i].0 == id);
        } else if has_id(s, id) {
            let i: int = choose|i: int| 0 <= i < s.len() && (#[trigger] s[i]).0 == id;
            assert(earlier[i].0 == id);
        }
    }
}

/// Rewriting the state of every entry of `id` leaves the other ids as
/// they were.
proof fn lookup_after_rewrite(s: Switches, id: Seq<char>, state: bool, other: Seq<char>)
    ensures
        ({
            let rewritten = Seq::new(
                s.len(),
                |i: int| if s[i].0 == id { (id, state) } else { s[i] },
            );
            lookup(rewritten, other) == if other == id {
                if has_id(s, id) {
                    Some(state)
                } else {
                    None
                }
            } else {
                lookup(s, other)
            }
        }),
    decreases s.len(),
{
    let rewritten = Seq::new(s.len(), |i: int| if s[i].0 == id { (id, state) } else { s[i] });
    if s.len() > 0 {
        let earlier = s.drop_last();
        lookup_after_rewrite(earlier, id, state, other);
        let earlier_rewritten = Seq::new(
            earlier.len(),
            |i: int| if earlier[i].0 == id { (id, state) } else { earlier[i] },
        );
        assert(rewritten.drop_last() =~= earlier_rewritten);
        if s.last().0 == id {
            assert(s[s.len() - 1].0 == id);
        } else if has_id(earlier, id) {
            let i: int = choose|i: int| 0 <= i < earlier.len() && (#[trigger] earlier[i]).0 == id;
            assert(s[i].0 == id);
        } else if has_id(s, id) {
            let i: int = choose|i: int| 0 <= i < s.len() && (#[trigger] s[i]).0 == id;
            assert(earlier[i].0 == id);
        }
    }
}

/// The switches behave as a mapping from ids to states: after recording a
/// state for an id, that id has the new state and every other id has the
/// state it had.
pub proof fn lookup_after_set_state(s: Switches, id: Seq<char>, state: bool, other: Seq<char>)
    ensures
        lookup(set_state(s, id, state), other) == if other == id {
            Some(state)
        } else {
            lookup(s, other)
        },
{
    if has_id(s, id) {
        lookup_after_rewrite(s, id, state, other);
        assert(set_state(s, id, state) =~= Seq::new(
            s.len(),
            |i: int| if s[i].0 == id { (id, state) } else { s[i] },
        ));
    } else {
        assert(s.push((id, state)).drop_last() =~= s);
    }
}

/// Recording a state never records an id twice.
pub proof fn set_state_keeps_ids_distinct(s: Switches, id: Seq<char>, state: bool)
    requires
        distinct_ids(s),
    ensures
        distinct_ids(set_state(s, id, state)),
{
    let after = set_state(s, id, state);
    if !has_id(s, id) {
        assert forall|i: int, j: int| 0 <= i < j < after.len() implies (#[trigger] after[i]).0 != (
        #[trigger] after[j]).0 by {
            if j == s.len() {
                assert(s[i].0 != id);
            } else {
                assert(s[i].0 != s[j].0);
            }
        }
    } else {
        assert forall|i: int, j: int| 0 <= i < j < after.len() implies (#[trigger] after[i]).0 != (
        #[trigger] after[j]).0 by {
            assert(s[i].0 != s[j].0);
        }
    }
}

/// After every id was switched off, each recorded id is off, none is
/// enabled, and the filter text is empty.
pub proof fn all_off_enables_nothing(s: Switches)
    ensures
        all_off(s).len() == s.len(),
        forall|id: Seq<char>| #[trigger]
            lookup(all_off(s), id) == if has_id(s, id) {
                Some(false)
            } else {
                None
            },
        enabled_ids(all_off(s)) == Seq::<Seq<char>>::empty(),
        filter_text(all_off(s)) == Seq::<char>::empty(),
    decreases s.len(),
{
    if s.len() > 0 {
        let earlier = s.drop_last();
        all_off_enables_nothing(earlier);
        assert(all_off(s).drop_last() =~= all_off(earlier));
        assert forall|id: Seq<char>| #[trigger]
            lookup(all_off(s), id) == if has_id(s, id) {
                Some(false)
            } else {
                None
            } by {
            assert(lookup(all_off(earlier), id) == if has_id(earlier, id) {
                Some(false)
            } else {
                None::<bool>
            });
            if s.last().0 == id {
                assert(s[s.len() - 1].0 == id);
            } else if has_id(earlier, id) {
                let i: int = choose|i: int| 0 <= i < earlier.len() && (#[trigger] earlier[i]).0 == id;
                assert(s[i].0 == id);
            } else if has_id(s, id) {
                let i: int = choose|i: int| 0 <= i < s.len() && (#[trigger] s[i]).0 == id;
                assert(earlier[i].0 == id);
            }
        }
    }
}

/// Recording an id as off adds nothing to the enabled ids if none was
/// enabled before.
proof fn set_off_enables_nothing(s: Switches, id: Seq<char>)
    requires
        enabled_ids(s) == Seq::<Seq<char>>::empty(),
    ensures
        enabled_ids(set_state(s, id, false)) == Seq::<Seq<char>>::empty(),
    decreases s.len(),
{
    let after = set_state(s, id, false);
    if !has_id(s, id) {
        assert(after.drop_last() =~= s);
    } else if s.len() > 0 {
        let earlier = s.drop_last();
        assert(enabled_ids(earlier) == Seq::<Seq<char>>::empty()) by {
            if s.last().1 {
                assert(enabled_ids(s).len() > 0);
            }
        }
        set_off_enables_nothing(earlier, id);
        if has_id(earlier, id) {
            assert(after.drop_last() =~= set_state(earlier, id, false));
        } else {
            assert(after.drop_last() =~= earlier);
        }
        if s.last().1 {
            assert(enabled_ids(s).len() > 0);
        }
    }
}

/// The switches of a fresh catalog hold exactly the ids of the catalog,
/// each of them once and switched off; what was enabled before plays no
/// part.
pub proof fn fresh_switches_are_off(ids: Seq<Seq<char>>)
    ensures
        distinct_ids(fresh_switches(ids)),
        forall|id: Seq<char>| #[trigger]
            lookup(fresh_switches(ids), id) == if ids.contains(id) {
                Some(false)
            } else {
                None
            },
        enabled_ids(fresh_switches(ids)) == Seq::<Seq<char>>::empty(),
        filter_text(fresh_switches(ids)) == Seq::<char>::empty(),
    decreases ids.len(),
{
    if ids.len() > 0 {
        let earlier = ids.drop_last();
        fresh_switches_are_off(earlier);
        set_state_keeps_ids_distinct(fresh_switches(earlier), ids.last(), false);
        set_off_enables_nothing(fresh_switches(earlier), ids.last());
        assert forall|id: Seq<char>| #[trigger]
            lookup(fresh_switches(ids), id) == if ids.contains(id) {
                Some(false)
            } else {
                None
            } by {
            lookup_after_set_state(fresh_switches(earlier), ids.last(), false, id);
            assert(lookup(fresh_switches(earlier), id) == if earlier.contains(id) {
                Some(false)
            } else {
                None::<bool>
            });
            if id == ids.last() {
                assert(ids[ids.len() - 1] == id);
            } else if earlier.contains(id) {
                let i: int = choose|i: int| 0 <= i < earlier.len() && earlier[i] == id;
                assert(ids[i] == id);
            } else if ids.contains(id) {
                let i: int = choose|i: int| 0 <= i < ids.len() && ids[i] == id;
                assert(earlier[i] == id);
            }
        }
    }
}

/// The switches as the mapping they stand for: from each recorded id to
/// its state.
pub open spec fn switch_map(s: Switches) -> Map<Seq<char>, bool> {
    Map::new(|id: Seq<char>| has_id(s, id), |id: Seq<char>| lookup(s, id) == Some(true))
}

/// Recording, switching everything off and starting from a fresh catalog
/// do to the mapping what their names say: recording a state inserts it,
/// switching off maps every recorded id to off, and a fresh catalog maps
/// exactly its ids, each to off.
pub proof fn switches_are_a_mapping(s: Switches, id: Seq<char>, state: bool, ids: Seq<Seq<char>>)
    ensures
        switch_map(Switches::empty()) == Map::<Seq<char>, bool>::empty(),
        switch_map(set_state(s, id, state)) == switch_map(s).insert(id, state),
        switch_map(all_off(s)) == Map::new(|k: Seq<char>| has_id(s, k), |k: Seq<char>| false),
        switch_map(fresh_switches(ids)) == Map::new(
            |k: Seq<char>| ids.contains(k),
            |k: Seq<char>| false,
        ),
{
    assert(switch_map(Switches::empty()) =~= Map::<Seq<char>, bool>::empty());
    assert(switch_map(set_state(s, id, state)) =~= switch_map(s).insert(id, state)) by {
        let after = switch_map(set_state(s, id, state));
        let wanted = switch_map(s).insert(id, state);
        assert forall|k: Seq<char>| #[trigger]
            after.dom().contains(k) == wanted.dom().contains(k) && (after.dom().contains(k)
                ==> after[k] == wanted[k]) by {
            lookup_after_set_state(s, id, state, k);
            lookup_finds_what_is_recorded(set_state(s, id, state), k);
            lookup_finds_what_is_recorded(s, k);
        }
    }
    assert(switch_map(all_off(s)) =~= Map::new(
        |k: Seq<char>| has_id(s, k),
        |k: Seq<char>| false,
    )) by {
        all_off_enables_nothing(s);
        assert forall|k: Seq<char>| has_id(all_off(s), k) == has_id(s, k) by {
            lookup_finds_what_is_recorded(all_off(s), k);
            assert(lookup(all_off(s), k) == if has_id(s, k) {
                Some(false)
            } else {
                None::<bool>
            });
        }
    }
    assert(switch_map(fresh_switches(ids)) =~= Map::new(
        |k: Seq<char>| ids.contains(k),
        |k: Seq<char>| false,
    )) by {
        fresh_switches_are_off(ids);
        assert forall|k: Seq<char>| has_id(fresh_switches(ids), k) == ids.contains(k) by {
            lookup_finds_what_is_recorded(fresh_switches(ids), k);
            assert(lookup(fresh_switches(ids), k) == if ids.contains(k) {
                Some(false)
            } else {
                None::<bool>
            });
        }
    }
}

/// Switching everything off never records an id twice.
pub proof fn all_off_keeps_ids_distinct(s: Switches)
    requires
        distinct_ids(s),
    ensures
        distinct_ids(all_off(s)),
{
    assert forall|i: int, j: int| 0 <= i < j < all_off(s).len() implies (#[trigger] all_off(
        s,
    )[i]).0 != (#[trigger] all_off(s)[j]).0 by {
        assert(s[i].0 != s[j].0);
    }
}

/// An id is among the enabled ones exactly when one of its entries is
/// switched on, and there are no more enabled ids than entries.
pub proof fn enabled_ids_are_the_entries_switched_on(s: Switches)
    ensures
        enabled_ids(s).len() <= s.len(),
        forall|id: Seq<char>| #[trigger]
            enabled_ids(s).contains(id) <==> s.contains((id, true)),
    decreases s.len(),
{
    if s.len() > 0 {
        let earlier = s.drop_last();
        enabled_ids_are_the_entries_switched_on(earlier);
        assert forall|id: Seq<char>| #[trigger]
            enabled_ids(s).contains(id) <==> s.contains((id, true)) by {
            let before = enabled_ids(earlier);
            let now = enabled_ids(s);
            assert(before.contains(id) <==> earlier.contains((id, true)));
            if earlier.contains((id, true)) {
                let i: int = choose|i: int| 0 <= i < earlier.len() && earlier[i] == (id, true);
                assert(s[i] == (id, true));
            }
            if before.contains(id) {
                let k: int = choose|k: int| 0 <= k < before.len() && before[k] == id;
                assert(now[k] == id);
            }
            if s.last() == (id, true) {
                assert(s[s.len() - 1] == (id, true));
                assert(now[now.len() - 1] == id);
            }
            if s.contains((id, true)) && s.last() != (id, true) {
                let i: int = choose|i: int| 0 <= i < s.len() && s[i] == (id, true);
                assert(earlier[i] == (id, true));
            }
            if now.contains(id) && !before.contains(id) {
                let k: int = choose|k: int| 0 <= k < now.len() && now[k] == id;
                if k < before.len() {
                    assert(before[k] == id);
                }
            }
        }
    }
}

/// Where no id is recorded twice, no id is enabled twice: the filter text
/// names each enabled source once.
pub proof fn distinct_ids_enable_each_id_once(s: Switches)
    requires
        distinct_ids(s),
    ensures
        enabled_ids(s).no_duplicates(),
    decreases s.len(),
{
    if s.len() > 0 {
        let earlier = s.drop_last();
        assert(distinct_ids(earlier)) by {
            assert forall|i: int, j: int| 0 <= i < j < earlier.len() implies (
            #[trigger] earlier[i]).0 != (#[trigger] earlier[j]).0 by {
                assert(s[i].0 != s[j].0);
            }
        }
        distinct_ids_enable_each_id_once(earlier);
        if s.last().1 {
            let before = enabled_ids(earlier);
            let now = enabled_ids(s);
            enabled_ids_are_the_entries_switched_on(earlier);
            assert(!before.contains(s.last().0)) by {
                if earlier.contains((s.last().0, true)) {
                    let i: int = choose|i: int|
                        0 <= i < earlier.len() && earlier[i] == (s.last().0, true);
                    assert(s[i].0 == s[s.len() - 1].0);
                }
            }
            assert forall|i: int, j: int|
                0 <= i < now.len() && 0 <= j < now.len() && i != j implies now[i] != now[j] by {
                if i < before.len() && j < before.len() {
                    assert(before[i] != before[j]);
                } else if i < before.len() {
                    assert(before[i] == now[i]);
                } else {
                    assert(before[j] == now[j]);
                }
            }
        }
    }
}

} // verus!
