//! The mathematical model of the levels a thread holds.
//!
//! A thread's held levels are a sequence, in the order in which they were
//! acquired. With checking on, a level may be added only below the level
//! acquired last, and a held level may be given back at any time, whatever its
//! place in the sequence. With checking off nothing is recorded.
use vstd::prelude::*;

use crate::level::HierarchyViolation;

verus! {

/// Read from the first acquired to the last acquired, the held levels fall
/// strictly. The last one is then the lowest, and no level is held twice.
pub open spec fn strictly_descending(held: Seq<u32>) -> bool {
    forall|i: int, j: int| 0 <= i < j < held.len() ==> held[i] > held[j]
}

/// The ordering check: with checking switched off every level is admitted;
/// with it on, a level is admitted when nothing is held or when it lies
/// strictly below the level acquired last.
pub open spec fn admits(checked: bool, held: Seq<u32>, level: u32) -> bool {
    !checked || held.len() == 0 || level < held.last()
}

/// The held levels after `level` was acquired: with checking on it is
/// recorded last; with checking off nothing is recorded.
pub open spec fn after_acquire(checked: bool, held: Seq<u32>, level: u32) -> Seq<u32> {
    if checked {
        held.push(level)
    } else {
        held
    }
}

/// What a refused acquisition reports: the level asked for and the lowest
/// level held, the one it conflicts with.
pub open spec fn violation(held: Seq<u32>, level: u32) -> HierarchyViolation {
    HierarchyViolation { requested: level, held: held.last() }
}

/// The last place of `level` among the held levels.
pub open spec fn position_of(held: Seq<u32>, level: u32) -> int {
    choose|i: int|
        0 <= i < held.len() && held[i] == level && forall|j: int|
            i < j < held.len() ==> held[j] != level
}

/// A level can be given back when checking is off, or when it is held.
pub open spec fn may_release(checked: bool, held: Seq<u32>, level: u32) -> bool {
    !checked || held.contains(level)
}

/// The held levels after `level` was given back: with checking on its last
/// entry is taken out and the others keep their order; with checking off
/// nothing changes.
pub open spec fn after_release(checked: bool, held: Seq<u32>, level: u32) -> Seq<u32> {
    if checked {
        held.remove(position_of(held, level))
    } else {
        held
    }
}

/// The entry of `level` that no later entry repeats is its last place.
pub proof fn lemma_position_of(held: Seq<u32>, level: u32, i: int)
    requires
        0 <= i < held.len(),
        held[i] == level,
        forall|j: int| i < j < held.len() ==> held[j] != level,
    ensures
        position_of(held, level) == i,
{
    let p = position_of(held, level);
    assert(0 <= p < held.len() && held[p] == level);
    if p < i {
        assert(held[i] != level);
    } else if i < p {
        assert(held[p] != level);
    }
}

/// A level admitted by the check keeps the held levels strictly descending,
/// and is not held yet.
pub proof fn lemma_acquire_keeps_order(held: Seq<u32>, level: u32)
    requires
        strictly_descending(held),
        admits(true, held, level),
    ensures
        strictly_descending(after_acquire(true, held, level)),
        !held.contains(level),
{
    let s = held.push(level);
    assert forall|i: int, j: int| 0 <= i < j < s.len() implies s[i] > s[j] by {
        if j == held.len() {
            if i < held.len() - 1 {
                assert(held[i] > held[held.len() - 1]);
            }
        } else {
            assert(held[i] > held[j]);
        }
    }
    if held.contains(level) {
        let k = choose|k: int| 0 <= k < held.len() && held[k] == level;
        if k < held.len() - 1 {
            assert(held[k] > held[held.len() - 1]);
        }
    }
}

/// Giving back a held level keeps the held levels strictly descending, and
/// takes out exactly that level.
pub proof fn lemma_release_keeps_order(held: Seq<u32>, level: u32)
    requires
        strictly_descending(held),
        may_release(true, held, level),
    ensures
        strictly_descending(after_release(true, held, level)),
        after_release(true, held, level).len() == held.len() - 1,
        !after_release(true, held, level).contains(level),
        forall|l: u32|
            l != level ==> (after_release(true, held, level).contains(l) <==> held.contains(l)),
{
    let i = choose|i: int| 0 <= i < held.len() && held[i] == level;
    assert forall|j: int| i < j < held.len() implies held[j] != level by {
        assert(held[i] > held[j]);
    }
    lemma_position_of(held, level, i);
    let s = held.remove(i);
    assert(s.len() == held.len() - 1);
    assert forall|a: int| 0 <= a < s.len() implies s[a] == (if a < i {
        held[a]
    } else {
        held[a + 1]
    }) by {}
    assert forall|a: int, b: int| 0 <= a < b < s.len() implies s[a] > s[b] by {
        let a2 = if a < i { a } else { a + 1 };
        let b2 = if b < i { b } else { b + 1 };
        assert(held[a2] > held[b2]);
    }
    assert forall|l: u32| s.contains(l) implies held.contains(l) && l != level by {
        let a = choose|a: int| 0 <= a < s.len() && s[a] == l;
        let a2 = if a < i { a } else { a + 1 };
        assert(held[a2] == l);
        if a2 < i {
            assert(held[a2] > held[i]);
        } else {
            assert(held[i] > held[a2]);
        }
    }
    assert forall|l: u32| held.contains(l) && l != level implies s.contains(l) by {
        let a = choose|a: int| 0 <= a < held.len() && held[a] == l;
        if a < i {
            assert(s[a] == l);
        } else {
            assert(a != i);
            assert(s[a - 1] == l);
        }
    }
}

/// One step in the life of a thread with locks: a level acquired, or a level
/// given back.
pub enum LevelEvent {
    Acquire(u32),
    Release(u32),
}

/// The held levels after a thread went through `events`, or `None` when an
/// acquisition among them is refused or a level is given back that is not held.
pub open spec fn replay(checked: bool, held: Seq<u32>, events: Seq<LevelEvent>) -> Option<Seq<u32>>
    decreases events.len(),
{
    if events.len() == 0 {
        Some(held)
    } else {
        let rest = events.drop_first();
        match events[0] {
            LevelEvent::Acquire(level) => if admits(checked, held, level) {
                replay(checked, after_acquire(checked, held, level), rest)
            } else {
                None
            },
            LevelEvent::Release(level) => if may_release(checked, held, level) {
                replay(checked, after_release(checked, held, level), rest)
            } else {
                None
            },
        }
    }
}

/// Each level in `events` is acquired strictly below every level held at that
/// moment, and each level given back is held at that moment; levels may be
/// given back in any order.
pub open spec fn acquires_downward(held: Seq<u32>, events: Seq<LevelEvent>) -> bool
    decreases events.len(),
{
    if events.len() == 0 {
        true
    } else {
        let rest = events.drop_first();
        match events[0] {
            LevelEvent::Acquire(level) => {
                &&& forall|i: int| 0 <= i < held.len() ==> level < held[i]
                &&& acquires_downward(after_acquire(true, held, level), rest)
            },
            LevelEvent::Release(level) => {
                &&& held.contains(level)
                &&& acquires_downward(after_release(true, held, level), rest)
            },
        }
    }
}

/// When every level is acquired strictly below all levels held at the time,
/// every acquisition succeeds, whatever the order in which levels are given
/// back.
pub proof fn lemma_downward_acquisitions_succeed(held: Seq<u32>, events: Seq<LevelEvent>)
    requires
        strictly_descending(held),
        acquires_downward(held, events),
    ensures
        replay(true, held, events) is Some,
    decreases events.len(),
{
    if events.len() > 0 {
        let rest = events.drop_first();
        match events[0] {
            LevelEvent::Acquire(level) => {
                if held.len() > 0 {
                    assert(level < held[held.len() - 1]);
                }
                lemma_acquire_keeps_order(held, level);
                lemma_downward_acquisitions_succeed(after_acquire(true, held, level), rest);
            },
            LevelEvent::Release(level) => {
                lemma_release_keeps_order(held, level);
                lemma_downward_acquisitions_succeed(after_release(true, held, level), rest);
            },
        }
    }
}

/// While a level is held, acquiring a level that is not strictly below it
/// (the same level, or the level of another lock that shares it, included) is
/// refused, and the violation names both levels.
pub proof fn lemma_second_not_below_is_refused(held: Seq<u32>, first: u32, second: u32)
    requires
        admits(true, held, first),
        second >= first,
    ensures
        !admits(true, after_acquire(true, held, first), second),
        violation(after_acquire(true, held, first), second) == (HierarchyViolation {
            requested: second,
            held: first,
        }),
{
}

/// The events that give back the levels of `order`, one after the other.
pub open spec fn releases(order: Seq<u32>) -> Seq<LevelEvent> {
    order.map_values(|level: u32| LevelEvent::Release(level))
}

/// Giving back held levels in any order, each once, is always allowed; the
/// levels left are those not given back, still strictly descending.
pub proof fn lemma_release_in_any_order(held: Seq<u32>, order: Seq<u32>)
    requires
        strictly_descending(held),
        order.no_duplicates(),
        forall|i: int| 0 <= i < order.len() ==> held.contains(order[i]),
    ensures
        replay(true, held, releases(order)) is Some,
        strictly_descending(replay(true, held, releases(order))->Some_0),
        forall|level: u32|
            #[trigger] replay(true, held, releases(order))->Some_0.contains(level)
                <==> held.contains(level) && !order.contains(level),
    decreases order.len(),
{
    let events = releases(order);
    if order.len() > 0 {
        let level = order[0];
        let rest = order.drop_first();
        let next = after_release(true, held, level);
        lemma_release_keeps_order(held, level);
        assert(events.drop_first() =~= releases(rest));
        assert forall|i: int| 0 <= i < rest.len() implies next.contains(rest[i]) by {
            assert(rest[i] == order[i + 1]);
            assert(order[i + 1] != order[0]);
        }
        assert(rest.no_duplicates()) by {
            assert forall|i: int, j: int| 0 <= i < j < rest.len() implies rest[i] != rest[j] by {
                assert(rest[i] == order[i + 1] && rest[j] == order[j + 1]);
            }
        }
        lemma_release_in_any_order(next, rest);
        assert forall|l: u32| order.contains(l) <==> l == level || rest.contains(l) by {
            if order.contains(l) && l != level {
                let k = choose|k: int| 0 <= k < order.len() && order[k] == l;
                assert(rest[k - 1] == l);
            }
            if rest.contains(l) {
                let k = choose|k: int| 0 <= k < rest.len() && rest[k] == l;
                assert(order[k + 1] == l);
            }
        }
    } else {
        assert(events.len() == 0);
    }
}

/// With checking off no acquisition is ever refused, no release is refused,
/// and nothing is recorded: the held levels stay as they were.
pub proof fn lemma_unchecked_never_refuses(held: Seq<u32>, events: Seq<LevelEvent>)
    ensures
        replay(false, held, events) == Some(held),
    decreases events.len(),
{
    if events.len() > 0 {
        lemma_unchecked_never_refuses(held, events.drop_first());
    }
}

} // verus!
