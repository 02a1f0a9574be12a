//! The turn-based combat skeleton: participants with health, attack and
//! defense, a turn order rebuilt each round by sorting the participants by
//! health, an attack step in which the first in line hits the second, and
//! the hand-over of the turn marker.

use vstd::prelude::*;

verus! {

use vstd::seq_lib::group_to_multiset_ensures;

broadcast use group_to_multiset_ensures;

/// A battle participant as the combat systems see it.
#[derive(Clone, Copy, Debug, PartialEq, Eq, Structural)]
pub struct Combatant {
    pub id: u64,
    pub health: i32,
    pub attack: i32,
    pub defense: i32,
}

/// Non-decreasing health from the front of the turn order to the back.
pub open spec fn sorted_by_health(s: Seq<Combatant>) -> bool {
    forall|i: int, j: int| 0 <= i < j < s.len() ==> s[i].health <= s[j].health
}

/// Rebuild the turn order: the same participants, weakest first. Ties may
/// come out in any order.
pub fn turn_system(participants: &Vec<Combatant>) -> (order: Vec<Combatant>)
    ensures
        order@.to_multiset() == participants@.to_multiset(),
        order@.len() == participants@.len(),
        sorted_by_health(order@),
{
    let mut order: Vec<Combatant> = Vec::new();
    let mut i: usize = 0;
    proof {
        assert(participants@.take(0) =~= Seq::<Combatant>::empty());
        assert(Seq::<Combatant>::empty().to_multiset() =~= order@.to_multiset());
    }
    while i < participants.len()
        invariant
            i <= participants@.len(),
            order@.len() == i,
            order@.to_multiset() == participants@.take(i as int).to_multiset(),
            sorted_by_health(order@),
        decreases participants@.len() - i,
    {
        let c = participants[i];
        let pos = insert_position(&order, c.health);
        let ghost before = order@;
        order.insert(pos, c);
        proof {
            assert(participants@.take(i + 1).drop_last() =~= participants@.take(i as int));
            assert(participants@.take(i + 1).last() == participants@[i as int]);
            assert(participants@.take(i + 1) =~= participants@.take(i as int).push(
                participants@[i as int],
            ));
            lemma_insert_keeps_multiset(before, pos as int, c);
            assert forall|a: int, b: int| 0 <= a < b < order@.len() implies order@[a].health
                <= order@[b].health by {
                if a < pos && b < pos {
                    assert(order@[a] == before[a] && order@[b] == before[b]);
                } else if a < pos && b == pos {
                    assert(order@[a] == before[a]);
                } else if a < pos && b > pos {
                    assert(order@[a] == before[a] && order@[b] == before[b - 1]);
                } else if a == pos {
                    assert(order@[b] == before[b - 1]);
                } else {
                    assert(order@[a] == before[a - 1] && order@[b] == before[b - 1]);
                }
            }
        }
        i = i + 1;
    }
    proof {
        assert(participants@.take(participants@.len() as int) =~= participants@);
    }
    order
}

/// Where a participant with the given health goes in a sorted order: after
/// everyone at most as healthy, before everyone strictly healthier.
fn insert_position(order: &Vec<Combatant>, health: i32) -> (pos: usize)
    requires
        sorted_by_health(order@),
    ensures
        pos <= order@.len(),
        forall|k: int| 0 <= k < pos ==> (#[trigger] order@[k]).health <= health,
        forall|k: int| pos <= k < order@.len() ==> health < (#[trigger] order@[k]).health,
{
    let mut pos: usize = 0;
    while pos < order.len() && order[pos].health <= health
        invariant
            pos <= order@.len(),
            sorted_by_health(order@),
            forall|k: int| 0 <= k < pos ==> (#[trigger] order@[k]).health <= health,
        decreases order@.len() - pos,
    {
        pos = pos + 1;
    }
    pos
}

/// Inserting an element anywhere adds exactly that element to the
/// sequence's multiset.
proof fn lemma_insert_keeps_multiset(s: Seq<Combatant>, pos: int, c: Combatant)
    requires
        0 <= pos <= s.len(),
    ensures
        s.insert(pos, c).to_multiset() == s.push(c).to_multiset(),
    decreases s.len() - pos,
{
    if pos == s.len() {
        assert(s.insert(pos, c) =~= s.push(c));
    } else {
        let last = s.last();
        let init = s.drop_last();
        assert(s.insert(pos, c) =~= init.insert(pos, c).push(last));
        lemma_insert_keeps_multiset(init, pos, c);
        assert(init.insert(pos, c).to_multiset() == init.push(c).to_multiset());
        assert(s.insert(pos, c).to_multiset() =~= init.insert(pos, c).to_multiset().insert(last));
        assert(init.push(c).to_multiset() =~= init.to_multiset().insert(c));
        assert(s.push(c).to_multiset() =~= s.to_multiset().insert(c));
        assert(s =~= init.push(last));
        assert(init.push(last).to_multiset() =~= init.to_multiset().insert(last));
        assert(s.to_multiset() =~= init.to_multiset().insert(last));
        assert(s.insert(pos, c).to_multiset() =~= init.to_multiset().insert(c).insert(last));
        assert(s.push(c).to_multiset() =~= init.to_multiset().insert(last).insert(c));
        assert(init.to_multiset().insert(c).insert(last) =~= init.to_multiset().insert(
            last,
        ).insert(c));
    }
}

/// One attack step: when the turn order has at least two participants, the
/// first hits the second for its attack value, and nobody else changes.
/// Returns whether an attack happened.
pub fn attack_system(order: &mut Vec<Combatant>) -> (acted: bool)
    requires
        old(order)@.len() >= 2 ==> i32::MIN <= old(order)@[1].health - old(order)@[0].attack
            <= i32::MAX,
    ensures
        acted == (old(order)@.len() >= 2),
        final(order)@.len() == old(order)@.len(),
        acted ==> final(order)@ == old(order)@.update(
            1,
            Combatant {
                health: (old(order)@[1].health - old(order)@[0].attack) as i32,
                ..old(order)@[1]
            },
        ),
        !acted ==> final(order)@ == old(order)@,
{
    if order.len() >= 2 {
        let attack = order[0].attack;
        let target = order[1];
        let hit = Combatant { health: target.health - attack, ..target };
        order.set(1, hit);
        true
    } else {
        false
    }
}

/// Hand the turn marker over: the entity at the front of the turn order
/// holds the marker for the next round, if anyone is waiting at all.
pub fn next_turn_system(order: &Vec<u64>) -> (marked: Option<u64>)
    ensures
        marked == if order@.len() > 0 {
            Some(order@[0])
        } else {
            Option::<u64>::None
        },
{
    if order.len() > 0 {
        Some(order[0])
    } else {
        None
    }
}

} // verus!
