//! Pairwise broad-phase collision resolution.
//!
//! Each frame the shooter checks the player against every hostile collider:
//! an overlapping hostile deals its attack damage and is despawned. Rocks and
//! ships are likewise despawned when they drift into a spawner. Colliders are
//! the integer circles of `geom`.

use vstd::prelude::*;

verus! {

use crate::geom::Circle;
use crate::geom::spec_circles_overlap;
use crate::geom::circles_overlap;

broadcast use vstd::seq_lib::lemma_seq_contains_after_push;

/// A hostile entity as the collision pass sees it: its collider and the
/// damage it deals on contact.
#[derive(Clone, Copy, Debug, PartialEq, Eq, Structural)]
pub struct Hazard {
    pub attack: i32,
    pub shape: Circle,
}

impl Hazard {
    pub open spec fn wf(self) -> bool {
        self.shape.wf()
    }
}

/// Circle overlap does not depend on the order of the two circles.
pub proof fn lemma_overlap_symmetric(a: Circle, b: Circle)
    ensures
        spec_circles_overlap(a, b) == spec_circles_overlap(b, a),
{
    assert(forall|v: int| #[trigger] (v * v) == (-v) * (-v)) by (nonlinear_arith);
    assert(b.center.x - a.center.x == -(a.center.x - b.center.x));
    assert(b.center.y - a.center.y == -(a.center.y - b.center.y));
}

/// Whether `c` overlaps at least one of `others`.
pub open spec fn spec_overlaps_any(c: Circle, others: Seq<Circle>) -> bool {
    exists|j: int| 0 <= j < others.len() && spec_circles_overlap(c, others[j])
}

/// Test a collider against a whole list, the inner loop of every despawn
/// pass.
pub fn overlaps_any(c: &Circle, others: &Vec<Circle>) -> (r: bool)
    requires
        c.wf(),
        forall|j: int| 0 <= j < others@.len() ==> (#[trigger] others@[j]).wf(),
    ensures
        r == spec_overlaps_any(*c, others@),
{
    let mut j: usize = 0;
    while j < others.len()
        invariant
            c.wf(),
            j <= others@.len(),
            forall|k: int| 0 <= k < others@.len() ==> (#[trigger] others@[k]).wf(),
            forall|k: int| 0 <= k < j ==> !spec_circles_overlap(*c, #[trigger] others@[k]),
        decreases others@.len() - j,
    {
        if circles_overlap(c, &others[j]) {
            return true;
        }
        j = j + 1;
    }
    false
}

/// The indices of the entities that touch at least one spawner and are
/// therefore despawned this frame: exactly those whose collider overlaps a
/// spawner's, in increasing order.
pub fn despawn_indices(entities: &Vec<Circle>, spawners: &Vec<Circle>) -> (r: Vec<usize>)
    requires
        forall|i: int| 0 <= i < entities@.len() ==> (#[trigger] entities@[i]).wf(),
        forall|j: int| 0 <= j < spawners@.len() ==> (#[trigger] spawners@[j]).wf(),
    ensures
        forall|k: int|
            0 <= k < r@.len() ==> (#[trigger] r@[k]) < entities@.len() && spec_overlaps_any(
                entities@[r@[k] as int],
                spawners@,
            ),
        forall|i: int|
            0 <= i < entities@.len() && spec_overlaps_any(#[trigger] entities@[i], spawners@)
                ==> r@.contains(i as usize),
        forall|k: int, l: int| 0 <= k < l < r@.len() ==> r@[k] < r@[l],
{
    let mut r: Vec<usize> = Vec::new();
    let mut i: usize = 0;
    while i < entities.len()
        invariant
            i <= entities@.len(),
            forall|a: int| 0 <= a < entities@.len() ==> (#[trigger] entities@[a]).wf(),
            forall|b: int| 0 <= b < spawners@.len() ==> (#[trigger] spawners@[b]).wf(),
            forall|k: int|
                0 <= k < r@.len() ==> (#[trigger] r@[k]) < i && spec_overlaps_any(
                    entities@[r@[k] as int],
                    spawners@,
                ),
            forall|a: int|
                0 <= a < i && spec_overlaps_any(#[trigger] entities@[a], spawners@)
                    ==> r@.contains(a as usize),
            forall|k: int, l: int| 0 <= k < l < r@.len() ==> r@[k] < r@[l],
        decreases entities@.len() - i,
    {
        if overlaps_any(&entities[i], spawners) {
            let ghost before = r@;
            r.push(i);
            assert(r@ == before.push(i as usize));
        }
        i = i + 1;
    }
    r
}

/// The total damage the player takes this frame: the sum of the attack
/// values of the hazards whose collider overlaps the player's.
pub open spec fn spec_damage_sum(targets: Seq<Hazard>, player: Circle) -> int
    decreases targets.len(),
{
    if targets.len() == 0 {
        0
    } else {
        spec_damage_sum(targets.drop_last(), player) + if spec_circles_overlap(
            targets.last().shape,
            player,
        ) {
            targets.last().attack as int
        } else {
            0
        }
    }
}

/// Resolve the player's collisions for one frame: every hazard overlapping
/// the player deals its attack damage and is marked for despawning. Returns
/// the player's new health and the indices of the despawned hazards, in
/// increasing order. Health may not pass through an overflow on the way, as
/// the caller's damage values must keep each intermediate value in range.
pub fn resolve_player_collisions(player: &Circle, health: i32, targets: &Vec<Hazard>) -> (r: (
    i32,
    Vec<usize>,
))
    requires
        player.wf(),
        forall|i: int| 0 <= i < targets@.len() ==> (#[trigger] targets@[i]).wf(),
        forall|k: int|
            0 <= k <= targets@.len() ==> i32::MIN <= health - spec_damage_sum(
                #[trigger] targets@.take(k),
                *player,
            ) <= i32::MAX,
    ensures
        r.0 == health - spec_damage_sum(targets@, *player),
        forall|k: int|
            0 <= k < r.1@.len() ==> (#[trigger] r.1@[k]) < targets@.len() && spec_circles_overlap(
                targets@[r.1@[k] as int].shape,
                *player,
            ),
        forall|i: int|
            0 <= i < targets@.len() && spec_circles_overlap(
                (#[trigger] targets@[i]).shape,
                *player,
            ) ==> r.1@.contains(i as usize),
        forall|k: int, l: int| 0 <= k < l < r.1@.len() ==> r.1@[k] < r.1@[l],
{
    let mut hp = health;
    let mut hits: Vec<usize> = Vec::new();
    let mut i: usize = 0;
    while i < targets.len()
        invariant
            i <= targets@.len(),
            player.wf(),
            forall|a: int| 0 <= a < targets@.len() ==> (#[trigger] targets@[a]).wf(),
            forall|k: int|
                0 <= k <= targets@.len() ==> i32::MIN <= health - spec_damage_sum(
                    #[trigger] targets@.take(k),
                    *player,
                ) <= i32::MAX,
            hp == health - spec_damage_sum(targets@.take(i as int), *player),
            forall|k: int|
                0 <= k < hits@.len() ==> (#[trigger] hits@[k]) < i && spec_circles_overlap(
                    targets@[hits@[k] as int].shape,
                    *player,
                ),
            forall|a: int|
                0 <= a < i && spec_circles_overlap((#[trigger] targets@[a]).shape, *player)
                    ==> hits@.contains(a as usize),
            forall|k: int, l: int| 0 <= k < l < hits@.len() ==> hits@[k] < hits@[l],
        decreases targets@.len() - i,
    {
        proof {
            assert(targets@.take(i + 1).drop_last() =~= targets@.take(i as int));
            assert(targets@.take(i + 1).last() == targets@[i as int]);
        }
        if circles_overlap(&targets[i].shape, player) {
            assert(health - spec_damage_sum(targets@.take(i + 1), *player) <= i32::MAX);
            assert(i32::MIN <= health - spec_damage_sum(targets@.take(i + 1), *player));
            hp = hp - targets[i].attack;
            let ghost before = hits@;
            hits.push(i);
            assert(hits@ == before.push(i as usize));
        }
        i = i + 1;
    }
    proof {
        assert(targets@.take(targets@.len() as int) =~= targets@);
    }
    (hp, hits)
}

} // verus!
