//! Spawn placement for the shooter prototype.
//!
//! Rocks and ships are emitted at a random point inside the spawn rectangle
//! but outside the safe rectangle around the player's start, found by
//! rejection sampling; rocks additionally draw a random size from a fixed
//! list. The random draws come from the process-wide generator behind
//! trusted wrappers, so every guarantee here holds whatever numbers come out.

use vstd::prelude::*;

verus! {

use crate::COORD_BOUND;
use crate::geom::Point;
use crate::geom::Rect;

/// The rectangle inside which spawners may place new entities.
#[derive(Clone, Copy, Debug, PartialEq, Eq, Structural)]
pub struct SpawnArea {
    pub rect: Rect,
}

/// The exclusion rectangle around the player's start: nothing spawns in it.
#[derive(Clone, Copy, Debug, PartialEq, Eq, Structural)]
pub struct SafeArea {
    pub rect: Rect,
}

/// The rectangle the player is kept inside while moving.
#[derive(Clone, Copy, Debug, PartialEq, Eq, Structural)]
pub struct PlayArea {
    pub rect: Rect,
}

/// The three standard areas for a screen of the given size, centred on the
/// origin: spawning happens within one full screen size in every direction,
/// the safe zone is the middle third, and play is bounded at half the size.
/// The thirds round toward zero.
pub fn standard_areas(width: i64, height: i64) -> (r: (SpawnArea, SafeArea, PlayArea))
    requires
        0 <= width <= COORD_BOUND,
        0 <= height <= COORD_BOUND,
    ensures
        r.0.rect.min_x == -(width as int) && r.0.rect.max_x == width,
        r.0.rect.min_y == -(height as int) && r.0.rect.max_y == height,
        r.1.rect.max_x == width as int / 3 && r.1.rect.min_x == -(width as int / 3),
        r.1.rect.max_y == height as int / 3 && r.1.rect.min_y == -(height as int / 3),
        r.2.rect.max_x == width as int / 2 && r.2.rect.min_x == -(width as int / 2),
        r.2.rect.max_y == height as int / 2 && r.2.rect.min_y == -(height as int / 2),
        r.0.rect.wf(),
        r.1.rect.wf(),
        r.2.rect.wf(),
{
    let spawn = SpawnArea {
        rect: Rect { min_x: -width, min_y: -height, max_x: width, max_y: height },
    };
    let third_w = width / 3;
    let third_h = height / 3;
    let safe = SafeArea {
        rect: Rect { min_x: -third_w, min_y: -third_h, max_x: third_w, max_y: third_h },
    };
    let half_w = width / 2;
    let half_h = height / 2;
    let play = PlayArea {
        rect: Rect { min_x: -half_w, min_y: -half_h, max_x: half_w, max_y: half_h },
    };
    (spawn, safe, play)
}

/// Relies on rand's `Rng::gen_range` on an integer range: it returns a value
/// uniformly in `[lo, hi)` and panics on an empty range, which the
/// precondition rules out (the thread-local generator can also abort if the
/// operating system's entropy source fails, an environmental fault).
#[verifier::external_body]
fn rand_range_i64(lo: i64, hi: i64) -> (r: i64)
    requires
        lo < hi,
    ensures
        lo <= r < hi,
{
    rand::Rng::gen_range(&mut rand::thread_rng(), lo..hi)
}

/// Relies on rand's `Rng::gen_range` on a `usize` range: it returns a value
/// uniformly in `[0, len)` and panics on an empty range, which the
/// precondition rules out (the thread-local generator can also abort if the
/// operating system's entropy source fails, an environmental fault).
#[verifier::external_body]
fn rand_index(len: usize) -> (r: usize)
    requires
        0 < len,
    ensures
        r < len,
{
    rand::Rng::gen_range(&mut rand::thread_rng(), 0..len)
}

/// Whether a candidate landed in the sampled part of the spawn rectangle
/// (left and bottom edges included, right and top excluded, as the sampler
/// draws them) and clear of the safe rectangle.
pub open spec fn spawn_point_ok(p: Point, spawn: SpawnArea, safe: SafeArea) -> bool {
    &&& spawn.rect.min_x <= p.x < spawn.rect.max_x
    &&& spawn.rect.min_y <= p.y < spawn.rect.max_y
    &&& !safe.rect.spec_contains(p)
}

/// The safe rectangle excludes no point of the sampled region, so every
/// draw whatsoever is accepted.
pub open spec fn safe_excludes_no_sample(spawn: SpawnArea, safe: SafeArea) -> bool {
    forall|q: Point|
        spawn.rect.min_x <= q.x < spawn.rect.max_x && spawn.rect.min_y <= q.y < spawn.rect.max_y
            ==> !(#[trigger] safe.rect.spec_contains(q))
}

/// Draw random points in the spawn rectangle until one falls outside the
/// safe rectangle, giving up after `max_tries` draws. Any point returned is
/// a valid spawn point; when the safe rectangle obstructs nothing, the first
/// draw is accepted whatever it is, so one try already guarantees a point.
/// With an obstruction, whether a point is found is up to the generator.
pub fn pick_spawn_point(spawn: &SpawnArea, safe: &SafeArea, max_tries: u32) -> (r: Option<
    Point,
>)
    requires
        spawn.rect.min_x < spawn.rect.max_x,
        spawn.rect.min_y < spawn.rect.max_y,
    ensures
        r is Some ==> spawn_point_ok(r->Some_0, *spawn, *safe),
        max_tries == 0 ==> r is None,
        max_tries > 0 && safe_excludes_no_sample(*spawn, *safe) ==> r is Some,
{
    let mut tries: u32 = 0;
    while tries < max_tries
        invariant
            spawn.rect.min_x < spawn.rect.max_x,
            spawn.rect.min_y < spawn.rect.max_y,
            safe_excludes_no_sample(*spawn, *safe) ==> tries == 0,
        decreases max_tries - tries,
    {
        let x = rand_range_i64(spawn.rect.min_x, spawn.rect.max_x);
        let y = rand_range_i64(spawn.rect.min_y, spawn.rect.max_y);
        let candidate = Point { x, y };
        if !safe.rect.contains(candidate) {
            return Some(candidate);
        }
        tries = tries + 1;
    }
    None
}

/// One frame of a spawner: advance its timer, and when a period ends, try to
/// place a new entity. A point is returned only on a frame whose tick
/// finished the period, and any point returned is a valid spawn point; on a
/// finishing tick with at least one try and an unobstructed spawn region, a
/// point is owed.
pub fn spawner_update(
    timer: &mut crate::timer::RepeatingTimer,
    delta: u64,
    spawn: &SpawnArea,
    safe: &SafeArea,
    max_tries: u32,
) -> (r: Option<Point>)
    requires
        old(timer).wf(),
        old(timer).elapsed + delta <= u64::MAX,
        spawn.rect.min_x < spawn.rect.max_x,
        spawn.rect.min_y < spawn.rect.max_y,
    ensures
        final(timer).wf(),
        final(timer).period == old(timer).period,
        final(timer).elapsed == (old(timer).elapsed + delta) % (old(timer).period as int),
        old(timer).elapsed + delta < old(timer).period ==> r is None,
        max_tries == 0 ==> r is None,
        old(timer).elapsed + delta >= old(timer).period && max_tries > 0
            && safe_excludes_no_sample(*spawn, *safe) ==> r is Some,
        r is Some ==> old(timer).elapsed + delta >= old(timer).period && spawn_point_ok(
            r->Some_0,
            *spawn,
            *safe,
        ),
{
    let finished = timer.tick(delta);
    if finished {
        pick_spawn_point(spawn, safe, max_tries)
    } else {
        None
    }
}

/// Pick a random entry of the rock size list, returning its index and value,
/// the way a freshly spawned rock draws its mesh and collider radius.
pub fn pick_rock_size(sizes: &Vec<i64>) -> (r: (usize, i64))
    requires
        sizes@.len() > 0,
    ensures
        r.0 < sizes@.len(),
        r.1 == sizes@[r.0 as int],
{
    let i = rand_index(sizes.len());
    (i, sizes[i])
}

} // verus!
