//! Core logic of a pair of small 2D game prototypes: axis-aligned spawn-area
//! geometry, circle overlap tests, repeating spawn timers, bounded-turn seek
//! steering, a turn-order queue, and a turn-based combat skeleton.
//!
//! Positions, radii and angles are modelled as plain integers so that every
//! rule here can be stated and proved exactly; the host engine's
//! floating-point transforms are converted at the boundary.

use vstd::prelude::*;

mod collision;
mod combat;
mod geom;
mod spawn;
mod steering;
mod timer;
mod turn_queue;

pub use combat::attack_system;
pub use combat::next_turn_system;
pub use combat::turn_system;
pub use combat::Combatant;
pub use collision::despawn_indices;
pub use collision::lemma_overlap_symmetric;
pub use collision::overlaps_any;
pub use collision::resolve_player_collisions;
pub use collision::spec_damage_sum;
pub use collision::spec_overlaps_any;
pub use collision::Hazard;
pub use geom::Circle;
pub use geom::Point;
pub use geom::Rect;
pub use geom::circles_overlap;
pub use geom::clamp_i64;
pub use geom::clamp_to_rect;
pub use geom::spec_circles_overlap;
pub use geom::spec_clamp;
pub use spawn::pick_rock_size;
pub use spawn::pick_spawn_point;
pub use spawn::safe_excludes_no_sample;
pub use spawn::spawn_point_ok;
pub use spawn::spawner_update;
pub use spawn::standard_areas;
pub use spawn::PlayArea;
pub use spawn::SafeArea;
pub use spawn::SpawnArea;
pub use steering::angle_wf;
pub use steering::circ_dist;
pub use steering::movement_factors;
pub use steering::player_turn;
pub use steering::rotate_heading;
pub use steering::signed_delta;
pub use steering::spec_circ_dist;
pub use steering::spec_norm_angle;
pub use steering::spec_signed_delta;
pub use steering::spec_turn_step;
pub use steering::spec_turn_toward;
pub use steering::turn_toward;
pub use steering::FULL_TURN;
pub use steering::HALF_TURN;
pub use timer::RepeatingTimer;
pub use combat::sorted_by_health;
pub use turn_queue::apply_event;
pub use turn_queue::apply_events;
pub use turn_queue::lemma_apply_events_split;
pub use turn_queue::update_turn_order;
pub use turn_queue::update_turn_timer;
pub use turn_queue::Action;
pub use turn_queue::ElementType;
pub use turn_queue::InBattle;
pub use turn_queue::TurnEvents;
pub use turn_queue::TurnOrder;
pub use turn_queue::TurnTimer;

verus! {

/// Largest magnitude a coordinate or radius may have. Keeping every
/// coordinate within this bound guarantees that squared distances and
/// products in the overlap tests fit in `i64`.
pub const COORD_BOUND: i64 = 1_000_000_000;

} // verus!
