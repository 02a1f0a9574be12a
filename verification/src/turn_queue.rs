//! The turn-based prototype's turn bookkeeping: a clock that ends the acting
//! side's turn when its time is up, and an ordered queue of the entities
//! waiting to act. Entities are named by plain numeric ids; the host engine's
//! entity handles convert to and from them at the boundary.

use vstd::prelude::*;

verus! {

use crate::timer::RepeatingTimer;

/// The clock of the current turn: whose turn is running, which entity it
/// belongs to, and how far along it is. `Idle` means no turn is being timed.
#[derive(Clone, Copy, Debug, PartialEq, Eq, Structural)]
pub enum TurnTimer {
    Player { timer: RepeatingTimer, target: u64 },
    Enemy { timer: RepeatingTimer, target: u64 },
    Idle,
}

impl TurnTimer {
    /// A running clock is well-formed; an idle one trivially is.
    pub open spec fn wf(self) -> bool {
        match self {
            TurnTimer::Player { timer, .. } => timer.wf(),
            TurnTimer::Enemy { timer, .. } => timer.wf(),
            TurnTimer::Idle => true,
        }
    }

    /// The inner countdown of a running clock.
    pub open spec fn spec_timer(self) -> RepeatingTimer {
        match self {
            TurnTimer::Player { timer, .. } => timer,
            TurnTimer::Enemy { timer, .. } => timer,
            TurnTimer::Idle => RepeatingTimer { period: 1, elapsed: 0 },
        }
    }

    /// The entity whose turn the clock is timing.
    pub open spec fn spec_target(self) -> u64 {
        match self {
            TurnTimer::Player { target, .. } => target,
            TurnTimer::Enemy { target, .. } => target,
            TurnTimer::Idle => 0,
        }
    }
}

/// What a participant does with its turn.
#[derive(Clone, Copy, Debug, PartialEq, Eq, Structural)]
pub enum Action {
    Attack,
    Spell { elem: ElementType },
    Defend,
    Pass,
}

/// The element a spell is cast with.
#[derive(Clone, Copy, Debug, PartialEq, Eq, Structural)]
pub enum ElementType {
    Earth,
    Fire,
    Water,
    Air,
    Void,
}

/// The events the turn system reacts to.
#[derive(Clone, Copy, Debug, PartialEq, Eq, Structural)]
pub enum TurnEvents {
    PlayerAction { action: Action },
    EnemyAction { action: Action },
    EndTurn(u64),
    StartTurn(u64),
    StartBattle,
}

/// Marker for an entity taking part in the current battle.
#[derive(Clone, Copy, Debug, PartialEq, Eq, Structural)]
pub struct InBattle;

/// The ordered queue of entities waiting to act.
pub struct TurnOrder {
    players: Vec<u64>,
}

impl View for TurnOrder {
    type V = Seq<u64>;

    closed spec fn view(&self) -> Seq<u64> {
        self.players@
    }
}

impl TurnOrder {
    /// An empty queue, the state before any battle starts.
    pub fn new() -> (r: TurnOrder)
        ensures
            r@ == Seq::<u64>::empty(),
    {
        TurnOrder { players: Vec::new() }
    }

    /// The queue as a list, front first.
    pub fn players(&self) -> (r: &Vec<u64>)
        ensures
            r@ == self@,
    {
        &self.players
    }
}

/// Advance the turn clock by `delta` time units. When a running turn's time
/// is up, the clock wraps and the turn's owner is reported in an `EndTurn`
/// event; an idle clock does nothing.
pub fn update_turn_timer(turn_timer: &mut TurnTimer, delta: u64) -> (ev: Option<TurnEvents>)
    requires
        old(turn_timer).wf(),
        old(turn_timer).spec_timer().elapsed + delta <= u64::MAX,
    ensures
        final(turn_timer).wf(),
        (*final(turn_timer)) is Player <==> (*old(turn_timer)) is Player,
        (*final(turn_timer)) is Enemy <==> (*old(turn_timer)) is Enemy,
        final(turn_timer).spec_target() == old(turn_timer).spec_target(),
        (*old(turn_timer)) is Idle ==> *final(turn_timer) == *old(turn_timer) && ev is None,
        !((*old(turn_timer)) is Idle) ==> {
            let t0 = old(turn_timer).spec_timer();
            let t1 = final(turn_timer).spec_timer();
            &&& t1.period == t0.period
            &&& t1.elapsed == (t0.elapsed + delta) % (t0.period as int)
            &&& ev == (if t0.elapsed + delta >= t0.period {
                Some(TurnEvents::EndTurn(old(turn_timer).spec_target()))
            } else {
                Option::<TurnEvents>::None
            })
        },
{
    match turn_timer {
        TurnTimer::Player { timer, target } => {
            let finished = timer.tick(delta);
            if finished {
                Some(TurnEvents::EndTurn(*target))
            } else {
                None
            }
        },
        TurnTimer::Enemy { timer, target } => {
            let finished = timer.tick(delta);
            if finished {
                Some(TurnEvents::EndTurn(*target))
            } else {
                None
            }
        },
        TurnTimer::Idle => None,
    }
}

/// What one event does to the queue: ending a turn removes every occurrence
/// of the entity, starting one appends it, and the start of a battle resets
/// the queue to the entities currently in battle. Action events leave the
/// queue alone.
pub open spec fn apply_event(s: Seq<u64>, ev: TurnEvents, in_battle: Seq<u64>) -> Seq<u64> {
    match ev {
        TurnEvents::EndTurn(e) => s.filter(|x: u64| x != e),
        TurnEvents::StartTurn(e) => s.push(e),
        TurnEvents::StartBattle => in_battle,
        _ => s,
    }
}

/// The queue after a whole batch of events, applied in order.
pub open spec fn apply_events(s: Seq<u64>, evs: Seq<TurnEvents>, in_battle: Seq<u64>) -> Seq<u64>
    decreases evs.len(),
{
    if evs.len() == 0 {
        s
    } else {
        apply_event(apply_events(s, evs.drop_last(), in_battle), evs.last(), in_battle)
    }
}

/// Events may arrive split across frames: reacting to two batches one after
/// the other leaves the queue exactly as reacting to their concatenation
/// would.
pub proof fn lemma_apply_events_split(
    s: Seq<u64>,
    a: Seq<TurnEvents>,
    b: Seq<TurnEvents>,
    in_battle: Seq<u64>,
)
    ensures
        apply_events(s, a + b, in_battle) == apply_events(
            apply_events(s, a, in_battle),
            b,
            in_battle,
        ),
    decreases b.len(),
{
    if b.len() == 0 {
        assert(a + b =~= a);
    } else {
        lemma_apply_events_split(s, a, b.drop_last(), in_battle);
        assert((a + b).drop_last() =~= a + b.drop_last());
        assert((a + b).last() == b.last());
    }
}

/// Every element of the queue with a different id survives a removal, in
/// order, and nothing else does.
fn retain_ne(v: &Vec<u64>, e: u64) -> (r: Vec<u64>)
    ensures
        r@ == v@.filter(|x: u64| x != e),
{
    let mut r: Vec<u64> = Vec::new();
    let mut i: usize = 0;
    proof {
        reveal(Seq::filter);
        assert(v@.take(0).filter(|x: u64| x != e) =~= Seq::<u64>::empty());
    }
    while i < v.len()
        invariant
            i <= v@.len(),
            r@ == v@.take(i as int).filter(|x: u64| x != e),
        decreases v@.len() - i,
    {
        proof {
            reveal(Seq::filter);
            assert(v@.take(i + 1).drop_last() =~= v@.take(i as int));
            assert(v@.take(i + 1).last() == v@[i as int]);
        }
        if v[i] != e {
            r.push(v[i]);
        }
        i = i + 1;
    }
    proof {
        assert(v@.take(v@.len() as int) =~= v@);
    }
    r
}

/// Copy the in-battle list into a fresh queue.
fn copy_ids(v: &Vec<u64>) -> (r: Vec<u64>)
    ensures
        r@ == v@,
{
    let mut r: Vec<u64> = Vec::new();
    let mut i: usize = 0;
    while i < v.len()
        invariant
            i <= v@.len(),
            r@ == v@.take(i as int),
        decreases v@.len() - i,
    {
        r.push(v[i]);
        proof {
            assert(v@.take(i + 1) =~= v@.take(i as int).push(v@[i as int]));
        }
        i = i + 1;
    }
    proof {
        assert(v@.take(v@.len() as int) =~= v@);
    }
    r
}

/// React to a batch of turn events in order: `EndTurn` removes the entity
/// from the queue, `StartTurn` appends it, and `StartBattle` resets the
/// queue to the entities currently in battle.
pub fn update_turn_order(
    turn_order: &mut TurnOrder,
    events: &Vec<TurnEvents>,
    in_battle: &Vec<u64>,
)
    ensures
        final(turn_order)@ == apply_events(old(turn_order)@, events@, in_battle@),
{
    let mut i: usize = 0;
    proof {
        assert(apply_events(old(turn_order)@, events@.take(0), in_battle@) == old(turn_order)@);
    }
    while i < events.len()
        invariant
            i <= events@.len(),
            turn_order@ == apply_events(old(turn_order)@, events@.take(i as int), in_battle@),
        decreases events@.len() - i,
    {
        proof {
            assert(events@.take(i + 1).drop_last() =~= events@.take(i as int));
            assert(events@.take(i + 1).last() == events@[i as int]);
        }
        match events[i] {
            TurnEvents::EndTurn(e) => {
                turn_order.players = retain_ne(&turn_order.players, e);
            },
            TurnEvents::StartTurn(e) => {
                turn_order.players.push(e);
            },
            TurnEvents::StartBattle => {
                turn_order.players = copy_ids(in_battle);
            },
            _ => {},
        }
        i = i + 1;
    }
    proof {
        assert(events@.take(events@.len() as int) =~= events@);
    }
}

} // verus!
