use game_core::{
    ElementType,
    attack_system, next_turn_system, turn_system, update_turn_order, update_turn_timer, Action,
    Combatant, RepeatingTimer, TurnEvents, TurnOrder, TurnTimer,
};

#[test]
fn turn_timer_ends_the_turn_when_time_is_up() {
    let mut clock = TurnTimer::Player { timer: RepeatingTimer::new(3_000), target: 7 };
    assert_eq!(update_turn_timer(&mut clock, 1_000), None);
    assert_eq!(update_turn_timer(&mut clock, 1_000), None);
    assert_eq!(update_turn_timer(&mut clock, 1_000), Some(TurnEvents::EndTurn(7)));
    // the clock wrapped and runs again for the same side
    assert_eq!(update_turn_timer(&mut clock, 1_000), None);
}

#[test]
fn enemy_timer_reports_its_own_target() {
    let mut clock = TurnTimer::Enemy { timer: RepeatingTimer::new(100), target: 42 };
    assert_eq!(update_turn_timer(&mut clock, 100), Some(TurnEvents::EndTurn(42)));
}

#[test]
fn idle_timer_does_nothing() {
    let mut clock = TurnTimer::Idle;
    assert_eq!(update_turn_timer(&mut clock, 10_000), None);
    assert_eq!(clock, TurnTimer::Idle);
}

#[test]
fn turn_order_reacts_to_events_in_order() {
    let mut order = TurnOrder::new();
    let in_battle: Vec<u64> = vec![1, 2, 3];
    let events = vec![
        TurnEvents::StartBattle,
        TurnEvents::StartTurn(4),
        TurnEvents::EndTurn(2),
        TurnEvents::PlayerAction { action: Action::Attack },
    ];
    update_turn_order(&mut order, &events, &in_battle);
    assert_eq!(order.players().clone(), vec![1u64, 3, 4]);
}

#[test]
fn end_turn_removes_every_occurrence() {
    let mut order = TurnOrder::new();
    let events = vec![
        TurnEvents::StartTurn(5),
        TurnEvents::StartTurn(6),
        TurnEvents::StartTurn(5),
        TurnEvents::EndTurn(5),
    ];
    update_turn_order(&mut order, &events, &Vec::new());
    assert_eq!(order.players().clone(), vec![6u64]);
}

#[test]
fn start_battle_resets_to_the_participants() {
    let mut order = TurnOrder::new();
    update_turn_order(&mut order, &vec![TurnEvents::StartTurn(9)], &Vec::new());
    update_turn_order(&mut order, &vec![TurnEvents::StartBattle], &vec![10, 11]);
    assert_eq!(order.players().clone(), vec![10u64, 11]);
}

#[test]
fn action_events_leave_the_queue_alone() {
    let mut order = TurnOrder::new();
    let events = vec![
        TurnEvents::StartTurn(8),
        TurnEvents::PlayerAction { action: Action::Spell { elem: ElementType::Fire } },
        TurnEvents::EnemyAction { action: Action::Defend },
    ];
    update_turn_order(&mut order, &events, &Vec::new());
    assert_eq!(order.players().clone(), vec![8u64]);
}

#[test]
fn events_split_across_frames_agree() {
    let in_battle: Vec<u64> = vec![1, 2, 3];
    let first = vec![TurnEvents::StartBattle, TurnEvents::StartTurn(4)];
    let second = vec![TurnEvents::EndTurn(1), TurnEvents::StartTurn(5)];

    let mut split = TurnOrder::new();
    update_turn_order(&mut split, &first, &in_battle);
    update_turn_order(&mut split, &second, &in_battle);

    let mut joined = TurnOrder::new();
    let mut all = first.clone();
    all.extend(second.clone());
    update_turn_order(&mut joined, &all, &in_battle);

    assert_eq!(split.players().clone(), joined.players().clone());
    assert_eq!(split.players().clone(), vec![2u64, 3, 4, 5]);
}

fn combatant(id: u64, health: i32) -> Combatant {
    Combatant { id, health, attack: 8, defense: 2 }
}

#[test]
fn turn_order_is_sorted_by_health() {
    let participants = vec![combatant(1, 50), combatant(2, 12), combatant(3, 30)];
    let order = turn_system(&participants);
    let ids: Vec<u64> = order.iter().map(|c| c.id).collect();
    assert_eq!(ids, vec![2, 3, 1]);
    assert!(order.windows(2).all(|w| w[0].health <= w[1].health));
}

#[test]
fn sorting_keeps_every_participant() {
    let participants = vec![combatant(1, 50), combatant(2, 50), combatant(3, 1)];
    let order = turn_system(&participants);
    assert_eq!(order.len(), 3);
    let mut ids: Vec<u64> = order.iter().map(|c| c.id).collect();
    ids.sort();
    assert_eq!(ids, vec![1, 2, 3]);
}

#[test]
fn first_in_line_attacks_the_second() {
    let mut order = vec![combatant(1, 50), combatant(2, 50)];
    let acted = attack_system(&mut order);
    assert!(acted);
    assert_eq!(order[1].health, 42);
    assert_eq!(order[0].health, 50);
}

#[test]
fn a_lone_combatant_attacks_nobody() {
    let mut order = vec![combatant(1, 50)];
    assert!(!attack_system(&mut order));
    assert_eq!(order[0].health, 50);
}

#[test]
fn the_marker_goes_to_the_front_of_the_order() {
    assert_eq!(next_turn_system(&vec![3, 1, 2]), Some(3));
    assert_eq!(next_turn_system(&Vec::new()), None);
}
