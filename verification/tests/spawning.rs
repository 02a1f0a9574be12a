use game_core::{pick_rock_size, pick_spawn_point, spawner_update, standard_areas, RepeatingTimer};

#[test]
fn standard_areas_scale_from_the_screen_size() {
    let (spawn, safe, play) = standard_areas(1200, 640);
    assert_eq!(
        (spawn.rect.min_x, spawn.rect.min_y, spawn.rect.max_x, spawn.rect.max_y),
        (-1200, -640, 1200, 640)
    );
    assert_eq!(
        (safe.rect.min_x, safe.rect.min_y, safe.rect.max_x, safe.rect.max_y),
        (-400, -213, 400, 213)
    );
    assert_eq!(
        (play.rect.min_x, play.rect.min_y, play.rect.max_x, play.rect.max_y),
        (-600, -320, 600, 320)
    );
}

#[test]
fn spawn_points_avoid_the_safe_area() {
    let (spawn, safe, _) = standard_areas(1200, 640);
    for _ in 0..50 {
        if let Some(p) = pick_spawn_point(&spawn, &safe, 64) {
            assert!(spawn.rect.min_x <= p.x && p.x < spawn.rect.max_x);
            assert!(spawn.rect.min_y <= p.y && p.y < spawn.rect.max_y);
            assert!(!safe.rect.contains(p));
        }
    }
}

#[test]
fn spawn_point_found_when_nothing_is_excluded() {
    let (spawn, mut safe, _) = standard_areas(1200, 640);
    // an empty exclusion zone far away: the very first draw is accepted
    safe.rect = game_core::Rect::new(5_000, 5_000, 5_000, 5_000);
    let p = pick_spawn_point(&spawn, &safe, 1);
    assert!(p.is_some());
}

#[test]
fn rock_sizes_come_from_the_list() {
    let sizes: Vec<i64> = vec![10, 25, 30, 40];
    for _ in 0..20 {
        let (i, s) = pick_rock_size(&sizes);
        assert!(i < sizes.len());
        assert_eq!(s, sizes[i]);
    }
}

#[test]
fn spawner_emits_only_when_its_period_ends() {
    let (spawn, safe, _) = standard_areas(1200, 640);
    let mut timer = RepeatingTimer::new(5_000);
    // the timer has not finished: no spawn attempt at all
    let r = spawner_update(&mut timer, 1_000, &spawn, &safe, 64);
    assert!(r.is_none());
    assert_eq!(timer.elapsed, 1_000);
    // crossing the period wraps the timer; any point produced is valid
    let r2 = spawner_update(&mut timer, 4_500, &spawn, &safe, 64);
    assert_eq!(timer.elapsed, 500);
    if let Some(p) = r2 {
        assert!(!safe.rect.contains(p));
    }
}
