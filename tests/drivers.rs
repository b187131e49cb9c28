use flies::ai::{ai_movement, round_unit};
use flies::input::{keyboard_movement, Key};
use flies::motion::{Controller, Entity, Velocity};
use flies::screen::{Point, Screen};
use flies::spawner::{
    batch_from_draws, places_from_draws, setup, Spawner, BATCH, FLY_FREQ_MAX, MAX_FLIES, SPAWN_PERIOD,
};

#[test]
fn rounding_of_heading_samples() {
    assert_eq!(round_unit(-1_000_000), -1);
    assert_eq!(round_unit(-500_000), -1);
    assert_eq!(round_unit(-499_999), 0);
    assert_eq!(round_unit(0), 0);
    assert_eq!(round_unit(499_999), 0);
    assert_eq!(round_unit(500_000), 1);
    assert_eq!(round_unit(999_999), 1);
}

#[test]
fn retarget_on_screen_uses_rounded_samples() {
    let screen = Screen::from(800_000, 600_000);
    let mut e = Entity::fly(Point { x: 0, y: 0 }, 250_000);
    e.retarget(&screen, -700_000, 600_000, 400_000);
    assert_eq!(e.velocity, Velocity { x: -666_000, y: 600_000 });
    e.retarget(&screen, 100_000, -100_000, 400_000);
    assert_eq!(e.velocity, Velocity { x: 0, y: 0 });
    match e.controller {
        Controller::Ai { update_timer, .. } => {
            assert_eq!(update_timer.duration, 400_000);
            assert_eq!(update_timer.elapsed, 0);
        }
        _ => panic!("not a fly"),
    }
}

#[test]
fn retarget_off_screen_heads_home() {
    let screen = Screen::from(800_000, 600_000);
    let mut e = Entity::fly(Point { x: 500_000, y: -700_000 }, 250_000);
    e.retarget(&screen, 999_999, 999_999, 300_000);
    assert_eq!(e.velocity, Velocity { x: -666_000, y: 600_000 });
    let mut f = Entity::fly(Point { x: -500_000, y: 400_000 }, 250_000);
    f.retarget(&screen, 0, 0, 300_000);
    assert_eq!(f.velocity, Velocity { x: 666_000, y: -600_000 });
}

#[test]
fn ai_headings_stay_in_the_nine() {
    let screen = Screen::from(800_000, 600_000);
    for _ in 0..500 {
        let mut bodies = vec![Entity::fly(Point { x: 10_000, y: -10_000 }, 250_000)];
        ai_movement(&mut bodies, &screen, 250_000);
        let v = bodies[0].velocity;
        assert!(v.x == -666_000 || v.x == 0 || v.x == 666_000);
        assert!(v.y == -600_000 || v.y == 0 || v.y == 600_000);
        match bodies[0].controller {
            Controller::Ai { update_timer, freq_min, freq_max } => {
                assert!(update_timer.duration >= freq_min && update_timer.duration < freq_max);
                assert_eq!(update_timer.elapsed, 0);
            }
            _ => panic!("not a fly"),
        }
    }
}

#[test]
fn ai_homes_from_every_side() {
    let screen = Screen::from(800_000, 600_000);
    let places = [(500_000, 0), (-500_000, 0), (0, 400_000), (0, -400_000)];
    for (x, y) in places {
        let mut e = Entity::fly(Point { x, y }, 250_000);
        e.ai_update(&screen, 300_000);
        if x > 0 {
            assert!(e.velocity.x < 0);
        }
        if x < 0 {
            assert!(e.velocity.x > 0);
        }
        if y > 0 {
            assert!(e.velocity.y < 0);
        }
        if y < 0 {
            assert!(e.velocity.y > 0);
        }
    }
}

#[test]
fn ai_waits_for_its_timer() {
    let screen = Screen::from(800_000, 600_000);
    let mut e = Entity::fly(Point { x: 0, y: 0 }, 250_000);
    e.ai_update(&screen, 100_000);
    assert_eq!(e.velocity, Velocity { x: 666_000, y: 600_000 });
}

fn player() -> Entity {
    Entity::player(Point { x: 0, y: 0 })
}

#[test]
fn pressing_sets_axes_and_last_press_wins() {
    let mut bodies = vec![player()];
    keyboard_movement(&mut bodies, &vec![Key::Up, Key::Right], &vec![], &vec![Key::Up, Key::Right], 10_000);
    assert_eq!(bodies[0].velocity, Velocity { x: 666_000, y: 600_000 });
    keyboard_movement(&mut bodies, &vec![Key::Left, Key::Down], &vec![], &vec![], 10_000);
    assert_eq!(bodies[0].velocity, Velocity { x: -666_000, y: -600_000 });
}

#[test]
fn release_keeps_axis_while_partner_held() {
    let mut bodies = vec![player()];
    keyboard_movement(&mut bodies, &vec![Key::Up], &vec![], &vec![Key::Up], 10_000);
    keyboard_movement(&mut bodies, &vec![Key::Down], &vec![], &vec![Key::Up, Key::Down], 10_000);
    assert_eq!(bodies[0].velocity.y, -600_000);
    keyboard_movement(&mut bodies, &vec![], &vec![Key::Down], &vec![Key::Up], 10_000);
    assert_eq!(bodies[0].velocity.y, -600_000);
    keyboard_movement(&mut bodies, &vec![], &vec![Key::Up], &vec![], 10_000);
    assert_eq!(bodies[0].velocity.y, 0);
}

#[test]
fn cooldown_expiry_reasserts_held_keys() {
    let mut e = player();
    e.steer(&vec![Key::Right], &vec![], &vec![Key::Right], 10_000);
    // a bounce turned the body around
    e.velocity.x = -666_000;
    e.steer(&vec![], &vec![], &vec![Key::Right], 50_000);
    assert_eq!(e.velocity.x, -666_000);
    e.steer(&vec![], &vec![], &vec![Key::Right], 50_000);
    assert_eq!(e.velocity.x, 666_000);
}

#[test]
fn flies_ignore_keys() {
    let mut bodies = vec![Entity::fly(Point { x: 0, y: 0 }, 250_000)];
    keyboard_movement(&mut bodies, &vec![Key::Up], &vec![], &vec![Key::Up], 10_000);
    assert_eq!(bodies[0].velocity, Velocity { x: 666_000, y: 600_000 });
}

#[test]
fn spawner_places_batch_outside() {
    let screen = Screen::from(800_000, 600_000);
    let mut s = Spawner::new();
    let none = s.spawn_flies(&screen, 0, SPAWN_PERIOD - 1);
    assert!(none.is_empty());
    let flies = s.spawn_flies(&screen, 0, 1);
    assert_eq!(flies.len(), BATCH);
    for f in &flies {
        assert!(!screen.contains(&f.position));
        assert!(f.position.x >= -1_500_000 && f.position.x < 1_500_000);
        assert!(f.position.y >= -1_500_000 && f.position.y < 1_500_000);
        match f.controller {
            Controller::Ai { update_timer, freq_min, freq_max } => {
                assert_eq!(freq_min, 250_000);
                assert_eq!(freq_max, 1_800_000);
                assert!(update_timer.duration >= 250_000 && update_timer.duration < 1_800_000);
            }
            _ => panic!("not a fly"),
        }
    }
}

#[test]
fn spawn_exclusion_for_many_viewports() {
    for w in [2, 1000, 800_000, 2_000_000, 2_999_000, 4_000_000] {
        let screen = Screen::from(w, 4_000_000);
        let mut s = Spawner::new();
        let flies = s.spawn_flies(&screen, 0, SPAWN_PERIOD);
        assert_eq!(flies.len(), BATCH);
        for f in &flies {
            assert!(!screen.contains(&f.position));
        }
    }
}

#[test]
fn inside_draws_are_passed_over() {
    let screen = Screen::from(800_000, 600_000);
    let draws = vec![
        Point { x: 0, y: 0 },
        Point { x: 1_000_000, y: -50_000 },
        Point { x: -1_200_000, y: 900_000 },
        Point { x: 10_000, y: 400_000 },
    ];
    let places = places_from_draws(&screen, 3, &draws);
    assert_eq!(places, vec![draws[1], draws[2], draws[3]]);
}

#[test]
fn too_few_outside_draws_use_the_right_edge() {
    let screen = Screen::from(800_000, 600_000);
    let draws = vec![Point { x: 0, y: 0 }, Point { x: 500_000, y: 0 }];
    let places = places_from_draws(&screen, 3, &draws);
    assert_eq!(places, vec![Point { x: 500_000, y: 0 }, Point { x: 400_000, y: 0 }, Point { x: 400_000, y: 0 }]);
    assert!(!screen.contains(&places[1]));
}

#[test]
fn arena_covering_the_region_spawns_on_the_edge() {
    let screen = Screen::from(4_000_000, 4_000_000);
    let mut s = Spawner::new();
    let flies = s.spawn_flies(&screen, 0, SPAWN_PERIOD);
    assert_eq!(flies.len(), BATCH);
    for f in &flies {
        assert_eq!(f.position, Point { x: 2_000_000, y: 0 });
        assert_eq!(f.velocity, Velocity { x: -666_000, y: 600_000 });
    }
}

#[test]
fn batch_gives_given_flies() {
    let places = vec![Point { x: 1_000_000, y: -50_000 }, Point { x: -1_200_000, y: 900_000 }];
    let flies = batch_from_draws(&places, &vec![250_000, FLY_FREQ_MAX]);
    assert_eq!(flies.len(), 2);
    assert_eq!(flies[0], Entity::fly(places[0], 250_000));
    assert_eq!(flies[1].position, places[1]);
    assert_eq!(flies[1].velocity, Velocity { x: 666_000, y: -600_000 });
    match flies[1].controller {
        Controller::Ai { update_timer, .. } => assert_eq!(update_timer.duration, FLY_FREQ_MAX),
        _ => panic!("not a fly"),
    }
}

#[test]
fn spawner_respects_population_cap() {
    let screen = Screen::from(800_000, 600_000);
    let mut s = Spawner::default();
    let flies = s.spawn_flies(&screen, MAX_FLIES, SPAWN_PERIOD);
    assert!(flies.is_empty());
    let flies = s.spawn_flies(&screen, MAX_FLIES - 1, SPAWN_PERIOD);
    assert_eq!(flies.len(), 1);
    let flies = s.spawn_flies(&screen, MAX_FLIES - BATCH, SPAWN_PERIOD);
    assert_eq!(flies.len(), BATCH);
}

#[test]
fn equal_frequency_bounds_fix_the_interval() {
    let screen = Screen::from(800_000, 600_000);
    let mut e = Entity::fly(Point { x: 0, y: 0 }, 250_000);
    if let Controller::Ai { freq_min, freq_max, .. } = &mut e.controller {
        *freq_min = 500_000;
        *freq_max = 500_000;
    }
    e.ai_update(&screen, 250_000);
    match e.controller {
        Controller::Ai { update_timer, .. } => assert_eq!(update_timer.duration, 500_000),
        _ => panic!("not a fly"),
    }
}

#[test]
fn setup_places_player_near_origin() {
    let e = setup();
    assert!(e.position.x >= -300_000 && e.position.x < 300_000);
    assert!(e.position.y >= -300_000 && e.position.y < 300_000);
    assert_eq!(e.velocity, Velocity { x: 0, y: 0 });
    assert!(matches!(e.controller, Controller::Player { .. }));
}

#[test]
fn random_draws_vary() {
    let first = setup().position;
    let mut differs = false;
    for _ in 0..50 {
        let p = setup().position;
        if p != first {
            differs = true;
        }
    }
    assert!(differs);
}
