use skirmish::command::{ClickCandidate, EntityId, Point, UnitCommand};
use skirmish::game::{
    engine_step, move_marker_expired, projectile_expired, EngineVisibility, GlobalVars,
    PlayerInput, SpawnSide, MAX_UNITS,
};
use skirmish::timer::{
    GameTimer, CLICK_DELAY_NS, ENGINE_HIDE_NS, MOVE_MARKER_LIFETIME_NS, PROJECTILE_LIFETIME_NS,
    SPAWN_INTERVAL_NS,
};

fn cursor() -> Point {
    Point { x_bits: 10.0f32.to_bits(), y_bits: (-2.0f32).to_bits() }
}

fn press(right: bool, e: bool, middle: bool) -> PlayerInput {
    PlayerInput { right_pressed: right, e_pressed: e, middle_just_pressed: middle }
}

#[test]
fn globals_start_empty_and_ready() {
    let g = GlobalVars::new();
    assert_eq!(g.unit_count(), 0);
    assert!(g.click_repeat());
}

#[test]
fn deaths_never_go_below_zero() {
    let mut g = GlobalVars::new();
    g.record_death();
    assert_eq!(g.unit_count(), 0);
}

#[test]
fn spawning_stops_at_the_cap() {
    let mut g = GlobalVars::new();
    let mut t = GameTimer::spawn_interval();
    assert_eq!(g.spawn_step(&mut t, SPAWN_INTERVAL_NS - 1), None);
    assert_eq!(g.unit_count(), 0);
    let mut spawned = 0;
    for _ in 0..15 {
        if g.spawn_step(&mut t, SPAWN_INTERVAL_NS).is_some() {
            spawned += 1;
        }
        assert!(g.unit_count() <= MAX_UNITS);
    }
    assert_eq!(spawned, 10);
    assert_eq!(g.unit_count(), MAX_UNITS);
    // A death makes room for exactly one more.
    g.record_death();
    assert_eq!(g.unit_count(), MAX_UNITS - 1);
    assert!(g.spawn_step(&mut t, SPAWN_INTERVAL_NS).is_some());
    assert_eq!(g.unit_count(), MAX_UNITS);
    assert!(g.spawn_step(&mut t, SPAWN_INTERVAL_NS).is_none());
}

#[test]
fn spawn_then_death_restores_the_count() {
    let mut g = GlobalVars::new();
    let mut t = GameTimer::spawn_interval();
    assert!(g.spawn_step(&mut t, SPAWN_INTERVAL_NS).is_some());
    assert!(g.spawn_step(&mut t, SPAWN_INTERVAL_NS).is_some());
    assert_eq!(g.unit_count(), 2);
    assert!(g.spawn_step(&mut t, SPAWN_INTERVAL_NS).is_some());
    g.record_death();
    assert_eq!(g.unit_count(), 2);
}

#[test]
fn spawn_sides_follow_the_roll() {
    assert_eq!(SpawnSide::from_roll(0), SpawnSide::Top);
    assert_eq!(SpawnSide::from_roll(1), SpawnSide::Bottom);
    assert_eq!(SpawnSide::from_roll(2), SpawnSide::Left);
    assert_eq!(SpawnSide::from_roll(3), SpawnSide::Right);
    assert_eq!(SpawnSide::from_roll(17), SpawnSide::Right);
}

#[test]
fn a_click_moves_the_player_and_waits_for_the_delay() {
    let mut g = GlobalVars::new();
    let out = g.player_input(press(true, false, false), cursor(), &vec![]);
    assert!(out.place_marker);
    assert_eq!(out.command, Some(UnitCommand::MoveTo(cursor())));
    assert!(!out.player_dies);
    assert!(!g.click_repeat());
    // Holding the button does nothing until the click delay runs out.
    let out = g.player_input(press(true, true, false), cursor(), &vec![]);
    assert!(!out.place_marker);
    assert_eq!(out.command, None);
    let mut delay = GameTimer::click_delay();
    g.click_delay_step(&mut delay, CLICK_DELAY_NS - 1);
    assert!(!g.click_repeat());
    g.click_delay_step(&mut delay, 1);
    assert!(g.click_repeat());
    let out = g.player_input(press(false, true, false), cursor(), &vec![]);
    assert!(out.place_marker);
}

#[test]
fn a_click_on_enemies_attacks_the_nearest() {
    let mut g = GlobalVars::new();
    let c = vec![
        ClickCandidate { entity: EntityId { bits: 1 }, distance_bits: 12.0f32.to_bits() },
        ClickCandidate { entity: EntityId { bits: 2 }, distance_bits: 4.0f32.to_bits() },
        ClickCandidate { entity: EntityId { bits: 3 }, distance_bits: 4.0f32.to_bits() },
    ];
    let out = g.player_input(press(false, true, false), cursor(), &c);
    assert_eq!(out.command, Some(UnitCommand::Attack(EntityId { bits: 2 })));
}

#[test]
fn middle_click_kills_the_player() {
    let mut g = GlobalVars::new();
    let out = g.player_input(press(false, false, true), cursor(), &vec![]);
    assert!(out.player_dies);
    assert!(!out.place_marker);
    assert_eq!(out.command, None);
    assert!(g.click_repeat());
    assert_eq!(g.unit_count(), 0);
}

#[test]
fn engines_hide_after_the_unit_stops() {
    let mut t = GameTimer::engine_hide();
    assert_eq!(engine_step(&mut t, true, 5), Some(EngineVisibility::Visible));
    assert_eq!(t.state().elapsed_ns, 0);
    assert_eq!(engine_step(&mut t, false, ENGINE_HIDE_NS / 2), None);
    assert_eq!(engine_step(&mut t, true, 5), Some(EngineVisibility::Visible));
    assert_eq!(engine_step(&mut t, false, ENGINE_HIDE_NS - 1), None);
    assert_eq!(engine_step(&mut t, false, 1), Some(EngineVisibility::Hidden));
    assert_eq!(engine_step(&mut t, false, ENGINE_HIDE_NS), None);
}

#[test]
fn projectiles_expire_after_their_lifetime() {
    let mut t = GameTimer::projectile_life();
    assert!(!projectile_expired(&mut t, PROJECTILE_LIFETIME_NS - 1));
    assert!(projectile_expired(&mut t, 1));
    assert!(projectile_expired(&mut t, 1));
}

#[test]
fn move_markers_go_away_once() {
    let mut t = GameTimer::move_marker();
    assert!(!move_marker_expired(&mut t, MOVE_MARKER_LIFETIME_NS - 1));
    assert!(move_marker_expired(&mut t, 2));
    assert!(!move_marker_expired(&mut t, 2));
}

#[test]
fn projectile_goes_at_the_first_frame_that_uses_up_its_life() {
    let frames: [u64; 6] = [16_666_667, 500_000_000, 700_000_000, 783_333_332, 1, 5];
    let mut t = GameTimer::projectile_life();
    let mut sum = 0u64;
    for d in frames {
        sum += d;
        assert_eq!(projectile_expired(&mut t, d), sum >= PROJECTILE_LIFETIME_NS);
    }
}

#[test]
fn engine_hides_only_after_enough_stillness_since_the_last_move() {
    let frames: [(bool, u64); 8] = [
        (false, 300_000_000),
        (false, 300_000_000),
        (true, 16_000_000),
        (false, 400_000_000),
        (false, 400_000_011),
        (false, 1),
        (false, 1),
        (true, 1),
    ];
    let mut t = GameTimer::engine_hide();
    let mut still = 0u64;
    for (moving, d) in frames {
        let v = engine_step(&mut t, moving, d);
        if moving {
            still = 0;
            assert_eq!(v, Some(EngineVisibility::Visible));
        } else {
            let before = still;
            still += d;
            let hides = before < ENGINE_HIDE_NS && ENGINE_HIDE_NS <= still;
            assert_eq!(v == Some(EngineVisibility::Hidden), hides);
        }
    }
}
