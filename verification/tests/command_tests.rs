use skirmish::command::{
    attack_step, movement_step, nearest_candidate, total_order_key_of, AttackView,
    ClickCandidate, CommandTarget, EntityId, Motion, MovementView, Point, UnitCommand,
};

fn point(x: f32, y: f32) -> Point {
    Point { x_bits: x.to_bits(), y_bits: y.to_bits() }
}

fn cand(id: u64, d: f32) -> ClickCandidate {
    ClickCandidate { entity: EntityId { bits: id }, distance_bits: d.to_bits() }
}

fn nearest_by_std(c: &[ClickCandidate]) -> Option<usize> {
    c.iter()
        .enumerate()
        .min_by(|a, b| f32::from_bits(a.1.distance_bits).total_cmp(&f32::from_bits(b.1.distance_bits)))
        .map(|(i, _)| i)
}

#[test]
fn default_command_is_idle() {
    assert_eq!(UnitCommand::default(), UnitCommand::Idle);
}

#[test]
fn command_targets() {
    let p = point(3.0, -4.5);
    let e = EntityId { bits: 42 };
    assert_eq!(UnitCommand::Idle.target(), None);
    assert_eq!(UnitCommand::MoveTo(p).target(), Some(CommandTarget::Position(p)));
    assert_eq!(UnitCommand::Attack(e).target(), Some(CommandTarget::Unit(e)));
}

#[test]
fn only_idle_units_far_from_the_player_get_a_destination() {
    assert!(UnitCommand::Idle.needs_new_destination(false));
    assert!(!UnitCommand::Idle.needs_new_destination(true));
    assert!(!UnitCommand::MoveTo(point(1.0, 1.0)).needs_new_destination(false));
    assert!(!UnitCommand::Attack(EntityId { bits: 1 }).needs_new_destination(false));
}

#[test]
fn total_order_key_orders_like_total_cmp() {
    let values = [
        f32::NEG_INFINITY, -3.5, -1.0, -0.0, 0.0, 1e-30, 1.0, 31.9, 32.0, f32::INFINITY, f32::NAN, -f32::NAN,
    ];
    for a in values {
        for b in values {
            let ours = total_order_key_of(a.to_bits()).cmp(&total_order_key_of(b.to_bits()));
            assert_eq!(ours, a.total_cmp(&b), "{a} vs {b}");
        }
    }
    assert_eq!(total_order_key_of(0), 0);
    assert_eq!(total_order_key_of(0x8000_0000), -1);
    assert_eq!(total_order_key_of(0xFFFF_FFFF), -0x8000_0000);
}

#[test]
fn nearest_candidate_is_the_first_nearest() {
    assert_eq!(nearest_candidate(&vec![]), None);
    let c = vec![cand(1, 20.0), cand(2, 3.5), cand(3, 30.0), cand(4, 3.5)];
    assert_eq!(nearest_candidate(&c), Some(1));
    assert_eq!(nearest_candidate(&c), nearest_by_std(&c));
    let c = vec![cand(7, 0.0), cand(8, -0.0)];
    assert_eq!(nearest_candidate(&c), Some(1));
    assert_eq!(nearest_candidate(&c), nearest_by_std(&c));
    let c = vec![cand(9, 12.0)];
    assert_eq!(nearest_candidate(&c), Some(0));
}

fn moving(target_found: bool, within_attack_range: bool, arrived: bool, facing: bool, negligible: bool) -> MovementView {
    MovementView { target_found, within_attack_range, arrived, facing, negligible }
}

#[test]
fn idle_units_stay_put() {
    let mut c = UnitCommand::Idle;
    assert_eq!(movement_step(&mut c, moving(true, false, false, true, false)), Motion::Stop);
    assert_eq!(c, UnitCommand::Idle);
}

#[test]
fn move_order_advances_until_arrival() {
    let dest = point(100.0, 0.0);
    let mut c = UnitCommand::MoveTo(dest);
    assert_eq!(movement_step(&mut c, moving(false, false, false, true, false)), Motion::Advance);
    assert_eq!(c, UnitCommand::MoveTo(dest));
    assert_eq!(movement_step(&mut c, moving(false, false, false, false, false)), Motion::Stop);
    assert_eq!(c, UnitCommand::MoveTo(dest));
    assert_eq!(movement_step(&mut c, moving(false, false, true, true, false)), Motion::Stop);
    assert_eq!(c, UnitCommand::Idle);
}

#[test]
fn attack_order_closes_in_and_drops_lost_targets() {
    let e = EntityId { bits: 5 };
    let mut c = UnitCommand::Attack(e);
    assert_eq!(movement_step(&mut c, moving(true, false, false, true, false)), Motion::Advance);
    assert_eq!(movement_step(&mut c, moving(true, true, false, true, false)), Motion::Stop);
    assert_eq!(movement_step(&mut c, moving(true, false, true, true, true)), Motion::Stop);
    assert_eq!(c, UnitCommand::Attack(e));
    assert_eq!(movement_step(&mut c, moving(false, false, false, true, false)), Motion::Stop);
    assert_eq!(c, UnitCommand::Idle);
}

fn attacking(target_found: bool, target_dying: bool, in_range: bool, facing: bool, cooling_down: bool, negligible: bool) -> AttackView {
    AttackView { target_found, target_dying, in_range, facing, cooling_down, negligible }
}

#[test]
fn attacks_fire_only_when_everything_lines_up() {
    let e = EntityId { bits: 9 };
    let mut c = UnitCommand::Attack(e);
    assert!(attack_step(&mut c, attacking(true, false, true, true, false, false)));
    assert!(!attack_step(&mut c, attacking(true, false, false, true, false, false)));
    assert!(!attack_step(&mut c, attacking(true, false, true, false, false, false)));
    assert!(!attack_step(&mut c, attacking(true, false, true, true, true, false)));
    assert!(!attack_step(&mut c, attacking(true, false, true, true, false, true)));
    assert_eq!(c, UnitCommand::Attack(e));
    assert!(!attack_step(&mut c, attacking(true, true, true, true, false, false)));
    assert_eq!(c, UnitCommand::Idle);
    let mut c = UnitCommand::Attack(e);
    assert!(!attack_step(&mut c, attacking(false, false, true, true, false, false)));
    assert_eq!(c, UnitCommand::Idle);
    let mut c = UnitCommand::MoveTo(point(1.0, 2.0));
    assert!(!attack_step(&mut c, attacking(false, true, true, true, false, false)));
    assert_eq!(c, UnitCommand::MoveTo(point(1.0, 2.0)));
}
