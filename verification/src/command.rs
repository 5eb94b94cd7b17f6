use vstd::prelude::*;

verus! {

/// A unit of the game world, by the bits of its ECS entity.
#[derive(Clone, Copy, Debug, PartialEq, Eq, Structural)]
pub struct EntityId {
    pub bits: u64,
}

/// A point of the game world, by the bit patterns of its two `f32`
/// coordinates. The library carries points and never computes on them.
#[derive(Clone, Copy, Debug, PartialEq, Eq, Structural)]
pub struct Point {
    pub x_bits: u32,
    pub y_bits: u32,
}

/// What a unit has been told to do.
#[derive(Clone, Copy, Debug, PartialEq, Eq, Structural)]
pub enum UnitCommand {
    /// Stand still.
    Idle,
    /// Travel to a point.
    MoveTo(Point),
    /// Close in on another unit and shoot at it.
    Attack(EntityId),
}

impl Default for UnitCommand {
    fn default() -> (c: UnitCommand)
        ensures
            c == UnitCommand::Idle,
    {
        UnitCommand::Idle
    }
}

/// What a command makes a unit turn and travel toward.
#[derive(Clone, Copy, Debug, PartialEq, Eq, Structural)]
pub enum CommandTarget {
    /// A fixed point.
    Position(Point),
    /// Wherever another unit is.
    Unit(EntityId),
}

impl UnitCommand {
    /// The target of the command: none for an idle unit.
    pub fn target(&self) -> (t: Option<CommandTarget>)
        ensures
            t == (match *self {
                UnitCommand::Idle => None,
                UnitCommand::MoveTo(p) => Some(CommandTarget::Position(p)),
                UnitCommand::Attack(e) => Some(CommandTarget::Unit(e)),
            }),
    {
        match *self {
            UnitCommand::Idle => None,
            UnitCommand::MoveTo(p) => Some(CommandTarget::Position(p)),
            UnitCommand::Attack(e) => Some(CommandTarget::Unit(e)),
        }
    }

    /// An enemy unit looks for a new destination only when it is idle and
    /// not near the player.
    pub fn needs_new_destination(&self, near_player: bool) -> (b: bool)
        ensures
            b == (*self == UnitCommand::Idle && !near_player),
    {
        match *self {
            UnitCommand::Idle => !near_player,
            _ => false,
        }
    }
}

/// The place of an `f32` in the total order of `f32::total_cmp`, from its
/// bit pattern: non-negative values keep their bits, negative ones count
/// down from -1 as their magnitude grows.
pub open spec fn total_order_key(bits: u32) -> int {
    if bits < 0x8000_0000 {
        bits as int
    } else {
        0x7FFF_FFFF - bits
    }
}

/// `total_order_key`, computed.
pub fn total_order_key_of(bits: u32) -> (k: i64)
    ensures
        k == total_order_key(bits),
{
    if bits < 0x8000_0000 {
        bits as i64
    } else {
        0x7FFF_FFFFi64 - (bits as i64)
    }
}

/// A unit under the cursor, with the bits of its `f32` distance to it.
#[derive(Clone, Copy, Debug, PartialEq, Eq, Structural)]
pub struct ClickCandidate {
    pub entity: EntityId,
    pub distance_bits: u32,
}

/// Candidate `i` is nearest, and no candidate before it is as near.
pub open spec fn is_first_nearest(c: Seq<ClickCandidate>, i: int) -> bool {
    &&& 0 <= i < c.len()
    &&& forall|j: int|
        0 <= j < c.len() ==> total_order_key(c[i].distance_bits) <= total_order_key(
            #[trigger] c[j].distance_bits,
        )
    &&& forall|j: int|
        0 <= j < i ==> total_order_key(c[i].distance_bits) < total_order_key(
            #[trigger] c[j].distance_bits,
        )
}

/// The index of the nearest candidate under the total order of `f32`
/// distances, the first one where several are equally near; none when
/// there are no candidates.
pub fn nearest_candidate(candidates: &Vec<ClickCandidate>) -> (r: Option<usize>)
    ensures
        r is None <==> candidates@.len() == 0,
        r matches Some(i) ==> is_first_nearest(candidates@, i as int),
        // Among distances that are not negative, the one picked is no
        // greater than any other and strictly below every earlier one.
        r matches Some(i) ==> forall|j: int|
            0 <= j < candidates@.len() && candidates@[i as int].distance_bits < 0x8000_0000
                && #[trigger] candidates@[j].distance_bits < 0x8000_0000 ==> candidates@[i as int].distance_bits
                <= candidates@[j].distance_bits,
        r matches Some(i) ==> forall|j: int|
            0 <= j < i && candidates@[i as int].distance_bits < 0x8000_0000
                && #[trigger] candidates@[j].distance_bits < 0x8000_0000 ==> candidates@[i as int].distance_bits
                < candidates@[j].distance_bits,
{
    if candidates.len() == 0 {
        return None;
    }
    let mut best: usize = 0;
    let mut best_key: i64 = total_order_key_of(candidates[0].distance_bits);
    let mut i: usize = 1;
    while i < candidates.len()
        invariant
            1 <= i <= candidates@.len(),
            best < i,
            best_key == total_order_key(candidates@[best as int].distance_bits),
            forall|j: int|
                0 <= j < i ==> best_key <= total_order_key(#[trigger] candidates@[j].distance_bits),
            forall|j: int|
                0 <= j < best ==> best_key < total_order_key(#[trigger] candidates@[j].distance_bits),
        decreases candidates@.len() - i,
    {
        let k = total_order_key_of(candidates[i].distance_bits);
        if k < best_key {
            best = i;
            best_key = k;
        }
        i = i + 1;
    }
    Some(best)
}

/// What a unit's movement needs to know of the world, measured toward the
/// target of its command.
#[derive(Clone, Copy, Debug, PartialEq, Eq, Structural)]
pub struct MovementView {
    /// The unit it attacks still exists and is not dying.
    pub target_found: bool,
    /// The target is within attack range (squared distance at most the
    /// squared range).
    pub within_attack_range: bool,
    /// The unit is at its destination (squared distance at most 4).
    pub arrived: bool,
    /// The unit faces its target.
    pub facing: bool,
    /// The target is as good as on top of the unit (squared distance at
    /// most 0.0001).
    pub negligible: bool,
}

/// Whether a unit moves this frame.
#[derive(Clone, Copy, Debug, PartialEq, Eq, Structural)]
pub enum Motion {
    /// Velocity zero.
    Stop,
    /// Full speed toward the target.
    Advance,
}

/// A unit advances when it has somewhere to go (a destination it has not
/// reached, or a living target out of attack range), faces it, and it is
/// not on top of it.
pub open spec fn advances(cmd: UnitCommand, seen: MovementView) -> bool {
    &&& match cmd {
        UnitCommand::Idle => false,
        UnitCommand::MoveTo(_) => !seen.arrived,
        UnitCommand::Attack(_) => seen.target_found && !seen.within_attack_range,
    }
    &&& seen.facing
    &&& !seen.negligible
}

/// A command is done when its destination is reached or the unit it
/// attacks is gone.
pub open spec fn movement_ends_command(cmd: UnitCommand, seen: MovementView) -> bool {
    match cmd {
        UnitCommand::Idle => false,
        UnitCommand::MoveTo(_) => seen.arrived,
        UnitCommand::Attack(_) => !seen.target_found,
    }
}

/// Decides a unit's motion for this frame; a command that is done turns
/// into `Idle`.
pub fn movement_step(cmd: &mut UnitCommand, seen: MovementView) -> (m: Motion)
    ensures
        m == Motion::Advance <==> advances(*old(cmd), seen),
        *final(cmd) == if movement_ends_command(*old(cmd), seen) {
            UnitCommand::Idle
        } else {
            *old(cmd)
        },
        *old(cmd) is MoveTo && seen.facing && !seen.arrived && !seen.negligible ==> m
            == Motion::Advance,
        *old(cmd) is MoveTo && seen.arrived ==> *final(cmd) == UnitCommand::Idle && m
            == Motion::Stop,
        *old(cmd) is Attack && !seen.target_found ==> *final(cmd) == UnitCommand::Idle && m
            == Motion::Stop,
        *old(cmd) is Attack && seen.within_attack_range ==> m == Motion::Stop,
        !seen.facing || seen.negligible ==> m == Motion::Stop,
        *final(cmd) == *old(cmd) || *final(cmd) == UnitCommand::Idle,
{
    match *cmd {
        UnitCommand::Idle => {
            return Motion::Stop;
        },
        UnitCommand::MoveTo(_) => {
            if seen.arrived {
                *cmd = UnitCommand::Idle;
                return Motion::Stop;
            }
        },
        UnitCommand::Attack(_) => {
            if !seen.target_found {
                *cmd = UnitCommand::Idle;
                return Motion::Stop;
            }
            if seen.within_attack_range {
                return Motion::Stop;
            }
        },
    }
    if !seen.facing {
        return Motion::Stop;
    }
    if seen.negligible {
        Motion::Stop
    } else {
        Motion::Advance
    }
}

/// What an attacking unit needs to know of the world.
#[derive(Clone, Copy, Debug, PartialEq, Eq, Structural)]
pub struct AttackView {
    /// The unit it attacks still exists.
    pub target_found: bool,
    /// That unit is dying.
    pub target_dying: bool,
    /// The distance to it is at most the attacker's range.
    pub in_range: bool,
    /// The attacker faces it.
    pub facing: bool,
    /// The attacker's weapon is still cooling down.
    pub cooling_down: bool,
    /// The target is as good as on top of the attacker (squared distance at
    /// most 0.0001).
    pub negligible: bool,
}

/// An attacker fires at a unit that exists and is not dying, in range,
/// faced, when its weapon is ready and the target is not on top of it.
pub open spec fn fires(cmd: UnitCommand, seen: AttackView) -> bool {
    &&& cmd is Attack
    &&& seen.target_found
    &&& !seen.target_dying
    &&& seen.in_range
    &&& seen.facing
    &&& !seen.cooling_down
    &&& !seen.negligible
}

/// Decides whether an attacker fires this frame; an attack on a unit that
/// is gone or dying turns into `Idle`.
pub fn attack_step(cmd: &mut UnitCommand, seen: AttackView) -> (fire: bool)
    ensures
        fire == fires(*old(cmd), seen),
        *final(cmd) == if *old(cmd) is Attack && (!seen.target_found || seen.target_dying) {
            UnitCommand::Idle
        } else {
            *old(cmd)
        },
        !seen.in_range || seen.cooling_down || !seen.facing || seen.negligible ==> !fire,
        !seen.target_found || seen.target_dying || !(*old(cmd) is Attack) ==> !fire,
        *old(cmd) is Attack && seen.target_found && !seen.target_dying && seen.in_range
            && seen.facing && !seen.cooling_down && !seen.negligible ==> fire,
{
    match *cmd {
        UnitCommand::Attack(_) => {},
        _ => {
            return false;
        },
    }
    if !seen.target_found || seen.target_dying {
        *cmd = UnitCommand::Idle;
        return false;
    }
    seen.in_range && seen.facing && !seen.cooling_down && !seen.negligible
}

/// `total_order_key` orders bit patterns as `f32::total_cmp` orders the
/// floats they encode (IEEE 754 total order): among values with the sign bit
/// clear, larger bits are larger values; among values with the sign bit
/// set, larger bits are smaller values; every value with the sign bit set
/// comes before every value with it clear; and distinct bit patterns never
/// compare equal.
pub proof fn law_total_order_key_orders_floats(a: u32, b: u32)
    ensures
        a < 0x8000_0000 && b < 0x8000_0000 ==> (total_order_key(a) < total_order_key(b) <==> a < b),
        a >= 0x8000_0000 && b >= 0x8000_0000 ==> (total_order_key(a) < total_order_key(b) <==> a
            > b),
        a >= 0x8000_0000 && b < 0x8000_0000 ==> total_order_key(a) < total_order_key(b),
        total_order_key(a) == total_order_key(b) <==> a == b,
{
}

/// For a move order, a unit that faces its destination, has not reached
/// it and is not on top of it advances, whatever the attack-range and
/// target-found readings are; a move order that has arrived is done,
/// whatever the facing and distance readings are.
pub proof fn law_move_order_travels_until_arrival(p: Point, seen: MovementView)
    ensures
        seen.facing && !seen.arrived && !seen.negligible ==> advances(UnitCommand::MoveTo(p), seen),
        seen.arrived ==> movement_ends_command(UnitCommand::MoveTo(p), seen) && !advances(
            UnitCommand::MoveTo(p),
            seen,
        ),
        !seen.arrived ==> !movement_ends_command(UnitCommand::MoveTo(p), seen),
{
}

/// For an attack order, a lost target ends the order and stops the unit,
/// whatever the facing and distance readings are; a living target within
/// attack range stops the unit but keeps the order; a living target out of
/// range, faced and not on top of the unit, is closed in on.
pub proof fn law_attack_order_closes_in(e: EntityId, seen: MovementView)
    ensures
        !seen.target_found ==> movement_ends_command(UnitCommand::Attack(e), seen) && !advances(
            UnitCommand::Attack(e),
            seen,
        ),
        seen.target_found ==> !movement_ends_command(UnitCommand::Attack(e), seen),
        seen.within_attack_range ==> !advances(UnitCommand::Attack(e), seen),
        seen.target_found && !seen.within_attack_range && seen.facing && !seen.negligible
            ==> advances(UnitCommand::Attack(e), seen),
{
}

/// An attacker fires only at a target in range and only with a ready
/// weapon, and it does fire whenever its order is an attack on a living
/// target that is in range, faced and not on top of it, with its weapon
/// ready.
pub proof fn law_fire_needs_range_and_ready_weapon(cmd: UnitCommand, seen: AttackView)
    ensures
        !seen.in_range ==> !fires(cmd, seen),
        seen.cooling_down ==> !fires(cmd, seen),
        !seen.target_found || seen.target_dying ==> !fires(cmd, seen),
        cmd is Attack && seen.target_found && !seen.target_dying && seen.in_range && seen.facing
            && !seen.cooling_down && !seen.negligible ==> fires(cmd, seen),
{
}

/// At most one candidate is the first nearest, so `nearest_candidate`
/// names a single one.
pub proof fn law_first_nearest_is_unique(c: Seq<ClickCandidate>, i: int, j: int)
    requires
        is_first_nearest(c, i),
        is_first_nearest(c, j),
    ensures
        i == j,
{
    if i < j {
        assert(total_order_key(c[j].distance_bits) < total_order_key(c[i].distance_bits));
    } else if j < i {
        assert(total_order_key(c[i].distance_bits) < total_order_key(c[j].distance_bits));
    }
}

/// An idle unit neither moves, nor shoots, nor changes its command.
pub proof fn law_idle_unit_holds_still(moving: MovementView, attacking: AttackView)
    ensures
        !advances(UnitCommand::Idle, moving),
        !movement_ends_command(UnitCommand::Idle, moving),
        !fires(UnitCommand::Idle, attacking),
{
}

/// A unit that does not face its target neither moves nor shoots.
pub proof fn law_unit_must_face_target(cmd: UnitCommand, moving: MovementView, attacking: AttackView)
    requires
        !moving.facing,
        !attacking.facing,
    ensures
        !advances(cmd, moving),
        !fires(cmd, attacking),
{
}

/// A unit never moves onto and never shoots at a target on top of it.
pub proof fn law_no_action_at_zero_distance(cmd: UnitCommand, moving: MovementView, attacking: AttackView)
    requires
        moving.negligible,
        attacking.negligible,
    ensures
        !advances(cmd, moving),
        !fires(cmd, attacking),
{
}

} // verus!
