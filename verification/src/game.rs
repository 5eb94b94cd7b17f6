use vstd::prelude::*;
use crate::command::{nearest_candidate, is_first_nearest, ClickCandidate, Point, UnitCommand};
use crate::timer::{
    law_once_timer_finishes_when_sum_reaches_duration, reset_state, sum_ns, ticked, ticked_all,
    GameTimer, TimerMode, TimerState, ENGINE_HIDE_NS, PROJECTILE_LIFETIME_NS,
};

verus! {

/// The most enemy units that may be alive at once.
pub const MAX_UNITS: u32 = 10;

/// The count of enemy units after one death is reported: one less, but
/// never below zero.
pub open spec fn count_after_death(count: u32) -> u32 {
    if count == 0 {
        0
    } else {
        (count - 1) as u32
    }
}

/// A death reported after a spawn brings the count of enemy units back to
/// what it was before the spawn.
pub proof fn law_death_undoes_spawn(count: u32)
    requires
        count < MAX_UNITS,
    ensures
        count_after_death((count + 1) as u32) == count,
{
}

/// The game's global counters: how many enemy units are alive, and
/// whether a held button may issue a new command.
pub struct GlobalVars {
    unit_count: u32,
    click_repeat: bool,
    /// The value drawn for the side of the latest spawn (proof only).
    spawn_roll: Ghost<usize>,
}

impl GlobalVars {
    #[verifier::type_invariant]
    spec fn inv(self) -> bool {
        self.unit_count <= MAX_UNITS
    }

    /// How many enemy units are alive.
    pub closed spec fn count(self) -> u32 {
        self.unit_count
    }

    /// Whether a held button may issue a new command.
    pub closed spec fn repeat_ready(self) -> bool {
        self.click_repeat
    }

    /// The value drawn, below 4, for the side of the latest spawn.
    pub closed spec fn last_spawn_roll(self) -> usize {
        self.spawn_roll@
    }

    /// No units yet, and a click is welcome.
    pub fn new() -> (g: GlobalVars)
        ensures
            g.count() == 0,
            g.repeat_ready(),
    {
        GlobalVars { unit_count: 0, click_repeat: true, spawn_roll: Ghost(0) }
    }

    /// How many enemy units are alive; never more than `MAX_UNITS`.
    pub fn unit_count(&self) -> (c: u32)
        ensures
            c == self.count(),
            c <= MAX_UNITS,
    {
        proof {
            use_type_invariant(self);
        }
        self.unit_count
    }

    /// Whether a held button may issue a new command.
    pub fn click_repeat(&self) -> (b: bool)
        ensures
            b == self.repeat_ready(),
    {
        self.click_repeat
    }

    /// One death was reported.
    pub fn record_death(&mut self)
        ensures
            final(self).count() == count_after_death(old(self).count()),
            final(self).repeat_ready() == old(self).repeat_ready(),
            final(self).count() <= MAX_UNITS,
    {
        proof {
            use_type_invariant(&*self);
        }
        self.unit_count = self.unit_count.saturating_sub(1);
    }

    /// Advances the click delay; each time it runs out, a held button may
    /// issue a new command again.
    pub fn click_delay_step(&mut self, delay: &mut GameTimer, delta_ns: u64)
        ensures
            final(delay)@ == ticked(old(delay)@, delta_ns),
            final(self).repeat_ready() == (old(self).repeat_ready() || final(delay)@.just_finished()),
            final(self).count() == old(self).count(),
    {
        proof {
            use_type_invariant(&*self);
        }
        delay.tick(delta_ns);
        if delay.just_finished() {
            self.click_repeat = true;
        }
    }

    /// Advances the spawn timer. When it runs out and fewer than
    /// `MAX_UNITS` enemies are alive, a new enemy is counted and the side of
    /// the screen it comes from is drawn at random.
    pub fn spawn_step(&mut self, spawn_timer: &mut GameTimer, delta_ns: u64) -> (side: Option<SpawnSide>)
        ensures
            final(spawn_timer)@ == ticked(old(spawn_timer)@, delta_ns),
            side is Some <==> (final(spawn_timer)@.just_finished() && old(self).count() < MAX_UNITS),
            final(self).count() == if side is Some {
                (old(self).count() + 1) as u32
            } else {
                old(self).count()
            },
            final(self).count() <= MAX_UNITS,
            final(self).repeat_ready() == old(self).repeat_ready(),
            side matches Some(s) ==> final(self).last_spawn_roll() < 4 && s == side_for_roll(
                final(self).last_spawn_roll(),
            ),
            side is None ==> final(self).last_spawn_roll() == old(self).last_spawn_roll(),
    {
        proof {
            use_type_invariant(&*self);
        }
        spawn_timer.tick(delta_ns);
        if !spawn_timer.just_finished() {
            return None;
        }
        if self.unit_count >= MAX_UNITS {
            return None;
        }
        let roll = random_below(4);
        let side = SpawnSide::from_roll(roll);
        self.spawn_roll = Ghost(roll);
        self.unit_count = self.unit_count + 1;
        Some(side)
    }

    /// The player's clicks and keys for this frame. A held right button or
    /// E key, when a click is welcome, places a move marker at the cursor,
    /// makes clicks unwelcome until the click delay runs out, and commands
    /// the player's unit: attack the nearest enemy under the cursor if there
    /// is one, else move to the cursor. A middle click kills the player's
    /// unit.
    pub fn player_input(
        &mut self,
        input: PlayerInput,
        cursor: Point,
        candidates: &Vec<ClickCandidate>,
    ) -> (out: PlayerInputOutcome)
        ensures
            out.place_marker == ((input.right_pressed || input.e_pressed) && old(self).repeat_ready()),
            final(self).repeat_ready() == (old(self).repeat_ready() && !out.place_marker),
            final(self).count() == old(self).count(),
            !out.place_marker ==> out.command is None,
            out.place_marker && candidates@.len() == 0 ==> out.command == Some(
                UnitCommand::MoveTo(cursor),
            ),
            out.place_marker && candidates@.len() > 0 ==> exists|i: int|
                is_first_nearest(candidates@, i) && out.command == Some(
                    UnitCommand::Attack(#[trigger] candidates@[i].entity),
                ),
            out.player_dies == input.middle_just_pressed,
    {
        proof {
            use_type_invariant(&*self);
        }
        let mut command = None;
        let place_marker = (input.right_pressed || input.e_pressed) && self.click_repeat;
        if place_marker {
            self.click_repeat = false;
            command = match nearest_candidate(candidates) {
                Some(i) => Some(UnitCommand::Attack(candidates[i].entity)),
                None => Some(UnitCommand::MoveTo(cursor)),
            };
        }
        PlayerInputOutcome { place_marker, command, player_dies: input.middle_just_pressed }
    }
}

/// The buttons and keys that command the player's unit.
#[derive(Clone, Copy, Debug, PartialEq, Eq, Structural)]
pub struct PlayerInput {
    /// The right mouse button is held.
    pub right_pressed: bool,
    /// The E key is held.
    pub e_pressed: bool,
    /// The middle mouse button went down this frame.
    pub middle_just_pressed: bool,
}

/// What the player's input does this frame.
#[derive(Clone, Copy, Debug, PartialEq, Eq, Structural)]
pub struct PlayerInputOutcome {
    /// A move marker appears at the cursor.
    pub place_marker: bool,
    /// The new command of the player's unit, if it gets one.
    pub command: Option<UnitCommand>,
    /// The player's unit starts dying and a death is reported.
    pub player_dies: bool,
}

/// The side of the screen a new enemy comes in from.
#[derive(Clone, Copy, Debug, PartialEq, Eq, Structural)]
pub enum SpawnSide {
    Top,
    Bottom,
    Left,
    Right,
}

/// The side for a roll: 0 top, 1 bottom, 2 left, anything else right.
pub open spec fn side_for_roll(roll: usize) -> SpawnSide {
    if roll == 0 {
        SpawnSide::Top
    } else if roll == 1 {
        SpawnSide::Bottom
    } else if roll == 2 {
        SpawnSide::Left
    } else {
        SpawnSide::Right
    }
}

/// The four rolls below 4 give four different sides, so every side of the
/// screen is the side of exactly one roll, and spawns come from all four.
pub proof fn law_each_side_has_one_roll(a: usize, b: usize, side: SpawnSide)
    requires
        a < 4,
        b < 4,
    ensures
        side_for_roll(a) == side_for_roll(b) ==> a == b,
        exists|r: usize| r < 4 && #[trigger] side_for_roll(r) == side,
{
    match side {
        SpawnSide::Top => assert(side_for_roll(0) == side),
        SpawnSide::Bottom => assert(side_for_roll(1) == side),
        SpawnSide::Left => assert(side_for_roll(2) == side),
        SpawnSide::Right => assert(side_for_roll(3) == side),
    }
}

impl SpawnSide {
    /// The side for a roll: 0 top, 1 bottom, 2 left, anything else right.
    pub fn from_roll(roll: usize) -> (s: SpawnSide)
        ensures
            s == (if roll == 0 {
                SpawnSide::Top
            } else if roll == 1 {
                SpawnSide::Bottom
            } else if roll == 2 {
                SpawnSide::Left
            } else {
                SpawnSide::Right
            }),
            s == side_for_roll(roll),
    {
        match roll {
            0 => SpawnSide::Top,
            1 => SpawnSide::Bottom,
            2 => SpawnSide::Left,
            _ => SpawnSide::Right,
        }
    }
}

/// Calls `fastrand::usize(0..n)`, which draws from fastrand's thread-local
/// generator. The contract claims only what holds of every draw: the result
/// is below `n`. `n` must be positive, or fastrand panics on the empty
/// range.
#[verifier::external_body]
fn random_below(n: usize) -> (r: usize)
    requires
        n > 0,
    ensures
        r < n,
{
    fastrand::usize(0..n)
}

/// Whether an engine flame is drawn.
#[derive(Clone, Copy, Debug, PartialEq, Eq, Structural)]
pub enum EngineVisibility {
    Visible,
    Hidden,
}

/// An engine flame for this frame: a moving unit shows it and starts the
/// hide timer over; a stopped unit's timer runs, and the flame is hidden
/// when it runs out. `None` leaves the visibility as it was.
pub fn engine_step(hide_timer: &mut GameTimer, moving: bool, delta_ns: u64) -> (v: Option<EngineVisibility>)
    ensures
        moving ==> final(hide_timer)@ == reset_state(old(hide_timer)@) && v == Some(
            EngineVisibility::Visible,
        ),
        !moving ==> final(hide_timer)@ == ticked(old(hide_timer)@, delta_ns) && v == (
        if final(hide_timer)@.just_finished() {
            Some(EngineVisibility::Hidden)
        } else {
            None
        }),
{
    if moving {
        hide_timer.reset();
        Some(EngineVisibility::Visible)
    } else {
        hide_timer.tick(delta_ns);
        if hide_timer.just_finished() {
            Some(EngineVisibility::Hidden)
        } else {
            None
        }
    }
}

/// Advances a projectile's life timer; true when the projectile is done and
/// goes away.
pub fn projectile_expired(life: &mut GameTimer, delta_ns: u64) -> (done: bool)
    ensures
        final(life)@ == ticked(old(life)@, delta_ns),
        done == final(life)@.finished,
{
    life.tick(delta_ns);
    life.is_finished()
}

/// Advances a move marker's timer; true on the tick it runs out, when the
/// marker goes away.
pub fn move_marker_expired(timer: &mut GameTimer, delta_ns: u64) -> (done: bool)
    ensures
        final(timer)@ == ticked(old(timer)@, delta_ns),
        done == final(timer)@.just_finished(),
{
    timer.tick(delta_ns);
    timer.just_finished()
}

/// A projectile ticked by the frame lengths `ds`, from a fresh life timer,
/// is gone after the first `k` frames exactly when those frames add up to
/// its lifetime: `projectile_expired` answers true at the first frame whose
/// running sum reaches 2 s, and at every frame after it, and never before.
pub proof fn law_projectile_expires_when_lifetime_is_used(ds: Seq<u64>)
    ensures
        forall|k: int|
            0 <= k <= ds.len() ==> (#[trigger] ticked_all(
                GameTimer::fresh(PROJECTILE_LIFETIME_NS, TimerMode::Once),
                ds.take(k),
            ).finished <==> sum_ns(ds.take(k)) >= PROJECTILE_LIFETIME_NS),
{
    let s = GameTimer::fresh(PROJECTILE_LIFETIME_NS, TimerMode::Once);
    assert forall|k: int| 0 <= k <= ds.len() implies (#[trigger] ticked_all(s, ds.take(k)).finished
        <==> sum_ns(ds.take(k)) >= PROJECTILE_LIFETIME_NS) by {
        law_once_timer_finishes_when_sum_reaches_duration(s, ds.take(k));
    }
}

/// The hide timer of an engine after a run of frames: in each frame the
/// unit moved or not (`moves`), and the frame lasted `ds` nanoseconds. This
/// is what `engine_step` does to the timer frame by frame.
pub open spec fn engine_run(s: TimerState, moves: Seq<bool>, ds: Seq<u64>) -> TimerState
    decreases moves.len(),
{
    if moves.len() == 0 || ds.len() == 0 {
        s
    } else {
        let prev = engine_run(s, moves.drop_last(), ds.drop_last());
        if moves.last() {
            reset_state(prev)
        } else {
            ticked(prev, ds.last())
        }
    }
}

/// The unit moved in some frame of the run.
pub open spec fn moved_in(moves: Seq<bool>) -> bool {
    exists|i: int| 0 <= i < moves.len() && moves[i]
}

/// The lengths of the frames since the unit last moved (all of them if it
/// never moved).
pub open spec fn still_frames(moves: Seq<bool>, ds: Seq<u64>) -> Seq<u64>
    decreases moves.len(),
{
    if moves.len() == 0 || ds.len() == 0 {
        Seq::empty()
    } else if moves.last() {
        Seq::empty()
    } else {
        still_frames(moves.drop_last(), ds.drop_last()).push(ds.last())
    }
}

/// Over a run of frames, the hide timer is the one started over at the
/// unit's last move (or the initial one, if it never moved) and ticked by
/// each frame since.
proof fn lemma_engine_run_restarts(s: TimerState, moves: Seq<bool>, ds: Seq<u64>)
    requires
        moves.len() == ds.len(),
    ensures
        engine_run(s, moves, ds) == ticked_all(
            if moved_in(moves) {
                reset_state(s)
            } else {
                s
            },
            still_frames(moves, ds),
        ),
    decreases moves.len(),
{
    if moves.len() > 0 {
        let pm = moves.drop_last();
        let pd = ds.drop_last();
        lemma_engine_run_restarts(s, pm, pd);
        lemma_engine_run_keeps_kind(s, pm, pd);
        if moves.last() {
            assert(moved_in(moves)) by {
                assert(moves[moves.len() - 1]);
            }
        } else {
            assert(moved_in(moves) == moved_in(pm)) by {
                if moved_in(moves) {
                    let i = choose|i: int| 0 <= i < moves.len() && moves[i];
                    assert(pm[i]);
                }
                if moved_in(pm) {
                    let i = choose|i: int| 0 <= i < pm.len() && pm[i];
                    assert(moves[i]);
                }
            }
            let t = still_frames(moves, ds);
            assert(t.drop_last() =~= still_frames(pm, pd));
        }
    }
}

/// Over a run of frames the hide timer keeps its duration and mode.
proof fn lemma_engine_run_keeps_kind(s: TimerState, moves: Seq<bool>, ds: Seq<u64>)
    ensures
        engine_run(s, moves, ds).duration_ns == s.duration_ns,
        engine_run(s, moves, ds).mode == s.mode,
    decreases moves.len(),
{
    if moves.len() > 0 && ds.len() > 0 {
        lemma_engine_run_keeps_kind(s, moves.drop_last(), ds.drop_last());
    }
}

/// An engine that starts with a fresh hide timer is hidden in the last
/// frame of a run exactly when the unit stood still in that frame and in
/// every frame since it last moved (or since the start), and those frames
/// first add up to the hide time (0.8 s) in that last frame. In a frame in
/// which the unit moves, the engine is shown and the timer starts over
/// (see `engine_step`).
pub proof fn law_engine_hides_after_stillness(moves: Seq<bool>, ds: Seq<u64>)
    requires
        moves.len() == ds.len(),
        moves.len() > 0,
    ensures
        ({
            let t = still_frames(moves, ds);
            let run = engine_run(GameTimer::fresh(ENGINE_HIDE_NS, TimerMode::Once), moves, ds);
            &&& moves.last() ==> run == reset_state(GameTimer::fresh(ENGINE_HIDE_NS, TimerMode::Once))
            &&& !moves.last() ==> (run.just_finished() <==> (sum_ns(t.drop_last()) < ENGINE_HIDE_NS
                && ENGINE_HIDE_NS <= sum_ns(t)))
        }),
{
    let s = GameTimer::fresh(ENGINE_HIDE_NS, TimerMode::Once);
    lemma_engine_run_restarts(s, moves, ds);
    let base = if moved_in(moves) {
        reset_state(s)
    } else {
        s
    };
    assert(base == s);
    let t = still_frames(moves, ds);
    law_once_timer_finishes_when_sum_reaches_duration(base, t);
    if !moves.last() {
        assert(t.len() > 0);
    }
}

} // verus!
