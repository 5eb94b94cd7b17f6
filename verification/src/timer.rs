use vstd::prelude::*;
use vstd::arithmetic::div_mod::{
    lemma_basic_div, lemma_div_is_ordered, lemma_div_pos_is_pos, lemma_fundamental_div_mod,
    lemma_fundamental_div_mod_converse, lemma_mod_pos_bound, lemma_small_mod,
};

verus! {

/// What a timer does once its duration is reached.
#[derive(Clone, Copy, Debug, PartialEq, Eq, Structural)]
pub enum TimerMode {
    /// Stops at its duration and stays finished until reset.
    Once,
    /// Wraps around and starts counting again.
    Repeating,
}

/// The plain state of a timer, in nanoseconds.
#[derive(Clone, Copy, Debug, PartialEq, Eq, Structural)]
pub struct TimerState {
    pub duration_ns: u64,
    pub elapsed_ns: u64,
    pub mode: TimerMode,
    pub finished: bool,
    pub times_finished_this_tick: u32,
}

impl TimerState {
    /// The states a timer can be in: a positive duration, elapsed time
    /// within it (strictly within it for a repeating timer), and a timer
    /// that runs once is finished exactly when it has reached its duration.
    pub open spec fn wf(self) -> bool {
        &&& self.duration_ns > 0
        &&& self.elapsed_ns <= self.duration_ns
        &&& self.mode == TimerMode::Repeating ==> self.elapsed_ns < self.duration_ns
        &&& self.mode == TimerMode::Once ==> (self.finished <==> self.elapsed_ns == self.duration_ns)
    }

    /// The timer reached its duration during the last tick.
    pub open spec fn just_finished(self) -> bool {
        self.times_finished_this_tick > 0
    }
}

/// What one tick of `delta` nanoseconds leaves in a timer, as
/// (elapsed time, finished, times finished during the tick).
/// A finished timer that runs once does not move; otherwise the elapsed
/// time grows by `delta`; reaching the duration clamps a timer that runs
/// once, and wraps a repeating one, counting the whole durations passed
/// (that count is kept in 32 bits, so it is taken modulo 2^32).
pub open spec fn tick_outcome(duration: u64, elapsed: u64, mode: TimerMode, delta: u64) -> (u64, bool, u32) {
    let total = elapsed + delta;
    if mode == TimerMode::Once && elapsed == duration {
        (elapsed, true, 0u32)
    } else if total < duration {
        (total as u64, false, 0u32)
    } else if mode == TimerMode::Once {
        (duration, true, 1u32)
    } else {
        ((total % (duration as int)) as u64, true, ((total / (duration as int)) % 0x1_0000_0000) as u32)
    }
}

/// The state of a timer after a tick of `delta` nanoseconds.
pub open spec fn ticked(s: TimerState, delta: u64) -> TimerState {
    let o = tick_outcome(s.duration_ns, s.elapsed_ns, s.mode, delta);
    TimerState { elapsed_ns: o.0, finished: o.1, times_finished_this_tick: o.2, ..s }
}

/// The state of a timer after a reset: nothing elapsed, not finished.
pub open spec fn reset_state(s: TimerState) -> TimerState {
    TimerState { elapsed_ns: 0, finished: false, times_finished_this_tick: 0, ..s }
}

/// Calls `bevy::time::Timer::tick` on a timer rebuilt from its plain state
/// and reads the plain state back. The rebuilt timer is first ticked by zero,
/// which puts a timer that runs once and has reached its duration into the
/// finished state. The contract claims what bevy's source of `Timer::tick`
/// does to an unpaused timer: see `tick_outcome`.
#[verifier::external_body]
fn bevy_timer_tick(duration_ns: u64, elapsed_ns: u64, mode: TimerMode, delta_ns: u64) -> (r: (u64, bool, u32))
    requires
        duration_ns > 0,
        elapsed_ns <= duration_ns,
        mode == TimerMode::Repeating ==> elapsed_ns < duration_ns,
    ensures
        r == tick_outcome(duration_ns, elapsed_ns, mode, delta_ns),
{
    let bevy_mode = match mode {
        TimerMode::Once => bevy::time::TimerMode::Once,
        TimerMode::Repeating => bevy::time::TimerMode::Repeating,
    };
    let mut timer = bevy::time::Timer::new(std::time::Duration::from_nanos(duration_ns), bevy_mode);
    timer.set_elapsed(std::time::Duration::from_nanos(elapsed_ns));
    timer.tick(std::time::Duration::ZERO);
    timer.tick(std::time::Duration::from_nanos(delta_ns));
    (timer.elapsed().as_nanos() as u64, timer.is_finished(), timer.times_finished_this_tick())
}

/// Calls `bevy::time::Timer::reset` on a timer rebuilt from its plain state
/// and reads the plain state back. The contract claims what bevy's source
/// shows: nothing elapsed, not finished, not finished during a tick.
#[verifier::external_body]
fn bevy_timer_reset(duration_ns: u64, elapsed_ns: u64, mode: TimerMode) -> (r: (u64, bool, u32))
    requires
        duration_ns > 0,
        elapsed_ns <= duration_ns,
    ensures
        r == (0u64, false, 0u32),
{
    let bevy_mode = match mode {
        TimerMode::Once => bevy::time::TimerMode::Once,
        TimerMode::Repeating => bevy::time::TimerMode::Repeating,
    };
    let mut timer = bevy::time::Timer::new(std::time::Duration::from_nanos(duration_ns), bevy_mode);
    timer.set_elapsed(std::time::Duration::from_nanos(elapsed_ns));
    timer.reset();
    (timer.elapsed().as_nanos() as u64, timer.is_finished(), timer.times_finished_this_tick())
}

/// Calls `bevy::time::Timer::new` and reads the plain state back. The
/// contract claims what bevy's source shows: a new timer has nothing
/// elapsed and is not finished.
#[verifier::external_body]
fn bevy_timer_new(duration_ns: u64, mode: TimerMode) -> (r: (u64, bool, u32))
    ensures
        r == (0u64, false, 0u32),
{
    let bevy_mode = match mode {
        TimerMode::Once => bevy::time::TimerMode::Once,
        TimerMode::Repeating => bevy::time::TimerMode::Repeating,
    };
    let timer = bevy::time::Timer::new(std::time::Duration::from_nanos(duration_ns), bevy_mode);
    (timer.elapsed().as_nanos() as u64, timer.is_finished(), timer.times_finished_this_tick())
}

/// How long the click delay lasts: 0.125 s.
pub const CLICK_DELAY_NS: u64 = 125_000_000;

/// How often a new unit may be spawned: 2 s.
pub const SPAWN_INTERVAL_NS: u64 = 2_000_000_000;

/// How long an engine flame stays lit after its unit stops: 0.8 s, as the
/// nearest nanosecond to the `f32` 0.8.
pub const ENGINE_HIDE_NS: u64 = 800_000_012;

/// How long a projectile lives: 2 s.
pub const PROJECTILE_LIFETIME_NS: u64 = 2_000_000_000;

/// How long a move marker is shown: 0.4 s, as the nearest nanosecond to
/// the `f32` 0.4.
pub const MOVE_MARKER_LIFETIME_NS: u64 = 400_000_006;

/// A timer of the game, kept as plain values; bevy does the ticking.
pub struct GameTimer {
    state: TimerState,
}

impl View for GameTimer {
    type V = TimerState;

    closed spec fn view(&self) -> TimerState {
        self.state
    }
}

impl GameTimer {
    #[verifier::type_invariant]
    spec fn inv(self) -> bool {
        self.state.wf()
    }

    /// A new timer of the given duration with nothing elapsed.
    fn new(duration_ns: u64, mode: TimerMode) -> (t: GameTimer)
        requires
            duration_ns > 0,
        ensures
            t@ == GameTimer::fresh(duration_ns, mode),
            t@.wf(),
    {
        let (elapsed_ns, finished, times_finished_this_tick) = bevy_timer_new(duration_ns, mode);
        GameTimer {
            state: TimerState { duration_ns, elapsed_ns, mode, finished, times_finished_this_tick },
        }
    }

    /// The repeating timer that lets a held button issue a new command.
    pub fn click_delay() -> (t: GameTimer)
        ensures
            t@ == GameTimer::fresh(CLICK_DELAY_NS, TimerMode::Repeating),
    {
        GameTimer::new(CLICK_DELAY_NS, TimerMode::Repeating)
    }

    /// The repeating timer that paces the spawning of enemy units.
    pub fn spawn_interval() -> (t: GameTimer)
        ensures
            t@ == GameTimer::fresh(SPAWN_INTERVAL_NS, TimerMode::Repeating),
    {
        GameTimer::new(SPAWN_INTERVAL_NS, TimerMode::Repeating)
    }

    /// The timer, run once, after which a stopped unit's engine is hidden.
    pub fn engine_hide() -> (t: GameTimer)
        ensures
            t@ == GameTimer::fresh(ENGINE_HIDE_NS, TimerMode::Once),
    {
        GameTimer::new(ENGINE_HIDE_NS, TimerMode::Once)
    }

    /// The timer, run once, after which a projectile disappears.
    pub fn projectile_life() -> (t: GameTimer)
        ensures
            t@ == GameTimer::fresh(PROJECTILE_LIFETIME_NS, TimerMode::Once),
    {
        GameTimer::new(PROJECTILE_LIFETIME_NS, TimerMode::Once)
    }

    /// The timer, run once, after which a move marker disappears.
    pub fn move_marker() -> (t: GameTimer)
        ensures
            t@ == GameTimer::fresh(MOVE_MARKER_LIFETIME_NS, TimerMode::Once),
    {
        GameTimer::new(MOVE_MARKER_LIFETIME_NS, TimerMode::Once)
    }

    /// The state of a new timer of the given duration.
    pub open spec fn fresh(duration_ns: u64, mode: TimerMode) -> TimerState {
        TimerState { duration_ns, elapsed_ns: 0, mode, finished: false, times_finished_this_tick: 0 }
    }

    /// The plain state of the timer.
    pub fn state(&self) -> (s: TimerState)
        ensures
            s == self@,
            s.wf(),
    {
        proof {
            use_type_invariant(self);
        }
        self.state
    }

    /// Advances the timer by `delta_ns` nanoseconds.
    pub fn tick(&mut self, delta_ns: u64)
        ensures
            final(self)@ == ticked(old(self)@, delta_ns),
            final(self)@.wf(),
    {
        proof {
            use_type_invariant(&*self);
        }
        let s = self.state;
        let (elapsed_ns, finished, times_finished_this_tick) = bevy_timer_tick(
            s.duration_ns,
            s.elapsed_ns,
            s.mode,
            delta_ns,
        );
        proof {
            lemma_tick_keeps_wf(s, delta_ns);
        }
        self.state = TimerState { elapsed_ns, finished, times_finished_this_tick, ..s };
    }

    /// Starts the timer over: nothing elapsed, not finished.
    pub fn reset(&mut self)
        ensures
            final(self)@ == reset_state(old(self)@),
            final(self)@.wf(),
    {
        proof {
            use_type_invariant(&*self);
        }
        let s = self.state;
        let (elapsed_ns, finished, times_finished_this_tick) = bevy_timer_reset(
            s.duration_ns,
            s.elapsed_ns,
            s.mode,
        );
        self.state = TimerState { elapsed_ns, finished, times_finished_this_tick, ..s };
    }

    /// The timer reached its duration during the last tick.
    pub fn just_finished(&self) -> (b: bool)
        ensures
            b == self@.just_finished(),
    {
        self.state.times_finished_this_tick > 0
    }

    /// The timer is in its finished state.
    pub fn is_finished(&self) -> (b: bool)
        ensures
            b == self@.finished,
    {
        self.state.finished
    }
}

/// The sum of a sequence of tick lengths.
pub open spec fn sum_ns(ds: Seq<u64>) -> int
    decreases ds.len(),
{
    if ds.len() == 0 {
        0
    } else {
        sum_ns(ds.drop_last()) + ds.last()
    }
}

/// The state of a timer after one tick for each length in `ds`, in order.
pub open spec fn ticked_all(s: TimerState, ds: Seq<u64>) -> TimerState
    decreases ds.len(),
{
    if ds.len() == 0 {
        s
    } else {
        ticked(ticked_all(s, ds.drop_last()), ds.last())
    }
}

/// A tick keeps a timer in the states that `wf` describes.
pub proof fn lemma_tick_keeps_wf(s: TimerState, delta: u64)
    requires
        s.wf(),
    ensures
        ticked(s, delta).wf(),
{
    let total = s.elapsed_ns + delta;
    if s.mode == TimerMode::Repeating && total >= s.duration_ns {
        assert(total % (s.duration_ns as int) < s.duration_ns);
    }
}

/// The remainder and quotient of `x + b` by `d`, from those of `x`.
proof fn lemma_div_mod_step(x: int, b: int, d: int)
    requires
        x >= 0,
        b >= 0,
        d > 0,
    ensures
        (x + b) % d == (x % d + b) % d,
        (x + b) / d == x / d + (x % d + b) / d,
{
    let q1 = x / d;
    let r1 = x % d;
    let q2 = (r1 + b) / d;
    let r2 = (r1 + b) % d;
    lemma_fundamental_div_mod(x, d);
    lemma_fundamental_div_mod(r1 + b, d);
    lemma_mod_pos_bound(r1 + b, d);
    assert((q1 + q2) * d + r2 == x + b) by (nonlinear_arith)
        requires
            x == d * q1 + r1,
            r1 + b == d * q2 + r2,
    ;
    lemma_fundamental_div_mod_converse(x + b, d, q1 + q2, r2);
}

/// Two ticks leave the same elapsed time as one tick by their sum: a timer
/// that runs once clamps at its duration either way, and a repeating timer
/// wraps to the same remainder. A timer that runs once ends up finished
/// either way, or neither.
pub proof fn law_ticks_compose(s: TimerState, a: u64, b: u64)
    requires
        s.wf(),
        a + b <= u64::MAX,
    ensures
        ticked(ticked(s, a), b).elapsed_ns == ticked(s, (a + b) as u64).elapsed_ns,
        s.mode == TimerMode::Once ==> ticked(ticked(s, a), b).finished == ticked(
            s,
            (a + b) as u64,
        ).finished,
{
    let d = s.duration_ns as int;
    let e = s.elapsed_ns as int;
    lemma_tick_keeps_wf(s, a);
    if s.mode == TimerMode::Repeating {
        lemma_div_mod_step(e + a, b as int, d);
        let x = e + a;
        if x < d {
            assert(ticked(s, a).elapsed_ns == x);
            lemma_small_mod(x as nat, d as nat);
        } else {
            assert(ticked(s, a).elapsed_ns == x % d);
        }
        lemma_small_mod(ticked(s, a).elapsed_ns as nat, d as nat);
        assert(ticked(s, a).elapsed_ns as int == x % d);
        let y = x % d + b;
        if y < d {
            lemma_small_mod(y as nat, d as nat);
        }
        if x + b < d {
            lemma_small_mod((x + b) as nat, d as nat);
        }
    }
}

/// Over two ticks a repeating timer finishes as many times as over one tick
/// by their sum, as long as that count fits in 32 bits.
pub proof fn law_repeating_firings_add_up(s: TimerState, a: u64, b: u64)
    requires
        s.wf(),
        s.mode == TimerMode::Repeating,
        a + b <= u64::MAX,
        (s.elapsed_ns + a + b) / (s.duration_ns as int) < 0x1_0000_0000,
    ensures
        ticked(s, a).times_finished_this_tick + ticked(ticked(s, a), b).times_finished_this_tick
            == ticked(s, (a + b) as u64).times_finished_this_tick,
{
    let d = s.duration_ns as int;
    let e = s.elapsed_ns as int;
    let x = e + a;
    lemma_tick_keeps_wf(s, a);
    lemma_div_mod_step(x, b as int, d);
    lemma_div_pos_is_pos(x, d);
    lemma_div_pos_is_pos(x % d + b, d);
    lemma_mod_pos_bound(x, d);
    lemma_div_is_ordered(x, x + b, d);
    if x < d {
        lemma_small_mod(x as nat, d as nat);
        lemma_basic_div(x, d);
    }
    if x % d + b < d {
        lemma_basic_div(x % d + b, d);
    }
    if x + b < d {
        lemma_basic_div(x + b, d);
    }
    lemma_small_mod(((x + b) / d) as nat, 0x1_0000_0000);
    lemma_small_mod((x / d) as nat, 0x1_0000_0000);
    lemma_small_mod(((x % d + b) / d) as nat, 0x1_0000_0000);
    lemma_small_mod(ticked(s, a).elapsed_ns as nat, d as nat);
}

/// A timer that runs once finishes on exactly one tick: the first whose
/// total reaches its duration; every later tick leaves it finished and
/// finishes nothing.
pub proof fn law_once_timer_finishes_once(s: TimerState, a: u64, b: u64)
    requires
        s.wf(),
        s.mode == TimerMode::Once,
    ensures
        !s.finished ==> (ticked(s, a).just_finished() <==> s.elapsed_ns + a >= s.duration_ns),
        ticked(s, a).just_finished() ==> ticked(s, a).finished,
        ticked(s, a).finished ==> !ticked(ticked(s, a), b).just_finished() && ticked(
            ticked(s, a),
            b,
        ).finished,
{
    lemma_tick_keeps_wf(s, a);
}

/// A timer that runs once and has not finished, ticked by a run of
/// lengths, finishes exactly when its elapsed time plus the sum of the
/// lengths reaches its duration; until then its elapsed time is that sum,
/// afterwards its duration. The last tick of the run is the one on which it
/// finishes exactly when the sum before that tick was short of the duration
/// and the sum with it is not.
pub proof fn law_once_timer_finishes_when_sum_reaches_duration(s: TimerState, ds: Seq<u64>)
    requires
        s.wf(),
        s.mode == TimerMode::Once,
        !s.finished,
    ensures
        ticked_all(s, ds).wf(),
        ticked_all(s, ds).duration_ns == s.duration_ns,
        ticked_all(s, ds).mode == s.mode,
        ticked_all(s, ds).finished <==> s.elapsed_ns + sum_ns(ds) >= s.duration_ns,
        !ticked_all(s, ds).finished ==> ticked_all(s, ds).elapsed_ns == s.elapsed_ns + sum_ns(ds),
        ticked_all(s, ds).finished ==> ticked_all(s, ds).elapsed_ns == s.duration_ns,
        ds.len() > 0 ==> (ticked_all(s, ds).just_finished() <==> (s.elapsed_ns + sum_ns(
            ds.drop_last(),
        ) < s.duration_ns && s.duration_ns <= s.elapsed_ns + sum_ns(ds))),
    decreases ds.len(),
{
    if ds.len() > 0 {
        let prev = ds.drop_last();
        law_once_timer_finishes_when_sum_reaches_duration(s, prev);
        lemma_tick_keeps_wf(ticked_all(s, prev), ds.last());
    }
}

} // verus!
