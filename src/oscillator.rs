use vstd::prelude::*;

verus! {

/// What the tick generator does to the digital output on one invocation.
#[derive(Clone, Copy, Debug, PartialEq, Eq, Structural)]
pub enum PinAction {
    /// Drive the output low.
    SetLow,
    /// Invert the output level.
    Toggle,
    /// Leave the output as it is.
    Keep,
}

/// Outcome of one tick: the phase counter to publish and the output action.
#[derive(Clone, Copy, Debug, PartialEq, Eq, Structural)]
pub struct TickStep {
    pub phase: u32,
    pub action: PinAction,
}

/// The tick decision on a phase counter and a target period.
pub open spec fn tick_spec(phase: u32, period: u32) -> TickStep {
    if phase == 0 {
        TickStep { phase: 1, action: PinAction::SetLow }
    } else if phase >= period {
        TickStep { phase: 1, action: PinAction::Toggle }
    } else {
        TickStep { phase: (phase + 1) as u32, action: PinAction::Keep }
    }
}

/// One invocation of the tick generator: a zero phase forces the output
/// low; a phase at or past the target period toggles the output and
/// restarts the phase; the phase then advances by one.
pub fn tick_step(phase: u32, period: u32) -> (r: TickStep)
    ensures
        r == tick_spec(phase, period),
{
    let mut next = phase;
    let action;
    if phase == 0 {
        action = PinAction::SetLow;
    } else if phase >= period {
        action = PinAction::Toggle;
        next = 0;
    } else {
        action = PinAction::Keep;
    }
    TickStep { phase: next + 1, action }
}

/// Output level after applying `action` to `level` (`true` is high).
pub open spec fn apply_spec(level: bool, action: PinAction) -> bool {
    match action {
        PinAction::SetLow => false,
        PinAction::Toggle => !level,
        PinAction::Keep => level,
    }
}

/// Output level after applying `action` to `level` (`true` is high).
pub fn apply(level: bool, action: PinAction) -> (r: bool)
    ensures
        r == apply_spec(level, action),
{
    match action {
        PinAction::SetLow => false,
        PinAction::Toggle => !level,
        PinAction::Keep => level,
    }
}

/// The oscillator: phase counter, target period (fast-timer ticks per
/// half-cycle) and the level of the digital output.
#[derive(Clone, Copy, Debug, PartialEq, Eq, Structural)]
pub struct Oscillator {
    pub phase: u32,
    pub period: u32,
    pub level: bool,
}

/// State after one tick.
pub open spec fn next(o: Oscillator) -> Oscillator {
    let s = tick_spec(o.phase, o.period);
    Oscillator { phase: s.phase, period: o.period, level: apply_spec(o.level, s.action) }
}

/// Whether the tick taken from `o` toggles the output.
pub open spec fn toggles_now(o: Oscillator) -> bool {
    tick_spec(o.phase, o.period).action == PinAction::Toggle
}

/// State after `n` ticks.
pub open spec fn run(o: Oscillator, n: nat) -> Oscillator
    decreases n,
{
    if n == 0 {
        o
    } else {
        next(run(o, (n - 1) as nat))
    }
}

/// Number of toggles among the first `n` ticks taken from `o`.
pub open spec fn toggles(o: Oscillator, n: nat) -> nat
    decreases n,
{
    if n == 0 {
        0
    } else {
        toggles(o, (n - 1) as nat) + if toggles_now(run(o, (n - 1) as nat)) {
            1nat
        } else {
            0nat
        }
    }
}

/// State after a hard-sync event.
pub open spec fn synced(o: Oscillator) -> Oscillator {
    Oscillator { phase: 0, ..o }
}

impl Oscillator {
    /// A stopped oscillator: zero phase, zero period, output low.
    pub fn new() -> (r: Oscillator)
        ensures
            r == (Oscillator { phase: 0, period: 0, level: false }),
    {
        Oscillator { phase: 0, period: 0, level: false }
    }

    /// Publishes a new target period.
    pub fn set_period(&mut self, period: u32)
        ensures
            *final(self) == (Oscillator { period, ..*old(self) }),
    {
        self.period = period;
    }

    /// One invocation of the tick generator; returns what it did to the output.
    pub fn tick(&mut self) -> (r: PinAction)
        ensures
            *final(self) == next(*old(self)),
            r == tick_spec(old(self).phase, old(self).period).action,
            old(self).period > 0 && old(self).phase <= old(self).period ==> final(self).phase
                <= final(self).period,
            old(self).period == 0 && old(self).phase > 0 ==> r == PinAction::Toggle,
    {
        let s = tick_step(self.phase, self.period);
        self.phase = s.phase;
        self.level = apply(self.level, s.action);
        s.action
    }

    /// A hard-sync event: the phase restarts from zero.
    pub fn hard_sync(&mut self)
        ensures
            *final(self) == synced(*old(self)),
    {
        self.phase = 0;
    }
}

/// With a fixed target period `P > 0` and a phase in `1..=P`, the `j`-th
/// state of the run is known in closed form for every `j <= P`.
proof fn lemma_run_closed_form(o: Oscillator, j: nat)
    requires
        o.period > 0,
        1 <= o.phase <= o.period,
        j <= o.period,
    ensures
        j <= o.period - o.phase ==> run(o, j) == (Oscillator {
            phase: (o.phase + j) as u32,
            ..o
        }) && toggles(o, j) == 0,
        j > o.period - o.phase ==> run(o, j) == (Oscillator {
            phase: (o.phase + j - o.period) as u32,
            level: !o.level,
            ..o
        }) && toggles(o, j) == 1,
    decreases j,
{
    if j > 0 {
        lemma_run_closed_form(o, (j - 1) as nat);
    }
}

/// With a fixed target period `P > 0`, starting from any phase in `1..=P`,
/// every `P` consecutive ticks toggle the output exactly once and bring the
/// phase back to where it was; the phase never exceeds `P` on the way.
pub proof fn lemma_toggle_once_per_period(o: Oscillator)
    requires
        o.period > 0,
        1 <= o.phase <= o.period,
    ensures
        toggles(o, o.period as nat) == 1,
        run(o, o.period as nat) == (Oscillator { level: !o.level, ..o }),
        forall|j: nat| j <= o.period ==> 1 <= #[trigger] run(o, j).phase <= o.period,
{
    lemma_run_closed_form(o, o.period as nat);
    assert forall|j: nat| j <= o.period implies 1 <= #[trigger] run(o, j).phase <= o.period by {
        lemma_run_closed_form(o, j);
    }
}

/// With a fixed target period `P > 0`, a phase in `0..=P` stays in `0..=P`
/// for every number of ticks.
pub proof fn lemma_phase_bounded(o: Oscillator, n: nat)
    requires
        o.period > 0,
        o.phase <= o.period,
    ensures
        run(o, n).phase <= o.period,
        run(o, n).period == o.period,
    decreases n,
{
    if n > 0 {
        lemma_phase_bounded(o, (n - 1) as nat);
    }
}

/// With a target period of zero and a non-zero phase, every tick toggles
/// the output.
pub proof fn lemma_zero_period_toggles_every_tick(o: Oscillator, n: nat)
    requires
        o.period == 0,
        o.phase > 0,
    ensures
        toggles(o, n) == n,
        run(o, n).level == if n % 2 == 0 {
            o.level
        } else {
            !o.level
        },
        run(o, n).phase > 0,
        run(o, n).period == 0,
    decreases n,
{
    if n > 0 {
        let m = (n - 1) as nat;
        lemma_zero_period_toggles_every_tick(o, m);
        assert(toggles_now(run(o, m)));
        assert(n % 2 == 0 <==> m % 2 == 1);
    }
}

/// A hard-sync event followed by one tick: the tick sees a zero phase and
/// forces the output low, whatever the state before.
pub proof fn lemma_sync_then_tick(o: Oscillator)
    ensures
        synced(o).phase == 0,
        tick_spec(synced(o).phase, o.period).action == PinAction::SetLow,
        next(synced(o)) == (Oscillator { phase: 1, level: false, ..o }),
{
}

} // verus!
