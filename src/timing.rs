use vstd::prelude::*;

verus! {

/// One second in microseconds.
pub const SEC_IN_US: u32 = 1000000;

/// Rate of the fast timer that drives the oscillator, in hertz.
pub const TICK_FREQ_HZ: u32 = 200000;

/// Duration of one fast-timer tick, in microseconds.
pub open spec fn tick_us() -> nat {
    (SEC_IN_US / TICK_FREQ_HZ) as nat
}

/// Duration of one fast-timer tick, in microseconds.
pub fn circle_time() -> (r: u32)
    ensures
        r == tick_us(),
        r == 5,
{
    SEC_IN_US / TICK_FREQ_HZ
}

/// Number of fast-timer ticks in one half-cycle of a waveform whose full
/// period is `us` microseconds.
pub fn us_to_period(us: u32) -> (r: u32)
    ensures
        r as nat == us as nat / tick_us() / 2,
        2 * tick_us() * r <= us < 2 * tick_us() * (r + 1),
{
    let r = us / circle_time() / 2;
    proof {
        assert(tick_us() == 5);
        assert(10 * r <= us < 10 * (r + 1)) by (nonlinear_arith)
            requires
                r == us / 5 / 2,
        ;
    }
    r
}

} // verus!
