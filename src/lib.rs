mod filter;
mod oscillator;
mod port;
mod timing;
mod tuning;

pub use filter::{avg, lemma_recent_is_latest_samples, mean, recent, sum, Sampler, AVG_BUF_SIZE};
pub use oscillator::{
    apply, apply_spec, lemma_phase_bounded, lemma_sync_then_tick, lemma_toggle_once_per_period,
    lemma_zero_period_toggles_every_tick, next, run, synced, tick_spec, tick_step, toggles,
    toggles_now, Oscillator, PinAction, TickStep,
};
pub use port::{coarse_byte, merge_low_byte};
pub use timing::{circle_time, us_to_period, SEC_IN_US, TICK_FREQ_HZ};
pub use tuning::{
    companion_low, companion_low_spec, encoder_edge, lemma_nudge_steps, nudge, wrap_i16, COMPANION_BIT,
    FINE_TUNE_STEP,
};
