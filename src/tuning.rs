use vstd::prelude::*;

verus! {

/// Millivolt-equivalent adjustment made by one encoder edge.
pub const FINE_TUNE_STEP: i16 = 2;

/// Bit of the input-data register that holds the encoder's second channel.
pub const COMPANION_BIT: u32 = 11;

/// `x` reduced into the range of `i16` the way two's-complement addition wraps.
pub open spec fn wrap_i16(x: int) -> int {
    if x > i16::MAX {
        x - 0x1_0000
    } else if x < i16::MIN {
        x + 0x1_0000
    } else {
        x
    }
}

/// Whether the encoder's second channel reads low in the input-data register `idr`.
pub open spec fn companion_low_spec(idr: u32) -> bool {
    (idr / 2048) % 2 == 0
}

/// Offset after one edge: up by the step when the second channel is low,
/// down by the step when it is high.
pub open spec fn nudge(offset: i16, companion_low: bool) -> i16 {
    wrap_i16(offset + if companion_low {
        FINE_TUNE_STEP as int
    } else {
        -FINE_TUNE_STEP
    }) as i16
}

/// Reads the encoder's second channel from the input-data register.
pub fn companion_low(idr: u32) -> (r: bool)
    ensures
        r == companion_low_spec(idr),
{
    let r = (idr & (1u32 << COMPANION_BIT)) == 0;
    proof {
        assert(((idr & (1u32 << 11u32)) == 0) == ((idr / 2048) % 2 == 0)) by (bit_vector);
    }
    r
}

/// The fine-tune offset after one edge on the encoder's first channel, given
/// the input-data register read at that edge.
pub fn encoder_edge(offset: i16, idr: u32) -> (r: i16)
    ensures
        r == nudge(offset, companion_low_spec(idr)),
        r as int == wrap_i16(offset + if companion_low_spec(idr) {
            2int
        } else {
            -2int
        }),
{
    if companion_low(idr) {
        offset.wrapping_add(FINE_TUNE_STEP)
    } else {
        offset.wrapping_add(-FINE_TUNE_STEP)
    }
}

/// An edge with the second channel low adds exactly the step, one with it
/// high subtracts exactly the step (away from the ends of the `i16` range),
/// and an edge of each kind, in either order, gives the offset back.
pub proof fn lemma_nudge_steps(offset: i16)
    ensures
        offset + FINE_TUNE_STEP <= i16::MAX ==> nudge(offset, true) == offset + FINE_TUNE_STEP,
        offset - FINE_TUNE_STEP >= i16::MIN ==> nudge(offset, false) == offset - FINE_TUNE_STEP,
        nudge(nudge(offset, true), false) == offset,
        nudge(nudge(offset, false), true) == offset,
{
}

} // verus!
