use vstd::prelude::*;

verus! {

/// The coarse pitch value for a frequency of `hz` hertz: `hz / 16` in the
/// low byte.
pub fn coarse_byte(hz: u32) -> (r: u32)
    ensures
        r == (hz / 16) % 256,
{
    let r = (hz / 16) & 0xff;
    proof {
        assert((hz / 16) & 0xff == (hz / 16) % 256) by (bit_vector);
    }
    r
}

/// The output-data register after writing `byte` to bits 7..0: bits 15..8 of
/// `odr` are kept, the bits above 15 are cleared.
pub fn merge_low_byte(odr: u32, byte: u32) -> (r: u32)
    ensures
        r == (odr / 256 % 256) * 256 + byte % 256,
{
    let r = (odr & 0xff00) | (byte & 0xff);
    proof {
        assert((odr & 0xff00) | (byte & 0xff) == (odr / 256 % 256) * 256 + byte % 256)
            by (bit_vector);
    }
    r
}

} // verus!
