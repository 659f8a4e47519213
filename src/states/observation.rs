use crate::codec::{read_u128, read_u64, u64_at};
use vstd::bytes::spec_u128_from_le_bytes;
use vstd::prelude::*;
use vstd::slice::slice_subrange;

verus! {

/// One price sample of an observation series.
#[derive(Clone, Copy, Debug, PartialEq, Eq, Structural)]
pub struct Observation {
    /// The block timestamp of the observation
    pub block_timestamp: u64,
    /// Cumulative token_0 price over the sampling duration, 32.32 fixed point in the low 64 bits
    pub cumulative_token_0_price_x32: u128,
    /// Cumulative token_1 price over the sampling duration, 32.32 fixed point in the low 64 bits
    pub cumulative_token_1_price_x32: u128,
}

impl Observation {
    /// Bytes of one stored sample: timestamp, then the two cumulative prices.
    pub const LEN: usize = 40;

    /// Whether this sample is the one stored little-endian at `b[at..at + 40]`.
    pub open spec fn decoded_from(self, b: Seq<u8>, at: int) -> bool {
        &&& self.block_timestamp == u64_at(b, at)
        &&& self.cumulative_token_0_price_x32 == spec_u128_from_le_bytes(
            b.subrange(at + 8, at + 24),
        )
        &&& self.cumulative_token_1_price_x32 == spec_u128_from_le_bytes(
            b.subrange(at + 24, at + 40),
        )
    }

    /// Reads the sample stored at `b[at..at + 40]`.
    pub fn read(b: &[u8], at: usize) -> (r: Observation)
        requires
            at + 40 <= b@.len(),
        ensures
            r.decoded_from(b@, at as int),
    {
        let rest = slice_subrange(b, at, b.len());
        assert(rest@.subrange(0, 8) =~= b@.subrange(at as int, at + 8));
        assert(rest@.subrange(8, 24) =~= b@.subrange(at + 8, at + 24));
        assert(rest@.subrange(24, 40) =~= b@.subrange(at + 24, at + 40));
        Observation {
            block_timestamp: read_u64(rest, 0),
            cumulative_token_0_price_x32: read_u128(rest, 8),
            cumulative_token_1_price_x32: read_u128(rest, 24),
        }
    }
}

} // verus!
