//! Per-frame scalar parameters mirrored by the GPU parameter buffer.

use vstd::prelude::*;

verus! {

/// The fixed-layout record the compute program reads through its uniform
/// binding: a single time value, in milliseconds since a fixed epoch,
/// truncated to 32 bits.
#[derive(Clone, Copy, Debug)]
pub struct ComputeParametersUniform {
    pub time: u32,
}

/// The 32-bit frame time obtained from a clock reading of `now_ms`
/// milliseconds: the reading reduced modulo `2^32` (the value wraps silently
/// once the reading outgrows the field).
pub open spec fn frame_time(now_ms: u64) -> u64 {
    now_ms % 0x1_0000_0000
}

/// The parameters after a refresh: the previous record plays no part, the
/// clock reading alone decides the new value.
pub open spec fn refreshed(prev: ComputeParametersUniform, now_ms: u64) -> ComputeParametersUniform {
    ComputeParametersUniform { time: frame_time(now_ms) as u32 }
}

impl ComputeParametersUniform {
    /// The parameter record as of the clock reading `now_ms`.
    pub fn from_millis(now_ms: u64) -> (p: Self)
        ensures
            p.time == frame_time(now_ms),
    {
        ComputeParametersUniform { time: (now_ms % 0x1_0000_0000) as u32 }
    }

    /// Recompute the record from a fresh clock reading.
    pub fn refresh(&mut self, now_ms: u64)
        ensures
            *final(self) == refreshed(*old(self), now_ms),
            final(self).time == frame_time(now_ms),
    {
        self.time = (now_ms % 0x1_0000_0000) as u32;
    }
}

/// Two clock readings less than one wraparound period apart truncate to two
/// different frame times: under a monotonically advancing clock, successive
/// frames read strictly fresh parameter values, never a stale one.
pub proof fn lemma_time_advances(ms1: u64, ms2: u64)
    requires
        ms1 < ms2,
        ms2 - ms1 < 0x1_0000_0000,
    ensures
        frame_time(ms1) != frame_time(ms2),
{
    assert(ms1 % 0x1_0000_0000 != ms2 % 0x1_0000_0000) by (bit_vector)
        requires
            ms1 < ms2,
            ms2 - ms1 < 0x1_0000_0000,
    ;
}

/// The refreshed parameters depend on the clock reading alone: from any two
/// prior records, a refresh under the same reading yields the same record, so
/// a fixed injected clock drives repeated frames to identical parameters.
pub proof fn lemma_refresh_ignores_history(
    a: ComputeParametersUniform,
    b: ComputeParametersUniform,
    now_ms: u64,
)
    ensures
        refreshed(a, now_ms) == refreshed(b, now_ms),
{
}

} // verus!
