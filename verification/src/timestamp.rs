use vstd::prelude::*;
use vstd::arithmetic::div_mod::{
    lemma_div_multiples_vanish, lemma_fundamental_div_mod, lemma_div_is_ordered,
    lemma_multiply_divide_lt,
};

verus! {

/// Seconds between the NTP epoch (1900-01-01T00:00:00Z) and the Unix epoch
/// (1970-01-01T00:00:00Z).
pub const NTP_TO_UNIX_SECONDS: i64 = 2_208_988_800;

/// Nanoseconds in one second.
pub const NANOS_PER_SECOND: u64 = 1_000_000_000;

/// 2^32, the scale of the fractional part of an NTP timestamp.
pub const FRACTION_SCALE: u64 = 0x1_0000_0000;

/// An NTP fixed-point timestamp: whole seconds since 1900 (wrapping at 2^32)
/// and fractional seconds as a binary fraction of 2^32. Always UTC.
#[derive(Clone, Copy, Debug, PartialEq, Eq, Structural, Default)]
pub struct NTPTimestamp {
    pub seconds: u32,
    pub fraction: u32,
}

/// A standard (Unix) timestamp: signed whole seconds since 1970 plus a
/// nanosecond part in `[0, 1_000_000_000)`. Always UTC.
#[derive(Clone, Copy, Debug, PartialEq, Eq, Structural)]
pub struct UnixTime {
    pub secs: i64,
    pub nanos: u32,
}

impl UnixTime {
    /// The nanosecond part never reaches a whole second.
    pub open spec fn wf(self) -> bool {
        self.nanos < 1_000_000_000
    }

    /// The instant as a single nanosecond count since 1970.
    pub open spec fn total_nanos(self) -> int {
        self.secs * 1_000_000_000 + self.nanos
    }
}

/// The standard timestamp that an NTP timestamp denotes: shift the epoch by
/// `NTP_TO_UNIX_SECONDS` and rescale the fraction to nanoseconds, truncating.
pub open spec fn spec_to_standard(ntp: NTPTimestamp) -> UnixTime {
    UnixTime {
        secs: (ntp.seconds - NTP_TO_UNIX_SECONDS) as i64,
        nanos: ((ntp.fraction * 1_000_000_000) / 0x1_0000_0000) as u32,
    }
}

/// The NTP timestamp that a standard timestamp denotes: shift the epoch the
/// other way (wrapping at 2^32) and rescale nanoseconds to a binary fraction
/// of 2^32, truncating.
pub open spec fn spec_to_ntp(t: UnixTime) -> NTPTimestamp {
    NTPTimestamp {
        seconds: (((t.secs + NTP_TO_UNIX_SECONDS) % 0x1_0000_0000) as u32),
        fraction: ((t.nanos * 0x1_0000_0000) / 1_000_000_000) as u32,
    }
}

/// Converts an NTP timestamp to a standard timestamp.
pub fn to_standard(ntp: NTPTimestamp) -> (r: UnixTime)
    ensures
        r == spec_to_standard(ntp),
        r.wf(),
{
    let secs: i64 = ntp.seconds as i64 - NTP_TO_UNIX_SECONDS;
    let scaled: u64 = ntp.fraction as u64 * 1_000_000_000;
    let nanos64: u64 = scaled / 0x1_0000_0000;
    proof {
        lemma_multiply_divide_lt(scaled as int, 0x1_0000_0000, 1_000_000_000);
    }
    UnixTime { secs, nanos: nanos64 as u32 }
}

/// Converts a standard timestamp to an NTP timestamp. The second count wraps
/// at 2^32, as the fixed-width NTP representation does.
pub fn to_ntp(t: UnixTime) -> (r: NTPTimestamp)
    requires
        t.wf(),
        t.secs + NTP_TO_UNIX_SECONDS <= i64::MAX,
    ensures
        r == spec_to_ntp(t),
{
    let total: i64 = t.secs + NTP_TO_UNIX_SECONDS;
    // Shift by 2^63 (a multiple of 2^32) to reach unsigned range without
    // changing the residue modulo 2^32.
    let shifted: u64 = ((total as i128) + 0x8000_0000_0000_0000i128) as u64;
    let seconds64: u64 = shifted % 0x1_0000_0000;
    proof {
        vstd::arithmetic::div_mod::lemma_mod_multiples_vanish(
            0x8000_0000i128 as int,
            total as int,
            0x1_0000_0000,
        );
    }
    let scaled: u64 = t.nanos as u64 * 0x1_0000_0000;
    let fraction64: u64 = scaled / 1_000_000_000;
    proof {
        lemma_multiply_divide_lt(scaled as int, 1_000_000_000, 0x1_0000_0000);
    }
    NTPTimestamp { seconds: seconds64 as u32, fraction: fraction64 as u32 }
}

/// Epoch round-trip: converting a standard timestamp to NTP form and back
/// reproduces the seconds exactly (whenever the second count is representable
/// without wrapping) and the nanoseconds to within one nanosecond — well
/// inside the microsecond tolerance the converter is meant to keep.
pub proof fn lemma_epoch_round_trip(t: UnixTime)
    requires
        t.wf(),
        0 <= t.secs + NTP_TO_UNIX_SECONDS < 0x1_0000_0000,
    ensures
        spec_to_standard(spec_to_ntp(t)).secs == t.secs,
        spec_to_standard(spec_to_ntp(t)).nanos <= t.nanos,
        t.nanos - spec_to_standard(spec_to_ntp(t)).nanos <= 1,
        spec_to_standard(spec_to_ntp(t)).wf(),
{
    let total = t.secs + NTP_TO_UNIX_SECONDS;
    assert(total % 0x1_0000_0000 == total) by {
        vstd::arithmetic::div_mod::lemma_small_mod(total as nat, 0x1_0000_0000nat);
    };
    let n = t.nanos as int;
    let f = (n * 0x1_0000_0000) / 1_000_000_000;
    let n2 = (f * 1_000_000_000) / 0x1_0000_0000;
    // f * 10^9 == n * 2^32 - r0 for the division remainder r0 in [0, 10^9).
    lemma_fundamental_div_mod(n * 0x1_0000_0000, 1_000_000_000);
    let r0 = (n * 0x1_0000_0000) % 1_000_000_000;
    assert(1_000_000_000 * f == n * 0x1_0000_0000 - r0);
    assert(0 <= r0 < 1_000_000_000) by {
        vstd::arithmetic::div_mod::lemma_mod_division_less_than_divisor(
            n * 0x1_0000_0000,
            1_000_000_000,
        );
    };
    assert(f * 1_000_000_000 == 1_000_000_000 * f) by (nonlinear_arith);
    // Upper bound: f * 10^9 <= n * 2^32, so n2 <= n.
    assert((n * 0x1_0000_0000) / 0x1_0000_0000 == n) by {
        lemma_div_multiples_vanish(n, 0x1_0000_0000);
        assert(0x1_0000_0000 * n == n * 0x1_0000_0000) by (nonlinear_arith);
    };
    lemma_div_is_ordered(f * 1_000_000_000, n * 0x1_0000_0000, 0x1_0000_0000);
    assert(n2 <= n);
    // Lower bound: f * 10^9 >= (n - 1) * 2^32 since r0 < 10^9 < 2^32.
    assert((n - 1) * 0x1_0000_0000 <= f * 1_000_000_000) by (nonlinear_arith)
        requires
            1_000_000_000 * f == n * 0x1_0000_0000 - r0,
            f * 1_000_000_000 == 1_000_000_000 * f,
            r0 < 1_000_000_000,
    ;
    assert(((n - 1) * 0x1_0000_0000) / 0x1_0000_0000 == n - 1) by {
        lemma_div_multiples_vanish(n - 1, 0x1_0000_0000);
        assert(0x1_0000_0000 * (n - 1) == (n - 1) * 0x1_0000_0000) by (nonlinear_arith);
    };
    lemma_div_is_ordered((n - 1) * 0x1_0000_0000, f * 1_000_000_000, 0x1_0000_0000);
    assert(n - 1 <= n2);
    assert(spec_to_standard(spec_to_ntp(t)).nanos == n2);
}

} // verus!
