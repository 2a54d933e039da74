use vstd::prelude::*;
use vstd::math::abs;
use vstd::arithmetic::div_mod::{
    lemma_div_nonincreasing, lemma_div_pos_is_pos, lemma_multiply_divide_lt,
};
use crate::errors::TimeError;
use crate::roundtrip::NTPResult;

verus! {

/// The confidence weight `1_000_000 / delay^2` of the aggregation policy,
/// held in millionths so that the arithmetic stays in integers: one unit of
/// `WEIGHT_SCALE / delay^2` is one millionth of the policy's weight. The
/// weighted mean is unchanged by the common scale factor.
pub const WEIGHT_SCALE: u128 = 1_000_000_000_000;

/// One server's measurement, ready for aggregation: the estimated clock-skew
/// magnitude and the network delay of the exchange, both in milliseconds.
#[derive(Clone, Copy, Debug, PartialEq, Eq, Structural)]
pub struct Sample {
    pub offset: u64,
    pub delay: i64,
}

/// The integer confidence weight of a sample with the given delay, in
/// millionths: `WEIGHT_SCALE / delay^2`, and zero for a zero delay. A zero
/// delay would make the policy's weight infinite and excludes the sample; a
/// delay so large that the quotient truncates to zero likewise contributes
/// nothing, the integer analogue of the policy's underflow exclusion.
pub open spec fn sample_weight(delay: int) -> int {
    if delay == 0 {
        0
    } else {
        (WEIGHT_SCALE as int) / (delay * delay)
    }
}

/// Sum of `offset * weight` over the samples.
pub open spec fn weighted_offset_sum(s: Seq<Sample>) -> int
    decreases s.len(),
{
    if s.len() == 0 {
        0
    } else {
        weighted_offset_sum(s.drop_last()) + s.last().offset * sample_weight(s.last().delay as int)
    }
}

/// Sum of the weights of the samples.
pub open spec fn weight_sum(s: Seq<Sample>) -> int
    decreases s.len(),
{
    if s.len() == 0 {
        0
    } else {
        weight_sum(s.drop_last()) + sample_weight(s.last().delay as int)
    }
}

/// The weighted mean as an exact ratio: `num / den` is the aggregated offset
/// estimate in milliseconds.
#[derive(Clone, Copy, Debug, PartialEq, Eq, Structural)]
pub struct MeanRatio {
    pub num: u128,
    pub den: u128,
}

impl MeanRatio {
    /// The estimate in whole milliseconds, truncated.
    pub fn millis(&self) -> (r: u128)
        requires
            self.den > 0,
        ensures
            r == self.num as int / self.den as int,
    {
        self.num / self.den
    }
}

/// The weight of a sample is never negative and never above `WEIGHT_SCALE`.
pub proof fn lemma_weight_bounds(delay: int)
    ensures
        0 <= sample_weight(delay) <= WEIGHT_SCALE,
{
    if delay != 0 {
        assert(delay * delay >= 1) by (nonlinear_arith)
            requires
                delay != 0,
        ;
        lemma_div_pos_is_pos(WEIGHT_SCALE as int, delay * delay);
        lemma_div_nonincreasing(WEIGHT_SCALE as int, delay * delay);
    }
}

/// A zero-delay sample is excluded from aggregation: appending one changes
/// neither the weighted offset sum nor the weight sum.
pub proof fn lemma_zero_delay_excluded(s: Seq<Sample>, x: Sample)
    requires
        x.delay == 0,
    ensures
        weighted_offset_sum(s.push(x)) == weighted_offset_sum(s),
        weight_sum(s.push(x)) == weight_sum(s),
{
    assert(s.push(x).drop_last() =~= s);
    assert(s.push(x).last() == x);
}

/// A sample whose delay exceeds a million milliseconds has weight zero —
/// its policy weight is below one millionth — and appending one changes
/// neither aggregate sum.
pub proof fn lemma_large_delay_excluded(s: Seq<Sample>, x: Sample)
    requires
        abs(x.delay as int) > 1_000_000,
    ensures
        sample_weight(x.delay as int) == 0,
        weighted_offset_sum(s.push(x)) == weighted_offset_sum(s),
        weight_sum(s.push(x)) == weight_sum(s),
{
    let d = x.delay as int;
    assert(d * d > WEIGHT_SCALE) by (nonlinear_arith)
        requires
            abs(d) > 1_000_000,
    ;
    lemma_div_pos_is_pos(WEIGHT_SCALE as int, d * d);
    lemma_multiply_divide_lt(WEIGHT_SCALE as int, d * d, 1);
    assert(s.push(x).drop_last() =~= s);
    assert(s.push(x).last() == x);
}

/// The integer weight of one sample, computed without overflow.
fn sample_weight_exec(delay: i64) -> (w: u128)
    ensures
        w == sample_weight(delay as int),
        w <= WEIGHT_SCALE,
{
    let di: i128 = delay as i128;
    let mag: i128 = if di < 0 {
        -di
    } else {
        di
    };
    let m: u128 = mag as u128;
    proof {
        lemma_weight_bounds(delay as int);
        assert(m * m == (delay as int) * (delay as int) && m * m <= 0x4000_0000_0000_0000_0000_0000_0000_0000)
            by (nonlinear_arith)
            requires
                m == abs(delay as int),
                m <= 0x8000_0000_0000_0000,
        ;
    }
    if m == 0 {
        0
    } else {
        proof {
            assert(m * m >= 1) by (nonlinear_arith)
                requires
                    m >= 1,
            ;
        }
        1_000_000_000_000u128 / (m * m)
    }
}

/// Combines the samples into the confidence-weighted mean offset, each
/// sample weighted by `sample_weight` of its delay. Returns the exact ratio,
/// or `NoUsableSamples` when every sample was excluded (or there were none),
/// rather than dividing by a zero weight sum. The sample count is bounded
/// only so that the 128-bit accumulators cannot overflow.
pub fn weighted_mean(samples: &Vec<Sample>) -> (r: Result<MeanRatio, TimeError>)
    requires
        samples@.len() <= 1_000_000,
    ensures
        weight_sum(samples@) == 0 ==> r == Err::<MeanRatio, TimeError>(TimeError::NoUsableSamples),
        weight_sum(samples@) != 0 ==> r == Ok::<MeanRatio, TimeError>(
            MeanRatio {
                num: weighted_offset_sum(samples@) as u128,
                den: weight_sum(samples@) as u128,
            },
        ),
{
    let n: usize = samples.len();
    let mut num: u128 = 0;
    let mut den: u128 = 0;
    let mut k: usize = 0;
    while k < n
        invariant
            n == samples@.len() <= 1_000_000,
            k <= n,
            num == weighted_offset_sum(samples@.take(k as int)),
            den == weight_sum(samples@.take(k as int)),
            num <= (k as int) * (0xffff_ffff_ffff_ffff * 1_000_000_000_000),
            den <= (k as int) * 1_000_000_000_000,
        decreases n - k,
    {
        let s = samples[k];
        let w: u128 = sample_weight_exec(s.delay);
        proof {
            assert(samples@.take(k as int + 1).drop_last() =~= samples@.take(k as int));
            assert(samples@.take(k as int + 1).last() == samples@[k as int]);
            assert((s.offset as int) * (w as int) <= 0xffff_ffff_ffff_ffff * 1_000_000_000_000)
                by (nonlinear_arith)
                requires
                    s.offset <= 0xffff_ffff_ffff_ffff,
                    w <= 1_000_000_000_000,
            ;
            assert((k as int + 1) * (0xffff_ffff_ffff_ffff * 1_000_000_000_000) == (k as int) * (
            0xffff_ffff_ffff_ffff * 1_000_000_000_000) + 0xffff_ffff_ffff_ffff
                * 1_000_000_000_000) by (nonlinear_arith);
            assert((k as int + 1) * 1_000_000_000_000 == (k as int) * 1_000_000_000_000
                + 1_000_000_000_000) by (nonlinear_arith);
            assert((k as int) * (0xffff_ffff_ffff_ffff * 1_000_000_000_000) <= 1_000_000 * (
            0xffff_ffff_ffff_ffff * 1_000_000_000_000)) by (nonlinear_arith)
                requires
                    k <= 1_000_000,
            ;
            assert((k as int) * 1_000_000_000_000 <= 1_000_000 * 1_000_000_000_000)
                by (nonlinear_arith)
                requires
                    k <= 1_000_000,
            ;
        }
        num = num + (s.offset as u128) * w;
        den = den + w;
        k = k + 1;
    }
    proof {
        assert(samples@.take(n as int) =~= samples@);
    }
    if den == 0 {
        Err(TimeError::NoUsableSamples)
    } else {
        Ok(MeanRatio { num, den })
    }
}

/// The clock adjustment to apply for an aggregated offset estimate, in
/// milliseconds: the magnitude is capped at 200 and a fifth of it is
/// applied, keeping each correction small.
pub fn adjustment_millis(offset: i64) -> (r: i64)
    ensures
        offset >= 0 ==> r == (if offset < 200 {
            offset as int
        } else {
            200
        }) / 5,
        offset < 0 ==> r == -((if -offset < 200 {
            -offset as int
        } else {
            200
        }) / 5),
{
    let mag: u64 = if offset >= 0 {
        offset as u64
    } else if offset == i64::MIN {
        200
    } else {
        (-offset) as u64
    };
    let capped: u64 = if mag < 200 {
        mag
    } else {
        200
    };
    let step: i64 = (capped / 5) as i64;
    if offset >= 0 {
        step
    } else {
        -step
    }
}

/// The samples that a sequence of completed exchanges contributes: each
/// exchange's offset magnitude paired with its delay.
pub open spec fn samples_of(rs: Seq<NTPResult>) -> Seq<Sample> {
    rs.map_values(
        |x: NTPResult| Sample { offset: x.spec_offset() as u64, delay: x.spec_delay() as i64 },
    )
}

/// Derives one sample per completed exchange and combines them into the
/// weighted mean offset, reporting `NoUsableSamples` when nothing usable
/// remains — in particular when every server failed and `results` is empty.
pub fn aggregate(results: &Vec<NTPResult>) -> (r: Result<MeanRatio, TimeError>)
    requires
        results@.len() <= 1_000_000,
        forall|j: int|
            0 <= j < results@.len() ==> (#[trigger] results@[j]).wf() && results@[j].delay_fits(),
    ensures
        weight_sum(samples_of(results@)) == 0 ==> r == Err::<MeanRatio, TimeError>(
            TimeError::NoUsableSamples,
        ),
        weight_sum(samples_of(results@)) != 0 ==> r == Ok::<MeanRatio, TimeError>(
            MeanRatio {
                num: weighted_offset_sum(samples_of(results@)) as u128,
                den: weight_sum(samples_of(results@)) as u128,
            },
        ),
{
    let n: usize = results.len();
    let mut samples: Vec<Sample> = Vec::new();
    let mut k: usize = 0;
    while k < n
        invariant
            n == results@.len() <= 1_000_000,
            k <= n,
            forall|j: int|
                0 <= j < results@.len() ==> (#[trigger] results@[j]).wf()
                    && results@[j].delay_fits(),
            samples@ =~= samples_of(results@.take(k as int)),
        decreases n - k,
    {
        let x = &results[k];
        let offset: i64 = x.offset();
        let delay: i64 = x.delay();
        proof {
            assert(x.spec_offset() >= 0);
        }
        samples.push(Sample { offset: offset as u64, delay });
        proof {
            assert(samples@ =~= samples_of(results@.take(k as int + 1)));
        }
        k = k + 1;
    }
    proof {
        assert(results@.take(n as int) =~= results@);
    }
    weighted_mean(&samples)
}

} // verus!
