use vstd::prelude::*;
use vstd::math::abs;
use crate::errors::TimeError;
use crate::message::{NTPMessage, RECEIVE_TIMESTAMP_OFFSET, TRANSMIT_TIMESTAMP_OFFSET};
use crate::message::spec_timestamp_at;
use crate::timestamp::{spec_to_standard, to_standard, UnixTime};

verus! {

/// The four timestamps of one completed NTP exchange: `t1` local send time,
/// `t2` server receive time, `t3` server transmit time, `t4` local receive
/// time. Only a complete exchange yields a value of this type; a timeout or
/// a malformed reply yields an error instead.
#[derive(Clone, Copy, Debug, PartialEq, Eq, Structural)]
pub struct NTPResult {
    pub t1: UnixTime,
    pub t2: UnixTime,
    pub t3: UnixTime,
    pub t4: UnixTime,
}

/// Truncating division toward zero, as the millisecond count of a signed
/// nanosecond span is taken.
pub open spec fn div_trunc(x: int, d: int) -> int
    recommends
        d > 0,
{
    if x >= 0 {
        x / d
    } else {
        -((-x) / d)
    }
}

impl NTPResult {
    /// All four timestamps carry a legal nanosecond part.
    pub open spec fn wf(self) -> bool {
        self.t1.wf() && self.t2.wf() && self.t3.wf() && self.t4.wf()
    }

    /// The round-trip network transit time net of server processing, in
    /// whole milliseconds: `(t4 - t1) - (t3 - t2)`.
    pub open spec fn spec_delay(self) -> int {
        div_trunc(
            (self.t4.total_nanos() - self.t1.total_nanos()) - (self.t3.total_nanos()
                - self.t2.total_nanos()),
            1_000_000,
        )
    }

    /// The estimated clock-skew magnitude: half the absolute delay.
    pub open spec fn spec_offset(self) -> int {
        (abs(self.spec_delay()) as int) / 2
    }

    /// The millisecond delay fits the machine word it is returned in.
    pub open spec fn delay_fits(self) -> bool {
        -(i64::MAX as int) <= self.spec_delay() <= i64::MAX as int
    }

    /// Whether the millisecond delay of this exchange fits an `i64`, checked
    /// at run time so that an unverified caller can establish `delay_fits`
    /// before asking for the delay.
    pub fn delay_in_range(&self) -> (r: bool)
        requires
            self.wf(),
        ensures
            r == self.delay_fits(),
    {
        let n1: i128 = total_nanos_exec(self.t1);
        let n2: i128 = total_nanos_exec(self.t2);
        let n3: i128 = total_nanos_exec(self.t3);
        let n4: i128 = total_nanos_exec(self.t4);
        let span: i128 = (n4 - n1) - (n3 - n2);
        let mag: u128 = if span >= 0 {
            span as u128
        } else {
            (-span) as u128
        };
        mag / 1_000_000 <= i64::MAX as u128
    }

    /// One-way network delay of the exchange in milliseconds.
    pub fn delay(&self) -> (r: i64)
        requires
            self.wf(),
            self.delay_fits(),
        ensures
            r == self.spec_delay(),
    {
        let n1: i128 = total_nanos_exec(self.t1);
        let n2: i128 = total_nanos_exec(self.t2);
        let n3: i128 = total_nanos_exec(self.t3);
        let n4: i128 = total_nanos_exec(self.t4);
        let span: i128 = (n4 - n1) - (n3 - n2);
        if span >= 0 {
            (((span as u128) / 1_000_000) as i64)
        } else {
            let mag: u128 = (-span) as u128;
            -((mag / 1_000_000) as i64)
        }
    }

    /// Estimated clock-skew magnitude of the exchange in milliseconds.
    pub fn offset(&self) -> (r: i64)
        requires
            self.wf(),
            self.delay_fits(),
        ensures
            r == self.spec_offset(),
    {
        let delta = self.delay();
        let mag: i64 = if delta < 0 {
            -delta
        } else {
            delta
        };
        ((mag as u64) / 2) as i64
    }

    /// Assembles the result of one exchange from the locally recorded send
    /// and receive times and the server's reply: `t2` and `t3` are read from
    /// the reply's receive- and transmit-timestamp fields and converted to
    /// standard timestamps. A reply too short to hold those fields is
    /// malformed.
    pub fn from_exchange(t1: UnixTime, t4: UnixTime, reply: &NTPMessage) -> (r: Result<
        NTPResult,
        TimeError,
    >)
        ensures
            reply.data@.len() >= TRANSMIT_TIMESTAMP_OFFSET + 8 ==> r == Ok::<
                NTPResult,
                TimeError,
            >(
                NTPResult {
                    t1,
                    t2: spec_to_standard(
                        spec_timestamp_at(reply.data@, RECEIVE_TIMESTAMP_OFFSET as int),
                    ),
                    t3: spec_to_standard(
                        spec_timestamp_at(reply.data@, TRANSMIT_TIMESTAMP_OFFSET as int),
                    ),
                    t4,
                },
            ),
            reply.data@.len() < TRANSMIT_TIMESTAMP_OFFSET + 8 ==> r == Err::<
                NTPResult,
                TimeError,
            >(TimeError::MalformedReply),
    {
        let rx = match reply.rx_time() {
            Ok(ts) => ts,
            Err(e) => { return Err(e); },
        };
        let tx = match reply.tx_time() {
            Ok(ts) => ts,
            Err(e) => { return Err(e); },
        };
        let t2 = to_standard(rx);
        let t3 = to_standard(tx);
        Ok(NTPResult { t1, t2, t3, t4 })
    }
}

/// The instant as a nanosecond count since 1970, computed without overflow
/// in a 128-bit word.
fn total_nanos_exec(t: UnixTime) -> (r: i128)
    requires
        t.wf(),
    ensures
        r == t.total_nanos(),
{
    (t.secs as i128) * 1_000_000_000 + (t.nanos as i128)
}

} // verus!
