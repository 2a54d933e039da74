use vstd::prelude::*;
use crate::errors::TimeError;
use crate::timestamp::NTPTimestamp;

verus! {

/// Length in bytes of an NTP client/server message.
pub const NTP_MESSAGE_LENGTH: usize = 48;

/// Byte offset of the server's receive timestamp within a reply.
pub const RECEIVE_TIMESTAMP_OFFSET: usize = 32;

/// Byte offset of the server's transmit timestamp within a reply.
pub const TRANSMIT_TIMESTAMP_OFFSET: usize = 40;

/// The value of four bytes read as one big-endian unsigned 32-bit integer.
pub open spec fn be_u32_of(s: Seq<u8>) -> int
    recommends
        s.len() == 4,
{
    0x100_0000 * s[0] + 0x1_0000 * s[1] + 0x100 * s[2] + s[3]
}

/// The timestamp stored at byte offset `i` of a buffer: four big-endian
/// bytes of seconds followed by four big-endian bytes of fraction.
pub open spec fn spec_timestamp_at(s: Seq<u8>, i: int) -> NTPTimestamp
    recommends
        0 <= i,
        i + 8 <= s.len(),
{
    NTPTimestamp {
        seconds: be_u32_of(s.subrange(i, i + 4)) as u32,
        fraction: be_u32_of(s.subrange(i + 4, i + 8)) as u32,
    }
}

/// Reads four bytes starting at `i` as a big-endian unsigned 32-bit integer.
fn read_be_u32(data: &Vec<u8>, i: usize) -> (r: u32)
    requires
        i + 4 <= data@.len(),
    ensures
        r == be_u32_of(data@.subrange(i as int, i as int + 4)),
{
    let n: usize = data.len();
    proof {
        assert(i + 4 <= n);
    }
    let b0 = data[i];
    let b1 = data[i + 1];
    let b2 = data[i + 2];
    let b3 = data[i + 3];
    (b0 as u32) * 0x100_0000 + (b1 as u32) * 0x1_0000 + (b2 as u32) * 0x100 + (b3 as u32)
}

/// Writes `v` as four big-endian bytes starting at `i`.
fn write_be_u32(data: &mut Vec<u8>, i: usize, v: u32)
    requires
        i + 4 <= old(data)@.len(),
    ensures
        final(data)@.len() == old(data)@.len(),
        be_u32_of(final(data)@.subrange(i as int, i as int + 4)) == v,
        forall|j: int|
            0 <= j < old(data)@.len() && !(i <= j < i + 4) ==> final(data)@[j] == old(data)@[j],
{
    let n: usize = data.len();
    proof {
        assert(v == 0x100_0000 * (v / 0x100_0000) + 0x1_0000 * ((v / 0x1_0000) % 0x100) + 0x100 * (
        (v / 0x100) % 0x100) + (v % 0x100)) by (bit_vector);
        assert(v / 0x100_0000 < 0x100) by (bit_vector);
        assert(i + 4 <= n);
    }
    data[i] = (v / 0x100_0000) as u8;
    data[i + 1] = ((v / 0x1_0000) % 0x100) as u8;
    data[i + 2] = ((v / 0x100) % 0x100) as u8;
    data[i + 3] = (v % 0x100) as u8;
}

/// A fixed-format NTP message buffer. A request the library builds is always
/// `NTP_MESSAGE_LENGTH` bytes; a received reply may be shorter, and parsing
/// checks the length defensively.
pub struct NTPMessage {
    pub data: Vec<u8>,
}

impl NTPMessage {
    /// An all-zero message of the standard length.
    pub fn new() -> (r: NTPMessage)
        ensures
            r.data@.len() == NTP_MESSAGE_LENGTH,
            forall|j: int| 0 <= j < r.data@.len() ==> r.data@[j] == 0,
    {
        let mut data: Vec<u8> = Vec::new();
        let mut k: usize = 0;
        while k < NTP_MESSAGE_LENGTH
            invariant
                data@.len() == k,
                k <= NTP_MESSAGE_LENGTH,
                forall|j: int| 0 <= j < k ==> data@[j] == 0,
            decreases NTP_MESSAGE_LENGTH - k,
        {
            data.push(0);
            k = k + 1;
        }
        NTPMessage { data }
    }

    /// A client request: byte 0 carries version 3 in bits 3–5 and mode 3
    /// (client) in bits 0–2; every other byte is zero.
    pub fn client() -> (r: NTPMessage)
        ensures
            r.data@.len() == NTP_MESSAGE_LENGTH,
            r.data@[0] == 0x1b,
            forall|j: int| 1 <= j < r.data@.len() ==> r.data@[j] == 0,
    {
        let version: u8 = 0b00_011_000;
        let mode: u8 = 0b00_000_011;
        proof {
            assert((0b00_011_000u8 | 0b00_000_011u8) == 0x1bu8) by (bit_vector);
        }
        let mut msg = NTPMessage::new();
        msg.data[0] = version | mode;
        msg
    }

    /// Reads the timestamp stored at byte offset `i`, or reports a malformed
    /// reply when fewer than eight bytes are available there.
    pub fn parse_timestamp(&self, i: usize) -> (r: Result<NTPTimestamp, TimeError>)
        ensures
            i + 8 <= self.data@.len() ==> r == Ok::<NTPTimestamp, TimeError>(
                spec_timestamp_at(self.data@, i as int),
            ),
            i + 8 > self.data@.len() ==> r == Err::<NTPTimestamp, TimeError>(
                TimeError::MalformedReply,
            ),
    {
        if self.data.len() < 8 || i > self.data.len() - 8 {
            return Err(TimeError::MalformedReply);
        }
        let seconds = read_be_u32(&self.data, i);
        let fraction = read_be_u32(&self.data, i + 4);
        Ok(NTPTimestamp { seconds, fraction })
    }

    /// The server receive timestamp of a reply.
    pub fn rx_time(&self) -> (r: Result<NTPTimestamp, TimeError>)
        ensures
            RECEIVE_TIMESTAMP_OFFSET + 8 <= self.data@.len() ==> r == Ok::<
                NTPTimestamp,
                TimeError,
            >(spec_timestamp_at(self.data@, RECEIVE_TIMESTAMP_OFFSET as int)),
            RECEIVE_TIMESTAMP_OFFSET + 8 > self.data@.len() ==> r == Err::<
                NTPTimestamp,
                TimeError,
            >(TimeError::MalformedReply),
    {
        self.parse_timestamp(RECEIVE_TIMESTAMP_OFFSET)
    }

    /// The server transmit timestamp of a reply.
    pub fn tx_time(&self) -> (r: Result<NTPTimestamp, TimeError>)
        ensures
            TRANSMIT_TIMESTAMP_OFFSET + 8 <= self.data@.len() ==> r == Ok::<
                NTPTimestamp,
                TimeError,
            >(spec_timestamp_at(self.data@, TRANSMIT_TIMESTAMP_OFFSET as int)),
            TRANSMIT_TIMESTAMP_OFFSET + 8 > self.data@.len() ==> r == Err::<
                NTPTimestamp,
                TimeError,
            >(TimeError::MalformedReply),
    {
        self.parse_timestamp(TRANSMIT_TIMESTAMP_OFFSET)
    }

    /// Writes `ts` at byte offset `i` in the wire encoding that
    /// `parse_timestamp` reads: the ensures states the codec round-trip,
    /// `parse_timestamp` at `i` recovers `ts` exactly.
    pub fn write_timestamp(&mut self, i: usize, ts: NTPTimestamp)
        requires
            i + 8 <= old(self).data@.len(),
        ensures
            final(self).data@.len() == old(self).data@.len(),
            spec_timestamp_at(final(self).data@, i as int) == ts,
            forall|j: int|
                0 <= j < old(self).data@.len() && !(i <= j < i + 8) ==> final(self).data@[j] == old(
                    self,
                ).data@[j],
    {
        let n: usize = self.data.len();
        write_be_u32(&mut self.data, i, ts.seconds);
        let ghost mid: Seq<u8> = self.data@;
        write_be_u32(&mut self.data, i + 4, ts.fraction);
        proof {
            assert(self.data@.subrange(i as int, i as int + 4) =~= mid.subrange(
                i as int,
                i as int + 4,
            ));
        }
    }
}

} // verus!
