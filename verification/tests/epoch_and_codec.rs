use ntp_clock::errors::TimeError;
use ntp_clock::message::NTPMessage;
use ntp_clock::roundtrip::NTPResult;
use ntp_clock::timestamp::{to_ntp, to_standard, NTPTimestamp, UnixTime};

#[test]
fn epoch_round_trip_preserves_microseconds() {
    let t = UnixTime { secs: 1_700_000_000, nanos: 123_456_789 };
    let back = to_standard(to_ntp(t));
    assert_eq!(back.secs, t.secs);
    assert!(back.nanos <= t.nanos);
    assert!(t.nanos - back.nanos <= 1);
}

#[test]
fn epoch_round_trip_at_whole_second() {
    let t = UnixTime { secs: 0, nanos: 0 };
    let back = to_standard(to_ntp(t));
    assert_eq!(back, t);
}

#[test]
fn to_standard_known_values() {
    let ntp = NTPTimestamp { seconds: 2_208_988_800, fraction: 0x8000_0000 };
    let t = to_standard(ntp);
    assert_eq!(t.secs, 0);
    assert_eq!(t.nanos, 500_000_000);
}

#[test]
fn to_ntp_known_values() {
    let t = UnixTime { secs: 0, nanos: 500_000_000 };
    let ntp = to_ntp(t);
    assert_eq!(ntp.seconds, 2_208_988_800);
    assert_eq!(ntp.fraction, 0x8000_0000);
}

#[test]
fn to_ntp_wraps_before_1900() {
    let t = UnixTime { secs: -2_208_988_801, nanos: 0 };
    let ntp = to_ntp(t);
    assert_eq!(ntp.seconds, u32::MAX);
}

#[test]
fn to_standard_truncates_fraction() {
    let ntp = NTPTimestamp { seconds: 2_208_988_800, fraction: 5 };
    // 5 * 10^9 / 2^32 is about 1.16 nanoseconds; truncation keeps 1.
    assert_eq!(to_standard(ntp).nanos, 1);
    let tiny = NTPTimestamp { seconds: 2_208_988_800, fraction: 1 };
    assert_eq!(to_standard(tiny).nanos, 0);
}

#[test]
fn new_message_is_all_zero() {
    let msg = NTPMessage::new();
    assert_eq!(msg.data.len(), 48);
    assert!(msg.data.iter().all(|&b| b == 0));
}

#[test]
fn client_request_sets_version_and_mode() {
    let msg = NTPMessage::client();
    assert_eq!(msg.data.len(), 48);
    assert_eq!(msg.data[0], 0x1b);
    assert!(msg.data[1..].iter().all(|&b| b == 0));
}

#[test]
fn codec_round_trip_at_fixed_fields() {
    let ts = NTPTimestamp { seconds: 0xdead_beef, fraction: 0x0102_0304 };
    let other = NTPTimestamp { seconds: 7, fraction: u32::MAX };
    let mut msg = NTPMessage::new();
    msg.write_timestamp(32, ts);
    msg.write_timestamp(40, other);
    assert_eq!(msg.rx_time(), Ok(ts));
    assert_eq!(msg.tx_time(), Ok(other));
}

#[test]
fn codec_round_trip_at_arbitrary_offset() {
    let ts = NTPTimestamp { seconds: 0x1234_5678, fraction: 0x9abc_def0 };
    let mut msg = NTPMessage::new();
    msg.write_timestamp(0, ts);
    assert_eq!(msg.parse_timestamp(0), Ok(ts));
}

#[test]
fn timestamp_bytes_are_big_endian() {
    let mut msg = NTPMessage::new();
    msg.write_timestamp(32, NTPTimestamp { seconds: 0x0102_0304, fraction: 0x0506_0708 });
    assert_eq!(&msg.data[32..40], &[1, 2, 3, 4, 5, 6, 7, 8]);
}

#[test]
fn parse_rejects_short_buffer() {
    let short = NTPMessage { data: vec![0; 40] };
    // The receive field still fits in 40 bytes; the transmit field does not.
    assert!(short.rx_time().is_ok());
    assert_eq!(short.tx_time(), Err(TimeError::MalformedReply));

    let tiny = NTPMessage { data: vec![0; 10] };
    assert_eq!(tiny.rx_time(), Err(TimeError::MalformedReply));
    assert_eq!(tiny.tx_time(), Err(TimeError::MalformedReply));
}

#[test]
fn parse_rejects_offset_past_end() {
    let msg = NTPMessage::new();
    assert_eq!(msg.parse_timestamp(41), Err(TimeError::MalformedReply));
    assert_eq!(msg.parse_timestamp(usize::MAX), Err(TimeError::MalformedReply));
}

#[test]
fn from_exchange_short_reply_is_malformed() {
    let t1 = UnixTime { secs: 0, nanos: 0 };
    let t4 = UnixTime { secs: 0, nanos: 1_000_000 };
    let short = NTPMessage { data: vec![0; 47] };
    assert_eq!(NTPResult::from_exchange(t1, t4, &short), Err(TimeError::MalformedReply));
}

#[test]
fn from_exchange_reads_server_timestamps() {
    let t1 = UnixTime { secs: 10, nanos: 0 };
    let t4 = UnixTime { secs: 11, nanos: 0 };
    let mut reply = NTPMessage::new();
    let server_time = to_ntp(UnixTime { secs: 1_700_000_000, nanos: 250_000_000 });
    reply.write_timestamp(32, server_time);
    reply.write_timestamp(40, server_time);
    let result = NTPResult::from_exchange(t1, t4, &reply).unwrap();
    assert_eq!(result.t1, t1);
    assert_eq!(result.t4, t4);
    assert_eq!(result.t2.secs, 1_700_000_000);
    assert_eq!(result.t3, result.t2);
    assert!(result.t2.nanos <= 250_000_000 && 250_000_000 - result.t2.nanos <= 1);
}
