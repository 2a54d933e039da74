use vstd::prelude::*;

verus! {

/// The failures that can arise while estimating the clock offset.
///
/// `NetworkError` and `Timeout` are produced at the I/O boundary around this
/// library; `MalformedReply` is produced when a reply buffer is too short to
/// hold the timestamp fields; `NoUsableSamples` is produced when every
/// server's sample was missing or filtered out of the weighted mean.
#[derive(Clone, Copy, Debug, PartialEq, Eq, Structural)]
pub enum TimeError {
    NetworkError,
    Timeout,
    MalformedReply,
    NoUsableSamples,
}

} // verus!
