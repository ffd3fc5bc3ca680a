//! Received payload together with what the sender said about it.

use vstd::prelude::*;

use bytes::Bytes;

verus! {

/// The cheaply shared byte strings of the `bytes` crate.
#[verifier::external_type_specification]
#[verifier::external_body]
pub struct ExBytes(bytes::Bytes);

/// The bytes that a `Bytes` holds.
pub uninterp spec fn contents(b: bytes::Bytes) -> Seq<u8>;

/// `Bytes::copy_from_slice` of the `bytes` crate: a new byte string that holds
/// the bytes of the slice.
pub assume_specification[ bytes::Bytes::copy_from_slice ](data: &[u8]) -> (b: bytes::Bytes)
    ensures
        contents(b) == data@,
;

/// `<Bytes as Clone>::clone` of the `bytes` crate: another handle on the same
/// bytes.
pub assume_specification[ <bytes::Bytes as Clone>::clone ](b: &bytes::Bytes) -> (r: bytes::Bytes)
    ensures
        contents(r) == contents(*b),
;

/// `<Bytes as AsRef<[u8]>>::as_ref` of the `bytes` crate: the bytes it holds, as
/// a slice.
#[verifier::external_body]
pub(crate) fn as_slice(b: &Bytes) -> (s: &[u8])
    ensures
        s@ == contents(*b),
{
    b.as_ref()
}

/// One application-layer packet delivered by SRT, with the sender's timestamp
/// where there is one.
#[derive(Debug)]
pub struct ReceivedPacket {
    /// Application payload: what the sender passed in.
    pub data: Bytes,
    /// Time at which the sender sent the packet, in microseconds since the Unix
    /// epoch. `None` where the sender did not say.
    pub sender_timestamp_us: Option<i64>,
}

impl Clone for ReceivedPacket {
    fn clone(&self) -> (p: ReceivedPacket)
        ensures
            contents(p.data) == contents(self.data),
            p.sender_timestamp_us == self.sender_timestamp_us,
    {
        ReceivedPacket {
            data: self.data.clone(),
            sender_timestamp_us: self.sender_timestamp_us,
        }
    }
}

impl ReceivedPacket {
    /// A packet without a sender timestamp.
    pub fn from_bytes(data: Bytes) -> (p: ReceivedPacket)
        ensures
            p == (ReceivedPacket { data, sender_timestamp_us: None }),
    {
        ReceivedPacket { data, sender_timestamp_us: None }
    }

    /// A packet with the sender's timestamp in microseconds. Zero is how libsrt
    /// says that the sender set none.
    pub fn with_srctime(data: Bytes, srctime_us: i64) -> (p: ReceivedPacket)
        ensures
            p == (ReceivedPacket { data, sender_timestamp_us: srctime(srctime_us) }),
    {
        let ts = if srctime_us == 0 {
            None
        } else {
            Some(srctime_us)
        };
        ReceivedPacket { data, sender_timestamp_us: ts }
    }

    /// The payload alone.
    pub fn into_bytes(self) -> (data: Bytes)
        ensures
            data == self.data,
    {
        self.data
    }

}

impl AsRef<[u8]> for ReceivedPacket {
    fn as_ref(&self) -> (s: &[u8])
        ensures
            s@ == contents(self.data),
    {
        as_slice(&self.data)
    }
}

/// The timestamp that a `srctime` of libsrt stands for.
pub open spec fn srctime(srctime_us: i64) -> Option<i64> {
    if srctime_us == 0 {
        None
    } else {
        Some(srctime_us)
    }
}

impl From<Bytes> for ReceivedPacket {
    fn from(data: Bytes) -> (p: ReceivedPacket) {
        ReceivedPacket::from_bytes(data)
    }
}

impl vstd::std_specs::convert::FromSpecImpl<Bytes> for ReceivedPacket {
    open spec fn obeys_from_spec() -> bool {
        true
    }

    open spec fn from_spec(data: Bytes) -> ReceivedPacket {
        ReceivedPacket { data, sender_timestamp_us: None }
    }
}

/// A timestamp of zero never reaches a packet, and every other one reaches it
/// unchanged.
pub proof fn law_zero_is_no_timestamp(srctime_us: i64)
    ensures
        srctime(srctime_us) != Some(0i64),
        srctime_us != 0 ==> srctime(srctime_us) == Some(srctime_us),
{
}

} // verus!
