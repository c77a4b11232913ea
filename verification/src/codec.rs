//! Record codec: fixed binary layouts of the events the kernel-side program
//! emits, and the decoding of raw byte buffers into typed records.
//!
//! The wire contract shared with the kernel-side program is byte-exact:
//! a connection verdict record is a four-byte `allowed` word (least
//! significant byte first) followed by the four address octets in textual
//! order; a query counter record is one eight-byte unsigned count (least
//! significant byte first). An event arriving on a channel outside the
//! supported set, or a buffer shorter than its record's fixed size, is a
//! protocol error: the kernel-side contract is out of step with this decoder,
//! which no retry can mend.

use vstd::arithmetic::div_mod::lemma_fundamental_div_mod_converse;
use vstd::arithmetic::div_mod::lemma_small_mod;
use vstd::prelude::*;

verus! {

/// Size in bytes of an encoded connection verdict record.
pub const CONNECTION_RECORD_SIZE: usize = 8;

/// Size in bytes of an encoded query counter record.
pub const QUERY_RECORD_SIZE: usize = 8;

/// A decoded connection record: the verdict flag and the raw source address.
/// A flag value of 1 marks the connection allowed; every other value marks it
/// dropped. The first address octet sits in the most significant byte.
#[derive(Clone, Copy, Debug, PartialEq, Eq, Structural)]
pub struct ConnectionRecord {
    pub allowed: u32,
    pub source_ip: u32,
}

/// Aggregate query-blocking counter. The channel carrying these records is
/// dormant: its layout is fixed here for forward compatibility, but no
/// presenter consumes it.
#[derive(Clone, Copy, Debug, PartialEq, Eq, Structural)]
pub struct QueryRecord {
    pub count_block: u64,
}

/// An unrecoverable mismatch between the kernel-side producer and this
/// decoder: a deployment or versioning bug, not a transient fault.
#[derive(Clone, Copy, Debug, PartialEq, Eq, Structural)]
pub enum ProtocolError {
    /// The event arrived on a channel name outside the supported set.
    UnknownChannel,
    /// The buffer is shorter than the record's fixed size.
    TruncatedRecord,
}

/// The 32-bit word held least-significant-byte-first in `b[i .. i + 4]`.
pub open spec fn le32_at(b: Seq<u8>, i: int) -> int {
    b[i] + 0x100 * b[i + 1] + 0x1_0000 * b[i + 2] + 0x100_0000 * b[i + 3]
}

/// The 32-bit word held most-significant-byte-first in `b[i .. i + 4]`.
pub open spec fn be32_at(b: Seq<u8>, i: int) -> int {
    0x100_0000 * b[i] + 0x1_0000 * b[i + 1] + 0x100 * b[i + 2] + b[i + 3]
}

/// The 64-bit word held least-significant-byte-first in `b[i .. i + 8]`.
pub open spec fn le64_at(b: Seq<u8>, i: int) -> int {
    le32_at(b, i) + 0x1_0000_0000 * le32_at(b, i + 4)
}

/// What decoding a connection buffer yields: the `allowed` word, then the
/// address with its first octet most significant, or a protocol error on a
/// buffer shorter than the record.
pub open spec fn spec_decode_connection(b: Seq<u8>) -> Result<ConnectionRecord, ProtocolError> {
    if b.len() < CONNECTION_RECORD_SIZE {
        Err(ProtocolError::TruncatedRecord)
    } else {
        Ok(ConnectionRecord { allowed: le32_at(b, 0) as u32, source_ip: be32_at(b, 4) as u32 })
    }
}

/// What decoding a query counter buffer yields.
pub open spec fn spec_decode_query(b: Seq<u8>) -> Result<QueryRecord, ProtocolError> {
    if b.len() < QUERY_RECORD_SIZE {
        Err(ProtocolError::TruncatedRecord)
    } else {
        Ok(QueryRecord { count_block: le64_at(b, 0) as u64 })
    }
}

/// The supported set of channel names on the presenter path: exactly the
/// connections channel.
pub open spec fn spec_channel_supported(name: Seq<char>) -> bool {
    name == "connections"@
}

/// Dispatch on the channel name, then decode: an unsupported name is a
/// protocol error whatever the buffer holds.
pub open spec fn spec_decode(channel: Seq<char>, b: Seq<u8>) -> Result<
    ConnectionRecord,
    ProtocolError,
> {
    if !spec_channel_supported(channel) {
        Err(ProtocolError::UnknownChannel)
    } else {
        spec_decode_connection(b)
    }
}

/// Decoding a buffer shorter than the connection record's fixed size always
/// raises a protocol error, on every channel: no truncated or garbage record
/// ever comes out.
pub proof fn lemma_short_buffer_is_protocol_error(channel: Seq<char>, b: Seq<u8>)
    requires
        b.len() < CONNECTION_RECORD_SIZE,
    ensures
        spec_decode(channel, b) is Err,
{
}

/// Decoding an event from a channel outside the supported set always raises
/// a protocol error, whatever the buffer holds.
pub proof fn lemma_unknown_channel_is_protocol_error(channel: Seq<char>, b: Seq<u8>)
    requires
        !spec_channel_supported(channel),
    ensures
        spec_decode(channel, b) == Err::<ConnectionRecord, ProtocolError>(
            ProtocolError::UnknownChannel,
        ),
{
}

/// The four octets of a word held most-significant-byte-first are the four
/// bytes themselves, in order.
pub proof fn lemma_be32_octets(b: Seq<u8>, i: int)
    requires
        0 <= i,
        i + 4 <= b.len(),
    ensures
        0 <= be32_at(b, i) < 0x1_0000_0000,
        be32_at(b, i) / 0x100_0000 % 0x100 == b[i],
        be32_at(b, i) / 0x1_0000 % 0x100 == b[i + 1],
        be32_at(b, i) / 0x100 % 0x100 == b[i + 2],
        be32_at(b, i) % 0x100 == b[i + 3],
{
    let x = be32_at(b, i);
    lemma_fundamental_div_mod_converse(
        x,
        0x100_0000,
        b[i] as int,
        0x1_0000 * b[i + 1] + 0x100 * b[i + 2] + b[i + 3],
    );
    lemma_small_mod(b[i] as nat, 0x100);
    lemma_fundamental_div_mod_converse(
        x,
        0x1_0000,
        0x100 * b[i] + b[i + 1],
        0x100 * b[i + 2] + b[i + 3],
    );
    lemma_fundamental_div_mod_converse(
        0x100 * b[i] + b[i + 1],
        0x100,
        b[i] as int,
        b[i + 1] as int,
    );
    lemma_fundamental_div_mod_converse(
        x,
        0x100,
        0x1_0000 * b[i] + 0x100 * b[i + 1] + b[i + 2],
        b[i + 3] as int,
    );
    lemma_fundamental_div_mod_converse(
        0x1_0000 * b[i] + 0x100 * b[i + 1] + b[i + 2],
        0x100,
        0x100 * b[i] + b[i + 1],
        b[i + 2] as int,
    );
}

/// Whether `channel` is in the supported set.
pub fn channel_is_supported(channel: &str) -> (r: bool)
    ensures
        r == spec_channel_supported(channel@),
{
    let name: String = channel.to_owned();
    let supported: String = "connections".to_owned();
    name == supported
}

/// Decode one connection verdict record from a raw buffer.
pub fn decode_connection(bytes: &[u8]) -> (r: Result<ConnectionRecord, ProtocolError>)
    ensures
        r == spec_decode_connection(bytes@),
{
    if bytes.len() < CONNECTION_RECORD_SIZE {
        return Err(ProtocolError::TruncatedRecord);
    }
    let allowed: u32 = (bytes[0] as u32) + 0x100 * (bytes[1] as u32) + 0x1_0000 * (
    bytes[2] as u32) + 0x100_0000 * (bytes[3] as u32);
    let source_ip: u32 = 0x100_0000 * (bytes[4] as u32) + 0x1_0000 * (bytes[5] as u32) + 0x100 * (
    bytes[6] as u32) + (bytes[7] as u32);
    Ok(ConnectionRecord { allowed, source_ip })
}

/// Decode one query counter record from a raw buffer. The query channel is
/// dormant: the event-stream dispatch never routes to this decoder, but the
/// layout stays fixed for forward compatibility.
pub fn decode_query(bytes: &[u8]) -> (r: Result<QueryRecord, ProtocolError>)
    ensures
        r == spec_decode_query(bytes@),
{
    if bytes.len() < QUERY_RECORD_SIZE {
        return Err(ProtocolError::TruncatedRecord);
    }
    let lo: u64 = (bytes[0] as u64) + 0x100 * (bytes[1] as u64) + 0x1_0000 * (bytes[2] as u64)
        + 0x100_0000 * (bytes[3] as u64);
    let hi: u64 = (bytes[4] as u64) + 0x100 * (bytes[5] as u64) + 0x1_0000 * (bytes[6] as u64)
        + 0x100_0000 * (bytes[7] as u64);
    let count_block: u64 = lo + 0x1_0000_0000 * hi;
    Ok(QueryRecord { count_block })
}

/// Decode one raw event record delivered on `channel`.
pub fn decode(channel: &str, bytes: &[u8]) -> (r: Result<ConnectionRecord, ProtocolError>)
    ensures
        r == spec_decode(channel@, bytes@),
{
    if !channel_is_supported(channel) {
        return Err(ProtocolError::UnknownChannel);
    }
    decode_connection(bytes)
}

} // verus!
