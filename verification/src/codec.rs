//! Message header codec: alignment-padded lengths and the fixed
//! netlink message header, serialized to and from raw bytes.
//!
//! The wire format aligns every length to a 4-byte boundary, and lays
//! the five header fields out in order (length, type, flags, sequence,
//! sender port) in host byte order: least-significant byte first on the
//! platforms this protocol runs on. This is deliberate; the protocol is
//! local to one machine and is not in network byte order.

use vstd::prelude::*;

use crate::error::SessionError;

verus! {

/// Alignment boundary of the netlink wire format, in bytes.
pub const NLMSG_ALIGNTO: usize = 4;

/// Size in bytes of the fixed message header on the wire: 4 + 2 + 2 + 4 + 4.
pub const HEADER_LENGTH: usize = 16;

/// `n` rounded up to the nearest multiple of the 4-byte alignment boundary.
pub open spec fn spec_aligned(n: int) -> int {
    if n % 4 == 0 {
        n
    } else {
        n + (4 - n % 4)
    }
}

/// Rounds `value` up to the nearest multiple of the 4-byte alignment
/// boundary of the wire format.
pub fn nlmsg_align(value: usize) -> (r: usize)
    requires
        value + 3 <= usize::MAX,
    ensures
        r == spec_aligned(value as int),
{
    let rem: usize = value % NLMSG_ALIGNTO;
    if rem == 0 {
        value
    } else {
        value + (NLMSG_ALIGNTO - rem)
    }
}

/// Alignment rounds up to a multiple of 4, moving a length by less than
/// one whole boundary.
pub proof fn lemma_aligned_bounds(n: int)
    requires
        n >= 0,
    ensures
        spec_aligned(n) >= n,
        spec_aligned(n) < n + 4,
        spec_aligned(n) % 4 == 0,
{
}

/// Alignment is idempotent: an already-aligned length is left unchanged.
pub proof fn lemma_aligned_idempotent(n: int)
    requires
        n >= 0,
    ensures
        spec_aligned(spec_aligned(n)) == spec_aligned(n),
{
}

/// The aligned size of the fixed header structure.
pub fn nlmsg_hdrlen() -> (r: usize)
    ensures
        r == HEADER_LENGTH,
{
    HEADER_LENGTH
}

/// Total wire length of a message carrying `payload_size` bytes of
/// payload: the header length plus the alignment-padded payload length.
/// This value populates the outbound header's `total_length` field.
pub fn nlmsg_length(payload_size: usize) -> (r: usize)
    requires
        payload_size + 3 + HEADER_LENGTH <= usize::MAX,
    ensures
        r == HEADER_LENGTH + spec_aligned(payload_size as int),
{
    nlmsg_hdrlen() + nlmsg_align(payload_size)
}

/// The fixed netlink message header: every message, outbound or
/// inbound, starts with these five fields.
#[derive(Clone, Copy, PartialEq, Eq, Structural, Debug)]
pub struct MessageHeader {
    /// Length of the whole message, header included.
    pub total_length: u32,
    /// Type of the message content.
    pub message_type: u16,
    /// Additional flags.
    pub flags: u16,
    /// Sequence number.
    pub sequence: u32,
    /// Sender port id.
    pub sender_port: u32,
}

impl Default for MessageHeader {
    /// The all-zero header a fresh message starts from before its
    /// fields are populated.
    fn default() -> (h: MessageHeader)
        ensures
            h == (MessageHeader {
                total_length: 0,
                message_type: 0,
                flags: 0,
                sequence: 0,
                sender_port: 0,
            }),
    {
        MessageHeader { total_length: 0, message_type: 0, flags: 0, sequence: 0, sender_port: 0 }
    }
}

/// The two bytes of `v`, least-significant first.
pub open spec fn le16(v: u16) -> Seq<u8> {
    seq![(v & 0xff) as u8, ((v >> 8) & 0xff) as u8]
}

/// The four bytes of `v`, least-significant first.
pub open spec fn le32(v: u32) -> Seq<u8> {
    seq![
        (v & 0xff) as u8,
        ((v >> 8) & 0xff) as u8,
        ((v >> 16) & 0xff) as u8,
        ((v >> 24) & 0xff) as u8,
    ]
}

/// The `u16` whose bytes, least-significant first, are `b0, b1`.
pub open spec fn u16_from_le(b0: u8, b1: u8) -> u16 {
    (b0 as u16) | ((b1 as u16) << 8)
}

/// The `u32` whose bytes, least-significant first, are `b0 .. b3`.
pub open spec fn u32_from_le(b0: u8, b1: u8, b2: u8, b3: u8) -> u32 {
    (b0 as u32) | ((b1 as u32) << 8) | ((b2 as u32) << 16) | ((b3 as u32) << 24)
}

/// The 16 bytes of `h` in wire order.
pub open spec fn spec_encode(h: MessageHeader) -> Seq<u8> {
    le32(h.total_length) + le16(h.message_type) + le16(h.flags) + le32(h.sequence)
        + le32(h.sender_port)
}

/// The header whose wire bytes start `s`. Meaningful when `s` holds at
/// least a whole header.
pub open spec fn spec_decode(s: Seq<u8>) -> MessageHeader
    recommends
        s.len() >= HEADER_LENGTH,
{
    MessageHeader {
        total_length: u32_from_le(s[0], s[1], s[2], s[3]),
        message_type: u16_from_le(s[4], s[5]),
        flags: u16_from_le(s[6], s[7]),
        sequence: u32_from_le(s[8], s[9], s[10], s[11]),
        sender_port: u32_from_le(s[12], s[13], s[14], s[15]),
    }
}

/// Appends the two wire bytes of `v` to `out`.
pub(crate) fn push_u16(out: &mut Vec<u8>, v: u16)
    ensures
        final(out)@ == old(out)@ + le16(v),
{
    proof {
        assert(v & 0xff < 256 && (v >> 8) & 0xff < 256) by (bit_vector);
    }
    out.push((v & 0xff) as u8);
    out.push(((v >> 8) & 0xff) as u8);
    proof {
        assert(out@ =~= old(out)@ + le16(v));
    }
}

/// Appends the four wire bytes of `v` to `out`.
pub(crate) fn push_u32(out: &mut Vec<u8>, v: u32)
    ensures
        final(out)@ == old(out)@ + le32(v),
{
    proof {
        assert(v & 0xff < 256 && (v >> 8) & 0xff < 256 && (v >> 16) & 0xff < 256 && (v >> 24)
            & 0xff < 256) by (bit_vector);
    }
    out.push((v & 0xff) as u8);
    out.push(((v >> 8) & 0xff) as u8);
    out.push(((v >> 16) & 0xff) as u8);
    out.push(((v >> 24) & 0xff) as u8);
    proof {
        assert(out@ =~= old(out)@ + le32(v));
    }
}

/// Serializes `h` into its 16 wire bytes, fields in order, each in host
/// byte order.
pub fn encode(h: &MessageHeader) -> (out: Vec<u8>)
    ensures
        out@ == spec_encode(*h),
        out@.len() == HEADER_LENGTH,
{
    let mut out: Vec<u8> = Vec::new();
    push_u32(&mut out, h.total_length);
    push_u16(&mut out, h.message_type);
    push_u16(&mut out, h.flags);
    push_u32(&mut out, h.sequence);
    push_u32(&mut out, h.sender_port);
    proof {
        assert(out@ =~= spec_encode(*h));
    }
    out
}

/// Deserializes a header from the front of `bytes`. Fails with
/// `TruncatedMessage` when fewer than `HEADER_LENGTH` bytes are there;
/// otherwise returns exactly the header whose wire bytes start `bytes`.
pub fn decode(bytes: &[u8]) -> (r: Result<MessageHeader, SessionError>)
    ensures
        bytes@.len() >= HEADER_LENGTH ==> r == Ok::<MessageHeader, SessionError>(
            spec_decode(bytes@),
        ),
        bytes@.len() < HEADER_LENGTH ==> r == Err::<MessageHeader, SessionError>(
            SessionError::TruncatedMessage,
        ),
{
    if bytes.len() < HEADER_LENGTH {
        return Err(SessionError::TruncatedMessage);
    }
    let total_length = (bytes[0] as u32) | ((bytes[1] as u32) << 8) | ((bytes[2] as u32) << 16)
        | ((bytes[3] as u32) << 24);
    let message_type = (bytes[4] as u16) | ((bytes[5] as u16) << 8);
    let flags = (bytes[6] as u16) | ((bytes[7] as u16) << 8);
    let sequence = (bytes[8] as u32) | ((bytes[9] as u32) << 8) | ((bytes[10] as u32) << 16)
        | ((bytes[11] as u32) << 24);
    let sender_port = (bytes[12] as u32) | ((bytes[13] as u32) << 8) | ((bytes[14] as u32) << 16)
        | ((bytes[15] as u32) << 24);
    Ok(MessageHeader { total_length, message_type, flags, sequence, sender_port })
}

/// Decoding inverts encoding: a header survives the trip through its
/// wire bytes unchanged.
pub proof fn lemma_header_round_trip(h: MessageHeader)
    ensures
        spec_decode(spec_encode(h)) == h,
{
    let s = spec_encode(h);
    assert(s.len() == 16);
    let lw = h.total_length;
    let tw = h.message_type;
    let fw = h.flags;
    let qw = h.sequence;
    let pw = h.sender_port;
    assert(s[0] == (lw & 0xff) as u8 && s[1] == ((lw >> 8) & 0xff) as u8 && s[2] == ((lw >> 16)
        & 0xff) as u8 && s[3] == ((lw >> 24) & 0xff) as u8);
    assert(s[4] == (tw & 0xff) as u8 && s[5] == ((tw >> 8) & 0xff) as u8);
    assert(s[6] == (fw & 0xff) as u8 && s[7] == ((fw >> 8) & 0xff) as u8);
    assert(s[8] == (qw & 0xff) as u8 && s[9] == ((qw >> 8) & 0xff) as u8 && s[10] == ((qw >> 16)
        & 0xff) as u8 && s[11] == ((qw >> 24) & 0xff) as u8);
    assert(s[12] == (pw & 0xff) as u8 && s[13] == ((pw >> 8) & 0xff) as u8 && s[14] == ((pw >> 16)
        & 0xff) as u8 && s[15] == ((pw >> 24) & 0xff) as u8);
    assert(u32_from_le(
        (lw & 0xff) as u8,
        ((lw >> 8) & 0xff) as u8,
        ((lw >> 16) & 0xff) as u8,
        ((lw >> 24) & 0xff) as u8,
    ) == lw) by (bit_vector);
    assert(u16_from_le((tw & 0xff) as u8, ((tw >> 8) & 0xff) as u8) == tw) by (bit_vector);
    assert(u16_from_le((fw & 0xff) as u8, ((fw >> 8) & 0xff) as u8) == fw) by (bit_vector);
    assert(u32_from_le(
        (qw & 0xff) as u8,
        ((qw >> 8) & 0xff) as u8,
        ((qw >> 16) & 0xff) as u8,
        ((qw >> 24) & 0xff) as u8,
    ) == qw) by (bit_vector);
    assert(u32_from_le(
        (pw & 0xff) as u8,
        ((pw >> 8) & 0xff) as u8,
        ((pw >> 16) & 0xff) as u8,
        ((pw >> 24) & 0xff) as u8,
    ) == pw) by (bit_vector);
}

} // verus!
