//! Diagnostic dump requests: the family-specific request structure,
//! its wire serialization, and the builder for a full TCP table dump.
//!
//! The outbound datagram is `[MessageHeader][DiagnosticRequest]` with
//! no padding between them beyond the header's own trailing alignment.
//! The identity's address slots are always 16 bytes wide regardless of
//! family; unused trailing words are zero.

use vstd::prelude::*;

use crate::codec;
use crate::codec::le16;
use crate::codec::le32;
use crate::codec::MessageHeader;
use crate::codec::HEADER_LENGTH;

verus! {

/// Message type of a socket-diagnostics-by-family request.
pub const SOCK_DIAG_BY_FAMILY: u16 = 20;

/// Flag: this message is a request.
pub const NLM_F_REQUEST: u16 = 1;

/// Flag: this message is part of a multipart response, terminated by a
/// done message. Informational on received headers; termination is
/// driven by message type alone.
pub const NLM_F_MULTI: u16 = 2;

/// Request modifier: dump from the tree root.
pub const NLM_F_ROOT: u16 = 0x100;

/// Request modifier: return all matching entries.
pub const NLM_F_MATCH: u16 = 0x200;

/// Request mode asking for a full table dump.
pub const NLM_F_DUMP: u16 = NLM_F_ROOT | NLM_F_MATCH;

/// Address family of IPv4 sockets.
pub const AF_INET: u8 = 2;

/// Transport protocol number of TCP.
pub const IPPROTO_TCP: u8 = 6;

/// State mask with every socket state selected.
pub const ALL_STATES: u32 = 0xffff_ffff;

/// Serialized size in bytes of a `DiagnosticRequest`:
/// 4 one-byte fields, the 4-byte state mask, and the 48-byte identity.
pub const REQUEST_LENGTH: usize = 56;

/// The kernel's socket-selection key: ports, addresses, interface and
/// cookie. Zero-filled it means "match all sockets".
///
/// Port and address words are in the byte order the kernel expects on
/// the wire for a populated identity; a full dump leaves them zero,
/// where the distinction vanishes.
#[derive(Clone, Copy, Debug)]
pub struct SocketIdentity {
    /// Source port of the socket to select.
    pub source_port: u16,
    /// Destination port of the socket to select.
    pub dest_port: u16,
    /// Source address, 16 bytes wide for IPv4 and IPv6 alike.
    pub source_address: [u32; 4],
    /// Destination address, 16 bytes wide for IPv4 and IPv6 alike.
    pub dest_address: [u32; 4],
    /// Interface index.
    pub interface_index: u32,
    /// Kernel-assigned socket cookie.
    pub cookie: [u32; 2],
}

/// Every field of the identity is zero: the identity selects all
/// sockets of the requested family and protocol.
pub open spec fn spec_sockid_is_zero(id: SocketIdentity) -> bool {
    &&& id.source_port == 0
    &&& id.dest_port == 0
    &&& id.source_address[0] == 0
    &&& id.source_address[1] == 0
    &&& id.source_address[2] == 0
    &&& id.source_address[3] == 0
    &&& id.dest_address[0] == 0
    &&& id.dest_address[1] == 0
    &&& id.dest_address[2] == 0
    &&& id.dest_address[3] == 0
    &&& id.interface_index == 0
    &&& id.cookie[0] == 0
    &&& id.cookie[1] == 0
}

impl SocketIdentity {
    /// The all-zero identity, matching every socket in a dump.
    pub fn zeroed() -> (id: SocketIdentity)
        ensures
            spec_sockid_is_zero(id),
    {
        SocketIdentity {
            source_port: 0,
            dest_port: 0,
            source_address: [0, 0, 0, 0],
            dest_address: [0, 0, 0, 0],
            interface_index: 0,
            cookie: [0, 0],
        }
    }
}

/// A family-specific diagnostics request: "give me all sockets of this
/// family and protocol whose state matches this mask".
#[derive(Clone, Copy, Debug)]
pub struct DiagnosticRequest {
    /// Address family of the sockets to dump.
    pub address_family: u8,
    /// Transport protocol of the sockets to dump.
    pub transport_protocol: u8,
    /// Extension flags asking for optional per-record attributes.
    pub extension_flags: u8,
    /// Bit mask of socket states to include.
    pub state_mask: u32,
    /// Socket-selection identity; zero-filled for a full dump.
    pub socket_id: SocketIdentity,
}

impl Default for DiagnosticRequest {
    /// The zero-filled request a builder starts from: no family, no
    /// protocol, no states selected, the all-zero identity.
    fn default() -> (r: DiagnosticRequest)
        ensures
            r.address_family == 0,
            r.transport_protocol == 0,
            r.extension_flags == 0,
            r.state_mask == 0,
            spec_sockid_is_zero(r.socket_id),
    {
        DiagnosticRequest {
            address_family: 0,
            transport_protocol: 0,
            extension_flags: 0,
            state_mask: 0,
            socket_id: SocketIdentity::zeroed(),
        }
    }
}

/// The 48 wire bytes of a socket identity, fields in order.
pub open spec fn spec_encode_sockid(id: SocketIdentity) -> Seq<u8> {
    le16(id.source_port) + le16(id.dest_port) + le32(id.source_address[0]) + le32(
        id.source_address[1],
    ) + le32(id.source_address[2]) + le32(id.source_address[3]) + le32(id.dest_address[0]) + le32(
        id.dest_address[1],
    ) + le32(id.dest_address[2]) + le32(id.dest_address[3]) + le32(id.interface_index) + le32(
        id.cookie[0],
    ) + le32(id.cookie[1])
}

/// The 56 wire bytes of a diagnostics request: the three one-byte
/// fields, one explicit padding byte, the state mask, the identity.
pub open spec fn spec_encode_request(r: DiagnosticRequest) -> Seq<u8> {
    seq![r.address_family, r.transport_protocol, r.extension_flags, 0u8] + le32(r.state_mask)
        + spec_encode_sockid(r.socket_id)
}

/// Serializes `req` into its 56 wire bytes, fields in order, each in
/// host byte order, with the padding byte written as zero.
pub fn encode_request(req: &DiagnosticRequest) -> (out: Vec<u8>)
    ensures
        out@ == spec_encode_request(*req),
        out@.len() == REQUEST_LENGTH,
{
    let mut out: Vec<u8> = Vec::new();
    out.push(req.address_family);
    out.push(req.transport_protocol);
    out.push(req.extension_flags);
    out.push(0);
    codec::push_u32(&mut out, req.state_mask);
    codec::push_u16(&mut out, req.socket_id.source_port);
    codec::push_u16(&mut out, req.socket_id.dest_port);
    codec::push_u32(&mut out, req.socket_id.source_address[0]);
    codec::push_u32(&mut out, req.socket_id.source_address[1]);
    codec::push_u32(&mut out, req.socket_id.source_address[2]);
    codec::push_u32(&mut out, req.socket_id.source_address[3]);
    codec::push_u32(&mut out, req.socket_id.dest_address[0]);
    codec::push_u32(&mut out, req.socket_id.dest_address[1]);
    codec::push_u32(&mut out, req.socket_id.dest_address[2]);
    codec::push_u32(&mut out, req.socket_id.dest_address[3]);
    codec::push_u32(&mut out, req.socket_id.interface_index);
    codec::push_u32(&mut out, req.socket_id.cookie[0]);
    codec::push_u32(&mut out, req.socket_id.cookie[1]);
    proof {
        assert(out@ =~= spec_encode_request(*req));
    }
    out
}

/// Builds the request for a full dump of the IPv4 TCP socket table:
/// every state selected, no extensions, the all-zero identity, and a
/// header whose length covers header plus request and whose flags ask
/// for a dump.
pub fn build_tcp_dump_request() -> (r: (MessageHeader, DiagnosticRequest))
    ensures
        r.0.total_length == HEADER_LENGTH + REQUEST_LENGTH,
        r.0.message_type == SOCK_DIAG_BY_FAMILY,
        r.0.flags == (NLM_F_REQUEST | NLM_F_DUMP),
        r.0.sequence == 0,
        r.0.sender_port == 0,
        r.1.address_family == AF_INET,
        r.1.transport_protocol == IPPROTO_TCP,
        r.1.extension_flags == 0,
        r.1.state_mask == ALL_STATES,
        spec_sockid_is_zero(r.1.socket_id),
{
    let total = codec::nlmsg_length(REQUEST_LENGTH);
    let header = MessageHeader {
        total_length: total as u32,
        message_type: SOCK_DIAG_BY_FAMILY,
        flags: NLM_F_REQUEST | NLM_F_DUMP,
        sequence: 0,
        sender_port: 0,
    };
    let request = DiagnosticRequest {
        address_family: AF_INET,
        transport_protocol: IPPROTO_TCP,
        extension_flags: 0,
        state_mask: ALL_STATES,
        socket_id: SocketIdentity::zeroed(),
    };
    (header, request)
}

/// The scatter-gather send buffers of one dump request: the encoded
/// header followed by the encoded request payload, ready for a
/// transport that sends a vector of byte buffers as one message.
pub fn as_iovec(header: &MessageHeader, request: &DiagnosticRequest) -> (bufs: Vec<Vec<u8>>)
    ensures
        bufs@.len() == 2,
        bufs@[0]@ == codec::spec_encode(*header),
        bufs@[1]@ == spec_encode_request(*request),
{
    let mut bufs: Vec<Vec<u8>> = Vec::new();
    bufs.push(codec::encode(header));
    bufs.push(encode_request(request));
    bufs
}

/// A zero-filled receive buffer of the given size, for the transport
/// to fill with one inbound datagram.
pub fn as_mut_iovec(size: usize) -> (buf: Vec<u8>)
    ensures
        buf@.len() == size,
        forall|i: int| 0 <= i < buf@.len() ==> buf@[i] == 0u8,
{
    let mut buf: Vec<u8> = Vec::new();
    while buf.len() < size
        invariant
            buf@.len() <= size,
            forall|i: int| 0 <= i < buf@.len() ==> buf@[i] == 0u8,
        decreases size - buf@.len(),
    {
        buf.push(0);
    }
    buf
}

} // verus!
