use ss::family::NETLINK_SOCK_DIAG;
use ss::request::{
    as_iovec, as_mut_iovec, build_tcp_dump_request, encode_request, DiagnosticRequest,
    SocketIdentity,
};

#[test]
fn sock_diag_is_family_four() {
    assert_eq!(NETLINK_SOCK_DIAG, 4);
}

#[test]
fn default_request_is_zero_filled() {
    let r = DiagnosticRequest::default();
    assert_eq!(r.address_family, 0);
    assert_eq!(r.transport_protocol, 0);
    assert_eq!(r.extension_flags, 0);
    assert_eq!(r.state_mask, 0);
    assert_eq!(encode_request(&r), vec![0u8; 56]);
}

#[test]
fn tcp_dump_request_header_fields() {
    let (header, _) = build_tcp_dump_request();
    assert_eq!(header.total_length, 72);
    assert_eq!(header.message_type, 20);
    assert_eq!(header.flags, 0x0301);
    assert_eq!(header.sequence, 0);
    assert_eq!(header.sender_port, 0);
}

#[test]
fn tcp_dump_request_payload_fields() {
    let (_, request) = build_tcp_dump_request();
    assert_eq!(request.address_family, 2);
    assert_eq!(request.transport_protocol, 6);
    assert_eq!(request.extension_flags, 0);
    assert_eq!(request.state_mask, 0xffff_ffff);
    let id = request.socket_id;
    assert_eq!(id.source_port, 0);
    assert_eq!(id.dest_port, 0);
    assert_eq!(id.source_address, [0; 4]);
    assert_eq!(id.dest_address, [0; 4]);
    assert_eq!(id.interface_index, 0);
    assert_eq!(id.cookie, [0; 2]);
}

#[test]
fn zeroed_identity_is_all_zero_on_the_wire() {
    let id = SocketIdentity::zeroed();
    assert_eq!(id.source_port, 0);
    assert_eq!(id.dest_port, 0);
    assert_eq!(id.source_address, [0; 4]);
    assert_eq!(id.dest_address, [0; 4]);
    assert_eq!(id.interface_index, 0);
    assert_eq!(id.cookie, [0; 2]);
}

#[test]
fn request_encodes_to_exact_bytes() {
    let (_, request) = build_tcp_dump_request();
    let bytes = encode_request(&request);
    assert_eq!(bytes.len(), 56);
    // family, protocol, extensions, pad
    assert_eq!(&bytes[0..4], &[2, 6, 0, 0]);
    // state mask, all states set
    assert_eq!(&bytes[4..8], &[0xff, 0xff, 0xff, 0xff]);
    // the zero-filled identity
    assert_eq!(&bytes[8..56], &[0u8; 48][..]);
}

#[test]
fn request_encoding_follows_field_values() {
    let (_, mut request) = build_tcp_dump_request();
    request.state_mask = 0x0000_0a01;
    request.socket_id.source_port = 0x1f90;
    request.socket_id.source_address = [0x0100_007f, 0, 0, 0];
    request.socket_id.cookie = [1, 2];
    let bytes = encode_request(&request);
    assert_eq!(&bytes[4..8], &[0x01, 0x0a, 0, 0]);
    assert_eq!(&bytes[8..10], &[0x90, 0x1f]);
    assert_eq!(&bytes[12..16], &[0x7f, 0, 0, 0x01]);
    assert_eq!(&bytes[48..56], &[1, 0, 0, 0, 2, 0, 0, 0]);
}

#[test]
fn iovec_holds_header_then_request() {
    let (header, request) = build_tcp_dump_request();
    let bufs = as_iovec(&header, &request);
    assert_eq!(bufs.len(), 2);
    assert_eq!(bufs[0].len(), 16);
    assert_eq!(bufs[1].len(), 56);
    // the header buffer starts with the total length, 72
    assert_eq!(&bufs[0][0..4], &[72, 0, 0, 0]);
    assert_eq!(bufs[1], encode_request(&request));
}

#[test]
fn receive_buffer_is_zero_filled() {
    let buf = as_mut_iovec(8192);
    assert_eq!(buf.len(), 8192);
    assert!(buf.iter().all(|b| *b == 0));
    assert_eq!(as_mut_iovec(0).len(), 0);
}
