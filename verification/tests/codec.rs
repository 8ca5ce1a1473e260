use fes::proto::{
    frame_len, handshake_frame_len, make_frame, payload_of_frame, ClientSays, Nonce,
    ProtocolVersion, ServerSays, UnsignedDH, MAX_HANDSHAKE_PAYLOAD_LEN, PROTOCOL_V1,
    PROTOCOL_V1_REPLY,
};
use fes::dh::DhPubKey;
use fes::signature::{Signature, SigningPubKey};
use fes::Error;

fn sample_pk(fill: u8) -> DhPubKey {
    DhPubKey { public_key: vec![fill; 32] }
}

#[test]
fn roundtrip_client_hello() {
    let m = ClientSays::Hello(ProtocolVersion::v1());
    let b = m.encode();
    assert_eq!(ClientSays::decode(&b), Ok(m));
}

#[test]
fn roundtrip_client_dh() {
    let m = ClientSays::DH(UnsignedDH(sample_pk(0xab), Nonce(0x1122334455667788)));
    let b = m.encode();
    assert_eq!(b.len(), 41);
    assert_eq!(ClientSays::decode(&b), Ok(m));
}

#[test]
fn roundtrip_server_hello() {
    let m = ServerSays::Hello(
        ProtocolVersion::v1().reply(),
        SigningPubKey { public_key: (0..32).collect() },
    );
    let b = m.encode();
    assert_eq!(b.len(), 41);
    assert_eq!(ServerSays::decode(&b), Ok(m));
}

#[test]
fn roundtrip_server_dh() {
    let m = ServerSays::DH(
        UnsignedDH(sample_pk(0x5c), Nonce(u64::MAX)),
        Signature { bytes: (0..64).collect() },
    );
    let b = m.encode();
    assert_eq!(b.len(), 105);
    assert_eq!(ServerSays::decode(&b), Ok(m));
}

#[test]
fn client_hello_exact_bytes() {
    let b = ClientSays::Hello(ProtocolVersion::v1()).encode();
    assert_eq!(
        b,
        vec![0x00, 0xd5, 0x39, 0x1a, 0xf7, 0x02, 0x12, 0x17, 0xf8]
    );
    assert_eq!(PROTOCOL_V1, 0xf8171202f71a39d5);
    assert_eq!(PROTOCOL_V1_REPLY, 0xc2df3fd948e534a2);
}

#[test]
fn reply_value_differs_from_version() {
    // An echo server sending the version back must not pass the check.
    assert_ne!(PROTOCOL_V1, PROTOCOL_V1_REPLY);
    assert_eq!(ProtocolVersion::v1().reply().0, PROTOCOL_V1_REPLY);
}

#[test]
fn decode_rejects_empty() {
    assert_eq!(ClientSays::decode(&vec![]), Err(Error::Decode));
    assert_eq!(ServerSays::decode(&vec![]), Err(Error::Decode));
}

#[test]
fn decode_rejects_unknown_tag() {
    let mut b = ClientSays::Hello(ProtocolVersion::v1()).encode();
    b[0] = 0x7f;
    assert_eq!(ClientSays::decode(&b), Err(Error::Decode));
    assert_eq!(ServerSays::decode(&b), Err(Error::Decode));
}

#[test]
fn decode_rejects_wrong_length() {
    let mut b = ClientSays::Hello(ProtocolVersion::v1()).encode();
    b.push(0);
    assert_eq!(ClientSays::decode(&b), Err(Error::Decode));
    b.truncate(5);
    assert_eq!(ClientSays::decode(&b), Err(Error::Decode));
    let mut s = ServerSays::DH(
        UnsignedDH(sample_pk(1), Nonce(2)),
        Signature { bytes: vec![3; 64] },
    )
    .encode();
    s.truncate(104);
    assert_eq!(ServerSays::decode(&s), Err(Error::Decode));
}

#[test]
fn frame_roundtrip() {
    let payload: Vec<u8> = vec![9, 8, 7, 6, 5];
    let frame = make_frame(&payload);
    assert_eq!(frame[..4], [5, 0, 0, 0]);
    assert_eq!(payload_of_frame(&frame), Ok(payload));
}

#[test]
fn frame_len_reads_header() {
    let payload: Vec<u8> = vec![1; 300];
    let frame = make_frame(&payload);
    let header: Vec<u8> = frame[..4].to_vec();
    assert_eq!(frame_len(&header), Ok(300));
    assert_eq!(frame_len(&vec![1, 2, 3]), Err(Error::Decode));
}

#[test]
fn handshake_frame_len_caps_implausible_lengths() {
    // The longest handshake message is the signed key exchange.
    let longest = ServerSays::DH(
        UnsignedDH(sample_pk(1), Nonce(2)),
        Signature { bytes: vec![3; 64] },
    )
    .encode();
    assert_eq!(longest.len(), MAX_HANDSHAKE_PAYLOAD_LEN);
    let frame = make_frame(&longest);
    let header: Vec<u8> = frame[..4].to_vec();
    assert_eq!(handshake_frame_len(&header), Ok(MAX_HANDSHAKE_PAYLOAD_LEN));
    // A header advertising more is rejected before anything is read.
    let huge: Vec<u8> = vec![0xff, 0xff, 0xff, 0xff];
    assert_eq!(handshake_frame_len(&huge), Err(Error::Decode));
    let slightly_over: Vec<u8> = vec![106, 0, 0, 0];
    assert_eq!(handshake_frame_len(&slightly_over), Err(Error::Decode));
    assert_eq!(handshake_frame_len(&vec![1, 2, 3]), Err(Error::Decode));
}

#[test]
fn frame_rejects_bad_length_prefix() {
    let payload: Vec<u8> = vec![9, 8, 7];
    let mut frame = make_frame(&payload);
    frame[0] = 9;
    assert_eq!(payload_of_frame(&frame), Err(Error::Decode));
    assert_eq!(payload_of_frame(&vec![1, 2]), Err(Error::Decode));
}
