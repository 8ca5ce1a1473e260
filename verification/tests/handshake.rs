use fes::handshake::{handshake_in_memory, ClientKeySent, Connection};
use fes::proto::{payload_of_frame, ClientSays, Nonce, ProtocolVersion, ServerSays, UnsignedDH, PROTOCOL_V1};
use fes::signature::SigningKeyPair;
use fes::transport::SecureConnection;
use fes::Error;

/// Drives both roles up to the responder's signed key exchange; returns
/// the initiator's awaiting state, the responder's signed key-exchange
/// payload, and the responder's finished connection.
fn until_server_dh(
    a: &SigningKeyPair,
    b: &SigningKeyPair,
) -> (ClientKeySent, Vec<u8>, SecureConnection) {
    let (ch, f1) = Connection::new(a.clone()).client_start(None);
    let sh = Connection::new(b.clone()).server_start();
    let p1 = payload_of_frame(&f1).unwrap();
    let (shs, f2) = sh.on_client_hello(&p1).unwrap();
    let p2 = payload_of_frame(&f2).unwrap();
    let (cks, f3) = ch.on_server_hello(&p2).unwrap();
    let p3 = payload_of_frame(&f3).unwrap();
    let (ssec, f4) = shs.on_client_dh(&p3).unwrap();
    let p4 = payload_of_frame(&f4).unwrap();
    (cks, p4, ssec)
}

#[test]
fn mutual_handshake_by_steps() {
    let a = SigningKeyPair::generate();
    let b = SigningKeyPair::generate();
    let (cks, p4, ssec) = until_server_dh(&a, &b);
    let csec = cks.on_server_dh(&p4).unwrap();
    assert_eq!(csec.key, ssec.key);
    assert_eq!(csec.other_id.as_ref().unwrap().public_key, b.public_key);
    assert!(ssec.other_id.is_none());
    assert_eq!(csec.id.public_key, a.public_key);
    assert_eq!(ssec.id.public_key, b.public_key);
}

#[test]
fn mutual_handshake_in_memory() {
    let a = SigningKeyPair::generate();
    let b = SigningKeyPair::generate();
    let (csec, ssec) = handshake_in_memory(a.clone(), b.clone(), None).unwrap();
    assert_eq!(csec.key, ssec.key);
    assert_eq!(csec.key.len(), 32);
    assert_eq!(csec.other_id.as_ref().unwrap().public_key, b.public_key);
    assert!(ssec.other_id.is_none());
    assert_eq!(csec.send_counter, 0);
    assert_eq!(ssec.send_counter, 0);
}

#[test]
fn distinct_handshakes_derive_distinct_keys() {
    let a = SigningKeyPair::generate();
    let b = SigningKeyPair::generate();
    let (c1, _) = handshake_in_memory(a.clone(), b.clone(), None).unwrap();
    let (c2, _) = handshake_in_memory(a, b, None).unwrap();
    assert_ne!(c1.key, c2.key);
}

#[test]
fn version_mismatch_rejected() {
    let b = SigningKeyPair::generate();
    let sh = Connection::new(b).server_start();
    let bad_hello = ClientSays::Hello(ProtocolVersion(PROTOCOL_V1 ^ 1)).encode();
    // The hello step fails before any key exchange exists on either side.
    assert!(matches!(sh.on_client_hello(&bad_hello), Err(Error::LibVersion)));
}

#[test]
fn echoed_version_rejected_by_client() {
    // A responder echoing the version itself, instead of the reply value,
    // is refused.
    let a = SigningKeyPair::generate();
    let b = SigningKeyPair::generate();
    let (ch, _f1) = Connection::new(a).client_start(None);
    let echo = ServerSays::Hello(
        fes::proto::ProtocolReply(PROTOCOL_V1),
        b.public(),
    )
    .encode();
    assert!(matches!(ch.on_server_hello(&echo), Err(Error::LibVersion)));
}

#[test]
fn out_of_sequence_messages_rejected() {
    let a = SigningKeyPair::generate();
    let b = SigningKeyPair::generate();
    // The responder gets a key exchange where a hello is expected.
    let sh = Connection::new(b.clone()).server_start();
    let dh_payload = ClientSays::DH(UnsignedDH(
        fes::dh::DhKeyPair::generate().public(),
        Nonce(7),
    ))
    .encode();
    assert!(matches!(sh.on_client_hello(&dh_payload), Err(Error::Logic)));
    // The initiator gets a hello where the signed key exchange is
    // expected.
    let (cks, _p4, _ssec) = until_server_dh(&a, &b);
    let hello_payload = ServerSays::Hello(ProtocolVersion::v1().reply(), b.public()).encode();
    assert!(matches!(cks.on_server_dh(&hello_payload), Err(Error::Logic)));
}

#[test]
fn garbage_payload_rejected() {
    let a = SigningKeyPair::generate();
    let b = SigningKeyPair::generate();
    let sh = Connection::new(b.clone()).server_start();
    assert!(matches!(sh.on_client_hello(&vec![0xde, 0xad, 0xbe, 0xef]), Err(Error::Decode)));
    let (cks, _p4, _ssec) = until_server_dh(&a, &b);
    assert!(matches!(cks.on_server_dh(&vec![]), Err(Error::Decode)));
}

#[test]
fn nonce_mismatch_rejected() {
    let a = SigningKeyPair::generate();
    let b = SigningKeyPair::generate();
    let (cks, p4, _ssec) = until_server_dh(&a, &b);
    // Re-encode the validly signed response with a different nonce.
    let (unsigned, sig) = match ServerSays::decode(&p4).unwrap() {
        ServerSays::DH(u, s) => (u, s),
        _ => unreachable!(),
    };
    let forged = ServerSays::DH(
        UnsignedDH(unsigned.0, Nonce(unsigned.1 .0.wrapping_add(1))),
        sig,
    )
    .encode();
    assert!(matches!(cks.on_server_dh(&forged), Err(Error::Logic)));
}

#[test]
fn nonce_replay_rejected() {
    let a = SigningKeyPair::generate();
    let b = SigningKeyPair::generate();
    // Capture a validly signed response from an earlier handshake...
    let (_cks_old, p4_old, _ssec_old) = until_server_dh(&a, &b);
    // ...and replay it into a fresh handshake with its own nonce.
    let (cks_new, _p4_new, _ssec_new) = until_server_dh(&a, &b);
    assert!(matches!(cks_new.on_server_dh(&p4_old), Err(Error::Logic)));
}

#[test]
fn tampered_signature_rejected() {
    let a = SigningKeyPair::generate();
    let b = SigningKeyPair::generate();
    // The signature occupies bytes 41..105 of the payload; flipping any
    // of its 512 bits must fail verification.
    for bit in 0..512usize {
        let (cks, mut p4, _ssec) = until_server_dh(&a, &b);
        p4[41 + bit / 8] ^= 1 << (bit % 8);
        assert!(matches!(cks.on_server_dh(&p4), Err(Error::Logic)));
    }
}

#[test]
fn pinning_match_succeeds() {
    let a = SigningKeyPair::generate();
    let b = SigningKeyPair::generate();
    let (csec, ssec) = handshake_in_memory(a, b.clone(), Some(b.public())).unwrap();
    assert_eq!(csec.key, ssec.key);
    assert_eq!(csec.other_id.unwrap().public_key, b.public_key);
}

#[test]
fn pinning_mismatch_rejected() {
    let a = SigningKeyPair::generate();
    let b = SigningKeyPair::generate();
    let other = SigningKeyPair::generate();
    assert!(matches!(
        handshake_in_memory(a.clone(), b.clone(), Some(other.public())),
        Err(Error::Rejected)
    ));
    // Step for step: the responder's hello is valid and signed material
    // would follow, yet the mismatching identity alone aborts.
    let (ch, _f1) = Connection::new(a).client_start(Some(other.public()));
    let real = ServerSays::Hello(ProtocolVersion::v1().reply(), b.public()).encode();
    assert!(matches!(ch.on_server_hello(&real), Err(Error::Rejected)));
}
