use fes::handshake::handshake_in_memory;
use fes::proto::payload_of_frame;
use fes::signature::SigningKeyPair;
use fes::transport::SecureConnection;
use fes::Error;

fn secure_pair() -> (SecureConnection, SecureConnection) {
    let a = SigningKeyPair::generate();
    let b = SigningKeyPair::generate();
    handshake_in_memory(a, b, None).unwrap()
}

#[test]
fn roundtrip_both_directions() {
    let (mut c, mut s) = secure_pair();
    let m1: Vec<u8> = b"from the initiator".to_vec();
    let f1 = c.send(&m1).unwrap();
    let ct1 = payload_of_frame(&f1).unwrap();
    assert_eq!(s.recv(&ct1).unwrap(), m1);
    let m2: Vec<u8> = b"from the responder".to_vec();
    let f2 = s.send(&m2).unwrap();
    let ct2 = payload_of_frame(&f2).unwrap();
    assert_eq!(c.recv(&ct2).unwrap(), m2);
}

#[test]
fn many_messages_in_order() {
    let (mut c, mut s) = secure_pair();
    for i in 0..20u8 {
        let m: Vec<u8> = vec![i; 1 + i as usize];
        let f = c.send(&m).unwrap();
        let ct = payload_of_frame(&f).unwrap();
        assert_eq!(s.recv(&ct).unwrap(), m);
    }
    assert_eq!(c.send_counter, 20);
    assert_eq!(s.recv_counter, 20);
}

#[test]
fn ciphertext_is_tagged_not_bare() {
    let (mut c, _s) = secure_pair();
    let m: Vec<u8> = b"sixteen".to_vec();
    let f = c.send(&m).unwrap();
    // 4-byte length prefix, plaintext-sized body, 16-byte tag.
    assert_eq!(f.len(), m.len() + 20);
    let ct = payload_of_frame(&f).unwrap();
    assert!(!ct.windows(m.len()).any(|w| w == &m[..]));
}

#[test]
fn same_plaintext_never_repeats_a_frame() {
    let (mut c, mut s) = secure_pair();
    let m: Vec<u8> = b"repeated payload".to_vec();
    let f1 = c.send(&m).unwrap();
    let f2 = c.send(&m).unwrap();
    // A fresh counter nonce per frame: equal plaintexts, distinct frames.
    assert_ne!(f1, f2);
    assert_eq!(s.recv(&payload_of_frame(&f1).unwrap()).unwrap(), m);
    assert_eq!(s.recv(&payload_of_frame(&f2).unwrap()).unwrap(), m);
}

#[test]
fn corrupt_any_byte_fails_integrity() {
    let (mut c, mut s) = secure_pair();
    let m: Vec<u8> = b"brittle".to_vec();
    let f = c.send(&m).unwrap();
    let ct = payload_of_frame(&f).unwrap();
    for i in 0..ct.len() {
        let mut bad = ct.clone();
        bad[i] ^= 0x01;
        assert!(matches!(s.recv(&bad), Err(Error::Integrity)));
    }
    // The failed attempts consumed nothing: the untouched frame still
    // decrypts.
    assert_eq!(s.recv(&ct).unwrap(), m);
}

#[test]
fn truncated_ciphertext_fails_integrity() {
    let (mut c, mut s) = secure_pair();
    let m: Vec<u8> = b"short".to_vec();
    let f = c.send(&m).unwrap();
    let ct = payload_of_frame(&f).unwrap();
    let truncated: Vec<u8> = ct[..4].to_vec();
    assert!(matches!(s.recv(&truncated), Err(Error::Integrity)));
    assert!(matches!(s.recv(&Vec::new()), Err(Error::Integrity)));
}

#[test]
fn replayed_frame_rejected() {
    let (mut c, mut s) = secure_pair();
    let m: Vec<u8> = b"once only".to_vec();
    let f = c.send(&m).unwrap();
    let ct = payload_of_frame(&f).unwrap();
    assert_eq!(s.recv(&ct).unwrap(), m);
    // The receive counter moved on; the same frame no longer matches.
    assert!(matches!(s.recv(&ct), Err(Error::Integrity)));
}

#[test]
fn own_frame_rejected_by_sender() {
    let (mut c, _s) = secure_pair();
    let m: Vec<u8> = b"mirror".to_vec();
    let f = c.send(&m).unwrap();
    let ct = payload_of_frame(&f).unwrap();
    // Directions use distinct nonces: the initiator cannot read back its
    // own frame.
    assert!(matches!(c.recv(&ct), Err(Error::Integrity)));
}

#[test]
fn cross_session_frame_rejected() {
    let (mut c1, _s1) = secure_pair();
    let (_c2, mut s2) = secure_pair();
    let m: Vec<u8> = b"wrong session".to_vec();
    let f = c1.send(&m).unwrap();
    let ct = payload_of_frame(&f).unwrap();
    assert!(matches!(s2.recv(&ct), Err(Error::Integrity)));
}

#[test]
fn exchange_round_trips_between_the_pair() {
    let (mut c, mut s) = secure_pair();
    let m: Vec<u8> = b"ping".to_vec();
    assert_eq!(fes::transport::exchange(&mut c, &mut s, &m), m);
    let m2: Vec<u8> = b"pong".to_vec();
    assert_eq!(fes::transport::exchange(&mut s, &mut c, &m2), m2);
    assert_eq!(c.send_counter, 1);
    assert_eq!(s.send_counter, 1);
}

#[test]
fn exhausted_send_counter_closes_connection() {
    let (mut c, _s) = secure_pair();
    c.send_counter = u64::MAX;
    let m: Vec<u8> = b"late".to_vec();
    // Rather than wrap the counter and repeat a nonce, sending fails.
    assert!(matches!(c.send(&m), Err(Error::Integrity)));
    assert_eq!(c.send_counter, u64::MAX);
}
