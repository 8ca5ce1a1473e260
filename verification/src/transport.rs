//! The encrypted transport behind an established connection.
//!
//! The symmetric key is a hash of the Diffie-Hellman shared bytes together
//! with the handshake nonce, so the key is bound to one handshake. Each
//! direction counts its frames; the count, together with a direction byte,
//! forms the AEAD nonce, so no nonce is ever used twice under one key
//! (see [`lemma_nonce_never_reused`]). A frame whose authentication tag
//! fails to verify is a hard error and yields no plaintext.

use vstd::prelude::*;
use chacha20poly1305::KeyInit;
use chacha20poly1305::aead::Aead;
use sha2::Digest;
use crate::bytes::{lemma_u64_le_roundtrip, push_u64_le, u64_le};
use crate::dh::SharedEncryptionKey;
use crate::proto::{lemma_frame_roundtrip, make_frame, payload_of_frame, spec_frame};
use crate::signature::{clone_bytes, SigningKeyPair, SigningPubKey};
use crate::Error;

verus! {

/// The SHA-256 digest of a byte sequence.
pub uninterp spec fn sha256_of(data: Seq<u8>) -> Seq<u8>;

/// The ChaCha20-Poly1305 ciphertext of `pt` under `key` and `nonce`.
pub uninterp spec fn aead_seal(key: Seq<u8>, nonce: Seq<u8>, pt: Seq<u8>) -> Seq<u8>;

/// What ChaCha20-Poly1305 decryption of `ct` under `key` and `nonce`
/// returns: the plaintext, or nothing when the tag does not verify.
pub uninterp spec fn aead_open(key: Seq<u8>, nonce: Seq<u8>, ct: Seq<u8>) -> Option<Seq<u8>>;

/// Relies on sha2::Sha256::digest: the 32-byte digest, a function of the
/// input bytes alone.
#[verifier::external_body]
fn sha256(data: &Vec<u8>) -> (r: Vec<u8>)
    ensures
        r@ == sha256_of(data@),
        r@.len() == 32,
{
    sha2::Sha256::digest(data.as_slice()).to_vec()
}

/// Relies on chacha20poly1305::ChaCha20Poly1305 (Aead::encrypt): the
/// ciphertext is the plaintext's length plus a 16-byte tag, and decrypting
/// it under the same key and nonce gives the plaintext back. Encryption of
/// a plaintext within the cipher's length bound cannot fail.
#[verifier::external_body]
fn aead_encrypt(key: &Vec<u8>, nonce: &Vec<u8>, pt: &Vec<u8>) -> (r: Vec<u8>)
    requires
        key@.len() == 32,
        nonce@.len() == 12,
        pt@.len() <= MAX_PLAINTEXT_LEN,
    ensures
        r@ == aead_seal(key@, nonce@, pt@),
        r@.len() == pt@.len() + 16,
        aead_open(key@, nonce@, r@) == Some(pt@),
{
    let cipher = chacha20poly1305::ChaCha20Poly1305::new(
        chacha20poly1305::Key::from_slice(key.as_slice()),
    );
    cipher.encrypt(chacha20poly1305::Nonce::from_slice(nonce.as_slice()), pt.as_slice()).unwrap()
}

/// Relies on chacha20poly1305::ChaCha20Poly1305 (Aead::decrypt):
/// authenticated decryption; a ciphertext whose tag does not verify
/// yields nothing rather than garbage plaintext.
#[verifier::external_body]
fn aead_decrypt(key: &Vec<u8>, nonce: &Vec<u8>, ct: &Vec<u8>) -> (r: Option<Vec<u8>>)
    requires
        key@.len() == 32,
        nonce@.len() == 12,
    ensures
        r matches Some(pt) ==> aead_open(key@, nonce@, ct@) == Some(pt@),
        r is None ==> aead_open(key@, nonce@, ct@) is None,
{
    let cipher = chacha20poly1305::ChaCha20Poly1305::new(
        chacha20poly1305::Key::from_slice(key.as_slice()),
    );
    match cipher.decrypt(chacha20poly1305::Nonce::from_slice(nonce.as_slice()), ct.as_slice()) {
        Ok(pt) => Some(pt),
        Err(_) => None,
    }
}

/// Longest plaintext one frame can carry: its ciphertext, 16 bytes
/// longer, must still fit a 32-bit length prefix.
pub const MAX_PLAINTEXT_LEN: usize = 0xffffffef;

/// The symmetric key of one session: the shared Diffie-Hellman bytes and
/// the handshake nonce, hashed together.
pub open spec fn session_key(shared: Seq<u8>, handshake_nonce: u64) -> Seq<u8> {
    sha256_of(shared + u64_le(handshake_nonce))
}

/// The AEAD nonce of one frame: a direction byte, the 64-bit frame
/// counter, and zero padding up to 12 bytes.
pub open spec fn aead_nonce(from_client: bool, counter: u64) -> Seq<u8> {
    seq![
        if from_client {
            0u8
        } else {
            1u8
        },
    ] + u64_le(counter) + seq![0u8, 0u8, 0u8]
}

/// No AEAD nonce is ever repeated under one key: frames counted
/// differently, or sent in opposite directions, get distinct nonces.
/// `send` and `recv` advance their counters by one per frame, so every
/// frame of a connection's lifetime is sealed under a fresh nonce.
pub proof fn lemma_nonce_never_reused(d1: bool, c1: u64, d2: bool, c2: u64)
    requires
        d1 != d2 || c1 != c2,
    ensures
        aead_nonce(d1, c1) != aead_nonce(d2, c2),
{
    if aead_nonce(d1, c1) == aead_nonce(d2, c2) {
        if d1 != d2 {
            assert(aead_nonce(d1, c1)[0] != aead_nonce(d2, c2)[0]);
        } else {
            assert(aead_nonce(d1, c1).subrange(1, 9) =~= u64_le(c1));
            assert(aead_nonce(d2, c2).subrange(1, 9) =~= u64_le(c2));
            lemma_u64_le_roundtrip(c1);
            lemma_u64_le_roundtrip(c2);
        }
    }
}

/// Builds the AEAD nonce bytes for one frame.
fn aead_nonce_bytes(from_client: bool, counter: u64) -> (r: Vec<u8>)
    ensures
        r@ == aead_nonce(from_client, counter),
        r@.len() == 12,
{
    let mut out: Vec<u8> = Vec::new();
    if from_client {
        out.push(0);
    } else {
        out.push(1);
    }
    push_u64_le(&mut out, counter);
    out.push(0);
    out.push(0);
    out.push(0);
    assert(out@ =~= aead_nonce(from_client, counter));
    out
}

/// Derives the session key from the shared bytes and the handshake nonce.
fn derive_session_key(shared: &SharedEncryptionKey, handshake_nonce: u64) -> (r: Vec<u8>)
    requires
        shared.wf(),
    ensures
        r@ == session_key(shared.key@, handshake_nonce),
        r@.len() == 32,
{
    let mut buf = clone_bytes(&shared.key);
    push_u64_le(&mut buf, handshake_nonce);
    assert(buf@ =~= shared.key@ + u64_le(handshake_nonce));
    sha256(&buf)
}

/// Established and encrypted 1:1 connection.
///
/// Produced only by a successful handshake; owns the session key and both
/// direction counters. `other_id` is the verified peer identity, present
/// on the initiator's side only: the responder never receives a signed
/// initiator identity in this message flow.
#[derive(Debug)]
pub struct SecureConnection {
    /// This side's long-term identity.
    pub id: SigningKeyPair,
    /// The peer's identity, where a signature by it was verified.
    pub other_id: Option<SigningPubKey>,
    /// The session key derived by this handshake.
    pub key: Vec<u8>,
    /// How many frames this side has sealed.
    pub send_counter: u64,
    /// How many frames this side has opened.
    pub recv_counter: u64,
    /// Whether this side is the initiator; fixes the nonce direction byte.
    pub is_client: bool,
}

impl SecureConnection {
    /// The session key of this connection.
    pub open spec fn transport_key(&self) -> Seq<u8> {
        self.key@
    }

    /// How many frames this side has sealed.
    pub open spec fn send_count(&self) -> u64 {
        self.send_counter
    }

    /// How many frames this side has opened.
    pub open spec fn recv_count(&self) -> u64 {
        self.recv_counter
    }

    /// Whether this side is the initiator; fixes the nonce direction byte.
    pub open spec fn is_client_role(&self) -> bool {
        self.is_client
    }

    /// The session key has its full 32 bytes.
    pub open spec fn wf(&self) -> bool {
        self.key@.len() == 32
    }

    /// Seeds a connection with a freshly derived session key and both
    /// counters at zero.
    pub(crate) fn from_secret(
        id: SigningKeyPair,
        other_id: Option<SigningPubKey>,
        shared: SharedEncryptionKey,
        handshake_nonce: u64,
        is_client: bool,
    ) -> (r: Self)
        requires
            shared.wf(),
        ensures
            r.wf(),
            r.id == id,
            r.other_id == other_id,
            r.transport_key() == session_key(shared.key@, handshake_nonce),
            r.send_count() == 0,
            r.recv_count() == 0,
            r.is_client_role() == is_client,
    {
        let key = derive_session_key(&shared, handshake_nonce);
        SecureConnection { id, other_id, key, send_counter: 0, recv_counter: 0, is_client }
    }

    /// Seals `plaintext` into the next outgoing frame.
    ///
    /// The frame carries the ciphertext sealed under this connection's key
    /// and the nonce of the current send count; the count then advances.
    /// A plaintext too long for a frame is refused, and an exhausted
    /// counter closes the connection rather than repeat a nonce.
    pub fn send(&mut self, plaintext: &Vec<u8>) -> (r: Result<Vec<u8>, Error>)
        requires
            old(self).wf(),
        ensures
            final(self).wf(),
            final(self).transport_key() == old(self).transport_key(),
            final(self).recv_count() == old(self).recv_count(),
            final(self).is_client_role() == old(self).is_client_role(),
            final(self).id == old(self).id,
            final(self).other_id == old(self).other_id,
            (r is Ok) <==> (old(self).send_count() < u64::MAX && plaintext@.len()
                <= MAX_PLAINTEXT_LEN),
            r matches Ok(frame) ==> (final(self).send_count() == old(self).send_count() + 1
                && frame@ == spec_frame(
                aead_seal(
                    old(self).transport_key(),
                    aead_nonce(old(self).is_client_role(), old(self).send_count()),
                    plaintext@,
                ),
            ) && aead_seal(
                old(self).transport_key(),
                aead_nonce(old(self).is_client_role(), old(self).send_count()),
                plaintext@,
            ).len() == plaintext@.len() + 16 && aead_open(
                old(self).transport_key(),
                aead_nonce(old(self).is_client_role(), old(self).send_count()),
                aead_seal(
                    old(self).transport_key(),
                    aead_nonce(old(self).is_client_role(), old(self).send_count()),
                    plaintext@,
                ),
            ) == Some(plaintext@)),
            r is Err ==> final(self).send_count() == old(self).send_count(),
            old(self).send_count() == u64::MAX ==> (r matches Err(e) && e == Error::Integrity),
            (old(self).send_count() < u64::MAX && plaintext@.len() > MAX_PLAINTEXT_LEN) ==> (
            r matches Err(e) && e == Error::Logic),
    {
        if self.send_counter == u64::MAX {
            return Err(Error::Integrity);
        }
        if plaintext.len() > MAX_PLAINTEXT_LEN {
            return Err(Error::Logic);
        }
        let nonce = aead_nonce_bytes(self.is_client, self.send_counter);
        let ct = aead_encrypt(&self.key, &nonce, plaintext);
        self.send_counter = self.send_counter + 1;
        let frame = make_frame(&ct);
        Ok(frame)
    }

    /// Opens an incoming frame's payload with the nonce of the current
    /// receive count; the count advances only when the tag verifies.
    ///
    /// A payload that does not decrypt and authenticate under this
    /// connection's key is an integrity violation and yields no bytes.
    pub fn recv(&mut self, ciphertext: &Vec<u8>) -> (r: Result<Vec<u8>, Error>)
        requires
            old(self).wf(),
        ensures
            final(self).wf(),
            final(self).transport_key() == old(self).transport_key(),
            final(self).send_count() == old(self).send_count(),
            final(self).is_client_role() == old(self).is_client_role(),
            final(self).id == old(self).id,
            final(self).other_id == old(self).other_id,
            (r is Ok) <==> (old(self).recv_count() < u64::MAX && aead_open(
                old(self).transport_key(),
                aead_nonce(!old(self).is_client_role(), old(self).recv_count()),
                ciphertext@,
            ) is Some),
            r matches Ok(pt) ==> (final(self).recv_count() == old(self).recv_count() + 1
                && aead_open(
                old(self).transport_key(),
                aead_nonce(!old(self).is_client_role(), old(self).recv_count()),
                ciphertext@,
            ) == Some(pt@)),
            r is Err ==> (final(self).recv_count() == old(self).recv_count()
                && (r matches Err(e) && e == Error::Integrity)),
    {
        if self.recv_counter == u64::MAX {
            return Err(Error::Integrity);
        }
        let nonce = aead_nonce_bytes(!self.is_client, self.recv_counter);
        match aead_decrypt(&self.key, &nonce, ciphertext) {
            Some(pt) => {
                self.recv_counter = self.recv_counter + 1;
                Ok(pt)
            },
            None => Err(Error::Integrity),
        }
    }
}

/// Transport round-trip law: across a connected pair - same session key,
/// opposite roles, the receiver's count matching the sender's - what one
/// side seals the other opens, and the plaintext comes back unchanged.
pub fn exchange(
    sender: &mut SecureConnection,
    receiver: &mut SecureConnection,
    plaintext: &Vec<u8>,
) -> (r: Vec<u8>)
    requires
        old(sender).wf(),
        old(receiver).wf(),
        old(sender).transport_key() == old(receiver).transport_key(),
        old(sender).is_client_role() != old(receiver).is_client_role(),
        old(receiver).recv_count() == old(sender).send_count(),
        old(sender).send_count() < u64::MAX,
        plaintext@.len() <= MAX_PLAINTEXT_LEN,
    ensures
        r@ == plaintext@,
        final(sender).send_count() == old(sender).send_count() + 1,
        final(receiver).recv_count() == old(receiver).recv_count() + 1,
{
    let frame = match sender.send(plaintext) {
        Ok(f) => f,
        Err(_) => {
            assert(false);
            return clone_bytes(plaintext);
        },
    };
    proof {
        lemma_frame_roundtrip(
            aead_seal(
                old(sender).transport_key(),
                aead_nonce(old(sender).is_client_role(), old(sender).send_count()),
                plaintext@,
            ),
        );
    }
    let ciphertext = match payload_of_frame(&frame) {
        Ok(p) => p,
        Err(_) => {
            assert(false);
            return clone_bytes(plaintext);
        },
    };
    match receiver.recv(&ciphertext) {
        Ok(pt) => pt,
        Err(_) => {
            assert(false);
            clone_bytes(plaintext)
        },
    }
}

} // verus!
