//! Ephemeral key agreement.
//!
//! A fresh X25519 key pair is generated per handshake and used for exactly
//! one Diffie-Hellman derivation. The scalar multiplication itself is done
//! by the `x25519-dalek` crate; its results are named by the uninterpreted
//! functions below, including the agreement fact that both parties of an
//! exchange derive the same bytes.

use vstd::prelude::*;
use crate::signature::clone_bytes;

verus! {

/// The public point derived from a 32-byte X25519 secret scalar.
pub uninterp spec fn x25519_public(sk: Seq<u8>) -> Seq<u8>;

/// The X25519 shared bytes of a secret scalar and a peer public point.
pub uninterp spec fn x25519_shared(sk: Seq<u8>, pk: Seq<u8>) -> Seq<u8>;

/// Relies on x25519_dalek::StaticSecret::random_from_rng: 32 fresh bytes
/// from the system's secure random source.
#[verifier::external_body]
fn x25519_new_secret() -> (r: Vec<u8>)
    ensures
        r@.len() == 32,
{
    x25519_dalek::StaticSecret::random_from_rng(rand::rngs::OsRng).to_bytes().to_vec()
}

/// Relies on x25519_dalek::PublicKey::from(&StaticSecret): the public
/// point determined by the secret scalar.
#[verifier::external_body]
fn x25519_public_of(sk: &Vec<u8>) -> (r: Vec<u8>)
    requires
        sk@.len() == 32,
    ensures
        r@.len() == 32,
        r@ == x25519_public(sk@),
{
    let arr: [u8; 32] = sk.as_slice().try_into().unwrap();
    let secret = x25519_dalek::StaticSecret::from(arr);
    x25519_dalek::PublicKey::from(&secret).as_bytes().to_vec()
}

/// Relies on x25519_dalek::StaticSecret::diffie_hellman: the shared point
/// of a secret scalar and a peer public point. Diffie-Hellman agreement:
/// when the peer point is itself derived from a scalar, both orders of the
/// exchange give the same bytes.
#[verifier::external_body]
fn x25519_dh(sk: &Vec<u8>, peer: &Vec<u8>) -> (r: Vec<u8>)
    requires
        sk@.len() == 32,
        peer@.len() == 32,
    ensures
        r@.len() == 32,
        r@ == x25519_shared(sk@, peer@),
        forall|other: Seq<u8>|
            peer@ == #[trigger] x25519_public(other) ==> r@ == x25519_shared(
                other,
                x25519_public(sk@),
            ),
{
    let a: [u8; 32] = sk.as_slice().try_into().unwrap();
    let p: [u8; 32] = peer.as_slice().try_into().unwrap();
    let secret = x25519_dalek::StaticSecret::from(a);
    let public = x25519_dalek::PublicKey::from(p);
    secret.diffie_hellman(&public).as_bytes().to_vec()
}

/// Public key used for ephemeral key exchange.
#[derive(Debug, Clone, PartialEq)]
pub struct DhPubKey {
    pub public_key: Vec<u8>,
}

impl DhPubKey {
    /// A public key is exactly 32 bytes.
    pub open spec fn wf(&self) -> bool {
        self.public_key@.len() == 32
    }
}

/// Pair of public and private keys - used for one ephemeral key exchange.
#[derive(Clone)]
pub struct DhKeyPair {
    pub private_key: Vec<u8>,
    pub public_key: Vec<u8>,
}

/// Shared, securely derived key material for symmetric cryptography.
#[derive(Clone)]
pub struct SharedEncryptionKey {
    pub key: Vec<u8>,
}

impl SharedEncryptionKey {
    /// Shared key material is exactly 32 bytes.
    pub open spec fn wf(&self) -> bool {
        self.key@.len() == 32
    }
}

impl DhKeyPair {
    /// Both halves have their X25519 sizes.
    pub open spec fn sized(&self) -> bool {
        self.private_key@.len() == 32 && self.public_key@.len() == 32
    }

    /// The stored public half is the one derived from the private half.
    pub open spec fn wf(&self) -> bool {
        self.sized() && self.public_key@ == x25519_public(self.private_key@)
    }

    /// Generates a fresh ephemeral key pair from the system's secure
    /// random source.
    pub fn generate() -> (r: Self)
        ensures
            r.wf(),
    {
        let sk = x25519_new_secret();
        let pk = x25519_public_of(&sk);
        DhKeyPair { private_key: sk, public_key: pk }
    }

    /// Clones the public half into a new `DhPubKey`.
    pub fn public(&self) -> (r: DhPubKey)
        ensures
            r.public_key@ == self.public_key@,
    {
        DhPubKey { public_key: clone_bytes(&self.public_key) }
    }

    /// Derives the shared key material from this pair's private half and
    /// the peer's public key.
    pub fn dh(&self, other_public_key: &DhPubKey) -> (r: SharedEncryptionKey)
        requires
            self.sized(),
            other_public_key.wf(),
        ensures
            r.wf(),
            r.key@ == x25519_shared(self.private_key@, other_public_key.public_key@),
            forall|other: Seq<u8>|
                other_public_key.public_key@ == #[trigger] x25519_public(other) ==> r.key@
                    == x25519_shared(other, x25519_public(self.private_key@)),
    {
        SharedEncryptionKey { key: x25519_dh(&self.private_key, &other_public_key.public_key) }
    }
}

} // verus!
