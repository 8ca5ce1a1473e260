//! Long-term identities and signatures.
//!
//! An identity is an Ed25519 key pair held as plain byte vectors. Signing
//! and verification go through the `ed25519-dalek` crate; what those calls
//! return is named by the uninterpreted functions below, and the handshake
//! is verified against those names.

use vstd::prelude::*;
use ed25519_dalek::Signer;
use ed25519_dalek::Verifier;

verus! {

/// The public key bytes derived from a 32-byte Ed25519 secret key.
pub uninterp spec fn ed25519_public(sk: Seq<u8>) -> Seq<u8>;

/// Whether Ed25519 verification accepts `sig` over `msg` under the public
/// key bytes `pk`.
pub uninterp spec fn ed25519_verify(pk: Seq<u8>, msg: Seq<u8>, sig: Seq<u8>) -> bool;

/// The Ed25519 signature by the secret key `sk` over `msg`. RFC 8032
/// signing uses no randomness: the bytes are a function of the key and
/// the message alone, so equal inputs always give bit-identical
/// signatures.
pub uninterp spec fn ed25519_sig_of(sk: Seq<u8>, msg: Seq<u8>) -> Seq<u8>;

/// Relies on ed25519_dalek::SigningKey::generate: a fresh random secret
/// key, returned together with the public key derived from it.
#[verifier::external_body]
fn ed25519_generate() -> (r: (Vec<u8>, Vec<u8>))
    ensures
        r.0@.len() == 32,
        r.1@.len() == 32,
        r.1@ == ed25519_public(r.0@),
{
    let mut rng = rand::rngs::OsRng;
    let sk = ed25519_dalek::SigningKey::generate(&mut rng);
    let pk = sk.verifying_key();
    (sk.to_bytes().to_vec(), pk.to_bytes().to_vec())
}

/// Relies on ed25519_dalek::SigningKey::sign (RFC 8032): the 64-byte
/// deterministic signature over `msg`, which VerifyingKey::verify accepts
/// under the public key derived from `sk`.
#[verifier::external_body]
fn ed25519_sign(sk: &Vec<u8>, msg: &Vec<u8>) -> (r: Vec<u8>)
    requires
        sk@.len() == 32,
    ensures
        r@ == ed25519_sig_of(sk@, msg@),
        r@.len() == 64,
        ed25519_verify(ed25519_public(sk@), msg@, r@),
{
    let arr: [u8; 32] = sk.as_slice().try_into().unwrap();
    let key = ed25519_dalek::SigningKey::from_bytes(&arr);
    key.sign(msg.as_slice()).to_bytes().to_vec()
}

/// Relies on ed25519_dalek::VerifyingKey::verify: deterministic acceptance
/// of a signature over a message under public key bytes; key bytes that do
/// not decode to a curve point verify as false rather than erring.
#[verifier::external_body]
fn ed25519_verify_bytes(pk: &Vec<u8>, msg: &Vec<u8>, sig: &Vec<u8>) -> (r: bool)
    requires
        pk@.len() == 32,
        sig@.len() == 64,
    ensures
        r == ed25519_verify(pk@, msg@, sig@),
{
    let pk_arr: [u8; 32] = pk.as_slice().try_into().unwrap();
    let key = match ed25519_dalek::VerifyingKey::from_bytes(&pk_arr) {
        Ok(k) => k,
        Err(_) => return false,
    };
    let sig_arr: [u8; 64] = sig.as_slice().try_into().unwrap();
    let s = ed25519_dalek::Signature::from_bytes(&sig_arr);
    key.verify(msg.as_slice(), &s).is_ok()
}

/// Copies a byte vector; used where verified code hands out key material
/// without giving up ownership.
pub fn clone_bytes(v: &Vec<u8>) -> (r: Vec<u8>)
    ensures
        r@ == v@,
{
    let r = v.clone();
    assert(r@ =~= v@);
    r
}

/// A detached signature over an encoded payload.
#[derive(Debug, Clone, PartialEq)]
pub struct Signature {
    pub bytes: Vec<u8>,
}

impl Signature {
    /// A signature is exactly 64 bytes.
    pub open spec fn wf(&self) -> bool {
        self.bytes@.len() == 64
    }
}

/// Public key used to verify signatures.
#[derive(Debug, Clone, PartialEq)]
pub struct SigningPubKey {
    pub public_key: Vec<u8>,
}

impl SigningPubKey {
    /// A public signing key is exactly 32 bytes.
    pub open spec fn wf(&self) -> bool {
        self.public_key@.len() == 32
    }

    /// Checks `signature` over `data` under this public key.
    pub fn verify(&self, data: &Vec<u8>, signature: &Signature) -> (r: bool)
        requires
            self.wf(),
            signature.wf(),
        ensures
            r == ed25519_verify(self.public_key@, data@, signature.bytes@),
    {
        ed25519_verify_bytes(&self.public_key, data, &signature.bytes)
    }
}

/// Pair of public and private keys - used to create signatures.
#[derive(Debug, Clone, PartialEq)]
pub struct SigningKeyPair {
    pub private_key: Vec<u8>,
    pub public_key: Vec<u8>,
}

impl SigningKeyPair {
    /// Both halves have their Ed25519 sizes.
    pub open spec fn sized(&self) -> bool {
        self.private_key@.len() == 32 && self.public_key@.len() == 32
    }

    /// The stored public half is the one derived from the private half.
    pub open spec fn wf(&self) -> bool {
        self.sized() && self.public_key@ == ed25519_public(self.private_key@)
    }

    /// Generates a fresh long-term key pair from the system's secure
    /// random source.
    pub fn generate() -> (r: Self)
        ensures
            r.wf(),
    {
        let (sk, pk) = ed25519_generate();
        SigningKeyPair { private_key: sk, public_key: pk }
    }

    /// Signs `data`: the deterministic Ed25519 signature of this pair's
    /// private key over exactly these bytes, verifiable under the pair's
    /// public key. Equal key and data always yield bit-identical
    /// signature bytes.
    pub fn sign(&self, data: &Vec<u8>) -> (r: Signature)
        requires
            self.sized(),
        ensures
            r.wf(),
            r.bytes@ == ed25519_sig_of(self.private_key@, data@),
            ed25519_verify(ed25519_public(self.private_key@), data@, r.bytes@),
    {
        Signature { bytes: ed25519_sign(&self.private_key, data) }
    }

    /// Clones the public half into a new `SigningPubKey`.
    pub fn public(&self) -> (r: SigningPubKey)
        ensures
            r.public_key@ == self.public_key@,
    {
        SigningPubKey { public_key: clone_bytes(&self.public_key) }
    }

    /// Clones the public half into a new `SigningPubKey`.
    pub fn get_public(&self) -> (r: SigningPubKey)
        ensures
            r.public_key@ == self.public_key@,
    {
        self.public()
    }
}

} // verus!
