//! The handshake state machine.
//!
//! Each role is a chain of states consumed one step at a time: a step
//! takes the payload of the frame that arrived, validates it, and hands
//! back the next state together with the frame to send, or the error that
//! aborts the attempt. The caller moves the bytes between the two
//! endpoints; everything decided about them is decided here. A consumed
//! state cannot be reused: upgrading is a one-way, one-shot transition.
//!
//! The initiator verifies the responder's signature, so its finished
//! connection names the peer. The responder never receives a signed
//! initiator identity in this message flow; that asymmetry is by design,
//! and a responder-side allow-list cannot be enforced without a further
//! signed message.

use vstd::prelude::*;
use crate::bytes::bytes_eq;
use crate::dh::{x25519_public, x25519_shared, DhKeyPair};
use crate::proto::{
    lemma_client_codec_roundtrip, lemma_frame_roundtrip, lemma_server_codec_roundtrip, make_frame,
    payload_of_frame, spec_decode_client, spec_decode_server, spec_encode_client,
    spec_encode_server, spec_frame, spec_signed_payload, ClientMsg, ClientSays, Nonce,
    ProtocolVersion, ServerMsg, ServerSays, UnsignedDH, PROTOCOL_V1, PROTOCOL_V1_REPLY,
};
use crate::signature::{ed25519_public, ed25519_verify, SigningKeyPair, SigningPubKey};
use crate::transport::{session_key, SecureConnection};
use crate::Error;

verus! {

/// Established but unencrypted 1:1 connection - start here.
///
/// Consumed by `client_start` or `server_start`; the handshake then runs
/// through the state types those return.
#[derive(Debug)]
pub struct Connection {
    /// This side's long-term identity.
    pub id: SigningKeyPair,
}

/// Initiator state after its version announcement went out.
#[derive(Debug)]
pub struct ClientHello {
    /// This side's long-term identity.
    pub id: SigningKeyPair,
    /// The identity the responder must present, if pinned.
    pub pinned: Option<SigningPubKey>,
}

/// Initiator state after its key exchange went out.
pub struct ClientKeySent {
    /// This side's long-term identity.
    pub id: SigningKeyPair,
    /// The responder's identity, as announced in its hello.
    pub server_id: SigningPubKey,
    /// This handshake's ephemeral key pair.
    pub keys: DhKeyPair,
    /// This handshake's fresh nonce.
    pub nonce: Nonce,
}

/// Responder state awaiting the initiator's version announcement.
#[derive(Debug)]
pub struct ServerHandshake {
    /// This side's long-term identity.
    pub id: SigningKeyPair,
}

/// Responder state after its hello went out, awaiting the initiator's
/// key exchange.
#[derive(Debug)]
pub struct ServerHelloSent {
    /// This side's long-term identity.
    pub id: SigningKeyPair,
}

impl Connection {
    /// Wraps a long-term identity into an unestablished connection.
    pub fn new(id: SigningKeyPair) -> (r: Self)
        ensures
            r.id == id,
    {
        Connection { id }
    }

    /// Begins the initiator role: announces the protocol version.
    ///
    /// Returns the awaiting state and the frame to send. With `pinned`
    /// set, the handshake later fails unless the responder presents
    /// exactly that identity.
    pub fn client_start(self, pinned: Option<SigningPubKey>) -> (r: (ClientHello, Vec<u8>))
        ensures
            r.0.id == self.id,
            r.0.pinned == pinned,
            r.1@ == spec_frame(spec_encode_client(ClientMsg::Hello { version: PROTOCOL_V1 })),
    {
        let msg = ClientSays::Hello(ProtocolVersion::v1());
        let payload = msg.encode();
        let frame = make_frame(&payload);
        (ClientHello { id: self.id, pinned }, frame)
    }

    /// Begins the responder role: awaits the initiator's announcement.
    pub fn server_start(self) -> (r: ServerHandshake)
        ensures
            r.id == self.id,
    {
        ServerHandshake { id: self.id }
    }
}

impl ClientHello {
    /// The identity and any pinned key have their full sizes.
    pub open spec fn wf(&self) -> bool {
        self.id.sized() && (self.pinned matches Some(p) ==> p.wf())
    }

    /// Handles the responder's hello.
    ///
    /// The responder must echo the reply value of the announced version,
    /// and, when an identity was pinned, present exactly that identity.
    /// On success a fresh ephemeral key pair and nonce are generated and
    /// the unsigned key exchange frame is returned for sending.
    pub fn on_server_hello(self, payload: &Vec<u8>) -> (r: Result<(ClientKeySent, Vec<u8>), Error>)
        requires
            self.wf(),
        ensures
            spec_decode_server(payload@) is None ==> (r matches Err(e) && e == Error::Decode),
            (spec_decode_server(payload@) matches Some(m) && m is Dh) ==> (r matches Err(e) && e
                == Error::Logic),
            (spec_decode_server(payload@) matches Some(ServerMsg::Hello { reply, id }) && reply
                != PROTOCOL_V1_REPLY) ==> (r matches Err(e) && e == Error::LibVersion),
            (spec_decode_server(payload@) matches Some(ServerMsg::Hello { reply, id }) && reply
                == PROTOCOL_V1_REPLY && (self.pinned matches Some(p) && p.public_key@ != id)) ==> (
            r matches Err(e) && e == Error::Rejected),
            spec_decode_server(payload@) matches Some(ServerMsg::Hello { reply, id }) ==> ((reply
                == PROTOCOL_V1_REPLY && (self.pinned matches Some(p) ==> p.public_key@ == id))
                ==> (r matches Ok(x) && {
                &&& x.0.wf()
                &&& x.0.id == self.id
                &&& x.0.server_id.public_key@ == id
                &&& x.0.keys.wf()
                &&& x.1@ == spec_frame(
                    spec_encode_client(
                        ClientMsg::Dh {
                            eph: x25519_public(x.0.keys.private_key@),
                            nonce: x.0.nonce.0,
                        },
                    ),
                )
            })),
    {
        let msg = match ServerSays::decode(payload) {
            Ok(m) => m,
            Err(e) => { return Err(e) },
        };
        match msg {
            ServerSays::Hello(p, real_id) => {
                if p.0 != PROTOCOL_V1_REPLY {
                    return Err(Error::LibVersion);
                }
                match &self.pinned {
                    Some(expected_id) => {
                        if !bytes_eq(&expected_id.public_key, &real_id.public_key) {
                            return Err(Error::Rejected);
                        }
                    },
                    None => {},
                }
                let keys = DhKeyPair::generate();
                let nonce = Nonce::generate();
                let msg2 = ClientSays::DH(UnsignedDH(keys.public(), nonce));
                let payload2 = msg2.encode();
                let frame = make_frame(&payload2);
                Ok((ClientKeySent { id: self.id, server_id: real_id, keys, nonce }, frame))
            },
            ServerSays::DH(_, _) => Err(Error::Logic),
        }
    }
}

impl ClientKeySent {
    /// All held keys have their full sizes.
    pub open spec fn wf(&self) -> bool {
        self.id.sized() && self.server_id.wf() && self.keys.sized()
    }

    /// Handles the responder's signed key exchange and finishes the
    /// initiator's side.
    ///
    /// The echoed nonce must be this handshake's nonce, and the signature
    /// must verify under the responder's announced identity over exactly
    /// the signed payload. Only then is the shared secret derived; the
    /// finished connection names the responder as its verified peer.
    pub fn on_server_dh(self, payload: &Vec<u8>) -> (r: Result<SecureConnection, Error>)
        requires
            self.wf(),
        ensures
            spec_decode_server(payload@) is None ==> (r matches Err(e) && e == Error::Decode),
            (spec_decode_server(payload@) matches Some(m) && m is Hello) ==> (r matches Err(e)
                && e == Error::Logic),
            (spec_decode_server(payload@) matches Some(ServerMsg::Dh { eph, nonce, sig })
                && nonce != self.nonce.0) ==> (r matches Err(e) && e == Error::Logic),
            (spec_decode_server(payload@) matches Some(ServerMsg::Dh { eph, nonce, sig })
                && nonce == self.nonce.0 && !ed25519_verify(
                self.server_id.public_key@,
                spec_signed_payload(eph, nonce),
                sig,
            )) ==> (r matches Err(e) && e == Error::Logic),
            spec_decode_server(payload@) matches Some(ServerMsg::Dh { eph, nonce, sig }) ==> ((
            nonce == self.nonce.0 && ed25519_verify(
                self.server_id.public_key@,
                spec_signed_payload(eph, nonce),
                sig,
            )) ==> (r matches Ok(sc) && {
                &&& sc.wf()
                &&& sc.id == self.id
                &&& (sc.other_id matches Some(sid) && sid.public_key@
                    == self.server_id.public_key@)
                &&& sc.send_count() == 0
                &&& sc.recv_count() == 0
                &&& sc.is_client_role()
                &&& sc.transport_key() == session_key(
                    x25519_shared(self.keys.private_key@, eph),
                    self.nonce.0,
                )
                &&& forall|other: Seq<u8>|
                    eph == #[trigger] x25519_public(other) ==> sc.transport_key() == session_key(
                        x25519_shared(other, x25519_public(self.keys.private_key@)),
                        self.nonce.0,
                    )
            })),
    {
        let msg = match ServerSays::decode(payload) {
            Ok(m) => m,
            Err(e) => { return Err(e) },
        };
        match msg {
            ServerSays::DH(unsigned, signature) => {
                if unsigned.1.0 != self.nonce.0 {
                    return Err(Error::Logic);
                }
                let signed = unsigned.signed_bytes();
                if !self.server_id.verify(&signed, &signature) {
                    return Err(Error::Logic);
                }
                let shared = self.keys.dh(&unsigned.0);
                Ok(
                    SecureConnection::from_secret(
                        self.id,
                        Some(self.server_id),
                        shared,
                        self.nonce.0,
                        true,
                    ),
                )
            },
            ServerSays::Hello(_, _) => Err(Error::Logic),
        }
    }
}

impl ServerHandshake {
    /// The identity has its full sizes.
    pub open spec fn wf(&self) -> bool {
        self.id.sized()
    }

    /// Handles the initiator's version announcement.
    ///
    /// The announced version must be exactly the one this build speaks;
    /// on success the hello frame carrying the reply value and this
    /// side's public signing key is returned for sending.
    pub fn on_client_hello(self, payload: &Vec<u8>) -> (r: Result<(ServerHelloSent, Vec<u8>), Error>)
        requires
            self.wf(),
        ensures
            spec_decode_client(payload@) is None ==> (r matches Err(e) && e == Error::Decode),
            (spec_decode_client(payload@) matches Some(m) && m is Dh) ==> (r matches Err(e) && e
                == Error::Logic),
            (spec_decode_client(payload@) matches Some(ClientMsg::Hello { version }) && version
                != PROTOCOL_V1) ==> (r matches Err(e) && e == Error::LibVersion),
            (spec_decode_client(payload@) matches Some(ClientMsg::Hello { version }) && version
                == PROTOCOL_V1) ==> (r matches Ok(x) && {
                &&& x.0.wf()
                &&& x.0.id == self.id
                &&& x.1@ == spec_frame(
                    spec_encode_server(
                        ServerMsg::Hello {
                            reply: PROTOCOL_V1_REPLY,
                            id: self.id.public_key@,
                        },
                    ),
                )
            }),
    {
        let msg = match ClientSays::decode(payload) {
            Ok(m) => m,
            Err(e) => { return Err(e) },
        };
        match msg {
            ClientSays::Hello(p) => {
                if p.0 != PROTOCOL_V1 {
                    return Err(Error::LibVersion);
                }
                let reply = ServerSays::Hello(ProtocolVersion::v1().reply(), self.id.public());
                let payload2 = reply.encode();
                let frame = make_frame(&payload2);
                Ok((ServerHelloSent { id: self.id }, frame))
            },
            ClientSays::DH(_) => Err(Error::Logic),
        }
    }
}

/// One witness for `server_dh_commitment`: with ephemeral secret `esk`
/// and signature `sig`, the frame carries exactly the derived public key,
/// the echoed nonce and that signature; the signature verifies under the
/// identity derived from `signer_sk`; and the session key is the hash of
/// the shared point with the peer's ephemeral key `peer_eph` and the
/// nonce.
pub open spec fn server_dh_witness(
    signer_sk: Seq<u8>,
    peer_eph: Seq<u8>,
    nonce: u64,
    frame: Seq<u8>,
    key: Seq<u8>,
    esk: Seq<u8>,
    sig: Seq<u8>,
) -> bool {
    &&& x25519_public(esk).len() == 32
    &&& sig.len() == 64
    &&& frame == spec_frame(
        spec_encode_server(ServerMsg::Dh { eph: x25519_public(esk), nonce, sig }),
    )
    &&& ed25519_verify(
        ed25519_public(signer_sk),
        spec_signed_payload(x25519_public(esk), nonce),
        sig,
    )
    &&& key == session_key(x25519_shared(esk, peer_eph), nonce)
}

/// What the responder's signed key-exchange step commits to: some
/// ephemeral secret and signature of its making witness the frame it
/// sends and the key it derives.
pub open spec fn server_dh_commitment(
    signer_sk: Seq<u8>,
    peer_eph: Seq<u8>,
    nonce: u64,
    frame: Seq<u8>,
    key: Seq<u8>,
) -> bool {
    exists|esk: Seq<u8>, sig: Seq<u8>|
        #[trigger] server_dh_witness(signer_sk, peer_eph, nonce, frame, key, esk, sig)
}

impl ServerHelloSent {
    /// The identity has its full sizes.
    pub open spec fn wf(&self) -> bool {
        self.id.sized()
    }

    /// Handles the initiator's unsigned key exchange and finishes the
    /// responder's side.
    ///
    /// A fresh ephemeral key pair is generated; its public half and the
    /// initiator's nonce are signed with this side's identity and sent
    /// back, and the shared secret is derived from the initiator's
    /// ephemeral key. The finished connection has no verified peer: the
    /// initiator is unauthenticated in this message flow.
    #[verifier::rlimit(50)]
    pub fn on_client_dh(self, payload: &Vec<u8>) -> (r: Result<(SecureConnection, Vec<u8>), Error>)
        requires
            self.wf(),
        ensures
            spec_decode_client(payload@) is None ==> (r matches Err(e) && e == Error::Decode),
            (spec_decode_client(payload@) matches Some(m) && m is Hello) ==> (r matches Err(e)
                && e == Error::Logic),
            spec_decode_client(payload@) matches Some(ClientMsg::Dh { eph, nonce }) ==> (
            r matches Ok(x) && {
                &&& x.0.wf()
                &&& x.0.id == self.id
                &&& x.0.other_id is None
                &&& x.0.send_count() == 0
                &&& x.0.recv_count() == 0
                &&& !x.0.is_client_role()
                &&& server_dh_commitment(
                    self.id.private_key@,
                    eph,
                    nonce,
                    x.1@,
                    x.0.transport_key(),
                )
            }),
    {
        let msg = match ClientSays::decode(payload) {
            Ok(m) => m,
            Err(e) => { return Err(e) },
        };
        match msg {
            ClientSays::DH(unsigned) => {
                let UnsignedDH(client_key, nonce) = unsigned;
                let keys = DhKeyPair::generate();
                let to_sign = UnsignedDH(keys.public(), nonce);
                let signed = to_sign.signed_bytes();
                let signature = self.id.sign(&signed);
                let ghost esk_w = keys.private_key@;
                let ghost sig_w = signature.bytes@;
                let reply = ServerSays::DH(to_sign, signature);
                let payload2 = reply.encode();
                let frame = make_frame(&payload2);
                let shared = keys.dh(&client_key);
                let sc = SecureConnection::from_secret(self.id, None, shared, nonce.0, false);
                proof {
                    assert(server_dh_witness(
                        self.id.private_key@,
                        client_key.public_key@,
                        nonce.0,
                        frame@,
                        sc.transport_key(),
                        esk_w,
                        sig_w,
                    ));
                }
                Ok((sc, frame))
            },
            ClientSays::Hello(_) => Err(Error::Logic),
        }
    }
}

/// Mutual handshake law: an initiator and a responder wired directly to
/// each other, the frames of each step handed across unchanged.
///
/// With matching identities - the responder's key pair internally
/// consistent and any pinned identity equal to the responder's public
/// key - both sides finish, both derive bit-for-bit the same session
/// key, and the initiator's connection names the responder as its
/// verified peer while the responder's names nobody. With a pinned
/// identity other than the responder's, the upgrade is rejected even
/// though every signature is valid.
pub fn handshake_in_memory(
    client_id: SigningKeyPair,
    server_id: SigningKeyPair,
    pinned: Option<SigningPubKey>,
) -> (r: Result<(SecureConnection, SecureConnection), Error>)
    requires
        client_id.sized(),
        server_id.sized(),
        pinned matches Some(p) ==> p.wf(),
    ensures
        server_id.wf() && (pinned matches Some(p) ==> p.public_key@ == server_id.public_key@)
            ==> (r matches Ok(pair) && {
            &&& pair.0.wf() && pair.1.wf()
            &&& pair.0.transport_key() == pair.1.transport_key()
            &&& (pair.0.other_id matches Some(sid) && sid.public_key@ == server_id.public_key@)
            &&& pair.1.other_id is None
            &&& pair.0.is_client_role() && !pair.1.is_client_role()
            &&& pair.0.send_count() == 0 && pair.0.recv_count() == 0
            &&& pair.1.send_count() == 0 && pair.1.recv_count() == 0
        }),
        pinned matches Some(p) && p.public_key@ != server_id.public_key@ ==> (r matches Err(e)
            && e == Error::Rejected),
{
    let conn_c = Connection::new(client_id);
    let conn_s = Connection::new(server_id);
    let (ch, f1) = conn_c.client_start(pinned);
    let sh = conn_s.server_start();
    proof {
        lemma_client_codec_roundtrip(ClientMsg::Hello { version: PROTOCOL_V1 });
        lemma_frame_roundtrip(spec_encode_client(ClientMsg::Hello { version: PROTOCOL_V1 }));
    }
    let p1 = match payload_of_frame(&f1) {
        Ok(p) => p,
        Err(e) => { return Err(e) },
    };
    let (shs, f2) = match sh.on_client_hello(&p1) {
        Ok(x) => x,
        Err(e) => { return Err(e) },
    };
    proof {
        lemma_server_codec_roundtrip(
            ServerMsg::Hello { reply: PROTOCOL_V1_REPLY, id: server_id.public_key@ },
        );
        lemma_frame_roundtrip(
            spec_encode_server(
                ServerMsg::Hello { reply: PROTOCOL_V1_REPLY, id: server_id.public_key@ },
            ),
        );
    }
    let p2 = match payload_of_frame(&f2) {
        Ok(p) => p,
        Err(e) => { return Err(e) },
    };
    let (cks, f3) = match ch.on_server_hello(&p2) {
        Ok(x) => x,
        Err(e) => { return Err(e) },
    };
    proof {
        lemma_client_codec_roundtrip(
            ClientMsg::Dh { eph: x25519_public(cks.keys.private_key@), nonce: cks.nonce.0 },
        );
        lemma_frame_roundtrip(
            spec_encode_client(
                ClientMsg::Dh { eph: x25519_public(cks.keys.private_key@), nonce: cks.nonce.0 },
            ),
        );
    }
    let p3 = match payload_of_frame(&f3) {
        Ok(p) => p,
        Err(e) => { return Err(e) },
    };
    let (ssec, f4) = match shs.on_client_dh(&p3) {
        Ok(x) => x,
        Err(e) => { return Err(e) },
    };
    let ghost c_eph = x25519_public(cks.keys.private_key@);
    let ghost n = cks.nonce.0;
    let ghost (esk, sig) = choose|esk: Seq<u8>, sig: Seq<u8>|
        #[trigger] server_dh_witness(
            server_id.private_key@,
            c_eph,
            n,
            f4@,
            ssec.transport_key(),
            esk,
            sig,
        );
    proof {
        lemma_server_codec_roundtrip(ServerMsg::Dh { eph: x25519_public(esk), nonce: n, sig });
        lemma_frame_roundtrip(
            spec_encode_server(ServerMsg::Dh { eph: x25519_public(esk), nonce: n, sig }),
        );
    }
    let p4 = match payload_of_frame(&f4) {
        Ok(p) => p,
        Err(e) => { return Err(e) },
    };
    let csec = match cks.on_server_dh(&p4) {
        Ok(x) => x,
        Err(e) => { return Err(e) },
    };
    proof {
        assert(csec.transport_key() == session_key(
            x25519_shared(esk, x25519_public(cks.keys.private_key@)),
            n,
        ));
    }
    Ok((csec, ssec))
}

} // verus!
