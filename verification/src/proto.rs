//! Protocol messages and the wire codec.
//!
//! Every message travels as a frame: a 4-byte little-endian length prefix
//! followed by exactly that many payload bytes. The payload is a tagged
//! union: one tag byte, then the variant's fields in fixed order. The
//! codec is specified by pure functions on byte sequences and the
//! executable encoder and decoder are proved against them; decoding an
//! encoded message gives the message back.

use vstd::prelude::*;
use crate::bytes::{
    le_u32, le_u64, lemma_u32_le_roundtrip, lemma_u64_le_roundtrip, push_bytes, push_u32_le,
    push_u64_le, read_u32_le, read_u64_le, sub_vec, u32_le, u64_le,
};
use crate::dh::DhPubKey;
use crate::signature::{Signature, SigningPubKey};
use crate::Error;

verus! {

/// Version identifier spoken by this build.
pub const PROTOCOL_V1: u64 = 0xf8171202f71a39d5;

/// The reply a responder sends for `PROTOCOL_V1`. A distinct value is
/// echoed back, never the version itself, so that a plain echo server
/// cannot pass the version check.
pub const PROTOCOL_V1_REPLY: u64 = 0xc2df3fd948e534a2;

/// Tag byte of the `Hello` variants.
pub const TAG_HELLO: u8 = 0;

/// Tag byte of the `DH` (key exchange) variants.
pub const TAG_DH: u8 = 1;

/// Message signaling protocol version.
#[derive(Debug, PartialEq, Clone, Copy)]
pub struct ProtocolVersion(pub u64);

impl ProtocolVersion {
    /// The version this build speaks.
    pub fn v1() -> (r: Self)
        ensures
            r.0 == PROTOCOL_V1,
    {
        ProtocolVersion(PROTOCOL_V1)
    }

    /// The value a responder must echo for this version.
    pub fn reply(&self) -> (r: ProtocolReply)
        ensures
            r.0 == PROTOCOL_V1_REPLY,
    {
        ProtocolReply(PROTOCOL_V1_REPLY)
    }
}

/// A responder's answer to a version announcement.
#[derive(Debug, PartialEq, Clone, Copy)]
pub struct ProtocolReply(pub u64);

/// The reply is a transformed value, never the version itself: a plain
/// echo server reflecting the announcement back cannot pass the
/// initiator's version check.
pub proof fn lemma_reply_is_no_echo()
    ensures
        PROTOCOL_V1_REPLY != PROTOCOL_V1,
{
}

/// Random value generated once per handshake by the initiator and bound
/// into the payload the responder signs, so that a stale signed response
/// cannot be replayed.
#[derive(Debug, PartialEq, Clone, Copy)]
pub struct Nonce(pub u64);

impl Nonce {
    /// Generates a fresh random nonce from the system's secure random
    /// source.
    pub fn generate() -> Self {
        Nonce(os_random_u64())
    }
}

/// Relies on rand's OsRng (RngCore::next_u64) for the random nonce; the
/// result is unpredictable, nothing is promised of its value.
#[verifier::external_body]
fn os_random_u64() -> u64 {
    rand::RngCore::next_u64(&mut rand::rngs::OsRng)
}

/// The payload the responder signs: an ephemeral public key and the
/// initiator's nonce.
#[derive(Debug, PartialEq, Clone)]
pub struct UnsignedDH(pub DhPubKey, pub Nonce);

impl UnsignedDH {
    /// The public key has its X25519 size.
    pub open spec fn wf(&self) -> bool {
        self.0.wf()
    }

    /// Encodes the two fields in fixed order, as signed by the responder.
    pub fn signed_bytes(&self) -> (r: Vec<u8>)
        ensures
            r@ == spec_signed_payload(self.0.public_key@, self.1.0),
    {
        let mut out: Vec<u8> = Vec::new();
        push_bytes(&mut out, &self.0.public_key);
        push_u64_le(&mut out, self.1.0);
        assert(out@ =~= spec_signed_payload(self.0.public_key@, self.1.0));
        out
    }
}

/// What the initiator can say.
#[derive(Debug, PartialEq, Clone)]
pub enum ClientSays {
    /// Version announcement.
    Hello(ProtocolVersion),
    /// Unsigned key exchange: ephemeral public key and fresh nonce.
    DH(UnsignedDH),
}

/// What the responder can say.
#[derive(Debug, PartialEq, Clone)]
pub enum ServerSays {
    /// Version reply together with the responder's public signing key.
    Hello(ProtocolReply, SigningPubKey),
    /// Signed key exchange: ephemeral public key, echoed nonce, and a
    /// signature over both.
    DH(UnsignedDH, Signature),
}

/// Mathematical form of an initiator message.
pub enum ClientMsg {
    Hello { version: u64 },
    Dh { eph: Seq<u8>, nonce: u64 },
}

/// Mathematical form of a responder message.
pub enum ServerMsg {
    Hello { reply: u64, id: Seq<u8> },
    Dh { eph: Seq<u8>, nonce: u64, sig: Seq<u8> },
}

/// Field widths an initiator message must have to be encodable.
pub open spec fn client_msg_wf(m: ClientMsg) -> bool {
    match m {
        ClientMsg::Hello { .. } => true,
        ClientMsg::Dh { eph, .. } => eph.len() == 32,
    }
}

/// Field widths a responder message must have to be encodable.
pub open spec fn server_msg_wf(m: ServerMsg) -> bool {
    match m {
        ServerMsg::Hello { id, .. } => id.len() == 32,
        ServerMsg::Dh { eph, sig, .. } => eph.len() == 32 && sig.len() == 64,
    }
}

impl View for ClientSays {
    type V = ClientMsg;

    open spec fn view(&self) -> ClientMsg {
        match self {
            ClientSays::Hello(v) => ClientMsg::Hello { version: v.0 },
            ClientSays::DH(u) => ClientMsg::Dh { eph: u.0.public_key@, nonce: u.1.0 },
        }
    }
}

impl View for ServerSays {
    type V = ServerMsg;

    open spec fn view(&self) -> ServerMsg {
        match self {
            ServerSays::Hello(p, id) => ServerMsg::Hello { reply: p.0, id: id.public_key@ },
            ServerSays::DH(u, s) => ServerMsg::Dh {
                eph: u.0.public_key@,
                nonce: u.1.0,
                sig: s.bytes@,
            },
        }
    }
}

/// The payload the responder signs, as a function of its parts.
pub open spec fn spec_signed_payload(eph: Seq<u8>, nonce: u64) -> Seq<u8> {
    eph + u64_le(nonce)
}

/// Payload encoding of an initiator message.
pub open spec fn spec_encode_client(m: ClientMsg) -> Seq<u8> {
    match m {
        ClientMsg::Hello { version } => seq![TAG_HELLO] + u64_le(version),
        ClientMsg::Dh { eph, nonce } => seq![TAG_DH] + eph + u64_le(nonce),
    }
}

/// Payload encoding of a responder message.
pub open spec fn spec_encode_server(m: ServerMsg) -> Seq<u8> {
    match m {
        ServerMsg::Hello { reply, id } => seq![TAG_HELLO] + u64_le(reply) + id,
        ServerMsg::Dh { eph, nonce, sig } => seq![TAG_DH] + eph + u64_le(nonce) + sig,
    }
}

/// Payload decoding of an initiator message: unknown tags and wrong
/// lengths are rejected.
pub open spec fn spec_decode_client(b: Seq<u8>) -> Option<ClientMsg> {
    if b.len() == 0 {
        None
    } else if b[0] == TAG_HELLO {
        if b.len() == 9 {
            Some(ClientMsg::Hello { version: le_u64(b.subrange(1, 9)) })
        } else {
            None
        }
    } else if b[0] == TAG_DH {
        if b.len() == 41 {
            Some(ClientMsg::Dh { eph: b.subrange(1, 33), nonce: le_u64(b.subrange(33, 41)) })
        } else {
            None
        }
    } else {
        None
    }
}

/// Payload decoding of a responder message: unknown tags and wrong
/// lengths are rejected.
pub open spec fn spec_decode_server(b: Seq<u8>) -> Option<ServerMsg> {
    if b.len() == 0 {
        None
    } else if b[0] == TAG_HELLO {
        if b.len() == 41 {
            Some(
                ServerMsg::Hello { reply: le_u64(b.subrange(1, 9)), id: b.subrange(9, 41) },
            )
        } else {
            None
        }
    } else if b[0] == TAG_DH {
        if b.len() == 105 {
            Some(
                ServerMsg::Dh {
                    eph: b.subrange(1, 33),
                    nonce: le_u64(b.subrange(33, 41)),
                    sig: b.subrange(41, 105),
                },
            )
        } else {
            None
        }
    } else {
        None
    }
}

/// Round-trip law for initiator messages: decoding an encoded message
/// yields the message.
pub proof fn lemma_client_codec_roundtrip(m: ClientMsg)
    requires
        client_msg_wf(m),
    ensures
        spec_decode_client(spec_encode_client(m)) == Some(m),
{
    let b = spec_encode_client(m);
    match m {
        ClientMsg::Hello { version } => {
            assert(b.subrange(1, 9) =~= u64_le(version));
            lemma_u64_le_roundtrip(version);
        },
        ClientMsg::Dh { eph, nonce } => {
            assert(b.subrange(1, 33) =~= eph);
            assert(b.subrange(33, 41) =~= u64_le(nonce));
            lemma_u64_le_roundtrip(nonce);
        },
    }
}

/// Round-trip law for responder messages: decoding an encoded message
/// yields the message.
pub proof fn lemma_server_codec_roundtrip(m: ServerMsg)
    requires
        server_msg_wf(m),
    ensures
        spec_decode_server(spec_encode_server(m)) == Some(m),
{
    let b = spec_encode_server(m);
    match m {
        ServerMsg::Hello { reply, id } => {
            assert(b.subrange(1, 9) =~= u64_le(reply));
            assert(b.subrange(9, 41) =~= id);
            lemma_u64_le_roundtrip(reply);
        },
        ServerMsg::Dh { eph, nonce, sig } => {
            assert(b.subrange(1, 33) =~= eph);
            assert(b.subrange(33, 41) =~= u64_le(nonce));
            assert(b.subrange(41, 105) =~= sig);
            lemma_u64_le_roundtrip(nonce);
        },
    }
}

impl ClientSays {
    /// Field widths this message must have to travel on the wire.
    pub open spec fn wf(&self) -> bool {
        client_msg_wf(self@)
    }

    /// Encodes this message into its payload bytes.
    pub fn encode(&self) -> (r: Vec<u8>)
        ensures
            r@ == spec_encode_client(self@),
    {
        let mut out: Vec<u8> = Vec::new();
        match self {
            ClientSays::Hello(v) => {
                out.push(TAG_HELLO);
                push_u64_le(&mut out, v.0);
                assert(out@ =~= spec_encode_client(self@));
            },
            ClientSays::DH(u) => {
                out.push(TAG_DH);
                push_bytes(&mut out, &u.0.public_key);
                push_u64_le(&mut out, u.1.0);
                assert(out@ =~= spec_encode_client(self@));
            },
        }
        out
    }

    /// Decodes payload bytes into a message, rejecting anything the spec
    /// decoder rejects.
    pub fn decode(data: &Vec<u8>) -> (r: Result<ClientSays, Error>)
        ensures
            spec_decode_client(data@) matches Some(m) ==> (r matches Ok(c) && c@ == m && c.wf()),
            spec_decode_client(data@) is None ==> (r matches Err(e) && e == Error::Decode),
    {
        if data.len() == 0 {
            return Err(Error::Decode);
        }
        let tag = data[0];
        if tag == TAG_HELLO {
            if data.len() != 9 {
                return Err(Error::Decode);
            }
            let v = read_u64_le(data, 1);
            Ok(ClientSays::Hello(ProtocolVersion(v)))
        } else if tag == TAG_DH {
            if data.len() != 41 {
                return Err(Error::Decode);
            }
            let pk = sub_vec(data, 1, 33);
            let n = read_u64_le(data, 33);
            Ok(ClientSays::DH(UnsignedDH(DhPubKey { public_key: pk }, Nonce(n))))
        } else {
            Err(Error::Decode)
        }
    }
}

impl ServerSays {
    /// Field widths this message must have to travel on the wire.
    pub open spec fn wf(&self) -> bool {
        server_msg_wf(self@)
    }

    /// Encodes this message into its payload bytes.
    pub fn encode(&self) -> (r: Vec<u8>)
        ensures
            r@ == spec_encode_server(self@),
    {
        let mut out: Vec<u8> = Vec::new();
        match self {
            ServerSays::Hello(p, id) => {
                out.push(TAG_HELLO);
                push_u64_le(&mut out, p.0);
                push_bytes(&mut out, &id.public_key);
                assert(out@ =~= spec_encode_server(self@));
            },
            ServerSays::DH(u, s) => {
                out.push(TAG_DH);
                push_bytes(&mut out, &u.0.public_key);
                push_u64_le(&mut out, u.1.0);
                push_bytes(&mut out, &s.bytes);
                assert(out@ =~= spec_encode_server(self@));
            },
        }
        out
    }

    /// Decodes payload bytes into a message, rejecting anything the spec
    /// decoder rejects.
    pub fn decode(data: &Vec<u8>) -> (r: Result<ServerSays, Error>)
        ensures
            spec_decode_server(data@) matches Some(m) ==> (r matches Ok(c) && c@ == m && c.wf()),
            spec_decode_server(data@) is None ==> (r matches Err(e) && e == Error::Decode),
    {
        if data.len() == 0 {
            return Err(Error::Decode);
        }
        let tag = data[0];
        if tag == TAG_HELLO {
            if data.len() != 41 {
                return Err(Error::Decode);
            }
            let p = read_u64_le(data, 1);
            let id = sub_vec(data, 9, 41);
            Ok(ServerSays::Hello(ProtocolReply(p), SigningPubKey { public_key: id }))
        } else if tag == TAG_DH {
            if data.len() != 105 {
                return Err(Error::Decode);
            }
            let pk = sub_vec(data, 1, 33);
            let n = read_u64_le(data, 33);
            let sig = sub_vec(data, 41, 105);
            Ok(
                ServerSays::DH(
                    UnsignedDH(DhPubKey { public_key: pk }, Nonce(n)),
                    Signature { bytes: sig },
                ),
            )
        } else {
            Err(Error::Decode)
        }
    }
}

/// A framed payload: 4-byte little-endian length, then the payload.
pub open spec fn spec_frame(payload: Seq<u8>) -> Seq<u8>
    recommends
        payload.len() <= u32::MAX,
{
    u32_le(payload.len() as u32) + payload
}

/// Strips the length prefix of a frame whose advertised length matches
/// what follows it.
pub open spec fn spec_unframe(b: Seq<u8>) -> Option<Seq<u8>> {
    if b.len() >= 4 && le_u32(b.subrange(0, 4)) == b.len() - 4 {
        Some(b.subrange(4, b.len() as int))
    } else {
        None
    }
}

/// Round-trip law for framing: stripping the prefix of a well-formed
/// frame yields the payload.
pub proof fn lemma_frame_roundtrip(payload: Seq<u8>)
    requires
        payload.len() <= u32::MAX,
    ensures
        spec_unframe(spec_frame(payload)) == Some(payload),
{
    let b = spec_frame(payload);
    assert(b.subrange(0, 4) =~= u32_le(payload.len() as u32));
    lemma_u32_le_roundtrip(payload.len() as u32);
    assert(b.subrange(4, b.len() as int) =~= payload);
}

/// Wraps a payload in a length-prefixed frame.
pub fn make_frame(payload: &Vec<u8>) -> (r: Vec<u8>)
    requires
        payload@.len() <= u32::MAX,
    ensures
        r@ == spec_frame(payload@),
{
    let mut out: Vec<u8> = Vec::new();
    push_u32_le(&mut out, payload.len() as u32);
    push_bytes(&mut out, payload);
    assert(out@ =~= spec_frame(payload@));
    out
}

/// Recovers the payload of a complete frame, rejecting a frame whose
/// advertised length does not match what follows the prefix.
pub fn payload_of_frame(frame: &Vec<u8>) -> (r: Result<Vec<u8>, Error>)
    ensures
        spec_unframe(frame@) matches Some(p) ==> (r matches Ok(v) && v@ == p),
        spec_unframe(frame@) is None ==> (r matches Err(e) && e == Error::Decode),
{
    let n = frame.len();
    if n < 4 {
        return Err(Error::Decode);
    }
    let advertised = read_u32_le(frame, 0);
    if advertised as usize != n - 4 {
        return Err(Error::Decode);
    }
    let payload = sub_vec(frame, 4, n);
    Ok(payload)
}

/// Reads the payload length out of a 4-byte frame header; how many bytes
/// must follow on the stream.
pub fn frame_len(header: &Vec<u8>) -> (r: Result<usize, Error>)
    ensures
        header@.len() == 4 ==> (r matches Ok(n) && n == le_u32(header@)),
        header@.len() != 4 ==> (r matches Err(e) && e == Error::Decode),
{
    if header.len() != 4 {
        return Err(Error::Decode);
    }
    let n = read_u32_le(header, 0);
    assert(header@.subrange(0, 4) =~= header@);
    Ok(n as usize)
}

/// Longest payload any handshake message can have: the responder's
/// signed key exchange, at 105 bytes.
pub const MAX_HANDSHAKE_PAYLOAD_LEN: usize = 105;

/// Reads the payload length out of a 4-byte frame header during the
/// handshake phase. A header advertising more than the longest handshake
/// message is implausible and is rejected as a decode error, before
/// anything of that size is read or allocated; only the transport phase
/// may use the prefix's full range.
pub fn handshake_frame_len(header: &Vec<u8>) -> (r: Result<usize, Error>)
    ensures
        header@.len() == 4 && le_u32(header@) <= MAX_HANDSHAKE_PAYLOAD_LEN ==> (r matches Ok(n)
            && n == le_u32(header@)),
        (header@.len() != 4 || le_u32(header@) > MAX_HANDSHAKE_PAYLOAD_LEN) ==> (r matches Err(e)
            && e == Error::Decode),
{
    let n = match frame_len(header) {
        Ok(n) => n,
        Err(e) => { return Err(e) },
    };
    if n > MAX_HANDSHAKE_PAYLOAD_LEN {
        return Err(Error::Decode);
    }
    Ok(n)
}

} // verus!
