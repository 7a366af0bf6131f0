//! Framed messages and the payload text codec.
//!
//! On the wire a message is a two-frame unit: frame one is the topic
//! identifier the transport filters on, frame two is the UTF-8 encoded
//! payload text. A payload that is not valid text is decoded to a fixed
//! sentinel instead of failing the session.

use vstd::prelude::*;
use vstd::string::StrSliceExecFns;
use vstd::utf8::{decode_utf8, encode_utf8, encode_utf8_decode_utf8, encode_utf8_valid_utf8,
    valid_utf8};

verus! {

/// One framed message: frame one the topic, frame two the payload bytes.
pub struct Message {
    pub topic: Vec<u8>,
    pub payload: Vec<u8>,
}

/// The mathematical image of a message: its two frames as byte sequences.
pub struct MessageModel {
    pub topic: Seq<u8>,
    pub payload: Seq<u8>,
}

impl View for Message {
    type V = MessageModel;

    open spec fn view(&self) -> MessageModel {
        MessageModel { topic: self.topic@, payload: self.payload@ }
    }
}

/// The text substituted for a payload frame that is not valid UTF-8.
pub open spec fn sentinel_text() -> Seq<char> {
    "invalid text"@
}

/// The text a received payload frame decodes to: its UTF-8 decoding when the
/// bytes are valid, the sentinel otherwise.
pub open spec fn payload_text(payload: Seq<u8>) -> Seq<char> {
    if valid_utf8(payload) {
        decode_utf8(payload)
    } else {
        sentinel_text()
    }
}

/// Relies on std's str::from_utf8: it returns `Ok` exactly when the bytes are
/// valid UTF-8, and then the returned text is their UTF-8 decoding.
#[verifier::external_body]
fn bytes_to_text(payload: &Vec<u8>) -> (r: Option<String>)
    ensures
        r is Some <==> valid_utf8(payload@),
        r is Some ==> r.unwrap()@ == decode_utf8(payload@),
{
    match std::str::from_utf8(payload.as_slice()) {
        Ok(s) => Some(s.to_string()),
        Err(_) => None,
    }
}

/// Decode a payload frame as text. An invalid encoding is handled locally by
/// substituting the sentinel: it never fails and never ends a session.
pub fn decode_payload(payload: &Vec<u8>) -> (r: String)
    ensures
        r@ == payload_text(payload@),
{
    match bytes_to_text(payload) {
        Some(s) => s,
        None => String::from_str("invalid text"),
    }
}

/// The bytes a topic or payload text is framed as on the wire.
pub fn text_to_bytes(s: &str) -> (r: Vec<u8>)
    ensures
        r@ == encode_utf8(s@),
{
    s.as_bytes_vec()
}

/// A byte-for-byte copy of a frame.
pub fn copy_bytes(v: &Vec<u8>) -> (r: Vec<u8>)
    ensures
        r@ == v@,
{
    let mut out: Vec<u8> = Vec::new();
    let n = v.len();
    for i in 0..n
        invariant
            n == v.len(),
            out@ =~= v@.take(i as int),
    {
        out.push(v[i]);
    }
    proof {
        assert(out@ =~= v@);
    }
    out
}

/// Whether two frames hold the same bytes.
pub fn bytes_eq(a: &Vec<u8>, b: &Vec<u8>) -> (r: bool)
    ensures
        r <==> a@ == b@,
{
    if a.len() != b.len() {
        proof {
            assert(a@.len() != b@.len());
        }
        return false;
    }
    let n = a.len();
    for i in 0..n
        invariant
            n == a.len() == b.len(),
            a@.take(i as int) =~= b@.take(i as int),
    {
        if a[i] != b[i] {
            return false;
        }
        proof {
            assert(a@.take(i + 1) =~= a@.take(i as int).push(a@[i as int]));
            assert(b@.take(i + 1) =~= b@.take(i as int).push(b@[i as int]));
        }
    }
    proof {
        assert(a@ =~= a@.take(n as int));
        assert(b@ =~= b@.take(n as int));
    }
    true
}

/// Round trip of the payload codec: text framed as its UTF-8 encoding is
/// decoded back to the same text, with no transformation in between.
pub proof fn lemma_text_round_trip(s: Seq<char>)
    ensures
        payload_text(encode_utf8(s)) == s,
{
    encode_utf8_valid_utf8(s);
    encode_utf8_decode_utf8(s);
}

} // verus!
