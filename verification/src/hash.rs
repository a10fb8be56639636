//! The hash capability interface.
//!
//! Watch determination is polymorphic over the hash type: any comparable
//! value with a wire encoding and a decoding that inverts it can key a
//! watch.  The interface speaks at the level of views, so each
//! implementation states its codec over mathematical sequences and proves
//! the round trip.  Strings are one such hash type: their wire form is the
//! length-prefixed UTF-8 byte vector.

use crate::scale::decode_byte_vec;
use crate::scale::encode_byte_vec;
use crate::scale::lemma_bytes_round_trip;
use crate::scale::spec_bytes_decode;
use crate::scale::spec_bytes_encode;
use vstd::prelude::*;
use vstd::string::*;
use vstd::utf8::decode_utf8;
use vstd::utf8::encode_utf8;
use vstd::utf8::encode_utf8_decode_utf8;
use vstd::utf8::encode_utf8_valid_utf8;
use vstd::utf8::valid_utf8;

verus! {

/// A value that can key a watch: it has a canonical wire encoding, and
/// decoding a byte prefix returns exactly the value whose encoding starts
/// those bytes.
pub trait RpcHash: Sized + View {
    /// Canonical wire encoding of a hash value.
    spec fn spec_encoding(v: Self::V) -> Seq<u8>;

    /// The value fits the wire format's limits.
    spec fn spec_encodable(v: Self::V) -> bool;

    /// What decoding a byte sequence yields, trailing bytes ignored.
    spec fn spec_decode(bytes: Seq<u8>) -> Option<Self::V>;

    /// Decoding an encoding, whatever follows it, returns the encoded
    /// value.
    proof fn lemma_decode_encoding(v: Self::V, tail: Seq<u8>)
        requires
            Self::spec_encodable(v),
        ensures
            Self::spec_decode(Self::spec_encoding(v) + tail) == Some(v),
    ;

    /// Writes the value's wire encoding.
    fn encode(&self) -> (r: Vec<u8>)
        requires
            Self::spec_encodable(self.view()),
        ensures
            r@ == Self::spec_encoding(self.view()),
    ;

    /// Reads a value from the start of `bytes`; trailing bytes are
    /// ignored.
    fn decode(bytes: &Vec<u8>) -> (r: Option<Self>)
        ensures
            match Self::spec_decode(bytes@) {
                Some(v) => r matches Some(h) && h.view() == v,
                None => r is None,
            },
    ;
}

/// Relies on std's `String::from_utf8`: it succeeds exactly on input that
/// is valid UTF-8, and then returns the string those bytes spell.
#[verifier::external_body]
fn string_from_utf8(bytes: Vec<u8>) -> (r: Option<String>)
    ensures
        r matches Some(s) ==> valid_utf8(bytes@) && s@ == decode_utf8(bytes@),
        r is None ==> !valid_utf8(bytes@),
{
    String::from_utf8(bytes).ok()
}

impl RpcHash for String {
    /// A string's wire form: its UTF-8 bytes behind their compact length.
    open spec fn spec_encoding(v: Seq<char>) -> Seq<u8> {
        spec_bytes_encode(encode_utf8(v))
    }

    open spec fn spec_encodable(v: Seq<char>) -> bool {
        encode_utf8(v).len() < 0x100000000
    }

    open spec fn spec_decode(bytes: Seq<u8>) -> Option<Seq<char>> {
        match spec_bytes_decode(bytes) {
            Some((data, _rest)) => if valid_utf8(data) {
                Some(decode_utf8(data))
            } else {
                None
            },
            None => None,
        }
    }

    proof fn lemma_decode_encoding(v: Seq<char>, tail: Seq<u8>) {
        let data = encode_utf8(v);
        lemma_bytes_round_trip(data, tail);
        encode_utf8_valid_utf8(v);
        encode_utf8_decode_utf8(v);
    }

    fn encode(&self) -> (r: Vec<u8>) {
        let data = self.as_str().as_bytes_vec();
        encode_byte_vec(&data)
    }

    fn decode(bytes: &Vec<u8>) -> (r: Option<String>) {
        proof {
            assert(bytes@.skip(0) =~= bytes@);
        }
        let (data, _p) = match decode_byte_vec(bytes, 0) {
            Some(p) => p,
            None => {
                return None;
            },
        };
        string_from_utf8(data)
    }
}

} // verus!
