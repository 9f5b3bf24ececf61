//! Post identifiers: twelve bytes, written as twenty-four hexadecimal digits.

use mongodb::bson::oid::ObjectId;
use vstd::prelude::*;

verus! {

/// The character that stands for the value `n` of four bits, lower case.
pub open spec fn hex_digit(n: int) -> char {
    if n == 0 {
        '0'
    } else if n == 1 {
        '1'
    } else if n == 2 {
        '2'
    } else if n == 3 {
        '3'
    } else if n == 4 {
        '4'
    } else if n == 5 {
        '5'
    } else if n == 6 {
        '6'
    } else if n == 7 {
        '7'
    } else if n == 8 {
        '8'
    } else if n == 9 {
        '9'
    } else if n == 10 {
        'a'
    } else if n == 11 {
        'b'
    } else if n == 12 {
        'c'
    } else if n == 13 {
        'd'
    } else if n == 14 {
        'e'
    } else {
        'f'
    }
}

/// The value of a hexadecimal digit of either case; `None` for any other
/// character.
pub open spec fn hex_value(c: char) -> Option<int> {
    if '0' <= c && c <= '9' {
        Some(c as int - '0' as int)
    } else if 'a' <= c && c <= 'f' {
        Some(c as int - 'a' as int + 10)
    } else if 'A' <= c && c <= 'F' {
        Some(c as int - 'A' as int + 10)
    } else {
        None
    }
}

/// The lower-case hexadecimal text of a byte string: two digits per byte,
/// the high four bits first.
pub open spec fn hex_encode(bytes: Seq<u8>) -> Seq<char> {
    Seq::new(
        2 * bytes.len(),
        |i: int|
            if i % 2 == 0 {
                hex_digit(bytes[i / 2] as int / 16)
            } else {
                hex_digit(bytes[i / 2] as int % 16)
            },
    )
}

/// Whether `text` is the text of an identifier: exactly twenty-four
/// hexadecimal digits, of either case.
pub open spec fn is_hex_id(text: Seq<char>) -> bool {
    &&& text.len() == 24
    &&& forall|i: int| 0 <= i < 24 ==> (#[trigger] hex_value(text[i])) is Some
}

/// The twelve bytes that the text of an identifier stands for.
pub open spec fn hex_decode(text: Seq<char>) -> Seq<u8> {
    Seq::new(
        12,
        |i: int| (hex_value(text[2 * i])->0 * 16 + hex_value(text[2 * i + 1])->0) as u8,
    )
}

/// The identifier of a post, as the store generates it.
#[derive(Clone, Copy, Debug, PartialEq, Eq)]
pub struct PostId {
    pub bytes: [u8; 12],
}

impl View for PostId {
    type V = Seq<u8>;

    open spec fn view(&self) -> Seq<u8> {
        self.bytes@
    }
}

/// Calls `ObjectId::parse_str` of the bson crate and hands out the bytes of
/// the identifier it read. Trusted: the call succeeds exactly on twenty-four
/// hexadecimal digits of either case, and the bytes are the decoded pairs of
/// digits.
#[verifier::external_body]
fn parse_object_id(text: &str) -> (r: Option<[u8; 12]>)
    ensures
        r is Some <==> is_hex_id(text@),
        r matches Some(bytes) ==> bytes@ == hex_decode(text@),
{
    match ObjectId::parse_str(text) {
        Ok(oid) => Some(oid.bytes()),
        Err(_) => None,
    }
}

/// Calls `ObjectId::to_hex` of the bson crate on the identifier made of
/// `bytes`. Trusted: the text is the lower-case hexadecimal encoding of the
/// twelve bytes.
#[verifier::external_body]
fn object_id_hex(bytes: [u8; 12]) -> (r: String)
    ensures
        r@ == hex_encode(bytes@),
{
    ObjectId::from_bytes(bytes).to_hex()
}

impl PostId {
    /// Reads an identifier from its text. `None` when the text is not
    /// twenty-four hexadecimal digits.
    pub fn parse(text: &str) -> (r: Option<PostId>)
        ensures
            r is Some <==> is_hex_id(text@),
            r matches Some(id) ==> id@ == hex_decode(text@),
    {
        match parse_object_id(text) {
            Some(bytes) => Some(PostId { bytes }),
            None => None,
        }
    }

    /// The text of the identifier, in lower case.
    pub fn to_hex(&self) -> (r: String)
        ensures
            r@ == hex_encode(self@),
    {
        object_id_hex(self.bytes)
    }
}

/// The text of an identifier is itself the text of an identifier.
pub proof fn lemma_hex_encode_is_hex_id(bytes: Seq<u8>)
    requires
        bytes.len() == 12,
    ensures
        is_hex_id(hex_encode(bytes)),
{
    let text = hex_encode(bytes);
    assert forall|i: int| 0 <= i < 24 implies (#[trigger] hex_value(text[i])) is Some by {
        let b = bytes[i / 2] as int;
        assert(0 <= b / 16 < 16);
        assert(0 <= b % 16 < 16);
    }
}

/// Reading the text of an identifier gives the identifier back.
pub proof fn lemma_hex_round_trip(bytes: Seq<u8>)
    requires
        bytes.len() == 12,
    ensures
        is_hex_id(hex_encode(bytes)),
        hex_decode(hex_encode(bytes)) == bytes,
{
    lemma_hex_encode_is_hex_id(bytes);
    let text = hex_encode(bytes);
    assert forall|i: int| 0 <= i < 12 implies hex_decode(text)[i] == bytes[i] by {
        let b = bytes[i] as int;
        assert((2 * i) / 2 == i);
        assert((2 * i + 1) / 2 == i);
        assert((2 * i) % 2 == 0);
        assert((2 * i + 1) % 2 == 1);
        assert(0 <= b / 16 < 16);
        assert(0 <= b % 16 < 16);
        assert(hex_value(hex_digit(b / 16)) == Some(b / 16));
        assert(hex_value(hex_digit(b % 16)) == Some(b % 16));
        assert((b / 16) * 16 + b % 16 == b);
    }
    assert(hex_decode(text) =~= bytes);
}

} // verus!
