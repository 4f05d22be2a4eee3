//! Store-assigned user identifiers: twelve bytes, written as 24 hexadecimal digits.
use vstd::prelude::*;

verus! {

/// Number of bytes in an identifier.
pub const ID_BYTES: usize = 12;

/// Number of hexadecimal digits in the text form of an identifier.
pub const ID_TEXT_LEN: usize = 24;

/// The lower-case hexadecimal digits, by value.
pub open spec fn hex_digits() -> Seq<char> {
    seq!['0', '1', '2', '3', '4', '5', '6', '7', '8', '9', 'a', 'b', 'c', 'd', 'e', 'f']
}

/// A hexadecimal digit of either case.
pub open spec fn is_hex_digit(c: char) -> bool {
    ('0' <= c && c <= '9') || ('a' <= c && c <= 'f') || ('A' <= c && c <= 'F')
}

/// The value of a hexadecimal digit.
pub open spec fn hex_value(c: char) -> int {
    if '0' <= c && c <= '9' {
        c as int - '0' as int
    } else if 'a' <= c && c <= 'f' {
        c as int - 'a' as int + 10
    } else {
        c as int - 'A' as int + 10
    }
}

/// Text that names an identifier: exactly 24 hexadecimal digits.
pub open spec fn is_id_text(s: Seq<char>) -> bool {
    &&& s.len() == ID_TEXT_LEN
    &&& forall|i: int| 0 <= i < s.len() ==> is_hex_digit(#[trigger] s[i])
}

/// The bytes that identifier text spells, high digit first.
pub open spec fn id_bytes(s: Seq<char>) -> Seq<u8> {
    Seq::new(ID_BYTES as nat, |i: int| (hex_value(s[2 * i]) * 16 + hex_value(s[2 * i + 1])) as u8)
}

/// The canonical text of an identifier: two lower-case digits per byte.
pub open spec fn id_text(b: Seq<u8>) -> Seq<char> {
    Seq::new(
        2 * b.len(),
        |i: int|
            if i % 2 == 0 {
                hex_digits()[(b[i / 2] as int) / 16]
            } else {
                hex_digits()[(b[i / 2] as int) % 16]
            },
    )
}

/// Relies on bson's `ObjectId::parse_str`: it accepts exactly the strings of
/// 24 hexadecimal digits of either case, and returns the 12 bytes they spell.
#[verifier::external_body]
fn parse_object_id(text: &str) -> (r: Option<[u8; 12]>)
    ensures
        r is Some <==> is_id_text(text@),
        r matches Some(b) ==> b@ == id_bytes(text@),
{
    match mongodb::bson::oid::ObjectId::parse_str(text) {
        Ok(oid) => Some(oid.bytes()),
        Err(_) => None,
    }
}

/// Relies on bson's `ObjectId::to_hex`: two lower-case hexadecimal digits per
/// byte, high digit first.
#[verifier::external_body]
fn object_id_hex(bytes: [u8; 12]) -> (r: String)
    ensures
        r@ == id_text(bytes@),
{
    mongodb::bson::oid::ObjectId::from_bytes(bytes).to_hex()
}

/// The identifier of a stored user record.
#[derive(Clone, Copy, Debug, PartialEq, Eq)]
pub struct UserId {
    pub bytes: [u8; 12],
}

impl View for UserId {
    type V = Seq<u8>;

    open spec fn view(&self) -> Seq<u8> {
        self.bytes@
    }
}

impl UserId {
    /// Reads an identifier from its text form; `None` when the text is not
    /// 24 hexadecimal digits.
    pub fn parse(text: &str) -> (r: Option<UserId>)
        ensures
            r is Some <==> is_id_text(text@),
            r matches Some(id) ==> id@ == id_bytes(text@),
    {
        match parse_object_id(text) {
            Some(bytes) => Some(UserId { bytes }),
            None => None,
        }
    }

    /// The canonical text form of the identifier.
    pub fn to_hex(&self) -> (r: String)
        ensures
            r@ == id_text(self@),
            is_id_text(r@),
            id_bytes(r@) == self@,
    {
        proof {
            lemma_id_text_round_trip(self@);
        }
        object_id_hex(self.bytes)
    }
}

proof fn lemma_hex_digit_value(n: int)
    requires
        0 <= n < 16,
    ensures
        is_hex_digit(hex_digits()[n]),
        hex_value(hex_digits()[n]) == n,
{
}

/// The text form of an identifier reads back as the same identifier.
pub proof fn lemma_id_text_round_trip(b: Seq<u8>)
    requires
        b.len() == ID_BYTES,
    ensures
        is_id_text(id_text(b)),
        id_bytes(id_text(b)) == b,
{
    let t = id_text(b);
    assert forall|i: int| 0 <= i < t.len() implies is_hex_digit(#[trigger] t[i]) by {
        let v = b[i / 2] as int;
        lemma_hex_digit_value(v / 16);
        lemma_hex_digit_value(v % 16);
    }
    assert forall|i: int| 0 <= i < ID_BYTES implies #[trigger] id_bytes(t)[i] == b[i] by {
        let v = b[i] as int;
        assert((2 * i) / 2 == i);
        assert((2 * i + 1) / 2 == i);
        assert((2 * i) % 2 == 0);
        assert((2 * i + 1) % 2 == 1);
        lemma_hex_digit_value(v / 16);
        lemma_hex_digit_value(v % 16);
        assert(v / 16 * 16 + v % 16 == v);
    }
    assert(id_bytes(t) =~= b);
}

} // verus!
