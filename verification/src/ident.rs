//! Resource identifiers: twelve bytes, written as twenty-four hexadecimal digits.

use vstd::prelude::*;

verus! {

/// Identifier of a user, an organization or an issue.
#[derive(Clone, Copy, Debug, Eq)]
pub struct ResourceId {
    pub bytes: [u8; 12],
}

impl PartialEq for ResourceId {
    fn eq(&self, other: &Self) -> (r: bool) {
        let mut i: usize = 0;
        while i < 12
            invariant
                i <= 12,
                forall|j: int| 0 <= j < i ==> self.bytes[j] == other.bytes[j],
            decreases 12 - i,
        {
            if self.bytes[i] != other.bytes[i] {
                return false;
            }
            i += 1;
        }
        proof {
            assert(self.bytes =~= other.bytes);
        }
        true
    }
}

impl vstd::std_specs::cmp::PartialEqSpecImpl for ResourceId {
    open spec fn obeys_eq_spec() -> bool {
        true
    }

    open spec fn eq_spec(&self, other: &Self) -> bool {
        *self == *other
    }
}

/// The value of a hexadecimal digit of either case; `None` for any other character.
pub open spec fn hex_value(c: char) -> Option<int> {
    if '0' <= c <= '9' {
        Some(c as int - '0' as int)
    } else if 'a' <= c <= 'f' {
        Some(c as int - 'a' as int + 10)
    } else if 'A' <= c <= 'F' {
        Some(c as int - 'A' as int + 10)
    } else {
        None
    }
}

/// The lower-case hexadecimal digit for a value below sixteen.
pub open spec fn hex_digit(v: int) -> char {
    if v < 10 {
        ('0' as int + v) as char
    } else {
        ('a' as int + v - 10) as char
    }
}

/// The text of an identifier: exactly twenty-four hexadecimal digits.
pub open spec fn is_id_text(s: Seq<char>) -> bool {
    &&& s.len() == 24
    &&& forall|i: int| 0 <= i < 24 ==> (#[trigger] hex_value(s[i])) is Some
}

/// The twelve bytes that an identifier text denotes, two digits to a byte,
/// the high digit first.
pub open spec fn id_bytes(s: Seq<char>) -> Seq<u8> {
    Seq::new(12, |i: int| (16 * hex_value(s[2 * i])->0 + hex_value(s[2 * i + 1])->0) as u8)
}

/// The text of twelve bytes: two lower-case digits to a byte, the high digit first.
pub open spec fn id_text(b: Seq<u8>) -> Seq<char> {
    Seq::new(
        24,
        |i: int|
            if i % 2 == 0 {
                hex_digit(b[i / 2] as int / 16)
            } else {
                hex_digit(b[i / 2] as int % 16)
            },
    )
}

/// The identifier with the given bytes.
pub open spec fn id_of(b: Seq<u8>) -> ResourceId {
    choose|id: ResourceId| id@ == b
}

/// The identifier that a text denotes, if it is an identifier text.
pub open spec fn parse_id(s: Seq<char>) -> Option<ResourceId> {
    if is_id_text(s) {
        Some(id_of(id_bytes(s)))
    } else {
        None
    }
}

/// `mongodb::bson::oid::ObjectId::parse_str`, then `bytes()`: the text is
/// accepted exactly when it is twenty-four hexadecimal digits of either
/// case, and the identifier then holds the bytes that the digits denote.
#[verifier::external_body]
fn parse_object_id(s: &str) -> (r: Option<ResourceId>)
    ensures
        r is Some <==> is_id_text(s@),
        r matches Some(id) ==> id.bytes@ == id_bytes(s@),
{
    match mongodb::bson::oid::ObjectId::parse_str(s) {
        Ok(oid) => Some(ResourceId { bytes: oid.bytes() }),
        Err(_) => None,
    }
}

/// `mongodb::bson::oid::ObjectId::from_bytes`, then `to_hex()`: two
/// lower-case hexadecimal digits for each of the twelve bytes.
#[verifier::external_body]
fn object_id_hex(id: ResourceId) -> (r: String)
    ensures
        r@ == id_text(id.bytes@),
{
    mongodb::bson::oid::ObjectId::from_bytes(id.bytes).to_hex()
}

impl ResourceId {
    /// The identifier as a sequence of twelve bytes.
    pub open spec fn view(&self) -> Seq<u8> {
        self.bytes@
    }

    /// Reads an identifier from its text.
    pub fn parse_str(s: &str) -> (r: Option<ResourceId>)
        ensures
            r == parse_id(s@),
            r matches Some(id) ==> id@ == id_bytes(s@),
    {
        let r = parse_object_id(s);
        proof {
            if let Some(id) = r {
                lemma_id_of(id);
            }
        }
        r
    }

    /// The text of the identifier, in lower case.
    pub fn to_hex(self) -> (r: String)
        ensures
            r@ == id_text(self@),
    {
        object_id_hex(self)
    }
}

/// Two identifiers with the same bytes are the same identifier.
pub proof fn lemma_id_ext(a: ResourceId, b: ResourceId)
    requires
        a@ == b@,
    ensures
        a == b,
{
    assert forall|i: int| 0 <= i < 12 implies a.bytes[i] == b.bytes[i] by {
        assert(a.bytes@[i] == b.bytes@[i]);
    }
    assert(a.bytes =~= b.bytes);
}

/// An identifier is the identifier with its bytes.
pub proof fn lemma_id_of(id: ResourceId)
    ensures
        id_of(id@) == id,
{
    lemma_id_ext(id_of(id@), id);
}

/// The text of an identifier is an identifier text, and reading it gives the
/// identifier back.
pub proof fn lemma_text_round_trip(id: ResourceId)
    ensures
        is_id_text(id_text(id@)),
        id_bytes(id_text(id@)) == id@,
        parse_id(id_text(id@)) == Some(id),
{
    lemma_id_of(id);
    let b = id@;
    let s = id_text(b);
    assert forall|v: int| 0 <= v < 16 implies (#[trigger] hex_value(hex_digit(v))) == Some(v) by {}
    assert forall|i: int| 0 <= i < 24 implies (#[trigger] hex_value(s[i])) is Some by {
        let v = if i % 2 == 0 {
            b[i / 2] as int / 16
        } else {
            b[i / 2] as int % 16
        };
        assert(0 <= v < 16);
        assert(s[i] == hex_digit(v));
        assert(hex_value(hex_digit(v)) == Some(v));
    }
    assert forall|i: int| 0 <= i < 12 implies id_bytes(s)[i] == b[i] by {
        let hi = b[i] as int / 16;
        let lo = b[i] as int % 16;
        assert(s[2 * i] == hex_digit(hi));
        assert(s[2 * i + 1] == hex_digit(lo));
        assert(hex_value(hex_digit(hi)) == Some(hi));
        assert(hex_value(hex_digit(lo)) == Some(lo));
    }
    assert(id_bytes(s) =~= b);
}

} // verus!
