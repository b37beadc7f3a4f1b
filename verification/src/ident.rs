use vstd::prelude::*;

verus! {

/// The value of a hexadecimal digit, in either case; `None` for any other
/// character.
pub open spec fn hex_value(c: char) -> Option<int> {
    if '0' <= c && c <= '9' {
        Some(c as int - '0' as int)
    } else if 'a' <= c && c <= 'f' {
        Some(c as int - 'a' as int + 10)
    } else if 'A' <= c && c <= 'F' {
        Some(c as int - 'A' as int + 10)
    } else {
        None
    }
}

/// The lower-case hexadecimal digit of a value below sixteen.
pub open spec fn hex_digit(n: int) -> char {
    if n < 10 {
        ('0' as int + n) as char
    } else {
        ('a' as int + n - 10) as char
    }
}

/// A poll identifier is written as twenty-four hexadecimal digits.
pub open spec fn is_poll_id_text(s: Seq<char>) -> bool {
    s.len() == 24 && forall|i: int| 0 <= i < 24 ==> (#[trigger] hex_value(s[i])).is_some()
}

/// The twelve bytes that a well-written identifier stands for, two digits to
/// a byte, the high one first.
pub open spec fn poll_id_bytes(s: Seq<char>) -> Seq<u8> {
    Seq::new(
        12,
        |i: int| (hex_value(s[2 * i]).unwrap() * 16 + hex_value(s[2 * i + 1]).unwrap()) as u8,
    )
}

/// The text of a byte string: two lower-case digits to a byte, the high one
/// first.
pub open spec fn hex_text(bytes: Seq<u8>) -> Seq<char> {
    Seq::new(
        2 * bytes.len(),
        |i: int|
            if i % 2 == 0 {
                hex_digit(bytes[i / 2] as int / 16)
            } else {
                hex_digit(bytes[i / 2] as int % 16)
            },
    )
}

/// Calls `ObjectId::parse_str` of bson and hands out the bytes of the
/// identifier. Trusted: the call succeeds exactly on twenty-four hexadecimal
/// digits of either case, and each byte is made of two digits, the high one
/// first.
#[verifier::external_body]
fn parse_object_id(s: &str) -> (r: Option<[u8; 12]>)
    ensures
        r.is_some() == is_poll_id_text(s@),
        r matches Some(b) ==> b@ == poll_id_bytes(s@),
{
    match mongodb::bson::oid::ObjectId::parse_str(s) {
        Ok(id) => Some(id.bytes()),
        Err(_) => None,
    }
}

/// Calls `ObjectId::to_hex` of bson. Trusted: the text holds two lower-case
/// hexadecimal digits for each of the twelve bytes, in order.
#[verifier::external_body]
fn object_id_to_hex(bytes: [u8; 12]) -> (r: String)
    ensures
        r@ == hex_text(bytes@),
{
    mongodb::bson::oid::ObjectId::from_bytes(bytes).to_hex()
}

/// Calls `ObjectId::new` of bson, which draws on the clock, a counter and a
/// random number: nothing is promised of the bytes. The call does not return
/// where the system clock stands before 1970.
#[verifier::external_body]
fn new_object_id() -> (r: [u8; 12]) {
    mongodb::bson::oid::ObjectId::new().bytes()
}

/// Calls `Uuid::new_v4` of uuid, which draws a random number: nothing is
/// promised of the value.
#[verifier::external_body]
pub(crate) fn new_uuid_v4() -> (r: u128) {
    uuid::Uuid::new_v4().as_u128()
}

/// Calls `Utc::now` of chrono and hands out the milliseconds since the epoch:
/// nothing is promised of the value. The call does not return where the
/// system clock stands before 1970.
#[verifier::external_body]
pub(crate) fn utc_now_millis() -> (r: i64) {
    chrono::Utc::now().timestamp_millis()
}

/// The identifier that the document store gives a poll: twelve bytes.
#[derive(Clone, Copy, Debug, PartialEq, Eq)]
pub struct PollId {
    pub bytes: [u8; 12],
}

impl View for PollId {
    type V = Seq<u8>;

    open spec fn view(&self) -> Seq<u8> {
        self.bytes@
    }
}

impl PollId {
    /// Reads an identifier from its text; `None` where the text is not
    /// twenty-four hexadecimal digits.
    pub fn parse_str(s: &str) -> (r: Option<PollId>)
        ensures
            r.is_some() == is_poll_id_text(s@),
            r matches Some(id) ==> id@ == poll_id_bytes(s@),
    {
        match parse_object_id(s) {
            Some(bytes) => Some(PollId { bytes }),
            None => None,
        }
    }

    /// The identifier's text, in lower case.
    pub fn to_hex(&self) -> (r: String)
        ensures
            r@ == hex_text(self@),
    {
        object_id_to_hex(self.bytes)
    }

    /// Whether two identifiers are the same twelve bytes.
    pub fn same(&self, other: &PollId) -> (b: bool)
        ensures
            b == (self@ == other@),
    {
        let mut i: usize = 0;
        while i < 12
            invariant
                i <= 12,
                forall|j: int| 0 <= j < i ==> self.bytes@[j] == other.bytes@[j],
            decreases 12 - i,
        {
            if self.bytes[i] != other.bytes[i] {
                return false;
            }
            i = i + 1;
        }
        assert(self.bytes@ =~= other.bytes@);
        true
    }

    /// A new identifier, as the document store's driver draws one.
    pub fn generate() -> (r: PollId) {
        PollId { bytes: new_object_id() }
    }
}

} // verus!
