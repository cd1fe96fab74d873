//! Object identifiers: the twenty bytes of a SHA-1 name and their hex form.

use vstd::prelude::*;
use vstd::string::*;

verus! {

/// Number of bytes in an object identifier.
pub const ID_BYTES: usize = 20;

/// The name of a stored object (a tree or a commit).
#[derive(Clone, Copy, Debug, PartialEq, Eq)]
pub struct ObjectId {
    pub bytes: [u8; 20],
}

/// The hex digit of a value below sixteen.
pub open spec fn hex_digit(value: int) -> char {
    "0123456789abcdef"@[value]
}

/// The lower-case hex form of `bytes`: two digits for each byte, the high
/// half first.
pub open spec fn hex(bytes: Seq<u8>) -> Seq<char> {
    Seq::new(
        2 * bytes.len(),
        |i: int|
            hex_digit(
                if i % 2 == 0 {
                    bytes[i / 2] as int / 16
                } else {
                    bytes[i / 2] as int % 16
                },
            ),
    )
}

impl View for ObjectId {
    type V = Seq<u8>;

    open spec fn view(&self) -> Seq<u8> {
        self.bytes@
    }
}

impl ObjectId {
    /// Reads an identifier from raw bytes; there must be exactly twenty.
    pub fn from_bytes(raw: &[u8]) -> (id: Option<ObjectId>)
        ensures
            id is Some <==> raw@.len() == ID_BYTES,
            id is Some ==> id->0@ == raw@,
    {
        if raw.len() != ID_BYTES {
            return None;
        }
        let mut bytes = [0u8; 20];
        let mut i: usize = 0;
        while i < ID_BYTES
            invariant
                i <= ID_BYTES,
                raw@.len() == ID_BYTES,
                forall|j: int| 0 <= j < i ==> bytes@[j] == raw@[j],
            decreases ID_BYTES - i,
        {
            bytes[i] = raw[i];
            i += 1;
        }
        assert(bytes@ =~= raw@);
        Some(ObjectId { bytes })
    }

    /// The identifier as forty lower-case hex digits, the way it is printed.
    pub fn to_hex(&self) -> (text: String)
        ensures
            text@ == hex(self@),
    {
        let mut text = String::new();
        let mut i: usize = 0;
        while i < ID_BYTES
            invariant
                i <= ID_BYTES,
                text@ == hex(self@.take(i as int)),
            decreases ID_BYTES - i,
        {
            let byte = self.bytes[i];
            push_hex_digit(&mut text, byte / 16);
            push_hex_digit(&mut text, byte % 16);
            i += 1;
            assert(text@ =~= hex(self@.take(i as int)));
        }
        assert(self@.take(ID_BYTES as int) =~= self@);
        text
    }
}

fn push_hex_digit(text: &mut String, value: u8)
    requires
        value < 16,
    ensures
        final(text)@ == old(text)@.push(hex_digit(value as int)),
{
    proof {
        reveal_strlit("0123456789abcdef");
    }
    let at = value as usize;
    let digit = "0123456789abcdef".substring_ascii(at, at + 1);
    text.append(digit);
    assert(text@ =~= old(text)@.push(hex_digit(value as int)));
}

/// Two values below sixteen with the same hex digit are the same value.
pub proof fn lemma_hex_digits_differ(a: int, b: int)
    requires
        0 <= a < 16,
        0 <= b < 16,
        hex_digit(a) == hex_digit(b),
    ensures
        a == b,
{
    reveal_strlit("0123456789abcdef");
}

/// An identifier is printed as forty digits.
pub proof fn lemma_hex_has_forty_digits(id: ObjectId)
    ensures
        hex(id@).len() == 40,
{
}

/// The printed form tells identifiers apart: two identifiers with the same
/// hex form hold the same bytes.
pub proof fn lemma_hex_names_one_id(a: ObjectId, b: ObjectId)
    requires
        hex(a@) == hex(b@),
    ensures
        a@ == b@,
{
    assert forall|i: int| 0 <= i < 20 implies a@[i] == b@[i] by {
        let x = a@[i] as int;
        let y = b@[i] as int;
        assert(hex(a@)[2 * i] == hex_digit(x / 16));
        assert(hex(b@)[2 * i] == hex_digit(y / 16));
        assert(hex(a@)[2 * i + 1] == hex_digit(x % 16));
        assert(hex(b@)[2 * i + 1] == hex_digit(y % 16));
        lemma_hex_digits_differ(x / 16, y / 16);
        lemma_hex_digits_differ(x % 16, y % 16);
    }
    assert(a@ =~= b@);
}

} // verus!
