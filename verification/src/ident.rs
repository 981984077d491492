//! 128-bit identifiers for tasks and replicas.

use crate::text::append_decimal;
use crate::text::decimal;
use crate::text::digit_char;
use byteorder::ByteOrder;
use byteorder::LittleEndian;
use vstd::bytes::lemma_auto_spec_u128_to_from_le_bytes;
use vstd::bytes::spec_u128_from_le_bytes;
use vstd::bytes::spec_u128_to_le_bytes;
use vstd::bytes::u128_to_le_bytes;
use vstd::prelude::*;
use vstd::string::StringExecFns;

verus! {

/// A universally unique identifier: sixteen bytes, compared bytewise.
///
/// The bytes are held as the 128-bit integer that they spell in little-endian order.
#[derive(Clone, Copy, Debug, PartialEq, Eq, Hash, Structural)]
pub struct Uuid {
    bits: u128,
}

/// An identifier that names a replica rather than a task.
pub type ReplicaUuid = Uuid;

/// The reason a byte string is no identifier.
#[derive(Clone, Copy, Debug, PartialEq, Eq, Structural)]
pub enum UuidError {
    /// The byte string does not hold exactly sixteen bytes; the payload is its length.
    InvalidLength(usize),
}

impl UuidError {
    /// The message that describes the error.
    pub open spec fn message(self) -> Seq<char> {
        match self {
            UuidError::InvalidLength(len) => "Invalid number of bytes for UUID: "@ + decimal(len as nat)
                + " bytes != 16."@,
        }
    }

    /// The message that describes the error.
    pub fn to_string(&self) -> (message: String)
        ensures
            message@ == self.message(),
    {
        match self {
            UuidError::InvalidLength(len) => {
                let mut message = String::from_str("Invalid number of bytes for UUID: ");
                append_decimal(&mut message, *len as u64);
                message.append(" bytes != 16.");
                message
            },
        }
    }
}

/// Calls `byteorder::LittleEndian::read_u128`, which reads the first sixteen bytes of `buf`
/// as an unsigned integer, least significant byte first, and panics on a shorter buffer.
#[verifier::external_body]
fn read_u128_le(buf: &[u8]) -> (value: u128)
    requires
        buf@.len() >= 16,
    ensures
        value == spec_u128_from_le_bytes(buf@.subrange(0, 16)),
{
    LittleEndian::read_u128(buf)
}

/// Calls `uuid::Uuid::new_v4`, which draws 122 random bits and sets the version nibble of
/// byte 6 to 4 and the two top bits of byte 8 to `10`; `to_u128_le` then reads the sixteen
/// bytes least significant first. Nothing else holds of every outcome.
#[verifier::external_body]
fn random_v4_bits() -> (bits: u128)
    ensures
        spec_u128_to_le_bytes(bits)[6] / 16 == 4,
        spec_u128_to_le_bytes(bits)[8] / 64 == 2,
{
    uuid::Uuid::new_v4().to_u128_le()
}

/// Calls `uuid::Uuid::from_u128_le`, which makes the identifier whose sixteen bytes spell
/// `bits` least significant byte first, and formats it with `uuid::Uuid::hyphenated`: every
/// byte as two lower-case hexadecimal digits, first byte first, with a hyphen behind the
/// fourth, the sixth, the eighth and the tenth byte.
#[verifier::external_body]
fn hyphenated_text(bits: u128) -> (text: String)
    ensures
        text@ == hyphenated(spec_u128_to_le_bytes(bits)),
{
    uuid::Uuid::from_u128_le(bits).hyphenated().to_string()
}

/// The character of a hexadecimal digit, in lower case.
pub open spec fn hex_char(digit: int) -> char {
    if digit < 10 {
        digit_char(digit)
    } else if digit == 10 {
        'a'
    } else if digit == 11 {
        'b'
    } else if digit == 12 {
        'c'
    } else if digit == 13 {
        'd'
    } else if digit == 14 {
        'e'
    } else {
        'f'
    }
}

/// The bytes as hexadecimal digits, two for each byte.
pub open spec fn hex_text(bytes: Seq<u8>) -> Seq<char>
    decreases bytes.len(),
{
    if bytes.len() == 0 {
        Seq::empty()
    } else {
        hex_text(bytes.drop_last()).push(hex_char(bytes.last() as int / 16)).push(
            hex_char(bytes.last() as int % 16),
        )
    }
}

/// Sixteen bytes in the usual form of an identifier: hexadecimal digits in groups of eight,
/// four, four, four and twelve, with hyphens between the groups.
pub open spec fn hyphenated(bytes: Seq<u8>) -> Seq<char> {
    hex_text(bytes.subrange(0, 4)) + seq!['-'] + hex_text(bytes.subrange(4, 6)) + seq!['-'] + hex_text(
        bytes.subrange(6, 8),
    ) + seq!['-'] + hex_text(bytes.subrange(8, 10)) + seq!['-'] + hex_text(bytes.subrange(10, 16))
}

impl Uuid {
    /// The identifier in its usual form, as in `00000000-0000-0000-0000-000001020304`.
    pub open spec fn text(self) -> Seq<char> {
        hyphenated(self.bytes())
    }

    /// The identifier in its usual form, as in `00000000-0000-0000-0000-000001020304`.
    pub fn to_string(&self) -> (text: String)
        ensures
            text@ == self.text(),
    {
        hyphenated_text(self.bits)
    }

    /// The sixteen bytes of the identifier, first byte first.
    pub closed spec fn bytes(self) -> Seq<u8> {
        spec_u128_to_le_bytes(self.bits)
    }

    /// The identifier whose sixteen bytes are `bytes`.
    pub closed spec fn spec_from_bytes(bytes: Seq<u8>) -> Uuid {
        Uuid { bits: spec_u128_from_le_bytes(bytes) }
    }

    /// The version number that the identifier carries in the high nibble of its seventh byte.
    pub open spec fn spec_version_num(self) -> int {
        self.bytes()[6] as int / 16
    }

    /// An identifier always has sixteen bytes, and reading them back gives the identifier.
    pub proof fn lemma_bytes_round_trip(self)
        ensures
            self.bytes().len() == 16,
            Uuid::spec_from_bytes(self.bytes()) == self,
    {
        lemma_auto_spec_u128_to_from_le_bytes();
        assert(spec_u128_to_le_bytes(self.bits).len() == 16);
    }

    /// Sixteen bytes name exactly one identifier.
    pub proof fn lemma_from_bytes_round_trip(bytes: Seq<u8>)
        requires
            bytes.len() == 16,
        ensures
            Uuid::spec_from_bytes(bytes).bytes() == bytes,
    {
        lemma_auto_spec_u128_to_from_le_bytes();
    }

    /// Two identifiers with the same bytes are the same identifier.
    pub proof fn lemma_bytes_injective(a: Uuid, b: Uuid)
        requires
            a.bytes() == b.bytes(),
        ensures
            a == b,
    {
        a.lemma_bytes_round_trip();
        b.lemma_bytes_round_trip();
    }

    /// A fresh random (version 4) identifier.
    pub fn new_v4() -> (id: Uuid)
        ensures
            id.spec_version_num() == 4,
    {
        Uuid { bits: random_v4_bits() }
    }

    /// The identifier with the given bytes.
    pub fn from_bytes(bytes: [u8; 16]) -> (id: Uuid)
        ensures
            id == Uuid::spec_from_bytes(bytes@),
            id.bytes() == bytes@,
    {
        proof {
            lemma_auto_spec_u128_to_from_le_bytes();
        }
        let slice = bytes.as_slice();
        assert(slice@.subrange(0, 16) =~= bytes@);
        Uuid { bits: read_u128_le(slice) }
    }

    /// The identifier held in a byte string, which must be exactly sixteen bytes long.
    pub fn from_slice(bytes: &[u8]) -> (r: Result<Uuid, UuidError>)
        ensures
            bytes@.len() == 16 ==> r == Ok::<Uuid, UuidError>(Uuid::spec_from_bytes(bytes@)),
            bytes@.len() != 16 ==> r == Err::<Uuid, UuidError>(UuidError::InvalidLength(bytes.len())),
    {
        if bytes.len() == 16 {
            assert(bytes@.subrange(0, 16) =~= bytes@);
            Ok(Uuid { bits: read_u128_le(bytes) })
        } else {
            Err(UuidError::InvalidLength(bytes.len()))
        }
    }

    /// The identifier whose bytes spell `value` least significant byte first.
    pub fn from_u128_le(value: u128) -> (id: Uuid)
        ensures
            id.to_u128_le() == value,
    {
        Uuid { bits: value }
    }

    /// The integer that the bytes spell least significant byte first.
    #[verifier::when_used_as_spec(spec_to_u128_le)]
    pub fn to_u128_le(&self) -> (value: u128)
        ensures
            value == self.spec_to_u128_le(),
    {
        self.bits
    }

    /// The integer that the bytes spell least significant byte first.
    pub closed spec fn spec_to_u128_le(&self) -> u128 {
        self.bits
    }

    /// The sixteen bytes of the identifier.
    pub fn as_bytes(&self) -> (bytes: [u8; 16])
        ensures
            bytes@ == self.bytes(),
    {
        let v = u128_to_le_bytes(self.bits);
        let bytes = [
            v[0], v[1], v[2], v[3], v[4], v[5], v[6], v[7],
            v[8], v[9], v[10], v[11], v[12], v[13], v[14], v[15],
        ];
        bytes
    }

    /// The version number of the identifier: 4 for one made by [`Uuid::new_v4`].
    pub fn get_version_num(&self) -> (version: u8)
        ensures
            version == self.spec_version_num(),
    {
        let v = u128_to_le_bytes(self.bits);
        v[6] / 16
    }
}

} // verus!
