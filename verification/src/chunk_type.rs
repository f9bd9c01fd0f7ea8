//! The four-byte type code of a chunk and what its letter case encodes.

use crate::text::{ascii_text, decode_lossy, is_ascii_bytes, lemma_ascii_is_utf8, utf8_lossy};
use std::cmp::Ordering;
use vstd::prelude::*;

verus! {

/// A chunk's type code: four bytes, kept as they were given. Any four bytes
/// can be held; whether they form a code the format allows is a separate
/// question, answered by [`ChunkType::is_valid`]. Its view is the four bytes.
#[derive(Clone, Copy, Debug, Eq, Ord, Hash)]
pub struct ChunkType {
    bytes: [u8; 4],
}

/// Whether a byte is an ASCII letter, `A` to `Z` or `a` to `z`.
pub open spec fn is_letter(byte: u8) -> bool {
    (0x41 <= byte <= 0x5a) || (0x61 <= byte <= 0x7a)
}

/// Whether bit 5 of a byte is clear. Of a letter, this is the bit that tells
/// upper case (clear) from lower case (set).
pub open spec fn is_upper(byte: u8) -> bool {
    byte & 0x20 == 0
}

/// A chunk is critical when the first byte of its code is upper case.
pub open spec fn code_is_critical(code: Seq<u8>) -> bool {
    is_upper(code[0])
}

/// A chunk is public when the second byte of its code is upper case.
pub open spec fn code_is_public(code: Seq<u8>) -> bool {
    is_upper(code[1])
}

/// The reserved bit is as the format wants it when the third byte of the
/// code is upper case.
pub open spec fn code_is_reserved_bit_valid(code: Seq<u8>) -> bool {
    is_upper(code[2])
}

/// A chunk is safe to copy when the fourth byte of its code is lower case.
pub open spec fn code_is_safe_to_copy(code: Seq<u8>) -> bool {
    !is_upper(code[3])
}

/// A code is valid when its four bytes are letters and its reserved bit is
/// as the format wants it.
pub open spec fn code_is_valid(code: Seq<u8>) -> bool {
    &&& is_letter(code[0])
    &&& is_letter(code[1])
    &&& is_letter(code[2])
    &&& is_letter(code[3])
    &&& code_is_reserved_bit_valid(code)
}

/// Whether code `a` comes before code `b`: at the first byte in which they
/// differ, `a` has the smaller one.
pub open spec fn code_precedes(a: Seq<u8>, b: Seq<u8>) -> bool {
    ||| a[0] < b[0]
    ||| a[0] == b[0] && a[1] < b[1]
    ||| a[0] == b[0] && a[1] == b[1] && a[2] < b[2]
    ||| a[0] == b[0] && a[1] == b[1] && a[2] == b[2] && a[3] < b[3]
}

/// Among letters, the bit that `is_upper` reads is the case: it is clear in
/// `A` to `Z` and set in `a` to `z`.
pub proof fn lemma_case_of_letter(byte: u8)
    requires
        is_letter(byte),
    ensures
        is_upper(byte) <==> 0x41 <= byte <= 0x5a,
{
    assert(((0x41 <= byte <= 0x5a) || (0x61 <= byte <= 0x7a)) ==> (byte & 0x20 == 0 <==> 0x41
        <= byte <= 0x5a)) by (bit_vector);
}

/// A code is valid exactly when all four bytes are letters and the third is
/// one of `A` to `Z`. So one byte that is no letter makes a code invalid.
pub proof fn lemma_valid_code(code: Seq<u8>)
    ensures
        code_is_valid(code) <==> {
            &&& is_letter(code[0])
            &&& is_letter(code[1])
            &&& 0x41 <= code[2] <= 0x5a
            &&& is_letter(code[3])
        },
{
    if is_letter(code[2]) {
        lemma_case_of_letter(code[2]);
    }
}

impl View for ChunkType {
    type V = Seq<u8>;

    closed spec fn view(&self) -> Seq<u8> {
        self.bytes@
    }
}

impl PartialEq for ChunkType {
    /// Two type codes are equal when all four bytes are.
    fn eq(&self, other: &ChunkType) -> (equal: bool) {
        let equal = self.bytes[0] == other.bytes[0] && self.bytes[1] == other.bytes[1]
            && self.bytes[2] == other.bytes[2] && self.bytes[3] == other.bytes[3];
        assert(equal <==> self@ =~= other@);
        equal
    }
}

impl vstd::std_specs::cmp::PartialEqSpecImpl for ChunkType {
    open spec fn obeys_eq_spec() -> bool {
        true
    }

    open spec fn eq_spec(&self, other: &ChunkType) -> bool {
        self@ == other@
    }
}

impl From<[u8; 4]> for ChunkType {
    /// Holds the four bytes as a type code, as [`ChunkType::new`] does.
    fn from(bytes: [u8; 4]) -> (chunk_type: ChunkType)
        ensures
            chunk_type@ == bytes@,
    {
        ChunkType { bytes }
    }
}

impl vstd::std_specs::convert::FromSpecImpl<[u8; 4]> for ChunkType {
    open spec fn obeys_from_spec() -> bool {
        true
    }

    closed spec fn from_spec(bytes: [u8; 4]) -> ChunkType {
        ChunkType { bytes }
    }
}

impl PartialOrd for ChunkType {
    /// Type codes are ordered as their bytes are, the first byte deciding
    /// first.
    fn partial_cmp(&self, other: &ChunkType) -> (order: Option<Ordering>) {
        let mut i: usize = 0;
        while i < 4
            invariant
                i <= 4,
                forall|j: int| 0 <= j < i ==> self.bytes@[j] == other.bytes@[j],
            decreases 4 - i,
        {
            if self.bytes[i] < other.bytes[i] {
                return Some(Ordering::Less);
            }
            if self.bytes[i] > other.bytes[i] {
                return Some(Ordering::Greater);
            }
            i += 1;
        }
        assert(self@ =~= other@);
        Some(Ordering::Equal)
    }
}

impl vstd::std_specs::cmp::PartialOrdSpecImpl for ChunkType {
    open spec fn obeys_partial_cmp_spec() -> bool {
        true
    }

    open spec fn partial_cmp_spec(&self, other: &ChunkType) -> Option<Ordering> {
        if code_precedes(self@, other@) {
            Some(Ordering::Less)
        } else if self@ == other@ {
            Some(Ordering::Equal)
        } else {
            Some(Ordering::Greater)
        }
    }
}

impl ChunkType {
    /// Every type code has four bytes.
    pub proof fn lemma_four_bytes(self)
        ensures
            self@.len() == 4,
    {
    }

    /// Holds the four bytes as a type code. No byte is refused.
    pub fn new(bytes: [u8; 4]) -> (chunk_type: ChunkType)
        ensures
            chunk_type@ == bytes@,
    {
        ChunkType { bytes }
    }

    /// The four bytes of the code.
    pub fn bytes(&self) -> (bytes: [u8; 4])
        ensures
            bytes@ == self@,
    {
        self.bytes
    }

    /// Whether the chunk is critical: a decoder that does not know the type
    /// must not go on.
    pub fn is_critical(&self) -> (critical: bool)
        ensures
            critical == code_is_critical(self@),
    {
        self.bytes[0] & 0x20 == 0
    }

    /// Whether the chunk is public: its type is part of the format or
    /// registered, not private to an application.
    pub fn is_public(&self) -> (public: bool)
        ensures
            public == code_is_public(self@),
    {
        self.bytes[1] & 0x20 == 0
    }

    /// Whether the reserved bit, the case of the third byte, is as the
    /// format wants it.
    pub fn is_reserved_bit_valid(&self) -> (reserved_bit_valid: bool)
        ensures
            reserved_bit_valid == code_is_reserved_bit_valid(self@),
    {
        self.bytes[2] & 0x20 == 0
    }

    /// Whether an editor that does not know the type may copy the chunk into
    /// a changed file.
    pub fn is_safe_to_copy(&self) -> (safe_to_copy: bool)
        ensures
            safe_to_copy == code_is_safe_to_copy(self@),
    {
        self.bytes[3] & 0x20 != 0
    }

    /// Whether the code is one the format allows: four letters, the third in
    /// upper case.
    pub fn is_valid(&self) -> (valid: bool)
        ensures
            valid == code_is_valid(self@),
    {
        byte_is_letter(self.bytes[0]) && byte_is_letter(self.bytes[1]) && byte_is_letter(
            self.bytes[2],
        ) && byte_is_letter(self.bytes[3]) && self.is_reserved_bit_valid()
    }

    /// The code as text: its bytes read as UTF-8, with U+FFFD in place of
    /// what is not valid UTF-8. Where all four bytes are ASCII, as in every
    /// valid code, the text is those four characters.
    pub fn to_string(&self) -> (text: String)
        ensures
            text@ == utf8_lossy(self@),
            is_ascii_bytes(self@) ==> text@ == ascii_text(self@),
    {
        proof {
            if is_ascii_bytes(self@) {
                lemma_ascii_is_utf8(self@);
            }
        }
        decode_lossy(self.bytes.as_slice())
    }
}

/// Whether a byte is an ASCII letter.
fn byte_is_letter(byte: u8) -> (letter: bool)
    ensures
        letter == is_letter(byte),
{
    (0x41 <= byte && byte <= 0x5a) || (0x61 <= byte && byte <= 0x7a)
}

} // verus!
