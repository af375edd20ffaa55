//! A verified model of the 4-byte chunk-type tag used by PNG-style binary
//! container formats.
//!
//! A tag is four raw bytes whose ASCII capitalization encodes bit flags:
//! criticality (first byte), public/private (second byte), a reserved bit
//! (third byte) and copy-safety (fourth byte). Construction validates the
//! bytes; an invalid tag can never be observed.

use vstd::prelude::*;
use vstd::string::StrSliceExecFns;

verus! {

/// A byte is an uppercase ASCII letter (`A`-`Z`).
pub open spec fn upper_letter(b: u8) -> bool {
    65 <= b && b <= 90
}

/// A byte is a lowercase ASCII letter (`a`-`z`).
pub open spec fn lower_letter(b: u8) -> bool {
    97 <= b && b <= 122
}

/// A byte is an ASCII letter of either case.
pub open spec fn ascii_letter(b: u8) -> bool {
    upper_letter(b) || lower_letter(b)
}

/// A character is an ASCII letter of either case.
pub open spec fn letter_char(c: char) -> bool {
    (65 <= c as u32 && c as u32 <= 90) || (97 <= c as u32 && c as u32 <= 122)
}

/// The byte a character occupies in a tag: its code point, truncated to a
/// byte. Tags only ever store ASCII characters, for which no truncation
/// happens.
pub open spec fn char_code(c: char) -> u8 {
    (c as u32) as u8
}

/// Raw 4-byte input passes validation when each of the first three bytes is
/// an ASCII letter; the fourth byte is accepted unconditionally.
pub open spec fn raw_bytes_ok(bytes: Seq<u8>) -> bool {
    forall|i: int| 0 <= i < 3 ==> ascii_letter(bytes[i])
}

/// Text input passes validation when it holds at most 4 characters, all of
/// them ASCII letters.
pub open spec fn text_ok(s: Seq<char>) -> bool {
    s.len() <= 4 && (forall|i: int| 0 <= i < s.len() ==> letter_char(s[i]))
}

/// The 4-byte buffer a piece of text fills: its characters in order,
/// positions past the text's end left as zero bytes.
pub open spec fn padded_bytes(s: Seq<char>) -> Seq<u8> {
    Seq::new(4, |i: int| if i < s.len() { char_code(s[i]) } else { 0u8 })
}

/// Every byte of the sequence is ASCII (code point below 128).
pub open spec fn ascii_bytes(bytes: Seq<u8>) -> bool {
    forall|i: int| 0 <= i < bytes.len() ==> bytes[i] < 128
}

/// The text a byte buffer renders to: each byte read as the character with
/// that code point.
pub open spec fn rendered(bytes: Seq<u8>) -> Seq<char> {
    bytes.map_values(|b: u8| b as char)
}

/// The reason a construction was rejected.
#[derive(Debug, Clone, Copy, PartialEq, Eq, Structural)]
pub enum ChunkTypeError {
    /// Text input held more than 4 characters.
    TooLong,
    /// A byte or character that must be an ASCII letter is not one.
    InvalidCharacter,
}

/// A 4-byte chunk-type tag. Immutable after construction; each constructor
/// validates its input, so no observable tag ever came from rejected input.
#[derive(Debug)]
pub struct ChunkType([u8; 4]);

impl View for ChunkType {
    type V = Seq<u8>;

    closed spec fn view(&self) -> Seq<u8> {
        self.0@
    }
}

impl ChunkType {
    /// The tag's 4 raw bytes, unchanged.
    pub fn bytes(&self) -> (r: [u8; 4])
        ensures
            r@ == self@,
    {
        self.0
    }

    /// Builds a tag from 4 raw bytes. Succeeds exactly when each of the
    /// first three bytes is an ASCII letter (the fourth byte is not
    /// validated), and then keeps the bytes unchanged; fails with
    /// `InvalidCharacter` otherwise.
    pub fn try_from(bytes: [u8; 4]) -> (r: Result<ChunkType, ChunkTypeError>)
        ensures
            r is Ok <==> raw_bytes_ok(bytes@),
            r is Ok ==> r->Ok_0@ == bytes@,
            r is Err ==> r->Err_0 == ChunkTypeError::InvalidCharacter,
    {
        let mut i: usize = 0;
        while i < 3
            invariant
                i <= 3,
                forall|j: int| 0 <= j < i ==> ascii_letter(bytes@[j]),
            decreases 3 - i,
        {
            if !ascii_letter_byte(bytes[i]) {
                return Err(ChunkTypeError::InvalidCharacter);
            }
            i += 1;
        }
        Ok(ChunkType(bytes))
    }

    /// Builds a tag from text. Succeeds exactly when the text holds at most
    /// 4 characters, all of them ASCII letters; the characters fill the
    /// 4-byte buffer in order and positions past the text's end stay zero.
    /// Fails with `TooLong` when the text holds more than 4 characters, and
    /// otherwise with `InvalidCharacter` when some character is not an ASCII
    /// letter.
    pub fn from_str(s: &str) -> (r: Result<ChunkType, ChunkTypeError>)
        ensures
            r is Ok <==> text_ok(s@),
            r is Ok ==> r->Ok_0@ == padded_bytes(s@),
            s@.len() > 4 ==> r is Err && r->Err_0 == ChunkTypeError::TooLong,
            s@.len() <= 4 && !text_ok(s@) ==> r is Err && r->Err_0
                == ChunkTypeError::InvalidCharacter,
    {
        let n = s.unicode_len();
        if n > 4 {
            return Err(ChunkTypeError::TooLong);
        }
        let mut i: usize = 0;
        while i < n
            invariant
                i <= n,
                n == s@.len(),
                n <= 4,
                forall|j: int| 0 <= j < i ==> letter_char(s@[j]),
            decreases n - i,
        {
            if !ascii_letter_at(s, i) {
                return Err(ChunkTypeError::InvalidCharacter);
            }
            i += 1;
        }
        let bytes = [byte_at(s, 0, n), byte_at(s, 1, n), byte_at(s, 2, n), byte_at(s, 3, n)];
        proof {
            assert(bytes@ =~= padded_bytes(s@));
        }
        Ok(ChunkType(bytes))
    }

    /// The criticality flag: the first byte is an uppercase ASCII letter.
    pub open spec fn spec_is_critical(&self) -> bool {
        upper_letter(self@[0])
    }

    /// The public/private flag: the second byte is an uppercase ASCII letter.
    pub open spec fn spec_is_public(&self) -> bool {
        upper_letter(self@[1])
    }

    /// The reserved bit: the third byte is an uppercase ASCII letter.
    pub open spec fn spec_is_reserved_bit_valid(&self) -> bool {
        upper_letter(self@[2])
    }

    /// The copy-safety flag: the fourth byte is a lowercase ASCII letter.
    pub open spec fn spec_is_safe_to_copy(&self) -> bool {
        lower_letter(self@[3])
    }

    /// A tag is well formed when each of the first three bytes is an ASCII
    /// letter and the reserved bit holds. (The rule re-checks the reserved
    /// bit alongside every one of the three bytes, as the format demands
    /// nothing of the fourth byte; its net effect: the first two bytes are
    /// letters of either case and the third is uppercase.)
    pub open spec fn spec_is_valid(&self) -> bool {
        forall|i: int|
            0 <= i < 3 ==> (ascii_letter(self@[i]) && self.spec_is_reserved_bit_valid())
    }

    /// True iff the chunk is critical: one a decoder must process to show
    /// the image.
    pub fn is_critical(&self) -> (r: bool)
        ensures
            r == self.spec_is_critical(),
    {
        upper_letter_byte(self.0[0])
    }

    /// True iff the chunk type is public: part of the format specification
    /// or its registry rather than application-private.
    pub fn is_public(&self) -> (r: bool)
        ensures
            r == self.spec_is_public(),
    {
        upper_letter_byte(self.0[1])
    }

    /// True iff the reserved bit has the value the format currently
    /// requires.
    pub fn is_reserved_bit_valid(&self) -> (r: bool)
        ensures
            r == self.spec_is_reserved_bit_valid(),
    {
        upper_letter_byte(self.0[2])
    }

    /// True iff an unaware processor may copy the chunk unchanged.
    pub fn is_safe_to_copy(&self) -> (r: bool)
        ensures
            r == self.spec_is_safe_to_copy(),
    {
        lower_letter_byte(self.0[3])
    }

    /// True iff the tag is well formed: see `spec_is_valid`.
    pub fn is_valid(&self) -> (r: bool)
        ensures
            r == self.spec_is_valid(),
    {
        let mut i: usize = 0;
        while i < 3
            invariant
                i <= 3,
                forall|j: int|
                    0 <= j < i ==> (ascii_letter(self@[j]) && self.spec_is_reserved_bit_valid()),
            decreases 3 - i,
        {
            let bytes = self.bytes();
            if !ascii_letter_byte(bytes[i]) || !self.is_reserved_bit_valid() {
                return false;
            }
            i += 1;
        }
        true
    }

    /// Renders the tag as text: its 4 bytes read as ASCII characters.
    /// Rendering a tag whose bytes are not all ASCII is a contract
    /// violation, so such tags are excluded here; every tag built from text
    /// qualifies, and a tag built from raw bytes qualifies unless its fourth
    /// byte is non-ASCII.
    pub fn to_text(&self) -> (r: String)
        requires
            ascii_bytes(self@),
        ensures
            r@ == rendered(self@),
            r@.len() == 4,
    {
        let bytes = self.bytes();
        let mut v: Vec<u8> = Vec::new();
        v.push(bytes[0]);
        v.push(bytes[1]);
        v.push(bytes[2]);
        v.push(bytes[3]);
        proof {
            assert(v@ =~= self@);
        }
        string_from_ascii(v)
    }
}

impl PartialEq for ChunkType {
    /// Structural equality: two tags are equal iff their 4 bytes are equal,
    /// in order.
    fn eq(&self, other: &ChunkType) -> (r: bool) {
        let r = self.0[0] == other.0[0] && self.0[1] == other.0[1] && self.0[2] == other.0[2]
            && self.0[3] == other.0[3];
        proof {
            if r {
                assert(self@ =~= other@);
            }
        }
        r
    }
}

impl vstd::std_specs::cmp::PartialEqSpecImpl for ChunkType {
    open spec fn obeys_eq_spec() -> bool {
        true
    }

    open spec fn eq_spec(&self, other: &ChunkType) -> bool {
        self@ == other@
    }
}

impl Eq for ChunkType {}

/// Relies on `String::from_utf8`: a vector of bytes that are all ASCII is
/// valid UTF-8 and decodes to one character per byte, each with the byte's
/// code point.
#[verifier::external_body]
fn string_from_ascii(v: Vec<u8>) -> (r: String)
    requires
        ascii_bytes(v@),
    ensures
        r@ == rendered(v@),
{
    String::from_utf8(v).unwrap_or_default()
}

/// Law: the two construction paths agree. Text of 3 or 4 ASCII letters
/// fills a 4-byte buffer whose bytes also pass raw-byte validation, so
/// building from the text and building from those padded bytes both succeed
/// and, by the constructors' contracts, yield tags with equal bytes. (Text
/// of fewer than 3 letters leaves a zero byte among the first three, which
/// raw-byte validation rejects, so such text is excluded here.)
pub proof fn lemma_text_and_raw_agree(s: Seq<char>)
    requires
        3 <= s.len() <= 4,
        forall|i: int| 0 <= i < s.len() ==> letter_char(s[i]),
    ensures
        text_ok(s),
        raw_bytes_ok(padded_bytes(s)),
{
    assert forall|i: int| 0 <= i < 3 implies ascii_letter(padded_bytes(s)[i]) by {
        assert(letter_char(s[i]));
    }
}

/// A tag built from text can always be rendered: every byte of the buffer
/// that valid text fills is ASCII, being either a letter's code point or
/// the zero padding byte.
pub proof fn lemma_text_tag_is_ascii(s: Seq<char>)
    requires
        text_ok(s),
    ensures
        ascii_bytes(padded_bytes(s)),
{
    assert forall|i: int| 0 <= i < 4 implies padded_bytes(s)[i] < 128 by {
        if i < s.len() {
            assert(letter_char(s[i]));
        }
    }
}

/// Law: rendering inverts construction from text. A tag built from 4 ASCII
/// letters renders back to exactly that text.
pub proof fn lemma_render_round_trip(s: Seq<char>)
    requires
        s.len() == 4,
        forall|i: int| 0 <= i < s.len() ==> letter_char(s[i]),
    ensures
        rendered(padded_bytes(s)) == s,
{
    assert forall|i: int| 0 <= i < 4 implies rendered(padded_bytes(s))[i] == s[i] by {
        let c = s[i];
        assert(letter_char(c));
        vstd::utf8::char_u32_cast(c, c as u32);
    }
    assert(rendered(padded_bytes(s)) =~= s);
}

/// Decides `upper_letter` on a byte.
fn upper_letter_byte(b: u8) -> (r: bool)
    ensures
        r == upper_letter(b),
{
    65 <= b && b <= 90
}

/// Decides `lower_letter` on a byte.
fn lower_letter_byte(b: u8) -> (r: bool)
    ensures
        r == lower_letter(b),
{
    97 <= b && b <= 122
}

/// Decides `letter_char` on the character at position `i`.
fn ascii_letter_at(s: &str, i: usize) -> (r: bool)
    requires
        i < s@.len(),
    ensures
        r == letter_char(s@[i as int]),
{
    let c = s.get_char(i);
    let u = c as u32;
    (65 <= u && u <= 90) || (97 <= u && u <= 122)
}

/// The byte that position `i` of the 4-byte buffer gets when text `s`, of
/// length `n`, fills it: the character's code point below position `n`, a
/// zero byte past it.
fn byte_at(s: &str, i: usize, n: usize) -> (b: u8)
    requires
        n == s@.len(),
        n <= 4,
        i < 4,
        forall|j: int| 0 <= j < s@.len() ==> letter_char(s@[j]),
    ensures
        b == (if i < n { char_code(s@[i as int]) } else { 0u8 }),
{
    if i < n {
        let c = s.get_char(i);
        (c as u32) as u8
    } else {
        0
    }
}

/// Decides `ascii_letter` on a byte.
fn ascii_letter_byte(b: u8) -> (r: bool)
    ensures
        r == ascii_letter(b),
{
    (65 <= b && b <= 90) || (97 <= b && b <= 122)
}

} // verus!
