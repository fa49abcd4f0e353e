use vstd::prelude::*;
use vstd::string::StringSliceAdditionalSpecFns;
use vstd::utf8::{encode_utf8, is_ascii_chars, is_ascii_chars_encode_utf8};
use core::cmp::Ordering;
use crate::bytes::{bytes_less, lex_less};
use crate::error::ChunkError;

verus! {

/// Whether the case bit (`0x20`) of `b` is set. It is the bit that tells a
/// lower-case ASCII letter from its upper-case form.
pub open spec fn case_bit(b: u8) -> bool {
    b & 0x20 == 0x20
}

/// Whether `b` is one of `A`..`Z`.
pub open spec fn is_ascii_upper(b: u8) -> bool {
    0x41 <= b && b <= 0x5a
}

/// Whether `b` is one of `a`..`z`.
pub open spec fn is_ascii_lower(b: u8) -> bool {
    0x61 <= b && b <= 0x7a
}

/// Whether `b` is an ASCII letter, upper or lower case.
pub open spec fn is_ascii_letter(b: u8) -> bool {
    is_ascii_upper(b) || is_ascii_lower(b)
}

/// Whether `bytes` can stand for a tag when given as text: four bytes, each
/// an ASCII letter.
pub open spec fn is_tag_text(bytes: Seq<u8>) -> bool {
    &&& bytes.len() == 4
    &&& forall|i: int| 0 <= i < bytes.len() ==> is_ascii_letter(#[trigger] bytes[i])
}

/// A four-byte chunk tag. The case bit of each byte carries one flag.
#[derive(Debug, Clone, Copy, PartialEq, Eq, Structural, Ord, Hash)]
pub struct ChunkType(u8, u8, u8, u8);

impl View for ChunkType {
    type V = Seq<u8>;

    /// The tag's four bytes, in the order in which they were given.
    closed spec fn view(&self) -> Seq<u8> {
        seq![self.0, self.1, self.2, self.3]
    }
}

impl ChunkType {
    /// The tag made of the first four bytes of `bytes`.
    pub closed spec fn from_seq(bytes: Seq<u8>) -> ChunkType {
        ChunkType(bytes[0], bytes[1], bytes[2], bytes[3])
    }

    /// What building a tag from a run of bytes gives: the tag with those
    /// bytes if there are four of them, else `MalformedInput`.
    pub open spec fn parse(bytes: Seq<u8>) -> Result<ChunkType, ChunkError> {
        if bytes.len() == 4 {
            Ok(ChunkType::from_seq(bytes))
        } else {
            Err(ChunkError::MalformedInput)
        }
    }

    /// What building a tag from text gives, in terms of the text's bytes:
    /// the tag with those bytes if they are four ASCII letters, else
    /// `MalformedInput`.
    pub open spec fn parse_text(bytes: Seq<u8>) -> Result<ChunkType, ChunkError> {
        if is_tag_text(bytes) {
            Ok(ChunkType::from_seq(bytes))
        } else {
            Err(ChunkError::MalformedInput)
        }
    }

    /// The tag read as text: each byte taken as the character with that code
    /// point.
    pub open spec fn text(self) -> Seq<char> {
        Seq::new(4, |i: int| self@[i] as char)
    }

    /// Critical, as opposed to ancillary: the first byte's case bit is clear.
    pub open spec fn spec_is_critical(&self) -> bool {
        !case_bit(self@[0])
    }

    /// Public, as opposed to private: the second byte's case bit is clear.
    pub open spec fn spec_is_public(&self) -> bool {
        !case_bit(self@[1])
    }

    /// The reserved bit is as it must be: the third byte's case bit is
    /// clear.
    pub open spec fn spec_is_reserved_bit_valid(&self) -> bool {
        !case_bit(self@[2])
    }

    /// Safe to copy: the fourth byte's case bit is set.
    pub open spec fn spec_is_safe_to_copy(&self) -> bool {
        case_bit(self@[3])
    }

    /// Valid: the reserved bit is as it must be, whatever the other flags
    /// say.
    pub open spec fn spec_is_valid(&self) -> bool {
        self.spec_is_reserved_bit_valid()
    }

    /// A tag has four bytes, and is the tag made of them: tags and runs of
    /// four bytes correspond one to one.
    pub broadcast proof fn lemma_view(self)
        ensures
            (#[trigger] self@).len() == 4,
            ChunkType::from_seq(self@) == self,
    {
    }

    /// Round trip: the tag made of four bytes has those bytes, whatever
    /// they are.
    pub broadcast proof fn lemma_from_seq(bytes: Seq<u8>)
        requires
            bytes.len() == 4,
        ensures
            (#[trigger] ChunkType::from_seq(bytes))@ == bytes,
    {
        assert(ChunkType::from_seq(bytes)@ =~= bytes);
    }

    /// Builds a tag from any four bytes. Whether it is valid is a separate
    /// question, see `is_valid`.
    pub fn new(a: u8, b: u8, c: u8, d: u8) -> (tag: ChunkType)
        ensures
            tag == ChunkType::from_seq(seq![a, b, c, d]),
            tag@ == seq![a, b, c, d],
    {
        ChunkType(a, b, c, d)
    }

    /// The tag's four bytes, as they were given.
    pub fn bytes(&self) -> (out: [u8; 4])
        ensures
            out@ == self@,
    {
        let out = [self.0, self.1, self.2, self.3];
        assert(out@ =~= self@);
        out
    }

    /// Whether the tag may be written to a file: so it is if its reserved
    /// bit is as it must be. No other flag counts.
    #[verifier::when_used_as_spec(spec_is_valid)]
    pub fn is_valid(&self) -> (valid: bool)
        ensures
            valid == self.spec_is_valid(),
    {
        self.is_reserved_bit_valid()
    }

    /// Whether a decoder must understand this chunk: the first byte's case
    /// bit is clear.
    #[verifier::when_used_as_spec(spec_is_critical)]
    pub fn is_critical(&self) -> (critical: bool)
        ensures
            critical == self.spec_is_critical(),
    {
        proof {
            lemma_case_bit_clear(self.0);
        }
        (self.0 & 0x20) == 0
    }

    /// Whether the chunk's meaning is publicly defined: the second byte's
    /// case bit is clear.
    #[verifier::when_used_as_spec(spec_is_public)]
    pub fn is_public(&self) -> (public: bool)
        ensures
            public == self.spec_is_public(),
    {
        proof {
            lemma_case_bit_clear(self.1);
        }
        (self.1 & 0x20) == 0
    }

    /// Whether the reserved bit is as it must be: the third byte's case bit
    /// is clear.
    #[verifier::when_used_as_spec(spec_is_reserved_bit_valid)]
    pub fn is_reserved_bit_valid(&self) -> (reserved_ok: bool)
        ensures
            reserved_ok == self.spec_is_reserved_bit_valid(),
    {
        proof {
            lemma_case_bit_clear(self.2);
        }
        (self.2 & 0x20) == 0
    }

    /// Whether an editor that does not know this chunk may copy it: the
    /// fourth byte's case bit is set.
    #[verifier::when_used_as_spec(spec_is_safe_to_copy)]
    pub fn is_safe_to_copy(&self) -> (safe: bool)
        ensures
            safe == self.spec_is_safe_to_copy(),
    {
        (self.3 & 0x20) == 0x20
    }

    /// The tag as text, each byte taken as the character with that code
    /// point. For a tag built from text this is that text again.
    pub fn to_string(&self) -> (text: String)
        ensures
            text@ == self.text(),
    {
        let mut text = String::new();
        text.push(self.0 as char);
        text.push(self.1 as char);
        text.push(self.2 as char);
        text.push(self.3 as char);
        assert(text@ =~= self.text());
        text
    }
}

/// `String::push` appends the character it is given to the end of the
/// string. Believed of std, not proved.
pub assume_specification[ String::push ](s: &mut String, ch: char)
    ensures
        final(s)@ == old(s)@.push(ch),
;

/// The case bit is either set or clear.
proof fn lemma_case_bit_clear(b: u8)
    ensures
        (b & 0x20 == 0) == !case_bit(b),
{
    assert((b & 0x20 == 0) == !(b & 0x20 == 0x20)) by (bit_vector);
}

/// Among the ASCII letters, the case bit is set in the lower-case ones and
/// clear in the upper-case ones.
pub proof fn lemma_case_bit_of_letter(b: u8)
    requires
        is_ascii_letter(b),
    ensures
        case_bit(b) == is_ascii_lower(b),
        !case_bit(b) == is_ascii_upper(b),
{
    assert(((0x41 <= b && b <= 0x5a) || (0x61 <= b && b <= 0x7a)) ==> ((b & 0x20 == 0x20) == (0x61
        <= b && b <= 0x7a))) by (bit_vector);
}

/// In a tag given as text each flag follows the case of one letter, and of
/// no other: critical, public and reserved-bit-valid say that the first,
/// second and third letter are upper case, safe-to-copy that the fourth is
/// lower case.
pub proof fn lemma_flags_follow_letter_case(tag: ChunkType)
    requires
        is_tag_text(tag@),
    ensures
        tag.is_critical() == is_ascii_upper(tag@[0]),
        tag.is_public() == is_ascii_upper(tag@[1]),
        tag.is_reserved_bit_valid() == is_ascii_upper(tag@[2]),
        tag.is_safe_to_copy() == is_ascii_lower(tag@[3]),
        tag.is_valid() == is_ascii_upper(tag@[2]),
{
    lemma_case_bit_of_letter(tag@[0]);
    lemma_case_bit_of_letter(tag@[1]);
    lemma_case_bit_of_letter(tag@[2]);
    lemma_case_bit_of_letter(tag@[3]);
}

fn is_letter(b: u8) -> (letter: bool)
    ensures
        letter == is_ascii_letter(b),
{
    (0x41 <= b && b <= 0x5a) || (0x61 <= b && b <= 0x7a)
}

impl<'a> TryFrom<&'a [u8]> for ChunkType {
    type Error = ChunkError;

    /// Builds a tag from a run of bytes, which must be four.
    fn try_from(bytes: &'a [u8]) -> (built: Result<ChunkType, ChunkError>)
        ensures
            built == ChunkType::parse(bytes@),
    {
        if bytes.len() != 4 {
            return Err(ChunkError::MalformedInput);
        }
        Ok(ChunkType(bytes[0], bytes[1], bytes[2], bytes[3]))
    }
}

impl<'a> vstd::std_specs::convert::TryFromSpecImpl<&'a [u8]> for ChunkType {
    open spec fn obeys_try_from_spec() -> bool {
        true
    }

    open spec fn try_from_spec(bytes: &'a [u8]) -> Result<ChunkType, ChunkError> {
        ChunkType::parse(bytes@)
    }
}

impl TryFrom<[u8; 4]> for ChunkType {
    type Error = ChunkError;

    /// Builds a tag from four bytes. This cannot fail.
    fn try_from(bytes: [u8; 4]) -> (built: Result<ChunkType, ChunkError>)
        ensures
            built == Ok::<ChunkType, ChunkError>(ChunkType::from_seq(bytes@)),
    {
        Ok(ChunkType(bytes[0], bytes[1], bytes[2], bytes[3]))
    }
}

impl vstd::std_specs::convert::TryFromSpecImpl<[u8; 4]> for ChunkType {
    open spec fn obeys_try_from_spec() -> bool {
        true
    }

    open spec fn try_from_spec(bytes: [u8; 4]) -> Result<ChunkType, ChunkError> {
        Ok(ChunkType::from_seq(bytes@))
    }
}

impl PartialOrd for ChunkType {
    /// Tags are ordered as their bytes are, the first byte counting most.
    fn partial_cmp(&self, other: &ChunkType) -> (order: Option<Ordering>) {
        let mine = self.bytes();
        let theirs = other.bytes();
        proof {
            self.lemma_view();
            other.lemma_view();
        }
        if *self == *other {
            Some(Ordering::Equal)
        } else if bytes_less(mine.as_slice(), theirs.as_slice()) {
            Some(Ordering::Less)
        } else {
            Some(Ordering::Greater)
        }
    }
}

impl vstd::std_specs::cmp::PartialOrdSpecImpl for ChunkType {
    open spec fn obeys_partial_cmp_spec() -> bool {
        true
    }

    open spec fn partial_cmp_spec(&self, other: &ChunkType) -> Option<Ordering> {
        if self@ == other@ {
            Some(Ordering::Equal)
        } else if lex_less(self@, other@) {
            Some(Ordering::Less)
        } else {
            Some(Ordering::Greater)
        }
    }
}

impl core::str::FromStr for ChunkType {
    type Err = ChunkError;

    /// Builds a tag from text, which must be four ASCII letters.
    fn from_str(s: &str) -> (built: Result<ChunkType, ChunkError>)
        ensures
            built == ChunkType::parse_text(s.spec_bytes()),
            built is Ok ==> built->Ok_0.text() == s@,
    {
        let bytes = s.as_bytes();
        let mut i: usize = 0;
        while i < bytes.len()
            invariant
                bytes@ == s.spec_bytes(),
                i <= bytes@.len(),
                forall|j: int| 0 <= j < i ==> is_ascii_letter(#[trigger] bytes@[j]),
            decreases bytes@.len() - i,
        {
            if !is_letter(bytes[i]) {
                return Err(ChunkError::MalformedInput);
            }
            i += 1;
        }
        let built = ChunkType::try_from(bytes);
        proof {
            if bytes@.len() == 4 {
                lemma_text_of_letters(s@);
                assert(built->Ok_0.text() =~= s@);
            }
        }
        built
    }
}

/// A character whose UTF-8 form starts with a byte below `0x80` is an ASCII
/// character, and that byte is all of its UTF-8 form.
proof fn lemma_ascii_char(c: char)
    requires
        vstd::utf8::encode_scalar(c as u32)[0] < 0x80,
    ensures
        '\0' <= c <= '\u{7f}',
        vstd::utf8::encode_scalar(c as u32).len() == 1,
{
    let v = c as u32;
    assert(0xC0u8 | ((v >> 6) & 0x1F) as u8 >= 0x80) by (bit_vector);
    assert(0xE0u8 | ((v >> 12) & 0x0F) as u8 >= 0x80) by (bit_vector);
    assert(0xF0u8 | ((v >> 18) & 0x7) as u8 >= 0x80) by (bit_vector);
}

/// Text whose UTF-8 form holds bytes below `0x80` only is ASCII text: it
/// has one character for each byte, with the byte's value.
proof fn lemma_text_of_letters(chars: Seq<char>)
    requires
        forall|i: int| 0 <= i < encode_utf8(chars).len() ==> #[trigger] encode_utf8(chars)[i] < 0x80,
    ensures
        is_ascii_chars(chars),
        chars.len() == encode_utf8(chars).len(),
        forall|i: int| 0 <= i < chars.len() ==> chars[i] == #[trigger] encode_utf8(chars)[i] as char,
    decreases chars.len(),
{
    if chars.len() > 0 {
        let head = vstd::utf8::encode_scalar(chars[0] as u32);
        let tail = encode_utf8(chars.drop_first());
        assert(encode_utf8(chars) == head + tail);
        assert(head.len() >= 1);
        assert(encode_utf8(chars)[0] == head[0]);
        lemma_ascii_char(chars[0]);
        assert forall|i: int| 0 <= i < tail.len() implies #[trigger] tail[i] < 0x80 by {
            assert(tail[i] == encode_utf8(chars)[i + 1]);
        }
        lemma_text_of_letters(chars.drop_first());
        assert forall|i: int| 0 <= i < chars.len() implies '\0' <= #[trigger] chars[i] <= '\u{7f}' by {
            if i > 0 {
                assert(chars[i] == chars.drop_first()[i - 1]);
            }
        }
    }
    is_ascii_chars_encode_utf8(chars);
    assert forall|i: int| 0 <= i < chars.len() implies chars[i] == #[trigger] encode_utf8(
        chars,
    )[i] as char by {
        assert(chars[i] as u8 == encode_utf8(chars)[i]);
    }
}

} // verus!
