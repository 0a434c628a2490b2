//! Bytes and text at the boundary with the engine: C strings and UTF-8.

use core::str::Utf8Error;
use vstd::prelude::*;
use vstd::utf8::*;

verus! {

/// True when the bytes hold a NUL byte.
pub open spec fn has_nul(bytes: Seq<u8>) -> bool {
    exists|i: int| 0 <= i < bytes.len() && bytes[i] == 0
}

/// The bytes followed by one NUL byte: the form in which C takes a string.
pub open spec fn nul_terminated(bytes: Seq<u8>) -> Seq<u8> {
    bytes.push(0u8)
}

/// The bytes that were handed over, if any were.
pub open spec fn bytes_of(bytes: Option<&[u8]>) -> Option<Seq<u8>> {
    match bytes {
        Some(bytes) => Some(bytes@),
        None => None,
    }
}

/// Tells whether the bytes hold a NUL byte.
pub fn contains_nul(bytes: &[u8]) -> (found: bool)
    ensures
        found == has_nul(bytes@),
{
    let mut i: usize = 0;
    while i < bytes.len()
        invariant
            i <= bytes.len(),
            forall|j: int| 0 <= j < i ==> bytes@[j] != 0,
        decreases bytes.len() - i,
    {
        if bytes[i] == 0 {
            return true;
        }
        i += 1;
    }
    false
}

/// Frames the bytes as a C string: a copy with a NUL byte behind it. There is no such
/// string when the bytes themselves hold a NUL, since C would take the text to end there.
pub fn c_string(bytes: &[u8]) -> (framed: Option<Vec<u8>>)
    ensures
        match framed {
            Some(terminated) => !has_nul(bytes@) && terminated@ == nul_terminated(bytes@),
            None => has_nul(bytes@),
        },
{
    if contains_nul(bytes) {
        None
    } else {
        let mut terminated = vstd::slice::slice_to_vec(bytes);
        terminated.push(0u8);
        Some(terminated)
    }
}

/// The error of `core::str::from_utf8`. Nothing is read from it.
#[verifier::external_type_specification]
#[verifier::external_body]
pub struct ExUtf8Error(Utf8Error);

/// `core::str::from_utf8` accepts exactly the well-formed UTF-8 byte sequences, and the
/// string slice it gives then has the bytes it was given.
pub assume_specification[ core::str::from_utf8 ](v: &[u8]) -> (result: Result<&str, Utf8Error>)
    ensures
        result is Ok <==> valid_utf8(v@),
        result matches Ok(text) ==> encode_utf8(text@) == v@,
;

/// What `String::from_utf8_lossy` makes of the bytes: their text where they are well-formed
/// UTF-8, and otherwise a text in which U+FFFD stands for each ill-formed stretch.
pub uninterp spec fn lossy_text(bytes: Seq<u8>) -> Seq<char>;

/// `String::from_utf8_lossy`, as an owned string. The result depends on the bytes alone;
/// well-formed UTF-8 is decoded as it stands.
#[verifier::external_body]
pub(crate) fn from_utf8_lossy(bytes: &[u8]) -> (text: String)
    ensures
        text@ == lossy_text(bytes@),
        valid_utf8(bytes@) ==> text@ == decode_utf8(bytes@),
{
    String::from_utf8_lossy(bytes).into_owned()
}

/// The text that the bytes are read as where ill-formed bytes are tolerated.
pub open spec fn text_of(bytes: Seq<u8>) -> Seq<char> {
    if valid_utf8(bytes) {
        decode_utf8(bytes)
    } else {
        lossy_text(bytes)
    }
}

/// Reads the bytes as text, provided that they are well-formed UTF-8.
pub fn decode(bytes: &[u8]) -> (text: Option<&str>)
    ensures
        match text {
            Some(text) => valid_utf8(bytes@) && text@ == decode_utf8(bytes@),
            None => !valid_utf8(bytes@),
        },
{
    match core::str::from_utf8(bytes) {
        Ok(text) => {
            proof {
                encode_utf8_decode_utf8(text@);
            }
            Some(text)
        },
        Err(_) => None,
    }
}

/// Tells whether two string slices hold the same text.
pub fn same_text(a: &str, b: &str) -> (same: bool)
    ensures
        same == (a@ == b@),
{
    let x = a.as_bytes();
    let y = b.as_bytes();
    if x.len() != y.len() {
        return false;
    }
    let mut i: usize = 0;
    while i < x.len()
        invariant
            i <= x.len(),
            x.len() == y.len(),
            x@ == encode_utf8(a@),
            y@ == encode_utf8(b@),
            forall|j: int| 0 <= j < i ==> x@[j] == y@[j],
        decreases x.len() - i,
    {
        if x[i] != y[i] {
            return false;
        }
        i += 1;
    }
    proof {
        assert(x@ =~= y@);
        encode_utf8_decode_utf8(a@);
        encode_utf8_decode_utf8(b@);
    }
    true
}

/// Decoding two well-formed byte sequences one after the other gives what decoding them
/// joined gives.
pub proof fn lemma_decode_utf8_concat(first: Seq<u8>, second: Seq<u8>)
    requires
        valid_utf8(first),
        valid_utf8(second),
    ensures
        valid_utf8(first + second),
        decode_utf8(first + second) == decode_utf8(first) + decode_utf8(second),
    decreases first.len(),
{
    valid_utf8_concat(first, second);
    if first.len() > 0 {
        let rest = pop_first_scalar(first);
        assert(pop_first_scalar(first + second) =~= rest + second);
        lemma_decode_utf8_concat(rest, second);
    }
}

/// A byte with some of its high bits set is no NUL byte.
proof fn lemma_marked_byte_is_no_nul(mark: u8, bits: u8)
    by (bit_vector)
    requires
        mark == 0x80 || mark == 0xC0 || mark == 0xE0 || mark == 0xF0,
    ensures
        mark | bits != 0,
{
}

/// The one byte of a character below U+0080 is the number of the character.
proof fn lemma_single_byte_is_the_scalar(scalar: u32)
    by (bit_vector)
    requires
        scalar <= 0x7F,
    ensures
        (scalar & 0x7F) as u8 == 0 <==> scalar == 0,
{
}

/// The UTF-8 bytes of a character hold a NUL byte exactly when it is the NUL character.
proof fn lemma_scalar_has_nul(c: char)
    ensures
        has_nul(encode_scalar(c as u32)) <==> c == '\0',
{
    let scalar = c as u32;
    let bytes = encode_scalar(scalar);
    char_is_scalar(c);
    if has_width_1_encoding(scalar) {
        lemma_single_byte_is_the_scalar(scalar);
        if c == '\0' {
            assert(bytes[0] == 0);
        }
        if scalar == 0 {
            char_u32_cast(c, scalar);
        }
    } else {
        lemma_marked_byte_is_no_nul(0xC0, ((scalar >> 6) & 0x1F) as u8);
        lemma_marked_byte_is_no_nul(0xE0, ((scalar >> 12) & 0x0F) as u8);
        lemma_marked_byte_is_no_nul(0xF0, ((scalar >> 18) & 0x7) as u8);
        lemma_marked_byte_is_no_nul(0x80, (scalar & 0x3F) as u8);
        lemma_marked_byte_is_no_nul(0x80, ((scalar >> 6) & 0x3F) as u8);
        lemma_marked_byte_is_no_nul(0x80, ((scalar >> 12) & 0x3F) as u8);
        assert forall|i: int| 0 <= i < bytes.len() implies bytes[i] != 0 by {}
    }
}

/// The UTF-8 bytes of a text hold a NUL byte exactly when the text holds the NUL
/// character.
pub proof fn lemma_has_nul_is_nul_char(text: Seq<char>)
    ensures
        has_nul(encode_utf8(text)) <==> text.contains('\0'),
    decreases text.len(),
{
    if text.len() > 0 {
        let head = encode_scalar(text[0] as u32);
        let tail = encode_utf8(text.drop_first());
        let bytes = encode_utf8(text);
        assert(bytes == head + tail);
        lemma_has_nul_is_nul_char(text.drop_first());
        lemma_scalar_has_nul(text[0]);
        // a NUL byte stands among the bytes of the first character or among the others
        if has_nul(head) {
            let i = choose|i: int| 0 <= i < head.len() && head[i] == 0;
            assert(bytes[i] == 0);
        }
        if has_nul(tail) {
            let i = choose|i: int| 0 <= i < tail.len() && tail[i] == 0;
            assert(bytes[head.len() + i] == 0);
        }
        if has_nul(bytes) {
            let i = choose|i: int| 0 <= i < bytes.len() && bytes[i] == 0;
            if i < head.len() {
                assert(head[i] == 0);
            } else {
                assert(tail[i - head.len()] == 0);
            }
        }
        // and the NUL character is the first character or stands among the others
        if text.contains('\0') {
            let i = choose|i: int| 0 <= i < text.len() && text[i] == '\0';
            if i > 0 {
                assert(text.drop_first()[i - 1] == '\0');
            }
        }
        if text.drop_first().contains('\0') {
            let i = choose|i: int|
                0 <= i < text.drop_first().len() && text.drop_first()[i] == '\0';
            assert(text[i + 1] == '\0');
        }
    }
}

} // verus!
