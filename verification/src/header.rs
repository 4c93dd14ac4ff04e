//! Which texts may be sent as the value of an HTTP header.

use vstd::prelude::*;
use vstd::utf8::{encode_scalar, encode_utf8};

verus! {

/// Whether a byte may stand in the value of a header: the tab, or anything
/// from the space upwards except DEL.
pub open spec fn header_byte_allowed(b: u8) -> bool {
    (b >= 32 && b != 127) || b == 9
}

/// Whether every byte of a sequence may stand in the value of a header.
pub open spec fn header_bytes_allowed(bytes: Seq<u8>) -> bool {
    forall|i: int| 0 <= i < bytes.len() ==> header_byte_allowed(#[trigger] bytes[i])
}

/// Whether a character may stand in the value of a header: the tab, or
/// anything from the space upwards except DEL.
pub open spec fn header_char_allowed(c: char) -> bool {
    c == '\t' || (' ' <= c && c != '\u{7f}')
}

/// Whether every character of a text may stand in the value of a header.
pub open spec fn header_text_allowed(text: Seq<char>) -> bool {
    forall|i: int| 0 <= i < text.len() ==> header_char_allowed(#[trigger] text[i])
}

/// A character below 128 is encoded as the byte of its own number.
proof fn lemma_one_byte(v: u32)
    by (bit_vector)
    requires
        v <= 0x7f,
    ensures
        (v & 0x7F) as u8 == v,
{
}

/// Every byte of an encoding of more than one byte is 128 or more.
proof fn lemma_marked_bytes(v: u32)
    by (bit_vector)
    ensures
        0xC0u8 | ((v >> 6) & 0x1F) as u8 >= 0x80,
        0xE0u8 | ((v >> 12) & 0x0F) as u8 >= 0x80,
        0xF0u8 | ((v >> 18) & 0x7) as u8 >= 0x80,
        0x80u8 | (v & 0x3F) as u8 >= 0x80,
        0x80u8 | ((v >> 6) & 0x3F) as u8 >= 0x80,
        0x80u8 | ((v >> 12) & 0x3F) as u8 >= 0x80,
{
}

/// The bytes of the UTF-8 encoding of a character are allowed exactly when
/// the character is.
pub proof fn lemma_char_bytes(c: char)
    ensures
        header_bytes_allowed(encode_scalar(c as u32)) <==> header_char_allowed(c),
{
    let v = c as u32;
    let bytes = encode_scalar(v);
    lemma_marked_bytes(v);
    if v <= 0x7f {
        lemma_one_byte(v);
        assert(bytes.len() == 1 && bytes[0] == v);
        if header_char_allowed(c) {
            assert(header_bytes_allowed(bytes));
        } else {
            assert(!header_byte_allowed(bytes[0]));
        }
    } else {
        assert(header_char_allowed(c));
        assert(header_bytes_allowed(bytes));
    }
}

/// The UTF-8 encoding of a text holds only allowed bytes exactly when the
/// text holds only allowed characters.
pub proof fn lemma_text_bytes(text: Seq<char>)
    ensures
        header_bytes_allowed(encode_utf8(text)) <==> header_text_allowed(text),
    decreases text.len(),
{
    if text.len() > 0 {
        let first = encode_scalar(text[0] as u32);
        let rest = encode_utf8(text.drop_first());
        lemma_char_bytes(text[0]);
        lemma_text_bytes(text.drop_first());
        assert(encode_utf8(text) == first + rest);
        if header_text_allowed(text) {
            assert forall|i: int| 0 <= i < text.drop_first().len() implies header_char_allowed(
                #[trigger] text.drop_first()[i],
            ) by {
                assert(text.drop_first()[i] == text[i + 1]);
            }
            assert forall|i: int| 0 <= i < (first + rest).len() implies header_byte_allowed(
                #[trigger] (first + rest)[i],
            ) by {
                if i < first.len() {
                    assert((first + rest)[i] == first[i]);
                } else {
                    assert((first + rest)[i] == rest[i - first.len()]);
                }
            }
        }
        if header_bytes_allowed(first + rest) {
            assert forall|i: int| 0 <= i < first.len() implies header_byte_allowed(
                #[trigger] first[i],
            ) by {
                assert(first[i] == (first + rest)[i]);
            }
            assert forall|i: int| 0 <= i < rest.len() implies header_byte_allowed(
                #[trigger] rest[i],
            ) by {
                assert(rest[i] == (first + rest)[i + first.len()]);
            }
            assert forall|i: int| 0 <= i < text.len() implies header_char_allowed(
                #[trigger] text[i],
            ) by {
                if i > 0 {
                    assert(text[i] == text.drop_first()[i - 1]);
                }
            }
        }
    }
}

/// Calls `reqwest::header::HeaderValue::from_str` and keeps only whether the
/// text was accepted. That function scans the bytes of its argument and
/// refuses it exactly when one of them is a control byte other than the tab;
/// its error always displays the same message.
#[verifier::external_body]
pub(crate) fn check_header_value(text: &str) -> (outcome: Result<(), String>)
    ensures
        outcome is Ok <==> header_bytes_allowed(encode_utf8(text@)),
        outcome matches Err(message) ==> message@ == "failed to parse header value"@,
{
    match reqwest::header::HeaderValue::from_str(text) {
        Ok(_) => Ok(()),
        Err(error) => Err(error.to_string()),
    }
}

/// Whether a text may be sent as the value of a header, and the reason
/// where it may not.
pub fn header_value(text: &str) -> (outcome: Result<(), String>)
    ensures
        outcome is Ok <==> header_text_allowed(text@),
        outcome matches Err(message) ==> message@ == "failed to parse header value"@,
{
    proof {
        lemma_text_bytes(text@);
    }
    check_header_value(text)
}

} // verus!
