//! Ethereum addresses and ENS names as text: how they are recognised and how
//! an address is shortened for display.

use crate::text::to_chars;
use vstd::prelude::*;
use vstd::string::*;
use vstd::utf8::*;

verus! {

/// `c` is a digit or one of the letters `a` to `f`, in either case.
pub open spec fn is_hex_digit(c: char) -> bool {
    ('0' <= c <= '9') || ('a' <= c <= 'f') || ('A' <= c <= 'F')
}

/// `c` may stand in the label of an ENS name: an ASCII letter, a digit or `-`.
pub open spec fn is_label_char(c: char) -> bool {
    ('0' <= c <= '9') || ('a' <= c <= 'z') || ('A' <= c <= 'Z') || c == '-'
}

/// `0x` followed by exactly forty hexadecimal digits.
pub open spec fn is_address_text(text: Seq<char>) -> bool {
    &&& text.len() == 42
    &&& text[0] == '0'
    &&& text[1] == 'x'
    &&& forall|i: int| 2 <= i < 42 ==> is_hex_digit(#[trigger] text[i])
}

/// The text ends in `.eth`.
pub open spec fn ends_with_eth(text: Seq<char>) -> bool {
    text.len() >= 4 && text.skip(text.len() - 4) == seq!['.', 'e', 't', 'h']
}

/// A label of at least three letters, digits or hyphens, followed by `.eth`.
pub open spec fn is_ens_text(text: Seq<char>) -> bool {
    &&& text.len() >= 7
    &&& ends_with_eth(text)
    &&& forall|i: int| 0 <= i < text.len() - 4 ==> is_label_char(#[trigger] text[i])
}

/// An address as it is shown: whole where it has fewer than `2 * keep + 2`
/// bytes, else its first `keep + 2` bytes, three dots and its last `keep`
/// bytes.
pub open spec fn shown_address(text: Seq<char>, keep: int) -> Seq<char> {
    let bytes = encode_utf8(text);
    if bytes.len() < 2 * keep + 2 {
        text
    } else {
        decode_utf8(bytes.subrange(0, keep + 2)) + seq!['.', '.', '.'] + decode_utf8(
            bytes.subrange(bytes.len() - keep, bytes.len() as int),
        )
    }
}

/// The two cuts that showing an address makes fall between characters.
pub open spec fn cuts_between_chars(text: Seq<char>, keep: int) -> bool {
    let bytes = encode_utf8(text);
    bytes.len() >= 2 * keep + 2 ==> is_char_boundary(bytes, keep + 2) && is_char_boundary(
        bytes,
        bytes.len() - keep,
    )
}

/// A stretch of ASCII text is encoded byte for character, and both of its
/// ends fall between characters.
proof fn lemma_ascii_stretch(text: Seq<char>, from: int, to: int)
    requires
        is_ascii_chars(text),
        0 <= from <= to <= text.len(),
    ensures
        encode_utf8(text).len() == text.len(),
        is_char_boundary(encode_utf8(text), from),
        is_char_boundary(encode_utf8(text), to),
        decode_utf8(encode_utf8(text).subrange(from, to)) == text.subrange(from, to),
{
    let bytes = encode_utf8(text);
    let part = text.subrange(from, to);
    is_ascii_chars_encode_utf8(text);
    encode_utf8_valid_utf8(text);
    is_char_boundary_start_end_of_seq(bytes);
    assert forall|k: int| 0 <= k < bytes.len() implies is_char_boundary(bytes, k) by {
        let b = bytes[k];
        assert(text[k] as u8 == b);
        assert(b < 128);
        is_char_boundary_iff_not_is_continuation_byte(bytes, k);
    }
    assert(is_ascii_chars(part));
    is_ascii_chars_encode_utf8(part);
    assert(encode_utf8(part) =~= bytes.subrange(from, to)) by {
        assert forall|i: int| 0 <= i < part.len() implies encode_utf8(part)[i] == bytes.subrange(
            from,
            to,
        )[i] by {
            assert(part[i] == text[from + i]);
        }
    }
    encode_utf8_decode_utf8(part);
}

/// Of ASCII text, as every address is, any part can be shown: the two cuts
/// fall between characters, and what is shown is the first `keep + 2`
/// characters, three dots and the last `keep` characters.
pub proof fn lemma_shown_ascii_address(text: Seq<char>, keep: int)
    requires
        is_ascii_chars(text),
        0 <= keep,
    ensures
        cuts_between_chars(text, keep),
        shown_address(text, keep) == if text.len() < 2 * keep + 2 {
            text
        } else {
            text.take(keep + 2) + seq!['.', '.', '.'] + text.skip(text.len() - keep)
        },
{
    is_ascii_chars_encode_utf8(text);
    if text.len() >= 2 * keep + 2 {
        lemma_ascii_stretch(text, 0, keep + 2);
        lemma_ascii_stretch(text, text.len() - keep, text.len() as int);
    }
}

/// Whether `c` is a hexadecimal digit.
pub(crate) fn hex_digit(c: char) -> (yes: bool)
    ensures
        yes == is_hex_digit(c),
{
    ('0' <= c && c <= '9') || ('a' <= c && c <= 'f') || ('A' <= c && c <= 'F')
}

/// Whether `c` may stand in a label.
fn label_char(c: char) -> (yes: bool)
    ensures
        yes == is_label_char(c),
{
    ('0' <= c && c <= '9') || ('a' <= c && c <= 'z') || ('A' <= c && c <= 'Z') || c == '-'
}

/// Whether the first `end` characters end in `.eth`.
pub(crate) fn has_eth_suffix(chars: &Vec<char>, end: usize) -> (yes: bool)
    requires
        end <= chars@.len(),
    ensures
        yes == ends_with_eth(chars@.take(end as int)),
{
    let ghost text = chars@.take(end as int);
    if end < 4 {
        return false;
    }
    let yes = chars[end - 4] == '.' && chars[end - 3] == 'e' && chars[end - 2] == 't' && chars[end
        - 1] == 'h';
    proof {
        let tail = text.skip(text.len() - 4);
        assert(tail[0] == chars@[end - 4]);
        assert(tail[1] == chars@[end - 3]);
        assert(tail[2] == chars@[end - 2]);
        assert(tail[3] == chars@[end - 1]);
        if yes {
            assert(tail =~= seq!['.', 'e', 't', 'h']);
        }
    }
    yes
}

/// Shortens an address for display: its first `chars + 2` bytes, three dots,
/// and its last `chars` bytes; an address too short for that is shown whole.
pub fn format_address(address: &str, chars: usize) -> (shown: String)
    requires
        cuts_between_chars(address@, chars as int),
    ensures
        shown@ == shown_address(address@, chars as int),
{
    broadcast use encode_utf8_decode_utf8, encode_utf8_valid_utf8;

    let ghost bytes = encode_utf8(address@);
    assert(address.spec_bytes() == bytes);
    let len = address.as_bytes().len();
    if chars > (usize::MAX - 2) / 2 || len < chars * 2 + 2 {
        return address.to_owned();
    }
    let (head, _) = address.split_at(chars + 2);
    let (_, tail) = address.split_at(len - chars);
    let mut shown = String::from_str(head);
    proof {
        reveal_strlit("...");
        assert("..."@ =~= seq!['.', '.', '.']);
        assert(head.spec_bytes() == encode_utf8(head@));
        assert(tail.spec_bytes() == encode_utf8(tail@));
        assert(decode_utf8(encode_utf8(head@)) == head@);
        assert(decode_utf8(encode_utf8(tail@)) == tail@);
    }
    shown.append("...");
    shown.append(tail);
    shown
}

/// Whether the text is an Ethereum address: `0x` and forty hexadecimal digits.
pub fn is_valid_address(address: &str) -> (valid: bool)
    ensures
        valid == is_address_text(address@),
{
    let chars = to_chars(address);
    if chars.len() != 42 || chars[0] != '0' || chars[1] != 'x' {
        return false;
    }
    let mut i: usize = 2;
    while i < 42
        invariant
            2 <= i <= 42,
            chars@.len() == 42,
            chars@ == address@,
            forall|j: int| 2 <= j < i ==> is_hex_digit(#[trigger] chars@[j]),
        decreases 42 - i,
    {
        if !hex_digit(chars[i]) {
            return false;
        }
        i = i + 1;
    }
    true
}

/// Whether the text is an ENS name of one label: at least three letters,
/// digits or hyphens, then `.eth`.
pub fn is_valid_ens(name: &str) -> (valid: bool)
    ensures
        valid == is_ens_text(name@),
{
    let chars = to_chars(name);
    let n = chars.len();
    assert(chars@.take(n as int) =~= chars@);
    if !has_eth_suffix(&chars, n) {
        return false;
    }
    if n < 7 {
        return false;
    }
    let mut i: usize = 0;
    while i < n - 4
        invariant
            i <= n - 4,
            n == chars@.len(),
            n >= 7,
            chars@ == name@,
            ends_with_eth(name@),
            forall|j: int| 0 <= j < i ==> is_label_char(#[trigger] chars@[j]),
        decreases n - i,
    {
        if !label_char(chars[i]) {
            return false;
        }
        i = i + 1;
    }
    true
}

} // verus!
