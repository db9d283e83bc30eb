//! The path builder: placeholders of a template are replaced by percent-encoded
//! values.

use vstd::prelude::*;
use vstd::utf8::encode_utf8;
use crate::headers::Pair;
use crate::specs::codecs::{percent_encode_byte, percent_triplet};
use crate::text::{pair_texts, replace_all, replaced};

verus! {

/// True for the bytes that are escaped in a path segment: the control
/// characters, every byte outside ASCII, and space, `"`, `#`, `<`, `>`, `` ` ``,
/// `?`, `{`, `}`, `/`, `\` and `%`.
pub open spec fn is_escaped(b: u8) -> bool {
    b < 0x20 || b >= 0x7F || b == 0x20 || b == 0x22 || b == 0x23 || b == 0x3C || b == 0x3E || b
        == 0x60 || b == 0x3F || b == 0x7B || b == 0x7D || b == 0x2F || b == 0x5C || b == 0x25
}

/// True for the unreserved bytes: ASCII letters, digits, `-`, `.`, `_` and `~`.
pub open spec fn is_unreserved(b: u8) -> bool {
    (0x41 <= b <= 0x5A) || (0x61 <= b <= 0x7A) || (0x30 <= b <= 0x39) || b == 0x2D || b == 0x2E
        || b == 0x5F || b == 0x7E
}

/// What one byte becomes in a path segment.
pub open spec fn encoded_byte(b: u8) -> Seq<char> {
    if is_escaped(b) {
        percent_triplet(b)
    } else {
        seq![b as char]
    }
}

/// What a run of bytes becomes in a path segment.
pub open spec fn encoded_bytes(bytes: Seq<u8>) -> Seq<char>
    decreases bytes.len(),
{
    if bytes.len() == 0 {
        Seq::empty()
    } else {
        encoded_bytes(bytes.drop_last()) + encoded_byte(bytes.last())
    }
}

/// What a text becomes in a path segment: its UTF-8 bytes, each encoded.
pub open spec fn encoded_segment(value: Seq<char>) -> Seq<char> {
    encoded_bytes(encode_utf8(value))
}

/// The placeholder for a name: the name in braces.
pub open spec fn placeholder(name: Seq<char>) -> Seq<char> {
    seq!['{'] + name + seq!['}']
}

/// The template after the placeholders of the pairs were replaced, pair by
/// pair, by the encoded values.
pub open spec fn substituted(template: Seq<char>, pairs: Seq<Pair>) -> Seq<char>
    decreases pairs.len(),
{
    if pairs.len() == 0 {
        template
    } else {
        replaced(
            substituted(template, pairs.drop_last()),
            placeholder(pairs.last().0),
            encoded_segment(pairs.last().1),
        )
    }
}

fn escaped(b: u8) -> (r: bool)
    ensures
        r == is_escaped(b),
{
    b < 0x20 || b >= 0x7F || b == 0x20 || b == 0x22 || b == 0x23 || b == 0x3C || b == 0x3E || b
        == 0x60 || b == 0x3F || b == 0x7B || b == 0x7D || b == 0x2F || b == 0x5C || b == 0x25
}

/// Percent-encodes a value for use as one path segment.
pub fn encode_path_segment(value: &str) -> (r: String)
    ensures
        r@ == encoded_segment(value@),
{
    let bytes = value.as_bytes();
    let mut out = String::new();
    let mut i: usize = 0;
    while i < bytes.len()
        invariant
            i <= bytes.len(),
            bytes@ == encode_utf8(value@),
            out@ == encoded_bytes(bytes@.take(i as int)),
        decreases bytes.len() - i,
    {
        let b = bytes[i];
        proof {
            assert(bytes@.take(i + 1).drop_last() == bytes@.take(i as int));
            assert(bytes@.take(i + 1).last() == b);
        }
        if escaped(b) {
            out.append(percent_encode_byte(b));
        } else {
            out.push(b as char);
        }
        i += 1;
    }
    proof {
        assert(bytes@.take(bytes.len() as int) == bytes@);
    }
    out
}

/// The placeholder for a name.
pub fn placeholder_for(name: &str) -> (r: String)
    ensures
        r@ == placeholder(name@),
{
    let mut out = String::new();
    out.push('{');
    out.append(name);
    out.push('}');
    out
}

/// Replaces, for each pair of placeholder name and value, every `{name}` in
/// the template by the percent-encoded value.
pub fn build_path(template: &str, pairs: &Vec<(String, String)>) -> (r: String)
    ensures
        r@ == substituted(template@, pair_texts(pairs@)),
{
    let mut path = template.to_owned();
    let mut i: usize = 0;
    while i < pairs.len()
        invariant
            i <= pairs.len(),
            path@ == substituted(template@, pair_texts(pairs@).take(i as int)),
        decreases pairs.len() - i,
    {
        proof {
            let all = pair_texts(pairs@);
            assert(all.take(i + 1).drop_last() == all.take(i as int));
            assert(all.take(i + 1).last() == (pairs@[i as int].0@, pairs@[i as int].1@));
        }
        let hole = placeholder_for(pairs[i].0.as_str());
        let value = encode_path_segment(pairs[i].1.as_str());
        path = replace_all(path.as_str(), hole.as_str(), value.as_str());
        i += 1;
    }
    proof {
        assert(pair_texts(pairs@).take(pairs.len() as int) == pair_texts(pairs@));
    }
    path
}

/// True for the unreserved characters: ASCII letters, digits, `-`, `.`, `_`
/// and `~`.
pub open spec fn is_unreserved_char(c: char) -> bool {
    ('A' <= c <= 'Z') || ('a' <= c <= 'z') || ('0' <= c <= '9') || c == '-' || c == '.' || c
        == '_' || c == '~'
}

/// An unreserved byte is left as it is.
pub proof fn lemma_unreserved_untouched(b: u8)
    requires
        is_unreserved(b),
    ensures
        encoded_byte(b) == seq![b as char],
{
}

/// A run of unreserved bytes is left as it is.
pub proof fn lemma_unreserved_bytes_untouched(bytes: Seq<u8>)
    requires
        forall|i: int| 0 <= i < bytes.len() ==> is_unreserved(#[trigger] bytes[i]),
    ensures
        encoded_bytes(bytes) == Seq::new(bytes.len(), |i: int| bytes[i] as char),
    decreases bytes.len(),
{
    if bytes.len() > 0 {
        let init = bytes.drop_last();
        assert forall|i: int| 0 <= i < init.len() implies is_unreserved(#[trigger] init[i]) by {
            assert(init[i] == bytes[i]);
        }
        lemma_unreserved_bytes_untouched(init);
        assert(is_unreserved(bytes[bytes.len() - 1]));
        assert(encoded_bytes(bytes) =~= Seq::new(bytes.len(), |i: int| bytes[i] as char));
    } else {
        assert(encoded_bytes(bytes) =~= Seq::new(bytes.len(), |i: int| bytes[i] as char));
    }
}

/// Unreserved characters are left untouched: a value made of them alone is
/// its own encoding.
pub proof fn lemma_unreserved_text_untouched(value: Seq<char>)
    requires
        forall|i: int| 0 <= i < value.len() ==> is_unreserved_char(#[trigger] value[i]),
    ensures
        encoded_segment(value) == value,
{
    assert(vstd::utf8::is_ascii_chars(value)) by {
        assert forall|i: int| 0 <= i < value.len() implies '\0' <= #[trigger] value[i]
            <= '\u{7f}' by {
            assert(is_unreserved_char(value[i]));
        }
    }
    vstd::utf8::is_ascii_chars_encode_utf8(value);
    let bytes = encode_utf8(value);
    assert forall|i: int| 0 <= i < bytes.len() implies is_unreserved(#[trigger] bytes[i]) by {
        assert(is_unreserved_char(value[i]));
        assert(value[i] as u8 == bytes[i]);
    }
    lemma_unreserved_bytes_untouched(bytes);
    assert forall|i: int| 0 <= i < value.len() implies (bytes[i] as char) == value[i] by {
        assert(is_unreserved_char(value[i]));
        assert(value[i] as u8 == bytes[i]);
    }
    assert(encoded_bytes(bytes) =~= value);
}

/// Every character of an encoded run of bytes is `%`, an upper-case
/// hexadecimal digit or an ASCII character that is not escaped: none of space,
/// `"`, `#`, `<`, `>`, `` ` ``, `?`, `{`, `}`, `/` and `\` stands in it.
pub proof fn lemma_encoded_is_clean(bytes: Seq<u8>)
    ensures
        forall|i: int|
            0 <= i < encoded_bytes(bytes).len() ==> {
                let c = #[trigger] encoded_bytes(bytes)[i];
                c != ' ' && c != '"' && c != '#' && c != '<' && c != '>' && c != '`' && c != '?'
                    && c != '{' && c != '}' && c != '/' && c != '\\'
            },
    decreases bytes.len(),
{
    if bytes.len() > 0 {
        lemma_encoded_is_clean(bytes.drop_last());
        let head = encoded_bytes(bytes.drop_last());
        let b = bytes.last();
        let tail = encoded_byte(b);
        assert forall|i: int| 0 <= i < encoded_bytes(bytes).len() implies {
            let c = #[trigger] encoded_bytes(bytes)[i];
            c != ' ' && c != '"' && c != '#' && c != '<' && c != '>' && c != '`' && c != '?'
                && c != '{' && c != '}' && c != '/' && c != '\\'
        } by {
            if i < head.len() {
                assert(encoded_bytes(bytes)[i] == head[i]);
            } else {
                let k = i - head.len();
                assert(encoded_bytes(bytes)[i] == tail[k]);
                if is_escaped(b) {
                    assert(0 <= b as int / 16 < 16 && 0 <= b as int % 16 < 16);
                    assert(tail[k] == '%' || tail[k] == crate::specs::codecs::hex_upper(
                        b as int / 16,
                    ) || tail[k] == crate::specs::codecs::hex_upper(b as int % 16));
                } else {
                    assert(tail[k] == b as char);
                }
            }
        }
    }
}

} // verus!
