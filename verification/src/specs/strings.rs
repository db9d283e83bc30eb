//! Contracts for the text functions of std that vstd leaves unspecified.

use vstd::prelude::*;
use vstd::utf8::{decode_utf8, valid_utf8};

verus! {

/// `String::push` of std: the character is appended at the end.
pub assume_specification[ String::push ](s: &mut String, ch: char)
    ensures
        final(s)@ == old(s)@.push(ch),
;

/// `==` on `str` of std: two slices are equal when they hold the same characters.
pub assume_specification[ <str as PartialEq>::eq ](a: &str, b: &str) -> (r: bool)
    ensures
        r == (a@ == b@),
;

/// True for the characters of ASCII.
pub open spec fn is_ascii_char(c: char) -> bool {
    c <= '\u{7f}'
}

/// The ASCII upper-case form of a character; other characters are unchanged.
pub open spec fn ascii_upper(c: char) -> char {
    if 'a' <= c <= 'z' {
        ((c as u8 - 32) as u8) as char
    } else {
        c
    }
}

/// The ASCII lower-case form of a character; other characters are unchanged.
pub open spec fn ascii_lower(c: char) -> char {
    if 'A' <= c <= 'Z' {
        ((c as u8 + 32) as u8) as char
    } else {
        c
    }
}

/// What `str::to_uppercase` of std returns for a text (the Unicode upper-case
/// mapping).
pub uninterp spec fn unicode_uppercase(s: Seq<char>) -> Seq<char>;

/// What `str::to_lowercase` of std returns for a text (the Unicode lower-case
/// mapping).
pub uninterp spec fn unicode_lowercase(s: Seq<char>) -> Seq<char>;

/// What `char::is_uppercase` of std returns (the Unicode `Uppercase` property).
pub uninterp spec fn unicode_is_upper(c: char) -> bool;

/// The characters that `char::to_uppercase` of std yields, in order.
pub uninterp spec fn unicode_upper(c: char) -> Seq<char>;

/// The characters that `char::to_lowercase` of std yields, in order.
pub uninterp spec fn unicode_lower(c: char) -> Seq<char>;

/// A text with every character in its ASCII upper-case form.
pub open spec fn ascii_uppercase(s: Seq<char>) -> Seq<char> {
    Seq::new(s.len(), |i: int| ascii_upper(s[i]))
}

/// A text with every character in its ASCII lower-case form.
pub open spec fn ascii_lowercase(s: Seq<char>) -> Seq<char> {
    Seq::new(s.len(), |i: int| ascii_lower(s[i]))
}

/// The upper-case form of a text. In a text of ASCII characters alone the
/// letters `a` to `z` become `A` to `Z` and nothing else changes; any other
/// text has the upper-case mapping of Unicode.
pub open spec fn uppercase_of(s: Seq<char>) -> Seq<char> {
    if vstd::utf8::is_ascii_chars(s) {
        ascii_uppercase(s)
    } else {
        unicode_uppercase(s)
    }
}

/// The lower-case form of a text. In a text of ASCII characters alone the
/// letters `A` to `Z` become `a` to `z` and nothing else changes; any other
/// text has the lower-case mapping of Unicode.
pub open spec fn lowercase_of(s: Seq<char>) -> Seq<char> {
    if vstd::utf8::is_ascii_chars(s) {
        ascii_lowercase(s)
    } else {
        unicode_lowercase(s)
    }
}

/// True for an upper-case character: in ASCII the letters `A` to `Z`, outside
/// ASCII the characters with the Unicode property.
pub open spec fn char_is_upper(c: char) -> bool {
    if is_ascii_char(c) {
        'A' <= c <= 'Z'
    } else {
        unicode_is_upper(c)
    }
}

/// The upper-case mapping of a character: in ASCII the one character that
/// `ascii_upper` gives, outside ASCII the mapping of Unicode, which may hold
/// more than one character.
pub open spec fn char_upper(c: char) -> Seq<char> {
    if is_ascii_char(c) {
        seq![ascii_upper(c)]
    } else {
        unicode_upper(c)
    }
}

/// The lower-case mapping of a character: in ASCII the one character that
/// `ascii_lower` gives, outside ASCII the mapping of Unicode, which may hold
/// more than one character.
pub open spec fn char_lower(c: char) -> Seq<char> {
    if is_ascii_char(c) {
        seq![ascii_lower(c)]
    } else {
        unicode_lower(c)
    }
}

/// `str::to_uppercase` of std. Its result is named; for a text of ASCII
/// characters alone it is also stated: the ASCII letters in upper case.
pub assume_specification[ str::to_uppercase ](s: &str) -> (r: String)
    ensures
        r@ == unicode_uppercase(s@),
        vstd::utf8::is_ascii_chars(s@) ==> r@ == ascii_uppercase(s@),
;

/// `str::to_lowercase` of std. Its result is named; for a text of ASCII
/// characters alone it is also stated: the ASCII letters in lower case.
pub assume_specification[ str::to_lowercase ](s: &str) -> (r: String)
    ensures
        r@ == unicode_lowercase(s@),
        vstd::utf8::is_ascii_chars(s@) ==> r@ == ascii_lowercase(s@),
;

/// `char::is_uppercase` of std. Its result is named; in ASCII it holds of `A`
/// to `Z` alone.
pub assume_specification[ char::is_uppercase ](c: char) -> (r: bool)
    ensures
        r == unicode_is_upper(c),
        is_ascii_char(c) ==> r == ('A' <= c <= 'Z'),
;

/// Calls `char::to_uppercase` of std and collects what the iterator yields.
/// The result is named; an ASCII character yields its ASCII upper-case form
/// and nothing else.
#[verifier::external_body]
pub(crate) fn char_to_upper(c: char) -> (r: Vec<char>)
    ensures
        r@ == unicode_upper(c),
        is_ascii_char(c) ==> r@ == seq![ascii_upper(c)],
{
    c.to_uppercase().collect()
}

/// Calls `char::to_lowercase` of std and collects what the iterator yields.
/// The result is named; an ASCII character yields its ASCII lower-case form
/// and nothing else.
#[verifier::external_body]
pub(crate) fn char_to_lower(c: char) -> (r: Vec<char>)
    ensures
        r@ == unicode_lower(c),
        is_ascii_char(c) ==> r@ == seq![ascii_lower(c)],
{
    c.to_lowercase().collect()
}

/// Calls `String::from_utf8` of std on a copy of the bytes: the text that valid
/// UTF-8 encodes, and none for other bytes.
#[verifier::external_body]
pub(crate) fn utf8_text(bytes: &[u8]) -> (r: Option<String>)
    ensures
        r is Some == valid_utf8(bytes@),
        r is Some ==> r.unwrap()@ == decode_utf8(bytes@),
{
    String::from_utf8(bytes.to_vec()).ok()
}

} // verus!
