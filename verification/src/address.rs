//! The address at which the dictionary service answers for a word. The word
//! is one segment of the path: whatever could end the segment or be misread
//! in it is written as a percent sign and two hexadecimal digits.

use vstd::prelude::*;
use vstd::utf8::encode_utf8;

verus! {

/// The address of the service, up to the word.
pub const API_BASE: &'static str = "https://api.dictionaryapi.dev/api/v2/entries/en/";

/// Whether `byte` stands for itself in a path segment: a visible ASCII
/// character other than `"`, `#`, `%`, `/`, `<`, `>`, `?`, `\`, a backtick
/// and the two braces.
pub open spec fn stands_for_itself(byte: u8) -> bool {
    &&& 0x20 < byte < 0x7f
    &&& byte != 0x22
    &&& byte != 0x23
    &&& byte != 0x25
    &&& byte != 0x2f
    &&& byte != 0x3c
    &&& byte != 0x3e
    &&& byte != 0x3f
    &&& byte != 0x5c
    &&& byte != 0x60
    &&& byte != 0x7b
    &&& byte != 0x7d
}

/// The hexadecimal digit for `value`, in upper case.
pub open spec fn hex_digit(value: int) -> char {
    if value < 10 {
        (0x30 + value) as char
    } else {
        (0x41 + value - 10) as char
    }
}

/// What is written for one byte.
pub open spec fn escaped_byte(byte: u8) -> Seq<char> {
    if stands_for_itself(byte) {
        seq![byte as char]
    } else {
        seq!['%', hex_digit(byte as int / 16), hex_digit(byte as int % 16)]
    }
}

/// What is written for `bytes`, byte after byte.
pub open spec fn escaped(bytes: Seq<u8>) -> Seq<char>
    decreases bytes.len(),
{
    if bytes.len() == 0 {
        Seq::empty()
    } else {
        escaped(bytes.drop_last()) + escaped_byte(bytes.last())
    }
}

/// The address for `word`: the base, then the UTF-8 bytes of the word,
/// escaped.
pub open spec fn url_of(word: Seq<char>) -> Seq<char> {
    API_BASE@ + escaped(encode_utf8(word))
}

/// Whether `c` may stand in a path segment as it is: the percent sign that
/// begins an escape, or a character that stands for itself.
pub open spec fn fits_segment(c: char) -> bool {
    c == '%' || (c as int <= 0xff && stands_for_itself(c as u8))
}

/// Whatever the bytes, what is written for them holds nothing that could end
/// the segment or be misread in it.
pub proof fn law_escaped_fits_segment(bytes: Seq<u8>)
    ensures
        forall|i: int| 0 <= i < escaped(bytes).len() ==> fits_segment(#[trigger] escaped(bytes)[i]),
    decreases bytes.len(),
{
    if bytes.len() > 0 {
        law_escaped_fits_segment(bytes.drop_last());
        let byte = bytes.last();
        let before = escaped(bytes.drop_last());
        assert forall|i: int| 0 <= i < escaped(bytes).len() implies fits_segment(
            #[trigger] escaped(bytes)[i],
        ) by {
            if i < before.len() {
                assert(escaped(bytes)[i] == before[i]);
            } else {
                assert(escaped(bytes)[i] == escaped_byte(byte)[i - before.len()]);
            }
        }
    }
}

/// Calls `String::push`. Trusted: the character is appended to the text.
#[verifier::external_body]
fn push_char(text: &mut String, c: char)
    ensures
        final(text)@ == old(text)@.push(c),
{
    text.push(c)
}

fn keeps(byte: u8) -> (kept: bool)
    ensures
        kept == stands_for_itself(byte),
{
    0x20 < byte && byte < 0x7f && byte != 0x22 && byte != 0x23 && byte != 0x25 && byte != 0x2f
        && byte != 0x3c && byte != 0x3e && byte != 0x3f && byte != 0x5c && byte != 0x60 && byte
        != 0x7b && byte != 0x7d
}

fn hex(value: u8) -> (digit: char)
    requires
        value < 16,
    ensures
        digit == hex_digit(value as int),
{
    if value < 10 {
        (0x30u8 + value) as char
    } else {
        (0x41u8 + (value - 10)) as char
    }
}

/// Writes `text` as one path segment.
pub fn escape_segment(text: &str) -> (segment: String)
    ensures
        segment@ == escaped(encode_utf8(text@)),
{
    let bytes = text.as_bytes();
    let mut segment = String::new();
    let mut i: usize = 0;
    assert(bytes@.take(0) == Seq::<u8>::empty());
    while i < bytes.len()
        invariant
            i <= bytes.len(),
            bytes@ == encode_utf8(text@),
            segment@ == escaped(bytes@.take(i as int)),
        decreases bytes.len() - i,
    {
        let byte: u8 = bytes[i];
        proof {
            let upto = bytes@.take(i + 1);
            assert(upto.drop_last() == bytes@.take(i as int));
            assert(upto.last() == byte);
        }
        if keeps(byte) {
            push_char(&mut segment, byte as char);
        } else {
            push_char(&mut segment, '%');
            push_char(&mut segment, hex(byte / 16));
            push_char(&mut segment, hex(byte % 16));
        }
        assert(segment@ == escaped(bytes@.take(i as int)) + escaped_byte(byte));
        i += 1;
    }
    assert(bytes@.take(i as int) == bytes@);
    segment
}

/// The address to ask for `word`.
pub fn request_url(word: &str) -> (url: String)
    ensures
        url@ == url_of(word@),
{
    let segment = escape_segment(word);
    API_BASE.to_owned().concat(segment.as_str())
}

} // verus!
