//! From a stamp's bytes to its text: base64 with the URL-safe alphabet and
//! no padding, behind the scheme `sdns://`.

use ct_codecs::{Base64UrlSafeNoPadding, Encoder};
use vstd::prelude::*;

verus! {

/// The error type of `ct_codecs`. Nothing is known of a value of it.
#[verifier::external_type_specification]
#[verifier::external_body]
pub struct ExCtCodecsError(ct_codecs::Error);

/// What `ct_codecs::Base64UrlSafeNoPadding::encode_to_string` makes of the
/// bytes `bin`.
pub uninterp spec fn ct_codecs_base64_url_safe_no_padding(bin: Seq<u8>) -> Seq<char>;

/// What `base64::encode_config` makes of the bytes `input` with the URL-safe
/// character set and without padding.
pub uninterp spec fn base64_url_safe_no_pad(input: Seq<u8>) -> Seq<char>;

/// Whether this machine can hold the base64 text of `len` bytes: four
/// characters for every three bytes, and up to three for what is left, in a
/// buffer of at most `isize::MAX` bytes.
pub open spec fn base64_text_fits(len: nat) -> bool {
    len / 3 * 4 + 3 <= isize::MAX
}

/// The number of characters that stand for `len` bytes in base64 without
/// padding: four for every three bytes, and two or three for the one or two
/// bytes that are left.
pub open spec fn base64_text_len(len: nat) -> nat {
    if len % 3 == 0 {
        len / 3 * 4
    } else {
        len / 3 * 4 + len % 3 + 1
    }
}

/// A character of the URL-safe base64 alphabet: a letter, a digit, `-` or
/// `_`. The padding character `=` is none of them.
pub open spec fn is_base64_url_char(c: char) -> bool {
    ||| 'A' <= c <= 'Z'
    ||| 'a' <= c <= 'z'
    ||| '0' <= c <= '9'
    ||| c == '-'
    ||| c == '_'
}

/// `text` has the shape of the base64 text of `len` bytes, in the URL-safe
/// alphabet and without padding: its length, and the characters it is made
/// of.
pub open spec fn is_base64_url_text(text: Seq<char>, len: nat) -> bool {
    &&& text.len() == base64_text_len(len)
    &&& forall|i: int| 0 <= i < text.len() ==> is_base64_url_char(#[trigger] text[i])
}

/// `text` has the shape of a stamp of `len` bytes: the scheme, then base64
/// text for that many bytes, in the URL-safe alphabet and without padding.
pub open spec fn is_stamp_text(text: Seq<char>, len: nat) -> bool {
    &&& text.len() == scheme().len() + base64_text_len(len)
    &&& text.subrange(0, scheme().len() as int) == scheme()
    &&& is_base64_url_text(text.skip(scheme().len() as int), len)
}

/// Base64 text behind the scheme has the shape of a stamp.
pub proof fn lemma_stamp_text_shape(encoded: Seq<char>, len: nat)
    requires
        is_base64_url_text(encoded, len),
    ensures
        is_stamp_text(stamp_text(encoded), len),
{
    let text = stamp_text(encoded);
    assert(text.subrange(0, scheme().len() as int) =~= scheme());
    assert(text.skip(scheme().len() as int) =~= encoded);
}

/// Tells whether this machine can hold the base64 text of `len` bytes.
pub(crate) fn text_fits(len: usize) -> (fits: bool)
    ensures
        fits == base64_text_fits(len as nat),
{
    len / 3 <= (isize::MAX as usize - 3) / 4
}

/// The scheme that every stamp begins with: `sdns://`.
pub open spec fn scheme() -> Seq<char> {
    seq!['s', 'd', 'n', 's', ':', '/', '/']
}

/// The text of a stamp whose bytes are `encoded` in base64.
pub open spec fn stamp_text(encoded: Seq<char>) -> Seq<char> {
    scheme() + encoded
}

/// Calls `ct_codecs::Base64UrlSafeNoPadding::encode_to_string`.
///
/// Believed, not proved: the text depends on the bytes alone, and the call
/// succeeds whenever the length of the text, which it computes with checked
/// arithmetic, fits the buffer that it then allocates. The text has one
/// character for every six bits of the bytes, the last bits filled up with
/// zeros, each a letter, a digit, `-` or `_`, and no padding behind them.
#[verifier::external_body]
pub(crate) fn ct_codecs_encode(bin: &Vec<u8>) -> (r: Result<String, ct_codecs::Error>)
    requires
        base64_text_fits(bin@.len()),
    ensures
        r is Ok,
        r.unwrap()@ == ct_codecs_base64_url_safe_no_padding(bin@),
        is_base64_url_text(r.unwrap()@, bin@.len()),
{
    Base64UrlSafeNoPadding::encode_to_string(bin)
}

/// Calls `base64::encode_config` with the URL-safe character set and without
/// padding.
///
/// Believed, not proved: the text depends on the bytes alone. It has four
/// characters for every three bytes and two or three for what is left, each
/// taken from the table of the URL-safe character set: a letter, a digit,
/// `-` or `_`. The call panics where the length of the text overflows;
/// `requires` leaves those inputs out.
#[verifier::external_body]
pub(crate) fn base64_encode(input: &Vec<u8>) -> (text: String)
    requires
        base64_text_fits(input@.len()),
    ensures
        text@ == base64_url_safe_no_pad(input@),
        is_base64_url_text(text@, input@.len()),
{
    base64::encode_config(input, base64::Config::new(base64::CharacterSet::UrlSafe, false))
}

/// Puts the scheme `sdns://` before the base64 text of a stamp.
pub fn stamp_uri(encoded: &str) -> (uri: String)
    ensures
        uri@ == stamp_text(encoded@),
{
    proof {
        reveal_strlit("sdns://");
        assert("sdns://"@ == scheme());
    }
    let mut uri: String = String::from_str("sdns://");
    uri.append(encoded);
    uri
}

} // verus!
