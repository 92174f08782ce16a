//! The text fields of a stamp: host names and addresses, their ports, and
//! the bytes that stand for them on the wire.

use vstd::prelude::*;
use vstd::utf8::encode_utf8;

verus! {

/// The port that a stamp does not write down.
pub const DEFAULT_PORT: u16 = 443;

/// The character for the digit `d`, for `d` below ten.
pub open spec fn digit(d: nat) -> char {
    ('0' as nat + d) as char
}

/// The decimal digits of `n`, the most significant first, without leading
/// zeros.
pub open spec fn decimal(n: nat) -> Seq<char>
    decreases n,
{
    if n < 10 {
        seq![digit(n)]
    } else {
        decimal(n / 10).push(digit(n % 10))
    }
}

/// `text` with the port behind it, after a colon.
pub open spec fn with_port_suffix(text: Seq<char>, port: u16) -> Seq<char> {
    text + seq![':'] + decimal(port as nat)
}

/// A host name as a stamp writes it: alone, or with the port behind it where
/// one was set.
pub open spec fn host_text(hostname: Seq<char>, port: Option<u16>) -> Seq<char> {
    match port {
        None => hostname,
        Some(port) => with_port_suffix(hostname, port),
    }
}

/// The texts of a list of strings.
pub open spec fn texts(strings: Seq<String>) -> Seq<Seq<char>> {
    Seq::new(strings.len(), |i: int| strings[i]@)
}

/// Each text of a list in UTF-8.
pub open spec fn utf8_strings(texts: Seq<Seq<char>>) -> Seq<Seq<u8>> {
    Seq::new(texts.len(), |i: int| encode_utf8(texts[i]))
}

fn digit_str(d: u16) -> (s: &'static str)
    requires
        d < 10,
    ensures
        s@ == seq![digit(d as nat)],
{
    proof {
        reveal_strlit("0");
        reveal_strlit("1");
        reveal_strlit("2");
        reveal_strlit("3");
        reveal_strlit("4");
        reveal_strlit("5");
        reveal_strlit("6");
        reveal_strlit("7");
        reveal_strlit("8");
        reveal_strlit("9");
    }
    let s: &'static str = if d == 0 {
        "0"
    } else if d == 1 {
        "1"
    } else if d == 2 {
        "2"
    } else if d == 3 {
        "3"
    } else if d == 4 {
        "4"
    } else if d == 5 {
        "5"
    } else if d == 6 {
        "6"
    } else if d == 7 {
        "7"
    } else if d == 8 {
        "8"
    } else {
        "9"
    };
    assert(s@ =~= seq![digit(d as nat)]);
    s
}

fn push_decimal(text: &mut String, n: u16)
    ensures
        final(text)@ == old(text)@ + decimal(n as nat),
    decreases n,
{
    if n >= 10 {
        push_decimal(text, n / 10);
    }
    text.append(digit_str(n % 10));
    assert(text@ =~= old(text)@ + decimal(n as nat));
}

/// Writes a colon and the decimal digits of `port` behind `text`.
pub(crate) fn push_port(text: &mut String, port: u16)
    ensures
        final(text)@ == with_port_suffix(old(text)@, port),
{
    proof {
        reveal_strlit(":");
        assert(":"@ =~= seq![':']);
    }
    text.append(":");
    push_decimal(text, port);
    assert(text@ =~= with_port_suffix(old(text)@, port));
}

/// The bytes of each string of a list.
pub(crate) fn strings_to_bytes(strings: &Vec<String>) -> (r: Vec<Vec<u8>>)
    ensures
        crate::wire::byte_strings(r@) == utf8_strings(texts(strings@)),
{
    let mut r: Vec<Vec<u8>> = Vec::new();
    let mut i: usize = 0;
    while i < strings.len()
        invariant
            i <= strings@.len(),
            r@.len() == i,
            forall|j: int| 0 <= j < i ==> (#[trigger] r@[j])@ == encode_utf8(strings@[j]@),
        decreases strings@.len() - i,
    {
        r.push(strings[i].as_str().as_bytes_vec());
        i += 1;
    }
    assert(crate::wire::byte_strings(r@) =~= utf8_strings(texts(strings@)));
    r
}

} // verus!
