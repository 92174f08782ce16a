//! What every stamp is made of on the wire: the protocol byte, the
//! properties field, and the two encodings that put a length before a
//! string.

use crate::EncodingError;
use byteorder::{LittleEndian, WriteBytesExt};
use vstd::bytes::spec_u64_to_le_bytes;
use vstd::prelude::*;

verus! {

/// The longest string that one length byte can announce.
pub const LP_MAX_LEN: usize = 0xff;

/// The length from which on a list element no longer fits: the high bit of
/// its length byte is taken by the continuation flag.
pub const VLP_LEN_LIMIT: usize = 0x80;

/// The first byte of a DNSCrypt stamp.
pub const PROTOCOL_DNSCRYPT: u8 = 0x01;

/// The first byte of a DNSCrypt relay stamp.
pub const PROTOCOL_DNSCRYPT_RELAY: u8 = 0x81;

/// The first byte of a DoH stamp.
pub const PROTOCOL_DOH: u8 = 0x02;

/// The first byte of an ODoH target stamp.
pub const PROTOCOL_ODOH_TARGET: u8 = 0x05;

/// The first byte of an ODoH relay stamp.
pub const PROTOCOL_ODOH_RELAY: u8 = 0x85;

/// How a stamp with a properties field begins: the protocol byte, then the
/// properties in eight bytes, the least significant first.
pub open spec fn stamp_header(protocol: u8, informal_properties: u64) -> Seq<u8> {
    seq![protocol] + spec_u64_to_le_bytes(informal_properties)
}

/// The string is short enough for a one-byte length.
pub open spec fn lp_fits(string: Seq<u8>) -> bool {
    string.len() <= LP_MAX_LEN
}

/// A list that is written only when it holds something: nothing at all for
/// the empty list, not even its zero byte.
pub open spec fn optional_vlp_wire(strings: Seq<Seq<u8>>) -> Seq<u8> {
    if strings.len() == 0 {
        Seq::empty()
    } else {
        vlp_wire(strings)
    }
}

/// A string behind one byte that holds its length.
pub open spec fn lp_wire(string: Seq<u8>) -> Seq<u8> {
    seq![string.len() as u8] + string
}

/// The strings of `strings` one after the other, each behind a length byte
/// whose high bit says that another string follows.
pub open spec fn vlp_continued(strings: Seq<Seq<u8>>) -> Seq<u8>
    decreases strings.len(),
{
    if strings.len() == 0 {
        Seq::empty()
    } else {
        vlp_continued(strings.drop_last()) + seq![0x80u8 | (strings.last().len() as u8)]
            + strings.last()
    }
}

/// A list of strings on the wire. Every string but the last has the high bit
/// of its length byte set; the empty list is a single zero byte.
pub open spec fn vlp_wire(strings: Seq<Seq<u8>>) -> Seq<u8> {
    if strings.len() == 0 {
        seq![0u8]
    } else {
        vlp_continued(strings.drop_last()) + seq![strings.last().len() as u8] + strings.last()
    }
}

/// Every string of the list is short enough for a seven-bit length.
pub open spec fn vlp_fits(strings: Seq<Seq<u8>>) -> bool {
    forall|i: int| 0 <= i < strings.len() ==> (#[trigger] strings[i]).len() < VLP_LEN_LIMIT
}

/// The contents of a list of byte vectors.
pub open spec fn byte_strings(strings: Seq<Vec<u8>>) -> Seq<Seq<u8>> {
    Seq::new(strings.len(), |i: int| strings[i]@)
}

/// The error type of `std::io`. Nothing is known of a value of it.
#[verifier::external_type_specification]
#[verifier::external_body]
pub struct ExIoError(std::io::Error);

/// Calls `byteorder::WriteBytesExt::write_u64` with `LittleEndian` on a
/// vector.
///
/// Believed, not proved: the call appends the eight bytes of `n`, the least
/// significant first, and succeeds, as writing to a vector always does.
#[verifier::external_body]
pub(crate) fn write_u64_le(writer: &mut Vec<u8>, n: u64) -> (r: Result<(), std::io::Error>)
    ensures
        r is Ok,
        final(writer)@ == old(writer)@ + spec_u64_to_le_bytes(n),
{
    writer.write_u64::<LittleEndian>(n)
}

/// Appends `string` to `writer` behind one byte that holds its length.
///
/// A string of more than 255 bytes is refused, and `writer` is left as it
/// was.
pub fn lp_encode(writer: &mut Vec<u8>, string: &[u8]) -> (r: Result<(), EncodingError>)
    ensures
        lp_fits(string@) ==> r is Ok && final(writer)@ == old(writer)@ + lp_wire(string@),
        !lp_fits(string@) ==> r == Err::<(), EncodingError>(EncodingError::StringTooLong)
            && final(writer)@ == old(writer)@,
        r is Ok ==> final(writer)@.len() == old(writer)@.len() + 1 + string@.len()
            && final(writer)@[old(writer)@.len() as int] == string@.len(),
{
    let len: usize = string.len();
    if len > LP_MAX_LEN {
        return Err(EncodingError::StringTooLong);
    }
    writer.push(len as u8);
    writer.extend_from_slice(string);
    Ok(())
}

/// Appends the list `strings` to `writer`: each string behind a length byte
/// whose high bit is set when another string follows, or a single zero byte
/// for the empty list.
///
/// A list with a string of more than 127 bytes is refused, and `writer` is
/// left as it was.
pub fn vlp_encode(writer: &mut Vec<u8>, strings: &[Vec<u8>]) -> (r: Result<(), EncodingError>)
    ensures
        vlp_fits(byte_strings(strings@)) ==> r is Ok && final(writer)@ == old(writer)@ + vlp_wire(
            byte_strings(strings@),
        ),
        !vlp_fits(byte_strings(strings@)) ==> r == Err::<(), EncodingError>(
            EncodingError::ElementTooLong,
        ) && final(writer)@ == old(writer)@,
        strings@.len() == 0 ==> r is Ok && final(writer)@ == old(writer)@.push(0u8),
{
    let ghost items = byte_strings(strings@);
    let count: usize = strings.len();
    if count == 0 {
        writer.push(0u8);
        return Ok(());
    }
    let mut encoded: Vec<u8> = Vec::new();
    let mut i: usize = 0;
    while i < count
        invariant
            0 < count == strings@.len(),
            i <= count,
            items == byte_strings(strings@),
            writer@ == old(writer)@,
            forall|j: int| 0 <= j < i ==> (#[trigger] items[j]).len() < VLP_LEN_LIMIT,
            i < count ==> encoded@ == vlp_continued(items.take(i as int)),
            i == count ==> encoded@ == vlp_wire(items),
        decreases count - i,
    {
        let string: &Vec<u8> = &strings[i];
        let len: usize = string.len();
        assert(items[i as int] == string@);
        if len >= VLP_LEN_LIMIT {
            return Err(EncodingError::ElementTooLong);
        }
        proof {
            let next = items.take(i + 1);
            assert(next.drop_last() == items.take(i as int));
            assert(next.last() == string@);
            if i + 1 == count {
                assert(next == items);
            }
        }
        if i + 1 == count {
            encoded.push(len as u8);
        } else {
            encoded.push(0x80u8 | len as u8);
        }
        encoded.extend_from_slice(string.as_slice());
        i += 1;
    }
    writer.extend_from_slice(encoded.as_slice());
    Ok(())
}

/// Reads the strings of a list from the front of `bytes`, up to and with the
/// first one whose length byte has the high bit clear. The result holds the
/// strings and the number of bytes that they took; it is `None` when `bytes`
/// ends before the list does.
pub open spec fn vlp_decode_strings(bytes: Seq<u8>) -> Option<(Seq<Seq<u8>>, nat)>
    decreases bytes.len(),
{
    if bytes.len() == 0 {
        None
    } else {
        let len = (bytes[0] & 0x7f) as int;
        if bytes.len() < 1 + len {
            None
        } else if bytes[0] & 0x80 == 0 {
            Some((seq![bytes.subrange(1, 1 + len)], (1 + len) as nat))
        } else {
            match vlp_decode_strings(bytes.skip(1 + len)) {
                None => None,
                Some((more, taken)) => Some(
                    (seq![bytes.subrange(1, 1 + len)] + more, (1 + len + taken) as nat),
                ),
            }
        }
    }
}

/// Reads a list from the front of `bytes`: the inverse of `vlp_wire`. A zero
/// byte in the first place is read as the empty list.
pub open spec fn vlp_decode(bytes: Seq<u8>) -> Option<(Seq<Seq<u8>>, nat)> {
    if bytes.len() > 0 && bytes[0] == 0 {
        Some((Seq::empty(), 1))
    } else {
        vlp_decode_strings(bytes)
    }
}

proof fn lemma_length_byte(len: u8)
    by (bit_vector)
    requires
        len < 0x80,
    ensures
        len & 0x7f == len,
        len & 0x80 == 0,
        (0x80u8 | len) & 0x7f == len,
        (0x80u8 | len) & 0x80 != 0,
        (0x80u8 | len) != 0,
{
}

/// `vlp_continued` read from the front: the first string, then the others.
proof fn lemma_vlp_continued_front(strings: Seq<Seq<u8>>)
    requires
        strings.len() > 0,
    ensures
        vlp_continued(strings) == seq![0x80u8 | (strings[0].len() as u8)] + strings[0]
            + vlp_continued(strings.drop_first()),
    decreases strings.len(),
{
    if strings.len() == 1 {
        assert(strings.drop_last() == Seq::<Seq<u8>>::empty());
        assert(strings.drop_first() == Seq::<Seq<u8>>::empty());
    } else {
        lemma_vlp_continued_front(strings.drop_last());
        assert(strings.drop_last().drop_first() == strings.drop_first().drop_last());
    }
}

/// `vlp_wire` read from the front: the first string, then the list of the
/// others, if there are any.
proof fn lemma_vlp_wire_front(strings: Seq<Seq<u8>>)
    requires
        strings.len() > 0,
    ensures
        strings.len() == 1 ==> vlp_wire(strings) == seq![strings[0].len() as u8] + strings[0],
        strings.len() > 1 ==> vlp_wire(strings) == seq![0x80u8 | (strings[0].len() as u8)]
            + strings[0] + vlp_wire(strings.drop_first()),
{
    if strings.len() == 1 {
        assert(strings.drop_last() == Seq::<Seq<u8>>::empty());
    } else {
        lemma_vlp_continued_front(strings.drop_last());
        assert(strings.drop_last().drop_first() == strings.drop_first().drop_last());
    }
}

/// Every list that holds a string is read back as it was written by the
/// reader that knows no empty list, the list of a single empty string too.
pub proof fn lemma_vlp_strings_round_trip(strings: Seq<Seq<u8>>, rest: Seq<u8>)
    requires
        strings.len() > 0,
        vlp_fits(strings),
    ensures
        vlp_decode_strings(vlp_wire(strings) + rest) == Some(
            (strings, vlp_wire(strings).len()),
        ),
    decreases strings.len(),
{
    let first = strings[0];
    let len = first.len() as int;
    let bytes = vlp_wire(strings) + rest;
    lemma_vlp_wire_front(strings);
    lemma_length_byte(first.len() as u8);
    if strings.len() == 1 {
        assert(bytes.subrange(1, 1 + len) == first);
        assert(seq![first] == strings);
    } else {
        let others = strings.drop_first();
        assert(bytes.subrange(1, 1 + len) == first);
        assert(bytes.skip(1 + len) == vlp_wire(others) + rest);
        assert(vlp_fits(others)) by {
            assert forall|i: int| 0 <= i < others.len() implies (#[trigger] others[i]).len()
                < VLP_LEN_LIMIT by {
                assert(others[i] == strings[i + 1]);
            }
        }
        lemma_vlp_strings_round_trip(others, rest);
        assert(seq![first] + others == strings);
    }
}

/// Reading back what `vlp_encode` wrote gives the list that was written, in
/// its order, and stops where the list ends, whatever follows it. The one
/// list left out is the list of a single empty string: on the wire it is the
/// zero byte of the empty list.
pub proof fn lemma_vlp_round_trip(strings: Seq<Seq<u8>>, rest: Seq<u8>)
    requires
        vlp_fits(strings),
        !(strings.len() == 1 && strings[0].len() == 0),
    ensures
        vlp_decode(vlp_wire(strings) + rest) == Some((strings, vlp_wire(strings).len())),
{
    if strings.len() == 0 {
        assert(strings == Seq::<Seq<u8>>::empty());
    } else {
        lemma_vlp_wire_front(strings);
        lemma_length_byte(strings[0].len() as u8);
        lemma_vlp_strings_round_trip(strings, rest);
    }
}

} // verus!
