use dnsstamps::{lp_encode, stamp_uri, vlp_encode, EncodingError, InformalProperty};

#[test]
fn lp_encode_writes_length_then_bytes() {
    let mut out = vec![0xeeu8];
    assert_eq!(lp_encode(&mut out, b"/dns"), Ok(()));
    assert_eq!(out, vec![0xee, 4, b'/', b'd', b'n', b's']);
}

#[test]
fn lp_encode_of_the_empty_string_is_one_zero_byte() {
    let mut out = Vec::new();
    assert_eq!(lp_encode(&mut out, b""), Ok(()));
    assert_eq!(out, vec![0u8]);
}

#[test]
fn lp_encode_output_is_one_byte_longer_and_starts_with_the_length() {
    for len in [0usize, 1, 2, 31, 127, 128, 200, 254, 255] {
        let string = vec![0x5au8; len];
        let mut out = Vec::new();
        assert_eq!(lp_encode(&mut out, &string), Ok(()));
        assert_eq!(out.len(), 1 + len);
        assert_eq!(out[0] as usize, len);
        assert_eq!(&out[1..], &string[..]);
    }
}

#[test]
fn lp_encode_refuses_256_bytes() {
    let string = vec![1u8; 256];
    let mut out = vec![9u8, 8, 7];
    assert_eq!(lp_encode(&mut out, &string), Err(EncodingError::StringTooLong));
    assert_eq!(out, vec![9u8, 8, 7]);
}

#[test]
fn vlp_encode_of_the_empty_list_is_one_zero_byte() {
    let mut out = Vec::new();
    assert_eq!(vlp_encode(&mut out, &[]), Ok(()));
    assert_eq!(out, vec![0u8]);
}

#[test]
fn vlp_encode_appends_to_what_the_writer_holds() {
    let mut out = vec![0x81u8];
    assert_eq!(vlp_encode(&mut out, &[]), Ok(()));
    assert_eq!(out, vec![0x81u8, 0]);
}

#[test]
fn vlp_encode_of_one_empty_string_is_one_zero_byte() {
    let mut out = Vec::new();
    assert_eq!(vlp_encode(&mut out, &[Vec::new()]), Ok(()));
    assert_eq!(out, vec![0u8]);
}

#[test]
fn vlp_encode_sets_the_high_bit_on_all_but_the_last() {
    let strings = vec![vec![7u8], vec![8u8, 9], vec![], vec![10u8, 11, 12]];
    let mut out = Vec::new();
    assert_eq!(vlp_encode(&mut out, &strings), Ok(()));
    assert_eq!(out, vec![0x81, 7, 0x82, 8, 9, 0x80, 0x03, 10, 11, 12]);
}

#[test]
fn vlp_encode_of_one_string_has_a_plain_length() {
    let mut out = Vec::new();
    assert_eq!(vlp_encode(&mut out, &[b"9.9.9.9".to_vec()]), Ok(()));
    assert_eq!(out, vec![7, b'9', b'.', b'9', b'.', b'9', b'.', b'9']);
}

#[test]
fn vlp_encode_takes_127_bytes() {
    let strings = vec![vec![1u8; 127], vec![2u8; 127]];
    let mut out = Vec::new();
    assert_eq!(vlp_encode(&mut out, &strings), Ok(()));
    assert_eq!(out.len(), 256);
    assert_eq!(out[0], 0xff);
    assert_eq!(&out[1..128], &[1u8; 127][..]);
    assert_eq!(out[128], 0x7f);
    assert_eq!(&out[129..], &[2u8; 127][..]);
}

#[test]
fn vlp_encode_refuses_128_bytes() {
    let mut out = vec![5u8];
    assert_eq!(vlp_encode(&mut out, &[vec![0u8; 128]]), Err(EncodingError::ElementTooLong));
    assert_eq!(out, vec![5u8]);
}

#[test]
fn vlp_encode_refuses_a_long_string_anywhere_and_writes_nothing() {
    let strings = vec![vec![1u8, 2], vec![0u8; 200], vec![3u8]];
    let mut out = vec![5u8];
    assert_eq!(vlp_encode(&mut out, &strings), Err(EncodingError::ElementTooLong));
    assert_eq!(out, vec![5u8]);
}

fn vlp_decode(bytes: &[u8]) -> Option<(Vec<Vec<u8>>, usize)> {
    if bytes.first() == Some(&0) {
        return Some((Vec::new(), 1));
    }
    let mut strings = Vec::new();
    let mut at = 0usize;
    loop {
        let head = *bytes.get(at)?;
        let len = (head & 0x7f) as usize;
        let string = bytes.get(at + 1..at + 1 + len)?;
        strings.push(string.to_vec());
        at += 1 + len;
        if head & 0x80 == 0 {
            return Some((strings, at));
        }
    }
}

#[test]
fn vlp_round_trip() {
    let lists: Vec<Vec<Vec<u8>>> = vec![
        vec![],
        vec![vec![1]],
        vec![vec![], vec![]],
        vec![vec![], vec![1, 2, 3]],
        vec![vec![1, 2, 3], vec![]],
        vec![vec![0x80, 0xff], vec![0], vec![0x7f; 127]],
        vec![b"127.0.0.1:443".to_vec(), b"[::1]:8443".to_vec(), b"192.0.2.1".to_vec()],
    ];
    for strings in lists {
        let mut out = Vec::new();
        assert_eq!(vlp_encode(&mut out, &strings), Ok(()));
        let written = out.len();
        out.extend_from_slice(&[0x0b, b'e', b'x']);
        assert_eq!(vlp_decode(&out), Some((strings, written)));
    }
}

#[test]
fn vlp_round_trip_loses_the_single_empty_string() {
    let mut out = Vec::new();
    assert_eq!(vlp_encode(&mut out, &[Vec::new()]), Ok(()));
    assert_eq!(vlp_decode(&out), Some((Vec::new(), 1)));
}

#[test]
fn stamp_uri_puts_the_scheme_first() {
    assert_eq!(stamp_uri("gQA"), "sdns://gQA");
    assert_eq!(stamp_uri(""), "sdns://");
}

#[test]
fn informal_property_bits() {
    assert_eq!(u64::from(InformalProperty::DNSSEC), 0x01);
    assert_eq!(u64::from(InformalProperty::NoLogs), 0x02);
    assert_eq!(u64::from(InformalProperty::NoFilters), 0x04);
}
