use dnsstamps::{
    DNSCryptBuilder, DNSCryptProvider, DoHBuilder, InformalProperty, ODoHRelayBuilder,
    ODoHTargetBuilder, WithInformalProperty,
};

#[test]
fn default_port_is_not_written() {
    let target = || ODoHTargetBuilder::new("odoh.example.com".to_owned(), "/q".to_owned());
    assert_eq!(target().with_port(443).to_bytes(), target().to_bytes());
    assert_eq!(target().with_port(443).serialize(), target().serialize());

    let relay = || {
        ODoHRelayBuilder::new("relay.example.com".to_owned(), "/q".to_owned())
            .with_address("192.0.2.7".to_owned())
    };
    assert_eq!(relay().with_port(443).to_bytes(), relay().to_bytes());
    assert_eq!(relay().with_port(443).serialize(), relay().serialize());

    let dnscrypt = || {
        DNSCryptBuilder::new(DNSCryptProvider::new("n".to_owned(), vec![1, 2]))
            .with_addr("192.0.2.53".to_owned())
            .with_addr("192.0.2.54".to_owned())
    };
    assert_eq!(dnscrypt().with_port(443).to_bytes(), dnscrypt().to_bytes());
    assert_eq!(dnscrypt().with_port(443).serialize(), dnscrypt().serialize());
}

#[test]
fn default_port_clears_an_earlier_port() {
    let target = ODoHTargetBuilder::new("h".to_owned(), "/".to_owned())
        .with_port(8443)
        .with_port(443);
    assert_eq!(
        target.to_bytes().unwrap(),
        vec![5, 0, 0, 0, 0, 0, 0, 0, 0, 1, b'h', 1, b'/']
    );
    assert_eq!(
        target.serialize(),
        ODoHTargetBuilder::new("h".to_owned(), "/".to_owned()).serialize()
    );

    let relay = ODoHRelayBuilder::new("h".to_owned(), "/".to_owned())
        .with_port(8443)
        .with_port(443);
    assert_eq!(
        relay.to_bytes().unwrap(),
        vec![0x85, 0, 0, 0, 0, 0, 0, 0, 0, 0, 0, 1, b'h', 1, b'/']
    );
    assert_eq!(
        relay.serialize(),
        ODoHRelayBuilder::new("h".to_owned(), "/".to_owned()).serialize()
    );
}

#[test]
fn default_port_then_another_port_writes_the_other() {
    let bytes = ODoHTargetBuilder::new("h".to_owned(), "/".to_owned())
        .with_port(443)
        .with_port(8443)
        .to_bytes()
        .unwrap();
    assert_eq!(
        bytes,
        vec![5, 0, 0, 0, 0, 0, 0, 0, 0, 6, b'h', b':', b'8', b'4', b'4', b'3', 1, b'/']
    );
}

#[test]
fn later_port_replaces_an_earlier_one() {
    let bytes = ODoHRelayBuilder::new("h".to_owned(), "/".to_owned())
        .with_port(8443)
        .with_port(53)
        .to_bytes()
        .unwrap();
    assert_eq!(
        bytes,
        vec![0x85, 0, 0, 0, 0, 0, 0, 0, 0, 0, 0, 4, b'h', b':', b'5', b'3', 1, b'/']
    );
}

fn target_host_field(port: u16) -> Vec<u8> {
    let bytes = ODoHTargetBuilder::new("h".to_owned(), "/".to_owned())
        .with_port(port)
        .to_bytes()
        .unwrap();
    let len = bytes[9] as usize;
    bytes[10..10 + len].to_vec()
}

#[test]
fn other_ports_are_written_in_decimal() {
    assert_eq!(target_host_field(0), b"h:0".to_vec());
    assert_eq!(target_host_field(7), b"h:7".to_vec());
    assert_eq!(target_host_field(10), b"h:10".to_vec());
    assert_eq!(target_host_field(53), b"h:53".to_vec());
    assert_eq!(target_host_field(442), b"h:442".to_vec());
    assert_eq!(target_host_field(443), b"h".to_vec());
    assert_eq!(target_host_field(444), b"h:444".to_vec());
    assert_eq!(target_host_field(1000), b"h:1000".to_vec());
    assert_eq!(target_host_field(8443), b"h:8443".to_vec());
    assert_eq!(target_host_field(10000), b"h:10000".to_vec());
    assert_eq!(target_host_field(60009), b"h:60009".to_vec());
    assert_eq!(target_host_field(65535), b"h:65535".to_vec());
}

#[test]
fn every_port_is_written_as_the_standard_library_prints_it() {
    for port in 0..=u16::MAX {
        let expected = if port == 443 { "h".to_owned() } else { format!("h:{}", port) };
        assert_eq!(target_host_field(port), expected.into_bytes());
    }
}

#[test]
fn dnscrypt_port_is_written_twice_when_set_twice() {
    let bytes = DNSCryptBuilder::new(DNSCryptProvider::new("n".to_owned(), vec![]))
        .with_addr("a".to_owned())
        .with_port(53)
        .with_port(54)
        .to_bytes()
        .unwrap();
    let mut expected = vec![1u8, 0, 0, 0, 0, 0, 0, 0, 0];
    expected.extend_from_slice(&[7, b'a', b':', b'5', b'3', b':', b'5', b'4']);
    expected.extend_from_slice(&[0, 1, b'n']);
    assert_eq!(bytes, expected);
}

#[test]
fn bootstrap_ips_are_left_out_when_there_are_none() {
    let doh = || {
        DoHBuilder::new("example.com".to_owned(), "/dns".to_owned())
            .with_address("127.0.0.1:443".to_string())
    };
    let without = doh().to_bytes().unwrap();
    assert_eq!(without[without.len() - 5..], [4, b'/', b'd', b'n', b's']);
    let with = doh().with_bootstrap_ip("9.9.9.9".to_owned()).to_bytes().unwrap();
    let mut expected = without.clone();
    expected.extend_from_slice(&[7, b'9', b'.', b'9', b'.', b'9', b'.', b'9']);
    assert_eq!(with, expected);

    let relay = || ODoHRelayBuilder::new("example.com".to_owned(), "/dns".to_owned());
    let without = relay().to_bytes().unwrap();
    assert_eq!(without[without.len() - 5..], [4, b'/', b'd', b'n', b's']);
    let with = relay()
        .with_bootstrap_ip("9.9.9.9".to_owned())
        .with_bootstrap_ip("::1".to_owned())
        .to_bytes()
        .unwrap();
    let mut expected = without.clone();
    expected.extend_from_slice(&[0x87, b'9', b'.', b'9', b'.', b'9', b'.', b'9']);
    expected.extend_from_slice(&[3, b':', b':', b'1']);
    assert_eq!(with, expected);
}

#[test]
fn an_empty_bootstrap_ip_is_still_a_list() {
    let bytes = DoHBuilder::new("h".to_owned(), "/".to_owned())
        .with_bootstrap_ip(String::new())
        .to_bytes()
        .unwrap();
    assert_eq!(bytes, vec![2, 0, 0, 0, 0, 0, 0, 0, 0, 0, 0, 1, b'h', 1, b'/', 0]);
}

fn doh_properties(properties: &[InformalProperty]) -> Vec<u8> {
    let mut builder = DoHBuilder::new("h".to_owned(), "/".to_owned());
    for property in properties {
        builder = builder.with_informal_property(*property);
    }
    builder.to_bytes().unwrap()[1..9].to_vec()
}

#[test]
fn informal_properties_are_ored_in_any_order() {
    let dnssec = InformalProperty::DNSSEC;
    let no_logs = InformalProperty::NoLogs;
    let no_filters = InformalProperty::NoFilters;
    assert_eq!(doh_properties(&[]), vec![0, 0, 0, 0, 0, 0, 0, 0]);
    assert_eq!(doh_properties(&[dnssec]), vec![1, 0, 0, 0, 0, 0, 0, 0]);
    assert_eq!(doh_properties(&[no_logs]), vec![2, 0, 0, 0, 0, 0, 0, 0]);
    assert_eq!(doh_properties(&[no_filters]), vec![4, 0, 0, 0, 0, 0, 0, 0]);
    assert_eq!(doh_properties(&[dnssec, no_logs]), vec![3, 0, 0, 0, 0, 0, 0, 0]);
    assert_eq!(doh_properties(&[no_logs, dnssec]), vec![3, 0, 0, 0, 0, 0, 0, 0]);
    assert_eq!(doh_properties(&[no_filters, dnssec]), vec![5, 0, 0, 0, 0, 0, 0, 0]);
    assert_eq!(doh_properties(&[no_logs, no_filters, dnssec]), vec![7, 0, 0, 0, 0, 0, 0, 0]);
    assert_eq!(doh_properties(&[dnssec, dnssec, no_logs, dnssec]), vec![3, 0, 0, 0, 0, 0, 0, 0]);
}

#[test]
fn informal_properties_on_every_builder_that_has_them() {
    let dnscrypt = DNSCryptBuilder::new(DNSCryptProvider::new("n".to_owned(), vec![]))
        .with_informal_property(InformalProperty::NoLogs)
        .with_informal_property(InformalProperty::DNSSEC)
        .to_bytes()
        .unwrap();
    assert_eq!(dnscrypt[..9], [1, 3, 0, 0, 0, 0, 0, 0, 0]);
    let target = ODoHTargetBuilder::new("h".to_owned(), "/".to_owned())
        .with_informal_property(InformalProperty::DNSSEC)
        .with_informal_property(InformalProperty::NoLogs)
        .to_bytes()
        .unwrap();
    assert_eq!(target[..9], [5, 3, 0, 0, 0, 0, 0, 0, 0]);
    let relay = ODoHRelayBuilder::new("h".to_owned(), "/".to_owned())
        .with_informal_property(InformalProperty::NoFilters)
        .with_informal_property(InformalProperty::NoLogs)
        .to_bytes()
        .unwrap();
    assert_eq!(relay[..9], [0x85, 6, 0, 0, 0, 0, 0, 0, 0]);
}
