//! Stamps for Oblivious DoH: one for a target, one for a relay.

use crate::render::{
    base64_text_fits, ct_codecs_base64_url_safe_no_padding, ct_codecs_encode, is_stamp_text,
    lemma_stamp_text_shape, stamp_text, stamp_uri, text_fits,
};
use crate::text::{
    decimal, host_text, push_port, strings_to_bytes, texts, utf8_strings, DEFAULT_PORT,
};
use crate::wire::{
    byte_strings, lp_encode, lp_fits, lp_wire, optional_vlp_wire, stamp_header, vlp_encode,
    vlp_fits, vlp_wire, write_u64_le, PROTOCOL_ODOH_RELAY, PROTOCOL_ODOH_TARGET,
};
use crate::{
    lemma_properties_any_order, properties_with, EncodingError, InformalProperty,
    WithInformalProperty,
};
use vstd::prelude::*;
use vstd::utf8::encode_utf8;

verus! {

/// What an ODoH target stamp says.
pub struct ODoHTargetStamp {
    /// The properties that were set, one bit each.
    pub informal_properties: u64,
    /// The host name, without a port.
    pub hostname: Seq<char>,
    /// The port of the host name, where one other than the default was set.
    pub port: Option<u16>,
    /// The path under which the resolver answers.
    pub path: Seq<char>,
}

impl ODoHTargetStamp {
    /// A stamp with a host name and a path, and nothing else set.
    pub open spec fn new(hostname: Seq<char>, path: Seq<char>) -> Self {
        ODoHTargetStamp { informal_properties: 0, hostname, port: None, path }
    }

    /// The stamp with `port` in place of the port set before. The default
    /// port is kept as no port at all.
    pub open spec fn with_port(self, port: u16) -> Self {
        ODoHTargetStamp { port: if port == DEFAULT_PORT { None } else { Some(port) }, ..self }
    }

    /// The stamp with one more property set.
    pub open spec fn with_informal_property(self, informal_property: InformalProperty) -> Self {
        ODoHTargetStamp {
            informal_properties: properties_with(self.informal_properties, informal_property),
            ..self
        }
    }

    /// The bytes of the host name, with its port where one was set.
    pub open spec fn host_bytes(self) -> Seq<u8> {
        encode_utf8(host_text(self.hostname, self.port))
    }

    /// The error for a host name or a path that is too long for its length
    /// byte; `None` when both fit.
    pub open spec fn oversized(self) -> Option<EncodingError> {
        if !lp_fits(self.host_bytes()) || !lp_fits(encode_utf8(self.path)) {
            Some(EncodingError::StringTooLong)
        } else {
            None
        }
    }

    /// The stamp on the wire: the protocol byte, the properties, the host
    /// name and the path.
    pub open spec fn wire(self) -> Seq<u8> {
        stamp_header(PROTOCOL_ODOH_TARGET, self.informal_properties) + lp_wire(self.host_bytes())
            + lp_wire(encode_utf8(self.path))
    }

    /// The stamp as text.
    pub open spec fn text(self) -> Seq<char> {
        stamp_text(ct_codecs_base64_url_safe_no_padding(self.wire()))
    }

    /// A stamp on which the default port was set is the stamp without a
    /// port, whatever port it had before: the host name stands alone, and the
    /// bytes, the text and the error are those of the stamp that never had a
    /// port.
    pub proof fn lemma_default_port_unwritten(self)
        ensures
            self.with_port(DEFAULT_PORT) == (ODoHTargetStamp { port: None, ..self }),
            self.with_port(DEFAULT_PORT).host_bytes() == encode_utf8(self.hostname),
            self.with_port(DEFAULT_PORT).wire() == (ODoHTargetStamp { port: None, ..self }).wire(),
            self.with_port(DEFAULT_PORT).text() == (ODoHTargetStamp { port: None, ..self }).text(),
            self.with_port(DEFAULT_PORT).oversized() == (ODoHTargetStamp { port: None, ..self }).oversized(),
            self.port is None ==> self.with_port(DEFAULT_PORT) == self,
    {
    }

    /// A port other than the default is written behind the host name, after
    /// a colon and in decimal digits, and the name is turned into bytes with
    /// its port.
    pub proof fn lemma_port_written(self, port: u16)
        requires
            port != DEFAULT_PORT,
        ensures
            self.with_port(port).host_bytes() == encode_utf8(
                self.hostname + seq![':'] + decimal(port as nat),
            ),
            self.with_port(port).wire() == stamp_header(
                PROTOCOL_ODOH_TARGET,
                self.informal_properties,
            ) + lp_wire(
                encode_utf8(self.hostname + seq![':'] + decimal(port as nat)),
            ) + lp_wire(encode_utf8(self.path)),
    {
    }

    /// The properties of a stamp do not depend on the order in which they
    /// were set, and setting two of them or-s the bits of both into the
    /// properties field.
    pub proof fn lemma_informal_properties_any_order(
        self,
        first: InformalProperty,
        second: InformalProperty,
    )
        ensures
            self.with_informal_property(first).with_informal_property(second)
                == self.with_informal_property(second).with_informal_property(first),
            self.with_informal_property(first).with_informal_property(second).informal_properties
                == self.informal_properties | (first.bit() | second.bit()),
    {
        lemma_properties_any_order(self.informal_properties, first, second);
    }
}

/// Builds the stamp of an ODoH target.
#[derive(Debug)]
pub struct ODoHTargetBuilder {
    informal_properties: u64,
    hostname: String,
    port: Option<u16>,
    path: String,
}

impl View for ODoHTargetBuilder {
    type V = ODoHTargetStamp;

    closed spec fn view(&self) -> ODoHTargetStamp {
        ODoHTargetStamp {
            informal_properties: self.informal_properties,
            hostname: self.hostname@,
            port: self.port,
            path: self.path@,
        }
    }
}

impl ODoHTargetBuilder {
    /// A stamp for the target at `hostname` that answers under `path`.
    pub fn new(hostname: String, path: String) -> (r: Self)
        ensures
            r@ == ODoHTargetStamp::new(hostname@, path@),
    {
        ODoHTargetBuilder { informal_properties: 0, hostname, port: None, path }
    }

    /// Sets the port of the host name, in place of the one set before. The
    /// default port, 443, is never written: setting it leaves the host name
    /// without a port.
    pub fn with_port(self, port: u16) -> (r: Self)
        ensures
            r@ == self@.with_port(port),
            port == DEFAULT_PORT ==> r@.port is None,
            port != DEFAULT_PORT ==> r@.port == Some(port),
    {
        let mut r = self;
        if port == DEFAULT_PORT {
            r.port = None;
        } else {
            r.port = Some(port);
        }
        r
    }

    /// The stamp on the wire, or the error for a field that is too long.
    pub fn to_bytes(&self) -> (r: Result<Vec<u8>, EncodingError>)
        ensures
            match self@.oversized() {
                Some(e) => r == Err::<Vec<u8>, EncodingError>(e),
                None => r is Ok && r.unwrap()@ == self@.wire(),
            },
    {
        let mut bin: Vec<u8> = Vec::new();
        bin.push(PROTOCOL_ODOH_TARGET);
        write_u64_le(&mut bin, self.informal_properties).unwrap();
        assert(bin@ =~= stamp_header(PROTOCOL_ODOH_TARGET, self.informal_properties));

        let mut hostname_with_port = self.hostname.clone();
        if let Some(port) = self.port {
            push_port(&mut hostname_with_port, port);
        }
        lp_encode(&mut bin, hostname_with_port.as_str().as_bytes())?;
        lp_encode(&mut bin, self.path.as_str().as_bytes())?;
        assert(bin@ =~= self@.wire());
        Ok(bin)
    }

    /// The stamp as text: `sdns://`, then the bytes of the stamp in base64
    /// with the URL-safe alphabet and no padding.
    ///
    /// The text must fit this machine's memory; `try_serialize` asks nothing.
    pub fn serialize(self) -> (r: Result<String, EncodingError>)
        requires
            self@.oversized() is None ==> base64_text_fits(self@.wire().len()),
        ensures
            match self@.oversized() {
                Some(e) => r == Err::<String, EncodingError>(e),
                None => r is Ok && r.unwrap()@ == self@.text(),
            },
            r is Ok ==> is_stamp_text(r.unwrap()@, self@.wire().len()),
    {
        let bin = self.to_bytes()?;
        let serialized = ct_codecs_encode(&bin).unwrap();
        proof {
            lemma_stamp_text_shape(serialized@, bin@.len());
        }
        Ok(stamp_uri(serialized.as_str()))
    }

    /// `serialize` for any stamp: `None` where the text would not fit this
    /// machine's memory.
    pub fn try_serialize(self) -> (r: Option<Result<String, EncodingError>>)
        ensures
            match self@.oversized() {
                Some(e) => r == Some(Err::<String, EncodingError>(e)),
                None => if base64_text_fits(self@.wire().len()) {
                    r is Some && r.unwrap() is Ok && r.unwrap().unwrap()@ == self@.text()
                } else {
                    r is None
                },
            },
            r is Some && r.unwrap() is Ok ==> is_stamp_text(
                r.unwrap().unwrap()@,
                self@.wire().len(),
            ),
    {
        match self.to_bytes() {
            Err(e) => Some(Err(e)),
            Ok(bin) => {
                if text_fits(bin.len()) {
                    let serialized = ct_codecs_encode(&bin).unwrap();
                    proof {
                        lemma_stamp_text_shape(serialized@, bin@.len());
                    }
                    Some(Ok(stamp_uri(serialized.as_str())))
                } else {
                    None
                }
            },
        }
    }
}

impl Default for ODoHTargetBuilder {
    /// A stamp with an empty host name and an empty path.
    fn default() -> (r: Self)
        ensures
            r@ == ODoHTargetStamp::new(Seq::empty(), Seq::empty()),
    {
        ODoHTargetBuilder::new(String::new(), String::new())
    }
}

impl WithInformalProperty for ODoHTargetBuilder {
    open spec fn informal_properties(&self) -> u64 {
        self@.informal_properties
    }

    fn with_informal_property(self, informal_property: InformalProperty) -> (r: Self)
        ensures
            r@ == self@.with_informal_property(informal_property),
    {
        let mut r = self;
        r.informal_properties |= u64::from(informal_property);
        r
    }
}

/// What an ODoH relay stamp says.
pub struct ODoHRelayStamp {
    /// The properties that were set, one bit each.
    pub informal_properties: u64,
    /// The addresses, in the order in which they were added.
    pub addrs: Seq<Seq<char>>,
    /// The certificate hashes, in the order in which they were added.
    pub hashes: Seq<Seq<u8>>,
    /// The host name, without a port.
    pub hostname: Seq<char>,
    /// The port of the host name, where one other than the default was set.
    pub port: Option<u16>,
    /// The path under which the resolver answers.
    pub path: Seq<char>,
    /// The bootstrap addresses, in the order in which they were added.
    pub bootstrap_ips: Seq<Seq<char>>,
}

impl ODoHRelayStamp {
    /// A stamp with a host name and a path, and nothing else set.
    pub open spec fn new(hostname: Seq<char>, path: Seq<char>) -> Self {
        ODoHRelayStamp {
            informal_properties: 0,
            addrs: Seq::empty(),
            hashes: Seq::empty(),
            hostname,
            port: None,
            path,
            bootstrap_ips: Seq::empty(),
        }
    }

    /// The stamp with one more address, behind the others.
    pub open spec fn with_address(self, addr: Seq<char>) -> Self {
        ODoHRelayStamp { addrs: self.addrs.push(addr), ..self }
    }

    /// The stamp with one more certificate hash, behind the others.
    pub open spec fn with_cert_hash(self, hash: Seq<u8>) -> Self {
        ODoHRelayStamp { hashes: self.hashes.push(hash), ..self }
    }

    /// The stamp with one more bootstrap address, behind the others.
    pub open spec fn with_bootstrap_ip(self, ip: Seq<char>) -> Self {
        ODoHRelayStamp { bootstrap_ips: self.bootstrap_ips.push(ip), ..self }
    }

    /// The stamp with `port` in place of the port set before. The default
    /// port is kept as no port at all.
    pub open spec fn with_port(self, port: u16) -> Self {
        ODoHRelayStamp { port: if port == DEFAULT_PORT { None } else { Some(port) }, ..self }
    }

    /// The stamp with one more property set.
    pub open spec fn with_informal_property(self, informal_property: InformalProperty) -> Self {
        ODoHRelayStamp {
            informal_properties: properties_with(self.informal_properties, informal_property),
            ..self
        }
    }

    /// The bytes of the host name, with its port where one was set.
    pub open spec fn host_bytes(self) -> Seq<u8> {
        encode_utf8(host_text(self.hostname, self.port))
    }

    /// The first field, in the order of the wire, that is too long for its
    /// length byte; `None` when every field fits.
    pub open spec fn oversized(self) -> Option<EncodingError> {
        if !vlp_fits(utf8_strings(self.addrs)) || !vlp_fits(self.hashes) {
            Some(EncodingError::ElementTooLong)
        } else if !lp_fits(self.host_bytes()) || !lp_fits(encode_utf8(self.path)) {
            Some(EncodingError::StringTooLong)
        } else if !vlp_fits(utf8_strings(self.bootstrap_ips)) {
            Some(EncodingError::ElementTooLong)
        } else {
            None
        }
    }

    /// The stamp without its bootstrap addresses: the protocol byte, the
    /// properties, the addresses, the certificate hashes, the host name and
    /// the path.
    pub open spec fn wire_before_bootstrap(self) -> Seq<u8> {
        stamp_header(PROTOCOL_ODOH_RELAY, self.informal_properties) + vlp_wire(
            utf8_strings(self.addrs),
        ) + vlp_wire(self.hashes) + lp_wire(self.host_bytes()) + lp_wire(encode_utf8(self.path))
    }

    /// The stamp on the wire. The bootstrap addresses come last, and only
    /// when there are any.
    pub open spec fn wire(self) -> Seq<u8> {
        self.wire_before_bootstrap() + optional_vlp_wire(utf8_strings(self.bootstrap_ips))
    }

    /// The stamp as text.
    pub open spec fn text(self) -> Seq<char> {
        stamp_text(ct_codecs_base64_url_safe_no_padding(self.wire()))
    }

    /// A stamp on which the default port was set is the stamp without a
    /// port, whatever port it had before: the host name stands alone, and the
    /// bytes, the text and the error are those of the stamp that never had a
    /// port.
    pub proof fn lemma_default_port_unwritten(self)
        ensures
            self.with_port(DEFAULT_PORT) == (ODoHRelayStamp { port: None, ..self }),
            self.with_port(DEFAULT_PORT).host_bytes() == encode_utf8(self.hostname),
            self.with_port(DEFAULT_PORT).wire() == (ODoHRelayStamp { port: None, ..self }).wire(),
            self.with_port(DEFAULT_PORT).text() == (ODoHRelayStamp { port: None, ..self }).text(),
            self.with_port(DEFAULT_PORT).oversized() == (ODoHRelayStamp { port: None, ..self }).oversized(),
            self.port is None ==> self.with_port(DEFAULT_PORT) == self,
    {
    }

    /// A port other than the default is written behind the host name, after
    /// a colon and in decimal digits, and the name is turned into bytes with
    /// its port.
    pub proof fn lemma_port_written(self, port: u16)
        requires
            port != DEFAULT_PORT,
        ensures
            self.with_port(port).host_bytes() == encode_utf8(
                self.hostname + seq![':'] + decimal(port as nat),
            ),
            self.with_port(port).wire() == stamp_header(
                PROTOCOL_ODOH_RELAY,
                self.informal_properties,
            ) + vlp_wire(utf8_strings(self.addrs)) + vlp_wire(self.hashes) + lp_wire(
                encode_utf8(self.hostname + seq![':'] + decimal(port as nat)),
            ) + lp_wire(encode_utf8(self.path)) + optional_vlp_wire(
                utf8_strings(self.bootstrap_ips),
            ),
    {
    }

    /// The bootstrap addresses are the one field that may be missing from
    /// the wire: an empty list adds no byte to the stamp, not even the zero
    /// byte of an empty list, and a list that holds something follows the
    /// path as any other list.
    pub proof fn lemma_bootstrap_ips_optional(self)
        ensures
            self.bootstrap_ips.len() == 0 ==> self.wire() == self.wire_before_bootstrap(),
            self.bootstrap_ips.len() > 0 ==> self.wire() == self.wire_before_bootstrap()
                + vlp_wire(utf8_strings(self.bootstrap_ips)),
    {
    }

    /// The properties of a stamp do not depend on the order in which they
    /// were set, and setting two of them or-s the bits of both into the
    /// properties field.
    pub proof fn lemma_informal_properties_any_order(
        self,
        first: InformalProperty,
        second: InformalProperty,
    )
        ensures
            self.with_informal_property(first).with_informal_property(second)
                == self.with_informal_property(second).with_informal_property(first),
            self.with_informal_property(first).with_informal_property(second).informal_properties
                == self.informal_properties | (first.bit() | second.bit()),
    {
        lemma_properties_any_order(self.informal_properties, first, second);
    }
}

/// Builds the stamp of an ODoH relay.
#[derive(Debug)]
pub struct ODoHRelayBuilder {
    informal_properties: u64,
    addrs: Vec<String>,
    hashes: Vec<Vec<u8>>,
    hostname: String,
    port: Option<u16>,
    path: String,
    bootstrap_ips: Vec<String>,
}

impl View for ODoHRelayBuilder {
    type V = ODoHRelayStamp;

    closed spec fn view(&self) -> ODoHRelayStamp {
        ODoHRelayStamp {
            informal_properties: self.informal_properties,
            addrs: texts(self.addrs@),
            hashes: byte_strings(self.hashes@),
            hostname: self.hostname@,
            port: self.port,
            path: self.path@,
            bootstrap_ips: texts(self.bootstrap_ips@),
        }
    }
}

impl ODoHRelayBuilder {
    /// A stamp for the relay at `hostname` that answers under `path`.
    pub fn new(hostname: String, path: String) -> (r: Self)
        ensures
            r@ == ODoHRelayStamp::new(hostname@, path@),
    {
        let r = ODoHRelayBuilder {
            informal_properties: 0,
            addrs: Vec::new(),
            hostname,
            port: None,
            path,
            hashes: Vec::new(),
            bootstrap_ips: Vec::new(),
        };
        assert(r@.addrs =~= Seq::empty());
        assert(r@.hashes =~= Seq::empty());
        assert(r@.bootstrap_ips =~= Seq::empty());
        r
    }

    /// Adds an address, behind those added before.
    pub fn with_address(self, addr: String) -> (r: Self)
        ensures
            r@ == self@.with_address(addr@),
    {
        let mut r = self;
        r.addrs.push(addr);
        assert(r@.addrs =~= self@.addrs.push(addr@));
        r
    }

    /// Adds a certificate hash, behind those added before.
    pub fn with_cert_hash(self, hash: Vec<u8>) -> (r: Self)
        ensures
            r@ == self@.with_cert_hash(hash@),
    {
        let mut r = self;
        r.hashes.push(hash);
        assert(r@.hashes =~= self@.hashes.push(hash@));
        r
    }

    /// Adds a bootstrap address, behind those added before.
    pub fn with_bootstrap_ip(self, ip: String) -> (r: Self)
        ensures
            r@ == self@.with_bootstrap_ip(ip@),
    {
        let mut r = self;
        r.bootstrap_ips.push(ip);
        assert(r@.bootstrap_ips =~= self@.bootstrap_ips.push(ip@));
        r
    }

    /// Sets the port of the host name, in place of the one set before. The
    /// default port, 443, is never written: setting it leaves the host name
    /// without a port.
    pub fn with_port(self, port: u16) -> (r: Self)
        ensures
            r@ == self@.with_port(port),
            port == DEFAULT_PORT ==> r@.port is None,
            port != DEFAULT_PORT ==> r@.port == Some(port),
    {
        let mut r = self;
        if port == DEFAULT_PORT {
            r.port = None;
        } else {
            r.port = Some(port);
        }
        r
    }

    /// The stamp on the wire, or the error for the first field that is too
    /// long.
    pub fn to_bytes(&self) -> (r: Result<Vec<u8>, EncodingError>)
        ensures
            match self@.oversized() {
                Some(e) => r == Err::<Vec<u8>, EncodingError>(e),
                None => r is Ok && r.unwrap()@ == self@.wire(),
            },
    {
        let mut bin: Vec<u8> = Vec::new();
        bin.push(PROTOCOL_ODOH_RELAY);
        write_u64_le(&mut bin, self.informal_properties).unwrap();
        assert(bin@ =~= stamp_header(PROTOCOL_ODOH_RELAY, self.informal_properties));

        let mut hostname_with_port = self.hostname.clone();
        if let Some(port) = self.port {
            push_port(&mut hostname_with_port, port);
        }
        let addrs_bin = strings_to_bytes(&self.addrs);
        vlp_encode(&mut bin, addrs_bin.as_slice())?;
        vlp_encode(&mut bin, self.hashes.as_slice())?;
        lp_encode(&mut bin, hostname_with_port.as_str().as_bytes())?;
        lp_encode(&mut bin, self.path.as_str().as_bytes())?;
        assert(bin@ =~= self@.wire_before_bootstrap());
        if !self.bootstrap_ips.is_empty() {
            let bootstrap_ips_bin = strings_to_bytes(&self.bootstrap_ips);
            vlp_encode(&mut bin, bootstrap_ips_bin.as_slice())?;
        }
        assert(bin@ =~= self@.wire());
        Ok(bin)
    }

    /// The stamp as text: `sdns://`, then the bytes of the stamp in base64
    /// with the URL-safe alphabet and no padding.
    ///
    /// The text must fit this machine's memory; `try_serialize` asks nothing.
    pub fn serialize(self) -> (r: Result<String, EncodingError>)
        requires
            self@.oversized() is None ==> base64_text_fits(self@.wire().len()),
        ensures
            match self@.oversized() {
                Some(e) => r == Err::<String, EncodingError>(e),
                None => r is Ok && r.unwrap()@ == self@.text(),
            },
            r is Ok ==> is_stamp_text(r.unwrap()@, self@.wire().len()),
    {
        let bin = self.to_bytes()?;
        let serialized = ct_codecs_encode(&bin).unwrap();
        proof {
            lemma_stamp_text_shape(serialized@, bin@.len());
        }
        Ok(stamp_uri(serialized.as_str()))
    }

    /// `serialize` for any stamp: `None` where the text would not fit this
    /// machine's memory.
    pub fn try_serialize(self) -> (r: Option<Result<String, EncodingError>>)
        ensures
            match self@.oversized() {
                Some(e) => r == Some(Err::<String, EncodingError>(e)),
                None => if base64_text_fits(self@.wire().len()) {
                    r is Some && r.unwrap() is Ok && r.unwrap().unwrap()@ == self@.text()
                } else {
                    r is None
                },
            },
            r is Some && r.unwrap() is Ok ==> is_stamp_text(
                r.unwrap().unwrap()@,
                self@.wire().len(),
            ),
    {
        match self.to_bytes() {
            Err(e) => Some(Err(e)),
            Ok(bin) => {
                if text_fits(bin.len()) {
                    let serialized = ct_codecs_encode(&bin).unwrap();
                    proof {
                        lemma_stamp_text_shape(serialized@, bin@.len());
                    }
                    Some(Ok(stamp_uri(serialized.as_str())))
                } else {
                    None
                }
            },
        }
    }
}

impl Default for ODoHRelayBuilder {
    /// A stamp with an empty host name and an empty path.
    fn default() -> (r: Self)
        ensures
            r@ == ODoHRelayStamp::new(Seq::empty(), Seq::empty()),
    {
        ODoHRelayBuilder::new(String::new(), String::new())
    }
}

impl WithInformalProperty for ODoHRelayBuilder {
    open spec fn informal_properties(&self) -> u64 {
        self@.informal_properties
    }

    fn with_informal_property(self, informal_property: InformalProperty) -> (r: Self)
        ensures
            r@ == self@.with_informal_property(informal_property),
    {
        let mut r = self;
        r.informal_properties |= u64::from(informal_property);
        r
    }
}

} // verus!
