//! Stamps for DNS over HTTPS.

use crate::render::{
    base64_encode, base64_text_fits, base64_url_safe_no_pad, is_stamp_text,
    lemma_stamp_text_shape, stamp_text, stamp_uri, text_fits,
};
use crate::text::{strings_to_bytes, texts, utf8_strings};
use crate::wire::{
    byte_strings, lp_encode, lp_fits, lp_wire, optional_vlp_wire, stamp_header, vlp_encode,
    vlp_fits, vlp_wire, write_u64_le, PROTOCOL_DOH,
};
use crate::{
    lemma_properties_any_order, properties_with, EncodingError, InformalProperty,
    WithInformalProperty,
};
use vstd::prelude::*;
use vstd::utf8::encode_utf8;

verus! {

/// What a DoH stamp says.
pub struct DoHStamp {
    /// The properties that were set, one bit each.
    pub informal_properties: u64,
    /// The addresses, in the order in which they were added.
    pub addrs: Seq<Seq<char>>,
    /// The certificate hashes, in the order in which they were added.
    pub hashes: Seq<Seq<u8>>,
    /// The host name, without a port.
    pub hostname: Seq<char>,
    /// The path under which the resolver answers.
    pub path: Seq<char>,
    /// The bootstrap addresses, in the order in which they were added.
    pub bootstrap_ips: Seq<Seq<char>>,
}

impl DoHStamp {
    /// A stamp with a host name and a path, and nothing else set.
    pub open spec fn new(hostname: Seq<char>, path: Seq<char>) -> Self {
        DoHStamp {
            informal_properties: 0,
            addrs: Seq::empty(),
            hashes: Seq::empty(),
            hostname,
            path,
            bootstrap_ips: Seq::empty(),
        }
    }

    /// The stamp with one more address, behind the others.
    pub open spec fn with_address(self, addr: Seq<char>) -> Self {
        DoHStamp { addrs: self.addrs.push(addr), ..self }
    }

    /// The stamp with one more certificate hash, behind the others.
    pub open spec fn with_cert_hash(self, hash: Seq<u8>) -> Self {
        DoHStamp { hashes: self.hashes.push(hash), ..self }
    }

    /// The stamp with one more bootstrap address, behind the others.
    pub open spec fn with_bootstrap_ip(self, ip: Seq<char>) -> Self {
        DoHStamp { bootstrap_ips: self.bootstrap_ips.push(ip), ..self }
    }

    /// The stamp with one more property set.
    pub open spec fn with_informal_property(self, informal_property: InformalProperty) -> Self {
        DoHStamp {
            informal_properties: properties_with(self.informal_properties, informal_property),
            ..self
        }
    }

    /// The first field, in the order of the wire, that is too long for its
    /// length byte; `None` when every field fits.
    pub open spec fn oversized(self) -> Option<EncodingError> {
        if !vlp_fits(utf8_strings(self.addrs)) || !vlp_fits(self.hashes) {
            Some(EncodingError::ElementTooLong)
        } else if !lp_fits(encode_utf8(self.hostname)) || !lp_fits(encode_utf8(self.path)) {
            Some(EncodingError::StringTooLong)
        } else if !vlp_fits(utf8_strings(self.bootstrap_ips)) {
            Some(EncodingError::ElementTooLong)
        } else {
            None
        }
    }

    /// The stamp without its bootstrap addresses: the protocol byte, the
    /// properties, the addresses, the certificate hashes, the host name and
    /// the path.
    pub open spec fn wire_before_bootstrap(self) -> Seq<u8> {
        stamp_header(PROTOCOL_DOH, self.informal_properties) + vlp_wire(utf8_strings(self.addrs))
            + vlp_wire(self.hashes) + lp_wire(encode_utf8(self.hostname)) + lp_wire(
            encode_utf8(self.path),
        )
    }

    /// The stamp on the wire. The bootstrap addresses come last, and only
    /// when there are any.
    pub open spec fn wire(self) -> Seq<u8> {
        self.wire_before_bootstrap() + optional_vlp_wire(utf8_strings(self.bootstrap_ips))
    }

    /// The stamp as text.
    pub open spec fn text(self) -> Seq<char> {
        stamp_text(base64_url_safe_no_pad(self.wire()))
    }

    /// The bootstrap addresses are the one field that may be missing from
    /// the wire: an empty list adds no byte to the stamp, not even the zero
    /// byte of an empty list, and a list that holds something follows the
    /// path as any other list.
    pub proof fn lemma_bootstrap_ips_optional(self)
        ensures
            self.bootstrap_ips.len() == 0 ==> self.wire() == self.wire_before_bootstrap(),
            self.bootstrap_ips.len() > 0 ==> self.wire() == self.wire_before_bootstrap()
                + vlp_wire(utf8_strings(self.bootstrap_ips)),
    {
    }

    /// The properties of a stamp do not depend on the order in which they
    /// were set, and setting two of them or-s the bits of both into the
    /// properties field.
    pub proof fn lemma_informal_properties_any_order(
        self,
        first: InformalProperty,
        second: InformalProperty,
    )
        ensures
            self.with_informal_property(first).with_informal_property(second)
                == self.with_informal_property(second).with_informal_property(first),
            self.with_informal_property(first).with_informal_property(second).informal_properties
                == self.informal_properties | (first.bit() | second.bit()),
    {
        lemma_properties_any_order(self.informal_properties, first, second);
    }
}

/// Builds the stamp of a DoH resolver.
#[derive(Debug)]
pub struct DoHBuilder {
    informal_properties: u64,
    addrs: Vec<String>,
    hashes: Vec<Vec<u8>>,
    hostname: String,
    path: String,
    bootstrap_ips: Vec<String>,
}

impl View for DoHBuilder {
    type V = DoHStamp;

    closed spec fn view(&self) -> DoHStamp {
        DoHStamp {
            informal_properties: self.informal_properties,
            addrs: texts(self.addrs@),
            hashes: byte_strings(self.hashes@),
            hostname: self.hostname@,
            path: self.path@,
            bootstrap_ips: texts(self.bootstrap_ips@),
        }
    }
}

impl DoHBuilder {
    /// A stamp for the resolver at `hostname` that answers under `path`.
    pub fn new(hostname: String, path: String) -> (r: Self)
        ensures
            r@ == DoHStamp::new(hostname@, path@),
    {
        let r = DoHBuilder {
            informal_properties: 0,
            addrs: Vec::new(),
            hostname,
            path,
            hashes: Vec::new(),
            bootstrap_ips: Vec::new(),
        };
        assert(r@.addrs =~= Seq::empty());
        assert(r@.hashes =~= Seq::empty());
        assert(r@.bootstrap_ips =~= Seq::empty());
        r
    }

    /// Adds an address, behind those added before.
    pub fn with_address(self, addr: String) -> (r: Self)
        ensures
            r@ == self@.with_address(addr@),
    {
        let mut r = self;
        r.addrs.push(addr);
        assert(r@.addrs =~= self@.addrs.push(addr@));
        r
    }

    /// Adds a certificate hash, behind those added before.
    pub fn with_cert_hash(self, hash: Vec<u8>) -> (r: Self)
        ensures
            r@ == self@.with_cert_hash(hash@),
    {
        let mut r = self;
        r.hashes.push(hash);
        assert(r@.hashes =~= self@.hashes.push(hash@));
        r
    }

    /// Adds a bootstrap address, behind those added before.
    pub fn with_bootstrap_ip(self, ip: String) -> (r: Self)
        ensures
            r@ == self@.with_bootstrap_ip(ip@),
    {
        let mut r = self;
        r.bootstrap_ips.push(ip);
        assert(r@.bootstrap_ips =~= self@.bootstrap_ips.push(ip@));
        r
    }

    /// The stamp on the wire, or the error for the first field that is too
    /// long.
    pub fn to_bytes(&self) -> (r: Result<Vec<u8>, EncodingError>)
        ensures
            match self@.oversized() {
                Some(e) => r == Err::<Vec<u8>, EncodingError>(e),
                None => r is Ok && r.unwrap()@ == self@.wire(),
            },
    {
        let mut bin: Vec<u8> = Vec::new();
        bin.push(PROTOCOL_DOH);
        write_u64_le(&mut bin, self.informal_properties).unwrap();
        assert(bin@ =~= stamp_header(PROTOCOL_DOH, self.informal_properties));

        let addrs_bin = strings_to_bytes(&self.addrs);
        vlp_encode(&mut bin, addrs_bin.as_slice())?;
        vlp_encode(&mut bin, self.hashes.as_slice())?;
        lp_encode(&mut bin, self.hostname.as_str().as_bytes())?;
        lp_encode(&mut bin, self.path.as_str().as_bytes())?;
        assert(bin@ =~= self@.wire_before_bootstrap());
        if !self.bootstrap_ips.is_empty() {
            let bootstrap_ips_bin = strings_to_bytes(&self.bootstrap_ips);
            vlp_encode(&mut bin, bootstrap_ips_bin.as_slice())?;
        }
        assert(bin@ =~= self@.wire());
        Ok(bin)
    }

    /// The stamp as text: `sdns://`, then the bytes of the stamp in base64
    /// with the URL-safe alphabet and no padding.
    ///
    /// The text must fit this machine's memory; `try_serialize` asks nothing.
    pub fn serialize(self) -> (r: Result<String, EncodingError>)
        requires
            self@.oversized() is None ==> base64_text_fits(self@.wire().len()),
        ensures
            match self@.oversized() {
                Some(e) => r == Err::<String, EncodingError>(e),
                None => r is Ok && r.unwrap()@ == self@.text(),
            },
            r is Ok ==> is_stamp_text(r.unwrap()@, self@.wire().len()),
    {
        let bin = self.to_bytes()?;
        let serialized = base64_encode(&bin);
        proof {
            lemma_stamp_text_shape(serialized@, bin@.len());
        }
        Ok(stamp_uri(serialized.as_str()))
    }

    /// `serialize` for any stamp: `None` where the text would not fit this
    /// machine's memory.
    pub fn try_serialize(self) -> (r: Option<Result<String, EncodingError>>)
        ensures
            match self@.oversized() {
                Some(e) => r == Some(Err::<String, EncodingError>(e)),
                None => if base64_text_fits(self@.wire().len()) {
                    r is Some && r.unwrap() is Ok && r.unwrap().unwrap()@ == self@.text()
                } else {
                    r is None
                },
            },
            r is Some && r.unwrap() is Ok ==> is_stamp_text(
                r.unwrap().unwrap()@,
                self@.wire().len(),
            ),
    {
        match self.to_bytes() {
            Err(e) => Some(Err(e)),
            Ok(bin) => {
                if text_fits(bin.len()) {
                    let serialized = base64_encode(&bin);
                    proof {
                        lemma_stamp_text_shape(serialized@, bin@.len());
                    }
                    Some(Ok(stamp_uri(serialized.as_str())))
                } else {
                    None
                }
            },
        }
    }
}

impl Default for DoHBuilder {
    /// A stamp with an empty host name and an empty path.
    fn default() -> (r: Self)
        ensures
            r@ == DoHStamp::new(Seq::empty(), Seq::empty()),
    {
        DoHBuilder::new(String::new(), String::new())
    }
}

impl WithInformalProperty for DoHBuilder {
    open spec fn informal_properties(&self) -> u64 {
        self@.informal_properties
    }

    fn with_informal_property(self, informal_property: InformalProperty) -> (r: Self)
        ensures
            r@ == self@.with_informal_property(informal_property),
    {
        let mut r = self;
        r.informal_properties |= u64::from(informal_property);
        r
    }
}

} // verus!
