//! Stamps for DNSCrypt resolvers.

use crate::render::{
    base64_text_fits, ct_codecs_base64_url_safe_no_padding, ct_codecs_encode, is_stamp_text,
    lemma_stamp_text_shape, stamp_text, stamp_uri, text_fits,
};
use crate::text::{
    decimal, push_port, strings_to_bytes, texts, utf8_strings, with_port_suffix, DEFAULT_PORT,
};
use crate::wire::{
    lp_encode, lp_fits, lp_wire, stamp_header, vlp_encode, vlp_fits, vlp_wire, write_u64_le,
    PROTOCOL_DNSCRYPT,
};
use crate::{
    lemma_properties_any_order, properties_with, EncodingError, InformalProperty,
    WithInformalProperty,
};
use vstd::prelude::*;
use vstd::utf8::encode_utf8;

verus! {

/// Who answers behind a DNSCrypt stamp: the provider's name and its public
/// key. The key is taken as it is: nothing asks that it has 32 bytes.
#[derive(Debug)]
pub struct DNSCryptProvider {
    name: String,
    pk: Vec<u8>,
}

impl DNSCryptProvider {
    /// The provider's name.
    pub closed spec fn name(&self) -> Seq<char> {
        self.name@
    }

    /// The provider's public key.
    pub closed spec fn pk(&self) -> Seq<u8> {
        self.pk@
    }

    /// The provider with the name `name` and the public key `pk`.
    pub fn new(name: String, pk: Vec<u8>) -> (r: Self)
        ensures
            r.name() == name@,
            r.pk() == pk@,
    {
        DNSCryptProvider { name, pk }
    }
}

impl Default for DNSCryptProvider {
    /// A provider with an empty name and an empty key.
    fn default() -> (r: Self)
        ensures
            r.name() == Seq::<char>::empty(),
            r.pk() == Seq::<u8>::empty(),
    {
        DNSCryptProvider::new(String::new(), Vec::new())
    }
}

/// What a DNSCrypt stamp says.
pub struct DNSCryptStamp {
    /// The properties that were set, one bit each.
    pub informal_properties: u64,
    /// The addresses, in the order in which they were added.
    pub addrs: Seq<Seq<char>>,
    /// The provider's name.
    pub provider_name: Seq<char>,
    /// The provider's public key.
    pub provider_pk: Seq<u8>,
}

impl DNSCryptStamp {
    /// A stamp for a provider, without addresses or properties.
    pub open spec fn new(provider_name: Seq<char>, provider_pk: Seq<u8>) -> Self {
        DNSCryptStamp { informal_properties: 0, addrs: Seq::empty(), provider_name, provider_pk }
    }

    /// The stamp with one more address, behind the others.
    pub open spec fn with_addr(self, addr: Seq<char>) -> Self {
        DNSCryptStamp { addrs: self.addrs.push(addr), ..self }
    }

    /// The default port changes nothing. Any other port is written behind
    /// each address that the stamp holds so far, after a colon.
    pub open spec fn with_port(self, port: u16) -> Self {
        if port == DEFAULT_PORT {
            self
        } else {
            DNSCryptStamp {
                addrs: Seq::new(
                    self.addrs.len(),
                    |i: int| with_port_suffix(self.addrs[i], port),
                ),
                ..self
            }
        }
    }

    /// The stamp with one more property set.
    pub open spec fn with_informal_property(self, informal_property: InformalProperty) -> Self {
        DNSCryptStamp {
            informal_properties: properties_with(self.informal_properties, informal_property),
            ..self
        }
    }

    /// The first field, in the order of the wire, that is too long for its
    /// length byte; `None` when every field fits.
    pub open spec fn oversized(self) -> Option<EncodingError> {
        if !vlp_fits(utf8_strings(self.addrs)) {
            Some(EncodingError::ElementTooLong)
        } else if !lp_fits(self.provider_pk) || !lp_fits(encode_utf8(self.provider_name)) {
            Some(EncodingError::StringTooLong)
        } else {
            None
        }
    }

    /// The stamp on the wire: the protocol byte, the properties, the
    /// addresses, the provider's public key and the provider's name, the last
    /// two each behind a length byte of its own.
    pub open spec fn wire(self) -> Seq<u8> {
        stamp_header(PROTOCOL_DNSCRYPT, self.informal_properties) + vlp_wire(
            utf8_strings(self.addrs),
        ) + lp_wire(self.provider_pk) + lp_wire(encode_utf8(self.provider_name))
    }

    /// The stamp as text.
    pub open spec fn text(self) -> Seq<char> {
        stamp_text(ct_codecs_base64_url_safe_no_padding(self.wire()))
    }

    /// A stamp on which the default port was set is the stamp that it was
    /// before: the same bytes, the same text, the same error.
    pub proof fn lemma_default_port_unwritten(self)
        ensures
            self.with_port(DEFAULT_PORT) == self,
            self.with_port(DEFAULT_PORT).wire() == self.wire(),
            self.with_port(DEFAULT_PORT).text() == self.text(),
            self.with_port(DEFAULT_PORT).oversized() == self.oversized(),
    {
    }

    /// A port other than the default is written behind every address that
    /// the stamp holds, after a colon and in decimal digits, and each address
    /// is turned into bytes with its port. The addresses keep their number
    /// and their order.
    pub proof fn lemma_port_written(self, port: u16, i: int)
        requires
            port != DEFAULT_PORT,
            0 <= i < self.addrs.len(),
        ensures
            self.with_port(port).addrs.len() == self.addrs.len(),
            self.with_port(port).addrs[i] == self.addrs[i] + seq![':'] + decimal(port as nat),
            utf8_strings(self.with_port(port).addrs)[i] == encode_utf8(
                self.addrs[i] + seq![':'] + decimal(port as nat),
            ),
    {
    }

    /// The properties of a stamp do not depend on the order in which they
    /// were set, and setting two of them or-s the bits of both into the
    /// properties field.
    pub proof fn lemma_informal_properties_any_order(
        self,
        first: InformalProperty,
        second: InformalProperty,
    )
        ensures
            self.with_informal_property(first).with_informal_property(second)
                == self.with_informal_property(second).with_informal_property(first),
            self.with_informal_property(first).with_informal_property(second).informal_properties
                == self.informal_properties | (first.bit() | second.bit()),
    {
        lemma_properties_any_order(self.informal_properties, first, second);
    }
}

/// Builds the stamp of a DNSCrypt resolver.
#[derive(Debug)]
pub struct DNSCryptBuilder {
    informal_properties: u64,
    addrs: Vec<String>,
    provider: DNSCryptProvider,
}

impl View for DNSCryptBuilder {
    type V = DNSCryptStamp;

    closed spec fn view(&self) -> DNSCryptStamp {
        DNSCryptStamp {
            informal_properties: self.informal_properties,
            addrs: texts(self.addrs@),
            provider_name: self.provider.name(),
            provider_pk: self.provider.pk(),
        }
    }
}

impl DNSCryptBuilder {
    /// A stamp for the resolver of `provider`, without addresses.
    pub fn new(provider: DNSCryptProvider) -> (r: Self)
        ensures
            r@ == DNSCryptStamp::new(provider.name(), provider.pk()),
    {
        let r = DNSCryptBuilder { informal_properties: 0, addrs: Vec::new(), provider };
        assert(r@.addrs =~= Seq::empty());
        r
    }

    /// Adds an address, behind those added before.
    pub fn with_addr(self, addr: String) -> (r: Self)
        ensures
            r@ == self@.with_addr(addr@),
    {
        let mut r = self;
        r.addrs.push(addr);
        assert(r@.addrs =~= self@.addrs.push(addr@));
        r
    }

    /// Writes the port behind each address added so far. The default port,
    /// 443, is never written: setting it changes nothing.
    pub fn with_port(self, port: u16) -> (r: Self)
        ensures
            r@ == self@.with_port(port),
            port == DEFAULT_PORT ==> r@ == self@,
    {
        if port == DEFAULT_PORT {
            return self;
        }
        let mut r = self;
        let mut addrs: Vec<String> = Vec::new();
        let mut i: usize = 0;
        while i < r.addrs.len()
            invariant
                i <= r.addrs@.len(),
                addrs@.len() == i,
                r == self,
                forall|j: int|
                    0 <= j < i ==> (#[trigger] addrs@[j])@ == with_port_suffix(
                        r.addrs@[j]@,
                        port,
                    ),
            decreases r.addrs@.len() - i,
        {
            let mut addr: String = r.addrs[i].clone();
            push_port(&mut addr, port);
            addrs.push(addr);
            i += 1;
        }
        r.addrs = addrs;
        assert(r@.addrs =~= self@.with_port(port).addrs);
        r
    }

    /// The stamp on the wire, or the error for the first field that is too
    /// long.
    pub fn to_bytes(&self) -> (r: Result<Vec<u8>, EncodingError>)
        ensures
            match self@.oversized() {
                Some(e) => r == Err::<Vec<u8>, EncodingError>(e),
                None => r is Ok && r.unwrap()@ == self@.wire(),
            },
    {
        let mut bin: Vec<u8> = Vec::new();
        bin.push(PROTOCOL_DNSCRYPT);
        write_u64_le(&mut bin, self.informal_properties).unwrap();
        assert(bin@ =~= stamp_header(PROTOCOL_DNSCRYPT, self.informal_properties));

        let addrs_bin = strings_to_bytes(&self.addrs);
        vlp_encode(&mut bin, addrs_bin.as_slice())?;
        lp_encode(&mut bin, self.provider.pk.as_slice())?;
        lp_encode(&mut bin, self.provider.name.as_str().as_bytes())?;
        assert(bin@ =~= self@.wire());
        Ok(bin)
    }

    /// The stamp as text: `sdns://`, then the bytes of the stamp in base64
    /// with the URL-safe alphabet and no padding.
    ///
    /// The text must fit this machine's memory; `try_serialize` asks nothing.
    pub fn serialize(self) -> (r: Result<String, EncodingError>)
        requires
            self@.oversized() is None ==> base64_text_fits(self@.wire().len()),
        ensures
            match self@.oversized() {
                Some(e) => r == Err::<String, EncodingError>(e),
                None => r is Ok && r.unwrap()@ == self@.text(),
            },
            r is Ok ==> is_stamp_text(r.unwrap()@, self@.wire().len()),
    {
        let bin = self.to_bytes()?;
        let serialized = ct_codecs_encode(&bin).unwrap();
        proof {
            lemma_stamp_text_shape(serialized@, bin@.len());
        }
        Ok(stamp_uri(serialized.as_str()))
    }

    /// `serialize` for any stamp: `None` where the text would not fit this
    /// machine's memory.
    pub fn try_serialize(self) -> (r: Option<Result<String, EncodingError>>)
        ensures
            match self@.oversized() {
                Some(e) => r == Some(Err::<String, EncodingError>(e)),
                None => if base64_text_fits(self@.wire().len()) {
                    r is Some && r.unwrap() is Ok && r.unwrap().unwrap()@ == self@.text()
                } else {
                    r is None
                },
            },
            r is Some && r.unwrap() is Ok ==> is_stamp_text(
                r.unwrap().unwrap()@,
                self@.wire().len(),
            ),
    {
        match self.to_bytes() {
            Err(e) => Some(Err(e)),
            Ok(bin) => {
                if text_fits(bin.len()) {
                    let serialized = ct_codecs_encode(&bin).unwrap();
                    proof {
                        lemma_stamp_text_shape(serialized@, bin@.len());
                    }
                    Some(Ok(stamp_uri(serialized.as_str())))
                } else {
                    None
                }
            },
        }
    }
}

impl Default for DNSCryptBuilder {
    /// A stamp for a provider with an empty name and an empty key.
    fn default() -> (r: Self)
        ensures
            r@ == DNSCryptStamp::new(Seq::empty(), Seq::empty()),
    {
        DNSCryptBuilder::new(DNSCryptProvider::default())
    }
}

impl WithInformalProperty for DNSCryptBuilder {
    open spec fn informal_properties(&self) -> u64 {
        self@.informal_properties
    }

    fn with_informal_property(self, informal_property: InformalProperty) -> (r: Self)
        ensures
            r@ == self@.with_informal_property(informal_property),
    {
        let mut r = self;
        r.informal_properties |= u64::from(informal_property);
        r
    }
}

} // verus!
