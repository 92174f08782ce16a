//! Stamps for DNSCrypt relays.

use crate::render::{
    base64_text_fits, ct_codecs_base64_url_safe_no_padding, ct_codecs_encode, is_stamp_text,
    lemma_stamp_text_shape, stamp_text, stamp_uri, text_fits,
};
use crate::text::{strings_to_bytes, texts, utf8_strings};
use crate::wire::{vlp_encode, vlp_fits, vlp_wire, PROTOCOL_DNSCRYPT_RELAY};
use crate::EncodingError;
use vstd::prelude::*;

verus! {

/// What a DNSCrypt relay stamp says: the addresses of the relay.
pub struct DNSCryptRelayStamp {
    /// The addresses, in the order in which they were added.
    pub addrs: Seq<Seq<char>>,
}

impl DNSCryptRelayStamp {
    /// A stamp without addresses.
    pub open spec fn new() -> Self {
        DNSCryptRelayStamp { addrs: Seq::empty() }
    }

    /// The stamp with one more address, behind the others.
    pub open spec fn with_addr(self, addr: Seq<char>) -> Self {
        DNSCryptRelayStamp { addrs: self.addrs.push(addr) }
    }

    /// The error for an address that is too long for its length byte; `None`
    /// when every address fits.
    pub open spec fn oversized(self) -> Option<EncodingError> {
        if !vlp_fits(utf8_strings(self.addrs)) {
            Some(EncodingError::ElementTooLong)
        } else {
            None
        }
    }

    /// The stamp on the wire: the protocol byte and the addresses. A relay
    /// stamp has no properties field.
    pub open spec fn wire(self) -> Seq<u8> {
        seq![PROTOCOL_DNSCRYPT_RELAY] + vlp_wire(utf8_strings(self.addrs))
    }

    /// The stamp as text.
    pub open spec fn text(self) -> Seq<char> {
        stamp_text(ct_codecs_base64_url_safe_no_padding(self.wire()))
    }
}

/// Builds the stamp of a DNSCrypt relay.
#[derive(Debug)]
pub struct DNSCryptRelayBuilder {
    addrs: Vec<String>,
}

impl View for DNSCryptRelayBuilder {
    type V = DNSCryptRelayStamp;

    closed spec fn view(&self) -> DNSCryptRelayStamp {
        DNSCryptRelayStamp { addrs: texts(self.addrs@) }
    }
}

impl DNSCryptRelayBuilder {
    /// A stamp without addresses.
    pub fn new() -> (r: Self)
        ensures
            r@ == DNSCryptRelayStamp::new(),
    {
        let r = DNSCryptRelayBuilder { addrs: Vec::new() };
        assert(r@.addrs =~= Seq::empty());
        r
    }

    /// Adds an address, behind those added before.
    pub fn with_addr(self, addr: String) -> (r: Self)
        ensures
            r@ == self@.with_addr(addr@),
    {
        let mut r = self;
        r.addrs.push(addr);
        assert(r@.addrs =~= self@.addrs.push(addr@));
        r
    }

    /// The stamp on the wire, or the error for an address that is too long.
    pub fn to_bytes(&self) -> (r: Result<Vec<u8>, EncodingError>)
        ensures
            match self@.oversized() {
                Some(e) => r == Err::<Vec<u8>, EncodingError>(e),
                None => r is Ok && r.unwrap()@ == self@.wire(),
            },
    {
        let mut bin: Vec<u8> = Vec::new();
        bin.push(PROTOCOL_DNSCRYPT_RELAY);
        let addrs_bin = strings_to_bytes(&self.addrs);
        vlp_encode(&mut bin, addrs_bin.as_slice())?;
        Ok(bin)
    }

    /// The stamp as text: `sdns://`, then the bytes of the stamp in base64
    /// with the URL-safe alphabet and no padding.
    ///
    /// The text must fit this machine's memory; `try_serialize` asks nothing.
    pub fn serialize(self) -> (r: Result<String, EncodingError>)
        requires
            self@.oversized() is None ==> base64_text_fits(self@.wire().len()),
        ensures
            match self@.oversized() {
                Some(e) => r == Err::<String, EncodingError>(e),
                None => r is Ok && r.unwrap()@ == self@.text(),
            },
            r is Ok ==> is_stamp_text(r.unwrap()@, self@.wire().len()),
    {
        let bin = self.to_bytes()?;
        let serialized = ct_codecs_encode(&bin).unwrap();
        proof {
            lemma_stamp_text_shape(serialized@, bin@.len());
        }
        Ok(stamp_uri(serialized.as_str()))
    }

    /// `serialize` for any stamp: `None` where the text would not fit this
    /// machine's memory.
    pub fn try_serialize(self) -> (r: Option<Result<String, EncodingError>>)
        ensures
            match self@.oversized() {
                Some(e) => r == Some(Err::<String, EncodingError>(e)),
                None => if base64_text_fits(self@.wire().len()) {
                    r is Some && r.unwrap() is Ok && r.unwrap().unwrap()@ == self@.text()
                } else {
                    r is None
                },
            },
            r is Some && r.unwrap() is Ok ==> is_stamp_text(
                r.unwrap().unwrap()@,
                self@.wire().len(),
            ),
    {
        match self.to_bytes() {
            Err(e) => Some(Err(e)),
            Ok(bin) => {
                if text_fits(bin.len()) {
                    let serialized = ct_codecs_encode(&bin).unwrap();
                    proof {
                        lemma_stamp_text_shape(serialized@, bin@.len());
                    }
                    Some(Ok(stamp_uri(serialized.as_str())))
                } else {
                    None
                }
            },
        }
    }
}

impl Default for DNSCryptRelayBuilder {
    /// A stamp without addresses.
    fn default() -> (r: Self)
        ensures
            r@ == DNSCryptRelayStamp::new(),
    {
        DNSCryptRelayBuilder::new()
    }
}

} // verus!
