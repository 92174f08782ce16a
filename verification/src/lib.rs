//! DNS stamps: `sdns://` URIs that hold what a client needs to reach a secure
//! resolver.

use vstd::prelude::*;

mod dnscrypt;
mod dnscrypt_relay;
mod doh;
mod odoh;
mod render;
mod text;
mod wire;

pub use crate::dnscrypt::{DNSCryptBuilder, DNSCryptProvider, DNSCryptStamp};
pub use crate::dnscrypt_relay::{DNSCryptRelayBuilder, DNSCryptRelayStamp};
pub use crate::doh::{DoHBuilder, DoHStamp};
pub use crate::odoh::{ODoHRelayBuilder, ODoHRelayStamp, ODoHTargetBuilder, ODoHTargetStamp};
pub use crate::render::{
    base64_text_fits, base64_text_len, base64_url_safe_no_pad,
    ct_codecs_base64_url_safe_no_padding, is_base64_url_char, is_base64_url_text, is_stamp_text,
    lemma_stamp_text_shape, scheme, stamp_text, stamp_uri,
};
pub use crate::text::{decimal, digit, host_text, utf8_strings, with_port_suffix, DEFAULT_PORT};
pub use crate::wire::{
    byte_strings, lemma_vlp_round_trip, lemma_vlp_strings_round_trip, lp_encode, lp_fits, lp_wire, optional_vlp_wire,
    stamp_header, vlp_continued, vlp_decode, vlp_decode_strings, vlp_encode, vlp_fits, vlp_wire,
    LP_MAX_LEN, PROTOCOL_DNSCRYPT, PROTOCOL_DNSCRYPT_RELAY, PROTOCOL_DOH, PROTOCOL_ODOH_RELAY,
    PROTOCOL_ODOH_TARGET, VLP_LEN_LIMIT,
};

verus! {

/// Why a stamp cannot be encoded: some field is too long for its length byte.
#[derive(Clone, Copy, Debug, PartialEq, Eq, Structural)]
pub enum EncodingError {
    /// A length-prefixed string is longer than 255 bytes.
    StringTooLong,
    /// An element of a list is longer than 127 bytes.
    ElementTooLong,
}

/// A claim that a resolver makes about itself. Nothing verifies the claim.
#[derive(Clone, Copy, Debug, PartialEq, Eq, Structural)]
pub enum InformalProperty {
    /// The resolver validates DNSSEC.
    DNSSEC,
    /// The resolver keeps no logs.
    NoLogs,
    /// The resolver does not filter its answers.
    NoFilters,
}

impl InformalProperty {
    /// The bit that stands for the property in a stamp's properties field.
    pub open spec fn bit(self) -> u64 {
        match self {
            InformalProperty::DNSSEC => 0x01,
            InformalProperty::NoLogs => 0x02,
            InformalProperty::NoFilters => 0x04,
        }
    }
}

impl From<InformalProperty> for u64 {
    fn from(informal_property: InformalProperty) -> (bits: u64) {
        match informal_property {
            InformalProperty::DNSSEC => 0x01,
            InformalProperty::NoLogs => 0x02,
            InformalProperty::NoFilters => 0x04,
        }
    }
}

impl vstd::std_specs::convert::FromSpecImpl<InformalProperty> for u64 {
    open spec fn obeys_from_spec() -> bool {
        true
    }

    open spec fn from_spec(v: InformalProperty) -> u64 {
        v.bit()
    }
}

/// The properties field after one more property was set in it.
pub open spec fn properties_with(
    informal_properties: u64,
    informal_property: InformalProperty,
) -> u64 {
    informal_properties | informal_property.bit()
}

/// Two properties set one after the other give the properties field that
/// was there before, or-ed bit by bit with the bits of both, in whichever
/// order they are set.
pub proof fn lemma_properties_any_order(
    informal_properties: u64,
    first: InformalProperty,
    second: InformalProperty,
)
    ensures
        properties_with(properties_with(informal_properties, first), second) == informal_properties
            | (first.bit() | second.bit()),
        properties_with(properties_with(informal_properties, first), second) == properties_with(
            properties_with(informal_properties, second),
            first,
        ),
{
    let a = first.bit();
    let b = second.bit();
    assert((informal_properties | a) | b == informal_properties | (a | b)) by (bit_vector);
    assert((informal_properties | a) | b == (informal_properties | b) | a) by (bit_vector);
}

/// A stamp builder whose stamp holds a properties field.
pub trait WithInformalProperty {
    /// The properties field of the stamp as it is now.
    spec fn informal_properties(&self) -> u64;

    /// Sets one property in the properties field; those set before stay.
    fn with_informal_property(self, informal_property: InformalProperty) -> (r: Self)
        ensures
            r.informal_properties() == properties_with(
                self.informal_properties(),
                informal_property,
            ),
    ;
}

} // verus!
