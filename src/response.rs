//! The canonical lookup record that every provider reply is normalised into.

use crate::lookup::LookupProvider;
use vstd::prelude::*;

verus! {

/// An IP address: IPv4 as its 32 bits, IPv6 as its 128 bits (network order).
#[derive(Debug, Clone, Copy, PartialEq, Eq, Structural)]
pub enum IpAddress {
    V4(u32),
    V6(u128),
}

impl IpAddress {
    /// The unspecified IPv4 address `0.0.0.0`, used where a provider reports
    /// an address that does not parse.
    pub fn unspecified() -> (r: IpAddress)
        ensures
            r == IpAddress::V4(0),
    {
        IpAddress::V4(0)
    }

    /// The reported address if it parsed, else the unspecified address.
    pub fn or_unspecified(parsed: Option<IpAddress>) -> (r: IpAddress)
        ensures
            r == resolved_ip(parsed),
    {
        match parsed {
            Some(ip) => ip,
            None => IpAddress::unspecified(),
        }
    }
}

/// The address a record carries for a reported address: the address itself,
/// or `0.0.0.0` when it did not parse.
pub open spec fn resolved_ip(parsed: Option<IpAddress>) -> IpAddress {
    match parsed {
        Some(ip) => ip,
        None => IpAddress::V4(0),
    }
}

/// A latitude or longitude in decimal degrees, held as the bits of its IEEE-754
/// double so that it is carried and stored without loss.
#[derive(Debug, Clone, Copy, PartialEq, Eq, Structural)]
pub struct Coordinate {
    pub bits: u64,
}

/// A copy of an optional text that is known equal to it.
pub fn copy_text(t: &Option<String>) -> (r: Option<String>)
    ensures
        r == *t,
{
    match t {
        Some(s) => Some(s.clone()),
        None => None,
    }
}

/// Lookup response containing information like IP, country, city, hostname etc.
#[derive(Debug, Clone, PartialEq)]
pub struct LookupResponse {
    /// Public IP address.
    pub ip: IpAddress,
    pub continent: Option<String>,
    pub country: Option<String>,
    pub country_code: Option<String>,
    pub region: Option<String>,
    pub postal_code: Option<String>,
    pub city: Option<String>,
    pub latitude: Option<Coordinate>,
    pub longitude: Option<Coordinate>,
    pub time_zone: Option<String>,
    /// Autonomous System Number.
    pub asn: Option<String>,
    /// Autonomous System Organization.
    pub asn_org: Option<String>,
    /// Hostname of the IP address.
    pub hostname: Option<String>,
    /// Is the IP a proxy or vpn?
    pub is_proxy: Option<bool>,
    /// Provider that was used for the lookup.
    pub provider: LookupProvider,
}

impl LookupResponse {
    /// The record that holds the address and the provider, every other field unknown.
    pub open spec fn bare(ip: IpAddress, provider: LookupProvider) -> LookupResponse {
        LookupResponse {
            ip,
            continent: None,
            country: None,
            country_code: None,
            region: None,
            postal_code: None,
            city: None,
            latitude: None,
            longitude: None,
            time_zone: None,
            asn: None,
            asn_org: None,
            hostname: None,
            is_proxy: None,
            provider,
        }
    }

    /// Create a new lookup response.
    pub fn new(ip: IpAddress, provider: LookupProvider) -> (r: LookupResponse)
        ensures
            r == LookupResponse::bare(ip, provider),
    {
        LookupResponse {
            ip,
            continent: None,
            country: None,
            country_code: None,
            region: None,
            postal_code: None,
            city: None,
            latitude: None,
            longitude: None,
            time_zone: None,
            asn: None,
            asn_org: None,
            hostname: None,
            is_proxy: None,
            provider,
        }
    }

    /// A field-by-field copy, known equal to the record it copies.
    pub fn duplicate(&self) -> (r: LookupResponse)
        ensures
            r == *self,
    {
        LookupResponse {
            ip: self.ip,
            continent: copy_text(&self.continent),
            country: copy_text(&self.country),
            country_code: copy_text(&self.country_code),
            region: copy_text(&self.region),
            postal_code: copy_text(&self.postal_code),
            city: copy_text(&self.city),
            latitude: self.latitude,
            longitude: self.longitude,
            time_zone: copy_text(&self.time_zone),
            asn: copy_text(&self.asn),
            asn_org: copy_text(&self.asn_org),
            hostname: copy_text(&self.hostname),
            is_proxy: self.is_proxy,
            provider: self.provider.duplicate(),
        }
    }
}

} // verus!
