//! <https://iplocate.io> lookup provider

use crate::lookup::LookupProvider;
use crate::response::{resolved_ip, Coordinate, IpAddress, LookupResponse};
use vstd::prelude::*;

verus! {

/// Threat part of an iplocate.io reply.
pub struct Threat {
    pub is_proxy: Option<bool>,
}

/// The fields of an iplocate.io reply that the lookup record uses.
pub struct IpLocateIoResponse {
    /// The reported address; `None` when it did not parse.
    pub ip: Option<IpAddress>,
    pub country: Option<String>,
    pub country_code: Option<String>,
    pub city: Option<String>,
    pub continent: Option<String>,
    pub latitude: Option<Coordinate>,
    pub longitude: Option<Coordinate>,
    pub time_zone: Option<String>,
    pub postal_code: Option<String>,
    pub subdivision: Option<String>,
    pub org: Option<String>,
    pub asn: Option<String>,
    pub threat: Option<Threat>,
}

impl IpLocateIoResponse {
    /// The lookup record for this reply.
    pub open spec fn spec_response(self) -> LookupResponse {
        LookupResponse {
            ip: resolved_ip(self.ip),
            continent: self.continent,
            country: self.country,
            country_code: self.country_code,
            region: self.subdivision,
            postal_code: self.postal_code,
            city: self.city,
            latitude: self.latitude,
            longitude: self.longitude,
            time_zone: self.time_zone,
            asn: self.asn,
            asn_org: self.org,
            hostname: None,
            is_proxy: match self.threat {
                Some(t) => t.is_proxy,
                None => None,
            },
            provider: LookupProvider::IpLocateIo,
        }
    }

    /// Maps the reply into the canonical lookup record.
    pub fn into_response(self) -> (r: LookupResponse)
        ensures
            r == self.spec_response(),
    {
        let mut response = LookupResponse::new(
            IpAddress::or_unspecified(self.ip),
            LookupProvider::IpLocateIo,
        );
        response.country = self.country;
        response.continent = self.continent;
        response.country_code = self.country_code;
        response.region = self.subdivision;
        response.postal_code = self.postal_code;
        response.city = self.city;
        response.latitude = self.latitude;
        response.longitude = self.longitude;
        response.time_zone = self.time_zone;
        response.asn_org = self.org;
        response.asn = self.asn;
        if let Some(threat) = self.threat {
            response.is_proxy = threat.is_proxy;
        }
        response
    }
}

/// The URL of the iplocate.io service, for the caller or for a target
/// address, with the API key as a query parameter when there is one.
pub open spec fn iplocateio_endpoint(key: Option<Seq<char>>, target: Option<Seq<char>>) -> Seq<char> {
    "https://www.iplocate.io/api/lookup/"@ + match target {
        Some(t) => t + "/"@,
        None => Seq::empty(),
    } + "json"@ + match key {
        Some(k) => "?apikey="@ + k,
        None => Seq::empty(),
    }
}

/// IpLocateIo lookup provider
pub struct IpLocateIo;

impl IpLocateIo {
    /// The URL to request, given the API key and the text of the target
    /// address, each if any.
    pub fn get_endpoint(&self, key: Option<&str>, target: Option<&str>) -> (r: String)
        ensures
            r@ == iplocateio_endpoint(crate::lookup::opt_str_view(key), crate::lookup::opt_str_view(target)),
    {
        let base = String::from_str("https://www.iplocate.io/api/lookup/");
        let with_target = match target {
            Some(t) => base.concat(t).concat("/"),
            None => base,
        };
        let path = with_target.concat("json");
        match key {
            Some(k) => path.concat("?apikey=").concat(k),
            None => path,
        }
    }
}

impl IpLocateIo {
    /// The provider this adapter stands for.
    pub fn get_type(&self) -> (r: LookupProvider)
        ensures
            r == LookupProvider::IpLocateIo,
    {
        LookupProvider::IpLocateIo
    }

    /// iplocate.io can look up an address other than the caller's.
    pub fn supports_target_lookup(&self) -> (r: bool)
        ensures
            r,
    {
        true
    }
}

} // verus!
