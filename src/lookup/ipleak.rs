//! <https://ipleak.net> lookup provider

use crate::lookup::LookupProvider;
use crate::response::{resolved_ip, Coordinate, IpAddress, LookupResponse};
use crate::text::{decimal_of, decimal_text};
use vstd::prelude::*;

verus! {

/// The fields of an ipleak.net reply that the lookup record uses.
pub struct IpLeakResponse {
    /// The reported address; `None` when it did not parse.
    pub ip: Option<IpAddress>,
    pub city_name: Option<String>,
    pub region_name: Option<String>,
    pub country_name: Option<String>,
    pub country_code: Option<String>,
    pub continent_name: Option<String>,
    pub postal_code: Option<String>,
    pub latitude: Option<Coordinate>,
    pub longitude: Option<Coordinate>,
    pub time_zone: Option<String>,
    pub isp_name: Option<String>,
    pub as_number: Option<i64>,
    pub reverse: Option<String>,
}

impl IpLeakResponse {
    /// The lookup record for this reply, except for the autonomous-system number.
    pub open spec fn spec_response(self) -> LookupResponse {
        LookupResponse {
            ip: resolved_ip(self.ip),
            continent: self.continent_name,
            country: self.country_name,
            country_code: self.country_code,
            region: self.region_name,
            postal_code: self.postal_code,
            city: self.city_name,
            latitude: self.latitude,
            longitude: self.longitude,
            time_zone: self.time_zone,
            asn: None,
            asn_org: self.isp_name,
            hostname: self.reverse,
            is_proxy: None,
            provider: LookupProvider::IpLeak,
        }
    }

    /// Maps the reply into the canonical lookup record; the autonomous-system
    /// number is written in decimal.
    pub fn into_response(self) -> (r: LookupResponse)
        ensures
            (LookupResponse { asn: None, ..r }) == self.spec_response(),
            self.as_number is None ==> r.asn is None,
            self.as_number matches Some(n) ==> (r.asn matches Some(a) && a@ == decimal_of(n as int)),
    {
        let mut response = LookupResponse::new(
            IpAddress::or_unspecified(self.ip),
            LookupProvider::IpLeak,
        );
        response.country = self.country_name;
        response.country_code = self.country_code;
        response.region = self.region_name;
        response.postal_code = self.postal_code;
        response.continent = self.continent_name;
        response.city = self.city_name;
        response.latitude = self.latitude;
        response.longitude = self.longitude;
        response.time_zone = self.time_zone;
        response.asn_org = self.isp_name;
        if let Some(asn) = self.as_number {
            response.asn = Some(decimal_text(asn));
        }
        response.hostname = self.reverse;
        response
    }
}

/// The URL of the ipleak.net service, for the caller or for a target address.
pub open spec fn ipleak_endpoint(target: Option<Seq<char>>) -> Seq<char> {
    "https://ipleak.net/json/"@ + match target {
        Some(t) => t,
        None => Seq::empty(),
    }
}

/// ipleak.net lookup provider
pub struct IpLeak;

impl IpLeak {
    /// The URL to request, given the text of the target address if any.
    pub fn endpoint(&self, target: Option<&str>) -> (r: String)
        ensures
            r@ == ipleak_endpoint(
                match target {
                    Some(t) => Some(t@),
                    None => None,
                },
            ),
    {
        let base = String::from_str("https://ipleak.net/json/");
        match target {
            Some(t) => base.concat(t),
            None => base,
        }
    }
}

impl IpLeak {
    /// The provider this adapter stands for.
    pub fn get_type(&self) -> (r: LookupProvider)
        ensures
            r == LookupProvider::IpLeak,
    {
        LookupProvider::IpLeak
    }

    /// ipleak.net can look up an address other than the caller's.
    pub fn supports_target_lookup(&self) -> (r: bool)
        ensures
            r,
    {
        true
    }
}

} // verus!
