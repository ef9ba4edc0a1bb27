//! <https://ifconfig.co> lookup provider

use crate::lookup::LookupProvider;
use crate::response::{resolved_ip, Coordinate, IpAddress, LookupResponse};
use vstd::prelude::*;

verus! {

/// The fields of an ifconfig.co reply that the lookup record uses.
pub struct IfconfigResponse {
    /// The reported address; `None` when it did not parse.
    pub ip: Option<IpAddress>,
    pub country: Option<String>,
    pub country_iso: Option<String>,
    pub region_name: Option<String>,
    pub zip_code: Option<String>,
    pub city: Option<String>,
    pub latitude: Option<Coordinate>,
    pub longitude: Option<Coordinate>,
    pub time_zone: Option<String>,
    pub asn: Option<String>,
    pub asn_org: Option<String>,
    pub hostname: Option<String>,
}

impl IfconfigResponse {
    /// The lookup record for this reply.
    pub open spec fn spec_response(self) -> LookupResponse {
        LookupResponse {
            ip: resolved_ip(self.ip),
            continent: None,
            country: self.country,
            country_code: self.country_iso,
            region: self.region_name,
            postal_code: self.zip_code,
            city: self.city,
            latitude: self.latitude,
            longitude: self.longitude,
            time_zone: self.time_zone,
            asn: self.asn,
            asn_org: self.asn_org,
            hostname: self.hostname,
            is_proxy: None,
            provider: LookupProvider::IfConfig,
        }
    }

    /// Maps the reply into the canonical lookup record.
    pub fn convert(self) -> (r: LookupResponse)
        ensures
            r == self.spec_response(),
    {
        let mut response = LookupResponse::new(
            IpAddress::or_unspecified(self.ip),
            LookupProvider::IfConfig,
        );
        response.country = self.country;
        response.country_code = self.country_iso;
        response.region = self.region_name;
        response.postal_code = self.zip_code;
        response.city = self.city;
        response.latitude = self.latitude;
        response.longitude = self.longitude;
        response.time_zone = self.time_zone;
        response.asn = self.asn;
        response.asn_org = self.asn_org;
        response.hostname = self.hostname;
        response
    }
}

/// The address of the ifconfig.co service; it answers for the caller only.
pub open spec fn ifconfig_endpoint() -> Seq<char> {
    "http://ifconfig.co/json"@
}

/// ifconfig.co lookup provider
pub struct Ifconfig;

impl Ifconfig {
    /// The URL to request.
    pub fn endpoint(&self) -> (r: String)
        ensures
            r@ == ifconfig_endpoint(),
    {
        String::from_str("http://ifconfig.co/json")
    }
}

impl Ifconfig {
    /// The provider this adapter stands for.
    pub fn get_type(&self) -> (r: LookupProvider)
        ensures
            r == LookupProvider::IfConfig,
    {
        LookupProvider::IfConfig
    }
}

} // verus!
