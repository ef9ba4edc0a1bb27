//! <https://ipdata.co> lookup provider

use crate::lookup::LookupProvider;
use crate::response::{resolved_ip, Coordinate, IpAddress, LookupResponse};
use vstd::prelude::*;

verus! {

/// Autonomous-system part of an ipdata.co reply.
pub struct Asn {
    pub asn: Option<String>,
    pub name: Option<String>,
}

/// Time-zone part of an ipdata.co reply.
pub struct Timezone {
    pub name: Option<String>,
}

/// Threat part of an ipdata.co reply.
pub struct Threat {
    pub is_proxy: Option<bool>,
}

/// The fields of an ipdata.co reply that the lookup record uses.
pub struct IpDataResponse {
    /// The reported address; `None` when it did not parse.
    pub ip: Option<IpAddress>,
    pub city: Option<String>,
    pub region: Option<String>,
    pub country_name: Option<String>,
    pub country_code: Option<String>,
    pub continent_name: Option<String>,
    pub latitude: Option<Coordinate>,
    pub longitude: Option<Coordinate>,
    pub postal: Option<String>,
    pub asn: Option<Asn>,
    pub time_zone: Option<Timezone>,
    pub threat: Option<Threat>,
}

impl IpDataResponse {
    /// The lookup record for this reply.
    pub open spec fn spec_response(self) -> LookupResponse {
        LookupResponse {
            ip: resolved_ip(self.ip),
            continent: self.continent_name,
            country: self.country_name,
            country_code: self.country_code,
            region: self.region,
            postal_code: self.postal,
            city: self.city,
            latitude: self.latitude,
            longitude: self.longitude,
            time_zone: match self.time_zone {
                Some(tz) => tz.name,
                None => None,
            },
            asn: match self.asn {
                Some(a) => a.asn,
                None => None,
            },
            asn_org: match self.asn {
                Some(a) => a.name,
                None => None,
            },
            hostname: None,
            is_proxy: match self.threat {
                Some(t) => t.is_proxy,
                None => None,
            },
            provider: LookupProvider::IpData(None),
        }
    }

    /// Maps the reply into the canonical lookup record.
    pub fn into_response(self) -> (r: LookupResponse)
        ensures
            r == self.spec_response(),
    {
        let mut response = LookupResponse::new(
            IpAddress::or_unspecified(self.ip),
            LookupProvider::IpData(None),
        );
        response.continent = self.continent_name;
        response.country = self.country_name;
        response.country_code = self.country_code;
        response.region = self.region;
        response.postal_code = self.postal;
        response.city = self.city;
        response.latitude = self.latitude;
        response.longitude = self.longitude;
        if let Some(time_zone) = self.time_zone {
            response.time_zone = time_zone.name;
        }
        if let Some(asn) = self.asn {
            response.asn_org = asn.name;
            response.asn = asn.asn;
        }
        if let Some(threat) = self.threat {
            response.is_proxy = threat.is_proxy;
        }
        response
    }
}

/// The URL of the ipdata.co service for an API key; it answers for the caller only.
pub open spec fn ipdata_endpoint(key: Option<Seq<char>>) -> Seq<char> {
    "https://api.ipdata.co/?api-key="@ + match key {
        Some(k) => k,
        None => Seq::empty(),
    }
}

/// ipdata.co lookup provider
pub struct IpData {
    pub key: Option<String>,
}

impl IpData {
    /// Create a new IpData instance with an API key
    pub fn new(key: Option<String>) -> (r: IpData)
        ensures
            r.key == key,
    {
        IpData { key }
    }

    /// The URL to request.
    pub fn endpoint(&self) -> (r: String)
        ensures
            r@ == ipdata_endpoint(crate::lookup::text_view(self.key)),
    {
        let base = String::from_str("https://api.ipdata.co/?api-key=");
        match &self.key {
            Some(k) => base.concat(k.as_str()),
            None => base,
        }
    }
}

impl IpData {
    /// The provider this adapter stands for, key included.
    pub fn get_type(&self) -> (r: LookupProvider)
        ensures
            r == LookupProvider::IpData(self.key),
    {
        LookupProvider::IpData(crate::response::copy_text(&self.key))
    }

    /// The lookup record for a reply to this adapter's request: the reply's
    /// record, attributed to this adapter's provider, key included.
    pub fn parse_reply(&self, reply: IpDataResponse) -> (r: LookupResponse)
        ensures
            r == (LookupResponse { provider: LookupProvider::IpData(self.key), ..reply.spec_response() }),
    {
        let mut response = reply.into_response();
        response.provider = self.get_type();
        response
    }
}

} // verus!
