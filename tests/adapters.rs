use public_ip_address::lookup::ifconfig::IfconfigResponse;
use public_ip_address::lookup::ipdata::{Asn, IpData, IpDataResponse, Threat, Timezone};
use public_ip_address::lookup::ipleak::IpLeakResponse;
use public_ip_address::lookup::iplocateio::{IpLocateIo, IpLocateIoResponse};
use public_ip_address::{Coordinate, IpAddress, LookupProvider};
use serde_json::Value;

fn text(v: &Value, key: &str) -> Option<String> {
    v.get(key).and_then(Value::as_str).map(str::to_string)
}

fn coordinate(v: &Value, key: &str) -> Option<Coordinate> {
    v.get(key).and_then(Value::as_f64).map(|f| Coordinate { bits: f.to_bits() })
}

const ONE_ONE_ONE_ONE: u32 = 0x0101_0101;

#[test]
fn ifconfig_test_parse() {
    let input = "{\n \"ip\": \"1.1.1.1\",\n \"ip_decimal\": 16843009\n}";
    let v: Value = serde_json::from_str(input).unwrap();
    assert_eq!(text(&v, "ip").unwrap(), "1.1.1.1", "IP address not matching");
    let reply = IfconfigResponse {
        ip: Some(IpAddress::V4(ONE_ONE_ONE_ONE)),
        country: text(&v, "country"),
        country_iso: text(&v, "country_iso"),
        region_name: text(&v, "region_name"),
        zip_code: text(&v, "zip_code"),
        city: text(&v, "city"),
        latitude: coordinate(&v, "latitude"),
        longitude: coordinate(&v, "longitude"),
        time_zone: text(&v, "time_zone"),
        asn: text(&v, "asn"),
        asn_org: text(&v, "asn_org"),
        hostname: text(&v, "hostname"),
    };
    let lookup = reply.convert();
    assert_eq!(lookup.ip, IpAddress::V4(ONE_ONE_ONE_ONE), "IP address not matching");
    assert_eq!(lookup.provider, LookupProvider::IfConfig);
    assert_eq!(lookup.country, None);
}

const IPDATA_INPUT: &str = r#"
{
  "ip": "1.1.1.1",
  "is_eu": false,
  "city": "Syracuse",
  "region": "New York",
  "region_code": "NY",
  "country_name": "United States",
  "country_code": "US",
  "continent_name": "North America",
  "latitude": 43.0483,
  "longitude": -76.1468,
  "postal": "13261",
  "asn": { "asn": "AS15169", "name": "Google LLC" },
  "time_zone": { "name": "America/Los_Angeles", "abbr": "PDT" },
  "threat": { "is_tor": false, "is_proxy": false }
}
"#;

#[test]
fn ipdata_test_parse() {
    let v: Value = serde_json::from_str(IPDATA_INPUT).unwrap();
    assert_eq!(text(&v, "ip").unwrap(), "1.1.1.1", "IP address not matching");
    let asn = v.get("asn").unwrap();
    let reply = IpDataResponse {
        ip: Some(IpAddress::V4(ONE_ONE_ONE_ONE)),
        city: text(&v, "city"),
        region: text(&v, "region"),
        country_name: text(&v, "country_name"),
        country_code: text(&v, "country_code"),
        continent_name: text(&v, "continent_name"),
        latitude: coordinate(&v, "latitude"),
        longitude: coordinate(&v, "longitude"),
        postal: text(&v, "postal"),
        asn: Some(Asn { asn: text(asn, "asn"), name: text(asn, "name") }),
        time_zone: Some(Timezone { name: text(v.get("time_zone").unwrap(), "name") }),
        threat: Some(Threat { is_proxy: v["threat"]["is_proxy"].as_bool() }),
    };
    let lookup = reply.into_response();
    assert_eq!(lookup.ip, IpAddress::V4(ONE_ONE_ONE_ONE), "IP address not matching");
    assert_eq!(lookup.country.as_deref(), Some("United States"));
    assert_eq!(lookup.continent.as_deref(), Some("North America"));
    assert_eq!(lookup.postal_code.as_deref(), Some("13261"));
    assert_eq!(lookup.asn.as_deref(), Some("AS15169"));
    assert_eq!(lookup.asn_org.as_deref(), Some("Google LLC"));
    assert_eq!(lookup.time_zone.as_deref(), Some("America/Los_Angeles"));
    assert_eq!(lookup.is_proxy, Some(false));
    assert_eq!(lookup.latitude, Some(Coordinate { bits: 43.0483f64.to_bits() }));
    assert_eq!(lookup.provider, LookupProvider::IpData(None));
}

#[test]
fn unparsed_address_becomes_unspecified() {
    let reply = IpDataResponse {
        ip: None,
        city: None,
        region: None,
        country_name: None,
        country_code: None,
        continent_name: None,
        latitude: None,
        longitude: None,
        postal: None,
        asn: None,
        time_zone: None,
        threat: None,
    };
    let lookup = reply.into_response();
    assert_eq!(lookup.ip, IpAddress::V4(0));
    assert_eq!(lookup.asn, None);
    assert_eq!(lookup.time_zone, None);
}

#[test]
fn ipdata_endpoint_and_type() {
    let service = IpData::new(Some("abc".to_string()));
    assert_eq!(service.key.as_deref(), Some("abc"));
    assert_eq!(service.endpoint(), "https://api.ipdata.co/?api-key=abc");
    assert_eq!(service.get_type(), LookupProvider::IpData(Some("abc".to_string())));
}

#[test]
fn ipdata_reply_is_attributed_to_the_keyed_provider() {
    let reply = IpDataResponse {
        ip: Some(IpAddress::V4(ONE_ONE_ONE_ONE)),
        city: Some("Syracuse".to_string()),
        region: None,
        country_name: None,
        country_code: None,
        continent_name: None,
        latitude: None,
        longitude: None,
        postal: None,
        asn: None,
        time_zone: None,
        threat: None,
    };
    let lookup = IpData::new(Some("abc".to_string())).parse_reply(reply);
    assert_eq!(lookup.provider, LookupProvider::IpData(Some("abc".to_string())));
    assert_eq!(lookup.city.as_deref(), Some("Syracuse"));
    assert_eq!(lookup.ip, IpAddress::V4(ONE_ONE_ONE_ONE));
}

#[test]
fn iplocateio_endpoint_with_key() {
    let service = IpLocateIo;
    assert_eq!(
        service.get_endpoint(Some("abc"), None),
        "https://www.iplocate.io/api/lookup/json?apikey=abc"
    );
    assert_eq!(
        service.get_endpoint(Some("abc"), Some("8.8.8.8")),
        "https://www.iplocate.io/api/lookup/8.8.8.8/json?apikey=abc"
    );
    assert_eq!(
        service.get_endpoint(None, Some("8.8.8.8")),
        "https://www.iplocate.io/api/lookup/8.8.8.8/json"
    );
    assert_eq!(service.get_endpoint(None, None), "https://www.iplocate.io/api/lookup/json");
    assert_eq!(service.get_type(), LookupProvider::IpLocateIo);
}

const IPLEAK_INPUT: &str = r#"
{
    "as_number": 15169,
    "isp_name": "GOOGLE",
    "country_code": "US",
    "country_name": "United States",
    "region_name": null,
    "continent_name": "North America",
    "city_name": null,
    "postal_code": null,
    "latitude": 37.751,
    "longitude": -97.822,
    "time_zone": "America\/Chicago",
    "ip": "8.8.8.8",
    "reverse": ""
}
"#;

#[test]
fn ipleak_test_parse() {
    let v: Value = serde_json::from_str(IPLEAK_INPUT).unwrap();
    assert_eq!(text(&v, "ip").unwrap(), "8.8.8.8", "IP address not matching");
    let eight = IpAddress::V4(0x0808_0808);
    let reply = IpLeakResponse {
        ip: Some(eight),
        city_name: text(&v, "city_name"),
        region_name: text(&v, "region_name"),
        country_name: text(&v, "country_name"),
        country_code: text(&v, "country_code"),
        continent_name: text(&v, "continent_name"),
        postal_code: text(&v, "postal_code"),
        latitude: coordinate(&v, "latitude"),
        longitude: coordinate(&v, "longitude"),
        time_zone: text(&v, "time_zone"),
        isp_name: text(&v, "isp_name"),
        as_number: v.get("as_number").and_then(Value::as_i64),
        reverse: text(&v, "reverse"),
    };
    let lookup = reply.into_response();
    assert_eq!(lookup.ip, eight, "IP address not matching");
    assert_eq!(lookup.asn.as_deref(), Some("15169"));
    assert_eq!(lookup.asn_org.as_deref(), Some("GOOGLE"));
    assert_eq!(lookup.time_zone.as_deref(), Some("America/Chicago"));
    assert_eq!(lookup.hostname.as_deref(), Some(""));
    assert_eq!(lookup.city, None);
    assert_eq!(lookup.provider, LookupProvider::IpLeak);
}

#[test]
fn ipleak_negative_as_number_is_written_in_decimal() {
    let reply = IpLeakResponse {
        ip: None,
        city_name: None,
        region_name: None,
        country_name: None,
        country_code: None,
        continent_name: None,
        postal_code: None,
        latitude: None,
        longitude: None,
        time_zone: None,
        isp_name: None,
        as_number: Some(-42),
        reverse: None,
    };
    assert_eq!(reply.into_response().asn.as_deref(), Some("-42"));
}

const IPLOCATEIO_INPUT: &str = r#"
{
  "asn": "AS6185",
  "city": "Cupertino",
  "continent": "North America",
  "country": "United States",
  "country_code": "US",
  "ip": "1.1.1.1",
  "org": "Apple Inc.",
  "latitude": 37.3042,
  "longitude": -122.0946,
  "postal_code": "95014",
  "subdivision": "California",
  "time_zone": "America/Los_Angeles"
}
"#;

#[test]
fn iplocateio_test_parse() {
    let v: Value = serde_json::from_str(IPLOCATEIO_INPUT).unwrap();
    assert_eq!(text(&v, "ip").unwrap(), "1.1.1.1", "IP address not matching");
    let reply = IpLocateIoResponse {
        ip: Some(IpAddress::V4(ONE_ONE_ONE_ONE)),
        country: text(&v, "country"),
        country_code: text(&v, "country_code"),
        city: text(&v, "city"),
        continent: text(&v, "continent"),
        latitude: coordinate(&v, "latitude"),
        longitude: coordinate(&v, "longitude"),
        time_zone: text(&v, "time_zone"),
        postal_code: text(&v, "postal_code"),
        subdivision: text(&v, "subdivision"),
        org: text(&v, "org"),
        asn: text(&v, "asn"),
        threat: None,
    };
    let lookup = reply.into_response();
    assert_eq!(lookup.ip, IpAddress::V4(ONE_ONE_ONE_ONE), "IP address not matching");
    assert_eq!(lookup.region.as_deref(), Some("California"));
    assert_eq!(lookup.asn_org.as_deref(), Some("Apple Inc."));
    assert_eq!(lookup.asn.as_deref(), Some("AS6185"));
    assert_eq!(lookup.is_proxy, None);
    assert_eq!(lookup.provider, LookupProvider::IpLocateIo);
}
