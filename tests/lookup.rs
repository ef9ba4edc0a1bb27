use public_ip_address::error::AttemptError;
use public_ip_address::lookup::mock::mock_reply;
use public_ip_address::{
    handle_response, parse_provider, HttpReply, IpAddress, LookupError, LookupProvider,
    LookupService, RequestPlan,
};
use std::str::FromStr;

/// Reads `a.b.c.d` text as an IPv4 address.
fn dotted_quad(text: &str) -> Option<IpAddress> {
    let parts: Vec<u8> = text.split('.').filter_map(|p| p.parse::<u8>().ok()).collect();
    if parts.len() == 4 && text.split('.').count() == 4 {
        Some(IpAddress::V4(u32::from_be_bytes([parts[0], parts[1], parts[2], parts[3]])))
    } else {
        None
    }
}

#[test]
fn test_set_provider() {
    let mut provider = LookupService::new(LookupProvider::IpApiCom);
    assert_eq!(provider.get_provider_type(), LookupProvider::IpApiCom);
    provider.set_provider(LookupProvider::IpInfo);
    assert_eq!(provider.get_provider_type(), LookupProvider::IpInfo);
}

#[test]
fn test_make_request() {
    let address = "1.1.1.1";
    let service = LookupService::new(LookupProvider::Mock(address.to_string()));
    let text = match service.request_plan(None) {
        RequestPlan::Local(text) => text,
        other => panic!("unexpected plan {:?}", other),
    };
    let response = mock_reply(&text, dotted_quad(&text)).unwrap();
    let address = IpAddress::V4(u32::from_be_bytes([1, 1, 1, 1]));
    assert_eq!(response.ip, address);
    assert_eq!(response.provider, LookupProvider::Mock("1.1.1.1".to_string()));
}

#[test]
fn mock_reply_without_address_is_a_parse_error() {
    let r = mock_reply(&"not an ip".to_string(), None);
    assert_eq!(r, Err(AttemptError::ParseError("not an ip".to_string())));
}

#[test]
fn test_handle_response() {
    let body = handle_response(HttpReply::Received { status: 200, body: Ok("{}".to_string()) });
    assert!(body.is_ok(), "Response is an error {:#?}", body);
    assert_eq!(body.unwrap(), "{}");
}

#[test]
fn test_handle_response_error() {
    let body = handle_response(HttpReply::Received { status: 500, body: Ok(String::new()) });
    assert!(body.is_err(), "Response should be an error {:#?}", body);
    let body = body.unwrap_err();
    assert_eq!(body.to_string(), "Request status", "Wrong error {:#?}", body);
    assert_eq!(body, AttemptError::RequestStatus("Status: 500".to_string()));
}

#[test]
fn test_handle_response_too_many() {
    let body = handle_response(HttpReply::Received { status: 429, body: Ok(String::new()) });
    assert!(body.is_err(), "Response should be an error {:#?}", body);
    let body = body.unwrap_err();
    assert_eq!(body.to_string(), "Too many API requests", "Wrong error {:#?}", body);
    assert_eq!(body, AttemptError::TooManyRequests("Too many requests: 429".to_string()));
}

#[test]
fn handle_response_transport_failures() {
    assert_eq!(
        handle_response(HttpReply::Failed("dns".to_string())),
        Err(AttemptError::TransportError("dns".to_string()))
    );
    assert_eq!(
        handle_response(HttpReply::Received { status: 200, body: Err("cut".to_string()) }),
        Err(AttemptError::TransportError("cut".to_string()))
    );
    assert_eq!(
        handle_response(HttpReply::Received { status: 404, body: Ok(String::new()) }),
        Err(AttemptError::RequestStatus("Status: 404".to_string()))
    );
}

#[test]
fn test_conversions() {
    let provider = LookupProvider::from_str("freeipapi").unwrap();
    assert_eq!(provider, LookupProvider::FreeIpApi, "Conversion failed");

    let provider = LookupProvider::from_str("unknown");
    assert!(provider.is_err(), "Conversion should fail");
}

#[test]
fn test_conversions_with_key() {
    let provider = LookupProvider::from_str("ipdata abc").unwrap();
    assert_eq!(
        provider,
        LookupProvider::IpData(Some("abc".to_string())),
        "Conversion failed"
    );

    let provider = LookupProvider::from_str("ipdata").unwrap();
    assert_eq!(provider, LookupProvider::IpData(None), "Conversion failed");
}

#[test]
fn provider_names_ignore_case_and_surrounding_space() {
    assert_eq!(parse_provider("  FreeIpApi \t"), Ok(LookupProvider::FreeIpApi));
    assert_eq!(parse_provider("IPLEAK"), Ok(LookupProvider::IpLeak));
    assert_eq!(
        parse_provider(" Abstract  Key123 extra"),
        Ok(LookupProvider::AbstractApi(Some("Key123".to_string())))
    );
    assert_eq!(parse_provider("mullvad key"), Ok(LookupProvider::Mullvad));
}

#[test]
fn unknown_or_missing_provider_names() {
    assert_eq!(
        parse_provider("Nowhere"),
        Err(LookupError::UnknownProvider("nowhere".to_string()))
    );
    assert_eq!(parse_provider("   "), Err(LookupError::UnknownProvider(String::new())));
    assert_eq!(parse_provider(""), Err(LookupError::UnknownProvider(String::new())));
    assert_eq!(parse_provider("mock 1.1.1.1").is_err(), true);
}

#[test]
fn reported_type_keeps_the_key() {
    let keyed = LookupProvider::IpData(Some("secret".to_string()));
    let service = LookupService::new(keyed.clone());
    assert_eq!(service.get_provider_type(), keyed);
    assert_ne!(service.get_provider_type(), LookupProvider::IpData(None));
}

#[test]
fn request_plans_name_the_endpoints() {
    assert_eq!(
        LookupProvider::IfConfig.request_plan(Some("8.8.8.8")),
        RequestPlan::Get("http://ifconfig.co/json".to_string())
    );
    assert_eq!(
        LookupProvider::IpData(Some("k1".to_string())).request_plan(None),
        RequestPlan::Get("https://api.ipdata.co/?api-key=k1".to_string())
    );
    assert_eq!(
        LookupProvider::IpData(None).request_plan(None),
        RequestPlan::Get("https://api.ipdata.co/?api-key=".to_string())
    );
    assert_eq!(
        LookupProvider::IpLeak.request_plan(Some("8.8.8.8")),
        RequestPlan::Get("https://ipleak.net/json/8.8.8.8".to_string())
    );
    assert_eq!(
        LookupProvider::IpLeak.request_plan(None),
        RequestPlan::Get("https://ipleak.net/json/".to_string())
    );
    assert_eq!(
        LookupProvider::IpLocateIo.request_plan(Some("1.1.1.1")),
        RequestPlan::Get("https://www.iplocate.io/api/lookup/1.1.1.1/json".to_string())
    );
    assert_eq!(
        LookupProvider::IpLocateIo.request_plan(None),
        RequestPlan::Get("https://www.iplocate.io/api/lookup/json".to_string())
    );
    assert_eq!(LookupProvider::IpInfo.request_plan(None), RequestPlan::Unavailable);
    assert!(LookupProvider::IpLeak.supports_target_lookup());
    assert!(!LookupProvider::IfConfig.supports_target_lookup());
}
