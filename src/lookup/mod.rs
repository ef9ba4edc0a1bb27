//! Lookup providers: the closed set of known services, their names, and the
//! service object that stands for the provider currently in use.

use crate::error::{AttemptError, LookupError};
use crate::text::{decimal_of, decimal_text, find_word, first_word, lower_of, lowercase, second_word};
use vstd::prelude::*;

pub mod ifconfig;
pub mod ipdata;
pub mod ipleak;
pub mod iplocateio;
pub mod mock;

verus! {

/// Available lookup service providers
#[derive(Debug, Clone, PartialEq, Eq)]
pub enum LookupProvider {
    /// FreeIpApi provider (<https://freeipapi.com>)
    FreeIpApi,
    /// IfConfig provider (<https://ifconfig.co>)
    IfConfig,
    /// IpInfo provider (<https://ipinfo.io>)
    IpInfo,
    /// MyIp provider (<https://my-ip.io>)
    MyIp,
    /// IpApiCom provider (<https://ip-api.com>)
    IpApiCom,
    /// IpWhoIs provider (<https://ipwhois.io>)
    IpWhoIs,
    /// IpApiCo provider (<https://ipapi.co>)
    IpApiCo,
    /// IpApiIo provider (<https://ip-api.io>)
    IpApiIo,
    /// IpBase provider (<https://ipbase.com>)
    IpBase,
    /// IpLocateIo provider (<https://iplocate.io>)
    IpLocateIo,
    /// IpLeak provider (<https://ipleak.net>)
    IpLeak,
    /// Mullvad provider (<https://mullvad.net>)
    Mullvad,
    /// Abstract provider with API key (<https://abstractapi.com>)
    AbstractApi(Option<String>),
    /// IpGeolocation provider with API key (<https://ipgeolocation.io>)
    IpGeolocation(Option<String>),
    /// IpData provider with API key (<https://ipdata.co>)
    IpData(Option<String>),
    /// Mock provider for testing: answers with the address it holds.
    Mock(String),
}

/// The view of an optional text.
pub open spec fn text_view(t: Option<String>) -> Option<Seq<char>> {
    match t {
        Some(s) => Some(s@),
        None => None,
    }
}

/// The provider that `name` (already in lower case) and `key` stand for, if
/// the name is known. Keys are kept only by the providers that take one.
pub open spec fn names_provider(p: LookupProvider, name: Seq<char>, key: Option<Seq<char>>) -> bool {
    match p {
        LookupProvider::FreeIpApi => name == "freeipapi"@,
        LookupProvider::IfConfig => name == "ifconfig"@,
        LookupProvider::IpInfo => name == "ipinfo"@,
        LookupProvider::MyIp => name == "myip"@,
        LookupProvider::IpApiCom => name == "ipapicom"@,
        LookupProvider::IpWhoIs => name == "ipwhois"@,
        LookupProvider::IpApiCo => name == "ipapico"@,
        LookupProvider::IpApiIo => name == "ipapiio"@,
        LookupProvider::IpBase => name == "ipbase"@,
        LookupProvider::IpLocateIo => name == "iplocateio"@,
        LookupProvider::IpLeak => name == "ipleak"@,
        LookupProvider::Mullvad => name == "mullvad"@,
        LookupProvider::AbstractApi(k) => name == "abstract"@ && text_view(k) == key,
        LookupProvider::IpGeolocation(k) => name == "ipgeolocation"@ && text_view(k) == key,
        LookupProvider::IpData(k) => name == "ipdata"@ && text_view(k) == key,
        LookupProvider::Mock(_) => false,
    }
}

/// Whether `name` is the name of a known provider.
pub open spec fn is_known_name(name: Seq<char>) -> bool {
    ||| name == "freeipapi"@
    ||| name == "ifconfig"@
    ||| name == "ipinfo"@
    ||| name == "myip"@
    ||| name == "ipapicom"@
    ||| name == "ipwhois"@
    ||| name == "ipapico"@
    ||| name == "ipapiio"@
    ||| name == "ipbase"@
    ||| name == "iplocateio"@
    ||| name == "ipleak"@
    ||| name == "mullvad"@
    ||| name == "abstract"@
    ||| name == "ipgeolocation"@
    ||| name == "ipdata"@
}

impl LookupProvider {
    /// A copy of the provider, known equal to it.
    pub fn duplicate(&self) -> (r: LookupProvider)
        ensures
            r == *self,
    {
        match self {
            LookupProvider::FreeIpApi => LookupProvider::FreeIpApi,
            LookupProvider::IfConfig => LookupProvider::IfConfig,
            LookupProvider::IpInfo => LookupProvider::IpInfo,
            LookupProvider::MyIp => LookupProvider::MyIp,
            LookupProvider::IpApiCom => LookupProvider::IpApiCom,
            LookupProvider::IpWhoIs => LookupProvider::IpWhoIs,
            LookupProvider::IpApiCo => LookupProvider::IpApiCo,
            LookupProvider::IpApiIo => LookupProvider::IpApiIo,
            LookupProvider::IpBase => LookupProvider::IpBase,
            LookupProvider::IpLocateIo => LookupProvider::IpLocateIo,
            LookupProvider::IpLeak => LookupProvider::IpLeak,
            LookupProvider::Mullvad => LookupProvider::Mullvad,
            LookupProvider::AbstractApi(k) => LookupProvider::AbstractApi(crate::response::copy_text(k)),
            LookupProvider::IpGeolocation(k) => LookupProvider::IpGeolocation(crate::response::copy_text(k)),
            LookupProvider::IpData(k) => LookupProvider::IpData(crate::response::copy_text(k)),
            LookupProvider::Mock(ip) => LookupProvider::Mock(ip.clone()),
        }
    }

    /// The provider for a lower-case provider name and an optional key; fails
    /// with `UnknownProvider` carrying the name when the name is not known.
    pub fn from_name(name: &String, key: Option<String>) -> (r: Result<LookupProvider, LookupError>)
        ensures
            r is Ok <==> is_known_name(name@),
            r matches Ok(p) ==> names_provider(p, name@, text_view(key)),
            r matches Err(e) ==> e == LookupError::UnknownProvider(*name),
    {
        if crate::text::same_text(name, "freeipapi") {
            Ok(LookupProvider::FreeIpApi)
        } else if crate::text::same_text(name, "ifconfig") {
            Ok(LookupProvider::IfConfig)
        } else if crate::text::same_text(name, "ipinfo") {
            Ok(LookupProvider::IpInfo)
        } else if crate::text::same_text(name, "myip") {
            Ok(LookupProvider::MyIp)
        } else if crate::text::same_text(name, "ipapicom") {
            Ok(LookupProvider::IpApiCom)
        } else if crate::text::same_text(name, "ipwhois") {
            Ok(LookupProvider::IpWhoIs)
        } else if crate::text::same_text(name, "ipapico") {
            Ok(LookupProvider::IpApiCo)
        } else if crate::text::same_text(name, "ipapiio") {
            Ok(LookupProvider::IpApiIo)
        } else if crate::text::same_text(name, "ipbase") {
            Ok(LookupProvider::IpBase)
        } else if crate::text::same_text(name, "iplocateio") {
            Ok(LookupProvider::IpLocateIo)
        } else if crate::text::same_text(name, "ipleak") {
            Ok(LookupProvider::IpLeak)
        } else if crate::text::same_text(name, "mullvad") {
            Ok(LookupProvider::Mullvad)
        } else if crate::text::same_text(name, "abstract") {
            Ok(LookupProvider::AbstractApi(key))
        } else if crate::text::same_text(name, "ipgeolocation") {
            Ok(LookupProvider::IpGeolocation(key))
        } else if crate::text::same_text(name, "ipdata") {
            Ok(LookupProvider::IpData(key))
        } else {
            Err(LookupError::UnknownProvider(name.clone()))
        }
    }
}

/// Whether the provider can look up an address other than the caller's.
pub open spec fn supports_target(p: LookupProvider) -> bool {
    p is IpLeak || p is IpLocateIo
}

/// How one attempt with a provider is carried out.
#[derive(Debug, Clone, PartialEq, Eq)]
pub enum RequestPlan {
    /// An HTTP GET of this URL, whose 200 body is the provider's JSON reply.
    Get(String),
    /// No traffic: the answer is made from the address text (see `mock::mock_reply`).
    Local(String),
    /// No adapter exists here for this provider.
    Unavailable,
}

/// The text given to an endpoint for the target, when the provider uses it.
pub open spec fn opt_str_view(t: Option<&str>) -> Option<Seq<char>> {
    match t {
        Some(s) => Some(s@),
        None => None,
    }
}

/// Whether `r` is how an attempt with `p` is carried out, for the target text
/// `target`: a GET of the provider's endpoint, the mock's local answer, or
/// nothing where no adapter exists.
pub open spec fn plans(p: LookupProvider, target: Option<Seq<char>>, r: RequestPlan) -> bool {
    match p {
        LookupProvider::IfConfig => r matches RequestPlan::Get(u) && u@ == ifconfig::ifconfig_endpoint(),
        LookupProvider::IpData(k) => r matches RequestPlan::Get(u) && u@ == ipdata::ipdata_endpoint(
            text_view(k),
        ),
        LookupProvider::IpLeak => r matches RequestPlan::Get(u) && u@ == ipleak::ipleak_endpoint(target),
        LookupProvider::IpLocateIo => r matches RequestPlan::Get(u) && u@
            == iplocateio::iplocateio_endpoint(None, target),
        LookupProvider::Mock(ip) => r == RequestPlan::Local(ip),
        _ => r == RequestPlan::Unavailable,
    }
}

impl LookupProvider {
    /// The kind of the adapter built for this provider: the provider itself,
    /// key included.
    pub fn get_type(&self) -> (r: LookupProvider)
        ensures
            r == *self,
    {
        self.duplicate()
    }

    /// Whether the provider can look up an address other than the caller's.
    pub fn supports_target_lookup(&self) -> (r: bool)
        ensures
            r == supports_target(*self),
    {
        match self {
            LookupProvider::IpLeak | LookupProvider::IpLocateIo => true,
            _ => false,
        }
    }

    /// How to carry out one attempt with this provider, given the text of the
    /// target address if any. Providers that cannot look up a target ignore it.
    pub fn request_plan(&self, target: Option<&str>) -> (r: RequestPlan)
        ensures
            plans(*self, opt_str_view(target), r),
    {
        match self {
            LookupProvider::IfConfig => RequestPlan::Get(ifconfig::Ifconfig.endpoint()),
            LookupProvider::IpData(k) => RequestPlan::Get(
                ipdata::IpData::new(crate::response::copy_text(k)).endpoint(),
            ),
            LookupProvider::IpLeak => RequestPlan::Get(ipleak::IpLeak.endpoint(target)),
            LookupProvider::IpLocateIo => RequestPlan::Get(iplocateio::IpLocateIo.get_endpoint(None, target)),
            LookupProvider::Mock(ip) => RequestPlan::Local(ip.clone()),
            _ => RequestPlan::Unavailable,
        }
    }
}

/// Parses a provider description: a provider name, matched without regard to
/// case, optionally followed by a key, separated by whitespace. Fails with
/// `UnknownProvider` carrying the lower-cased name (empty when there is none).
pub fn parse_provider(s: &str) -> (r: Result<LookupProvider, LookupError>)
    ensures
        first_word(s@) is None ==> (r matches Err(LookupError::UnknownProvider(n)) && n@.len() == 0),
        first_word(s@) matches Some(w) ==> {
            &&& (r is Ok <==> is_known_name(lower_of(w)))
            &&& (r matches Ok(p) ==> names_provider(p, lower_of(w), second_word(s@)))
            &&& (r matches Err(e) ==> (e matches LookupError::UnknownProvider(n) && n@ == lower_of(w)))
        },
{
    let n = s.unicode_len();
    let (a, b) = find_word(s, 0);
    if a >= n {
        return Err(LookupError::UnknownProvider(String::new()));
    }
    let (c, d) = find_word(s, b);
    let key = if c < n {
        Some(String::from_str(s.substring_char(c, d)))
    } else {
        None
    };
    let name = lowercase(s.substring_char(a, b));
    LookupProvider::from_name(&name, key)
}

impl std::str::FromStr for LookupProvider {
    type Err = LookupError;

    /// Parse a `&str` into a LookupProvider (see [`parse_provider`]).
    fn from_str(s: &str) -> Result<LookupProvider, LookupError> {
        parse_provider(s)
    }
}

/// What came back from one HTTP request.
pub enum HttpReply {
    /// A response arrived with this status; its body, or why it could not be read.
    Received { status: u16, body: Result<String, String> },
    /// The request failed before a response arrived.
    Failed(String),
}

/// Classifies an HTTP reply: the body of a 200, `TooManyRequests` for 429,
/// `RequestStatus` for any other status, `TransportError` when no usable
/// response arrived.
pub fn handle_response(reply: HttpReply) -> (r: Result<String, AttemptError>)
    ensures
        match reply {
            HttpReply::Failed(m) => r == Err::<String, AttemptError>(AttemptError::TransportError(m)),
            HttpReply::Received { status, body } => if status == 200 {
                match body {
                    Ok(b) => r == Ok::<String, AttemptError>(b),
                    Err(m) => r == Err::<String, AttemptError>(AttemptError::TransportError(m)),
                }
            } else if status == 429 {
                r matches Err(AttemptError::TooManyRequests(m)) && m@ == "Too many requests: "@
                    + decimal_of(status as int)
            } else {
                r matches Err(AttemptError::RequestStatus(m)) && m@ == "Status: "@ + decimal_of(
                    status as int,
                )
            },
        },
{
    match reply {
        HttpReply::Failed(m) => Err(AttemptError::TransportError(m)),
        HttpReply::Received { status, body } => {
            if status == 200 {
                match body {
                    Ok(b) => Ok(b),
                    Err(m) => Err(AttemptError::TransportError(m)),
                }
            } else if status == 429 {
                Err(AttemptError::TooManyRequests(
                    String::from_str("Too many requests: ").concat(decimal_text(status as i64).as_str()),
                ))
            } else {
                Err(AttemptError::RequestStatus(
                    String::from_str("Status: ").concat(decimal_text(status as i64).as_str()),
                ))
            }
        },
    }
}

/// LookupService instance to handle the lookup process: it stands for the
/// provider currently in use.
pub struct LookupService {
    provider: LookupProvider,
}

impl LookupService {
    /// The provider the service uses.
    pub closed spec fn provider(&self) -> LookupProvider {
        self.provider
    }

    /// Creates a new `LookupService` instance.
    pub fn new(provider: LookupProvider) -> (r: LookupService)
        ensures
            r.provider() == provider,
    {
        LookupService { provider }
    }

    /// Changes the provider for the LookupService
    pub fn set_provider(&mut self, provider: LookupProvider) -> (r: &LookupService)
        ensures
            final(self).provider() == provider,
            r.provider() == provider,
    {
        self.provider = provider;
        self
    }

    /// Returns the type of the current lookup provider, key included.
    pub fn get_provider_type(&self) -> (r: LookupProvider)
        ensures
            r == self.provider(),
    {
        self.provider.get_type()
    }

    /// How to carry out a request with the current provider.
    pub fn request_plan(&self, target: Option<&str>) -> (r: RequestPlan)
        ensures
            plans(self.provider(), opt_str_view(target), r),
    {
        self.provider.request_plan(target)
    }
}

} // verus!
