use vstd::prelude::*;

verus! {

/// The push-price feed's streaming endpoint.
pub open spec fn endpoint_text() -> Seq<char> {
    "wss://cfws.jdjygold.com/data"@
}

/// The one subscription message sent after each successful handshake.
pub open spec fn subscription_text() -> Seq<char> {
    "{\"action\":\"2\",\"bizType\":\"2\",\"keys\":[\"WG-XAUUSD\"]}"@
}

/// The host that `url::Url::parse` followed by `Url::host_str` gives for `s`;
/// `None` when `s` does not parse or has no host.
pub uninterp spec fn url_host(s: Seq<char>) -> Option<Seq<char>>;

/// The serialization that `url::Url::parse` followed by `Url::as_str` gives
/// for `s`; `None` when `s` does not parse.
pub uninterp spec fn url_serialization(s: Seq<char>) -> Option<Seq<char>>;

/// Relies on url::Url::parse and Url::host_str: the host of `s`, when `s`
/// parses as a URL that has one.
#[verifier::external_body]
fn parsed_host(s: &str) -> (r: Option<String>)
    ensures
        r is Some <==> url_host(s@) is Some,
        r is Some ==> r->Some_0@ == url_host(s@)->Some_0,
{
    match url::Url::parse(s) {
        Ok(u) => u.host_str().map(|h| h.to_string()),
        Err(_) => None,
    }
}

/// Relies on url::Url::parse and Url::as_str: the normalized text of `s`,
/// when `s` parses as a URL.
#[verifier::external_body]
fn parsed_serialization(s: &str) -> (r: Option<String>)
    ensures
        r is Some <==> url_serialization(s@) is Some,
        r is Some ==> r->Some_0@ == url_serialization(s@)->Some_0,
{
    match url::Url::parse(s) {
        Ok(u) => Some(u.as_str().to_string()),
        Err(_) => None,
    }
}

/// The broadcast topics through which the UI layer is notified.
#[derive(Debug, Clone, Copy, PartialEq, Eq, Structural)]
pub enum Topic {
    /// One feed payload, forwarded verbatim.
    PriceUpdate,
    /// The settings now in force.
    SettingsUpdated,
}

/// The name under which a topic is published.
pub open spec fn topic_name(t: Topic) -> Seq<char> {
    match t {
        Topic::PriceUpdate => "xau-price-update"@,
        Topic::SettingsUpdated => "settings-updated"@,
    }
}

impl Topic {
    /// The name under which this topic is published.
    pub fn name(&self) -> (r: &'static str)
        ensures
            r@ == topic_name(*self),
    {
        match self {
            Topic::PriceUpdate => "xau-price-update",
            Topic::SettingsUpdated => "settings-updated",
        }
    }
}

/// The feed's streaming endpoint.
pub fn feed_endpoint() -> (r: &'static str)
    ensures
        r@ == endpoint_text(),
{
    "wss://cfws.jdjygold.com/data"
}

/// The subscription message naming the instrument keys of interest.
pub fn subscription_message() -> (r: String)
    ensures
        r@ == subscription_text(),
{
    "{\"action\":\"2\",\"bizType\":\"2\",\"keys\":[\"WG-XAUUSD\"]}".to_string()
}

/// The request line target and `Host` header of a streaming handshake.
#[derive(Debug)]
pub struct HandshakeTarget {
    pub uri: String,
    pub host: String,
}

/// Why no handshake could be attempted.
#[derive(Debug, Clone, Copy, PartialEq, Eq, Structural)]
pub enum ConnectError {
    /// The endpoint is not a URL with a host.
    InvalidEndpoint,
}

/// Builds a handshake target from an endpoint's parsed text and host.
pub fn target_from_parts(uri: Option<String>, host: Option<String>) -> (r: Result<
    HandshakeTarget,
    ConnectError,
>)
    ensures
        r is Ok <==> uri is Some && host is Some,
        r is Ok ==> r->Ok_0.uri == uri->Some_0 && r->Ok_0.host == host->Some_0,
        r is Err ==> r->Err_0 == ConnectError::InvalidEndpoint,
{
    match (uri, host) {
        (Some(uri), Some(host)) => Ok(HandshakeTarget { uri, host }),
        _ => Err(ConnectError::InvalidEndpoint),
    }
}

/// The handshake target of an endpoint: its normalized text and its host.
/// An endpoint that does not parse, or has no host, is refused.
pub fn handshake_target(endpoint: &str) -> (r: Result<HandshakeTarget, ConnectError>)
    ensures
        r is Ok <==> url_serialization(endpoint@) is Some && url_host(endpoint@) is Some,
        r is Ok ==> r->Ok_0.uri@ == url_serialization(endpoint@)->Some_0 && r->Ok_0.host@
            == url_host(endpoint@)->Some_0,
        r is Err ==> r->Err_0 == ConnectError::InvalidEndpoint,
{
    let uri = parsed_serialization(endpoint);
    let host = parsed_host(endpoint);
    target_from_parts(uri, host)
}

} // verus!
