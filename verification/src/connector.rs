//! From settings to a streaming endpoint, and from the outcome of a handshake
//! to what the caller is told.

use crate::config::ConnectionConfig;
use crate::text::{begins_with, has_prefix, trim_leading, trim_trailing, without_leading, without_trailing};
use vstd::prelude::*;
use vstd::string::*;

verus! {

/// Seconds a connection test waits for the handshake.
pub const PROBE_DEADLINE_SECS: u64 = 10;

/// Why no stream could be opened.
#[derive(Debug, PartialEq, Eq)]
pub enum ConnectError {
    /// The endpoint derived from the settings is no URL; the parser's
    /// objection in its own words.
    InvalidUrl(String),
    /// The server or the network refused the handshake; the reason as reported.
    HandshakeFailed(String),
    /// The handshake did not end within the caller's deadline.
    Timeout,
}

/// How a handshake attempt ended, as the caller that made it reports it.
#[derive(Debug, PartialEq, Eq)]
pub enum Handshake {
    /// The stream is open.
    Established,
    /// Network or protocol error, with its description.
    Refused(String),
    /// The deadline passed first.
    TimedOut,
}

/// The endpoint text for a server address and a token: the address loses its
/// trailing slashes and its `https://` and `http://` prefixes, and stands
/// behind `wss://` if it began with `https://`, behind `ws://` if not.
pub open spec fn endpoint_of(address: Seq<char>, credential: Seq<char>) -> Seq<char> {
    let trimmed = without_trailing(address, '/');
    let scheme = if begins_with(trimmed, "https://"@) {
        "wss://"@
    } else {
        "ws://"@
    };
    let host = without_leading(without_leading(trimmed, "https://"@), "http://"@);
    scheme + host + "/stream?token="@ + credential
}

/// Composes the endpoint text. Nothing is rejected here.
pub fn endpoint_text(address: &str, credential: &str) -> (r: String)
    ensures
        r@ == endpoint_of(address@, credential@),
{
    let trimmed = trim_trailing(address, '/');
    let scheme = if has_prefix(trimmed, "https://") {
        "wss://"
    } else {
        "ws://"
    };
    let host = trim_leading(trim_leading(trimmed, "https://"), "http://");
    let mut endpoint = String::from_str(scheme);
    endpoint.append(host);
    endpoint.append("/stream?token=");
    endpoint.append(credential);
    endpoint
}

/// What `url::Url::parse` makes of a text: `Ok` with the serialization of
/// the URL it parsed, or `Err` with the words of its error.
pub uninterp spec fn parsed_url(text: Seq<char>) -> Result<Seq<char>, Seq<char>>;

/// Calls `url::Url::parse` and hands back the URL as the string it
/// serializes to, or the error as the text it displays as. The contract
/// only gives the outcome its name: the parser reads nothing but its
/// argument, so one text always fares the same.
#[verifier::external_body]
fn parse_url(text: &str) -> (r: Result<String, String>)
    ensures
        match r {
            Ok(url) => parsed_url(text@) == Ok::<Seq<char>, Seq<char>>(url@),
            Err(reason) => parsed_url(text@) == Err::<Seq<char>, Seq<char>>(reason@),
        },
{
    match url::Url::parse(text) {
        Ok(parsed) => Ok(String::from(parsed)),
        Err(error) => Err(error.to_string()),
    }
}

/// The endpoint that a parse of the endpoint text leaves: the parsed URL, or
/// `InvalidUrl` with the parser's reason.
pub fn endpoint_from_parse(parsed: Result<String, String>) -> (r: Result<String, ConnectError>)
    ensures
        match parsed {
            Ok(url) => r == Ok::<String, ConnectError>(url),
            Err(reason) => r == Err::<String, ConnectError>(ConnectError::InvalidUrl(reason)),
        },
{
    match parsed {
        Ok(url) => Ok(url),
        Err(reason) => Err(ConnectError::InvalidUrl(reason)),
    }
}

/// Whether `resolved` is the endpoint for an address and a token: the
/// endpoint text as the URL parser writes it back, or `InvalidUrl` with the
/// parser's reason where it rejects that text.
pub open spec fn resolves_to(
    address: Seq<char>,
    credential: Seq<char>,
    resolved: Result<String, ConnectError>,
) -> bool {
    match parsed_url(endpoint_of(address, credential)) {
        Ok(url) => resolved.is_ok() && resolved.unwrap()@ == url,
        Err(reason) => resolved matches Err(ConnectError::InvalidUrl(given)) && given@ == reason,
    }
}

/// The endpoint to connect to for `config`.
pub fn resolve_endpoint(config: &ConnectionConfig) -> (r: Result<String, ConnectError>)
    ensures
        resolves_to(config@.server_address, config@.credential, r),
{
    let text = endpoint_text(config.server_address.as_str(), config.credential.as_str());
    endpoint_from_parse(parse_url(text.as_str()))
}

/// The endpoint that a connection test is to try, from settings that are
/// made for the test alone and kept nowhere.
pub fn probe_endpoint(server_address: String, credential: String) -> (r: Result<
    String,
    ConnectError,
>)
    ensures
        resolves_to(server_address@, credential@, r),
{
    let transient = ConnectionConfig::new(server_address, credential);
    resolve_endpoint(&transient)
}

/// What a handshake's outcome means for the connection attempt.
pub open spec fn handshake_outcome(handshake: Handshake) -> Result<(), ConnectError> {
    match handshake {
        Handshake::Established => Ok(()),
        Handshake::Refused(reason) => Err(ConnectError::HandshakeFailed(reason)),
        Handshake::TimedOut => Err(ConnectError::Timeout),
    }
}

/// Turns the outcome of the handshake on a resolved endpoint into the
/// result of the connection attempt.
pub fn handshake_result(handshake: Handshake) -> (r: Result<(), ConnectError>)
    ensures
        r == handshake_outcome(handshake),
{
    match handshake {
        Handshake::Established => Ok(()),
        Handshake::Refused(reason) => Err(ConnectError::HandshakeFailed(reason)),
        Handshake::TimedOut => Err(ConnectError::Timeout),
    }
}

/// The words in which a failed attempt is reported to the user.
pub open spec fn failure_text(error: ConnectError) -> Seq<char> {
    match error {
        ConnectError::InvalidUrl(reason) => "URL 解析失败: "@ + reason@,
        ConnectError::HandshakeFailed(reason) => "连接失败: "@ + reason@
            + "。请检查服务器地址和 Token 是否正确"@,
        ConnectError::Timeout => "连接超时，请检查服务器地址是否可访问"@,
    }
}

/// The words in which a connection test is reported: `Ok` with the success
/// text, or `Err` with the text of the failure.
pub open spec fn probe_text(outcome: Result<(), ConnectError>) -> Result<Seq<char>, Seq<char>> {
    match outcome {
        Ok(_) => Ok("连接成功"@),
        Err(e) => Err(failure_text(e)),
    }
}

impl ConnectError {
    /// This failure in words for the user.
    pub fn message(&self) -> (r: String)
        ensures
            r@ == failure_text(*self),
    {
        match self {
            ConnectError::InvalidUrl(reason) => {
                let mut text = String::from_str("URL 解析失败: ");
                text.append(reason.as_str());
                text
            },
            ConnectError::HandshakeFailed(reason) => {
                let mut text = String::from_str("连接失败: ");
                text.append(reason.as_str());
                text.append("。请检查服务器地址和 Token 是否正确");
                text
            },
            ConnectError::Timeout => String::from_str("连接超时，请检查服务器地址是否可访问"),
        }
    }
}

/// Reports a connection test in words.
pub fn probe_report(outcome: &Result<(), ConnectError>) -> (r: Result<String, String>)
    ensures
        match probe_text(*outcome) {
            Ok(text) => r.is_ok() && r.unwrap()@ == text,
            Err(text) => r.is_err() && r.unwrap_err()@ == text,
        },
{
    match outcome {
        Ok(_) => Ok(String::from_str("连接成功")),
        Err(e) => Err(e.message()),
    }
}

} // verus!
