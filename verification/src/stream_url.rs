//! Safety screening of stream URLs before they reach the external player.
//!
//! A URL is accepted when it parses as an absolute URL, its scheme is `http`
//! or `https`, and its host does not look like a loopback or private
//! address. The host test is lexical: no name is resolved.

use crate::text::{str_equals, str_starts_with};
use vstd::prelude::*;

verus! {

/// What the screening reads of a parsed URL.
#[derive(Debug)]
pub struct UrlParts {
    /// Scheme without the `:` delimiter.
    pub scheme: String,
    /// Host as it is written in the serialized URL, if the URL has one.
    pub host: Option<String>,
}

/// Mathematical value of [`UrlParts`].
pub struct UrlPartsView {
    pub scheme: Seq<char>,
    pub host: Option<Seq<char>>,
}

impl View for UrlParts {
    type V = UrlPartsView;

    open spec fn view(&self) -> UrlPartsView {
        UrlPartsView { scheme: self.scheme@, host: self.host.deep_view() }
    }
}

impl DeepView for UrlParts {
    type V = UrlPartsView;

    open spec fn deep_view(&self) -> UrlPartsView {
        self@
    }
}

/// Why a stream URL was turned down.
#[derive(Debug, Clone, Copy, PartialEq, Eq, Structural)]
pub enum UrlError {
    /// The text is not an absolute URL.
    InvalidFormat,
    /// The URL parses, but its scheme is neither `http` nor `https`.
    UnsupportedScheme,
    /// The host names the local machine or a private network.
    PrivateHost,
}

/// The scheme and host that the `url` crate's parser extracts from `input`,
/// or `None` where it rejects `input` as an absolute URL.
pub uninterp spec fn parsed_url(input: Seq<char>) -> Option<UrlPartsView>;

/// Whether `scheme` is one the player may be pointed at.
pub open spec fn is_web_scheme(scheme: Seq<char>) -> bool {
    scheme == "http"@ || scheme == "https"@
}

/// Whether `host` reads as a loopback or private-network address: exactly
/// `localhost` or `127.0.0.1`, or beginning with `192.168.`, `10.` or
/// `172.16.`.
pub open spec fn is_private_host(host: Seq<char>) -> bool {
    ||| host == "localhost"@
    ||| host == "127.0.0.1"@
    ||| "192.168."@.is_prefix_of(host)
    ||| "10."@.is_prefix_of(host)
    ||| "172.16."@.is_prefix_of(host)
}

/// The screening result for a parse outcome. The scheme is judged before the
/// host, so a private host under a foreign scheme reports the scheme.
pub open spec fn url_check(parsed: Option<UrlPartsView>) -> Result<(), UrlError> {
    match parsed {
        None => Err(UrlError::InvalidFormat),
        Some(parts) => {
            if !is_web_scheme(parts.scheme) {
                Err(UrlError::UnsupportedScheme)
            } else if parts.host matches Some(host) && is_private_host(host) {
                Err(UrlError::PrivateHost)
            } else {
                Ok(())
            }
        },
    }
}

/// Text of the message that goes with each rejection.
pub open spec fn rejection_text(error: UrlError) -> Seq<char> {
    match error {
        UrlError::InvalidFormat => "Invalid URL format"@,
        UrlError::UnsupportedScheme => "Only http/https URLs are allowed"@,
        UrlError::PrivateHost => "Local/private URLs not allowed"@,
    }
}

impl UrlError {
    /// Human-readable reason for the rejection.
    pub fn message(&self) -> (text: &'static str)
        ensures
            text@ == rejection_text(*self),
    {
        match self {
            UrlError::InvalidFormat => "Invalid URL format",
            UrlError::UnsupportedScheme => "Only http/https URLs are allowed",
            UrlError::PrivateHost => "Local/private URLs not allowed",
        }
    }
}

/// Parses `input` with `url::Url::parse` and copies out the scheme
/// (`Url::scheme`) and the host (`Url::host_str`) of the result.
///
/// Trusted: the contract only names the outcome. It claims that the parser is
/// a function of the input text alone, and nothing about which texts parse or
/// what their parts are.
#[verifier::external_body]
pub(crate) fn parse_url(input: &str) -> (parsed: Option<UrlParts>)
    ensures
        parsed.deep_view() == parsed_url(input@),
{
    match url::Url::parse(input) {
        Ok(parsed) => Some(
            UrlParts {
                scheme: parsed.scheme().to_owned(),
                host: parsed.host_str().map(str::to_owned),
            },
        ),
        Err(_) => None,
    }
}

/// Decides [`is_private_host`].
pub fn host_is_private(host: &str) -> (private: bool)
    ensures
        private == is_private_host(host@),
{
    str_equals(host, "localhost") || str_equals(host, "127.0.0.1") || str_starts_with(
        host,
        "192.168.",
    ) || str_starts_with(host, "10.") || str_starts_with(host, "172.16.")
}

/// Screens an already parsed URL; `None` stands for text that did not parse.
pub fn check_parts(parsed: &Option<UrlParts>) -> (checked: Result<(), UrlError>)
    ensures
        checked == url_check(parsed.deep_view()),
{
    match parsed {
        None => Err(UrlError::InvalidFormat),
        Some(parts) => {
            let scheme = parts.scheme.as_str();
            if !(str_equals(scheme, "http") || str_equals(scheme, "https")) {
                Err(UrlError::UnsupportedScheme)
            } else {
                match &parts.host {
                    Some(host) => {
                        if host_is_private(host.as_str()) {
                            Err(UrlError::PrivateHost)
                        } else {
                            Ok(())
                        }
                    },
                    None => Ok(()),
                }
            }
        },
    }
}

/// Screens a stream URL: parses it and judges scheme and host.
pub fn validate_url(url: &str) -> (checked: Result<(), UrlError>)
    ensures
        checked == url_check(parsed_url(url@)),
{
    let parsed = parse_url(url);
    check_parts(&parsed)
}

} // verus!
