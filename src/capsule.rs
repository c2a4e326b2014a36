//! The Gemini capsule's request checks and its text assets.
use vstd::prelude::*;
use vstd::utf8::{decode_utf8, valid_utf8};

use crate::text::{joined, same_text};

verus! {

/// The longest request URL that the capsule reads.
pub const URL_MAX_SIZE: usize = 1024;

/// The only scheme that the capsule serves.
pub const GEMINI_SCHEME: &'static str = "gemini";

/// Why a Gemini request was refused.
#[derive(PartialEq, Eq, Structural, Clone, Copy, Debug)]
pub enum RequestError {
    /// The request was malformed.
    BadRequest,
    /// The requested resource was not found.
    NotFound,
    /// Something went wrong.
    TemporaryFailure,
    /// The request was for a host, scheme or port that the capsule does not serve.
    WrongHost,
}

impl RequestError {
    /// The message sent with the error.
    pub open spec fn spec_message(&self) -> &'static str {
        match self {
            RequestError::BadRequest => "Bad request.",
            RequestError::NotFound => "Page not found.",
            RequestError::TemporaryFailure => "Temporary failure.",
            RequestError::WrongHost => "Wrong host.",
        }
    }

    /// The message sent with the error.
    #[verifier::when_used_as_spec(spec_message)]
    pub fn message(&self) -> (r: &'static str)
        ensures
            r == self.spec_message(),
    {
        match self {
            RequestError::BadRequest => "Bad request.",
            RequestError::NotFound => "Page not found.",
            RequestError::TemporaryFailure => "Temporary failure.",
            RequestError::WrongHost => "Wrong host.",
        }
    }
}

/// The host of a request URL.
#[derive(Clone, Debug)]
pub enum Host {
    Domain(String),
    Ipv4([u8; 4]),
    Ipv6([u16; 8]),
}

/// Whether a host is the machine itself: `localhost`, an IPv4 address in
/// 127.0.0.0/8, or the IPv6 address `::1`.
pub open spec fn is_loopback_host(h: Host) -> bool {
    match h {
        Host::Domain(d) => d@ == "localhost"@,
        Host::Ipv4(o) => o@[0] == 127,
        Host::Ipv6(s) => s@ == seq![0u16, 0, 0, 0, 0, 0, 0, 1],
    }
}

impl Host {
    /// Whether the host is the machine itself.
    pub fn is_loopback(&self) -> (r: bool)
        ensures
            r == is_loopback_host(*self),
    {
        match self {
            Host::Domain(d) => same_text(d.as_str(), "localhost"),
            Host::Ipv4(o) => o[0] == 127,
            Host::Ipv6(s) => {
                let r = s[0] == 0 && s[1] == 0 && s[2] == 0 && s[3] == 0 && s[4] == 0 && s[5] == 0
                    && s[6] == 0 && s[7] == 1;
                assert(r == (s@ =~= seq![0u16, 0, 0, 0, 0, 0, 0, 1]));
                r
            },
        }
    }
}

/// What the capsule reads of a request URL.
#[derive(Clone, Debug)]
pub struct GeminiUrl {
    /// The length in bytes of the whole URL.
    pub length: usize,
    pub scheme: String,
    pub port: Option<u16>,
    pub host: Option<Host>,
}

/// Whether a request for `url` may be served by the capsule at `hostname`
/// on `port`, and why not: an overlong URL is malformed; another scheme,
/// another port, or a host that is neither `hostname` nor the machine itself
/// is the wrong host.
pub open spec fn request_check(url: GeminiUrl, hostname: Seq<char>, port: u16) -> Result<
    (),
    RequestError,
> {
    if url.length > URL_MAX_SIZE {
        Err(RequestError::BadRequest)
    } else if url.scheme@ != GEMINI_SCHEME@ {
        Err(RequestError::WrongHost)
    } else if url.port matches Some(p) && p != port {
        Err(RequestError::WrongHost)
    } else {
        match url.host {
            Some(h) => if (h matches Host::Domain(d) && d@ == hostname) || is_loopback_host(h) {
                Ok(())
            } else {
                Err(RequestError::WrongHost)
            },
            None => Err(RequestError::WrongHost),
        }
    }
}

/// Checks a request for `url` against the capsule at `hostname` on `port`.
pub fn check_request(url: &GeminiUrl, hostname: &str, port: u16) -> (r: Result<(), RequestError>)
    ensures
        r == request_check(*url, hostname@, port),
{
    if url.length > URL_MAX_SIZE {
        return Err(RequestError::BadRequest);
    }
    if !same_text(url.scheme.as_str(), GEMINI_SCHEME) {
        return Err(RequestError::WrongHost);
    }
    if let Some(p) = url.port {
        if p != port {
            return Err(RequestError::WrongHost);
        }
    }
    match &url.host {
        Some(h) => {
            let known = match h {
                Host::Domain(d) => same_text(d.as_str(), hostname),
                _ => false,
            };
            if known || h.is_loopback() {
                Ok(())
            } else {
                Err(RequestError::WrongHost)
            }
        },
        None => Err(RequestError::WrongHost),
    }
}

/// Where the gemtext page for a request path is kept: the path with `.gmi`
/// appended.
pub fn gemtext_path(path: &str) -> (r: String)
    ensures
        r@ == path@ + ".gmi"@,
{
    joined(path, ".gmi")
}

/// Relies on std::str::from_utf8: it succeeds exactly on valid UTF-8 and
/// then holds the decoded characters.
#[verifier::external_body]
fn utf8_text(b: &[u8]) -> (r: Option<&str>)
    ensures
        r is Some <==> valid_utf8(b@),
        r matches Some(s) ==> s@ == decode_utf8(b@),
{
    std::str::from_utf8(b).ok()
}

/// The text of a text asset, where `asset` holds its bytes if it exists: a
/// missing asset is not found, bytes that are not UTF-8 are a temporary
/// failure.
pub fn asset_text(asset: Option<&[u8]>) -> (r: Result<String, RequestError>)
    ensures
        match asset {
            None => r == Err::<String, RequestError>(RequestError::NotFound),
            Some(b) => if valid_utf8(b@) {
                r matches Ok(t) && t@ == decode_utf8(b@)
            } else {
                r == Err::<String, RequestError>(RequestError::TemporaryFailure)
            },
        },
{
    match asset {
        None => Err(RequestError::NotFound),
        Some(b) => match utf8_text(b) {
            Some(s) => Ok(String::from_str(s)),
            None => Err(RequestError::TemporaryFailure),
        },
    }
}

} // verus!
