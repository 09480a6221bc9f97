//! A parsed absolute URL, as far as the guard and the browser need it.

use vstd::prelude::*;
use crate::url_guard::IpAddress;

verus! {

/// A URL parsed by the `url` crate: its serialization, scheme, host text,
/// the address when the host is an IP literal, and its port (explicit, or the
/// scheme's known default).
#[derive(Debug)]
pub struct WebUrl {
    pub serialization: String,
    pub scheme: String,
    pub host: Option<String>,
    pub ip: Option<IpAddress>,
    pub port: Option<u16>,
}

/// The mathematical value of a [`WebUrl`].
pub struct UrlFacts {
    pub serialization: Seq<char>,
    pub scheme: Seq<char>,
    pub host: Option<Seq<char>>,
    pub ip: Option<IpAddress>,
    pub port: Option<u16>,
}

pub open spec fn opt_string_view(o: Option<String>) -> Option<Seq<char>> {
    match o {
        Some(s) => Some(s@),
        None => None,
    }
}

impl View for WebUrl {
    type V = UrlFacts;

    open spec fn view(&self) -> UrlFacts {
        UrlFacts {
            serialization: self.serialization@,
            scheme: self.scheme@,
            host: opt_string_view(self.host),
            ip: self.ip,
            port: self.port,
        }
    }
}

/// What `url::Url::parse` gives back for the text `raw`: the parsed URL's
/// parts, or the message of its parse error.
pub uninterp spec fn url_parse(raw: Seq<char>) -> Result<UrlFacts, Seq<char>>;

/// Calls `url::Url::parse(raw)`. On success it hands back `as_str()`,
/// `scheme()`, `host_str()`, the address of an `Ipv4`/`Ipv6` `host()` and
/// `port_or_known_default()`; on failure the `Display` text of the
/// `url::ParseError`. The contract claims only that these are what
/// [`url_parse`] names for `raw`.
#[verifier::external_body]
pub(crate) fn parse_url(raw: &str) -> (res: Result<WebUrl, String>)
    ensures
        res is Ok ==> url_parse(raw@) == Ok::<UrlFacts, Seq<char>>(res->Ok_0@),
        res is Err ==> url_parse(raw@) == Err::<UrlFacts, Seq<char>>(res->Err_0@),
{
    match url::Url::parse(raw) {
        Ok(u) => Ok(WebUrl {
            serialization: u.as_str().to_string(),
            scheme: u.scheme().to_string(),
            host: u.host_str().map(String::from),
            ip: match u.host() {
                Some(url::Host::Ipv4(a)) => Some(IpAddress::V4(a.octets())),
                Some(url::Host::Ipv6(a)) => Some(IpAddress::V6(a.segments())),
                _ => None,
            },
            port: u.port_or_known_default(),
        }),
        Err(e) => Err(e.to_string()),
    }
}

impl WebUrl {
    /// The URL's serialization, as a string slice.
    pub fn as_str(&self) -> (r: &str)
        ensures
            r@ == self.serialization@,
    {
        self.serialization.as_str()
    }
}

} // verus!
