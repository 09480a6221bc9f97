//! SSRF guard for the browsing tools.
//!
//! Before a URL is opened the guard requires an http(s) scheme and a host, and,
//! unless private hosts are allowed, refuses any host that is (or resolves to)
//! a loopback, private, link-local, unspecified, broadcast, shared (CGNAT) or
//! unique-local address.

use vstd::prelude::*;
use crate::error::{joined, WebError, WebErrorKind};
use crate::text::{
    ascii_lower, decimal, ends_with_ignore_ascii_case, eq_ignore_ascii_case, matches_ignore_ascii_case_at, push_decimal, str_equals,
};
use crate::web_url::{parse_url, url_parse, UrlFacts, WebUrl};

verus! {

/// An IP address as the guard sees it: four octets or eight 16-bit segments.
#[derive(Clone, Copy, Debug, PartialEq, Eq)]
pub enum IpAddress {
    V4([u8; 4]),
    V6([u16; 8]),
}

/// High byte of a 16-bit segment.
pub open spec fn high_byte(x: u16) -> u8 {
    (x >> 8u16) as u8
}

/// Low byte of a 16-bit segment.
pub open spec fn low_byte(x: u16) -> u8 {
    (x & 0xffu16) as u8
}

/// An IPv4 address `a.b.c.d` lies in a range a browsing tool must not reach.
pub open spec fn v4_octets_blocked(a: u8, b: u8, c: u8, d: u8) -> bool {
    ||| a == 127                                        // loopback 127.0.0.0/8
    ||| a == 10                                         // private 10.0.0.0/8
    ||| a == 172 && 16 <= b <= 31                       // private 172.16.0.0/12
    ||| a == 192 && b == 168                            // private 192.168.0.0/16
    ||| a == 169 && b == 254                            // link-local 169.254.0.0/16
    ||| a == 0 && b == 0 && c == 0 && d == 0            // unspecified
    ||| a == 255 && b == 255 && c == 255 && d == 255    // broadcast
    ||| a == 100 && 64 <= b <= 127                      // shared address space 100.64.0.0/10
}

pub open spec fn v4_blocked(o: [u8; 4]) -> bool {
    v4_octets_blocked(o[0], o[1], o[2], o[3])
}

/// The segments are an IPv4-mapped IPv6 address `::ffff:a.b.c.d`.
pub open spec fn is_v4_mapped(s: [u16; 8]) -> bool {
    s[0] == 0 && s[1] == 0 && s[2] == 0 && s[3] == 0 && s[4] == 0 && s[5] == 0xffff
}

/// An IPv6 address (given by its segments) lies in a blocked range. An
/// IPv4-mapped address is judged by the IPv4 address it carries.
pub open spec fn v6_blocked(s: [u16; 8]) -> bool {
    if is_v4_mapped(s) {
        v4_octets_blocked(high_byte(s[6]), low_byte(s[6]), high_byte(s[7]), low_byte(s[7]))
    } else {
        ||| s[0] == 0 && s[1] == 0 && s[2] == 0 && s[3] == 0 && s[4] == 0 && s[5] == 0
            && s[6] == 0 && s[7] == 1                   // loopback ::1
        ||| s[0] == 0 && s[1] == 0 && s[2] == 0 && s[3] == 0 && s[4] == 0 && s[5] == 0
            && s[6] == 0 && s[7] == 0                   // unspecified ::
        ||| 0xfe80 <= s[0] <= 0xfebf                    // link-local fe80::/10
        ||| 0xfc00 <= s[0] <= 0xfdff                    // unique-local fc00::/7
    }
}

impl IpAddress {
    /// The address is one a browsing tool must not reach.
    pub open spec fn blocked(self) -> bool {
        match self {
            IpAddress::V4(o) => v4_blocked(o),
            IpAddress::V6(s) => v6_blocked(s),
        }
    }

    pub open spec fn rank(self) -> nat {
        match self {
            IpAddress::V4(_) => 0,
            IpAddress::V6(_) => 1,
        }
    }
}

/// The IPv4 address carried by an IPv4-mapped IPv6 address, if it is one.
fn to_ipv4_mapped(s: [u16; 8]) -> (r: Option<[u8; 4]>)
    ensures
        r is Some <==> is_v4_mapped(s),
        r matches Some(o) ==> o[0] == high_byte(s[6]) && o[1] == low_byte(s[6])
            && o[2] == high_byte(s[7]) && o[3] == low_byte(s[7]),
{
    if s[0] == 0 && s[1] == 0 && s[2] == 0 && s[3] == 0 && s[4] == 0 && s[5] == 0xffff {
        Some([(s[6] >> 8u16) as u8, (s[6] & 0xffu16) as u8, (s[7] >> 8u16) as u8, (s[7] & 0xffu16) as u8])
    } else {
        None
    }
}

/// True if `ip` is in a range a browsing tool must not reach: loopback,
/// unspecified, private, link-local, broadcast, shared (CGNAT), or IPv6
/// unique-local.
pub fn ip_is_blocked(ip: IpAddress) -> (b: bool)
    ensures
        b == ip.blocked(),
    decreases ip.rank(),
{
    match ip {
        IpAddress::V4(o) => {
            let b = o[1];
            assert((b & 0xf0u8) == 0x10u8 <==> (16u8 <= b && b <= 31u8)) by (bit_vector);
            assert((b & 0xc0u8) == 0x40u8 <==> (64u8 <= b && b <= 127u8)) by (bit_vector);
            o[0] == 127
                || o[0] == 10
                || (o[0] == 172 && (o[1] & 0xf0u8) == 0x10u8)
                || (o[0] == 192 && o[1] == 168)
                || (o[0] == 169 && o[1] == 254)
                || (o[0] == 0 && o[1] == 0 && o[2] == 0 && o[3] == 0)
                || (o[0] == 255 && o[1] == 255 && o[2] == 255 && o[3] == 255)
                || (o[0] == 100 && (o[1] & 0xc0u8) == 0x40u8)
        }
        IpAddress::V6(s) => {
            if let Some(mapped) = to_ipv4_mapped(s) {
                return ip_is_blocked(IpAddress::V4(mapped));
            }
            let seg0 = s[0];
            assert((seg0 & 0xffc0u16) == 0xfe80u16 <==> (0xfe80u16 <= seg0 && seg0 <= 0xfebfu16)) by (bit_vector);
            assert((seg0 & 0xfe00u16) == 0xfc00u16 <==> (0xfc00u16 <= seg0 && seg0 <= 0xfdffu16)) by (bit_vector);
            let zero_prefix = s[0] == 0 && s[1] == 0 && s[2] == 0 && s[3] == 0 && s[4] == 0 && s[5] == 0 && s[6] == 0;
            (zero_prefix && s[7] == 1)
                || (zero_prefix && s[7] == 0)
                || (seg0 & 0xffc0u16) == 0xfe80u16
                || (seg0 & 0xfe00u16) == 0xfc00u16
        }
    }
}

/// Validates outbound browsing URLs against the SSRF policy.
#[derive(Debug, Clone, Copy)]
pub struct UrlGuard {
    allow_private: bool,
}

/// A URL whose host is a name: it must be resolved, and every address it
/// resolves to judged, before the URL may be opened.
#[derive(Debug)]
pub struct PendingLookup {
    pub url: WebUrl,
    /// The host name to resolve.
    pub host: String,
    /// The port to resolve it for (the URL's, or its scheme's default).
    pub port: u16,
}

/// The guard's verdict on a URL that it did not refuse outright.
#[derive(Debug)]
pub enum GuardVerdict {
    /// The URL may be opened.
    Allowed(WebUrl),
    /// The URL may be opened only if its host resolves, and only to
    /// addresses that are not blocked; see [`UrlGuard::judge_lookup`].
    Resolve(PendingLookup),
}

/// One address that a host name resolved to, with its display text.
#[derive(Debug)]
pub struct ResolvedAddress {
    pub ip: IpAddress,
    pub text: String,
}

/// The meaning of the guard's first step on a URL.
pub enum GuardOutcome {
    Refused(WebErrorKind, Seq<char>),
    Allowed(UrlFacts),
    Lookup(UrlFacts, Seq<char>, u16),
}

/// The schemes a browsing tool may open.
pub open spec fn is_web_scheme(s: Seq<char>) -> bool {
    s == "http"@ || s == "https"@
}

/// A host name that never legitimately points outward: `localhost` and its
/// subdomains, ASCII case ignored.
pub open spec fn is_local_name(h: Seq<char>) -> bool {
    eq_ignore_ascii_case(h, "localhost"@) || ends_with_ignore_ascii_case(h, ".localhost"@)
}

/// The dotted-decimal text of the IPv4 address `a.b.c.d`.
pub open spec fn dotted_quad(a: u8, b: u8, c: u8, d: u8) -> Seq<char> {
    decimal(a as nat) + "."@ + decimal(b as nat) + "."@ + decimal(c as nat) + "."@ + decimal(d as nat)
}

/// The text of a literal address host as an address is conventionally
/// written: an IPv6 host loses the brackets it is written with in a URL, and
/// an IPv4-mapped IPv6 address shows the IPv4 address it carries in dotted
/// decimal (`::ffff:127.0.0.1`).
pub open spec fn address_text(h: Seq<char>, ip: IpAddress) -> Seq<char> {
    match ip {
        IpAddress::V4(_) => h,
        IpAddress::V6(s) => if is_v4_mapped(s) {
            "::ffff:"@ + dotted_quad(high_byte(s[6]), low_byte(s[6]), high_byte(s[7]), low_byte(s[7]))
        } else if h.len() >= 2 {
            h.subrange(1, h.len() - 1)
        } else {
            h
        },
    }
}

/// What the guard decides on the text `raw`, given what parsing it gave,
/// before any name resolution.
pub open spec fn judge_outcome(allow_private: bool, raw: Seq<char>, parsed: Result<UrlFacts, Seq<char>>) -> GuardOutcome {
    match parsed {
        Err(m) => GuardOutcome::Refused(
            WebErrorKind::InvalidParameters,
            "invalid URL '"@ + raw + "': "@ + m,
        ),
        Ok(u) => if !is_web_scheme(u.scheme) {
            GuardOutcome::Refused(
                WebErrorKind::InvalidParameters,
                "unsupported URL scheme '"@ + u.scheme + "': only http and https are allowed"@,
            )
        } else {
            match u.host {
                None => GuardOutcome::Refused(WebErrorKind::InvalidParameters, "URL has no host: "@ + raw),
                Some(h) => if allow_private {
                    GuardOutcome::Allowed(u)
                } else {
                    match u.ip {
                        Some(ip) => if ip.blocked() {
                            GuardOutcome::Refused(
                                WebErrorKind::Blocked,
                                "host "@ + address_text(h, ip) + " is a private/loopback/link-local address"@,
                            )
                        } else {
                            GuardOutcome::Allowed(u)
                        },
                        None => if is_local_name(h) {
                            GuardOutcome::Refused(WebErrorKind::Blocked, "host '"@ + h + "' is local"@)
                        } else {
                            GuardOutcome::Lookup(u, h, match u.port { Some(p) => p, None => 443 })
                        },
                    }
                },
            }
        },
    }
}

/// What the guard decides on the text `raw` before any name resolution.
pub open spec fn guard_outcome(allow_private: bool, raw: Seq<char>) -> GuardOutcome {
    judge_outcome(allow_private, raw, url_parse(raw))
}

pub open spec fn parse_view(parsed: Result<WebUrl, String>) -> Result<UrlFacts, Seq<char>> {
    match parsed {
        Ok(u) => Ok(u@),
        Err(m) => Err(m@),
    }
}

/// The meaning of a result of [`UrlGuard::check`].
pub open spec fn verdict_outcome(r: Result<GuardVerdict, WebError>) -> GuardOutcome {
    match r {
        Err(e) => GuardOutcome::Refused(e@.0, e@.1),
        Ok(GuardVerdict::Allowed(u)) => GuardOutcome::Allowed(u@),
        Ok(GuardVerdict::Resolve(p)) => GuardOutcome::Lookup(p.url@, p.host@, p.port),
    }
}

/// The index of the first blocked address of `addrs`, if any is blocked.
pub open spec fn first_blocked(addrs: Seq<ResolvedAddress>) -> Option<int>
    decreases addrs.len(),
{
    if addrs.len() == 0 {
        None
    } else if addrs[0].ip.blocked() {
        Some(0)
    } else {
        match first_blocked(addrs.drop_first()) {
            Some(i) => Some(i + 1),
            None => None,
        }
    }
}

/// What the guard decides on a host name given what resolving it gave:
/// `None` when the URL may be opened, else the error.
pub open spec fn lookup_refusal(host: Seq<char>, lookup: Result<Seq<ResolvedAddress>, Seq<char>>) -> Option<
    (WebErrorKind, Seq<char>),
> {
    match lookup {
        Err(m) => Some((WebErrorKind::Navigation, "could not resolve host '"@ + host + "': "@ + m)),
        Ok(addrs) => match first_blocked(addrs) {
            Some(i) => Some(
                (
                    WebErrorKind::Blocked,
                    "host '"@ + host + "' resolves to internal address "@ + addrs[i].text@,
                ),
            ),
            None => if addrs.len() == 0 {
                Some((WebErrorKind::Navigation, "host '"@ + host + "' did not resolve"@))
            } else {
                None
            },
        },
    }
}

pub open spec fn lookup_view(lookup: Result<Vec<ResolvedAddress>, String>) -> Result<Seq<ResolvedAddress>, Seq<char>> {
    match lookup {
        Ok(v) => Ok(v@),
        Err(m) => Err(m@),
    }
}

proof fn lemma_first_blocked(addrs: Seq<ResolvedAddress>)
    ensures
        first_blocked(addrs) matches Some(i) ==> 0 <= i < addrs.len() && addrs[i].ip.blocked()
            && forall|j: int| 0 <= j < i ==> !(#[trigger] addrs[j]).ip.blocked(),
        first_blocked(addrs) is None ==> forall|j: int| 0 <= j < addrs.len() ==> !(#[trigger] addrs[j]).ip.blocked(),
    decreases addrs.len(),
{
    if addrs.len() > 0 {
        lemma_first_blocked(addrs.drop_first());
        assert forall|j: int| 1 <= j < addrs.len() implies addrs.drop_first()[j - 1] == #[trigger] addrs[j] by {}
    }
}

fn quoted_message(a: &str, b: &str, c: &str) -> (r: String)
    ensures
        r@ == a@ + b@ + c@,
{
    let mut r = String::from_str(a);
    r.append(b);
    r.append(c);
    r
}

/// The text of the literal address host `host`: without an IPv6 host's
/// brackets, and with an IPv4-mapped address in dotted decimal.
pub fn literal_address_text(host: &str, ip: IpAddress) -> (r: String)
    ensures
        r@ == address_text(host@, ip),
{
    match ip {
        IpAddress::V4(_) => String::from_str(host),
        IpAddress::V6(s) => match to_ipv4_mapped(s) {
            Some(o) => {
                let mut r = String::from_str("::ffff:");
                push_decimal(&mut r, o[0] as u64);
                r.append(".");
                push_decimal(&mut r, o[1] as u64);
                r.append(".");
                push_decimal(&mut r, o[2] as u64);
                r.append(".");
                push_decimal(&mut r, o[3] as u64);
                assert(r@ =~= address_text(host@, ip));
                r
            },
            None => {
                let n = host.unicode_len();
                if n >= 2 {
                    String::from_str(host.substring_char(1, n - 1))
                } else {
                    String::from_str(host)
                }
            },
        },
    }
}

/// Whether `host` is `localhost` or a subdomain of it, ASCII case ignored.
pub fn is_local_host_name(host: &str) -> (r: bool)
    ensures
        r == is_local_name(host@),
{
    proof {
        reveal_strlit("localhost");
        reveal_strlit(".localhost");
    }
    let n = host.unicode_len();
    let exact = n == 9 && matches_ignore_ascii_case_at(host, 0, "localhost");
    let suffix = n >= 10 && matches_ignore_ascii_case_at(host, n - 10, ".localhost");
    proof {
        if n == 9 {
            assert(host@.subrange(0, 9) =~= host@);
        }
    }
    exact || suffix
}

impl UrlGuard {
    /// Private and loopback hosts are let through (only the scheme and the
    /// presence of a host are enforced).
    pub closed spec fn allows_private(self) -> bool {
        self.allow_private
    }

    /// Create a guard. When `allow_private` is true the guard only enforces the
    /// scheme check and lets private/loopback hosts through.
    pub fn new(allow_private: bool) -> (g: Self)
        ensures
            g.allows_private() == allow_private,
    {
        UrlGuard { allow_private }
    }

    /// Parse and validate `raw`: refuse it, allow it, or name the host whose
    /// resolution must be judged by [`UrlGuard::judge_lookup`].
    pub fn check(&self, raw: &str) -> (r: Result<GuardVerdict, WebError>)
        ensures
            verdict_outcome(r) == guard_outcome(self.allows_private(), raw@),
    {
        self.judge_parsed(raw, parse_url(raw))
    }

    /// Validate `raw` given what parsing it gave: refuse it, allow it, or name
    /// the host whose resolution must be judged by [`UrlGuard::judge_lookup`].
    /// A literal IP host (IPv4 or IPv6) is judged directly; a host name is
    /// refused when it is `localhost`-like and otherwise left to resolution.
    pub fn judge_parsed(&self, raw: &str, parsed: Result<WebUrl, String>) -> (r: Result<GuardVerdict, WebError>)
        ensures
            verdict_outcome(r) == judge_outcome(self.allows_private(), raw@, parse_view(parsed)),
    {
        let url = match parsed {
            Ok(u) => u,
            Err(m) => {
                let msg = quoted_message("invalid URL '", raw, "': ");
                let msg = joined(msg.as_str(), m.as_str());
                return Err(WebError::InvalidParameters(msg));
            },
        };
        if !(str_equals(url.scheme.as_str(), "http") || str_equals(url.scheme.as_str(), "https")) {
            let msg = quoted_message(
                "unsupported URL scheme '",
                url.scheme.as_str(),
                "': only http and https are allowed",
            );
            return Err(WebError::InvalidParameters(msg));
        }
        let host = match &url.host {
            Some(h) => h.clone(),
            None => return Err(WebError::InvalidParameters(joined("URL has no host: ", raw))),
        };
        if self.allow_private {
            return Ok(GuardVerdict::Allowed(url));
        }
        // Literal IP host: judged directly, no resolution.
        if let Some(ip) = url.ip {
            if ip_is_blocked(ip) {
                let text = literal_address_text(host.as_str(), ip);
                let msg = quoted_message("host ", text.as_str(), " is a private/loopback/link-local address");
                return Err(WebError::Blocked(msg));
            }
            return Ok(GuardVerdict::Allowed(url));
        }
        // `localhost` and friends never legitimately point outward.
        if is_local_host_name(host.as_str()) {
            return Err(WebError::Blocked(quoted_message("host '", host.as_str(), "' is local")));
        }
        let port = match url.port {
            Some(p) => p,
            None => 443,
        };
        Ok(GuardVerdict::Resolve(PendingLookup { url, host, port }))
    }

    /// Judge a host name by what resolving it gave: refuse it if resolution
    /// failed, gave nothing, or gave ANY blocked address (the first one in
    /// order is named); otherwise allow the URL.
    pub fn judge_lookup(pending: PendingLookup, lookup: Result<Vec<ResolvedAddress>, String>) -> (r: Result<WebUrl, WebError>)
        ensures
            lookup_refusal(pending.host@, lookup_view(lookup)) matches Some(e) ==> r is Err && r->Err_0@ == e,
            lookup_refusal(pending.host@, lookup_view(lookup)) is None ==> r is Ok && r->Ok_0@ == pending.url@,
    {
        let host = pending.host;
        let addrs = match lookup {
            Err(m) => {
                let msg = quoted_message("could not resolve host '", host.as_str(), "': ");
                return Err(WebError::Navigation(joined(msg.as_str(), m.as_str())));
            },
            Ok(a) => a,
        };
        proof {
            lemma_first_blocked(addrs@);
        }
        let mut i: usize = 0;
        #[verifier::loop_isolation(false)]
        while i < addrs.len()
            invariant
                i <= addrs@.len(),
                forall|j: int| 0 <= j < i ==> !(#[trigger] addrs@[j]).ip.blocked(),
                first_blocked(addrs@) matches Some(k) ==> i <= k,
                first_blocked(addrs@) matches Some(k) ==> 0 <= k < addrs@.len() && addrs@[k].ip.blocked()
                    && forall|j: int| 0 <= j < k ==> !(#[trigger] addrs@[j]).ip.blocked(),
                first_blocked(addrs@) is None ==> forall|j: int| 0 <= j < addrs@.len() ==> !(#[trigger] addrs@[j]).ip.blocked(),
            decreases addrs.len() - i,
        {
            if ip_is_blocked(addrs[i].ip) {
                let msg = quoted_message("host '", host.as_str(), "' resolves to internal address ");
                return Err(WebError::Blocked(joined(msg.as_str(), addrs[i].text.as_str())));
            }
            i = i + 1;
        }
        if addrs.len() == 0 {
            return Err(WebError::Navigation(quoted_message("host '", host.as_str(), "' did not resolve")));
        }
        Ok(pending.url)
    }
}

/// With private hosts refused, a URL the guard lets through has an http(s)
/// scheme and a host, and: either its host is an IP literal (IPv4 or IPv6)
/// outside every blocked range, or its host is a name that is not `localhost` (nor a
/// subdomain of it) and that the guard admits only when it resolved to at
/// least one address and to no blocked address at all.
pub proof fn law_admitted_hosts_are_external(raw: Seq<char>, lookup: Result<Seq<ResolvedAddress>, Seq<char>>)
    ensures
        guard_outcome(false, raw) matches GuardOutcome::Allowed(u) ==> {
            &&& url_parse(raw) == Ok::<UrlFacts, Seq<char>>(u)
            &&& is_web_scheme(u.scheme)
            &&& u.host is Some
            &&& u.ip matches Some(ip) && !ip.blocked()
        },
        guard_outcome(false, raw) matches GuardOutcome::Lookup(u, h, p) ==> {
            &&& url_parse(raw) == Ok::<UrlFacts, Seq<char>>(u)
            &&& is_web_scheme(u.scheme)
            &&& u.host == Some(h)
            &&& !is_local_name(h)
            &&& u.ip is None
            &&& lookup_refusal(h, lookup) is None ==> (lookup matches Ok(a) && a.len() > 0
                && forall|i: int| 0 <= i < a.len() ==> !(#[trigger] a[i]).ip.blocked())
        },
{
    if let Ok(a) = lookup {
        lemma_first_blocked(a);
    }
}

/// With private hosts refused, a URL written with a literal IP host (IPv4 or
/// IPv6) in a blocked range is refused as blocked at once, before any
/// resolution.
pub proof fn law_blocked_literal_refused(raw: Seq<char>)
    requires
        url_parse(raw) matches Ok(u) && is_web_scheme(u.scheme) && u.host is Some && (u.ip matches Some(
            ip,
        ) && ip.blocked()),
    ensures
        guard_outcome(false, raw) matches GuardOutcome::Refused(k, _) && k == WebErrorKind::Blocked,
{
}

/// When private hosts are allowed, the guard enforces only the URL's syntax,
/// its http(s) scheme and the presence of a host: it then allows the URL at
/// once, and never asks for a resolution.
pub proof fn law_allow_private_checks_only_scheme_and_host(raw: Seq<char>)
    ensures
        guard_outcome(true, raw) is Allowed <==> (url_parse(raw) matches Ok(u) && is_web_scheme(u.scheme)
            && u.host is Some),
        !(guard_outcome(true, raw) is Lookup),
{
}

/// Whatever the policy, a URL whose scheme is not http or https is refused as
/// an invalid parameter.
pub proof fn law_scheme_always_enforced(allow_private: bool, raw: Seq<char>)
    ensures
        url_parse(raw) matches Ok(u) && !is_web_scheme(u.scheme) ==> (guard_outcome(allow_private, raw) matches
            GuardOutcome::Refused(k, _) && k == WebErrorKind::InvalidParameters),
{
}

/// An IPv4-mapped IPv6 address `::ffff:a.b.c.d` is blocked exactly when the
/// IPv4 address `a.b.c.d` is.
pub proof fn law_mapped_v6_judged_as_v4(a: u8, b: u8, c: u8, d: u8, s: [u16; 8])
    requires
        is_v4_mapped(s),
        s[6] == ((a as u16) << 8u16) | (b as u16),
        s[7] == ((c as u16) << 8u16) | (d as u16),
    ensures
        IpAddress::V6(s).blocked() == v4_octets_blocked(a, b, c, d),
{
    let (x, y) = (s[6], s[7]);
    assert(x == ((a as u16) << 8u16) | (b as u16) ==> high_byte(x) == a && low_byte(x) == b) by (bit_vector);
    assert(y == ((c as u16) << 8u16) | (d as u16) ==> high_byte(y) == c && low_byte(y) == d) by (bit_vector);
}

/// The internal ranges are blocked whatever the rest of the address:
/// loopback 127.0.0.0/8, private 10.0.0.0/8, 172.16.0.0/12 and
/// 192.168.0.0/16, link-local 169.254.0.0/16, shared 100.64.0.0/10, the
/// unspecified 0.0.0.0 and broadcast 255.255.255.255; for IPv6 the loopback
/// `::1`, the unspecified `::`, link-local fe80::/10 and unique-local fc00::/7.
pub proof fn law_internal_ranges_blocked(o: [u8; 4], s: [u16; 8])
    ensures
        o[0] == 127 ==> IpAddress::V4(o).blocked(),
        o[0] == 10 ==> IpAddress::V4(o).blocked(),
        o[0] == 172 && 16 <= o[1] <= 31 ==> IpAddress::V4(o).blocked(),
        o[0] == 192 && o[1] == 168 ==> IpAddress::V4(o).blocked(),
        o[0] == 169 && o[1] == 254 ==> IpAddress::V4(o).blocked(),
        o[0] == 100 && 64 <= o[1] <= 127 ==> IpAddress::V4(o).blocked(),
        o[0] == 0 && o[1] == 0 && o[2] == 0 && o[3] == 0 ==> IpAddress::V4(o).blocked(),
        o[0] == 255 && o[1] == 255 && o[2] == 255 && o[3] == 255 ==> IpAddress::V4(o).blocked(),
        0xfe80 <= s[0] <= 0xfebf ==> IpAddress::V6(s).blocked(),
        0xfc00 <= s[0] <= 0xfdff ==> IpAddress::V6(s).blocked(),
        s[0] == 0 && s[1] == 0 && s[2] == 0 && s[3] == 0 && s[4] == 0 && s[5] == 0 && s[6] == 0 && s[7] <= 1
            ==> IpAddress::V6(s).blocked(),
{
}

/// Public addresses stay reachable: an IPv4 address whose first octet is none
/// of 0, 10, 100, 127, 169, 172, 192 and 255 is not blocked, nor are the
/// neighbours of the private ranges (172.x outside 172.16.0.0/12, 192.x
/// outside 192.168.0.0/16, 169.x outside 169.254.0.0/16, 100.x outside
/// 100.64.0.0/10), nor any IPv6 global unicast address (2000::/3).
pub proof fn law_public_addresses_not_blocked(o: [u8; 4], s: [u16; 8])
    ensures
        o[0] != 0 && o[0] != 10 && o[0] != 100 && o[0] != 127 && o[0] != 169 && o[0] != 172 && o[0] != 192
            && o[0] != 255 ==> !IpAddress::V4(o).blocked(),
        o[0] == 172 && (o[1] < 16 || o[1] > 31) ==> !IpAddress::V4(o).blocked(),
        o[0] == 192 && o[1] != 168 ==> !IpAddress::V4(o).blocked(),
        o[0] == 169 && o[1] != 254 ==> !IpAddress::V4(o).blocked(),
        o[0] == 100 && (o[1] < 64 || o[1] > 127) ==> !IpAddress::V4(o).blocked(),
        0x2000 <= s[0] <= 0x3fff ==> !IpAddress::V6(s).blocked(),
{
}

/// How a host name is judged by its resolution: a failed resolution, and one
/// that gave no address, are refused as navigation errors; one that gave any
/// blocked address is refused as blocked; one that gave at least one address
/// and no blocked address admits the URL, however many addresses it gave.
pub proof fn law_resolution_judgement(host: Seq<char>, lookup: Result<Seq<ResolvedAddress>, Seq<char>>)
    ensures
        lookup is Err ==> (lookup_refusal(host, lookup) matches Some((k, _)) && k == WebErrorKind::Navigation),
        lookup matches Ok(a) && a.len() == 0 ==> (lookup_refusal(host, lookup) matches Some((k, _)) && k
            == WebErrorKind::Navigation),
        lookup matches Ok(a) && (exists|i: int| 0 <= i < a.len() && (#[trigger] a[i]).ip.blocked())
            ==> (lookup_refusal(host, lookup) matches Some((k, _)) && k == WebErrorKind::Blocked),
        lookup matches Ok(a) && a.len() > 0 && (forall|i: int| 0 <= i < a.len() ==> !(#[trigger] a[i]).ip.blocked())
            ==> lookup_refusal(host, lookup) is None,
{
    if let Ok(a) = lookup {
        lemma_first_blocked(a);
    }
}

/// With private hosts refused, a well-formed http(s) URL whose host is a
/// literal address outside every blocked range is allowed at once, and one
/// whose host is a name other than `localhost` and its subdomains is sent to
/// resolution, on its explicit port or else 443.
pub proof fn law_external_hosts_go_ahead(raw: Seq<char>)
    requires
        url_parse(raw) matches Ok(u) && is_web_scheme(u.scheme) && u.host is Some,
    ensures
        url_parse(raw) matches Ok(u) && (u.ip matches Some(ip) && !ip.blocked() ==> guard_outcome(false, raw)
            == GuardOutcome::Allowed(u)),
        url_parse(raw) matches Ok(u) && (u.ip is None && !is_local_name(u.host->Some_0) ==> guard_outcome(false, raw)
            == GuardOutcome::Lookup(u, u.host->Some_0, match u.port { Some(p) => p, None => 443 })),
        url_parse(raw) matches Ok(u) && (u.ip is None && is_local_name(u.host->Some_0) ==> (guard_outcome(
            false,
            raw,
        ) matches GuardOutcome::Refused(k, _) && k == WebErrorKind::Blocked)),
{
}

/// `localhost` and every subdomain of it are local names, in any mix of
/// ASCII case.
pub proof fn law_localhost_names_are_local(h: Seq<char>)
    ensures
        h == "localhost"@ ==> is_local_name(h),
        h.len() > 10 && h.subrange(h.len() - 10, h.len() as int) == ".localhost"@ ==> is_local_name(h),
        eq_ignore_ascii_case(h, "localhost"@) ==> is_local_name(h),
{
    reveal_strlit("localhost");
    reveal_strlit(".localhost");
    if h == "localhost"@ {
        assert forall|i: int| 0 <= i < h.len() implies #[trigger] ascii_lower(h[i]) == "localhost"@[i] as u32 by {}
    }
    if h.len() > 10 && h.subrange(h.len() - 10, h.len() as int) == ".localhost"@ {
        let t = h.subrange(h.len() - 10, h.len() as int);
        assert forall|i: int| 0 <= i < t.len() implies #[trigger] ascii_lower(t[i]) == ".localhost"@[i] as u32 by {}
    }
}

} // verus!
