use web_mcp::error::WebError;
use web_mcp::url_guard::{ip_is_blocked, is_local_host_name, GuardVerdict, IpAddress, ResolvedAddress, UrlGuard};

/// The address written as `text` (dotted IPv4, or IPv6).
fn ip(text: &str) -> IpAddress {
    let bracketed = if text.contains(':') { format!("[{text}]") } else { text.to_string() };
    match url::Host::parse(&bracketed).unwrap() {
        url::Host::Ipv4(a) => IpAddress::V4(a.octets()),
        url::Host::Ipv6(a) => IpAddress::V6(a.segments()),
        url::Host::Domain(d) => panic!("{d} is not an IP address"),
    }
}

#[test]
fn blocks_internal_v4() {
    for addr in ["127.0.0.1", "10.1.2.3", "172.16.5.5", "192.168.0.1", "169.254.169.254", "0.0.0.0", "100.64.0.1"] {
        assert!(ip_is_blocked(ip(addr)), "{addr} should be blocked");
    }
}

#[test]
fn allows_public_v4() {
    for addr in ["1.1.1.1", "8.8.8.8", "93.184.216.34"] {
        assert!(!ip_is_blocked(ip(addr)), "{addr} should be allowed");
    }
}

#[test]
fn blocks_internal_v6() {
    for addr in ["::1", "fe80::1", "fc00::1", "::ffff:127.0.0.1", "::"] {
        assert!(ip_is_blocked(ip(addr)), "{addr} should be blocked");
    }
    assert!(!ip_is_blocked(ip("2606:4700:4700::1111")));
}

#[test]
fn range_edges_v4() {
    assert!(ip_is_blocked(ip("172.31.255.255")));
    assert!(!ip_is_blocked(ip("172.32.0.1")));
    assert!(!ip_is_blocked(ip("172.15.0.1")));
    assert!(ip_is_blocked(ip("100.127.255.255")));
    assert!(!ip_is_blocked(ip("100.128.0.1")));
    assert!(!ip_is_blocked(ip("100.63.0.1")));
    assert!(ip_is_blocked(ip("255.255.255.255")));
    assert!(!ip_is_blocked(ip("255.255.255.254")));
    assert!(!ip_is_blocked(ip("192.169.0.1")));
}

#[test]
fn range_edges_v6() {
    assert!(ip_is_blocked(ip("febf::1")));
    assert!(!ip_is_blocked(ip("fec0::1")));
    assert!(ip_is_blocked(ip("fdff::1")));
    assert!(!ip_is_blocked(ip("fe00::1")));
    assert!(!ip_is_blocked(ip("::2")));
    assert!(!ip_is_blocked(ip("::ffff:8.8.8.8")));
    assert!(ip_is_blocked(ip("::ffff:169.254.169.254")));
}

#[test]
fn rejects_non_http_scheme() {
    let guard = UrlGuard::new(false);
    assert!(guard.check(" file:///etc/passwd").is_err());
    assert!(guard.check("ftp://example.com").is_err());
}

#[test]
fn rejects_literal_localhost() {
    let guard = UrlGuard::new(false);
    assert!(guard.check("http://127.0.0.1:8080/").is_err());
    assert!(guard.check("http://localhost/").is_err());
}

#[test]
fn allow_private_bypasses_ip_check() {
    let guard = UrlGuard::new(true);
    assert!(guard.check("http://127.0.0.1:8080/").is_ok());
    // scheme is still enforced
    assert!(guard.check("file:///etc/passwd").is_err());
}

#[test]
fn refusal_messages_are_exact() {
    let guard = UrlGuard::new(false);
    match guard.check("http://127.0.0.1/") {
        Err(WebError::Blocked(m)) => assert_eq!(m, "host 127.0.0.1 is a private/loopback/link-local address"),
        other => panic!("unexpected {other:?}"),
    }
    match guard.check("http://Sub.LocalHost:8080/") {
        Err(WebError::Blocked(m)) => assert_eq!(m, "host 'sub.localhost' is local"),
        other => panic!("unexpected {other:?}"),
    }
    match guard.check("ftp://example.com") {
        Err(WebError::InvalidParameters(m)) => {
            assert_eq!(m, "unsupported URL scheme 'ftp': only http and https are allowed")
        },
        other => panic!("unexpected {other:?}"),
    }
    match guard.check("not a url") {
        Err(WebError::InvalidParameters(m)) => assert_eq!(m, "invalid URL 'not a url': relative URL without a base"),
        other => panic!("unexpected {other:?}"),
    }
}

#[test]
fn public_literal_is_allowed_at_once() {
    let guard = UrlGuard::new(false);
    match guard.check("https://93.184.216.34/x") {
        Ok(GuardVerdict::Allowed(u)) => assert_eq!(u.serialization, "https://93.184.216.34/x"),
        other => panic!("unexpected {other:?}"),
    }
}

#[test]
fn names_are_resolved_with_default_ports() {
    let guard = UrlGuard::new(false);
    match guard.check("https://Example.COM/a") {
        Ok(GuardVerdict::Resolve(p)) => {
            assert_eq!(p.host, "example.com");
            assert_eq!(p.port, 443);
            assert_eq!(p.url.serialization, "https://example.com/a");
        },
        other => panic!("unexpected {other:?}"),
    }
    match guard.check("http://example.com:8080/") {
        Ok(GuardVerdict::Resolve(p)) => assert_eq!(p.port, 8080),
        other => panic!("unexpected {other:?}"),
    }
    match guard.check("http://example.com/") {
        Ok(GuardVerdict::Resolve(p)) => assert_eq!(p.port, 80),
        other => panic!("unexpected {other:?}"),
    }
}

fn pending(raw: &str) -> web_mcp::url_guard::PendingLookup {
    match UrlGuard::new(false).check(raw) {
        Ok(GuardVerdict::Resolve(p)) => p,
        other => panic!("unexpected {other:?}"),
    }
}

fn resolved(text: &str) -> ResolvedAddress {
    ResolvedAddress { ip: ip(text), text: text.to_string() }
}

#[test]
fn lookup_with_any_internal_address_is_refused() {
    let r = UrlGuard::judge_lookup(
        pending("https://rebind.example/"),
        Ok(vec![resolved("93.184.216.34"), resolved("10.0.0.5"), resolved("127.0.0.1")]),
    );
    match r {
        Err(WebError::Blocked(m)) => assert_eq!(m, "host 'rebind.example' resolves to internal address 10.0.0.5"),
        other => panic!("unexpected {other:?}"),
    }
}

#[test]
fn lookup_of_public_addresses_is_allowed() {
    let r = UrlGuard::judge_lookup(pending("https://example.com/"), Ok(vec![resolved("93.184.216.34"), resolved("2606:2800:220:1::1")]));
    assert_eq!(r.unwrap().serialization, "https://example.com/");
}

#[test]
fn empty_or_failed_lookup_is_a_navigation_error() {
    match UrlGuard::judge_lookup(pending("https://nowhere.example/"), Ok(vec![])) {
        Err(WebError::Navigation(m)) => assert_eq!(m, "host 'nowhere.example' did not resolve"),
        other => panic!("unexpected {other:?}"),
    }
    match UrlGuard::judge_lookup(pending("https://nowhere.example/"), Err("no such host".to_string())) {
        Err(WebError::Navigation(m)) => assert_eq!(m, "could not resolve host 'nowhere.example': no such host"),
        other => panic!("unexpected {other:?}"),
    }
}

#[test]
fn local_host_names() {
    assert!(is_local_host_name("localhost"));
    assert!(is_local_host_name("LOCALHOST"));
    assert!(is_local_host_name("a.b.localhost"));
    assert!(!is_local_host_name("notlocalhost"));
    assert!(!is_local_host_name("localhost.example"));
    assert!(!is_local_host_name(".localhos"));
}

#[test]
fn internal_ipv6_literals_are_refused_at_once() {
    let guard = UrlGuard::new(false);
    for (url, addr) in [
        ("http://[::1]:8080/", "::1"),
        ("http://[fd00::1]/", "fd00::1"),
        ("http://[fe80::1]/", "fe80::1"),
        ("http://[::ffff:127.0.0.1]/", "::ffff:127.0.0.1"),
    ] {
        match guard.check(url) {
            Err(WebError::Blocked(m)) => {
                assert_eq!(m, format!("host {addr} is a private/loopback/link-local address"))
            },
            other => panic!("{url}: unexpected {other:?}"),
        }
    }
}

#[test]
fn public_ipv6_literal_is_allowed_at_once() {
    match UrlGuard::new(false).check("https://[2606:4700:4700::1111]/") {
        Ok(GuardVerdict::Allowed(u)) => assert_eq!(u.serialization, "https://[2606:4700:4700::1111]/"),
        other => panic!("unexpected {other:?}"),
    }
}
