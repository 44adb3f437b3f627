use aiboard::domain::error::DomainError;
use aiboard::infra::http::{
    check_declared_size, check_received_size, check_resolved, check_url, follow_redirect,
    is_blocked_ip, is_blocked_ipv4, judge_status, port_of, resolve_redirect, validate_url,
    IpAddress, ResolvedAddress, StatusVerdict, UrlParts, MAX_REDIRECTS, MAX_RESPONSE_SIZE,
};

fn refused(text: &str) -> DomainError {
    DomainError::InvalidInput(text.to_string())
}

#[test]
fn addresses_that_are_not_public_are_blocked() {
    assert!(is_blocked_ipv4(127, 0, 0, 1));
    assert!(is_blocked_ipv4(127, 255, 255, 254));
    assert!(is_blocked_ipv4(10, 1, 2, 3));
    assert!(is_blocked_ipv4(172, 16, 0, 1));
    assert!(is_blocked_ipv4(172, 31, 255, 255));
    assert!(!is_blocked_ipv4(172, 15, 0, 1));
    assert!(!is_blocked_ipv4(172, 32, 0, 1));
    assert!(is_blocked_ipv4(192, 168, 1, 1));
    assert!(!is_blocked_ipv4(192, 169, 1, 1));
    assert!(is_blocked_ipv4(169, 254, 169, 254));
    assert!(is_blocked_ipv4(0, 0, 0, 0));
    assert!(!is_blocked_ipv4(0, 0, 0, 1));
    assert!(is_blocked_ipv4(255, 255, 255, 255));
    assert!(!is_blocked_ipv4(255, 255, 255, 254));
    assert!(!is_blocked_ipv4(8, 8, 8, 8));
    assert!(!is_blocked_ipv4(93, 184, 216, 34));
}

#[test]
fn addresses_of_the_newer_kind_are_judged_too() {
    assert!(is_blocked_ip(&IpAddress::V6([0, 0, 0, 0, 0, 0, 0, 1])));
    assert!(is_blocked_ip(&IpAddress::V6([0, 0, 0, 0, 0, 0, 0, 0])));
    assert!(is_blocked_ip(&IpAddress::V6([0xfe80, 0, 0, 0, 0, 0, 0, 1])));
    assert!(is_blocked_ip(&IpAddress::V6([0xfebf, 1, 2, 3, 4, 5, 6, 7])));
    assert!(!is_blocked_ip(&IpAddress::V6([0xfec0, 0, 0, 0, 0, 0, 0, 1])));
    assert!(is_blocked_ip(&IpAddress::V6([0, 0, 0, 0, 0, 0xffff, 0x7f00, 0x0001])));
    assert!(is_blocked_ip(&IpAddress::V6([0, 0, 0, 0, 0, 0xffff, 0xc0a8, 0x0101])));
    assert!(!is_blocked_ip(&IpAddress::V6([0, 0, 0, 0, 0, 0xffff, 0x0808, 0x0808])));
    assert!(!is_blocked_ip(&IpAddress::V6([0x2001, 0xdb8, 0, 0, 0, 0, 0, 1])));
    assert!(!is_blocked_ip(&IpAddress::V6([0, 0, 0, 0, 0, 0, 0, 2])));
    assert!(is_blocked_ip(&IpAddress::V4(10, 0, 0, 1)));
    assert!(!is_blocked_ip(&IpAddress::V4(1, 1, 1, 1)));
}

#[test]
fn urls_are_judged_by_scheme_and_host() {
    let parts = check_url("https://example.com/path?q=1").unwrap();
    assert_eq!(
        parts,
        UrlParts {
            scheme: "https".to_string(),
            host: Some("example.com".to_string()),
            literal: None,
            port: None,
        }
    );
    assert_eq!(port_of(&parts), 443);
    let parts = check_url("http://Example.COM:8080/").unwrap();
    assert_eq!(parts.host, Some("example.com".to_string()));
    assert_eq!(parts.port, Some(8080));
    assert_eq!(port_of(&parts), 8080);
    assert_eq!(port_of(&check_url("http://example.com/").unwrap()), 80);
    assert_eq!(check_url("http://8.8.8.8/").unwrap().literal, Some(IpAddress::V4(8, 8, 8, 8)));

    assert_eq!(
        check_url("ftp://example.com/"),
        Err(refused("unsupported URL scheme: ftp (only http/https allowed)"))
    );
    assert_eq!(
        check_url("file:///etc/passwd"),
        Err(refused("unsupported URL scheme: file (only http/https allowed)"))
    );
    assert_eq!(check_url("http://localhost/"), Err(refused("access to localhost is not allowed")));
    assert_eq!(
        check_url("http://LOCALHOST:3000/"),
        Err(refused("access to localhost is not allowed"))
    );
    assert_eq!(
        check_url("http://metadata.google.internal/x"),
        Err(refused("access to metadata.google.internal is not allowed"))
    );
    assert_eq!(check_url("http://127.0.0.1/"), Err(refused("access to 127.0.0.1 is not allowed")));
    assert_eq!(
        check_url("http://169.254.169.254/latest"),
        Err(refused("access to 169.254.169.254 is not allowed"))
    );
    assert_eq!(check_url("http://[::1]/"), Err(refused("access to [::1] is not allowed")));
    assert_eq!(check_url("http://0x7f.1/"), Err(refused("access to 127.0.0.1 is not allowed")));
    match check_url("not a url") {
        Err(DomainError::InvalidInput(text)) => assert!(text.starts_with("invalid URL: ")),
        other => panic!("unexpected: {:?}", other),
    }
    let hostless = UrlParts { scheme: "http".to_string(), host: None, literal: None, port: None };
    assert_eq!(validate_url(&hostless), Err(refused("URL has no host")));
}

#[test]
fn a_host_may_not_resolve_to_a_blocked_address() {
    let public = ResolvedAddress { ip: IpAddress::V4(93, 184, 216, 34), text: "93.184.216.34".to_string() };
    let private = ResolvedAddress { ip: IpAddress::V4(10, 0, 0, 7), text: "10.0.0.7".to_string() };
    let loopback = ResolvedAddress { ip: IpAddress::V6([0, 0, 0, 0, 0, 0, 0, 1]), text: "::1".to_string() };
    assert_eq!(check_resolved("example.com", &vec![public.clone()]), Ok(()));
    assert_eq!(check_resolved("example.com", &vec![]), Ok(()));
    assert_eq!(
        check_resolved("evil.example", &vec![public.clone(), private, loopback]),
        Err(refused("access to evil.example is not allowed (resolves to blocked IP 10.0.0.7)"))
    );
}

#[test]
fn redirects_are_followed_up_to_the_limit() {
    let hop = follow_redirect(0, "https://example.com/a/b", "../c?x=1").unwrap();
    assert_eq!(hop.redirects, 1);
    assert_eq!(hop.url, "https://example.com/c?x=1");
    assert_eq!(hop.parts.host, Some("example.com".to_string()));
    let hop = follow_redirect(4, "https://example.com/", "http://other.example/x").unwrap();
    assert_eq!(hop.redirects, 5);
    assert_eq!(hop.url, "http://other.example/x");
    assert_eq!(
        follow_redirect(5, "https://example.com/", "/next"),
        Err(DomainError::Network("too many redirects (limit: 5)".to_string()))
    );
    assert_eq!(MAX_REDIRECTS, 5);
    assert_eq!(
        follow_redirect(0, "https://example.com/", "http://127.0.0.1/admin"),
        Err(refused("access to 127.0.0.1 is not allowed"))
    );
    assert_eq!(
        follow_redirect(0, "https://example.com/", "gopher://example.com/"),
        Err(refused("unsupported URL scheme: gopher (only http/https allowed)"))
    );
    assert_eq!(
        resolve_redirect("https://example.com/a", "//cdn.example/lib.js"),
        Ok("https://cdn.example/lib.js".to_string())
    );
    match resolve_redirect("nonsense", "/x") {
        Err(DomainError::InvalidInput(text)) => assert!(text.starts_with("invalid base URL: ")),
        other => panic!("unexpected: {:?}", other),
    }
    match resolve_redirect("https://example.com/", "http://[broken") {
        Err(DomainError::InvalidInput(text)) => {
            assert!(text.starts_with("invalid redirect location: "))
        }
        other => panic!("unexpected: {:?}", other),
    }
}

#[test]
fn a_status_is_a_redirect_or_a_failure() {
    assert_eq!(judge_status(301, Some("/moved")), StatusVerdict::Redirect("/moved".to_string()));
    assert_eq!(judge_status(308, Some("/moved")), StatusVerdict::Redirect("/moved".to_string()));
    assert_eq!(
        judge_status(302, None),
        StatusVerdict::Fail(DomainError::Network("HTTP 302 error".to_string()))
    );
    assert_eq!(
        judge_status(300, Some("/x")),
        StatusVerdict::Fail(DomainError::Network("HTTP 300 error".to_string()))
    );
    assert_eq!(
        judge_status(404, Some("/x")),
        StatusVerdict::Fail(DomainError::Network("HTTP 404 error".to_string()))
    );
    assert_eq!(
        judge_status(500, None),
        StatusVerdict::Fail(DomainError::Network("HTTP 500 error".to_string()))
    );
}

#[test]
fn answers_may_not_exceed_the_size_limit() {
    assert_eq!(MAX_RESPONSE_SIZE, 10 * 1024 * 1024);
    assert_eq!(check_declared_size(0), Ok(()));
    assert_eq!(check_declared_size(10_485_760), Ok(()));
    assert_eq!(
        check_declared_size(10_485_761),
        Err(refused("response too large: 10485761 bytes (limit: 10485760 bytes)"))
    );
    assert_eq!(check_received_size(10_485_760), Ok(()));
    assert_eq!(
        check_received_size(10_485_761),
        Err(refused("response exceeded 10485760 byte limit"))
    );
}
