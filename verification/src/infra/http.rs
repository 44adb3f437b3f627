//! The rules for fetching a document from a URL: which URLs may be fetched at all,
//! which addresses a host may resolve to, how far redirects are followed, and how
//! large an answer may be. The requests themselves are made by the caller.

use vstd::prelude::*;
use crate::domain::error::DomainError;
use crate::domain::text::{decimal, decimal_digits, joined, lowercase, lowercase_of, same_text};

verus! {

/// The most bytes that an answer may have: ten mebibytes.
pub const MAX_RESPONSE_SIZE: usize = 10_485_760;

/// The seconds after which connecting or reading is given up.
pub const TIMEOUT_SECS: u64 = 30;

/// The most redirects that are followed.
pub const MAX_REDIRECTS: u32 = 5;

/// An IP address.
#[derive(Debug, Clone, Copy, PartialEq, Eq)]
pub enum IpAddress {
    /// The four octets of an IPv4 address.
    V4(u8, u8, u8, u8),
    /// The eight segments of an IPv6 address.
    V6([u16; 8]),
}

/// An address that a host name resolved to, with its text.
#[derive(Debug, Clone, PartialEq, Eq)]
pub struct ResolvedAddress {
    pub ip: IpAddress,
    pub text: String,
}

/// What the engine reads of a URL.
#[derive(Debug, Clone, PartialEq, Eq)]
pub struct UrlParts {
    /// The scheme, in lower case.
    pub scheme: String,
    /// The host as the URL writes it, if it has one.
    pub host: Option<String>,
    /// The address that the host is, if it is one and not a name.
    pub literal: Option<IpAddress>,
    /// The port, if the URL names one that is not the default of its scheme.
    pub port: Option<u16>,
}

/// The parts of the URL that the url crate reads from a text, if it reads one.
pub uninterp spec fn url_parts(url: Seq<char>) -> Option<UrlParts>;

/// What the url crate makes of `location` relative to the URL `base`, if anything.
pub uninterp spec fn url_joined(base: Seq<char>, location: Seq<char>) -> Option<Seq<char>>;

/// `url::Url::parse` with `Url::scheme`, `Url::host`, `Url::host_str` and
/// `Url::port`: the parts of the URL that the text denotes, or the url crate's
/// description of why it denotes none. The parts are a function of the text alone;
/// nothing is claimed of the description.
#[verifier::external_body]
pub(crate) fn dissect_url(url: &str) -> (r: Result<UrlParts, String>)
    ensures
        match r {
            Ok(parts) => url_parts(url@) == Some(parts),
            Err(_) => url_parts(url@) is None,
        },
{
    let u = url::Url::parse(url).map_err(|e| e.to_string())?;
    let literal = match u.host() {
        Some(url::Host::Ipv4(a)) => Some(
            IpAddress::V4(a.octets()[0], a.octets()[1], a.octets()[2], a.octets()[3]),
        ),
        Some(url::Host::Ipv6(a)) => Some(IpAddress::V6(a.segments())),
        _ => None,
    };
    let host = u.host_str().map(|h| h.to_string());
    Ok(UrlParts { scheme: u.scheme().to_string(), host, literal, port: u.port() })
}

/// `url::Url::parse` and `Url::join`: the text of the URL that `location` denotes
/// relative to `base`, or the url crate's description of why it denotes none. The
/// URL is a function of the two texts alone; nothing is claimed of the description.
#[verifier::external_body]
pub(crate) fn join_url(base: &str, location: &str) -> (r: Result<String, String>)
    ensures
        match r {
            Ok(u) => url_joined(base@, location@) == Some(u@),
            Err(_) => url_joined(base@, location@) is None,
        },
{
    let b = url::Url::parse(base).map_err(|e| e.to_string())?;
    b.join(location).map(|u| u.to_string()).map_err(|e| e.to_string())
}

/// An IPv4 address that must not be fetched from: loopback, private, link-local,
/// unspecified or broadcast.
pub open spec fn blocked_v4(a: u8, b: u8, c: u8, d: u8) -> bool {
    ||| a == 127
    ||| a == 10
    ||| (a == 172 && 16 <= b <= 31)
    ||| (a == 192 && b == 168)
    ||| (a == 169 && b == 254)
    ||| (a == 0 && b == 0 && c == 0 && d == 0)
    ||| (a == 255 && b == 255 && c == 255 && d == 255)
}

/// The first six segments are zero.
pub open spec fn leading_zero(s: [u16; 8]) -> bool {
    s[0] == 0 && s[1] == 0 && s[2] == 0 && s[3] == 0 && s[4] == 0 && s[5] == 0
}

/// An IPv6 address that must not be fetched from: loopback, unspecified, link-local,
/// or an IPv4 address in IPv6 form that must not be fetched from.
pub open spec fn blocked_v6(s: [u16; 8]) -> bool {
    ||| (leading_zero(s) && s[6] == 0 && (s[7] == 1 || s[7] == 0))
    ||| s[0] & 0xffc0 == 0xfe80
    ||| (s[0] == 0 && s[1] == 0 && s[2] == 0 && s[3] == 0 && s[4] == 0 && s[5] == 0xffff
        && blocked_v4((s[6] >> 8) as u8, (s[6] & 0xff) as u8, (s[7] >> 8) as u8, (s[7] & 0xff) as u8))
}

/// An address that must not be fetched from.
pub open spec fn blocked_ip(ip: IpAddress) -> bool {
    match ip {
        IpAddress::V4(a, b, c, d) => blocked_v4(a, b, c, d),
        IpAddress::V6(s) => blocked_v6(s),
    }
}

/// Whether an IPv4 address must not be fetched from.
pub fn is_blocked_ipv4(a: u8, b: u8, c: u8, d: u8) -> (r: bool)
    ensures
        r == blocked_v4(a, b, c, d),
{
    a == 127 || a == 10 || (a == 172 && 16 <= b && b <= 31) || (a == 192 && b == 168) || (a == 169
        && b == 254) || (a == 0 && b == 0 && c == 0 && d == 0) || (a == 255 && b == 255 && c == 255
        && d == 255)
}

/// Whether an address must not be fetched from.
pub fn is_blocked_ip(ip: &IpAddress) -> (r: bool)
    ensures
        r == blocked_ip(*ip),
{
    match ip {
        IpAddress::V4(a, b, c, d) => is_blocked_ipv4(*a, *b, *c, *d),
        IpAddress::V6(s) => {
            let zero = s[0] == 0 && s[1] == 0 && s[2] == 0 && s[3] == 0 && s[4] == 0;
            if zero && s[5] == 0 && s[6] == 0 && (s[7] == 1 || s[7] == 0) {
                return true;
            }
            if s[0] & 0xffc0 == 0xfe80 {
                return true;
            }
            if zero && s[5] == 0xffff {
                let hi: u16 = s[6];
                let lo: u16 = s[7];
                assert(hi >> 8 <= 0xff) by (bit_vector);
                assert(hi & 0xff <= 0xff) by (bit_vector);
                assert(lo >> 8 <= 0xff) by (bit_vector);
                assert(lo & 0xff <= 0xff) by (bit_vector);
                return is_blocked_ipv4(
                    (hi >> 8) as u8,
                    (hi & 0xff) as u8,
                    (lo >> 8) as u8,
                    (lo & 0xff) as u8,
                );
            }
            false
        },
    }
}

/// A host name that must not be fetched from, in lower case.
pub open spec fn blocked_name(host: Seq<char>) -> bool {
    host == "localhost"@ || host == "metadata.google.internal"@ || host == "metadata.google"@
}

/// Why a URL with these parts may not be fetched, judged without resolving its
/// host: the first rule that it breaks.
pub open spec fn url_defect(parts: UrlParts) -> Option<Seq<char>> {
    if parts.scheme@ != "http"@ && parts.scheme@ != "https"@ {
        Some("unsupported URL scheme: "@ + parts.scheme@ + " (only http/https allowed)"@)
    } else {
        match parts.host {
            None => Some("URL has no host"@),
            Some(host) => if blocked_name(lowercase_of(host@)) || (parts.literal matches Some(ip)
                && blocked_ip(ip)) {
                Some("access to "@ + host@ + " is not allowed"@)
            } else {
                None
            },
        }
    }
}

/// The port at which a URL with these parts is fetched: its own, or the default of
/// its scheme.
pub open spec fn effective_port(parts: UrlParts) -> u16 {
    match parts.port {
        Some(p) => p,
        None => if parts.scheme@ == "https"@ {
            443u16
        } else {
            80u16
        },
    }
}

/// The input error with the given text.
fn refusal(text: String) -> (e: DomainError)
    ensures
        e matches DomainError::InvalidInput(t) && t@ == text@,
{
    DomainError::InvalidInput(text)
}

/// Whether a URL with these parts may be fetched, judged without resolving its
/// host: its scheme is `http` or `https`, it has a host, and the host is neither a
/// blocked name nor a blocked address.
pub fn validate_url(parts: &UrlParts) -> (r: Result<(), DomainError>)
    ensures
        match r {
            Ok(()) => url_defect(*parts) is None,
            Err(e) => e matches DomainError::InvalidInput(why) && url_defect(*parts) == Some(why@),
        },
{
    let scheme = parts.scheme.as_str();
    if !same_text(scheme, "http") && !same_text(scheme, "https") {
        let head = joined("unsupported URL scheme: ", scheme);
        return Err(refusal(joined(head.as_str(), " (only http/https allowed)")));
    }
    validate_host(parts)
}

/// Whether the host of a URL may be fetched from, judged without resolving it.
fn validate_host(parts: &UrlParts) -> (r: Result<(), DomainError>)
    requires
        parts.scheme@ == "http"@ || parts.scheme@ == "https"@,
    ensures
        match r {
            Ok(()) => url_defect(*parts) is None,
            Err(e) => e matches DomainError::InvalidInput(why) && url_defect(*parts) == Some(why@),
        },
{
    let host = match &parts.host {
        Some(h) => h.as_str(),
        None => {
            return Err(refusal(String::from_str("URL has no host")));
        },
    };
    let lower = lowercase(host);
    let by_name = same_text(lower.as_str(), "localhost") || same_text(
        lower.as_str(),
        "metadata.google.internal",
    ) || same_text(lower.as_str(), "metadata.google");
    let by_address = match &parts.literal {
        Some(ip) => is_blocked_ip(ip),
        None => false,
    };
    if by_name || by_address {
        let head = joined("access to ", host);
        return Err(refusal(joined(head.as_str(), " is not allowed")));
    }
    Ok(())
}

/// The port at which a URL with these parts is fetched.
pub fn port_of(parts: &UrlParts) -> (p: u16)
    ensures
        p == effective_port(*parts),
{
    match parts.port {
        Some(p) => p,
        None => if same_text(parts.scheme.as_str(), "https") {
            443
        } else {
            80
        },
    }
}

/// The first of `addrs` that must not be fetched from, from `from` on.
pub open spec fn first_blocked(addrs: Seq<ResolvedAddress>, from: int) -> Option<ResolvedAddress>
    decreases addrs.len() - from,
{
    if from < 0 || from >= addrs.len() {
        None
    } else if blocked_ip(addrs[from].ip) {
        Some(addrs[from])
    } else {
        first_blocked(addrs, from + 1)
    }
}

/// Whether `host` may be fetched from, given the addresses that it resolved to: it
/// may not if any of them is blocked, and the refusal names the first that is.
pub fn check_resolved(host: &str, addrs: &Vec<ResolvedAddress>) -> (r: Result<(), DomainError>)
    ensures
        match r {
            Ok(()) => first_blocked(addrs@, 0) is None,
            Err(e) => {
                &&& e matches DomainError::InvalidInput(why)
                &&& first_blocked(addrs@, 0) matches Some(bad)
                &&& why@ == "access to "@ + host@ + " is not allowed (resolves to blocked IP "@
                    + bad.text@ + ")"@
            },
        },
{
    let mut i: usize = 0;
    while i < addrs.len()
        invariant
            i <= addrs.len(),
            first_blocked(addrs@, 0) == first_blocked(addrs@, i as int),
        decreases addrs.len() - i,
    {
        if is_blocked_ip(&addrs[i].ip) {
            let a = joined("access to ", host);
            let b = joined(a.as_str(), " is not allowed (resolves to blocked IP ");
            let c = joined(b.as_str(), addrs[i].text.as_str());
            assert(first_blocked(addrs@, i as int) == Some(addrs@[i as int]));
            return Err(refusal(joined(c.as_str(), ")")));
        }
        i += 1;
    }
    Ok(())
}

/// What an answer with the given status and `Location` header means for a fetch.
#[derive(Debug, Clone, PartialEq, Eq)]
pub enum StatusVerdict {
    /// The fetch goes on at this location.
    Redirect(String),
    /// The fetch fails with this error.
    Fail(DomainError),
}

/// A status from 301 to 308 with a location is a redirect to it; any other failing
/// status is a network error that names the status.
pub fn judge_status(status: u16, location: Option<&str>) -> (r: StatusVerdict)
    ensures
        match r {
            StatusVerdict::Redirect(to) => {
                &&& 301 <= status <= 308
                &&& location matches Some(l)
                &&& to@ == l@
            },
            StatusVerdict::Fail(e) => {
                &&& !(301 <= status <= 308 && location is Some)
                &&& e matches DomainError::Network(why)
                &&& why@ == "HTTP "@ + decimal_digits(status as nat) + " error"@
            },
        },
{
    if 301 <= status && status <= 308 {
        if let Some(l) = location {
            return StatusVerdict::Redirect(String::from_str(l));
        }
    }
    let code = decimal(status as usize);
    let head = joined("HTTP ", code.as_str());
    StatusVerdict::Fail(DomainError::Network(joined(head.as_str(), " error")))
}

/// The URL that a redirect to `location` leads to from `base`.
pub fn resolve_redirect(base: &str, location: &str) -> (r: Result<String, DomainError>)
    ensures
        match r {
            Ok(u) => url_joined(base@, location@) == Some(u@),
            Err(e) => e is InvalidInput && url_joined(base@, location@) is None,
        },
{
    match join_url(base, location) {
        Ok(u) => Ok(u),
        Err(why) => {
            let context = match dissect_url(base) {
                Ok(_) => "invalid redirect location: ",
                Err(_) => "invalid base URL: ",
            };
            Err(DomainError::InvalidInput(joined(context, why.as_str())))
        },
    }
}

/// Where a fetch goes after one more redirect.
#[derive(Debug, Clone, PartialEq, Eq)]
pub struct NextHop {
    /// The number of redirects followed, this one included.
    pub redirects: u32,
    /// The URL to fetch next.
    pub url: String,
    /// Its parts, which passed the rules that need no resolving.
    pub parts: UrlParts,
}

/// What following a redirect to `location` from `current_url` leads to, after
/// `redirects` redirects were followed already: the next URL, or the error that ends
/// the fetch. The sixth redirect is one too many.
pub fn follow_redirect(redirects: u32, current_url: &str, location: &str) -> (r: Result<
    NextHop,
    DomainError,
>)
    ensures
        match r {
            Ok(hop) => {
                &&& redirects < MAX_REDIRECTS
                &&& hop.redirects == redirects + 1
                &&& url_joined(current_url@, location@) == Some(hop.url@)
                &&& url_parts(hop.url@) == Some(hop.parts)
                &&& url_defect(hop.parts) is None
            },
            Err(e) => if redirects >= MAX_REDIRECTS {
                e matches DomainError::Network(why) && why@ == "too many redirects (limit: 5)"@
            } else {
                e is InvalidInput
            },
        },
{
    if redirects >= MAX_REDIRECTS {
        return Err(DomainError::Network(String::from_str("too many redirects (limit: 5)")));
    }
    let url = match resolve_redirect(current_url, location) {
        Ok(u) => u,
        Err(e) => { return Err(e); },
    };
    let parts = match dissect_url(url.as_str()) {
        Ok(p) => p,
        Err(why) => {
            return Err(
                DomainError::InvalidInput(joined("invalid redirect URL: ", why.as_str())),
            );
        },
    };
    match validate_url(&parts) {
        Ok(()) => Ok(NextHop { redirects: redirects + 1, url, parts }),
        Err(e) => Err(e),
    }
}

/// The parts of `url`, if it is a URL that may be fetched as far as can be judged
/// without resolving its host.
pub fn check_url(url: &str) -> (r: Result<UrlParts, DomainError>)
    ensures
        match r {
            Ok(parts) => url_parts(url@) == Some(parts) && url_defect(parts) is None,
            Err(e) => e is InvalidInput && (url_parts(url@) matches Some(parts) ==> url_defect(parts)
                is Some),
        },
{
    let parts = match dissect_url(url) {
        Ok(p) => p,
        Err(why) => {
            return Err(DomainError::InvalidInput(joined("invalid URL: ", why.as_str())));
        },
    };
    match validate_url(&parts) {
        Ok(()) => Ok(parts),
        Err(e) => Err(e),
    }
}

/// Whether an answer that declares `declared` bytes may be read.
pub fn check_declared_size(declared: usize) -> (r: Result<(), DomainError>)
    ensures
        match r {
            Ok(()) => declared <= MAX_RESPONSE_SIZE,
            Err(e) => {
                &&& declared > MAX_RESPONSE_SIZE
                &&& e matches DomainError::InvalidInput(why)
                &&& why@ == "response too large: "@ + decimal_digits(declared as nat)
                    + " bytes (limit: 10485760 bytes)"@
            },
        },
{
    if declared > MAX_RESPONSE_SIZE {
        let n = decimal(declared);
        let head = joined("response too large: ", n.as_str());
        Err(DomainError::InvalidInput(joined(head.as_str(), " bytes (limit: 10485760 bytes)")))
    } else {
        Ok(())
    }
}

/// Whether reading may go on after `received` bytes were read.
pub fn check_received_size(received: usize) -> (r: Result<(), DomainError>)
    ensures
        match r {
            Ok(()) => received <= MAX_RESPONSE_SIZE,
            Err(e) => {
                &&& received > MAX_RESPONSE_SIZE
                &&& e matches DomainError::InvalidInput(why)
                &&& why@ == "response exceeded 10485760 byte limit"@
            },
        },
{
    if received > MAX_RESPONSE_SIZE {
        Err(DomainError::InvalidInput(String::from_str("response exceeded 10485760 byte limit")))
    } else {
        Ok(())
    }
}

} // verus!
