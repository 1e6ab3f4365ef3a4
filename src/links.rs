use vstd::prelude::*;
use crate::text::text_equals;

verus! {

/// A URL's host as the parser classified it.
pub enum HostName {
    Domain(String),
    /// An IPv4 address, most significant octet first.
    Ipv4(u32),
    /// An IPv6 address, most significant segment first.
    Ipv6(u128),
}

/// The parts of a parsed absolute URL that navigation decisions read.
pub struct UrlParts {
    /// Lower-case, without the `:`.
    pub scheme: String,
    pub host: Option<HostName>,
}

pub enum HostView {
    Domain(Seq<char>),
    Ipv4(u32),
    Ipv6(u128),
}

pub struct UrlView {
    pub scheme: Seq<char>,
    pub host: Option<HostView>,
}

impl View for HostName {
    type V = HostView;

    open spec fn view(&self) -> HostView {
        match self {
            HostName::Domain(d) => HostView::Domain(d@),
            HostName::Ipv4(a) => HostView::Ipv4(*a),
            HostName::Ipv6(a) => HostView::Ipv6(*a),
        }
    }
}

pub open spec fn host_view(h: Option<HostName>) -> Option<HostView> {
    match h {
        Some(h) => Some(h@),
        None => None,
    }
}

impl View for UrlParts {
    type V = UrlView;

    open spec fn view(&self) -> UrlView {
        UrlView { scheme: self.scheme@, host: host_view(self.host) }
    }
}

pub open spec fn parts_view(p: Option<UrlParts>) -> Option<UrlView> {
    match p {
        Some(p) => Some(p@),
        None => None,
    }
}

/// What parsing `s` as an absolute URL gives: its scheme and its host, or
/// nothing when `s` is not an absolute URL.
pub uninterp spec fn parsed_url(s: Seq<char>) -> Option<UrlView>;

/// Relies on `url::Url::parse` (the type that `tauri::Url` re-exports), and
/// on the parsed URL's `scheme` and `host` accessors, which read back what
/// `parse` stored.
#[verifier::external_body]
fn parse_url(s: &str) -> (r: Option<UrlParts>)
    ensures
        parts_view(r) == parsed_url(s@),
{
    let u = url::Url::parse(s).ok()?;
    let host = match u.host() {
        None => None,
        Some(url::Host::Domain(d)) => Some(HostName::Domain(d.to_string())),
        Some(url::Host::Ipv4(a)) => Some(HostName::Ipv4(u32::from(a))),
        Some(url::Host::Ipv6(a)) => Some(HostName::Ipv6(u128::from(a))),
    };
    Some(UrlParts { scheme: u.scheme().to_string(), host })
}

pub open spec fn is_web_scheme(scheme: Seq<char>) -> bool {
    scheme == "http"@ || scheme == "https"@
}

/// A navigation to `target` leaves the application hosted at `base`: both
/// parsed, `target` is web traffic, and the hosts differ. Anything that did
/// not parse counts as internal.
pub open spec fn leaves_app(target: Option<UrlView>, base: Option<UrlView>) -> bool {
    match (target, base) {
        (Some(t), Some(b)) => is_web_scheme(t.scheme) && t.host != b.host,
        _ => false,
    }
}

/// Whether two hosts are the same, absence included.
pub fn same_host(a: &Option<HostName>, b: &Option<HostName>) -> (r: bool)
    ensures
        r == (host_view(*a) == host_view(*b)),
{
    match (a, b) {
        (None, None) => true,
        (Some(HostName::Domain(x)), Some(HostName::Domain(y))) => text_equals(x.as_str(), y.as_str()),
        (Some(HostName::Ipv4(x)), Some(HostName::Ipv4(y))) => *x == *y,
        (Some(HostName::Ipv6(x)), Some(HostName::Ipv6(y))) => *x == *y,
        _ => false,
    }
}

/// The decision of `is_external_url` on already parsed URLs.
pub fn is_external_parts(target: &Option<UrlParts>, base: &Option<UrlParts>) -> (r: bool)
    ensures
        r == leaves_app(parts_view(*target), parts_view(*base)),
{
    match (target, base) {
        (Some(t), Some(b)) => {
            let scheme = t.scheme.as_str();
            let web = text_equals(scheme, "http") || text_equals(scheme, "https");
            web && !same_host(&t.host, &b.host)
        },
        _ => false,
    }
}

/// Whether a navigation inside the hosted web view must be sent to the
/// system browser instead: `url` is an http or https URL on another host than
/// `app_url`. A URL that does not parse is let through.
pub fn is_external_url(url: &str, app_url: &str) -> (r: bool)
    ensures
        r == leaves_app(parsed_url(url@), parsed_url(app_url@)),
{
    let target = parse_url(url);
    let base = parse_url(app_url);
    is_external_parts(&target, &base)
}

} // verus!
