//! Absolute URLs, as far as the detection reads them. The parsing itself is
//! the `url` crate's.

use vstd::prelude::*;

verus! {

/// The host of a URL.
#[derive(Debug)]
pub enum Host {
    /// A domain name.
    Domain(String),
    /// An IPv4 address.
    Ipv4,
    /// An IPv6 address.
    Ipv6,
}

/// A parsed absolute URL: the parts that the detection reads.
#[derive(Debug)]
pub struct WebUrl {
    /// The host, if the URL has one.
    pub host: Option<Host>,
    /// The path, between the authority and the query.
    pub path: String,
    /// The whole URL as the parser writes it out again.
    pub text: String,
}

/// A `Host` with its name as a sequence of characters.
pub ghost enum HostView {
    Domain(Seq<char>),
    Ipv4,
    Ipv6,
}

/// A `WebUrl` with its strings as sequences of characters.
pub ghost struct WebUrlView {
    pub host: Option<HostView>,
    pub path: Seq<char>,
    pub text: Seq<char>,
}

impl View for Host {
    type V = HostView;

    open spec fn view(&self) -> HostView {
        match *self {
            Host::Domain(name) => HostView::Domain(name@),
            Host::Ipv4 => HostView::Ipv4,
            Host::Ipv6 => HostView::Ipv6,
        }
    }
}

impl View for WebUrl {
    type V = WebUrlView;

    open spec fn view(&self) -> WebUrlView {
        WebUrlView {
            host: match self.host {
                Some(h) => Some(h@),
                None => None,
            },
            path: self.path@,
            text: self.text@,
        }
    }
}

/// What parsing gave, with its strings as sequences of characters.
pub open spec fn parse_view(r: Result<WebUrl, String>) -> Result<WebUrlView, Seq<char>> {
    match r {
        Ok(u) => Ok(u@),
        Err(msg) => Err(msg@),
    }
}

/// What `url::Url::parse` makes of `text`: the parts of the URL, or the
/// sentence of its error. Nothing is said of what they are for a given text.
pub uninterp spec fn parsed(text: Seq<char>) -> Result<WebUrlView, Seq<char>>;

/// Parses `text` with `url::Url::parse`. Of a URL it hands back the host by
/// the variant of `Url::host` (the name of a domain; of an address only its
/// kind), the path as `Url::path` gives it, and the text of `Url::as_str`; of
/// an error the sentence that its `Display` writes.
///
/// Taken on trust, not proved: that all of this depends on `text` alone, so
/// that the same text is always parsed alike.
#[verifier::external_body]
pub(crate) fn parse(text: &str) -> (r: Result<WebUrl, String>)
    ensures
        parse_view(r) == parsed(text@),
{
    match url::Url::parse(text) {
        Ok(u) => Ok(WebUrl {
            host: match u.host() {
                Some(url::Host::Domain(name)) => Some(Host::Domain(name.to_string())),
                Some(url::Host::Ipv4(_)) => Some(Host::Ipv4),
                Some(url::Host::Ipv6(_)) => Some(Host::Ipv6),
                None => None,
            },
            path: u.path().to_string(),
            text: u.as_str().to_string(),
        }),
        Err(e) => Err(e.to_string()),
    }
}

} // verus!
