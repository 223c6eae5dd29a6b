//! Backend endpoints: parsed URLs together with what the adapter reads of them.

use vstd::prelude::*;

verus! {

/// The URL type that the backend crate takes, carried as it is.
#[verifier::external_type_specification]
#[verifier::external_body]
pub struct ExUrl(elasticsearch::http::Url);

/// What the adapter reads of a parsed URL: its normalized text and its host.
pub struct EndpointView {
    pub text: Seq<char>,
    pub host: Option<Seq<char>>,
}

/// What parsing `input` as an absolute URL yields: the normalized text and
/// the host of the URL, or the parser's message where it rejects the input.
pub uninterp spec fn parsed_url(input: Seq<char>) -> Result<EndpointView, Seq<char>>;

/// What becomes of the URL with the normalized text `text` when its host is
/// set to `host`: nothing, where the URL refuses the host.
pub uninterp spec fn host_replaced(text: Seq<char>, host: Seq<char>) -> Option<EndpointView>;

/// The normalized text of a URL, as `as_str` gives it.
pub uninterp spec fn url_text(url: elasticsearch::http::Url) -> Seq<char>;

/// The address on the host `host`, or the address as it is where its URL
/// refuses that host.
pub open spec fn moved_to(endpoint: EndpointView, host: Seq<char>) -> EndpointView {
    match host_replaced(endpoint.text, host) {
        Some(moved) => moved,
        None => endpoint,
    }
}

/// A parsed backend address. The text and the host are those of the URL held.
pub struct Endpoint {
    url: elasticsearch::http::Url,
    text: String,
    host: Option<String>,
}

impl View for Endpoint {
    type V = EndpointView;

    closed spec fn view(&self) -> EndpointView {
        EndpointView {
            text: self.text@,
            host: match self.host {
                Some(h) => Some(h@),
                None => None,
            },
        }
    }
}

/// `Url::parse`, which is a function of its input alone: the contract names
/// its outcome `parsed_url(input)`. The text and the host are read off the
/// URL with `as_str` and `host_str`, the message off the error. The endpoint
/// holds the URL that the text was read off.
#[verifier::external_body]
fn parse_url(input: &str) -> (r: Result<Endpoint, String>)
    ensures
        match r {
            Ok(e) => parsed_url(input@) == Ok::<EndpointView, Seq<char>>(e@) && url_text(e.url)
                == e@.text,
            Err(m) => parsed_url(input@) == Err::<EndpointView, Seq<char>>(m@),
        },
{
    match elasticsearch::http::Url::parse(input) {
        Ok(url) => Ok(
            Endpoint {
                text: url.as_str().to_string(),
                host: url.host_str().map(str::to_string),
                url,
            },
        ),
        Err(e) => Err(e.to_string()),
    }
}

/// `Url::set_host` on a copy of the URL of `endpoint`. The contract names
/// what comes of it `host_replaced`, over the text of the URL and the host:
/// the URL with the host set, its text and host read off it again, or
/// nothing where `set_host` refuses the host.
#[verifier::external_body]
fn set_url_host(endpoint: &Endpoint, host: &str) -> (r: Option<Endpoint>)
    ensures
        match r {
            Some(e) => host_replaced(endpoint@.text, host@) == Some(e@) && url_text(e.url)
                == e@.text,
            None => host_replaced(endpoint@.text, host@) is None,
        },
{
    let mut url = endpoint.url.clone();
    match url.set_host(Some(host)) {
        Ok(()) => Some(
            Endpoint {
                text: url.as_str().to_string(),
                host: url.host_str().map(str::to_string),
                url,
            },
        ),
        Err(_) => None,
    }
}

impl Endpoint {
    #[verifier::type_invariant]
    spec fn text_is_that_of_the_url(&self) -> bool {
        url_text(self.url) == self.text@
    }

    /// Parses a backend address.
    pub fn parse(input: &str) -> (r: Result<Endpoint, String>)
        ensures
            match r {
                Ok(e) => parsed_url(input@) == Ok::<EndpointView, Seq<char>>(e@),
                Err(m) => parsed_url(input@) == Err::<EndpointView, Seq<char>>(m@),
            },
    {
        parse_url(input)
    }

    /// The same address on another host, where the URL takes that host.
    pub fn with_host(&self, host: &str) -> (r: Option<Endpoint>)
        ensures
            match r {
                Some(e) => host_replaced(self@.text, host@) == Some(e@),
                None => host_replaced(self@.text, host@) is None,
            },
    {
        set_url_host(self, host)
    }

    /// Gives up the URL and its text: the text is that of the URL.
    pub(crate) fn into_parts(self) -> (r: (elasticsearch::http::Url, String))
        ensures
            url_text(r.0) == self@.text,
            r.1@ == self@.text,
    {
        proof {
            use_type_invariant(&self);
        }
        (self.url, self.text)
    }

    /// The normalized text of the address.
    pub fn text(&self) -> (r: &String)
        ensures
            r@ == self@.text,
    {
        &self.text
    }

    /// The host of the address, where it has one.
    pub fn host(&self) -> (r: &Option<String>)
        ensures
            r is Some == self@.host is Some,
            r is Some ==> r->0@ == self@.host->0,
    {
        &self.host
    }
}

} // verus!
