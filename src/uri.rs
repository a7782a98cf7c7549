//! URLs, held as the serialization that the `url` crate gives them.

use vstd::prelude::*;

verus! {

#[verifier::external_type_specification]
#[verifier::external_body]
pub struct ExParseError(::url::ParseError);

/// The serialization of what `url::Url::parse` makes of a text, or `None`
/// where it refuses the text.
pub uninterp spec fn parsed_url(s: Seq<char>) -> Option<Seq<char>>;

/// The serialization of what `url::Url::join` makes of a reference resolved
/// against a base URL, or `None` where it refuses the reference.
pub uninterp spec fn joined_url(base: Seq<char>, reference: Seq<char>) -> Option<Seq<char>>;

/// The host of a URL as `url::Url::host_str` gives it.
pub uninterp spec fn host_of(url: Seq<char>) -> Option<Seq<char>>;

/// The port of a URL, or its scheme's known default, as
/// `url::Url::port_or_known_default` gives it.
pub uninterp spec fn port_of(url: Seq<char>) -> Option<u16>;

/// Relies on `url::Url::parse`: an absolute URL from a text, returned as its
/// serialization.
#[verifier::external_body]
fn parse_absolute(s: &str) -> (r: Result<String, ::url::ParseError>)
    ensures
        r is Ok <==> parsed_url(s@) is Some,
        r matches Ok(t) ==> parsed_url(s@) == Some(t@),
{
    ::url::Url::parse(s).map(String::from)
}

/// Relies on `url::Url::join`: a reference resolved against a base, which
/// is read back with `url::Url::parse` from its own serialization.
#[verifier::external_body]
fn join_reference(base: &str, reference: &str) -> (r: Result<String, ::url::ParseError>)
    ensures
        r is Ok <==> joined_url(base@, reference@) is Some,
        r matches Ok(t) ==> joined_url(base@, reference@) == Some(t@),
{
    match ::url::Url::parse(base) {
        Ok(b) => b.join(reference).map(String::from),
        Err(e) => Err(e),
    }
}

/// Relies on `url::Url::host_str`, on the URL read back from its
/// serialization.
#[verifier::external_body]
fn url_host(url: &str) -> (r: Option<String>)
    ensures
        r is Some <==> host_of(url@) is Some,
        r matches Some(h) ==> host_of(url@) == Some(h@),
{
    match ::url::Url::parse(url) {
        Ok(u) => u.host_str().map(String::from),
        Err(_) => None,
    }
}

/// Relies on `url::Url::port_or_known_default`, on the URL read back from
/// its serialization.
#[verifier::external_body]
fn url_port(url: &str) -> (r: Option<u16>)
    ensures
        r == port_of(url@),
{
    match ::url::Url::parse(url) {
        Ok(u) => u.port_or_known_default(),
        Err(_) => None,
    }
}

/// Why a URL cannot be used.
#[derive(Clone, Copy, Debug, PartialEq, Eq, Structural)]
pub enum UriError {
    /// The text is not a URL.
    Malformed,
    /// The URL has no host.
    EmptyHost,
    /// The URL has no port, and its scheme no known default.
    InvalidPort,
}

/// An absolute URL.
#[derive(Debug)]
pub struct Url {
    serialization: String,
}

impl View for Url {
    type V = Seq<char>;

    closed spec fn view(&self) -> Seq<char> {
        self.serialization@
    }
}

impl Url {
    /// Parses an absolute URL; `Malformed` where the text is not one.
    pub fn parse(s: &str) -> (r: Result<Url, UriError>)
        ensures
            r is Ok <==> parsed_url(s@) is Some,
            r matches Ok(u) ==> parsed_url(s@) == Some(u@),
            r matches Err(e) ==> e == UriError::Malformed,
    {
        match parse_absolute(s) {
            Ok(t) => Ok(Url { serialization: t }),
            Err(_) => Err(UriError::Malformed),
        }
    }

    /// Resolves a reference, absolute or relative, against this URL as base;
    /// `None` where the reference cannot be resolved.
    pub fn join(&self, reference: &str) -> (r: Option<Url>)
        ensures
            r is Some <==> joined_url(self@, reference@) is Some,
            r matches Some(u) ==> joined_url(self@, reference@) == Some(u@),
    {
        match join_reference(self.serialization.as_str(), reference) {
            Ok(t) => Some(Url { serialization: t }),
            Err(_) => None,
        }
    }

    /// The serialization of the URL.
    pub fn as_str(&self) -> (r: &str)
        ensures
            r@ == self@,
    {
        self.serialization.as_str()
    }

    /// A second value of the same URL.
    pub fn duplicate(&self) -> (r: Url)
        ensures
            r == *self,
            r@ == self@,
    {
        Url { serialization: self.serialization.clone() }
    }
}

/// The host and port to connect to for a URL: `EmptyHost` where it has no
/// host, else `InvalidPort` where neither it nor its scheme gives a port.
pub fn get_host_and_port(url: &Url) -> (r: Result<(String, u16), UriError>)
    ensures
        host_of(url@) is None ==> r == Err::<(String, u16), UriError>(UriError::EmptyHost),
        host_of(url@) is Some && port_of(url@) is None ==> r == Err::<(String, u16), UriError>(
            UriError::InvalidPort,
        ),
        r matches Ok(hp) ==> host_of(url@) == Some(hp.0@) && port_of(url@) == Some(hp.1),
        (host_of(url@) is Some && port_of(url@) is Some) ==> r is Ok,
{
    let host = match url_host(url.as_str()) {
        Some(h) => h,
        None => return Err(UriError::EmptyHost),
    };
    let port = match url_port(url.as_str()) {
        Some(p) => p,
        None => return Err(UriError::InvalidPort),
    };
    Ok((host, port))
}

} // verus!
