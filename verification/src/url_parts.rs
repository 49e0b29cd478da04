//! The pieces of a proxy URL, and the one place where a URL is parsed.

use url::Url;
use vstd::prelude::*;

verus! {

/// Why a string is not an absolute URL. Opaque here: it is only carried.
#[verifier::external_type_specification]
#[verifier::external_body]
pub struct ExParseError(url::ParseError);

/// What a proxy is built from, once the URL syntax has been dealt with.
#[derive(Debug, PartialEq, Eq)]
pub struct UrlParts {
    /// The scheme, lower-cased, without the `:`.
    pub scheme: String,
    /// The host as written in the URL, if it has one.
    pub host: Option<String>,
    /// The port as the parsed URL holds it. It is absent where the URL
    /// writes none, and also where it writes the well-known port of its
    /// own scheme, which parsing drops and `with_written_port` puts back.
    pub port: Option<u16>,
    /// The user name; empty if the URL has none.
    pub username: String,
    /// The password, if the URL has one.
    pub password: Option<String>,
}

/// [`UrlParts`] with each text as a sequence.
pub struct UrlPartsView {
    pub scheme: Seq<char>,
    pub host: Option<Seq<char>>,
    pub port: Option<u16>,
    pub username: Seq<char>,
    pub password: Option<Seq<char>>,
}

/// The view of a text that may be absent.
pub open spec fn opt_string_view(s: Option<String>) -> Option<Seq<char>> {
    match s {
        Some(s) => Some(s@),
        None => None,
    }
}

impl View for UrlParts {
    type V = UrlPartsView;

    open spec fn view(&self) -> UrlPartsView {
        UrlPartsView {
            scheme: self.scheme@,
            host: opt_string_view(self.host),
            port: self.port,
            username: self.username@,
            password: opt_string_view(self.password),
        }
    }
}

/// The parts of the URL that `input` spells, or `None` where it spells none.
pub uninterp spec fn url_parts(input: Seq<char>) -> Option<UrlPartsView>;

/// Parses `input` with `url::Url::parse` and reads the parts off the result
/// with `scheme`, `host_str`, `port`, `username` and `password`. Trusted:
/// the outcome depends on `input` alone, and `url_parts` is the name for
/// it. Nothing is claimed of the error value.
#[verifier::external_body]
pub(crate) fn parse_url(input: &str) -> (r: Result<UrlParts, url::ParseError>)
    ensures
        match r {
            Ok(parts) => url_parts(input@) == Some(parts@),
            Err(_) => url_parts(input@) is None,
        },
{
    let url = Url::parse(input)?;
    Ok(UrlParts {
        scheme: url.scheme().to_string(),
        host: url.host_str().map(String::from),
        port: url.port(),
        username: url.username().to_string(),
        password: url.password().map(String::from),
    })
}

} // verus!
