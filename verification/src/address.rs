//! What the library reads from a URL.

use crate::text::texts;
use url::Url;
use vstd::prelude::*;

verus! {

/// The parts of a parsed URL that the catalogue looks at.
#[derive(Debug, Clone, PartialEq, Eq)]
pub struct UrlParts {
    /// The host, where the URL has one.
    pub host: Option<String>,
    /// The path split at each `/`, empty segments included; `None` for a URL
    /// whose path is not a list of segments.
    pub segments: Option<Vec<String>>,
    /// The whole URL as the parser writes it back.
    pub text: String,
}

/// The mathematical content of [`UrlParts`].
pub struct UrlPartsView {
    pub host: Option<Seq<char>>,
    pub segments: Option<Seq<Seq<char>>>,
    pub text: Seq<char>,
}

impl View for UrlParts {
    type V = UrlPartsView;

    open spec fn view(&self) -> UrlPartsView {
        UrlPartsView {
            host: match self.host {
                Some(h) => Some(h@),
                None => None,
            },
            segments: match self.segments {
                Some(list) => Some(texts(list@)),
                None => None,
            },
            text: self.text@,
        }
    }
}

/// Makes the URL parser's error type known to the verifier, as an opaque type.
#[verifier::external_type_specification]
#[verifier::external_body]
pub struct ExParseError(url::ParseError);

/// What the URL parser reads from `input`, or `None` where it rejects the input.
pub uninterp spec fn parsed_url(input: Seq<char>) -> Option<UrlPartsView>;

/// Calls `url::Url::parse` and copies out of the parsed URL what
/// `Url::host_str` and `Url::path_segments` return and the text that the
/// conversion of a `Url` into a `String` gives.
///
/// Not proved. The contract claims that the outcome depends on `input` alone:
/// it is `parsed_url(input)`, with the parser's error standing for `None`.
#[verifier::external_body]
pub(crate) fn parse_url(input: &str) -> (r: Result<UrlParts, url::ParseError>)
    ensures
        match r {
            Ok(parts) => parsed_url(input@) == Some(parts@),
            Err(_) => parsed_url(input@) is None,
        },
{
    let url = Url::parse(input)?;
    Ok(UrlParts {
        host: url.host_str().map(String::from),
        segments: url.path_segments().map(|list| list.map(String::from).collect()),
        text: url.into(),
    })
}

} // verus!
