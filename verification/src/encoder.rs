//! From a destination URL to its short code.

use crate::address::{parse_url, parsed_url, UrlParts, UrlPartsView};
use crate::codec::{codec_encode, spec_code, sqids_decode};
use crate::decimal::{parse_u64, spec_parse_u64};
use crate::error::LinkError;
use crate::registry::{
    lemma_selected_fits, spec_select, spec_serves, standard_registry, Registry, TemplateView,
};
use crate::text::texts;
use crate::triple::CodeTriple;
use vstd::prelude::*;

verus! {

/// A destination URL together with the short code that stands for it.
#[derive(Debug, Clone, PartialEq, Eq)]
pub struct ShortLink {
    /// The destination, as the URL parser writes it back.
    pub url: String,
    /// The short code.
    pub code: String,
}

/// The mathematical content of a [`ShortLink`].
pub struct ShortLinkView {
    pub url: Seq<char>,
    pub code: Seq<char>,
}

impl View for ShortLink {
    type V = ShortLinkView;

    open spec fn view(&self) -> ShortLinkView {
        ShortLinkView { url: self.url@, code: self.code@ }
    }
}

/// What a call that shortens a URL came to, with the link seen by its content.
pub open spec fn link_outcome(r: Result<ShortLink, LinkError>) -> Result<ShortLinkView, LinkError> {
    match r {
        Ok(link) => Ok(link@),
        Err(e) => Err(e),
    }
}

/// The segments of a path that count: all but the empty ones, so that
/// doubled and trailing slashes change nothing.
pub open spec fn spec_meaningful(segments: Seq<Seq<char>>) -> Seq<Seq<char>> {
    segments.filter(|s: Seq<char>| s.len() > 0)
}

/// The triple that a parsed URL stands for under the catalogue `entries`.
///
/// - A URL without a host, or on a host that no entry serves, is refused as
///   `UnknownHost`.
/// - Of the path only the meaningful segments count; a URL without path
///   segments has none. The first entry that fits the host and these
///   segments decides. Where none fits, the URL is refused as
///   `UnrecognizedPath`.
/// - After the entry's path exactly one segment must follow. More are
///   refused as `UnrecognizedPath`; none is refused as `InvalidItemId`.
/// - That segment names the item: it must be a decimal numeral, with an
///   optional plus sign and any number of leading zeros, of a number that
///   fits in 64 bits. Any other text is refused as `InvalidItemId`.
pub open spec fn spec_classify(entries: Seq<TemplateView>, parts: UrlPartsView) -> Result<
    CodeTriple,
    LinkError,
> {
    match parts.host {
        None => Err(LinkError::UnknownHost),
        Some(host) => if !spec_serves(entries, host) {
            Err(LinkError::UnknownHost)
        } else {
            let segments = match parts.segments {
                Some(list) => spec_meaningful(list),
                None => Seq::empty(),
            };
            match spec_select(entries, host, segments) {
                None => Err(LinkError::UnrecognizedPath),
                Some(template) => if segments.len() > template.path.len() + 1 {
                    Err(LinkError::UnrecognizedPath)
                } else if segments.len() <= template.path.len() {
                    Err(LinkError::InvalidItemId)
                } else {
                    match spec_parse_u64(segments[template.path.len() as int]) {
                        None => Err(LinkError::InvalidItemId),
                        Some(item) => Ok(
                            CodeTriple {
                                community: template.community,
                                platform: template.platform,
                                item,
                            },
                        ),
                    }
                },
            }
        },
    }
}

/// The triple that the text of a URL stands for: the text is parsed and
/// what the parser read is classified under the standard catalogue.
pub open spec fn spec_triple_of_url(input: Seq<char>) -> Result<CodeTriple, LinkError> {
    match parsed_url(input) {
        None => Err(LinkError::InvalidUrl),
        Some(parts) => spec_classify(standard_registry(), parts),
    }
}

/// The short link for the text of a destination URL: the URL as the parser
/// writes it back, with the code that the codec writes on this machine for
/// the numbers of the URL's triple.
pub open spec fn spec_encode_url(input: Seq<char>) -> Result<ShortLinkView, LinkError> {
    match spec_triple_of_url(input) {
        Err(e) => Err(e),
        Ok(triple) => match spec_code(triple.spec_numbers()) {
            None => Err(LinkError::EncodingFailed),
            Some(code) => Ok(ShortLinkView { url: parsed_url(input)->0.text, code }),
        },
    }
}

/// The codec reads from `code` the numbers of the triple that the text of
/// the URL stands for.
pub open spec fn code_reads_back(input: Seq<char>, code: Seq<char>) -> bool {
    spec_triple_of_url(input) matches Ok(triple) && sqids_decode(code) == triple.spec_numbers()
}

/// Copies the segments that count, in their order.
pub fn meaningful_segments(segments: &Vec<String>) -> (kept: Vec<String>)
    ensures
        texts(kept@) == spec_meaningful(texts(segments@)),
{
    let mut kept: Vec<String> = Vec::new();
    let ghost all = texts(segments@);
    let mut i: usize = 0;
    proof {
        reveal(Seq::filter);
        assert(all.take(0) =~= Seq::empty());
        assert(texts(kept@) =~= Seq::empty());
    }
    while i < segments.len()
        invariant
            i <= segments.len(),
            all == texts(segments@),
            texts(kept@) == spec_meaningful(all.take(i as int)),
        decreases segments.len() - i,
    {
        proof {
            reveal(Seq::filter);
            assert(all.take(i + 1).drop_last() =~= all.take(i as int));
            assert(all.take(i + 1).last() == segments@[i as int]@);
        }
        let ghost before = texts(kept@);
        if !segments[i].as_str().is_empty() {
            kept.push(segments[i].clone());
            assert(texts(kept@) =~= before.push(segments@[i as int]@));
        }
        i = i + 1;
    }
    assert(all.take(i as int) =~= all);
    kept
}

/// Finds the triple that a parsed URL stands for.
pub fn classify(registry: &Registry, parts: &UrlParts) -> (r: Result<CodeTriple, LinkError>)
    ensures
        r == spec_classify(registry@, parts@),
{
    let host = match &parts.host {
        Some(h) => h,
        None => {
            return Err(LinkError::UnknownHost);
        },
    };
    if !registry.serves(host) {
        return Err(LinkError::UnknownHost);
    }
    let segments = match &parts.segments {
        Some(list) => meaningful_segments(list),
        None => Vec::new(),
    };
    assert(parts@.segments is None ==> texts(segments@) =~= Seq::empty());
    let template = match registry.select(host, &segments) {
        Some(t) => t,
        None => {
            return Err(LinkError::UnrecognizedPath);
        },
    };
    proof {
        lemma_selected_fits(registry@, host@, texts(segments@));
    }
    let at = template.path.len();
    if segments.len() - at > 1 {
        return Err(LinkError::UnrecognizedPath);
    }
    if segments.len() == at {
        return Err(LinkError::InvalidItemId);
    }
    match parse_u64(segments[at].as_str()) {
        Some(item) => Ok(
            CodeTriple { community: template.community, platform: template.platform, item },
        ),
        None => Err(LinkError::InvalidItemId),
    }
}

/// Shortens a destination URL.
///
/// The URL must parse, its host and path must fit a template of the standard
/// catalogue, and the path must end in the item's number. The result holds
/// the URL as the parser writes it back and the code of the triple, and the
/// code is one that the codec reads back as the triple's numbers.
pub fn encode_url(destination_url: &str) -> (r: Result<ShortLink, LinkError>)
    ensures
        link_outcome(r) == spec_encode_url(destination_url@),
        r matches Ok(link) ==> code_reads_back(destination_url@, link.code@),
{
    let parts = match parse_url(destination_url) {
        Ok(parts) => parts,
        Err(_) => {
            return Err(LinkError::InvalidUrl);
        },
    };
    let registry = Registry::standard();
    let triple = match classify(&registry, &parts) {
        Ok(triple) => triple,
        Err(e) => {
            return Err(e);
        },
    };
    let numbers = triple.numbers();
    match codec_encode(&numbers) {
        Ok(code) => Ok(ShortLink { url: parts.text, code }),
        Err(_) => Err(LinkError::EncodingFailed),
    }
}

} // verus!
