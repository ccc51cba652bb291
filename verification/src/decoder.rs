//! From a short code back to its destination URL.

use crate::codec::{codec_decode, sqids_decode};
use crate::error::LinkError;
use crate::registry::{spec_lookup, standard_registry, Registry, TemplateView};
use crate::triple::{spec_triple_of, CodeTriple};
use vstd::prelude::*;

verus! {

/// What a call that resolves a code came to, with the URL seen by its text.
pub open spec fn url_outcome(r: Result<String, LinkError>) -> Result<Seq<char>, LinkError> {
    match r {
        Ok(url) => Ok(url@),
        Err(e) => Err(e),
    }
}

/// The destination that decoded numbers stand for under the catalogue
/// `entries`: the URL that the template of the triple's community and
/// platform writes for the triple's item.
pub open spec fn spec_destination(entries: Seq<TemplateView>, numbers: Seq<u64>) -> Result<
    Seq<char>,
    LinkError,
> {
    match spec_triple_of(numbers) {
        Err(e) => Err(e),
        Ok(triple) => match spec_lookup(entries, triple.community, triple.platform) {
            None => Err(LinkError::UnsupportedCombination),
            Some(template) => Ok(template.url_for(triple.item)),
        },
    }
}

/// The destination of a short code under the standard catalogue.
pub open spec fn spec_resolve_code(code: Seq<char>) -> Result<Seq<char>, LinkError> {
    spec_destination(standard_registry(), sqids_decode(code))
}

/// Finds the destination that decoded numbers stand for.
pub fn destination(registry: &Registry, numbers: &Vec<u64>) -> (r: Result<String, LinkError>)
    ensures
        url_outcome(r) == spec_destination(registry@, numbers@),
{
    let triple = match CodeTriple::from_numbers(numbers) {
        Ok(triple) => triple,
        Err(e) => {
            return Err(e);
        },
    };
    match registry.lookup(triple.community, triple.platform) {
        Some(template) => Ok(template.url_for(triple.item)),
        None => Err(LinkError::UnsupportedCombination),
    }
}

/// Resolves a short code to its destination URL.
///
/// The code must decode to at least three numbers, of which the first two
/// are the ordinals of a community and a platform that the standard
/// catalogue has a template for.
pub fn resolve_code(short_code: &str) -> (r: Result<String, LinkError>)
    ensures
        url_outcome(r) == spec_resolve_code(short_code@),
{
    let numbers = codec_decode(short_code);
    let registry = Registry::standard();
    destination(&registry, &numbers)
}

} // verus!
