//! Why a request is turned down.

use vstd::prelude::*;

verus! {

/// Every way in which shortening a URL or resolving a short code can fail.
#[derive(Debug, Clone, Copy, PartialEq, Eq, Structural)]
pub enum LinkError {
    /// The input text is not an absolute URL.
    InvalidUrl,
    /// The URL's host belongs to no template of the catalogue.
    UnknownHost,
    /// The host is known, but the path fits none of its templates.
    UnrecognizedPath,
    /// The segment that should hold the item's number is missing or is no
    /// decimal numeral of a number that fits in 64 bits.
    InvalidItemId,
    /// The codec produced no code for the triple.
    EncodingFailed,
    /// The short code decodes to fewer than three numbers.
    InvalidCode,
    /// The first decoded number is no community's ordinal.
    UnknownCommunity,
    /// The second decoded number is no platform's ordinal.
    UnknownPlatform,
    /// Community and platform are both known, but the catalogue holds no
    /// template for the pair.
    UnsupportedCombination,
}

} // verus!
