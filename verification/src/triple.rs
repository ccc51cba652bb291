//! The three numbers inside a short code.

use crate::error::LinkError;
use crate::registry::{Community, Platform};
use vstd::prelude::*;

verus! {

/// What a short code stands for: an item of a platform of a community.
#[derive(Debug, Clone, Copy, PartialEq, Eq, Structural)]
pub struct CodeTriple {
    pub community: Community,
    pub platform: Platform,
    pub item: u64,
}

/// The triple that a decoded sequence of numbers begins with: the ordinal of
/// a community, the ordinal of a platform, the item's number. Numbers after
/// the third are not looked at.
pub open spec fn spec_triple_of(numbers: Seq<u64>) -> Result<CodeTriple, LinkError> {
    if numbers.len() < 3 {
        Err(LinkError::InvalidCode)
    } else {
        match Community::spec_from_ordinal(numbers[0]) {
            None => Err(LinkError::UnknownCommunity),
            Some(community) => match Platform::spec_from_ordinal(numbers[1]) {
                None => Err(LinkError::UnknownPlatform),
                Some(platform) => Ok(CodeTriple { community, platform, item: numbers[2] }),
            },
        }
    }
}

impl CodeTriple {
    /// The numbers that are handed to the codec, in this order.
    pub open spec fn spec_numbers(self) -> Seq<u64> {
        seq![self.community.spec_ordinal(), self.platform.spec_ordinal(), self.item]
    }

    /// The numbers that are handed to the codec.
    pub fn numbers(&self) -> (numbers: Vec<u64>)
        ensures
            numbers@ == self.spec_numbers(),
    {
        let mut numbers: Vec<u64> = Vec::new();
        numbers.push(self.community.ordinal());
        numbers.push(self.platform.ordinal());
        numbers.push(self.item);
        assert(numbers@ =~= self.spec_numbers());
        numbers
    }

    /// Reads a triple from the numbers that the codec gave back.
    pub fn from_numbers(numbers: &Vec<u64>) -> (r: Result<CodeTriple, LinkError>)
        ensures
            r == spec_triple_of(numbers@),
    {
        if numbers.len() < 3 {
            return Err(LinkError::InvalidCode);
        }
        let community = match Community::from_ordinal(numbers[0]) {
            Some(c) => c,
            None => {
                return Err(LinkError::UnknownCommunity);
            },
        };
        let platform = match Platform::from_ordinal(numbers[1]) {
            Some(p) => p,
            None => {
                return Err(LinkError::UnknownPlatform);
            },
        };
        Ok(CodeTriple { community, platform, item: numbers[2] })
    }
}

} // verus!
