//! The reversible integer codec behind the short codes.
//!
//! The codec is the `sqids` crate with its default alphabet, minimum length
//! and blocklist. Nothing in this library depends on how a code is spelled:
//! the two functions of the codec are known here only by name, and by the
//! one fact that a code is read back as the numbers it was written for.

use sqids::Sqids;
use vstd::prelude::*;

verus! {

/// Makes the codec's error type known to the verifier, as an opaque type.
#[verifier::external_type_specification]
#[verifier::external_body]
pub struct ExCodecError(sqids::Error);

/// The code that the default codec writes for `numbers` on a machine whose
/// `usize` has `word_bits` bits, or `None` where it reports an error.
///
/// The width is an argument because the codec picks the alphabet to start
/// from by each number cast to `usize`: for a number of more bits than
/// `usize` has, machines of different widths write different codes.
pub uninterp spec fn sqids_encode(numbers: Seq<u64>, word_bits: u32) -> Option<Seq<char>>;

/// The numbers that the default codec reads from `code`, on any machine.
pub uninterp spec fn sqids_decode(code: Seq<char>) -> Seq<u64>;

/// The code that the default codec writes for `numbers` on this machine.
pub open spec fn spec_code(numbers: Seq<u64>) -> Option<Seq<char>> {
    sqids_encode(numbers, usize::BITS)
}

/// Calls `sqids::Sqids::encode` on a codec built by `Sqids::default()`.
///
/// Not proved. The contract claims two things of three numbers of any size.
/// The outcome depends on the numbers and the width of `usize` alone: it is
/// `sqids_encode(numbers, usize::BITS)`, with the codec's error standing for
/// `None`. And a code that comes back is one from which `Sqids::decode`
/// reads the same numbers, as the crate's README shows on its examples: the
/// decoder finds the starting alphabet by the code's first character, then
/// undoes the encoder number by number, with no padding to skip as the
/// minimum length is zero.
#[verifier::external_body]
pub(crate) fn codec_encode(numbers: &Vec<u64>) -> (r: Result<String, sqids::Error>)
    requires
        numbers@.len() == 3,
    ensures
        match r {
            Ok(code) => sqids_encode(numbers@, usize::BITS) == Some(code@) && sqids_decode(code@)
                == numbers@,
            Err(_) => sqids_encode(numbers@, usize::BITS) is None,
        },
{
    Sqids::default().encode(numbers)
}

/// Calls `sqids::Sqids::decode` on a codec built by `Sqids::default()`.
///
/// Not proved. The contract claims that the outcome depends on `code` alone:
/// it is `sqids_decode(code)`. Nothing is claimed about how many numbers come
/// back; for a text that is no code the codec returns none.
#[verifier::external_body]
pub(crate) fn codec_decode(code: &str) -> (numbers: Vec<u64>)
    ensures
        numbers@ == sqids_decode(code@),
{
    Sqids::default().decode(code)
}

} // verus!
