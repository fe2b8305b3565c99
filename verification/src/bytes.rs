//! Human-readable byte sizes, written by the `bytesize` crate.

use vstd::prelude::*;

use crate::text::decimal;

verus! {

/// A name for the text that `bytesize` writes for `bytes` bytes, in units of
/// 1024 (`KiB`, `MiB`, ...) when `si_unit` holds and of 1000 (`KB`, `MB`,
/// ...) otherwise.
pub uninterp spec fn bytesize_text(bytes: u64, si_unit: bool) -> Seq<char>;

/// `bytesize::ByteSize::to_string_as`: below one unit (1024 bytes with
/// `si_unit`, 1000 without) the number of bytes followed by `" B"`; above it
/// the size in the largest fitting unit with one decimal, a space, the unit's
/// letter and `iB` (with `si_unit`) or `B`. So the text always ends in `B`.
/// The claims are that the result is `bytesize_text` of the arguments, the
/// exact text below one unit, and the final `B`.
#[verifier::external_body]
pub(crate) fn byte_size_text(bytes: u64, si_unit: bool) -> (r: String)
    ensures
        r@ == bytesize_text(bytes, si_unit),
        bytes < (if si_unit { 1024u64 } else { 1000u64 }) ==> r@ == decimal(bytes as nat) + " B"@,
        r@.len() > 0 && r@.last() == 'B',
{
    bytesize::ByteSize(bytes).to_string_as(si_unit)
}

} // verus!
