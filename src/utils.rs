use vstd::prelude::*;

verus! {

/// The number of bytes that a human size string such as `500M` or `2GiB`
/// denotes, or `None` when it is not one.
pub uninterp spec fn size_value(s: Seq<char>) -> Option<u64>;

/// Relies on `byte_unit::Byte::parse_str` (units case-insensitive) and
/// `Byte::as_u64`: the result depends on the text alone.
#[verifier::external_body]
pub fn parse_size(s: &str) -> (r: Option<u64>)
    ensures
        r == size_value(s@),
{
    byte_unit::Byte::parse_str(s, true).ok().map(|b| b.as_u64())
}

} // verus!
