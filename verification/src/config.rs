//! Resolving the configured scratch-buffer length from the human-readable
//! size string (for example "4KiB" or "64KiB") handed in on the command line.

use vstd::prelude::*;

verus! {

/// The byte count that the human-readable size string denotes, or `None`
/// where the string does not parse as a size.
pub uninterp spec fn parsed_size(s: Seq<char>) -> Option<u64>;

/// Relies on byte_unit::Byte::parse_str (unit suffixes read case-insensitively)
/// to parse the size string, and on byte_unit::Byte::as_u64 to hand the byte
/// count out; the result depends on the string alone.
#[verifier::external_body]
fn parse_size_str(s: &str) -> (r: Option<u64>)
    ensures
        r == parsed_size(s@),
{
    byte_unit::Byte::parse_str(s, true).ok().map(|b| b.as_u64())
}

/// The validated scratch-buffer length that a parsed byte count yields: the
/// count itself when it is positive and representable as a length, else
/// nothing.
pub open spec fn buf_len_spec(p: Option<u64>) -> Option<usize> {
    match p {
        Some(n) => if 1 <= n <= usize::MAX {
            Some(n as usize)
        } else {
            None
        },
        None => None,
    }
}

/// Validate a parsed byte count as a scratch-buffer length: it must be
/// positive and fit a length.
pub fn buf_len_from_bytes(n: u64) -> (r: Option<usize>)
    ensures
        r == buf_len_spec(Some(n)),
{
    if 1 <= n && n <= usize::MAX as u64 {
        Some(n as usize)
    } else {
        None
    }
}

/// Resolve the configured scratch-buffer length from its human-readable size
/// string: parse the string, then validate the count. Returns `None` exactly
/// where the string does not parse or denotes zero or an unrepresentable
/// length.
pub fn resolve_buf_len(s: &str) -> (r: Option<usize>)
    ensures
        r == buf_len_spec(parsed_size(s@)),
{
    match parse_size_str(s) {
        Some(n) => buf_len_from_bytes(n),
        None => None,
    }
}

} // verus!
