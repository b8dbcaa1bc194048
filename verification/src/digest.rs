//! Calls into `chrono` and `md5`, each behind a trusted wrapper.

use vstd::prelude::*;

verus! {

/// The MD5 digest of a byte string, read as a big-endian 128-bit integer.
pub uninterp spec fn md5_of(data: Seq<u8>) -> u128;

/// Computes the MD5 digest of `data` with `md5::compute`.
///
/// Trusted: the result is the digest that `md5::compute` returns, its
/// sixteen bytes read big-endian; it is named by `md5_of` and not spelled out.
#[verifier::external_body]
pub(crate) fn md5_digest(data: &[u8]) -> (d: u128)
    ensures
        d == md5_of(data@),
{
    u128::from_be_bytes(md5::compute(data).0)
}

/// Builds a point in time from nanoseconds since the Unix epoch with
/// `chrono::DateTime::<Utc>::from_timestamp_nanos`, and reads it back as
/// whole seconds (`timestamp`) and the nanoseconds past them
/// (`timestamp_subsec_nanos`).
///
/// Trusted: chrono's source splits `nanos` by Euclidean division into
/// seconds and a remainder below one billion, and the two accessors give those
/// parts back; that is what the contract states.
#[verifier::external_body]
pub(crate) fn utc_from_timestamp_nanos(nanos: i64) -> (r: (i64, u32))
    ensures
        r.0 == nanos / 1_000_000_000,
        r.1 == nanos % 1_000_000_000,
{
    let t = chrono::DateTime::<chrono::Utc>::from_timestamp_nanos(nanos);
    (t.timestamp(), t.timestamp_subsec_nanos())
}

} // verus!
