//! Decoding and re-encoding of the fixed-width 32-byte strings that carry
//! scalars and compressed curve points.
//!
//! A scalar byte string is canonical exactly when, read as a little-endian
//! integer, it lies below the group order; that bound is stated here in full.
//! Which 32-byte strings decompress to a curve point is a property of the
//! curve arithmetic and is only named, not restated.

use vstd::arithmetic::power2::pow2;
use vstd::prelude::*;

verus! {

/// A byte string read as a little-endian natural number.
pub open spec fn le_bytes_to_nat(s: Seq<u8>) -> nat
    decreases s.len(),
{
    if s.len() == 0 {
        0
    } else {
        s[0] as nat + 256 * le_bytes_to_nat(s.drop_first())
    }
}

/// The order of the Ristretto group's scalar field:
/// 2^252 + 27742317777372353535851937790883648493.
pub open spec fn scalar_group_order() -> nat {
    pow2(252) + 27742317777372353535851937790883648493
}

/// A 32-byte string is a canonical scalar encoding when it is the
/// little-endian form of an integer below the group order.
pub open spec fn scalar_canonical(s: Seq<u8>) -> bool {
    le_bytes_to_nat(s) < scalar_group_order()
}

/// Whether a 32-byte string is the canonical encoding of a Ristretto point.
/// Decided by the curve arithmetic of the outside library; only named here.
pub uninterp spec fn point_valid(s: Seq<u8>) -> bool;

/// Relies on curve25519_dalek's `Scalar::from_canonical_bytes` and
/// `Scalar::to_bytes`: decoding succeeds exactly on the canonical (reduced,
/// high bit clear) little-endian encodings, which are the byte strings below
/// the group order, and the decoded scalar re-encodes to the input unchanged.
#[verifier::external_body]
fn scalar_decode_encode(b: &[u8; 32]) -> (r: Option<[u8; 32]>)
    ensures
        r.is_some() <==> scalar_canonical(b@),
        r matches Some(x) ==> x@ == b@,
{
    let decoded: Option<curve25519_dalek::scalar::Scalar> =
        curve25519_dalek::scalar::Scalar::from_canonical_bytes(*b).into();
    match decoded {
        Some(s) => Some(s.to_bytes()),
        None => None,
    }
}

/// Relies on curve25519_dalek's `CompressedRistretto::decompress` and
/// `RistrettoPoint::compress`: decompression succeeds exactly on canonical
/// point encodings, and compressing the decoded point reproduces the input
/// bytes, the encoding being canonical and unique.
#[verifier::external_body]
fn point_decode_encode(b: &[u8; 32]) -> (r: Option<[u8; 32]>)
    ensures
        r.is_some() <==> point_valid(b@),
        r matches Some(x) ==> x@ == b@,
{
    match curve25519_dalek::ristretto::CompressedRistretto(*b).decompress() {
        Some(p) => Some(p.compress().to_bytes()),
        None => None,
    }
}

/// Whether `b` decodes to a scalar.
pub fn scalar_bytes_valid(b: &[u8; 32]) -> (r: bool)
    ensures
        r == scalar_canonical(b@),
{
    scalar_decode_encode(b).is_some()
}

/// Whether `b` decompresses to a curve point.
pub fn point_bytes_valid(b: &[u8; 32]) -> (r: bool)
    ensures
        r == point_valid(b@),
{
    point_decode_encode(b).is_some()
}

/// Decodes `b` as a scalar and re-encodes it.  Canonical byte strings come
/// back unchanged; non-canonical ones are rejected rather than silently
/// reduced.
pub fn reencode_scalar_bytes(b: &[u8; 32]) -> (r: Option<[u8; 32]>)
    ensures
        r.is_some() <==> scalar_canonical(b@),
        r matches Some(x) ==> x@ == b@,
{
    scalar_decode_encode(b)
}

/// Decodes `b` as a compressed point and re-compresses it.  Valid encodings
/// come back unchanged; byte strings that decompress to no point are
/// rejected.
pub fn reencode_point_bytes(b: &[u8; 32]) -> (r: Option<[u8; 32]>)
    ensures
        r.is_some() <==> point_valid(b@),
        r matches Some(x) ==> x@ == b@,
{
    point_decode_encode(b)
}

} // verus!
