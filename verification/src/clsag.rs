//! The verification adapter: hands a well-shaped, fully decodable envelope
//! to the external CLSAG verification primitive.
//!
//! What the primitive computes is a deterministic function of the envelope
//! bytes and the message alone; it is named here, not restated.

use crate::codec::scalar_bytes_valid;
use crate::envelope::{
    check_points_decodable, check_ring_decodable, check_scalars_canonical, envelope_decodable,
    envelope_shape_ok, points_view, ring_bytes_view, ring_rows_uniform, scalars_view,
    CLSAGWrapper, CompressedRistrettoWrapper, ScalarWrapper,
};
use curve25519_dalek::ristretto::CompressedRistretto;
use curve25519_dalek::scalar::Scalar;
use nazgul::clsag::CLSAG;
use nazgul::traits::Verify;
use sha2::Sha512;
use vstd::prelude::*;

verus! {

/// Whether the CLSAG verification equation holds for the given envelope
/// bytes and message, with SHA-512 as the challenge hash.  A deterministic
/// function of its arguments, decided by the outside primitive.
pub uninterp spec fn clsag_accepts(
    challenge: Seq<u8>,
    responses: Seq<Seq<u8>>,
    ring: Seq<Seq<Seq<u8>>>,
    key_images: Seq<Seq<u8>>,
    message: Seq<u8>,
) -> bool;

/// Relies on nazgul's `CLSAG::verify` with SHA-512: a pure function of the
/// signature and message that recomputes the challenge chain and compares it;
/// it reads `ring[i][j]` for every row and `key_images[j]` for every layer,
/// so the shape bounds below keep it within its inputs.  The byte-to-value
/// conversions rely on `Scalar::from_canonical_bytes` and
/// `CompressedRistretto::decompress`, which succeed on every input the
/// decodability bound admits.
#[verifier::external_body]
fn clsag_verify_raw(
    challenge: &ScalarWrapper,
    responses: &Vec<ScalarWrapper>,
    ring: &Vec<Vec<CompressedRistrettoWrapper>>,
    key_images: &Vec<CompressedRistrettoWrapper>,
    message: &Vec<u8>,
) -> (r: bool)
    requires
        responses@.len() == ring@.len(),
        ring@.len() > 0,
        key_images@.len() > 0,
        ring_rows_uniform(ring@, key_images@.len() as int),
        envelope_decodable(*challenge, responses@, ring@, key_images@),
    ensures
        r == clsag_accepts(
            challenge@,
            scalars_view(responses@),
            ring_bytes_view(ring@),
            points_view(key_images@),
            message@,
        ),
{
    let decode_scalar = |b: &[u8; 32]| Option::<Scalar>::from(Scalar::from_canonical_bytes(*b)).unwrap();
    let decode_point = |b: &[u8; 32]| CompressedRistretto(*b).decompress().unwrap();
    let converted = CLSAG {
        challenge: decode_scalar(&challenge.0),
        responses: responses.iter().map(|s| decode_scalar(&s.0)).collect(),
        ring: ring.iter().map(|row| row.iter().map(|p| decode_point(&p.0)).collect()).collect(),
        key_images: key_images.iter().map(|p| decode_point(&p.0)).collect(),
    };
    CLSAG::verify::<Sha512>(converted, message.as_slice())
}

/// The verification adapter.  Checks that every byte string in the envelope
/// decodes before any cryptographic work; undecodable envelopes return
/// `None` and never reach the primitive.  Decodable ones return the
/// primitive's verdict.
pub fn verify_envelope(
    challenge: &ScalarWrapper,
    responses: &Vec<ScalarWrapper>,
    ring: &Vec<Vec<CompressedRistrettoWrapper>>,
    key_images: &Vec<CompressedRistrettoWrapper>,
    message: &Vec<u8>,
) -> (r: Option<bool>)
    requires
        responses@.len() == ring@.len(),
        ring@.len() > 0,
        key_images@.len() > 0,
        ring_rows_uniform(ring@, key_images@.len() as int),
    ensures
        r.is_some() <==> envelope_decodable(*challenge, responses@, ring@, key_images@),
        r matches Some(b) ==> b == clsag_accepts(
            challenge@,
            scalars_view(responses@),
            ring_bytes_view(ring@),
            points_view(key_images@),
            message@,
        ),
{
    if !scalar_bytes_valid(&challenge.0) {
        return None;
    }
    if !check_scalars_canonical(responses) {
        return None;
    }
    if !check_ring_decodable(ring) {
        return None;
    }
    if !check_points_decodable(key_images) {
        return None;
    }
    Some(clsag_verify_raw(challenge, responses, ring, key_images, message))
}

impl CLSAGWrapper {
    /// The verdict of the verification adapter on this envelope, against a
    /// ring of its own height and layer count.
    pub fn verify(&self, message: &Vec<u8>) -> (r: Option<bool>)
        requires
            envelope_shape_ok(
                self.ring@.len() as int,
                self.key_images@.len() as int,
                self.responses@,
                self.ring@,
                self.key_images@,
            ),
            self.key_images@.len() > 0,
        ensures
            r.is_some() <==> envelope_decodable(
                self.challenge,
                self.responses@,
                self.ring@,
                self.key_images@,
            ),
            r matches Some(b) ==> b == clsag_accepts(
                self.challenge@,
                scalars_view(self.responses@),
                ring_bytes_view(self.ring@),
                points_view(self.key_images@),
                message@,
            ),
    {
        verify_envelope(&self.challenge, &self.responses, &self.ring, &self.key_images, message)
    }
}

} // verus!
