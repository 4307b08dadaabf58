//! The signature envelope submitted with a ballot, and its structural
//! (shape) validation: dimensions are checked against the poll's ring before
//! any cryptographic work is attempted.

use crate::codec::{point_bytes_valid, point_valid, scalar_bytes_valid, scalar_canonical};
use vstd::prelude::*;

verus! {

/// A compressed Ristretto point as submitted and stored: 32 opaque bytes.
#[derive(Clone, Copy, Debug, PartialEq, Eq)]
pub struct CompressedRistrettoWrapper(pub [u8; 32]);

impl View for CompressedRistrettoWrapper {
    type V = Seq<u8>;

    open spec fn view(&self) -> Seq<u8> {
        self.0@
    }
}

/// A scalar as submitted: 32 opaque bytes, little-endian.
#[derive(Clone, Copy, Debug, PartialEq, Eq)]
pub struct ScalarWrapper(pub [u8; 32]);

impl View for ScalarWrapper {
    type V = Seq<u8>;

    open spec fn view(&self) -> Seq<u8> {
        self.0@
    }
}

/// A submitted linkable ring signature, assembled per call and never stored.
/// Only the first key image is linkable; it is the nullifier.
pub struct CLSAGWrapper {
    /// The challenge scalar generated non-interactively by the signer.
    pub challenge: ScalarWrapper,
    /// One response scalar per ring row.
    pub responses: Vec<ScalarWrapper>,
    /// The ring of public keys, one row per eligible voter.
    pub ring: Vec<Vec<CompressedRistrettoWrapper>>,
    /// One key image per layer; the first is the linkable one.
    pub key_images: Vec<CompressedRistrettoWrapper>,
}

/// The byte strings of a sequence of scalars.
pub open spec fn scalars_view(v: Seq<ScalarWrapper>) -> Seq<Seq<u8>> {
    v.map_values(|s: ScalarWrapper| s@)
}

/// The byte strings of a sequence of points.
pub open spec fn points_view(v: Seq<CompressedRistrettoWrapper>) -> Seq<Seq<u8>> {
    v.map_values(|p: CompressedRistrettoWrapper| p@)
}

/// The byte strings of a ring, row by row.
pub open spec fn ring_bytes_view(v: Seq<Vec<CompressedRistrettoWrapper>>) -> Seq<Seq<Seq<u8>>> {
    v.map_values(|row: Vec<CompressedRistrettoWrapper>| points_view(row@))
}

/// Every row of `ring` holds exactly `layers` entries.
pub open spec fn ring_rows_uniform(ring: Seq<Vec<CompressedRistrettoWrapper>>, layers: int) -> bool {
    forall|i: int| 0 <= i < ring.len() ==> (#[trigger] ring[i])@.len() == layers
}

/// The dimensions demanded of a ballot against a ring of `height` rows with
/// `layers` keys per row: `height` responses, a `height` by `layers` ring,
/// `layers` key images, and a non-empty ring.
pub open spec fn envelope_shape_ok(
    height: int,
    layers: int,
    responses: Seq<ScalarWrapper>,
    ring: Seq<Vec<CompressedRistrettoWrapper>>,
    key_images: Seq<CompressedRistrettoWrapper>,
) -> bool {
    &&& responses.len() == height
    &&& ring.len() == height
    &&& height > 0
    &&& ring_rows_uniform(ring, layers)
    &&& key_images.len() == layers
}

/// Every scalar in `v` is canonical.
pub open spec fn scalars_canonical(v: Seq<ScalarWrapper>) -> bool {
    forall|i: int| 0 <= i < v.len() ==> scalar_canonical((#[trigger] v[i])@)
}

/// Every point in `v` decompresses.
pub open spec fn points_decodable(v: Seq<CompressedRistrettoWrapper>) -> bool {
    forall|i: int| 0 <= i < v.len() ==> point_valid((#[trigger] v[i])@)
}

/// Every point of every row of `ring` decompresses.
pub open spec fn ring_decodable(ring: Seq<Vec<CompressedRistrettoWrapper>>) -> bool {
    forall|i: int| 0 <= i < ring.len() ==> points_decodable((#[trigger] ring[i])@)
}

/// Every byte string in the envelope decodes to the value it stands for.
pub open spec fn envelope_decodable(
    challenge: ScalarWrapper,
    responses: Seq<ScalarWrapper>,
    ring: Seq<Vec<CompressedRistrettoWrapper>>,
    key_images: Seq<CompressedRistrettoWrapper>,
) -> bool {
    &&& scalar_canonical(challenge@)
    &&& scalars_canonical(responses)
    &&& ring_decodable(ring)
    &&& points_decodable(key_images)
}

/// Checks that every row of `ring` has exactly `layers` entries.
pub fn check_ring_rows_uniform(
    ring: &Vec<Vec<CompressedRistrettoWrapper>>,
    layers: usize,
) -> (r: bool)
    ensures
        r == ring_rows_uniform(ring@, layers as int),
{
    let n = ring.len();
    let mut i: usize = 0;
    while i < n
        invariant
            0 <= i <= n,
            n == ring@.len(),
            forall|j: int| 0 <= j < i ==> (#[trigger] ring@[j])@.len() == layers,
        decreases n - i,
    {
        if ring[i].len() != layers {
            return false;
        }
        i = i + 1;
    }
    true
}

/// Checks that every scalar in `v` is canonical.
pub fn check_scalars_canonical(v: &Vec<ScalarWrapper>) -> (r: bool)
    ensures
        r == scalars_canonical(v@),
{
    let n = v.len();
    let mut i: usize = 0;
    while i < n
        invariant
            0 <= i <= n,
            n == v@.len(),
            forall|j: int| 0 <= j < i ==> scalar_canonical((#[trigger] v@[j])@),
        decreases n - i,
    {
        if !scalar_bytes_valid(&v[i].0) {
            return false;
        }
        i = i + 1;
    }
    true
}

/// Checks that every point in `v` decompresses.
pub fn check_points_decodable(v: &Vec<CompressedRistrettoWrapper>) -> (r: bool)
    ensures
        r == points_decodable(v@),
{
    let n = v.len();
    let mut i: usize = 0;
    while i < n
        invariant
            0 <= i <= n,
            n == v@.len(),
            forall|j: int| 0 <= j < i ==> point_valid((#[trigger] v@[j])@),
        decreases n - i,
    {
        if !point_bytes_valid(&v[i].0) {
            return false;
        }
        i = i + 1;
    }
    true
}

/// Checks that every point of every row of `ring` decompresses.
pub fn check_ring_decodable(ring: &Vec<Vec<CompressedRistrettoWrapper>>) -> (r: bool)
    ensures
        r == ring_decodable(ring@),
{
    let n = ring.len();
    let mut i: usize = 0;
    while i < n
        invariant
            0 <= i <= n,
            n == ring@.len(),
            forall|j: int| 0 <= j < i ==> points_decodable((#[trigger] ring@[j])@),
        decreases n - i,
    {
        if !check_points_decodable(&ring[i]) {
            return false;
        }
        i = i + 1;
    }
    true
}

} // verus!
