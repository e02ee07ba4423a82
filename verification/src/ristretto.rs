//! Ristretto points and scalars in their byte encodings, and the
//! operations on them that this library needs.
//!
//! The arithmetic is curve25519-dalek's. A point is held as its canonical
//! 32-byte encoding, a scalar as 32 little-endian bytes that are reduced
//! modulo the group's order when used.

use vstd::prelude::*;
use curve25519_dalek::traits::MultiscalarMul;
use crate::bytes::bytes_equal;

verus! {

/// Whether 32 bytes are the canonical encoding of a Ristretto point: what
/// `CompressedRistretto::decompress` decides.
pub uninterp spec fn is_ristretto_point(bytes: Seq<u8>) -> bool;

/// The encoding of `value * b + blinding * b_blinding`, for two points in
/// their encodings, a number and a scalar in its bytes: what
/// `RistrettoPoint::multiscalar_mul` computes.
pub uninterp spec fn pedersen_commitment(
    value: u64,
    blinding: Seq<u8>,
    b: Seq<u8>,
    b_blinding: Seq<u8>,
) -> Seq<u8>;

/// The encoding of `scalar * point`: what multiplying a `RistrettoPoint` by
/// a `Scalar` computes.
pub uninterp spec fn scalar_times_point(scalar: Seq<u8>, point: Seq<u8>) -> Seq<u8>;

/// The encoding of `scalar` times the base point of the group: what
/// `RistrettoPoint::mul_base` computes.
pub uninterp spec fn scalar_times_base(scalar: Seq<u8>) -> Seq<u8>;

/// The encoding of the difference of two points: what subtracting one
/// `RistrettoPoint` from another computes.
pub uninterp spec fn point_difference(a: Seq<u8>, b: Seq<u8>) -> Seq<u8>;

/// Calls `CompressedRistretto::decompress` and says whether it returned a
/// point, which it does exactly for the canonical encodings of points.
#[verifier::external_body]
fn decompresses(bytes: &[u8; 32]) -> (ok: bool)
    ensures
        ok == is_ristretto_point(bytes@),
{
    curve25519_dalek::ristretto::CompressedRistretto(*bytes).decompress().is_some()
}

/// Calls `RistrettoPoint::multiscalar_mul` on the scalars `value` and
/// `blinding`, the latter reduced modulo the group's order, and the points
/// that `b` and `b_blinding` encode, and compresses the sum. The result of
/// compressing a point is the canonical encoding of that point.
#[verifier::external_body]
fn multiscalar_mul(value: u64, blinding: &[u8; 32], b: &[u8; 32], b_blinding: &[u8; 32]) -> (r:
    [u8; 32])
    requires
        is_ristretto_point(b@),
        is_ristretto_point(b_blinding@),
    ensures
        r@ == pedersen_commitment(value, blinding@, b@, b_blinding@),
        is_ristretto_point(r@),
{
    let scalars = [
        curve25519_dalek::scalar::Scalar::from(value),
        curve25519_dalek::scalar::Scalar::from_bytes_mod_order(*blinding),
    ];
    let points = [
        curve25519_dalek::ristretto::CompressedRistretto(*b).decompress().unwrap(),
        curve25519_dalek::ristretto::CompressedRistretto(*b_blinding).decompress().unwrap(),
    ];
    curve25519_dalek::ristretto::RistrettoPoint::multiscalar_mul(scalars.iter(), points.iter())
        .compress().to_bytes()
}

/// Multiplies the point that `point` encodes by `scalar`, reduced modulo
/// the group's order, with curve25519-dalek's `*`, and compresses the
/// product. The result of compressing a point is the canonical encoding of
/// that point.
#[verifier::external_body]
fn scalar_mul(scalar: &[u8; 32], point: &[u8; 32]) -> (r: [u8; 32])
    requires
        is_ristretto_point(point@),
    ensures
        r@ == scalar_times_point(scalar@, point@),
        is_ristretto_point(r@),
{
    let factor = curve25519_dalek::scalar::Scalar::from_bytes_mod_order(*scalar);
    let base = curve25519_dalek::ristretto::CompressedRistretto(*point).decompress().unwrap();
    (factor * base).compress().to_bytes()
}

/// Calls `RistrettoPoint::mul_base` on `scalar`, reduced modulo the
/// group's order, and compresses the product. The result of compressing a
/// point is the canonical encoding of that point.
#[verifier::external_body]
fn base_mul(scalar: &[u8; 32]) -> (r: [u8; 32])
    ensures
        r@ == scalar_times_base(scalar@),
        is_ristretto_point(r@),
{
    let factor = curve25519_dalek::scalar::Scalar::from_bytes_mod_order(*scalar);
    curve25519_dalek::ristretto::RistrettoPoint::mul_base(&factor).compress().to_bytes()
}

/// Subtracts the point that `b` encodes from the point that `a` encodes,
/// with curve25519-dalek's `-`, and compresses the difference. The result
/// of compressing a point is the canonical encoding of that point.
#[verifier::external_body]
fn point_sub(a: &[u8; 32], b: &[u8; 32]) -> (r: [u8; 32])
    requires
        is_ristretto_point(a@),
        is_ristretto_point(b@),
    ensures
        r@ == point_difference(a@, b@),
        is_ristretto_point(r@),
{
    let minuend = curve25519_dalek::ristretto::CompressedRistretto(*a).decompress().unwrap();
    let subtrahend = curve25519_dalek::ristretto::CompressedRistretto(*b).decompress().unwrap();
    (minuend - subtrahend).compress().to_bytes()
}

/// A scalar of the Ristretto group, as 32 little-endian bytes.
#[derive(Clone, Copy, Debug, PartialEq, Eq)]
pub struct Scalar {
    pub bytes: [u8; 32],
}

/// A point of the Ristretto group. A value of this type always holds the
/// canonical encoding of a point.
#[derive(Clone, Copy, Debug, PartialEq, Eq)]
pub struct RistrettoPoint {
    bytes: [u8; 32],
}

impl View for RistrettoPoint {
    type V = Seq<u8>;

    /// The canonical encoding of the point.
    closed spec fn view(&self) -> Seq<u8> {
        self.bytes@
    }
}

impl RistrettoPoint {
    #[verifier::type_invariant]
    spec fn is_a_point(self) -> bool {
        is_ristretto_point(self.bytes@)
    }

    /// The point that `bytes` encode, if they are the canonical encoding of
    /// one.
    pub fn decompress(bytes: &[u8; 32]) -> (point: Option<RistrettoPoint>)
        ensures
            point.is_some() == is_ristretto_point(bytes@),
            point matches Some(p) ==> p@ == bytes@,
    {
        if decompresses(bytes) {
            Some(RistrettoPoint { bytes: *bytes })
        } else {
            None
        }
    }

    /// The canonical encoding of the point.
    pub fn compress(&self) -> (bytes: [u8; 32])
        ensures
            bytes@ == self@,
            is_ristretto_point(bytes@),
    {
        proof {
            use_type_invariant(self);
        }
        self.bytes
    }

    /// `value * b + blinding * b_blinding`.
    pub fn commit(value: u64, blinding: &Scalar, b: &RistrettoPoint, b_blinding: &RistrettoPoint) -> (sum:
        RistrettoPoint)
        ensures
            sum@ == pedersen_commitment(value, blinding.bytes@, b@, b_blinding@),
    {
        proof {
            use_type_invariant(b);
            use_type_invariant(b_blinding);
        }
        RistrettoPoint { bytes: multiscalar_mul(value, &blinding.bytes, &b.bytes, &b_blinding.bytes) }
    }

    /// `scalar` times the base point of the group.
    pub fn mul_base(scalar: &Scalar) -> (product: RistrettoPoint)
        ensures
            product@ == scalar_times_base(scalar.bytes@),
    {
        RistrettoPoint { bytes: base_mul(&scalar.bytes) }
    }

    /// `self - other`.
    pub fn minus(&self, other: &RistrettoPoint) -> (difference: RistrettoPoint)
        ensures
            difference@ == point_difference(self@, other@),
    {
        proof {
            use_type_invariant(self);
            use_type_invariant(other);
        }
        RistrettoPoint { bytes: point_sub(&self.bytes, &other.bytes) }
    }

    /// Whether two points are the same point.
    pub fn same(&self, other: &RistrettoPoint) -> (b: bool)
        ensures
            b == (self@ == other@),
            b == (*self == *other),
    {
        let b: bool = bytes_equal(&self.bytes, &other.bytes);
        proof {
            if self.bytes@ == other.bytes@ {
                assert(self.bytes =~= other.bytes);
            }
        }
        b
    }

    /// `scalar * self`.
    pub fn times(&self, scalar: &Scalar) -> (product: RistrettoPoint)
        ensures
            product@ == scalar_times_point(scalar.bytes@, self@),
    {
        proof {
            use_type_invariant(self);
        }
        RistrettoPoint { bytes: scalar_mul(&scalar.bytes, &self.bytes) }
    }
}

/// A point is known by its encoding.
pub proof fn lemma_points_with_one_encoding_are_equal(p: RistrettoPoint, q: RistrettoPoint)
    requires
        p@ == q@,
    ensures
        p == q,
{
    assert(p.bytes =~= q.bytes);
}

} // verus!
