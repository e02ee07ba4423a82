//! Pedersen commitments to amounts.

use vstd::prelude::*;
use vstd::string::StringExecFns;
use crate::hex_text::{hex_encode, hex_string};
use crate::ristretto::{is_ristretto_point, pedersen_commitment, RistrettoPoint, Scalar};
use crate::tx::CompressedCommitment;

verus! {

/// Why bytes are no commitment.
#[derive(Clone, Copy, Debug, PartialEq, Eq, Structural)]
pub enum Error {
    /// The bytes are not the canonical encoding of a point of the curve.
    InvalidCurvePoint,
}

/// The two generators that the amounts of one token id are committed with.
#[derive(Clone, Copy, Debug, PartialEq, Eq)]
pub struct PedersenGens {
    /// The generator that the value multiplies. It is derived from the
    /// token id.
    pub b: RistrettoPoint,
    /// The generator that the blinding multiplies. It is the same for all
    /// token ids.
    pub b_blinding: RistrettoPoint,
}

/// A Pedersen commitment `v * H + b * G` to a value `v` with blinding `b`.
///
/// Which token id is committed to lies in the choice of `H` and cannot be
/// read off the point.
#[derive(Clone, Copy, Debug, PartialEq, Eq)]
pub struct Commitment {
    pub point: RistrettoPoint,
}

impl PedersenGens {
    /// The generators with given encodings, if both encode points.
    pub fn from_bytes(b: &[u8; 32], b_blinding: &[u8; 32]) -> (r: Result<PedersenGens, Error>)
        ensures
            r.is_ok() == (is_ristretto_point(b@) && is_ristretto_point(b_blinding@)),
            r matches Ok(gens) ==> gens.b@ == b@ && gens.b_blinding@ == b_blinding@,
            r matches Err(e) ==> e == Error::InvalidCurvePoint,
    {
        match (RistrettoPoint::decompress(b), RistrettoPoint::decompress(b_blinding)) {
            (Some(b), Some(b_blinding)) => Ok(PedersenGens { b, b_blinding }),
            _ => Err(Error::InvalidCurvePoint),
        }
    }

    /// `value * b + blinding * b_blinding`.
    pub fn commit(&self, value: u64, blinding: &Scalar) -> (sum: RistrettoPoint)
        ensures
            sum@ == pedersen_commitment(value, blinding.bytes@, self.b@, self.b_blinding@),
    {
        RistrettoPoint::commit(value, blinding, &self.b, &self.b_blinding)
    }
}

impl Commitment {
    /// Commits to `value` with `blinding`. The generators must be those of
    /// the value's token id.
    pub fn new(value: u64, blinding: Scalar, generators: &PedersenGens) -> (c: Commitment)
        ensures
            c.point@ == pedersen_commitment(
                value,
                blinding.bytes@,
                generators.b@,
                generators.b_blinding@,
            ),
    {
        Commitment { point: generators.commit(value, &blinding) }
    }

    /// The commitment that `src` encodes, if it encodes a point.
    pub fn try_from_compressed(src: &CompressedCommitment) -> (r: Result<Commitment, Error>)
        ensures
            r.is_ok() == is_ristretto_point(src.bytes@),
            r matches Ok(c) ==> c.point@ == src.bytes@,
            r matches Err(e) ==> e == Error::InvalidCurvePoint,
    {
        Commitment::from_bytes(&src.bytes)
    }

    /// The canonical encoding of the commitment.
    pub fn to_bytes(&self) -> (bytes: [u8; 32])
        ensures
            bytes@ == self.point@,
            is_ristretto_point(bytes@),
    {
        self.point.compress()
    }

    /// The commitment with a given encoding, if the bytes encode a point.
    pub fn from_bytes(src: &[u8; 32]) -> (r: Result<Commitment, Error>)
        ensures
            r.is_ok() == is_ristretto_point(src@),
            r matches Ok(c) ==> c.point@ == src@,
            r matches Err(e) ==> e == Error::InvalidCurvePoint,
    {
        match RistrettoPoint::decompress(src) {
            Some(point) => Ok(Commitment { point }),
            None => Err(Error::InvalidCurvePoint),
        }
    }

    /// The commitment in words: `Commitment(`, its encoding in hexadecimal,
    /// and `)`.
    pub fn describe(&self) -> (text: String)
        ensures
            text@ == "Commitment("@ + hex_string(self.point@) + ")"@,
    {
        let bytes: [u8; 32] = self.point.compress();
        String::from_str("Commitment(").concat(hex_encode(&bytes).as_str()).concat(")")
    }

    /// The commitment in its compressed form.
    pub fn compress(&self) -> (c: CompressedCommitment)
        ensures
            c.bytes@ == self.point@,
    {
        CompressedCommitment { bytes: self.point.compress() }
    }
}

/// Writing a commitment and reading it again gives the commitment back.
pub proof fn lemma_commitment_survives_its_encoding(c: Commitment, read: Commitment, bytes: [u8; 32])
    requires
        bytes@ == c.point@,
        read.point@ == bytes@,
    ensures
        read == c,
{
    crate::ristretto::lemma_points_with_one_encoding_are_equal(read.point, c.point);
}

} // verus!
