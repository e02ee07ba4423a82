//! One-time keys: the secret that the sender of an output shares with its
//! recipient, and the subaddress that an output was sent to.

use vstd::prelude::*;
use crate::ristretto::{
    is_ristretto_point, point_difference, scalar_times_base, scalar_times_point, RistrettoPoint,
    Scalar,
};
use crate::tx::TxOut;

verus! {

/// A public key: a point of the Ristretto group.
pub type RistrettoPublic = RistrettoPoint;

/// A private key: a scalar of the Ristretto group.
pub type RistrettoPrivate = Scalar;

/// The secret that the holders of two key pairs share: the one's private
/// key times the other's public key.
pub fn create_shared_secret(public_key: &RistrettoPublic, private_key: &RistrettoPrivate) -> (secret:
    RistrettoPublic)
    ensures
        secret@ == scalar_times_point(private_key.bytes@, public_key@),
{
    public_key.times(private_key)
}

/// The secret that the recipient of an output shares with its sender, from
/// the recipient's private view key and the output's public key.
pub fn get_tx_out_shared_secret(view_key: &RistrettoPrivate, tx_public_key: &RistrettoPublic) -> (secret:
    RistrettoPublic)
    ensures
        secret@ == scalar_times_point(view_key.bytes@, tx_public_key@),
{
    create_shared_secret(tx_public_key, view_key)
}

/// Why bytes are no key.
#[derive(Clone, Copy, Debug, PartialEq, Eq, Structural)]
pub enum KeyError {
    /// The bytes are not the encoding of a public key.
    InvalidPublicKey,
}

/// The public key of a private key: the private key times the base point.
pub fn public_key_of(private_key: &RistrettoPrivate) -> (public_key: RistrettoPublic)
    ensures
        public_key@ == scalar_times_base(private_key.bytes@),
{
    RistrettoPoint::mul_base(private_key)
}

/// The public spend key of the subaddress that an output was sent to, as
/// the holder of the view key sees it: the output's target key less the
/// base point times the hash of the shared secret. The caller hashes the
/// shared secret.
pub fn recover_public_subaddress_spend_key(
    hashed_shared_secret: &Scalar,
    tx_target_key: &RistrettoPublic,
) -> (spend_key: RistrettoPublic)
    ensures
        spend_key@ == point_difference(
            tx_target_key@,
            scalar_times_base(hashed_shared_secret.bytes@),
        ),
{
    tx_target_key.minus(&RistrettoPoint::mul_base(hashed_shared_secret))
}

/// Whether an output was sent to the subaddress with a given public spend
/// key. `hashed_shared_secret` is the hash of the secret that the
/// subaddress's view key shares with the output's public key.
///
/// Fails if the output's target key or its public key is no point.
pub fn subaddress_matches_tx_out(
    subaddress_spend_public: &RistrettoPublic,
    hashed_shared_secret: &Scalar,
    output: &TxOut,
) -> (r: Result<bool, KeyError>)
    ensures
        r == if is_ristretto_point(output.target_key.bytes@) && is_ristretto_point(
            output.public_key.bytes@,
        ) {
            Ok::<bool, KeyError>(
                point_difference(
                    output.target_key.bytes@,
                    scalar_times_base(hashed_shared_secret.bytes@),
                ) == subaddress_spend_public@,
            )
        } else {
            Err::<bool, KeyError>(KeyError::InvalidPublicKey)
        },
{
    let target_key: RistrettoPublic = match RistrettoPoint::decompress(&output.target_key.bytes) {
        Some(key) => key,
        None => {
            return Err(KeyError::InvalidPublicKey);
        },
    };
    if RistrettoPoint::decompress(&output.public_key.bytes).is_none() {
        return Err(KeyError::InvalidPublicKey);
    }
    let sub_addr_spend = recover_public_subaddress_spend_key(hashed_shared_secret, &target_key);
    Ok(sub_addr_spend.same(subaddress_spend_public))
}

} // verus!
