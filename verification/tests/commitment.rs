use curve25519_dalek::constants::RISTRETTO_BASEPOINT_POINT;
use curve25519_dalek::ristretto::CompressedRistretto;
use curve25519_dalek::scalar::Scalar as DalekScalar;
use txbuilder::commitment::{Commitment, Error, PedersenGens};
use txbuilder::onetime_keys::{
    create_shared_secret, get_tx_out_shared_secret, public_key_of,
    recover_public_subaddress_spend_key, subaddress_matches_tx_out, KeyError,
};
use txbuilder::ristretto::{RistrettoPoint, Scalar};
use txbuilder::tx::CompressedCommitment;

fn blinding_bytes() -> [u8; 32] {
    let mut bytes = [0u8; 32];
    for (i, b) in bytes.iter_mut().enumerate() {
        *b = (i as u8).wrapping_mul(37).wrapping_add(11);
    }
    bytes
}

// Commitment::new should create the correct point.
#[test]
fn test_new() {
    let value: u64 = 0x1234_5678_9abc_def0;
    let blinding = DalekScalar::from_bytes_mod_order(blinding_bytes());
    let h = RISTRETTO_BASEPOINT_POINT * DalekScalar::from(987_654_321u64);
    let g = RISTRETTO_BASEPOINT_POINT;

    let gens =
        PedersenGens::from_bytes(&h.compress().to_bytes(), &g.compress().to_bytes()).unwrap();
    let commitment = Commitment::new(value, Scalar { bytes: blinding_bytes() }, &gens);

    let expected_point = DalekScalar::from(value) * h + blinding * g;
    assert_eq!(commitment.to_bytes(), expected_point.compress().to_bytes());
    assert_eq!(commitment.to_bytes().len(), 32);
    assert_eq!(commitment.compress().bytes, expected_point.compress().to_bytes());
}

#[test]
fn commitment_to_zero_with_zero_blinding_is_the_identity() {
    let g = RISTRETTO_BASEPOINT_POINT.compress().to_bytes();
    let gens = PedersenGens::from_bytes(&g, &g).unwrap();
    let commitment = Commitment::new(0, Scalar { bytes: [0u8; 32] }, &gens);
    assert_eq!(commitment.to_bytes(), [0u8; 32]);
}

#[test]
fn commitment_differs_from_its_generators() {
    let g = RISTRETTO_BASEPOINT_POINT.compress().to_bytes();
    let gens = PedersenGens::from_bytes(&g, &g).unwrap();
    let mut one = [0u8; 32];
    one[0] = 1;
    // 1 * G + 1 * G = 2 * G
    let commitment = Commitment::new(1, Scalar { bytes: one }, &gens);
    let twice = (RISTRETTO_BASEPOINT_POINT + RISTRETTO_BASEPOINT_POINT).compress().to_bytes();
    assert_eq!(commitment.to_bytes(), twice);
    assert_ne!(commitment.to_bytes(), g);
}

#[test]
fn malformed_points_are_rejected() {
    // All ones is no canonical encoding of a field element.
    let bad = [0xffu8; 32];
    assert!(CompressedRistretto(bad).decompress().is_none());
    assert_eq!(Commitment::from_bytes(&bad), Err(Error::InvalidCurvePoint));
    assert_eq!(
        Commitment::try_from_compressed(&CompressedCommitment { bytes: bad }),
        Err(Error::InvalidCurvePoint)
    );
    assert!(RistrettoPoint::decompress(&bad).is_none());
    let g = RISTRETTO_BASEPOINT_POINT.compress().to_bytes();
    assert_eq!(PedersenGens::from_bytes(&bad, &g), Err(Error::InvalidCurvePoint));
    assert_eq!(PedersenGens::from_bytes(&g, &bad), Err(Error::InvalidCurvePoint));
}

#[test]
fn well_formed_points_round_trip() {
    let point = RISTRETTO_BASEPOINT_POINT * DalekScalar::from(42u64);
    let bytes = point.compress().to_bytes();
    let commitment = Commitment::from_bytes(&bytes).unwrap();
    assert_eq!(commitment.to_bytes(), bytes);
    let again =
        Commitment::try_from_compressed(&CompressedCommitment { bytes: commitment.to_bytes() })
            .unwrap();
    assert_eq!(again, commitment);
}

#[test]
fn shared_secret_is_private_times_public() {
    let view_private = DalekScalar::from(1_000_003u64);
    let tx_private = DalekScalar::from(77u64);
    let tx_public = RISTRETTO_BASEPOINT_POINT * tx_private;
    let view_public = RISTRETTO_BASEPOINT_POINT * view_private;

    let tx_public_key = RistrettoPoint::decompress(&tx_public.compress().to_bytes()).unwrap();
    let view_public_key = RistrettoPoint::decompress(&view_public.compress().to_bytes()).unwrap();
    let view_key = Scalar { bytes: view_private.to_bytes() };
    let tx_key = Scalar { bytes: tx_private.to_bytes() };

    let by_recipient = get_tx_out_shared_secret(&view_key, &tx_public_key);
    let by_sender = create_shared_secret(&view_public_key, &tx_key);
    let expected = (view_private * tx_public).compress().to_bytes();
    assert_eq!(by_recipient.compress(), expected);
    assert_eq!(by_sender.compress(), expected);
    assert_ne!(by_recipient.compress(), tx_public.compress().to_bytes());

    // Another view key shares another secret.
    let stranger = Scalar { bytes: DalekScalar::from(5u64).to_bytes() };
    assert_ne!(get_tx_out_shared_secret(&stranger, &tx_public_key).compress(), expected);
}

#[test]
fn commitments_describe_themselves_in_hex() {
    let point = RISTRETTO_BASEPOINT_POINT;
    let bytes = point.compress().to_bytes();
    let commitment = Commitment::from_bytes(&bytes).unwrap();
    assert_eq!(
        commitment.describe(),
        "Commitment(e2f2ae0a6abc4e71a884a961c500515f58e30b6aa582dd8db6a65945e08d2d76)"
    );
}

fn plain_tx_out(target_key: [u8; 32], public_key: [u8; 32]) -> txbuilder::tx::TxOut {
    txbuilder::tx::TxOut {
        masked_amount: txbuilder::tx::MaskedAmount {
            commitment: CompressedCommitment { bytes: [0; 32] },
            masked_value: 0,
            masked_token_id: None,
        },
        target_key: txbuilder::keys::CompressedRistrettoPublic::new(target_key),
        public_key: txbuilder::keys::CompressedRistrettoPublic::new(public_key),
        e_fog_hint: txbuilder::tx::EncryptedFogHint { bytes: [0; 84] },
        e_memo: None,
    }
}

#[test]
fn outputs_are_matched_to_the_subaddress_they_were_sent_to() {
    let spend_private = DalekScalar::from(31_337u64);
    let hashed_secret = DalekScalar::from(424_242u64);
    let tx_private = DalekScalar::from(9u64);

    let spend_public = RISTRETTO_BASEPOINT_POINT * spend_private;
    let target = spend_public + RISTRETTO_BASEPOINT_POINT * hashed_secret;
    let tx_public = RISTRETTO_BASEPOINT_POINT * tx_private;

    let spend_key = public_key_of(&Scalar { bytes: spend_private.to_bytes() });
    assert_eq!(spend_key.compress(), spend_public.compress().to_bytes());

    let hashed = Scalar { bytes: hashed_secret.to_bytes() };
    let target_key = RistrettoPoint::decompress(&target.compress().to_bytes()).unwrap();
    let recovered = recover_public_subaddress_spend_key(&hashed, &target_key);
    assert_eq!(recovered.compress(), spend_public.compress().to_bytes());
    assert!(recovered.same(&spend_key));
    assert!(!recovered.same(&target_key));
    assert_eq!(
        target_key.minus(&spend_key).compress(),
        (RISTRETTO_BASEPOINT_POINT * hashed_secret).compress().to_bytes()
    );

    let output = plain_tx_out(target.compress().to_bytes(), tx_public.compress().to_bytes());
    assert_eq!(subaddress_matches_tx_out(&spend_key, &hashed, &output), Ok(true));

    // Another subaddress, or another shared secret, does not match.
    let other_key = public_key_of(&Scalar { bytes: DalekScalar::from(5u64).to_bytes() });
    assert_eq!(subaddress_matches_tx_out(&other_key, &hashed, &output), Ok(false));
    let other_hash = Scalar { bytes: DalekScalar::from(424_243u64).to_bytes() };
    assert_eq!(subaddress_matches_tx_out(&spend_key, &other_hash, &output), Ok(false));

    // Keys that are no points are errors.
    let bad_target = plain_tx_out([0xff; 32], tx_public.compress().to_bytes());
    assert_eq!(
        subaddress_matches_tx_out(&spend_key, &hashed, &bad_target),
        Err(KeyError::InvalidPublicKey)
    );
    let bad_public = plain_tx_out(target.compress().to_bytes(), [0xff; 32]);
    assert_eq!(
        subaddress_matches_tx_out(&spend_key, &hashed, &bad_public),
        Err(KeyError::InvalidPublicKey)
    );
}
