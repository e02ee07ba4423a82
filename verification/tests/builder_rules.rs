use txbuilder::address::{
    FogPubkeyEntry, FogPubkeyResolver, FogPubkeyTable, FullyValidatedFogPubkey, PublicAddress,
    ReservedDestination, ShortAddressHash,
};
use txbuilder::amount::{Amount, TokenId, MINIMUM_FEE};
use txbuilder::block_version::{BlockVersion, MAX_BLOCK_VERSION};
use txbuilder::burn_redemption::BurnRedemptionMemoBuilder;
use txbuilder::bytes::bytes_equal;
use txbuilder::conservation::{conserves_value, lane_is_conserved, lane_sum};
use txbuilder::error::{
    FogPubkeyError, NewMemoError, NewTxError, SignedContingentInputError, TxBuilderError,
};
use txbuilder::input_materials::{
    InputCredentials, InputMaterials, InputSecret, SignedContingentInput,
};
use txbuilder::keys::{CompressedRistrettoPublic, KeyOrder};
use txbuilder::memo::{EmptyMemoBuilder, MemoBuilder, MemoContext, MemoPayload};
use txbuilder::memo_payloads::{
    authenticated_part, burn_redemption_memo, destination_memo, is_authenticated, sender_memo,
    sender_with_payment_request_id_memo, with_authentication_code, MAX_DESTINATION_MEMO_FEE,
};
use txbuilder::rth_memo_builder::{RTHMemoBuilder, SenderMemoCredential};
use txbuilder::ordering::{sort_by_key, DefaultTxOutputsOrdering, SortKeyed, TxOutputsOrdering};
use txbuilder::tombstone::{min_block, TombstoneState};
use txbuilder::output::{
    create_fog_hint, create_output_with_fog_hint, FogHintPlan, OutputDraft, OutputPlan,
    SealedOutput,
};
use txbuilder::transaction_builder::TransactionBuilder;
use txbuilder::unsigned_tx::InputSigner;
use txbuilder::tx::{
    CompressedCommitment, EncryptedFogHint, EncryptedMemo, InputRules, MaskedAmount,
    OutputSecret, RingSignature, TxIn, TxOut, TxOutConfirmationNumber, TxOutMembershipProof,
    UnmaskedAmount,
};

fn key(tag: u8) -> CompressedRistrettoPublic {
    CompressedRistrettoPublic::new([tag; 32])
}

fn tx_out(tag: u8) -> TxOut {
    TxOut {
        masked_amount: MaskedAmount {
            commitment: CompressedCommitment { bytes: [tag; 32] },
            masked_value: 1000 + tag as u64,
            masked_token_id: Some(7),
        },
        target_key: key(tag.wrapping_add(100)),
        public_key: key(tag),
        e_fog_hint: EncryptedFogHint { bytes: [tag; 84] },
        e_memo: Some(EncryptedMemo { bytes: [tag; 66] }),
    }
}

fn membership(index: u64) -> TxOutMembershipProof {
    TxOutMembershipProof { index, highest_index: 100, elements: vec![index as u8] }
}

fn secret(amount: Amount) -> InputSecret {
    InputSecret { onetime_private_key: [9; 32], amount, blinding: [8; 32] }
}

fn credentials(tags: &[u8], amount: Amount) -> InputCredentials {
    InputCredentials::new(
        tags.iter().map(|t| tx_out(*t)).collect(),
        tags.iter().map(|t| membership(*t as u64)).collect(),
        0,
        secret(amount),
    )
    .unwrap()
}

fn presigned(tags: &[u8], amount: Amount, rules: Option<InputRules>, amounts: Vec<UnmaskedAmount>) -> SignedContingentInput {
    SignedContingentInput {
        block_version: 3,
        tx_in: TxIn {
            ring: tags.iter().map(|t| tx_out(*t)).collect(),
            proofs: tags.iter().map(|t| membership(*t as u64)).collect(),
            input_rules: rules,
        },
        mlsag: vec![1, 2, 3],
        pseudo_output_amount: UnmaskedAmount {
            value: amount.value,
            token_id: amount.token_id.id,
            blinding: [6; 32],
        },
        required_output_amounts: amounts,
        tx_out_global_indices: tags.iter().map(|t| *t as u64).collect(),
    }
}

fn no_fog() -> FogPubkeyTable {
    FogPubkeyTable::new(vec![])
}

fn mob(value: u64) -> Amount {
    Amount::new(value, TokenId::mob())
}

fn address(tag: u8) -> PublicAddress {
    PublicAddress::new(key(tag), key(tag.wrapping_add(1)))
}

fn fog_address(tag: u8, url: &str) -> PublicAddress {
    PublicAddress::new_with_fog(key(tag), key(tag.wrapping_add(1)), url.to_string())
}

fn context(tag: u8) -> MemoContext {
    MemoContext {
        tx_public_key: key(tag),
        recipient_address_hash: ShortAddressHash { bytes: [0xbb; 16] },
    }
}

fn sealed(tag: u8, amount: Amount) -> SealedOutput {
    SealedOutput {
        tx_out: tx_out(tag),
        opened: Some(OutputSecret { amount, blinding: [4; 32] }),
        confirmation: TxOutConfirmationNumber { bytes: [tag; 32] },
    }
}

fn builder(version: u32, fee: Amount) -> TransactionBuilder<FogPubkeyTable, EmptyMemoBuilder> {
    TransactionBuilder::new(BlockVersion::new(version), fee, no_fog(), EmptyMemoBuilder).unwrap()
}

fn add<MB: MemoBuilder>(
    builder: &mut TransactionBuilder<FogPubkeyTable, MB>,
    tag: u8,
    amount: Amount,
) -> TxOut {
    let plan = builder.add_output(amount, &address(200), context(tag)).unwrap();
    builder.commit_output(plan, sealed(tag, amount)).unwrap().0
}

#[test]
fn features_arrive_version_by_version() {
    let expected = [
        (0u32, false, false, false, false),
        (1, true, false, false, false),
        (2, true, true, false, false),
        (3, true, true, true, true),
    ];
    for (number, memo, masked, mixed, rules) in expected {
        let version = BlockVersion::try_from_u32(number).unwrap();
        assert_eq!(version.e_memo_feature_is_supported(), memo);
        assert_eq!(version.masked_token_id_feature_is_supported(), masked);
        assert_eq!(version.mixed_transactions_are_supported(), mixed);
        assert_eq!(version.signed_input_rules_are_supported(), rules);
    }
    assert_eq!(MAX_BLOCK_VERSION, 3);
    assert_eq!(BlockVersion::try_from_u32(4), None);
    assert_eq!(BlockVersion::new(4).number, 4);
}

#[test]
fn keys_are_ordered_byte_by_byte() {
    let mut low = [0x10u8; 32];
    let mut high = [0x10u8; 32];
    high[31] = 0x11;
    assert_eq!(key(0x10).compare(&key(0x10)), KeyOrder::Equal);
    assert_eq!(
        CompressedRistrettoPublic::new(low).compare(&CompressedRistrettoPublic::new(high)),
        KeyOrder::Less
    );
    // An earlier byte outweighs all later ones.
    low[0] = 0x11;
    high[31] = 0xff;
    let a = CompressedRistrettoPublic::new(low);
    let b = CompressedRistrettoPublic::new(high);
    assert_eq!(a.compare(&b), KeyOrder::Greater);
    assert_eq!(b.compare(&a), KeyOrder::Less);
    assert_eq!(DefaultTxOutputsOrdering::compare(&a, &b), KeyOrder::Greater);
    assert!(a > b);
    assert!(!a.same(&b));
    assert!(a.same(&CompressedRistrettoPublic::new(low)));
    assert!(bytes_equal(&low, &low));
    assert!(!bytes_equal(&low, &high));
}

#[test]
fn outputs_are_the_same_only_if_every_field_is() {
    let base = tx_out(5);
    assert!(base.same(&tx_out(5)));
    let mut other = base;
    other.e_memo = None;
    assert!(!base.same(&other));
    other = base;
    other.masked_amount.masked_token_id = None;
    assert!(!base.same(&other));
    other = base;
    other.masked_amount.masked_value += 1;
    assert!(!base.same(&other));
    other = base;
    other.masked_amount.commitment.bytes[31] ^= 1;
    assert!(!base.same(&other));
    other = base;
    other.target_key.bytes[0] ^= 1;
    assert!(!base.same(&other));
    other = base;
    other.public_key.bytes[7] ^= 1;
    assert!(!base.same(&other));
    other = base;
    other.e_fog_hint.bytes[83] ^= 1;
    assert!(!base.same(&other));
    other = base;
    other.e_memo = Some(EncryptedMemo { bytes: [6; 66] });
    assert!(!base.same(&other));
}

#[test]
fn addresses_are_the_same_if_keys_and_fog_are() {
    let plain = address(1);
    assert!(plain.same(&address(1)));
    assert!(!plain.same(&address(2)));
    assert!(!plain.same(&fog_address(1, "fog://a")));
    assert!(fog_address(1, "fog://a").same(&fog_address(1, "fog://a")));
    assert!(!fog_address(1, "fog://a").same(&fog_address(1, "fog://b")));
    assert!(!plain.has_fog());
    assert!(fog_address(1, "fog://a").has_fog());
}

#[test]
fn sorting_is_stable() {
    // Two drafts with one public key keep their order.
    let mut first = tx_out(9);
    first.target_key = key(1);
    let mut second = tx_out(9);
    second.target_key = key(2);
    let secret = OutputSecret { amount: mob(1), blinding: [0; 32] };
    let mut drafts = vec![
        OutputDraft { tx_out: tx_out(20), secret },
        OutputDraft { tx_out: first, secret },
        OutputDraft { tx_out: tx_out(3), secret },
        OutputDraft { tx_out: second, secret },
        OutputDraft { tx_out: tx_out(250), secret },
    ];
    assert_eq!(drafts[0].sort_key(), key(20));
    sort_by_key::<OutputDraft, DefaultTxOutputsOrdering>(&mut drafts);
    let keys: Vec<u8> = drafts.iter().map(|d| d.tx_out.public_key.bytes[0]).collect();
    assert_eq!(keys, vec![3, 9, 9, 20, 250]);
    assert_eq!(drafts[1].tx_out.target_key, key(1));
    assert_eq!(drafts[2].tx_out.target_key, key(2));

    let mut none: Vec<OutputDraft> = vec![];
    sort_by_key::<OutputDraft, DefaultTxOutputsOrdering>(&mut none);
    assert!(none.is_empty());
}

// Orders keys the other way round.
struct Descending;

impl TxOutputsOrdering for Descending {
    fn spec_compare(_a: CompressedRistrettoPublic, _b: CompressedRistrettoPublic) -> KeyOrder {
        unreachable!()
    }

    fn compare(a: &CompressedRistrettoPublic, b: &CompressedRistrettoPublic) -> KeyOrder {
        b.compare(a)
    }
}

#[test]
fn outputs_follow_the_sorter_and_inputs_do_not() {
    let mut builder = builder(3, mob(10));
    builder.add_input(credentials(&[50, 60], mob(40)));
    builder.add_input(credentials(&[10, 70], mob(40)));
    builder.add_input(credentials(&[30, 20], mob(40)));
    for tag in [5u8, 9, 1, 7] {
        add(&mut builder, tag, mob(27));
    }
    builder.set_fee(12).unwrap();
    let unsigned = builder.build_with_sorter::<Descending>().unwrap();
    let outputs: Vec<u8> = unsigned.prefix.outputs.iter().map(|o| o.public_key.bytes[0]).collect();
    assert_eq!(outputs, vec![9, 7, 5, 1]);
    let inputs: Vec<u8> =
        unsigned.prefix.inputs.iter().map(|i| i.ring[0].public_key.bytes[0]).collect();
    assert_eq!(inputs, vec![10, 20, 50]);
    assert!(unsigned.conserves_value());
}

#[test]
fn credentials_sort_the_ring_and_follow_the_spent_output() {
    let ring: Vec<TxOut> = [40u8, 10, 30, 20].iter().map(|t| tx_out(*t)).collect();
    let proofs: Vec<TxOutMembershipProof> =
        [40u64, 10, 30, 20].iter().map(|t| membership(*t)).collect();
    let made = InputCredentials::new(ring, proofs, 2, secret(mob(5))).unwrap();
    let tags: Vec<u8> = made.ring.iter().map(|o| o.public_key.bytes[0]).collect();
    assert_eq!(tags, vec![10, 20, 30, 40]);
    let indices: Vec<u64> = made.membership_proofs.iter().map(|p| p.index).collect();
    assert_eq!(indices, vec![10, 20, 30, 40]);
    assert_eq!(made.real_index, 2);
    assert_eq!(made.ring[made.real_index], tx_out(30));
    assert_eq!(made.input_secret, secret(mob(5)));

    let ring: Vec<TxOut> = [40u8, 10].iter().map(|t| tx_out(*t)).collect();
    let proofs: Vec<TxOutMembershipProof> = [40u64, 10].iter().map(|t| membership(*t)).collect();
    let made = InputCredentials::new(ring, proofs, 0, secret(mob(5))).unwrap();
    assert_eq!(made.real_index, 1);
}

#[test]
fn credentials_need_a_spent_output_and_a_proof_for_each_member() {
    let ring = || -> Vec<TxOut> { vec![tx_out(1), tx_out(2)] };
    let proofs = || -> Vec<TxOutMembershipProof> { vec![membership(1), membership(2)] };
    assert_eq!(
        InputCredentials::new(ring(), proofs(), 3, secret(mob(1))),
        Err(TxBuilderError::InvalidRingSize)
    );
    assert_eq!(
        InputCredentials::new(ring(), proofs(), 2, secret(mob(1))),
        Err(TxBuilderError::NoInputs)
    );
    assert_eq!(
        InputCredentials::new(vec![], vec![], 0, secret(mob(1))),
        Err(TxBuilderError::NoInputs)
    );
    assert_eq!(
        InputCredentials::new(ring(), vec![membership(1)], 1, secret(mob(1))),
        Err(TxBuilderError::MissingMembershipProofs)
    );
    assert!(InputCredentials::new(ring(), proofs(), 1, secret(mob(1))).is_ok());
}

#[test]
fn input_materials_show_amount_ring_and_key() {
    let signable = InputMaterials::Signable(credentials(&[8, 4], mob(11)));
    assert_eq!(signable.amount(), mob(11));
    assert_eq!(signable.ring_size(), 2);
    assert_eq!(signable.proof_size(), 2);
    assert_eq!(signable.sort_key(), key(4));
    assert!(!signable.is_presigned());

    let sci = InputMaterials::Presigned(presigned(&[6], Amount::new(3, TokenId::new(2)), None, vec![]));
    assert_eq!(sci.amount(), Amount::new(3, TokenId::new(2)));
    assert_eq!(sci.ring_size(), 1);
    assert_eq!(sci.sort_key(), key(6));
    assert!(sci.is_presigned());

    let unmasked = UnmaskedAmount { value: 5, token_id: 9, blinding: [1; 32] };
    assert_eq!(
        unmasked.output_secret(),
        OutputSecret { amount: Amount::new(5, TokenId::new(9)), blinding: [1; 32] }
    );
}

#[test]
fn the_tombstone_is_the_smaller_of_request_and_limit() {
    assert_eq!(min_block(3, 9), 3);
    assert_eq!(min_block(9, 3), 3);
    assert_eq!(min_block(4, 4), 4);

    let mut state = TombstoneState::new();
    assert_eq!(state.tombstone_block, u64::MAX);
    assert_eq!(state.fog_tombstone_block_limit, u64::MAX);
    assert_eq!(state.set_tombstone_block(2000), 2000);
    state.impose_tombstone_block_limit(1000);
    assert_eq!(state.tombstone_block, 1000);
    assert_eq!(state.fog_tombstone_block_limit, 1000);
    // The limit never loosens.
    state.impose_tombstone_block_limit(5000);
    assert_eq!(state.fog_tombstone_block_limit, 1000);
    assert_eq!(state.set_tombstone_block(2000), 1000);
    assert_eq!(state.set_tombstone_block(500), 500);
    state.impose_tombstone_block_limit(700);
    assert_eq!(state.tombstone_block, 500);
    assert_eq!(state.fog_tombstone_block_limit, 700);
    state.impose_tombstone_block_limit(0);
    assert_eq!(state.tombstone_block, 0);
}

#[test]
fn a_fresh_builder_holds_its_fee() {
    let fee = Amount::new(77, TokenId::new(3));
    let mut builder = builder(3, fee);
    assert_eq!(builder.get_fee(), 77);
    assert_eq!(builder.get_fee_token_id(), TokenId::new(3));
    builder.set_fee(90).unwrap();
    assert_eq!(builder.get_fee(), 90);
    assert_eq!(builder.get_fee_token_id(), TokenId::new(3));
    assert_eq!(builder.set_tombstone_block(u64::MAX), u64::MAX);

    let boxed = TransactionBuilder::new_with_box(
        BlockVersion::new(2),
        fee,
        no_fog(),
        Box::new(EmptyMemoBuilder),
    )
    .unwrap();
    assert_eq!(boxed.get_fee(), 77);
}

fn burn_policy() -> BurnRedemptionMemoBuilder {
    BurnRedemptionMemoBuilder::new([1; 64], address(66))
}

#[test]
fn a_policy_that_declines_the_fee_stops_the_builder() {
    let mut policy = burn_policy();
    policy.wrote_destination_memo = true;
    let made = TransactionBuilder::new(BlockVersion::new(3), mob(10), no_fog(), policy.clone());
    assert_eq!(made.err(), Some(TxBuilderError::Memo(NewMemoError::FeeAfterChange)));
    let made =
        TransactionBuilder::new_with_box(BlockVersion::new(3), mob(10), no_fog(), Box::new(policy));
    assert_eq!(made.err(), Some(TxBuilderError::Memo(NewMemoError::FeeAfterChange)));
}

#[test]
fn the_burn_policy_keeps_its_order() {
    let burn = address(66);
    let destination =
        ReservedDestination { primary_address: address(1), change_subaddress: address(3) };
    let token = TokenId::new(5);

    let mut policy = burn_policy();
    assert_eq!(policy.fee, mob(MINIMUM_FEE));
    assert!(!policy.destination_memo_enabled);
    // Without destination memos the change gets an unused memo, at any time.
    assert_eq!(
        policy.make_memo_for_change_output(Amount::new(1, token), &destination, context(1)),
        Ok(MemoPayload { bytes: [0; 66] })
    );
    policy.enable_destination_memo();
    assert!(policy.destination_memo_enabled);
    policy.disable_destination_memo();
    assert!(!policy.destination_memo_enabled);
    policy.set_destination_memo_enabled(true);

    assert_eq!(policy.set_fee(Amount::new(3, token)), Ok(()));
    assert_eq!(
        policy.make_memo_for_output(Amount::new(100, token), &address(7), context(2)),
        Err(NewMemoError::InvalidRecipient)
    );
    assert_eq!(policy.burn_amount, None);
    let memo = policy.make_memo_for_output(Amount::new(100, token), &burn, context(2)).unwrap();
    assert_eq!(memo, burn_redemption_memo(&[1; 64]));
    assert_eq!(policy.burn_amount, Some(Amount::new(100, token)));
    assert_eq!(policy.last_recipient, context(2).recipient_address_hash);
    assert_eq!(
        policy.make_memo_for_output(Amount::new(1, token), &burn, context(3)),
        Err(NewMemoError::MultipleOutputs)
    );
    assert_eq!(
        policy.make_memo_for_change_output(Amount::new(10, TokenId::new(6)), &destination, context(4)),
        Err(NewMemoError::MixedTokenIds)
    );
    assert!(!policy.wrote_destination_memo);
    let memo = policy
        .make_memo_for_change_output(Amount::new(10, token), &destination, context(4))
        .unwrap();
    assert_eq!(memo, destination_memo(&ShortAddressHash { bytes: [0xbb; 16] }, 1, 3, 103));
    assert!(policy.wrote_destination_memo);
    assert_eq!(
        policy.make_memo_for_change_output(Amount::new(10, token), &destination, context(5)),
        Err(NewMemoError::MultipleChangeOutputs)
    );
    assert_eq!(policy.set_fee(Amount::new(4, token)), Err(NewMemoError::FeeAfterChange));
    assert_eq!(policy.fee, Amount::new(3, token));
}

#[test]
fn destination_memos_have_room_for_fee_and_outlay_only_up_to_a_limit() {
    let destination =
        ReservedDestination { primary_address: address(1), change_subaddress: address(3) };
    let mut policy = burn_policy();
    policy.enable_destination_memo();
    policy.set_fee(mob(MAX_DESTINATION_MEMO_FEE + 1)).unwrap();
    policy.make_memo_for_output(mob(1), &address(66), context(1)).unwrap();
    assert_eq!(
        policy.make_memo_for_change_output(mob(1), &destination, context(2)),
        Err(NewMemoError::LimitsExceeded)
    );

    let mut policy = burn_policy();
    policy.enable_destination_memo();
    policy.set_fee(mob(2)).unwrap();
    policy.make_memo_for_output(mob(u64::MAX - 1), &address(66), context(1)).unwrap();
    assert_eq!(
        policy.make_memo_for_change_output(mob(1), &destination, context(2)),
        Err(NewMemoError::LimitsExceeded)
    );

    let mut policy = burn_policy();
    policy.enable_destination_memo();
    policy.set_fee(mob(MAX_DESTINATION_MEMO_FEE)).unwrap();
    policy.make_memo_for_output(mob(0x0102_0304_0506_0708), &address(66), context(1)).unwrap();
    let memo = policy.make_memo_for_change_output(mob(1), &destination, context(2)).unwrap();
    assert_eq!(memo.bytes[19..26], [0xff; 7]);
    assert_eq!(
        memo.bytes[26..34],
        (0x0102_0304_0506_0708u64 + MAX_DESTINATION_MEMO_FEE).to_be_bytes()
    );
}

#[test]
fn memo_payloads_are_laid_out_byte_by_byte() {
    let mut data = [0u8; 64];
    for (i, b) in data.iter_mut().enumerate() {
        *b = i as u8;
    }
    let memo = burn_redemption_memo(&data);
    assert_eq!(memo.bytes[0], 0);
    assert_eq!(memo.bytes[1], 1);
    assert_eq!(memo.bytes[2..], data);

    let mut hash = [0u8; 16];
    for (i, b) in hash.iter_mut().enumerate() {
        *b = 0xa0 + i as u8;
    }
    let memo = destination_memo(&ShortAddressHash { bytes: hash }, 4, 0x0011_2233_4455_6677, 0x8899_aabb_ccdd_eeff);
    assert_eq!(memo.bytes[..2], [2, 0]);
    assert_eq!(memo.bytes[2..18], hash);
    assert_eq!(memo.bytes[18], 4);
    assert_eq!(memo.bytes[19..26], [0x11, 0x22, 0x33, 0x44, 0x55, 0x66, 0x77]);
    assert_eq!(memo.bytes[26..34], [0x88, 0x99, 0xaa, 0xbb, 0xcc, 0xdd, 0xee, 0xff]);
    assert_eq!(memo.bytes[34..], [0u8; 32]);
}

#[test]
fn fog_hints_follow_the_address() {
    let ingest = key(99);
    let table = FogPubkeyTable::new(vec![
        FogPubkeyEntry {
            fog_report_url: "fog://one".to_string(),
            pubkey: FullyValidatedFogPubkey { pubkey: ingest, pubkey_expiry: 1000 },
        },
        FogPubkeyEntry {
            fog_report_url: "fog://two".to_string(),
            pubkey: FullyValidatedFogPubkey { pubkey: key(98), pubkey_expiry: 7 },
        },
        FogPubkeyEntry {
            fog_report_url: "fog://one".to_string(),
            pubkey: FullyValidatedFogPubkey { pubkey: key(97), pubkey_expiry: 8 },
        },
    ]);
    assert_eq!(create_fog_hint(&address(1), &table), Ok((FogHintPlan::FakeOnetimeHint, u64::MAX)));
    assert_eq!(
        create_fog_hint(&fog_address(1, "fog://one"), &table),
        Ok((FogHintPlan::Encrypt(ingest), 1000))
    );
    assert_eq!(
        create_fog_hint(&fog_address(1, "fog://two"), &table),
        Ok((FogHintPlan::Encrypt(key(98)), 7))
    );
    assert_eq!(
        create_fog_hint(&fog_address(1, "fog://three"), &table),
        Err(TxBuilderError::FogPublicKey(FogPubkeyError::NoMatchingReportResponse))
    );
    assert_eq!(table.get_fog_pubkey(&address(1)), Err(FogPubkeyError::NoFogReportUrl));
}

#[test]
fn outputs_lose_what_their_block_version_lacks() {
    let sealed = tx_out(1);
    let at = |version: u32| create_output_with_fog_hint(BlockVersion::new(version), sealed);
    assert_eq!(at(0).e_memo, None);
    assert_eq!(at(0).masked_amount.masked_token_id, None);
    assert_eq!(at(1).e_memo, sealed.e_memo);
    assert_eq!(at(1).masked_amount.masked_token_id, None);
    assert_eq!(at(2), sealed);
    assert_eq!(at(3), sealed);
    for version in 0..4 {
        assert_eq!(at(version).public_key, sealed.public_key);
        assert_eq!(at(version).target_key, sealed.target_key);
        assert_eq!(at(version).e_fog_hint, sealed.e_fog_hint);
        assert_eq!(at(version).masked_amount.commitment, sealed.masked_amount.commitment);
        assert_eq!(at(version).masked_amount.masked_value, sealed.masked_amount.masked_value);
    }
}

#[test]
fn the_policy_is_not_asked_where_memos_are_not_supported() {
    // The burn policy would decline this recipient.
    let mut builder =
        TransactionBuilder::new(BlockVersion::new(0), mob(10), no_fog(), burn_policy()).unwrap();
    let plan = builder.add_output(mob(5), &address(7), context(1)).unwrap();
    assert_eq!(plan.memo, None);
    let plan = builder.add_output(mob(5), &address(7), context(2)).unwrap();
    assert_eq!(plan.memo, None);
    let (output, _) = builder.commit_output(plan, sealed(2, mob(5))).unwrap();
    assert_eq!(output.e_memo, None);
}

#[test]
fn one_token_id_only_before_mixed_transactions() {
    let other = Amount::new(5, TokenId::new(1));
    for version in 0..3 {
        let mut builder = builder(version, mob(10));
        assert_eq!(
            builder.add_output(other, &address(7), context(1)),
            Err(TxBuilderError::MixedTransactionsNotAllowed(TokenId::mob(), TokenId::new(1)))
        );
        // The token id is checked before the fog key is looked for.
        assert_eq!(
            builder.add_output(other, &fog_address(7, "fog://nowhere"), context(1)),
            Err(TxBuilderError::MixedTransactionsNotAllowed(TokenId::mob(), TokenId::new(1)))
        );
        let destination = ReservedDestination {
            primary_address: address(1),
            change_subaddress: address(3),
        };
        assert_eq!(
            builder.add_change_output(other, &destination, context(1)),
            Err(TxBuilderError::MixedTransactionsNotAllowed(TokenId::mob(), TokenId::new(1)))
        );
    }
    let mut builder = builder(3, mob(10));
    assert!(builder.add_output(other, &address(7), context(1)).is_ok());
}

#[test]
fn a_fog_key_that_cannot_be_resolved_stops_the_output() {
    let mut builder = builder(3, mob(10));
    assert_eq!(
        builder.add_output(mob(5), &fog_address(7, "fog://nowhere"), context(1)),
        Err(TxBuilderError::FogPublicKey(FogPubkeyError::NoMatchingReportResponse))
    );
    // The hint of a change output is made for the primary address.
    let destination = ReservedDestination {
        primary_address: fog_address(1, "fog://nowhere"),
        change_subaddress: address(3),
    };
    assert_eq!(
        builder.add_change_output(mob(5), &destination, context(1)),
        Err(TxBuilderError::FogPublicKey(FogPubkeyError::NoMatchingReportResponse))
    );
    let destination = ReservedDestination {
        primary_address: address(1),
        change_subaddress: fog_address(3, "fog://nowhere"),
    };
    let plan = builder.add_change_output(mob(5), &destination, context(1)).unwrap();
    assert_eq!(plan.fog_hint, FogHintPlan::FakeOnetimeHint);
    assert!(plan.recipient.same(&destination.change_subaddress));
    assert!(plan.fog_hint_address.same(&destination.primary_address));
    assert_eq!(plan.amount, mob(5));
    assert_eq!(plan.memo_context, context(1));
}

#[test]
fn a_sealed_output_must_open_to_the_planned_amount() {
    let mut builder = builder(3, mob(10));
    let plan: OutputPlan = builder.add_output(mob(5), &address(7), context(1)).unwrap();

    let mut unopened = sealed(1, mob(5));
    unopened.opened = None;
    assert_eq!(builder.commit_output(plan.clone(), unopened), Err(TxBuilderError::BadAmount));
    assert_eq!(
        builder.commit_output(plan.clone(), sealed(1, mob(6))),
        Err(TxBuilderError::BadAmount)
    );
    assert_eq!(
        builder.commit_output(plan.clone(), sealed(1, Amount::new(5, TokenId::new(1)))),
        Err(TxBuilderError::BadAmount)
    );
    // Nothing was added.
    builder.add_input(credentials(&[1], mob(10)));
    assert!(builder.build().unwrap().prefix.outputs.is_empty());
}

#[test]
fn build_checks_in_order() {
    // Too new a version comes before everything else.
    let too_new = builder(4, Amount::new(1, TokenId::new(9)));
    assert_eq!(too_new.build().err(), Some(TxBuilderError::BlockVersionTooNew(4, 3)));

    // A fee in another token than the base token needs masked token ids.
    for version in 0..2 {
        let wrong_fee = builder(version, Amount::new(1, TokenId::new(9)));
        assert_eq!(
            wrong_fee.build().err(),
            Some(TxBuilderError::FeatureNotSupportedAtBlockVersion(version, "nonzero token id"))
        );
    }
    let right_fee = builder(2, Amount::new(1, TokenId::new(9)));
    assert_eq!(right_fee.build().err(), Some(TxBuilderError::NoInputs));

    assert_eq!(builder(3, mob(1)).build().err(), Some(TxBuilderError::NoInputs));

    // Rings of different sizes come before any fault of a single input.
    let mut different = builder(2, mob(1));
    different.add_input(credentials(&[1, 2], Amount::new(1, TokenId::new(9))));
    different.add_input(credentials(&[3], mob(1)));
    assert_eq!(different.build().err(), Some(TxBuilderError::InvalidRingSize));

    let mut empty = builder(3, mob(1));
    empty.add_presigned_input_raw(presigned(&[], mob(1), None, vec![]));
    assert_eq!(empty.build().err(), Some(TxBuilderError::InvalidRingSize));

    // The first input that has a fault decides.
    let mut mixed = builder(2, mob(1));
    mixed.add_input(credentials(&[1], mob(1)));
    mixed.add_input(credentials(&[2], Amount::new(1, TokenId::new(9))));
    mixed.add_presigned_input_raw(presigned(&[3], mob(1), None, vec![]));
    assert_eq!(
        mixed.build().err(),
        Some(TxBuilderError::MixedTransactionsNotAllowed(TokenId::mob(), TokenId::new(9)))
    );

    let mut rules = builder(2, mob(1));
    rules.add_input(credentials(&[1], mob(1)));
    rules.add_presigned_input_raw(presigned(&[3], mob(1), None, vec![]));
    rules.add_input(credentials(&[2], Amount::new(1, TokenId::new(9))));
    assert_eq!(rules.build().err(), Some(TxBuilderError::SignedInputRulesNotAllowed));

    let mut unproven = builder(3, mob(1));
    let mut short = credentials(&[1, 2], mob(1));
    short.membership_proofs.pop();
    unproven.add_input(short);
    assert_eq!(unproven.build().err(), Some(TxBuilderError::MissingMembershipProofs));

    let mut unproven = builder(3, mob(1));
    let mut sci = presigned(&[1, 2], mob(1), None, vec![]);
    sci.tx_in.proofs.push(membership(9));
    unproven.add_presigned_input_raw(sci);
    assert_eq!(unproven.build().err(), Some(TxBuilderError::MissingMembershipProofs));

    let mut fine = builder(3, mob(1));
    fine.add_input(credentials(&[1, 2], mob(1)));
    fine.add_presigned_input_raw(presigned(&[4, 3], Amount::new(1, TokenId::new(9)), None, vec![]));
    assert!(fine.build().is_ok());
}

#[test]
fn presigned_inputs_bring_their_required_outputs() {
    let required = vec![tx_out(31), tx_out(32), tx_out(31)];
    let amounts = vec![
        UnmaskedAmount { value: 4, token_id: 0, blinding: [1; 32] },
        UnmaskedAmount { value: 5, token_id: 0, blinding: [2; 32] },
        UnmaskedAmount { value: 6, token_id: 0, blinding: [3; 32] },
    ];
    let rules = InputRules { required_outputs: required, max_tombstone_block: 900 };

    let mut builder = builder(3, mob(1));
    builder.set_tombstone_block(2000);
    // The transaction holds the second required output already.
    let held = {
        let plan = builder.add_output(mob(5), &address(7), context(32)).unwrap();
        let mut sealed = sealed(32, mob(5));
        sealed.tx_out = tx_out(32);
        builder.commit_output(plan, sealed).unwrap().0
    };
    assert_eq!(held, tx_out(32));

    assert_eq!(
        builder.add_presigned_input(presigned(&[2, 1], mob(10), Some(rules), amounts)),
        Ok(())
    );
    let unsigned = builder.build().unwrap();
    assert_eq!(unsigned.prefix.tombstone_block, 900);
    assert_eq!(unsigned.prefix.inputs.len(), 1);
    assert!(unsigned.prefix.inputs[0].input_rules.is_some());
    // The first required output was added once, with its amount as its secret.
    assert_eq!(unsigned.prefix.outputs, vec![tx_out(31), tx_out(32)]);
    assert_eq!(
        unsigned.output_secrets,
        vec![
            OutputSecret { amount: mob(4), blinding: [1; 32] },
            OutputSecret { amount: mob(5), blinding: [4; 32] },
        ]
    );
    assert_eq!(
        unsigned.input_signers,
        vec![InputSigner::Presigned {
            mlsag: vec![1, 2, 3],
            pseudo_output_secret: OutputSecret { amount: mob(10), blinding: [6; 32] },
        }]
    );
    assert!(unsigned.conserves_value());
}

#[test]
fn presigned_inputs_need_an_amount_for_each_required_output() {
    let rules = InputRules { required_outputs: vec![tx_out(31)], max_tombstone_block: 5 };
    let mut builder = builder(3, mob(1));
    assert_eq!(
        builder.add_presigned_input(presigned(&[1], mob(10), Some(rules.clone()), vec![])),
        Err(SignedContingentInputError::WrongNumberOfRequiredOutputAmounts)
    );
    // Nothing has changed.
    assert_eq!(builder.set_tombstone_block(100), 100);
    assert_eq!(builder.build().err(), Some(TxBuilderError::NoInputs));

    // Added raw, the rules are the caller's to meet.
    let mut builder = self::builder(3, mob(1));
    builder.add_presigned_input_raw(presigned(&[1], mob(10), Some(rules), vec![]));
    assert_eq!(builder.set_tombstone_block(100), 100);
    let unsigned = builder.build().unwrap();
    assert!(unsigned.prefix.outputs.is_empty());
    assert_eq!(unsigned.prefix.tombstone_block, 100);
}

#[test]
fn rules_without_a_tombstone_limit_set_none() {
    let rules = InputRules { required_outputs: vec![], max_tombstone_block: 0 };
    let mut builder = builder(3, mob(1));
    builder.add_presigned_input(presigned(&[1], mob(10), Some(rules), vec![])).unwrap();
    builder.add_presigned_input(presigned(&[2], mob(10), None, vec![])).unwrap();
    assert_eq!(builder.set_tombstone_block(u64::MAX), u64::MAX);
}

#[test]
fn value_is_conserved_lane_by_lane() {
    let t1 = TokenId::new(1);
    let inputs = vec![mob(10), Amount::new(7, t1), mob(5)];
    let outputs = vec![Amount::new(7, t1), mob(12)];
    assert_eq!(lane_sum(&inputs, TokenId::mob()), 15);
    assert_eq!(lane_sum(&inputs, t1), 7);
    assert_eq!(lane_sum(&inputs, TokenId::new(2)), 0);
    assert_eq!(lane_sum(&vec![mob(u64::MAX), mob(u64::MAX)], TokenId::mob()), 2 * (u64::MAX as u128));
    assert!(lane_is_conserved(&inputs, &outputs, mob(3), t1));
    assert!(lane_is_conserved(&inputs, &outputs, mob(3), TokenId::mob()));
    assert!(conserves_value(&inputs, &outputs, mob(3)));
    assert!(conserves_value(&vec![], &vec![], mob(0)));

    // One unit more or less in one output breaks it, and so does another token id.
    assert!(!conserves_value(&inputs, &vec![Amount::new(7, t1), mob(11)], mob(3)));
    assert!(!conserves_value(&inputs, &vec![Amount::new(7, t1), mob(13)], mob(3)));
    assert!(!conserves_value(&inputs, &vec![Amount::new(8, t1), mob(12)], mob(3)));
    assert!(!conserves_value(&inputs, &vec![Amount::new(7, TokenId::new(2)), mob(12)], mob(3)));
    // A fee in a lane without inputs cannot be paid.
    assert!(!conserves_value(&inputs, &outputs, Amount::new(3, TokenId::new(4))));
    assert!(!conserves_value(&vec![], &vec![], mob(1)));
    assert!(!conserves_value(&inputs, &outputs, mob(2)));
}

#[test]
fn a_signature_does_not_make_up_for_missing_value() {
    let mut builder = builder(3, mob(1));
    builder.add_input(credentials(&[1], mob(10)));
    add(&mut builder, 2, mob(9));
    let unsigned = builder.build().unwrap();
    assert!(unsigned.conserves_value());
    let tx = unsigned.clone().complete(Some(RingSignature { bytes: vec![7] })).unwrap();
    assert_eq!(tx.prefix, unsigned.prefix);
    assert_eq!(tx.signature, RingSignature { bytes: vec![7] });
    assert_eq!(unsigned.complete(None), Err(TxBuilderError::RingSignatureFailed));

    let mut builder = self::builder(3, mob(1));
    builder.add_input(credentials(&[1], mob(10)));
    add(&mut builder, 2, mob(10));
    let unsigned = builder.build().unwrap();
    assert!(!unsigned.conserves_value());
    assert_eq!(
        unsigned.complete(Some(RingSignature { bytes: vec![7] })),
        Err(TxBuilderError::RingSignatureFailed)
    );
}

#[test]
fn memo_errors_of_outputs_are_new_tx_errors() {
    let mut builder =
        TransactionBuilder::new(BlockVersion::new(3), mob(10), no_fog(), burn_policy()).unwrap();
    assert_eq!(
        builder.add_output(mob(5), &address(7), context(1)),
        Err(TxBuilderError::NewTx(NewTxError::Memo(NewMemoError::InvalidRecipient)))
    );
}

#[test]
fn the_history_policy_keeps_count_and_order() {
    let destination =
        ReservedDestination { primary_address: address(1), change_subaddress: address(3) };
    let token = TokenId::new(2);
    let hash = |tag: u8| ShortAddressHash { bytes: [tag; 16] };
    let told = |tag: u8| MemoContext { tx_public_key: key(tag), recipient_address_hash: hash(tag) };

    let mut policy = RTHMemoBuilder::new();
    assert_eq!(policy.fee, mob(MINIMUM_FEE));
    assert_eq!(policy.num_recipients, 0);
    assert_eq!(policy.total_outlay, 0);
    // Without a credential outputs get an unused memo, and so does the change
    // without destination memos.
    assert_eq!(
        policy.make_memo_for_output(Amount::new(5, token), &address(7), told(7)),
        Ok(MemoPayload { bytes: [0; 66] })
    );
    assert_eq!(
        policy.make_memo_for_change_output(Amount::new(1, token), &destination, told(3)),
        Ok(MemoPayload { bytes: [0; 66] })
    );
    assert!(!policy.wrote_destination_memo);

    policy.set_sender_credential(SenderMemoCredential { address_hash: hash(0xaa) });
    assert_eq!(
        policy.make_memo_for_output(Amount::new(6, token), &address(8), told(8)),
        Ok(sender_memo(&hash(0xaa)))
    );
    policy.set_payment_request_id(0x0102_0304_0506_0708);
    let memo = policy.make_memo_for_output(Amount::new(7, token), &address(9), told(9)).unwrap();
    assert_eq!(memo, sender_with_payment_request_id_memo(&hash(0xaa), 0x0102_0304_0506_0708));
    assert_eq!(memo.bytes[..2], [1, 1]);
    assert_eq!(memo.bytes[2..18], [0xaa; 16]);
    assert_eq!(memo.bytes[18..26], [1, 2, 3, 4, 5, 6, 7, 8]);
    assert_eq!(memo.bytes[26..], [0; 40]);
    policy.clear_payment_request_id();
    policy.clear_sender_credential();
    assert_eq!(policy.sender_cred, None);

    assert_eq!(policy.total_outlay, 18);
    assert_eq!(policy.num_recipients, 3);
    assert_eq!(policy.outlay_token_id, Some(token));
    assert_eq!(policy.last_recipient, hash(9));

    // Another token id is declined and changes nothing.
    assert_eq!(
        policy.make_memo_for_output(mob(1), &address(9), told(10)),
        Err(NewMemoError::MixedTokenIds)
    );
    assert_eq!(policy.total_outlay, 18);
    assert_eq!(policy.last_recipient, hash(9));

    policy.enable_destination_memo();
    // The fee is in the base token still.
    assert_eq!(
        policy.make_memo_for_change_output(Amount::new(1, token), &destination, told(3)),
        Err(NewMemoError::MixedTokenIds)
    );
    assert_eq!(
        policy.make_memo_for_change_output(mob(1), &destination, told(3)),
        Err(NewMemoError::MixedTokenIds)
    );
    policy.set_fee(Amount::new(4, token)).unwrap();
    let memo = policy
        .make_memo_for_change_output(Amount::new(1, token), &destination, told(3))
        .unwrap();
    assert_eq!(memo, destination_memo(&hash(9), 3, 4, 22));
    assert_eq!(policy.total_outlay, 22);
    assert!(policy.wrote_destination_memo);

    assert_eq!(policy.set_fee(Amount::new(5, token)), Err(NewMemoError::FeeAfterChange));
    assert_eq!(
        policy.make_memo_for_output(Amount::new(1, token), &address(7), told(7)),
        Err(NewMemoError::OutputsAfterChange)
    );
    assert_eq!(
        policy.make_memo_for_change_output(Amount::new(1, token), &destination, told(3)),
        Err(NewMemoError::MultipleChangeOutputs)
    );
    policy.disable_destination_memo();
    assert_eq!(
        policy.make_memo_for_change_output(Amount::new(1, token), &destination, told(3)),
        Ok(MemoPayload { bytes: [0; 66] })
    );
}

#[test]
fn the_history_policy_knows_its_limits() {
    let destination =
        ReservedDestination { primary_address: address(1), change_subaddress: address(3) };
    let mut policy = RTHMemoBuilder::new();
    policy.make_memo_for_output(mob(u64::MAX - 1), &address(7), context(7)).unwrap();
    assert_eq!(
        policy.make_memo_for_output(mob(2), &address(7), context(7)),
        Err(NewMemoError::LimitsExceeded)
    );
    policy.make_memo_for_output(mob(1), &address(7), context(7)).unwrap();
    assert_eq!(policy.total_outlay, u64::MAX);
    policy.enable_destination_memo();
    assert_eq!(
        policy.make_memo_for_change_output(mob(1), &destination, context(3)),
        Err(NewMemoError::LimitsExceeded)
    );

    let mut policy = RTHMemoBuilder::new();
    for _ in 0..255 {
        policy.make_memo_for_output(mob(1), &address(7), context(7)).unwrap();
    }
    assert_eq!(policy.num_recipients, 255);
    assert_eq!(
        policy.make_memo_for_output(mob(1), &address(7), context(7)),
        Err(NewMemoError::LimitsExceeded)
    );

    let mut policy = RTHMemoBuilder::new();
    policy.enable_destination_memo();
    policy.set_fee(mob(MAX_DESTINATION_MEMO_FEE + 1)).unwrap();
    assert_eq!(
        policy.make_memo_for_change_output(mob(1), &destination, context(3)),
        Err(NewMemoError::LimitsExceeded)
    );
    // A change output without any output is told of no recipient.
    policy.set_fee(mob(9)).unwrap();
    let memo = policy.make_memo_for_change_output(mob(1), &destination, context(3)).unwrap();
    assert_eq!(memo, destination_memo(&ShortAddressHash { bytes: [0; 16] }, 0, 9, 9));
}

#[test]
fn an_empty_ring_is_refused_after_the_inputs_own_faults() {
    // One signable input with an empty ring and one proof.
    let mut unproven = builder(3, mob(1));
    unproven.add_input(InputCredentials {
        ring: vec![],
        membership_proofs: vec![membership(1)],
        real_index: 0,
        input_secret: secret(mob(1)),
    });
    assert_eq!(unproven.build().err(), Some(TxBuilderError::MissingMembershipProofs));

    // One pre-signed input in the fee's token id with an empty ring.
    let mut rules = builder(2, mob(1));
    rules.add_presigned_input_raw(presigned(&[], mob(1), None, vec![]));
    assert_eq!(rules.build().err(), Some(TxBuilderError::SignedInputRulesNotAllowed));

    // One pre-signed input in another token id with an empty ring.
    let mut mixed = builder(2, mob(1));
    mixed.add_presigned_input_raw(presigned(&[], Amount::new(1, TokenId::new(1)), None, vec![]));
    assert_eq!(
        mixed.build().err(),
        Some(TxBuilderError::MixedTransactionsNotAllowed(TokenId::mob(), TokenId::new(1)))
    );

    // Inputs that are fit but for their empty rings.
    let mut empty = builder(3, mob(1));
    empty.add_input(InputCredentials {
        ring: vec![],
        membership_proofs: vec![],
        real_index: 0,
        input_secret: secret(mob(1)),
    });
    empty.add_presigned_input_raw(presigned(&[], mob(1), None, vec![]));
    assert_eq!(empty.build().err(), Some(TxBuilderError::InvalidRingSize));

    // Rings of different sizes come before the faults of single inputs.
    let mut different = builder(2, mob(1));
    different.add_presigned_input_raw(presigned(&[], mob(1), None, vec![]));
    different.add_input(credentials(&[3], mob(1)));
    assert_eq!(different.build().err(), Some(TxBuilderError::InvalidRingSize));
}

#[test]
fn a_plan_in_a_token_id_that_is_not_allowed_is_not_taken_in() {
    let other = Amount::new(5, TokenId::new(1));
    let plan = |amount: Amount| OutputPlan {
        amount,
        recipient: address(7),
        fog_hint_address: address(7),
        fog_hint: FogHintPlan::FakeOnetimeHint,
        pubkey_expiry: 10,
        memo: None,
        memo_context: context(1),
    };
    for version in 0..3 {
        let mut builder = builder(version, mob(10));
        assert_eq!(
            builder.commit_output(plan(other), sealed(1, other)),
            Err(TxBuilderError::MixedTransactionsNotAllowed(TokenId::mob(), TokenId::new(1)))
        );
        // The token id is looked at before the output is opened.
        let mut unopened = sealed(1, other);
        unopened.opened = None;
        assert_eq!(
            builder.commit_output(plan(other), unopened),
            Err(TxBuilderError::MixedTransactionsNotAllowed(TokenId::mob(), TokenId::new(1)))
        );
        // Nothing was added and nothing limits the tombstone block.
        assert_eq!(builder.set_tombstone_block(100), 100);
        builder.add_input(credentials(&[1], mob(10)));
        assert!(builder.build().unwrap().prefix.outputs.is_empty());
    }
    let mut builder = builder(3, mob(10));
    assert!(builder.commit_output(plan(other), sealed(1, other)).is_ok());
    assert_eq!(builder.set_tombstone_block(100), 10);
}

#[test]
fn authentication_codes_go_into_the_last_sixteen_bytes() {
    let sender = ShortAddressHash { bytes: [0xaa; 16] };
    let plain = sender_memo(&sender);
    assert!(is_authenticated(&plain));
    assert!(is_authenticated(&sender_with_payment_request_id_memo(&sender, 7)));
    assert!(!is_authenticated(&MemoPayload { bytes: [0; 66] }));
    assert!(!is_authenticated(&destination_memo(&sender, 1, 2, 3)));
    assert!(!is_authenticated(&burn_redemption_memo(&[1; 64])));

    let part = authenticated_part(&plain);
    assert_eq!(part[..], plain.bytes[..50]);
    assert_eq!(part[..2], [1, 0]);
    assert_eq!(part[2..18], [0xaa; 16]);

    let mut code = [0u8; 16];
    for (i, b) in code.iter_mut().enumerate() {
        *b = 0xf0 + i as u8;
    }
    let signed = with_authentication_code(&plain, &code);
    assert_eq!(signed.bytes[..50], plain.bytes[..50]);
    assert_eq!(signed.bytes[50..], code);
    assert_eq!(authenticated_part(&signed), part);
    assert!(is_authenticated(&signed));

    // A code that is written over another replaces it.
    let again = with_authentication_code(&signed, &[9; 16]);
    assert_eq!(again.bytes[..50], plain.bytes[..50]);
    assert_eq!(again.bytes[50..], [9; 16]);
}
