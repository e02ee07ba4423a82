//! The builder that gathers the parts of a transaction and puts them in
//! canonical form.
//!
//! An output is added in two steps. The builder plans it: it checks the
//! token id, resolves the fog key and asks the memo policy. The caller
//! seals the output as planned and hands it in. At the end the builder
//! checks what it holds and sorts it; the caller signs.

use vstd::prelude::*;
use crate::address::{FogPubkeyResolver, PublicAddress, ReservedDestination};
use crate::amount::{Amount, TokenId, MOB_TOKEN_ID};
use crate::block_version::{BlockVersion, MAX_BLOCK_VERSION};
use crate::error::{NewMemoError, NewTxError, SignedContingentInputError, TxBuilderError};
use crate::input_materials::{
    ring_is_sorted, InputCredentials, InputMaterials, SignedContingentInput,
};
use crate::memo::{MemoBuilder, MemoContext, MemoPayload};
use crate::ordering::{
    lemma_stable_sort_is_permutation, lemma_stable_sort_is_sorted,
    lemma_stable_sort_keeps_elements, sort_by_key, stable_sort, DefaultTxOutputsOrdering,
    SortKeyed, TxOutputsOrdering,
};
use crate::output::{
    create_fog_hint, create_output_with_fog_hint, fog_hint_for, gated_output, OutputDraft,
    OutputPlan, SealedOutput,
};
use crate::tombstone::TombstoneState;
use crate::tx::{OutputSecret, TxIn, TxOut, TxOutConfirmationNumber, TxPrefix, UnmaskedAmount};
use crate::unsigned_tx::{signer_amount, signer_of, tx_in_of, InputSigner, UnsignedTx};
use crate::validation::{
    first_input_error, input_error, lemma_first_input_error_of_prefix,
    lemma_inputs_without_error_are_fit, rings_have_one_size,
};

verus! {

/// Gathers the inputs, outputs, fee and tombstone block of one transaction.
pub struct TransactionBuilder<FPR: FogPubkeyResolver, MB: MemoBuilder> {
    /// The block version whose rules the transaction is to meet.
    block_version: BlockVersion,
    input_materials: Vec<InputMaterials>,
    outputs_and_secrets: Vec<OutputDraft>,
    tombstone: TombstoneState,
    /// The fee. Where the block version allows one token id only, every
    /// input and output has the fee's.
    fee: Amount,
    fog_resolver: FPR,
    memo_builder: MB,
}

/// What a builder holds.
pub struct BuilderState<FPR, MB> {
    pub block_version: BlockVersion,
    pub input_materials: Seq<InputMaterials>,
    pub outputs_and_secrets: Seq<OutputDraft>,
    pub tombstone: TombstoneState,
    pub fee: Amount,
    pub fog_resolver: FPR,
    pub memo_builder: MB,
}

impl<FPR: FogPubkeyResolver, MB: MemoBuilder> View for TransactionBuilder<FPR, MB> {
    type V = BuilderState<FPR, MB>;

    closed spec fn view(&self) -> BuilderState<FPR, MB> {
        BuilderState {
            block_version: self.block_version,
            input_materials: self.input_materials@,
            outputs_and_secrets: self.outputs_and_secrets@,
            tombstone: self.tombstone,
            fee: self.fee,
            fog_resolver: self.fog_resolver,
            memo_builder: self.memo_builder,
        }
    }
}

/// The builder with which a transaction starts: no inputs, no outputs, and
/// nothing that limits the tombstone block.
pub open spec fn fresh_builder<FPR, MB>(
    block_version: BlockVersion,
    fee: Amount,
    fog_resolver: FPR,
    memo_builder: MB,
) -> BuilderState<FPR, MB> {
    BuilderState {
        block_version,
        input_materials: Seq::empty(),
        outputs_and_secrets: Seq::empty(),
        tombstone: TombstoneState::unlimited(),
        fee,
        fog_resolver,
        memo_builder,
    }
}

/// A copy of an address.
fn copy_address(address: &PublicAddress) -> (copy: PublicAddress)
    ensures
        copy == *address,
{
    PublicAddress {
        view_public_key: address.view_public_key,
        spend_public_key: address.spend_public_key,
        fog_report_url: address.fog_report_url.clone(),
    }
}

/// What the memo policy answers when asked for the memo of an output, or
/// of the change output where `change` names its destination.
pub open spec fn memo_answer<MB: MemoBuilder>(
    policy: MB,
    amount: Amount,
    recipient: PublicAddress,
    change: Option<ReservedDestination>,
    memo_context: MemoContext,
) -> Result<MemoPayload, NewMemoError> {
    match change {
        None => policy.output_answer(amount, recipient, memo_context),
        Some(destination) => policy.change_answer(amount, destination, memo_context),
    }
}

/// The memo policy after that question.
pub open spec fn policy_after_memo<MB: MemoBuilder>(
    policy: MB,
    amount: Amount,
    recipient: PublicAddress,
    change: Option<ReservedDestination>,
    memo_context: MemoContext,
) -> MB {
    match change {
        None => policy.after_output(amount, recipient, memo_context),
        Some(destination) => policy.after_change(amount, destination, memo_context),
    }
}

/// Whether the transaction may hold an amount of a token id: any, where
/// the block version allows several token ids in one transaction; the
/// fee's, where it does not.
pub open spec fn token_id_is_allowed<FPR: FogPubkeyResolver, MB: MemoBuilder>(
    state: BuilderState<FPR, MB>,
    amount: Amount,
) -> bool {
    state.block_version.mixed_transactions_are_supported() || state.fee.token_id
        == amount.token_id
}

/// Whether planning an output gets as far as the memo policy: the token id
/// is allowed, the fog key resolves, and the block version has memos.
pub open spec fn policy_is_asked<FPR: FogPubkeyResolver, MB: MemoBuilder>(
    state: BuilderState<FPR, MB>,
    amount: Amount,
    fog_hint_address: PublicAddress,
) -> bool {
    &&& token_id_is_allowed(state, amount)
    &&& fog_hint_for(fog_hint_address, state.fog_resolver) is Ok
    &&& state.block_version.e_memo_feature_is_supported()
}

/// The plan of an output, or why there is none. The token id is checked
/// first, then the fog key is resolved, then the memo policy is asked.
pub open spec fn planned_output<FPR: FogPubkeyResolver, MB: MemoBuilder>(
    state: BuilderState<FPR, MB>,
    amount: Amount,
    recipient: PublicAddress,
    fog_hint_address: PublicAddress,
    change: Option<ReservedDestination>,
    memo_context: MemoContext,
) -> Result<OutputPlan, TxBuilderError> {
    if !token_id_is_allowed(state, amount) {
        Err(TxBuilderError::MixedTransactionsNotAllowed(state.fee.token_id, amount.token_id))
    } else {
        match fog_hint_for(fog_hint_address, state.fog_resolver) {
            Err(e) => Err(e),
            Ok((fog_hint, pubkey_expiry)) => {
                let plan = OutputPlan {
                    amount,
                    recipient,
                    fog_hint_address,
                    fog_hint,
                    pubkey_expiry,
                    memo: None,
                    memo_context,
                };
                if !state.block_version.e_memo_feature_is_supported() {
                    Ok(plan)
                } else {
                    match memo_answer(state.memo_builder, amount, recipient, change, memo_context) {
                        Ok(payload) => Ok(OutputPlan { memo: Some(payload), ..plan }),
                        Err(e) => Err(TxBuilderError::NewTx(NewTxError::Memo(e))),
                    }
                }
            },
        }
    }
}

/// The builder after planning an output: the memo policy has moved on if it
/// was asked, and nothing else has changed.
pub open spec fn state_after_planning<FPR: FogPubkeyResolver, MB: MemoBuilder>(
    state: BuilderState<FPR, MB>,
    amount: Amount,
    recipient: PublicAddress,
    fog_hint_address: PublicAddress,
    change: Option<ReservedDestination>,
    memo_context: MemoContext,
) -> BuilderState<FPR, MB> {
    if policy_is_asked(state, amount, fog_hint_address) {
        BuilderState {
            memo_builder: policy_after_memo(
                state.memo_builder,
                amount,
                recipient,
                change,
                memo_context,
            ),
            ..state
        }
    } else {
        state
    }
}

/// Whether a sealed output opens, and to the amount that was planned.
pub open spec fn opens_as_planned(plan: OutputPlan, sealed: SealedOutput) -> bool {
    sealed.opened is Some && sealed.opened.unwrap().amount == plan.amount
}

/// Whether the builder takes a sealed output in: the plan's token id is
/// allowed, whoever wrote the plan, and the output opens to the planned
/// amount.
pub open spec fn is_taken_in<FPR: FogPubkeyResolver, MB: MemoBuilder>(
    state: BuilderState<FPR, MB>,
    plan: OutputPlan,
    sealed: SealedOutput,
) -> bool {
    token_id_is_allowed(state, plan.amount) && opens_as_planned(plan, sealed)
}

/// What handing in a sealed output returns. The token id of the plan is
/// checked first, as it is when an output is planned; then the output
/// must open to the planned amount. Returned are the output as the block
/// version admits it and its confirmation number.
pub open spec fn commit_result<FPR: FogPubkeyResolver, MB: MemoBuilder>(
    state: BuilderState<FPR, MB>,
    plan: OutputPlan,
    sealed: SealedOutput,
) -> Result<(TxOut, TxOutConfirmationNumber), TxBuilderError> {
    if !token_id_is_allowed(state, plan.amount) {
        Err(TxBuilderError::MixedTransactionsNotAllowed(state.fee.token_id, plan.amount.token_id))
    } else if !opens_as_planned(plan, sealed) {
        Err(TxBuilderError::BadAmount)
    } else {
        Ok((gated_output(state.block_version, sealed.tx_out), sealed.confirmation))
    }
}

/// The builder after a sealed output is handed in: if the output is taken
/// in it joins the outputs, as the block version admits it, and the expiry
/// of its fog key limits the tombstone block; else nothing changes.
pub open spec fn state_after_commit<FPR: FogPubkeyResolver, MB: MemoBuilder>(
    state: BuilderState<FPR, MB>,
    plan: OutputPlan,
    sealed: SealedOutput,
) -> BuilderState<FPR, MB> {
    if is_taken_in(state, plan, sealed) {
        BuilderState {
            tombstone: state.tombstone.limited(plan.pubkey_expiry),
            outputs_and_secrets: state.outputs_and_secrets.push(
                OutputDraft {
                    tx_out: gated_output(state.block_version, sealed.tx_out),
                    secret: sealed.opened.unwrap(),
                },
            ),
            ..state
        }
    } else {
        state
    }
}

/// Whether one of the outputs is `tx_out`, field by field.
pub open spec fn holds_output(outputs: Seq<OutputDraft>, tx_out: TxOut) -> bool {
    exists|i: int| 0 <= i < outputs.len() && (#[trigger] outputs[i]).tx_out == tx_out
}

/// The outputs after each required output that they do not hold yet has
/// joined them, in the order of the rules, with the amount that came with
/// it as its secret.
pub open spec fn with_required_outputs(
    outputs: Seq<OutputDraft>,
    required: Seq<TxOut>,
    amounts: Seq<UnmaskedAmount>,
) -> Seq<OutputDraft>
    decreases required.len(),
{
    if required.len() == 0 || amounts.len() == 0 {
        outputs
    } else {
        let before = with_required_outputs(outputs, required.drop_last(), amounts.drop_last());
        if holds_output(before, required.last()) {
            before
        } else {
            before.push(
                OutputDraft { tx_out: required.last(), secret: amounts.last().output_secret() },
            )
        }
    }
}

/// Whether a pre-signed input comes with one amount for each output that
/// its rules require.
pub open spec fn amounts_match_rules(sci: SignedContingentInput) -> bool {
    match sci.tx_in.input_rules {
        Some(rules) => rules.required_outputs@.len() == sci.required_output_amounts@.len(),
        None => true,
    }
}

/// The builder after a pre-signed input has joined it with its rules met.
pub open spec fn state_after_presigned_input<FPR: FogPubkeyResolver, MB: MemoBuilder>(
    state: BuilderState<FPR, MB>,
    sci: SignedContingentInput,
) -> BuilderState<FPR, MB> {
    let input_materials = state.input_materials.push(InputMaterials::Presigned(sci));
    match sci.tx_in.input_rules {
        Some(rules) => BuilderState {
            input_materials,
            outputs_and_secrets: with_required_outputs(
                state.outputs_and_secrets,
                rules.required_outputs@,
                sci.required_output_amounts@,
            ),
            tombstone: if rules.max_tombstone_block != 0 {
                state.tombstone.limited(rules.max_tombstone_block)
            } else {
                state.tombstone
            },
            ..state
        },
        None => BuilderState { input_materials, ..state },
    }
}

/// Why no transaction can be built from what the builder holds, if none
/// can. The checks are made in this order, and the first that fails
/// decides: the block version is supported (no version is too old); the
/// fee is in the base token unless the version has masked token ids; there
/// is an input; the rings are of one size; each input is fit to enter.
/// Last of all, before anything is sorted by the first member of its ring,
/// the rings are not empty.
pub open spec fn validation_error<FPR: FogPubkeyResolver, MB: MemoBuilder>(
    state: BuilderState<FPR, MB>,
) -> Option<TxBuilderError> {
    if !state.block_version.is_supported() {
        Some(TxBuilderError::BlockVersionTooNew(state.block_version.number, MAX_BLOCK_VERSION))
    } else if !state.block_version.masked_token_id_feature_is_supported() && state.fee.token_id.id
        != MOB_TOKEN_ID {
        Some(
            TxBuilderError::FeatureNotSupportedAtBlockVersion(
                state.block_version.number,
                "nonzero token id",
            ),
        )
    } else if state.input_materials.len() == 0 {
        Some(TxBuilderError::NoInputs)
    } else if !rings_have_one_size(state.input_materials) {
        Some(TxBuilderError::InvalidRingSize)
    } else {
        match first_input_error(state.block_version, state.fee, state.input_materials) {
            Some(e) => Some(e),
            None => if state.input_materials[0].ring().len() == 0 {
                Some(TxBuilderError::InvalidRingSize)
            } else {
                None
            },
        }
    }
}

/// Whether `tx` is what the builder's parts make in canonical form: the
/// inputs sorted by the public key of the first member of their ring, the
/// outputs sorted by `O`, both stably, and the signer's parts in the same
/// order.
pub open spec fn is_canonical_form<FPR: FogPubkeyResolver, MB: MemoBuilder, O: TxOutputsOrdering>(
    state: BuilderState<FPR, MB>,
    tx: UnsignedTx,
) -> bool {
    let inputs = stable_sort::<InputMaterials, DefaultTxOutputsOrdering>(state.input_materials);
    let outputs = stable_sort::<OutputDraft, O>(state.outputs_and_secrets);
    &&& tx.block_version == state.block_version
    &&& tx.prefix.fee == state.fee
    &&& tx.prefix.tombstone_block == state.tombstone.tombstone_block
    &&& tx.prefix.inputs@ == Seq::new(inputs.len(), |i: int| tx_in_of(inputs[i]))
    &&& tx.input_signers@ == Seq::new(inputs.len(), |i: int| signer_of(inputs[i]))
    &&& tx.prefix.outputs@ == Seq::new(outputs.len(), |i: int| outputs[i].tx_out)
    &&& tx.output_secrets@ == Seq::new(outputs.len(), |i: int| outputs[i].secret)
}

/// The inputs of a built transaction ascend by the public key of the first
/// member of their ring, whatever orders the outputs; there are as many as
/// the builder held, and each has a ring. If the ring of every input
/// ascended by public key when it was added, as the rings of credentials
/// do, so does the ring of every input of the transaction.
pub proof fn lemma_built_inputs_are_sorted<
    FPR: FogPubkeyResolver,
    MB: MemoBuilder,
    O: TxOutputsOrdering,
>(state: BuilderState<FPR, MB>, tx: UnsignedTx)
    requires
        validation_error(state) is None,
        is_canonical_form::<FPR, MB, O>(state, tx),
    ensures
        tx.prefix.inputs@.len() == state.input_materials.len(),
        tx.input_signers@.len() == state.input_materials.len(),
        forall|i: int| 0 <= i < tx.prefix.inputs@.len() ==> (#[trigger] tx.prefix.inputs@[i]).ring@.len() > 0,
        forall|i: int, j: int|
            0 <= i < j < tx.prefix.inputs@.len() ==> (#[trigger] tx.prefix.inputs@[i]).ring@[0].public_key.number()
                <= (#[trigger] tx.prefix.inputs@[j]).ring@[0].public_key.number(),
        // A ring that was sorted when it came is sorted in the transaction.
        (forall|k: int|
            0 <= k < state.input_materials.len() ==> ring_is_sorted(
                (#[trigger] state.input_materials[k]).ring(),
            )) ==> forall|i: int|
            0 <= i < tx.prefix.inputs@.len() ==> ring_is_sorted(
                (#[trigger] tx.prefix.inputs@[i]).ring@,
            ),
{
    let sorted = stable_sort::<InputMaterials, DefaultTxOutputsOrdering>(state.input_materials);
    lemma_stable_sort_is_permutation::<InputMaterials, DefaultTxOutputsOrdering>(
        state.input_materials,
    );
    lemma_stable_sort_is_sorted::<InputMaterials>(state.input_materials);
    assert forall|i: int| 0 <= i < sorted.len() implies (#[trigger] sorted[i]).ring().len() > 0
        && tx.prefix.inputs@[i].ring@ == sorted[i].ring() by {
        lemma_stable_sort_keeps_elements::<InputMaterials, DefaultTxOutputsOrdering>(
            state.input_materials,
            i,
        );
        let k = choose|k: int|
            0 <= k < state.input_materials.len() && state.input_materials[k] == sorted[i];
        assert(state.input_materials[k].ring().len() == state.input_materials[0].ring().len());
    }
    assert forall|i: int, j: int| 0 <= i < j < tx.prefix.inputs@.len() implies (
    #[trigger] tx.prefix.inputs@[i]).ring@[0].public_key.number() <= (
    #[trigger] tx.prefix.inputs@[j]).ring@[0].public_key.number() by {
        assert(sorted[i].spec_sort_key().number() <= sorted[j].spec_sort_key().number());
        assert(sorted[i].ring().len() > 0 && sorted[j].ring().len() > 0);
    }
    if forall|k: int|
        0 <= k < state.input_materials.len() ==> ring_is_sorted(
            (#[trigger] state.input_materials[k]).ring(),
        ) {
        assert forall|i: int| 0 <= i < tx.prefix.inputs@.len() implies ring_is_sorted(
            (#[trigger] tx.prefix.inputs@[i]).ring@,
        ) by {
            lemma_stable_sort_keeps_elements::<InputMaterials, DefaultTxOutputsOrdering>(
                state.input_materials,
                i,
            );
            let k = choose|k: int|
                0 <= k < state.input_materials.len() && state.input_materials[k] == sorted[i];
            assert(ring_is_sorted(state.input_materials[k].ring()));
            assert(tx.prefix.inputs@[i].ring@ == sorted[i].ring());
        }
    }
}

/// Every input of a built transaction passed the checks of single inputs:
/// it has as many membership proofs as ring members; it is in the fee's
/// token id where the block version allows one token id only; and it was
/// not signed beforehand where the version does not allow that.
pub proof fn lemma_built_inputs_are_fit<
    FPR: FogPubkeyResolver,
    MB: MemoBuilder,
    O: TxOutputsOrdering,
>(state: BuilderState<FPR, MB>, tx: UnsignedTx)
    requires
        validation_error(state) is None,
        is_canonical_form::<FPR, MB, O>(state, tx),
    ensures
        forall|i: int|
            0 <= i < tx.prefix.inputs@.len() ==> (#[trigger] tx.prefix.inputs@[i]).ring@.len()
                == tx.prefix.inputs@[i].proofs@.len(),
        !state.block_version.mixed_transactions_are_supported() ==> forall|i: int|
            0 <= i < tx.input_signers@.len() ==> signer_amount(
                #[trigger] tx.input_signers@[i],
            ).token_id == state.fee.token_id,
        !state.block_version.signed_input_rules_are_supported() ==> forall|i: int|
            0 <= i < tx.input_signers@.len() ==> (#[trigger] tx.input_signers@[i]) is Signable,
{
    let sorted = stable_sort::<InputMaterials, DefaultTxOutputsOrdering>(state.input_materials);
    lemma_stable_sort_is_permutation::<InputMaterials, DefaultTxOutputsOrdering>(
        state.input_materials,
    );
    assert forall|i: int| 0 <= i < sorted.len() implies input_error(
        state.block_version,
        state.fee,
        #[trigger] sorted[i],
    ) is None by {
        lemma_stable_sort_keeps_elements::<InputMaterials, DefaultTxOutputsOrdering>(
            state.input_materials,
            i,
        );
        let k = choose|k: int|
            0 <= k < state.input_materials.len() && state.input_materials[k] == sorted[i];
        lemma_inputs_without_error_are_fit(
            state.block_version,
            state.fee,
            state.input_materials,
            k,
        );
    }
    assert forall|i: int| 0 <= i < tx.prefix.inputs@.len() implies (
    #[trigger] tx.prefix.inputs@[i]).ring@.len() == tx.prefix.inputs@[i].proofs@.len() by {
        assert(input_error(state.block_version, state.fee, sorted[i]) is None);
        assert(tx.prefix.inputs@[i] == tx_in_of(sorted[i]));
    }
    if !state.block_version.mixed_transactions_are_supported() {
        assert forall|i: int| 0 <= i < tx.input_signers@.len() implies signer_amount(
            #[trigger] tx.input_signers@[i],
        ).token_id == state.fee.token_id by {
            assert(input_error(state.block_version, state.fee, sorted[i]) is None);
            assert(tx.input_signers@[i] == signer_of(sorted[i]));
        }
    }
    if !state.block_version.signed_input_rules_are_supported() {
        assert forall|i: int| 0 <= i < tx.input_signers@.len() implies (
        #[trigger] tx.input_signers@[i]) is Signable by {
            assert(input_error(state.block_version, state.fee, sorted[i]) is None);
            assert(tx.input_signers@[i] == signer_of(sorted[i]));
        }
    }
}

/// The outputs of a transaction built in the default order ascend by public
/// key, and they are the outputs that the builder held: as many, and each
/// of them among them.
pub proof fn lemma_built_outputs_are_sorted<FPR: FogPubkeyResolver, MB: MemoBuilder>(
    state: BuilderState<FPR, MB>,
    tx: UnsignedTx,
)
    requires
        is_canonical_form::<FPR, MB, DefaultTxOutputsOrdering>(state, tx),
    ensures
        tx.prefix.outputs@.len() == state.outputs_and_secrets.len(),
        tx.output_secrets@.len() == state.outputs_and_secrets.len(),
        forall|i: int, j: int|
            0 <= i < j < tx.prefix.outputs@.len() ==> (#[trigger] tx.prefix.outputs@[i]).public_key.number()
                <= (#[trigger] tx.prefix.outputs@[j]).public_key.number(),
        forall|k: int|
            0 <= k < state.outputs_and_secrets.len() ==> tx.prefix.outputs@.contains(
                (#[trigger] state.outputs_and_secrets[k]).tx_out,
            ),
{
    let sorted = stable_sort::<OutputDraft, DefaultTxOutputsOrdering>(state.outputs_and_secrets);
    lemma_stable_sort_is_permutation::<OutputDraft, DefaultTxOutputsOrdering>(
        state.outputs_and_secrets,
    );
    lemma_stable_sort_is_sorted::<OutputDraft>(state.outputs_and_secrets);
    assert forall|i: int, j: int| 0 <= i < j < tx.prefix.outputs@.len() implies (
    #[trigger] tx.prefix.outputs@[i]).public_key.number() <= (
    #[trigger] tx.prefix.outputs@[j]).public_key.number() by {
        assert(sorted[i].spec_sort_key().number() <= sorted[j].spec_sort_key().number());
    }
    assert forall|k: int| 0 <= k < state.outputs_and_secrets.len() implies tx.prefix.outputs@.contains(
        (#[trigger] state.outputs_and_secrets[k]).tx_out,
    ) by {
        let draft = state.outputs_and_secrets[k];
        assert(state.outputs_and_secrets.contains(draft));
        vstd::seq_lib::to_multiset_contains(state.outputs_and_secrets, draft);
        vstd::seq_lib::to_multiset_contains(sorted, draft);
        let at = choose|at: int| 0 <= at < sorted.len() && sorted[at] == draft;
        assert(tx.prefix.outputs@[at] == draft.tx_out);
    }
}

/// Every output that the builder takes in is held with a secret of the
/// amount that was planned for it, in a token id that the transaction may
/// hold, and with no field that the block version lacks.
pub proof fn lemma_committed_output_matches_plan<FPR: FogPubkeyResolver, MB: MemoBuilder>(
    state: BuilderState<FPR, MB>,
    plan: OutputPlan,
    sealed: SealedOutput,
)
    requires
        is_taken_in(state, plan, sealed),
    ensures
        ({
            let after = state_after_commit(state, plan, sealed);
            let draft = after.outputs_and_secrets.last();
            &&& after.outputs_and_secrets.len() == state.outputs_and_secrets.len() + 1
            &&& draft.secret.amount == plan.amount
            &&& !state.block_version.mixed_transactions_are_supported()
                ==> draft.secret.amount.token_id == state.fee.token_id
            &&& draft.tx_out == gated_output(state.block_version, sealed.tx_out)
            &&& !state.block_version.e_memo_feature_is_supported() ==> draft.tx_out.e_memo is None
            &&& !state.block_version.masked_token_id_feature_is_supported()
                ==> draft.tx_out.masked_amount.masked_token_id is None
            &&& after.tombstone.tombstone_block <= plan.pubkey_expiry
            &&& after.tombstone.is_clamped()
        }),
{
}

/// Whatever is added to a builder, its tombstone block stays within the
/// limit, and the limit does not loosen.
pub proof fn lemma_tombstone_stays_within_its_limit<FPR: FogPubkeyResolver, MB: MemoBuilder>(
    state: BuilderState<FPR, MB>,
    plan: OutputPlan,
    sealed: SealedOutput,
    sci: SignedContingentInput,
)
    requires
        state.tombstone.is_clamped(),
    ensures
        fresh_builder(state.block_version, state.fee, state.fog_resolver, state.memo_builder)
            .tombstone.is_clamped(),
        state_after_commit(state, plan, sealed).tombstone.is_clamped(),
        state_after_commit(state, plan, sealed).tombstone.fog_tombstone_block_limit
            <= state.tombstone.fog_tombstone_block_limit,
        state_after_commit(state, plan, sealed).tombstone.tombstone_block
            <= state.tombstone.tombstone_block,
        state_after_presigned_input(state, sci).tombstone.is_clamped(),
        state_after_presigned_input(state, sci).tombstone.fog_tombstone_block_limit
            <= state.tombstone.fog_tombstone_block_limit,
        state_after_presigned_input(state, sci).tombstone.tombstone_block
            <= state.tombstone.tombstone_block,
{
}

impl<FPR: FogPubkeyResolver, MB: MemoBuilder> TransactionBuilder<FPR, MB> {
    /// Starts a transaction. The memo policy is told the fee first, and the
    /// builder is made only if the policy accepts it.
    pub fn new(block_version: BlockVersion, fee: Amount, fog_resolver: FPR, memo_builder: MB) -> (r:
        Result<Self, TxBuilderError>)
        ensures
            match memo_builder.fee_answer(fee) {
                Ok(_) => r.is_ok() && r.unwrap()@ == fresh_builder(
                    block_version,
                    fee,
                    fog_resolver,
                    memo_builder.after_fee(fee),
                ),
                Err(e) => r == Err::<Self, TxBuilderError>(TxBuilderError::Memo(e)),
            },
    {
        let mut memo_builder = memo_builder;
        match memo_builder.set_fee(fee) {
            Ok(_) => Ok(
                TransactionBuilder {
                    block_version,
                    input_materials: Vec::new(),
                    outputs_and_secrets: Vec::new(),
                    tombstone: TombstoneState::new(),
                    fee,
                    fog_resolver,
                    memo_builder,
                },
            ),
            Err(e) => Err(TxBuilderError::Memo(e)),
        }
    }

    /// Starts a transaction with a memo policy that lives in a box.
    pub fn new_with_box(
        block_version: BlockVersion,
        fee: Amount,
        fog_resolver: FPR,
        memo_builder: Box<MB>,
    ) -> (r: Result<Self, TxBuilderError>)
        ensures
            match memo_builder.fee_answer(fee) {
                Ok(_) => r.is_ok() && r.unwrap()@ == fresh_builder(
                    block_version,
                    fee,
                    fog_resolver,
                    memo_builder.after_fee(fee),
                ),
                Err(e) => r == Err::<Self, TxBuilderError>(TxBuilderError::Memo(e)),
            },
    {
        Self::new(block_version, fee, fog_resolver, *memo_builder)
    }

    /// Adds an input that the transaction's signer will sign. Nothing is
    /// checked before the transaction is built.
    pub fn add_input(&mut self, input_credentials: InputCredentials)
        ensures
            final(self)@ == (BuilderState {
                input_materials: old(self)@.input_materials.push(
                    InputMaterials::Signable(input_credentials),
                ),
                ..old(self)@
            }),
    {
        self.input_materials.push(InputMaterials::Signable(input_credentials));
    }

    /// Adds a pre-signed input and meets its rules: every output that the
    /// rules require and that the transaction does not hold yet is added,
    /// and the tombstone block is kept within the rules' limit.
    ///
    /// Fails, and changes nothing, if the input does not come with one
    /// amount for each required output.
    pub fn add_presigned_input(&mut self, sci: SignedContingentInput) -> (r: Result<
        (),
        SignedContingentInputError,
    >)
        ensures
            amounts_match_rules(sci) ==> r == Ok::<(), SignedContingentInputError>(())
                && final(self)@ == state_after_presigned_input(old(self)@, sci),
            !amounts_match_rules(sci) ==> r == Err::<(), SignedContingentInputError>(
                SignedContingentInputError::WrongNumberOfRequiredOutputAmounts,
            ) && final(self)@ == old(self)@,
    {
        match &sci.tx_in.input_rules {
            Some(rules) => {
                let n: usize = rules.required_outputs.len();
                if n != sci.required_output_amounts.len() {
                    return Err(SignedContingentInputError::WrongNumberOfRequiredOutputAmounts);
                }
                let ghost required = rules.required_outputs@;
                let ghost amounts = sci.required_output_amounts@;
                let mut k: usize = 0;
                while k < n
                    invariant
                        0 <= k <= n,
                        n == required.len(),
                        n == amounts.len(),
                        required == rules.required_outputs@,
                        amounts == sci.required_output_amounts@,
                        self@ == (BuilderState {
                            outputs_and_secrets: with_required_outputs(
                                old(self)@.outputs_and_secrets,
                                required.take(k as int),
                                amounts.take(k as int),
                            ),
                            ..old(self)@
                        }),
                    decreases n - k,
                {
                    proof {
                        assert(required.take(k + 1).drop_last() =~= required.take(k as int));
                        assert(amounts.take(k + 1).drop_last() =~= amounts.take(k as int));
                    }
                    let required_output: TxOut = rules.required_outputs[k];
                    if !self.holds(&required_output) {
                        let secret = sci.required_output_amounts[k].output_secret();
                        self.outputs_and_secrets.push(
                            OutputDraft { tx_out: required_output, secret },
                        );
                    }
                    k += 1;
                }
                proof {
                    assert(required.take(n as int) =~= required);
                    assert(amounts.take(n as int) =~= amounts);
                }
                if rules.max_tombstone_block != 0 {
                    self.impose_tombstone_block_limit(rules.max_tombstone_block);
                }
            },
            None => {},
        }
        self.add_presigned_input_raw(sci);
        Ok(())
    }

    /// Whether the transaction holds `tx_out` already.
    fn holds(&self, tx_out: &TxOut) -> (b: bool)
        ensures
            b == holds_output(self@.outputs_and_secrets, *tx_out),
    {
        let mut i: usize = 0;
        while i < self.outputs_and_secrets.len()
            invariant
                0 <= i <= self.outputs_and_secrets@.len(),
                forall|j: int| 0 <= j < i ==> (#[trigger] self.outputs_and_secrets@[j]).tx_out != *tx_out,
            decreases self.outputs_and_secrets@.len() - i,
        {
            if self.outputs_and_secrets[i].tx_out.same(tx_out) {
                return true;
            }
            i += 1;
        }
        false
    }

    /// Adds a pre-signed input and meets none of its rules: the caller adds
    /// the outputs that they require and keeps the tombstone block within
    /// their limit.
    pub fn add_presigned_input_raw(&mut self, sci: SignedContingentInput)
        ensures
            final(self)@ == (BuilderState {
                input_materials: old(self)@.input_materials.push(InputMaterials::Presigned(sci)),
                ..old(self)@
            }),
    {
        self.input_materials.push(InputMaterials::Presigned(sci));
    }

    /// Plans an output that pays `amount` to `recipient`.
    ///
    /// The builder checks the token id, resolves the recipient's fog key and
    /// asks the memo policy for the output's memo. The caller seals the
    /// output as the plan says and hands it in with `commit_output`.
    pub fn add_output(&mut self, amount: Amount, recipient: &PublicAddress, memo_context: MemoContext) -> (r:
        Result<OutputPlan, TxBuilderError>)
        ensures
            r == planned_output(old(self)@, amount, *recipient, *recipient, None, memo_context),
            final(self)@ == state_after_planning(
                old(self)@,
                amount,
                *recipient,
                *recipient,
                None,
                memo_context,
            ),
    {
        self.add_output_with_fog_hint_address(amount, recipient, recipient, None, memo_context)
    }

    /// Plans the change output, which returns to the sender what the other
    /// outputs and the fee leave of the inputs.
    ///
    /// The change subaddress owns the output; the fog hint is made for the
    /// primary address. The memo policy is asked for a change memo.
    pub fn add_change_output(
        &mut self,
        amount: Amount,
        change_destination: &ReservedDestination,
        memo_context: MemoContext,
    ) -> (r: Result<OutputPlan, TxBuilderError>)
        ensures
            r == planned_output(
                old(self)@,
                amount,
                change_destination.change_subaddress,
                change_destination.primary_address,
                Some(*change_destination),
                memo_context,
            ),
            final(self)@ == state_after_planning(
                old(self)@,
                amount,
                change_destination.change_subaddress,
                change_destination.primary_address,
                Some(*change_destination),
                memo_context,
            ),
    {
        self.add_output_with_fog_hint_address(
            amount,
            &change_destination.change_subaddress,
            &change_destination.primary_address,
            Some(change_destination),
            memo_context,
        )
    }

    /// Plans an output whose fog hint is made for `fog_hint_address`, which
    /// differs from the recipient for change only. The memo policy is asked
    /// for a change memo where `change` names the change destination, for
    /// the memo of an output where it names none.
    pub fn add_output_with_fog_hint_address(
        &mut self,
        amount: Amount,
        recipient: &PublicAddress,
        fog_hint_address: &PublicAddress,
        change: Option<&ReservedDestination>,
        memo_context: MemoContext,
    ) -> (r: Result<OutputPlan, TxBuilderError>)
        ensures
            r == planned_output(
                old(self)@,
                amount,
                *recipient,
                *fog_hint_address,
                match change {
                    Some(d) => Some(*d),
                    None => None,
                },
                memo_context,
            ),
            final(self)@ == state_after_planning(
                old(self)@,
                amount,
                *recipient,
                *fog_hint_address,
                match change {
                    Some(d) => Some(*d),
                    None => None,
                },
                memo_context,
            ),
    {
        if !self.block_version.mixed_transactions_are_supported() && self.fee.token_id
            != amount.token_id {
            return Err(
                TxBuilderError::MixedTransactionsNotAllowed(self.fee.token_id, amount.token_id),
            );
        }
        let (fog_hint, pubkey_expiry) = match create_fog_hint(fog_hint_address, &self.fog_resolver) {
            Ok(found) => found,
            Err(e) => {
                return Err(e);
            },
        };
        let memo: Option<MemoPayload> = if self.block_version.e_memo_feature_is_supported() {
            let answer = match change {
                None => self.memo_builder.make_memo_for_output(amount, recipient, memo_context),
                Some(destination) => self.memo_builder.make_memo_for_change_output(
                    amount,
                    destination,
                    memo_context,
                ),
            };
            match answer {
                Ok(payload) => Some(payload),
                Err(e) => {
                    return Err(TxBuilderError::NewTx(NewTxError::Memo(e)));
                },
            }
        } else {
            None
        };
        Ok(
            OutputPlan {
                amount,
                recipient: copy_address(recipient),
                fog_hint_address: copy_address(fog_hint_address),
                fog_hint,
                pubkey_expiry,
                memo,
                memo_context,
            },
        )
    }

    /// Takes in an output that the caller sealed from `plan`.
    ///
    /// The plan's token id must be one that the transaction may hold, and
    /// the output must open to the planned amount. What the block version
    /// does not have is cleared from the output, the expiry of its fog key
    /// limits the tombstone block, and the output joins the transaction.
    /// Returned are the output as it will stand in the transaction and its
    /// confirmation number.
    pub fn commit_output(&mut self, plan: OutputPlan, sealed: SealedOutput) -> (r: Result<
        (TxOut, TxOutConfirmationNumber),
        TxBuilderError,
    >)
        ensures
            final(self)@ == state_after_commit(old(self)@, plan, sealed),
            r == commit_result(old(self)@, plan, sealed),
    {
        if !self.block_version.mixed_transactions_are_supported() && !(self.fee.token_id
            == plan.amount.token_id) {
            return Err(
                TxBuilderError::MixedTransactionsNotAllowed(
                    self.fee.token_id,
                    plan.amount.token_id,
                ),
            );
        }
        let secret: OutputSecret = match sealed.opened {
            Some(secret) => secret,
            None => {
                return Err(TxBuilderError::BadAmount);
            },
        };
        if !(secret.amount == plan.amount) {
            return Err(TxBuilderError::BadAmount);
        }
        let tx_out = create_output_with_fog_hint(self.block_version, sealed.tx_out);
        self.impose_tombstone_block_limit(plan.pubkey_expiry);
        self.outputs_and_secrets.push(OutputDraft { tx_out, secret });
        Ok((tx_out, sealed.confirmation))
    }

    /// Asks for a tombstone block. The builder takes the smaller of it and
    /// the limit that fog keys and input rules have set so far, and returns
    /// what it took.
    pub fn set_tombstone_block(&mut self, tombstone_block: u64) -> (effective: u64)
        ensures
            final(self)@ == (BuilderState {
                tombstone: old(self)@.tombstone.requested(tombstone_block),
                ..old(self)@
            }),
            effective == final(self)@.tombstone.tombstone_block,
    {
        self.tombstone.set_tombstone_block(tombstone_block)
    }

    /// Lowers the limit on the tombstone block, and the tombstone block
    /// with it where it lies beyond.
    fn impose_tombstone_block_limit(&mut self, pubkey_expiry: u64)
        ensures
            final(self)@ == (BuilderState {
                tombstone: old(self)@.tombstone.limited(pubkey_expiry),
                ..old(self)@
            }),
    {
        self.tombstone.impose_tombstone_block_limit(pubkey_expiry);
    }

    /// Changes the value of the fee. The memo policy is told first; if it
    /// declines, the fee stays as it was.
    pub fn set_fee(&mut self, fee_value: u64) -> (r: Result<(), TxBuilderError>)
        ensures
            ({
                let before = old(self)@;
                let new_fee = Amount { value: fee_value, token_id: before.fee.token_id };
                let after = final(self)@;
                let policy = before.memo_builder.after_fee(new_fee);
                match before.memo_builder.fee_answer(new_fee) {
                    Ok(_) => r == Ok::<(), TxBuilderError>(()) && after == (BuilderState {
                        fee: new_fee,
                        memo_builder: policy,
                        ..before
                    }),
                    Err(e) => r == Err::<(), TxBuilderError>(TxBuilderError::Memo(e)) && after
                        == (BuilderState { memo_builder: policy, ..before }),
                }
            }),
    {
        let new_fee = Amount { value: fee_value, token_id: self.fee.token_id };
        match self.memo_builder.set_fee(new_fee) {
            Ok(_) => {
                self.fee = new_fee;
                Ok(())
            },
            Err(e) => Err(TxBuilderError::Memo(e)),
        }
    }

    /// The value of the fee.
    pub fn get_fee(&self) -> (value: u64)
        ensures
            value == self@.fee.value,
    {
        self.fee.value
    }

    /// The token id of the fee.
    pub fn get_fee_token_id(&self) -> (token_id: TokenId)
        ensures
            token_id == self@.fee.token_id,
    {
        self.fee.token_id
    }
    /// Builds the transaction: checks what the builder holds, and puts it in
    /// canonical form, the outputs ascending by public key. The builder is
    /// used up.
    pub fn build(self) -> (r: Result<UnsignedTx, TxBuilderError>)
        ensures
            match validation_error(self@) {
                Some(e) => r == Err::<UnsignedTx, TxBuilderError>(e),
                None => r is Ok && is_canonical_form::<FPR, MB, DefaultTxOutputsOrdering>(
                    self@,
                    r.unwrap(),
                ),
            },
    {
        self.build_with_comparer_internal::<DefaultTxOutputsOrdering>()
    }

    /// Builds the transaction with the outputs in the order of `O`.
    pub fn build_with_sorter<O: TxOutputsOrdering>(self) -> (r: Result<UnsignedTx, TxBuilderError>)
        ensures
            match validation_error(self@) {
                Some(e) => r == Err::<UnsignedTx, TxBuilderError>(e),
                None => r is Ok && is_canonical_form::<FPR, MB, O>(self@, r.unwrap()),
            },
    {
        self.build_with_comparer_internal::<O>()
    }

    /// The error of the first input that cannot enter the transaction.
    fn check_inputs(&self) -> (e: Option<TxBuilderError>)
        ensures
            e == first_input_error(self@.block_version, self@.fee, self@.input_materials),
    {
        let ghost inputs = self.input_materials@;
        let n: usize = self.input_materials.len();
        let mut i: usize = 0;
        while i < n
            invariant
                0 <= i <= n,
                n == inputs.len(),
                inputs == self.input_materials@,
                first_input_error(self.block_version, self.fee, inputs.take(i as int)) is None,
            decreases n - i,
        {
            proof {
                assert(inputs.take(i + 1).drop_last() =~= inputs.take(i as int));
            }
            let input = &self.input_materials[i];
            let found: Option<TxBuilderError> = if !self.block_version.mixed_transactions_are_supported()
                && !(input.amount().token_id == self.fee.token_id) {
                Some(
                    TxBuilderError::MixedTransactionsNotAllowed(
                        self.fee.token_id,
                        input.amount().token_id,
                    ),
                )
            } else if input.is_presigned() && !self.block_version.signed_input_rules_are_supported() {
                Some(TxBuilderError::SignedInputRulesNotAllowed)
            } else if input.ring_size() != input.proof_size() {
                Some(TxBuilderError::MissingMembershipProofs)
            } else {
                None
            };
            if found.is_some() {
                proof {
                    lemma_first_input_error_of_prefix(self.block_version, self.fee, inputs, i + 1);
                }
                return found;
            }
            i += 1;
        }
        proof {
            assert(inputs.take(n as int) =~= inputs);
        }
        None
    }

    /// Whether all rings have the size of the first.
    fn check_ring_sizes(&self) -> (b: bool)
        requires
            self@.input_materials.len() > 0,
        ensures
            b == rings_have_one_size(self@.input_materials),
    {
        let first: usize = self.input_materials[0].ring_size();
        let mut i: usize = 1;
        while i < self.input_materials.len()
            invariant
                1 <= i <= self.input_materials@.len(),
                first == self.input_materials@[0].ring().len(),
                forall|j: int| 0 <= j < i ==> (#[trigger] self.input_materials@[j]).ring().len() == first,
            decreases self.input_materials@.len() - i,
        {
            if self.input_materials[i].ring_size() != first {
                return false;
            }
            i += 1;
        }
        true
    }

    /// Checks what the builder holds and puts it in canonical form.
    fn build_with_comparer_internal<O: TxOutputsOrdering>(self) -> (r: Result<
        UnsignedTx,
        TxBuilderError,
    >)
        ensures
            match validation_error(self@) {
                Some(e) => r == Err::<UnsignedTx, TxBuilderError>(e),
                None => r is Ok && is_canonical_form::<FPR, MB, O>(self@, r.unwrap()),
            },
    {
        let ghost state = self@;
        let mut this = self;
        if this.block_version.number > MAX_BLOCK_VERSION {
            return Err(
                TxBuilderError::BlockVersionTooNew(this.block_version.number, MAX_BLOCK_VERSION),
            );
        }
        if !this.block_version.masked_token_id_feature_is_supported() && this.fee.token_id.id
            != MOB_TOKEN_ID {
            return Err(
                TxBuilderError::FeatureNotSupportedAtBlockVersion(
                    this.block_version.number,
                    "nonzero token id",
                ),
            );
        }
        if this.input_materials.len() == 0 {
            return Err(TxBuilderError::NoInputs);
        }
        if !this.check_ring_sizes() {
            return Err(TxBuilderError::InvalidRingSize);
        }
        match this.check_inputs() {
            Some(e) => {
                return Err(e);
            },
            None => {},
        }
        // Inputs go by the first member of their ring, which an empty ring
        // does not have.
        if this.input_materials[0].ring_size() == 0 {
            return Err(TxBuilderError::InvalidRingSize);
        }
        sort_by_key::<InputMaterials, DefaultTxOutputsOrdering>(&mut this.input_materials);
        let ghost sorted_inputs = this.input_materials@;
        proof {
            lemma_stable_sort_is_permutation::<InputMaterials, DefaultTxOutputsOrdering>(
                state.input_materials,
            );
        }
        let mut inputs: Vec<TxIn> = Vec::new();
        let mut input_signers: Vec<InputSigner> = Vec::new();
        let n: usize = this.input_materials.len();
        let mut i: usize = 0;
        while i < n
            invariant
                0 <= i <= n,
                n == sorted_inputs.len(),
                this.input_materials@ == sorted_inputs.skip(i as int),
                this.outputs_and_secrets@ == state.outputs_and_secrets,
                this.block_version == state.block_version,
                this.fee == state.fee,
                this.tombstone == state.tombstone,
                inputs@ == Seq::new(i as nat, |k: int| tx_in_of(sorted_inputs[k])),
                input_signers@ == Seq::new(i as nat, |k: int| signer_of(sorted_inputs[k])),
            decreases n - i,
        {
            let ghost inputs_before = inputs@;
            let ghost signers_before = input_signers@;
            let input = this.input_materials.remove(0);
            assert(input == sorted_inputs[i as int]);
            match input {
                InputMaterials::Signable(c) => {
                    let InputCredentials { ring, membership_proofs, real_index, input_secret } = c;
                    inputs.push(TxIn { ring, proofs: membership_proofs, input_rules: None });
                    input_signers.push(InputSigner::Signable { real_index, input_secret });
                },
                InputMaterials::Presigned(s) => {
                    let pseudo_output_secret = s.pseudo_output_amount.output_secret();
                    let SignedContingentInput {
                        block_version: _,
                        tx_in,
                        mlsag,
                        pseudo_output_amount: _,
                        required_output_amounts: _,
                        tx_out_global_indices: _,
                    } = s;
                    inputs.push(tx_in);
                    input_signers.push(InputSigner::Presigned { mlsag, pseudo_output_secret });
                },
            }
            proof {
                assert(this.input_materials@ =~= sorted_inputs.skip(i + 1));
                assert(inputs@ =~= Seq::new((i + 1) as nat, |k: int| tx_in_of(sorted_inputs[k])));
                assert(input_signers@ =~= Seq::new(
                    (i + 1) as nat,
                    |k: int| signer_of(sorted_inputs[k]),
                ));
            }
            i += 1;
        }
        sort_by_key::<OutputDraft, O>(&mut this.outputs_and_secrets);
        let ghost sorted_outputs = this.outputs_and_secrets@;
        let mut outputs: Vec<TxOut> = Vec::new();
        let mut output_secrets: Vec<OutputSecret> = Vec::new();
        let m: usize = this.outputs_and_secrets.len();
        let mut j: usize = 0;
        while j < m
            invariant
                0 <= j <= m,
                m == sorted_outputs.len(),
                this.outputs_and_secrets@ == sorted_outputs,
                this.block_version == state.block_version,
                this.fee == state.fee,
                this.tombstone == state.tombstone,
                outputs@ == Seq::new(j as nat, |k: int| sorted_outputs[k].tx_out),
                output_secrets@ == Seq::new(j as nat, |k: int| sorted_outputs[k].secret),
            decreases m - j,
        {
            let draft: OutputDraft = this.outputs_and_secrets[j];
            outputs.push(draft.tx_out);
            output_secrets.push(draft.secret);
            proof {
                assert(outputs@ =~= Seq::new((j + 1) as nat, |k: int| sorted_outputs[k].tx_out));
                assert(output_secrets@ =~= Seq::new(
                    (j + 1) as nat,
                    |k: int| sorted_outputs[k].secret,
                ));
            }
            j += 1;
        }
        let prefix = TxPrefix {
            inputs,
            outputs,
            fee: this.fee,
            tombstone_block: this.tombstone.tombstone_block,
        };
        let tx = UnsignedTx { block_version: this.block_version, prefix, input_signers, output_secrets };
        proof {
            assert(validation_error(state) is None);
            assert(sorted_inputs == stable_sort::<InputMaterials, DefaultTxOutputsOrdering>(
                state.input_materials,
            ));
            assert(sorted_outputs == stable_sort::<OutputDraft, O>(state.outputs_and_secrets));
            assert(tx.prefix.inputs@ =~= Seq::new(
                sorted_inputs.len(),
                |i: int| tx_in_of(sorted_inputs[i]),
            ));
            assert(tx.input_signers@ =~= Seq::new(
                sorted_inputs.len(),
                |i: int| signer_of(sorted_inputs[i]),
            ));
            assert(tx.prefix.outputs@ =~= Seq::new(
                sorted_outputs.len(),
                |i: int| sorted_outputs[i].tx_out,
            ));
            assert(tx.output_secrets@ =~= Seq::new(
                sorted_outputs.len(),
                |i: int| sorted_outputs[i].secret,
            ));
            assert(is_canonical_form::<FPR, MB, O>(state, tx));
        }
        Ok(tx)
    }
}

} // verus!
