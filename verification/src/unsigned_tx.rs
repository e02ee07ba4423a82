//! A transaction in canonical form, before and after it is signed.

use vstd::prelude::*;
use crate::amount::Amount;
use crate::block_version::BlockVersion;
use crate::conservation::{conserves_value, is_conserved};
use crate::error::TxBuilderError;
use crate::input_materials::{InputMaterials, InputSecret};
use crate::tx::{OutputSecret, RingSignature, Tx, TxIn, TxPrefix};

verus! {

/// What the signer needs of one input besides its ring.
#[derive(Clone, Debug, PartialEq, Eq)]
pub enum InputSigner {
    /// The input is signed now, with the secrets of the output it spends.
    Signable { real_index: usize, input_secret: InputSecret },
    /// The input was signed beforehand: its signature is taken as it is.
    Presigned { mlsag: Vec<u8>, pseudo_output_secret: OutputSecret },
}

/// A transaction in canonical form that lacks only its signature.
///
/// The signer signs the hash of `prefix`. It has one entry in
/// `input_signers` for each input of the prefix and one in `output_secrets`
/// for each output, in the order of the prefix.
#[derive(Clone, Debug, PartialEq, Eq)]
pub struct UnsignedTx {
    pub block_version: BlockVersion,
    pub prefix: TxPrefix,
    pub input_signers: Vec<InputSigner>,
    pub output_secrets: Vec<OutputSecret>,
}

/// The input of a transaction that an input material becomes.
pub open spec fn tx_in_of(input: InputMaterials) -> TxIn {
    match input {
        InputMaterials::Signable(c) => TxIn {
            ring: c.ring,
            proofs: c.membership_proofs,
            input_rules: None,
        },
        InputMaterials::Presigned(s) => s.tx_in,
    }
}

/// What the signer gets of an input material.
pub open spec fn signer_of(input: InputMaterials) -> InputSigner {
    match input {
        InputMaterials::Signable(c) => InputSigner::Signable {
            real_index: c.real_index,
            input_secret: c.input_secret,
        },
        InputMaterials::Presigned(s) => InputSigner::Presigned {
            mlsag: s.mlsag,
            pseudo_output_secret: s.pseudo_output_amount.output_secret(),
        },
    }
}

/// The amount that an input brings, as its signer knows it.
pub open spec fn signer_amount(signer: InputSigner) -> Amount {
    match signer {
        InputSigner::Signable { real_index, input_secret } => input_secret.amount,
        InputSigner::Presigned { mlsag, pseudo_output_secret } => pseudo_output_secret.amount,
    }
}

impl UnsignedTx {
    /// The amounts of the inputs, in their order.
    pub open spec fn input_amounts(&self) -> Seq<Amount> {
        Seq::new(self.input_signers@.len(), |i: int| signer_amount(self.input_signers@[i]))
    }

    /// The amounts of the outputs, in their order.
    pub open spec fn output_amounts(&self) -> Seq<Amount> {
        Seq::new(self.output_secrets@.len(), |i: int| self.output_secrets@[i].amount)
    }

    /// Whether, for every token id, the inputs add up to the outputs and
    /// the fee.
    pub open spec fn is_balanced(&self) -> bool {
        is_conserved(self.input_amounts(), self.output_amounts(), self.prefix.fee)
    }

    /// Whether, for every token id, the inputs add up to the outputs and
    /// the fee. A signer cannot sign a transaction for which they do not.
    pub fn conserves_value(&self) -> (b: bool)
        ensures
            b == self.is_balanced(),
    {
        let mut inputs: Vec<Amount> = Vec::new();
        let mut i: usize = 0;
        while i < self.input_signers.len()
            invariant
                0 <= i <= self.input_signers@.len(),
                inputs@ == Seq::new(i as nat, |k: int| signer_amount(self.input_signers@[k])),
            decreases self.input_signers@.len() - i,
        {
            let amount: Amount = match &self.input_signers[i] {
                InputSigner::Signable { real_index: _, input_secret } => input_secret.amount,
                InputSigner::Presigned { mlsag: _, pseudo_output_secret } => pseudo_output_secret.amount,
            };
            inputs.push(amount);
            proof {
                assert(inputs@ =~= Seq::new(
                    (i + 1) as nat,
                    |k: int| signer_amount(self.input_signers@[k]),
                ));
            }
            i += 1;
        }
        let mut outputs: Vec<Amount> = Vec::new();
        let mut j: usize = 0;
        while j < self.output_secrets.len()
            invariant
                0 <= j <= self.output_secrets@.len(),
                outputs@ == Seq::new(j as nat, |k: int| self.output_secrets@[k].amount),
            decreases self.output_secrets@.len() - j,
        {
            outputs.push(self.output_secrets[j].amount);
            proof {
                assert(outputs@ =~= Seq::new(
                    (j + 1) as nat,
                    |k: int| self.output_secrets@[k].amount,
                ));
            }
            j += 1;
        }
        proof {
            assert(inputs@ =~= self.input_amounts());
            assert(outputs@ =~= self.output_amounts());
        }
        conserves_value(&inputs, &outputs, self.prefix.fee)
    }

    /// Joins the transaction with what its signer returned.
    ///
    /// The signed transaction comes out if the signer signed and value is
    /// conserved; else the ring signature has failed.
    pub fn complete(self, signature: Option<RingSignature>) -> (r: Result<Tx, TxBuilderError>)
        ensures
            r == if signature is Some && self.is_balanced() {
                Ok::<Tx, TxBuilderError>(Tx { prefix: self.prefix, signature: signature.unwrap() })
            } else {
                Err::<Tx, TxBuilderError>(TxBuilderError::RingSignatureFailed)
            },
            r is Ok ==> is_conserved(self.input_amounts(), self.output_amounts(), self.prefix.fee),
    {
        if !self.conserves_value() {
            return Err(TxBuilderError::RingSignatureFailed);
        }
        match signature {
            Some(signature) => Ok(Tx { prefix: self.prefix, signature }),
            None => Err(TxBuilderError::RingSignatureFailed),
        }
    }
}

} // verus!
