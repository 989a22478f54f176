//! A transaction, reduced to what the scan reads of it.

use vstd::prelude::*;

verus! {

/// The number of bytes of a transaction id.
pub const TXID_LEN: usize = 32;

/// An input: the output of an earlier transaction that it spends.
#[derive(Clone, Copy, Debug, PartialEq, Eq)]
pub struct TxInput {
    /// The id of the transaction that made the output, in serialized order.
    pub previous_txid: [u8; 32],
    /// The index of the output in that transaction.
    pub previous_index: u32,
}

/// An output: an amount and the script that guards it.
#[derive(Clone, Debug, PartialEq, Eq)]
pub struct TxOutput {
    /// The amount, in the smallest unit of the chain.
    pub value: u64,
    /// The bytes of the locking script.
    pub script: Vec<u8>,
}

/// A decoded transaction.
#[derive(Clone, Debug, PartialEq, Eq)]
pub struct RawTransaction {
    /// The id of this transaction, in serialized order.
    pub txid: [u8; 32],
    /// The inputs, in order.
    pub inputs: Vec<TxInput>,
    /// The outputs, in order.
    pub outputs: Vec<TxOutput>,
}

/// The mathematical value of a [`TxOutput`].
pub struct TxOutputModel {
    pub value: u64,
    pub script: Seq<u8>,
}

/// The mathematical value of a [`RawTransaction`].
pub struct TxModel {
    pub txid: [u8; 32],
    pub inputs: Seq<TxInput>,
    pub outputs: Seq<TxOutputModel>,
}

impl View for TxOutput {
    type V = TxOutputModel;

    open spec fn view(&self) -> TxOutputModel {
        TxOutputModel { value: self.value, script: self.script@ }
    }
}

/// The models of a sequence of outputs.
pub open spec fn output_models(outputs: Seq<TxOutput>) -> Seq<TxOutputModel> {
    Seq::new(outputs.len(), |i: int| outputs[i]@)
}

impl View for RawTransaction {
    type V = TxModel;

    open spec fn view(&self) -> TxModel {
        TxModel { txid: self.txid, inputs: self.inputs@, outputs: output_models(self.outputs@) }
    }
}

/// The models of a sequence of transactions.
pub open spec fn tx_models(txs: Seq<RawTransaction>) -> Seq<TxModel> {
    Seq::new(txs.len(), |i: int| txs[i]@)
}

} // verus!
