//! What one transaction changes: the outputs it spends, the outputs it
//! creates, and the post it may carry.
//!
//! Every input spends an output, but for the input of a coinbase, which
//! names no earlier transaction. Every output whose script pays to an
//! address creates an output. The post is looked for in one place only, the
//! first output that is a data carrier: where its bytes begin with the magic
//! marker and can be read, they are the post; where not, the transaction
//! carries none, and nothing else about it changes.

use vstd::prelude::*;
use vstd::slice::slice_subrange;
use crate::network::Network;
use crate::protocol::reading::{decode_chunk, spec_decode_chunk};
use crate::protocol::{BorkRecord, BorkTxData};
use crate::script::{
    address, carried_data_start, is_data_carrier, spec_address, spec_carried_data,
    spec_is_data_carrier,
};
use crate::transaction::{RawTransaction, TxInput, TxOutputModel};

verus! {

/// An output that a transaction spends.
#[derive(Clone, Copy, Debug, PartialEq, Eq)]
pub struct UtxoId {
    /// The id of the transaction that made the output, in serialized order.
    pub transaction_id: [u8; 32],
    /// The index of the output in that transaction.
    pub output_index: u64,
}

/// An output that a transaction creates and that pays to an address.
#[derive(Clone, Debug, PartialEq, Eq)]
pub struct NewUtxo {
    /// The id of the transaction that makes the output, in serialized order.
    pub transaction_id: [u8; 32],
    /// The index of the output in that transaction.
    pub output_index: u64,
    /// The address that the output pays to.
    pub address: String,
    /// The amount, in the smallest unit of the chain.
    pub value: u64,
}

/// The mathematical value of a [`NewUtxo`].
pub struct NewUtxoModel {
    pub transaction_id: [u8; 32],
    pub output_index: u64,
    pub address: Seq<char>,
    pub value: u64,
}

impl View for NewUtxo {
    type V = NewUtxoModel;

    open spec fn view(&self) -> NewUtxoModel {
        NewUtxoModel {
            transaction_id: self.transaction_id,
            output_index: self.output_index,
            address: self.address@,
            value: self.value,
        }
    }
}

/// The models of a sequence of created outputs.
pub open spec fn utxo_models(created: Seq<NewUtxo>) -> Seq<NewUtxoModel> {
    Seq::new(created.len(), |i: int| created[i]@)
}

/// The model of a post that may be absent.
pub open spec fn bork_model(bork: Option<BorkTxData>) -> Option<BorkRecord> {
    match bork {
        Some(b) => Some(b@),
        None => None,
    }
}

/// Whether an input spends nothing, as the input of a coinbase does: it
/// names the all-zero transaction id and the largest index.
pub open spec fn spec_is_coinbase_input(input: TxInput) -> bool {
    input.previous_index == u32::MAX && forall|k: int|
        0 <= k < 32 ==> #[trigger] input.previous_txid@[k] == 0
}

/// Whether an input spends nothing, as the input of a coinbase does.
pub fn is_coinbase_input(input: &TxInput) -> (r: bool)
    ensures
        r == spec_is_coinbase_input(*input),
{
    if input.previous_index != u32::MAX {
        return false;
    }
    let mut i: usize = 0;
    while i < 32
        invariant
            i <= 32,
            forall|k: int| 0 <= k < i ==> #[trigger] input.previous_txid@[k] == 0,
        decreases 32 - i,
    {
        if input.previous_txid[i] != 0 {
            return false;
        }
        i += 1;
    }
    true
}

/// The output that an input spends.
pub open spec fn spent_by(input: TxInput) -> UtxoId {
    UtxoId { transaction_id: input.previous_txid, output_index: input.previous_index as u64 }
}

/// The outputs that a list of inputs spends: one for every input that is no
/// coinbase input, in order.
pub open spec fn spent_of(inputs: Seq<TxInput>) -> Seq<UtxoId>
    decreases inputs.len(),
{
    if inputs.len() == 0 {
        Seq::empty()
    } else if spec_is_coinbase_input(inputs.last()) {
        spent_of(inputs.drop_last())
    } else {
        spent_of(inputs.drop_last()).push(spent_by(inputs.last()))
    }
}

/// The outputs that a list of outputs creates on a chain: one for every
/// output whose script pays to an address, in order, with its index in the
/// list.
pub open spec fn created_of(txid: [u8; 32], outputs: Seq<TxOutputModel>, network: Network) -> Seq<
    NewUtxoModel,
>
    decreases outputs.len(),
{
    if outputs.len() == 0 {
        Seq::empty()
    } else {
        let earlier = created_of(txid, outputs.drop_last(), network);
        match spec_address(outputs.last().script, network) {
            Some(address) => earlier.push(
                NewUtxoModel {
                    transaction_id: txid,
                    output_index: (outputs.len() - 1) as u64,
                    address,
                    value: outputs.last().value,
                },
            ),
            None => earlier,
        }
    }
}

/// The index of the one output that may hold a post: the first data carrier.
pub open spec fn designated(outputs: Seq<TxOutputModel>) -> Option<int>
    decreases outputs.len(),
{
    if outputs.len() == 0 {
        None
    } else {
        match designated(outputs.drop_last()) {
            Some(i) => Some(i),
            None => if spec_is_data_carrier(outputs.last().script) {
                Some(outputs.len() - 1)
            } else {
                None
            },
        }
    }
}

/// The post that a list of outputs carries: what the bytes of the designated
/// output say, where they begin with the magic marker and can be read.
pub open spec fn bork_of(outputs: Seq<TxOutputModel>, timestamp: i64) -> Option<BorkRecord> {
    match designated(outputs) {
        None => None,
        Some(i) => match spec_carried_data(outputs[i].script) {
            None => None,
            Some(data) => match spec_decode_chunk(data, timestamp) {
                Ok(record) => Some(record),
                Err(_) => None,
            },
        },
    }
}

/// Reads the post that a data carrier holds, if it holds one.
fn read_bork(script: &[u8], timestamp: i64) -> (r: Option<BorkTxData>)
    ensures
        bork_model(r) == match spec_carried_data(script@) {
            None => None,
            Some(data) => match spec_decode_chunk(data, timestamp) {
                Ok(record) => Some(record),
                Err(_) => None,
            },
        },
{
    match carried_data_start(script) {
        None => None,
        Some(start) => {
            let data = slice_subrange(script, start, script.len());
            match decode_chunk(data, timestamp) {
                Ok(bork) => Some(bork),
                Err(_) => None,
            }
        },
    }
}

/// Takes one transaction apart.
///
/// Gives the post that the transaction carries, if any; the outputs that it
/// spends, one for each input that is no coinbase input; and the outputs
/// that it creates, one for each output that pays to an address of the
/// chain. What the data carrier holds has no bearing on the other two.
pub fn parse_tx(tx: &RawTransaction, timestamp: i64, network: Network) -> (r: (
    Option<BorkTxData>,
    Vec<UtxoId>,
    Vec<NewUtxo>,
))
    ensures
        bork_model(r.0) == bork_of(tx@.outputs, timestamp),
        r.1@ == spent_of(tx@.inputs),
        utxo_models(r.2@) == created_of(tx@.txid, tx@.outputs, network),
{
    let mut spent: Vec<UtxoId> = Vec::new();
    let mut i: usize = 0;
    while i < tx.inputs.len()
        invariant
            i <= tx.inputs@.len(),
            spent@ == spent_of(tx.inputs@.take(i as int)),
        decreases tx.inputs@.len() - i,
    {
        let input = &tx.inputs[i];
        proof {
            assert(tx.inputs@.take(i + 1).drop_last() =~= tx.inputs@.take(i as int));
        }
        if !is_coinbase_input(input) {
            spent.push(
                UtxoId {
                    transaction_id: input.previous_txid,
                    output_index: input.previous_index as u64,
                },
            );
        }
        i += 1;
    }
    assert(tx.inputs@.take(i as int) =~= tx.inputs@);

    let ghost outputs = tx@.outputs;
    let mut created: Vec<NewUtxo> = Vec::new();
    let mut bork: Option<BorkTxData> = None;
    let mut seen_carrier = false;
    let mut j: usize = 0;
    while j < tx.outputs.len()
        invariant
            j <= tx.outputs@.len(),
            outputs == tx@.outputs,
            utxo_models(created@) == created_of(tx.txid, outputs.take(j as int), network),
            seen_carrier == designated(outputs.take(j as int)).is_some(),
            bork_model(bork) == bork_of(outputs.take(j as int), timestamp),
        decreases tx.outputs@.len() - j,
    {
        let output = &tx.outputs[j];
        let script = output.script.as_slice();
        proof {
            assert(outputs.take(j + 1).drop_last() =~= outputs.take(j as int));
            lemma_designated_in_range(outputs.take(j as int));
        }
        if !seen_carrier && is_data_carrier(script) {
            seen_carrier = true;
            bork = read_bork(script, timestamp);
        }
        match address(script, network) {
            Some(text) => {
                let utxo = NewUtxo {
                    transaction_id: tx.txid,
                    output_index: j as u64,
                    address: text,
                    value: output.value,
                };
                created.push(utxo);
            },
            None => {},
        }
        j += 1;
    }
    assert(outputs.take(j as int) =~= outputs);
    (bork, spent, created)
}

/// The designated output is one of the outputs.
pub proof fn lemma_designated_in_range(outputs: Seq<TxOutputModel>)
    ensures
        designated(outputs) matches Some(i) ==> 0 <= i < outputs.len(),
    decreases outputs.len(),
{
    if outputs.len() > 0 {
        lemma_designated_in_range(outputs.drop_last());
    }
}

} // verus!
