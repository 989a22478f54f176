//! What holds of every scan: how much is spent and created, where the post
//! of a transaction is looked for, what can make a scan fail, and where the
//! transactions of a block begin.

use vstd::prelude::*;
use crate::auxpow::{spec_auxpow_end, BRANCH_INDEX_LEN, HASH_LEN};
use crate::block::{
    aggregate, spec_block_frame, spec_scan_block, spec_scan_transactions, BlockModel,
};
use crate::consensus::{
    spec_has_auxpow, spec_header_at, spec_varint, transaction_frame, HEADER_LEN,
};
use crate::error::DecodeError;
use crate::network::Network;
use crate::parser::{bork_of, created_of, designated, spec_is_coinbase_input, spent_of};
use crate::protocol::reading::{spec_decode_chunk, spec_has_magic};
use crate::protocol::BorkRecord;
use crate::script::{spec_address, spec_carried_data, spec_is_data_carrier};
use crate::transaction::{TxInput, TxModel, TxOutputModel};

verus! {

/// The number of inputs that are no coinbase inputs.
pub open spec fn spending_inputs(inputs: Seq<TxInput>) -> nat {
    inputs.filter(|input: TxInput| !spec_is_coinbase_input(input)).len()
}

/// The number of outputs that pay to an address of the chain.
pub open spec fn payable_outputs(outputs: Seq<TxOutputModel>, network: Network) -> nat {
    outputs.filter(|output: TxOutputModel| spec_address(output.script, network) is Some).len()
}

/// The number of inputs, over all transactions, that are no coinbase inputs.
pub open spec fn total_spending_inputs(txs: Seq<TxModel>) -> nat
    decreases txs.len(),
{
    if txs.len() == 0 {
        0
    } else {
        total_spending_inputs(txs.drop_last()) + spending_inputs(txs.last().inputs)
    }
}

/// The number of outputs, over all transactions, that pay to an address of
/// the chain.
pub open spec fn total_payable_outputs(txs: Seq<TxModel>, network: Network) -> nat
    decreases txs.len(),
{
    if txs.len() == 0 {
        0
    } else {
        total_payable_outputs(txs.drop_last(), network) + payable_outputs(
            txs.last().outputs,
            network,
        )
    }
}

/// A transaction spends exactly as many outputs as it has inputs that are no
/// coinbase inputs.
pub proof fn lemma_spent_count(inputs: Seq<TxInput>)
    ensures
        spent_of(inputs).len() == spending_inputs(inputs),
    decreases inputs.len(),
{
    reveal(Seq::filter);
    if inputs.len() > 0 {
        lemma_spent_count(inputs.drop_last());
    }
}

/// A transaction creates exactly as many outputs as it has outputs that pay
/// to an address of the chain.
pub proof fn lemma_created_count(txid: [u8; 32], outputs: Seq<TxOutputModel>, network: Network)
    ensures
        created_of(txid, outputs, network).len() == payable_outputs(outputs, network),
    decreases outputs.len(),
{
    reveal(Seq::filter);
    if outputs.len() > 0 {
        lemma_created_count(txid, outputs.drop_last(), network);
    }
}

/// Over a list of transactions, as many outputs are spent as there are
/// inputs that are no coinbase inputs, and as many are created as there are
/// outputs that pay to an address of the chain.
pub proof fn lemma_block_counts(txs: Seq<TxModel>, timestamp: i64, network: Network)
    ensures
        aggregate(txs, timestamp, network).spent.len() == total_spending_inputs(txs),
        aggregate(txs, timestamp, network).created.len() == total_payable_outputs(txs, network),
    decreases txs.len(),
{
    if txs.len() > 0 {
        let tx = txs.last();
        lemma_block_counts(txs.drop_last(), timestamp, network);
        lemma_spent_count(tx.inputs);
        lemma_created_count(tx.txid, tx.outputs, network);
    }
}

/// A block that scans spends and creates exactly as many outputs as its
/// transactions have spending inputs and payable outputs.
pub proof fn lemma_scan_counts(data: Seq<u8>, network: Network)
    requires
        spec_scan_block(data, network) is Ok,
    ensures
        spec_block_frame(data, network) is Some,
        ({
            let block = spec_scan_block(data, network)->Ok_0;
            let txs = spec_block_frame(data, network).unwrap().1;
            &&& block.spent.len() == total_spending_inputs(txs)
            &&& block.created.len() == total_payable_outputs(txs, network)
        }),
{
    let (header, txs) = spec_block_frame(data, network)->0;
    lemma_block_counts(txs, header.time as i64, network);
}

/// A scan fails exactly where the frame of the block cannot be read, and
/// then as a failure of the framing. What the data carriers of the
/// transactions hold cannot make it fail.
pub proof fn lemma_only_framing_fails(data: Seq<u8>, network: Network)
    ensures
        spec_scan_block(data, network) is Ok <==> spec_block_frame(data, network) is Some,
        spec_scan_block(data, network) matches Err(e) ==> e == DecodeError::Framing,
{
}

/// The post of a transaction is looked for in one output alone, and a
/// transaction whose designated output carries no readable post still spends
/// and creates what its inputs and outputs say: adding it to a list leaves
/// the posts as they are and adds what it spends and creates.
pub proof fn lemma_unreadable_post(txs: Seq<TxModel>, tx: TxModel, timestamp: i64, network: Network)
    requires
        bork_of(tx.outputs, timestamp) is None,
    ensures
        aggregate(txs.push(tx), timestamp, network).borker_txs == aggregate(
            txs,
            timestamp,
            network,
        ).borker_txs,
        aggregate(txs.push(tx), timestamp, network).spent == aggregate(
            txs,
            timestamp,
            network,
        ).spent + spent_of(tx.inputs),
        aggregate(txs.push(tx), timestamp, network).created == aggregate(
            txs,
            timestamp,
            network,
        ).created + created_of(tx.txid, tx.outputs, network),
{
    assert(txs.push(tx).drop_last() =~= txs);
}

/// The designated output is the first data carrier: a data carrier that no
/// data carrier precedes.
pub proof fn lemma_designated_is_first(outputs: Seq<TxOutputModel>, i: int)
    ensures
        designated(outputs) == Some(i) <==> (0 <= i < outputs.len() && spec_is_data_carrier(
            outputs[i].script,
        ) && forall|k: int| 0 <= k < i ==> !spec_is_data_carrier(#[trigger] outputs[k].script)),
    decreases outputs.len(),
{
    if outputs.len() > 0 {
        let earlier = outputs.drop_last();
        assert forall|k: int| 0 <= k < earlier.len() implies earlier[k] == outputs[k] by {}
        lemma_designated_is_first(earlier, i);
        match designated(earlier) {
            Some(first) => {
                lemma_designated_is_first(earlier, first);
            },
            None => {
                assert forall|k: int| 0 <= k < earlier.len() implies !spec_is_data_carrier(
                    #[trigger] outputs[k].script,
                ) by {
                    lemma_no_designated(earlier, k);
                }
            },
        }
    }
}

/// Where no output is designated, no output is a data carrier.
pub proof fn lemma_no_designated(outputs: Seq<TxOutputModel>, k: int)
    requires
        designated(outputs) is None,
        0 <= k < outputs.len(),
    ensures
        !spec_is_data_carrier(outputs[k].script),
    decreases outputs.len(),
{
    if k < outputs.len() - 1 {
        lemma_no_designated(outputs.drop_last(), k);
    }
}

/// A transaction carries a post only if its designated output carries bytes
/// that begin with the magic marker and can be read; the post is then what
/// these bytes say.
pub proof fn lemma_post_needs_magic(outputs: Seq<TxOutputModel>, timestamp: i64)
    requires
        bork_of(outputs, timestamp) is Some,
    ensures
        designated(outputs) matches Some(i) && (spec_carried_data(outputs[i].script) matches Some(
            data,
        ) && spec_has_magic(data) && spec_decode_chunk(data, timestamp) == Ok::<
            BorkRecord,
            DecodeError,
        >(bork_of(outputs, timestamp)->0)),
{
}

/// Outputs whose designated output carries bytes that do not begin with the
/// magic marker carry no post.
pub proof fn lemma_wrong_magic(outputs: Seq<TxOutputModel>, timestamp: i64)
    requires
        designated(outputs) matches Some(i) && (spec_carried_data(outputs[i].script) matches Some(
            data,
        ) && !spec_has_magic(data)),
    ensures
        bork_of(outputs, timestamp) is None,
{
}

/// Outputs whose designated output carries bytes that cannot be read as a
/// post carry no post, whatever the reason.
pub proof fn lemma_malformed_payload(outputs: Seq<TxOutputModel>, timestamp: i64)
    requires
        designated(outputs) matches Some(i) && (spec_carried_data(outputs[i].script) matches Some(
            data,
        ) && spec_decode_chunk(data, timestamp) is Err),
    ensures
        bork_of(outputs, timestamp) is None,
{
}

/// How long merge-mining data is: as long as its coinbase transaction, a
/// hash, the two merkle branches (each a count, that many hashes, and an
/// index of four bytes) and a block header, and no byte more.
pub proof fn lemma_auxpow_length(data: Seq<u8>, pos: int)
    requires
        spec_auxpow_end(data, pos) is Some,
    ensures
        ({
            let coinbase = transaction_frame(data.skip(pos)).unwrap().1;
            let first = pos + coinbase + HASH_LEN;
            let (first_count, first_prefix) = spec_varint(data.skip(first)).unwrap();
            let second = first + first_prefix + HASH_LEN * first_count + BRANCH_INDEX_LEN;
            let (second_count, second_prefix) = spec_varint(data.skip(second)).unwrap();
            let parent = second + second_prefix + HASH_LEN * second_count + BRANCH_INDEX_LEN;
            &&& spec_auxpow_end(data, pos) == Some(parent + HEADER_LEN)
            &&& parent + HEADER_LEN <= data.len()
        }),
{
}

/// Where the transactions of a block are looked for. On a chain that is
/// mined together with a parent, in a block whose header announces
/// merge-mining data, the count of the transactions is read exactly where
/// that data ends; in every other block it is read right after the header.
pub proof fn lemma_count_position(data: Seq<u8>, network: Network)
    requires
        spec_header_at(data, 0) is Some,
    ensures
        ({
            let header = spec_header_at(data, 0).unwrap().0;
            let time = header.time as i64;
            if network.spec_merge_mined() && spec_has_auxpow(header.version) {
                match spec_auxpow_end(data, HEADER_LEN as int) {
                    Some(end) => spec_scan_block(data, network) == spec_scan_transactions(
                        data,
                        end,
                        time,
                        network,
                    ),
                    None => spec_scan_block(data, network) == Err::<BlockModel, DecodeError>(
                        DecodeError::Framing,
                    ),
                }
            } else {
                spec_scan_block(data, network) == spec_scan_transactions(
                    data,
                    HEADER_LEN as int,
                    time,
                    network,
                )
            }
        }),
{
}

} // verus!
