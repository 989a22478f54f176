//! A block, scanned: the posts it carries and the outputs its transactions
//! spend and create.

use vstd::prelude::*;
use crate::auxpow::{skip_auxpow, spec_skip_auxpow};
use crate::consensus::{
    read_header, read_transaction, read_varint, spec_header_at, spec_transaction_at,
    spec_varint_at, Header,
};
use crate::error::DecodeError;
use crate::hexadecimal::{parse_hex, spec_parse_hex};
use crate::network::Network;
use crate::parser::{
    bork_of, created_of, parse_tx, spent_of, utxo_models, NewUtxo, NewUtxoModel, UtxoId,
};
use crate::protocol::{BorkRecord, BorkTxData};
use crate::transaction::{tx_models, RawTransaction, TxModel};

verus! {

/// What a block holds for a reader of posts.
#[derive(Clone, Debug, PartialEq, Eq)]
pub struct BlockData {
    /// The posts, in the order of the transactions that carry them.
    pub borker_txs: Vec<BorkTxData>,
    /// The outputs that the transactions spend, in order.
    pub spent: Vec<UtxoId>,
    /// The outputs that the transactions create, in order.
    pub created: Vec<NewUtxo>,
}

/// The mathematical value of a [`BlockData`].
pub struct BlockModel {
    pub borker_txs: Seq<BorkRecord>,
    pub spent: Seq<UtxoId>,
    pub created: Seq<NewUtxoModel>,
}

/// The models of a sequence of posts.
pub open spec fn bork_models(borks: Seq<BorkTxData>) -> Seq<BorkRecord> {
    Seq::new(borks.len(), |i: int| borks[i]@)
}

impl View for BlockData {
    type V = BlockModel;

    open spec fn view(&self) -> BlockModel {
        BlockModel {
            borker_txs: bork_models(self.borker_txs@),
            spent: self.spent@,
            created: utxo_models(self.created@),
        }
    }
}

/// What a block holds before any transaction has been gathered.
pub open spec fn nothing() -> BlockModel {
    BlockModel { borker_txs: Seq::empty(), spent: Seq::empty(), created: Seq::empty() }
}

/// What a block holds once one more transaction has been gathered: the post
/// of the transaction, if it carries one, after the posts gathered before,
/// and what it spends and creates after what was spent and created before.
/// Nothing is set off between transactions.
pub open spec fn absorbed(
    block: BlockModel,
    tx: TxModel,
    timestamp: i64,
    network: Network,
) -> BlockModel {
    BlockModel {
        borker_txs: match bork_of(tx.outputs, timestamp) {
            Some(record) => block.borker_txs.push(record),
            None => block.borker_txs,
        },
        spent: block.spent + spent_of(tx.inputs),
        created: block.created + created_of(tx.txid, tx.outputs, network),
    }
}

/// What a list of transactions amounts to: each transaction gathered in
/// turn.
pub open spec fn aggregate(txs: Seq<TxModel>, timestamp: i64, network: Network) -> BlockModel
    decreases txs.len(),
{
    if txs.len() == 0 {
        nothing()
    } else {
        absorbed(aggregate(txs.drop_last(), timestamp, network), txs.last(), timestamp, network)
    }
}

impl BlockData {
    /// A block of which nothing has been gathered yet.
    pub fn new() -> (block: BlockData)
        ensures
            block@ == nothing(),
    {
        let block =
            BlockData { borker_txs: Vec::new(), spent: Vec::new(), created: Vec::new() };
        assert(block@.borker_txs =~= Seq::empty() && block@.created =~= Seq::empty());
        block
    }

    /// Gathers one more transaction, found in a block of the given time.
    pub fn absorb(&mut self, tx: &RawTransaction, timestamp: i64, network: Network)
        ensures
            final(self)@ == absorbed(old(self)@, tx@, timestamp, network),
    {
        let (bork, mut spent, mut created) = parse_tx(tx, timestamp, network);
        let ghost before = self@;
        let ghost made = utxo_models(created@);
        match bork {
            Some(bork) => {
                self.borker_txs.push(bork);
                assert(self@.borker_txs =~= before.borker_txs.push(bork@));
            },
            None => {},
        }
        self.spent.append(&mut spent);
        self.created.append(&mut created);
        assert(self@.created =~= before.created + made);
    }
}

/// Gathers what a list of transactions holds, in the order of the list.
pub fn gather(txs: &Vec<RawTransaction>, timestamp: i64, network: Network) -> (block: BlockData)
    ensures
        block@ == aggregate(tx_models(txs@), timestamp, network),
{
    let mut block = BlockData::new();
    let mut i: usize = 0;
    while i < txs.len()
        invariant
            i <= txs@.len(),
            block@ == aggregate(tx_models(txs@).take(i as int), timestamp, network),
        decreases txs@.len() - i,
    {
        proof {
            assert(tx_models(txs@).take(i + 1).drop_last() =~= tx_models(txs@).take(i as int));
        }
        block.absorb(&txs[i], timestamp, network);
        i += 1;
    }
    assert(tx_models(txs@).take(i as int) =~= tx_models(txs@));
    block
}

/// The `count` transactions that follow one another from `pos` on, and the
/// position after the last.
pub open spec fn spec_transactions(data: Seq<u8>, pos: int, count: nat) -> Option<
    (Seq<TxModel>, int),
>
    decreases count,
{
    if count == 0 {
        Some((Seq::empty(), pos))
    } else {
        match spec_transactions(data, pos, (count - 1) as nat) {
            None => None,
            Some((txs, next)) => match spec_transaction_at(data, next) {
                None => None,
                Some((tx, end)) => Some((txs.push(tx), end)),
            },
        }
    }
}

/// Where one transaction cannot be read, no larger number of them can.
pub proof fn lemma_transactions_stop(data: Seq<u8>, pos: int, read: nat, count: nat)
    requires
        read <= count,
        spec_transactions(data, pos, read) is None,
    ensures
        spec_transactions(data, pos, count) is None,
    decreases count,
{
    if read < count {
        lemma_transactions_stop(data, pos, read, (count - 1) as nat);
    }
}

/// The transactions of a block, from the position of their count on: the
/// count, then that many transactions.
pub open spec fn spec_transaction_list(data: Seq<u8>, pos: int) -> Option<Seq<TxModel>> {
    match spec_varint_at(data, pos) {
        None => None,
        Some((count, first)) => match spec_transactions(data, first, count as nat) {
            None => None,
            Some((txs, _)) => Some(txs),
        },
    }
}

/// Reads the transactions of a block, from the position of their count on.
///
/// Fails where the count or one of the transactions cannot be read.
pub fn read_transactions(data: &[u8], pos: usize) -> (r: Result<
    Vec<RawTransaction>,
    DecodeError,
>)
    ensures
        match r {
            Ok(txs) => spec_transaction_list(data@, pos as int) == Some(tx_models(txs@)),
            Err(e) => e == DecodeError::Framing && spec_transaction_list(data@, pos as int)
                is None,
        },
{
    let (count, first) = match read_varint(data, pos) {
        Ok(found) => found,
        Err(e) => {
            return Err(e);
        },
    };
    let mut txs: Vec<RawTransaction> = Vec::new();
    let mut at: usize = first;
    let mut read: u64 = 0;
    while read < count
        invariant
            read <= count,
            spec_varint_at(data@, pos as int) == Some((count, first as int)),
            spec_transactions(data@, first as int, read as nat) == Some(
                (tx_models(txs@), at as int),
            ),
        decreases count - read,
    {
        let (tx, next) = match read_transaction(data, at) {
            Ok(found) => found,
            Err(e) => {
                proof {
                    lemma_transactions_stop(data@, first as int, (read + 1) as nat, count as nat);
                }
                return Err(e);
            },
        };
        txs.push(tx);
        at = next;
        read += 1;
    }
    Ok(txs)
}

/// What the transactions of a block amount to, from the position of their
/// count on.
pub open spec fn spec_scan_transactions(
    data: Seq<u8>,
    pos: int,
    timestamp: i64,
    network: Network,
) -> Result<BlockModel, DecodeError> {
    match spec_transaction_list(data, pos) {
        None => Err(DecodeError::Framing),
        Some(txs) => Ok(aggregate(txs, timestamp, network)),
    }
}

/// Reads the transactions of a block, from the position of their count on,
/// and gathers what they hold.
///
/// Fails, with nothing gathered, where the count or one of the transactions
/// cannot be read. What the data carriers hold never makes it fail.
pub fn scan_transactions(data: &[u8], pos: usize, timestamp: i64, network: Network) -> (r: Result<
    BlockData,
    DecodeError,
>)
    ensures
        match r {
            Ok(block) => spec_scan_transactions(data@, pos as int, timestamp, network) == Ok::<
                BlockModel,
                DecodeError,
            >(block@),
            Err(e) => spec_scan_transactions(data@, pos as int, timestamp, network) == Err::<
                BlockModel,
                DecodeError,
            >(e),
        },
{
    match read_transactions(data, pos) {
        Ok(txs) => Ok(gather(&txs, timestamp, network)),
        Err(e) => Err(e),
    }
}

/// The frame of a serialized block: its header and its transactions. The
/// transactions stand after the header and, on chains that have it, the
/// merge-mining data.
pub open spec fn spec_block_frame(data: Seq<u8>, network: Network) -> Option<
    (Header, Seq<TxModel>),
> {
    match spec_header_at(data, 0) {
        None => None,
        Some((header, after_header)) => match spec_skip_auxpow(
            data,
            after_header,
            header.version,
            network,
        ) {
            None => None,
            Some(count_at) => match spec_transaction_list(data, count_at) {
                None => None,
                Some(txs) => Some((header, txs)),
            },
        },
    }
}

/// What a serialized block amounts to: what its transactions hold, the
/// posts dated by the time of the header.
pub open spec fn spec_scan_block(data: Seq<u8>, network: Network) -> Result<
    BlockModel,
    DecodeError,
> {
    match spec_block_frame(data, network) {
        None => Err(DecodeError::Framing),
        Some((header, txs)) => Ok(aggregate(txs, header.time as i64, network)),
    }
}

/// Scans a serialized block.
///
/// Fails, with nothing gathered, where the framing of the block is malformed
/// or ends too early: the header, the merge-mining data, the count of the
/// transactions, or one of the transactions.
pub fn scan_block(data: &[u8], network: Network) -> (r: Result<BlockData, DecodeError>)
    ensures
        match r {
            Ok(block) => spec_scan_block(data@, network) == Ok::<BlockModel, DecodeError>(block@),
            Err(e) => spec_scan_block(data@, network) == Err::<BlockModel, DecodeError>(e),
        },
{
    let (header, after_header) = match read_header(data, 0) {
        Ok(found) => found,
        Err(e) => {
            return Err(e);
        },
    };
    let count_at = match skip_auxpow(data, after_header, header.version, network) {
        Ok(next) => next,
        Err(e) => {
            return Err(e);
        },
    };
    scan_transactions(data, count_at, header.time as i64, network)
}

/// Scans a serialized block and hands what it holds to `process`.
///
/// Gives what `process` gives, or the reason why the block cannot be read;
/// `process` is not called for a block that cannot be read.
pub fn process_block<T, F: FnOnce(&BlockData) -> T>(
    data: &[u8],
    network: Network,
    process: F,
) -> (r: Result<T, DecodeError>)
    requires
        forall|block: &BlockData| call_requires(process, (block,)),
    ensures
        match r {
            Ok(value) => exists|block: &BlockData|
                spec_scan_block(data@, network) == Ok::<BlockModel, DecodeError>(block@)
                    && call_ensures(process, (block,), value),
            Err(e) => spec_scan_block(data@, network) == Err::<BlockModel, DecodeError>(e),
        },
{
    match scan_block(data, network) {
        Ok(block) => Ok(process(&block)),
        Err(e) => Err(e),
    }
}

/// What a block given as hexadecimal text amounts to.
pub open spec fn spec_scan_hex(block: Seq<char>, network: Network) -> Result<
    BlockModel,
    DecodeError,
> {
    match spec_parse_hex(block) {
        Err(e) => Err(e),
        Ok(data) => spec_scan_block(data, network),
    }
}

/// Scans a serialized block given as hexadecimal text and hands what it
/// holds to `process`.
///
/// Gives what `process` gives, or the reason why the block cannot be read;
/// `process` is not called for a block that cannot be read.
#[allow(non_snake_case)]
pub fn processBlock<T, F: FnOnce(&BlockData) -> T>(
    block: String,
    network: Network,
    process: F,
) -> (r: Result<T, DecodeError>)
    requires
        forall|data: &BlockData| call_requires(process, (data,)),
    ensures
        match r {
            Ok(value) => exists|data: &BlockData|
                spec_scan_hex(block@, network) == Ok::<BlockModel, DecodeError>(data@)
                    && call_ensures(process, (data,), value),
            Err(e) => spec_scan_hex(block@, network) == Err::<BlockModel, DecodeError>(e),
        },
{
    match parse_hex(block.as_str()) {
        Ok(data) => process_block(data.as_slice(), network, process),
        Err(e) => Err(e),
    }
}

} // verus!
