//! Reading and writing "borks": short social posts carried in the data
//! outputs of the transactions of a UTXO blockchain.
//!
//! Reading starts from a serialized block ([`process_block`], [`scan_block`])
//! and gives the posts of the block together with the outputs that its
//! transactions spend and create. Writing starts from a [`NewBork`] and gives
//! the chunks to put into data outputs ([`encode`]).

use vstd::prelude::*;

pub mod auxpow;
pub mod block;
pub mod consensus;
pub mod error;
pub mod guarantees;
pub mod hexadecimal;
pub mod network;
pub mod parser;
pub mod protocol;
pub mod script;
pub mod transaction;

pub use block::{
    gather, processBlock, process_block, read_transactions, scan_block, scan_transactions,
    BlockData,
};
pub use error::{DecodeError, EncodeError};
pub use network::{network_from_selector, Network, UnsupportedNetworkError};
pub use parser::{parse_tx, NewUtxo, UtxoId};
pub use protocol::{
    decode, decode_chunk, decode_chunks, encode, reassemble, BorkTxData, BorkType, NewBork,
    Profile, MAGIC,
};
pub use transaction::{RawTransaction, TxInput, TxOutput};

verus! {

/// A payment to be made: an address and an amount.
#[derive(Clone, Debug, PartialEq, Eq)]
pub struct Output {
    address: String,
    value: u64,
}

impl View for Output {
    type V = (Seq<char>, u64);

    closed spec fn view(&self) -> (Seq<char>, u64) {
        (self.address@, self.value)
    }
}

impl Output {
    /// A payment of `value` to `address`.
    pub fn new(address: String, value: u64) -> (output: Output)
        ensures
            output@ == (address@, value),
    {
        Output { address, value }
    }

    /// The address and the amount.
    pub fn as_tup(&self) -> (r: (&str, u64))
        ensures
            (r.0@, r.1) == self@,
    {
        (self.address.as_str(), self.value)
    }
}

} // verus!
