//! The merge-mining data that follows the header of some blocks.
//!
//! Chains that are mined together with a parent chain put, between the
//! header and the transactions of a block, the proof that the work was done
//! on the parent: the coinbase transaction of the parent block, the hash of
//! that block, two merkle branches, and the header of the parent block.
//! Nothing of it is checked here; it is stepped over.

use vstd::prelude::*;
use crate::consensus::{
    has_auxpow, read_header, read_varint, skip_transaction, spec_has_auxpow, spec_header_at,
    spec_transaction_at, spec_varint_at,
};
use crate::error::DecodeError;
use crate::network::Network;

verus! {

/// The number of bytes of a hash.
pub const HASH_LEN: usize = 32;

/// The number of bytes of the index that follows a merkle branch.
pub const BRANCH_INDEX_LEN: usize = 4;

/// Where the merkle branch at `pos` ends: after a length-prefixed count, that
/// many hashes, and the index.
pub open spec fn spec_branch_end(data: Seq<u8>, pos: int) -> Option<int> {
    match spec_varint_at(data, pos) {
        None => None,
        Some((count, hashes)) => {
            let end = hashes + HASH_LEN * count + BRANCH_INDEX_LEN;
            if end <= data.len() {
                Some(end)
            } else {
                None
            }
        },
    }
}

/// Steps over the merkle branch at `pos`.
pub fn skip_branch(data: &[u8], pos: usize) -> (r: Result<usize, DecodeError>)
    ensures
        match r {
            Ok(next) => spec_branch_end(data@, pos as int) == Some(next as int) && pos <= next
                <= data@.len(),
            Err(e) => e == DecodeError::Framing && spec_branch_end(data@, pos as int) is None,
        },
{
    let (count, hashes) = match read_varint(data, pos) {
        Ok(found) => found,
        Err(e) => {
            return Err(e);
        },
    };
    let left = data.len() - hashes;
    if left < BRANCH_INDEX_LEN {
        return Err(DecodeError::Framing);
    }
    let room = (left - BRANCH_INDEX_LEN) / HASH_LEN;
    if count > room as u64 {
        return Err(DecodeError::Framing);
    }
    Ok(hashes + HASH_LEN * (count as usize) + BRANCH_INDEX_LEN)
}

/// Where the merge-mining data at `pos` ends: after a transaction, a hash,
/// two merkle branches and a block header.
pub open spec fn spec_auxpow_end(data: Seq<u8>, pos: int) -> Option<int> {
    match spec_transaction_at(data, pos) {
        None => None,
        Some((_, hash)) => if hash + HASH_LEN > data.len() {
            None
        } else {
            match spec_branch_end(data, hash + HASH_LEN) {
                None => None,
                Some(second) => match spec_branch_end(data, second) {
                    None => None,
                    Some(parent) => match spec_header_at(data, parent) {
                        None => None,
                        Some((_, end)) => Some(end),
                    },
                },
            }
        },
    }
}

/// Where the transactions of a block begin, given where its header ends:
/// after the merge-mining data, where the chain is mined together with a
/// parent and the version of the header announces the data; else at once.
pub open spec fn spec_skip_auxpow(
    data: Seq<u8>,
    pos: int,
    version: i32,
    network: Network,
) -> Option<int> {
    if network.spec_merge_mined() && spec_has_auxpow(version) {
        spec_auxpow_end(data, pos)
    } else {
        Some(pos)
    }
}

/// Steps over the merge-mining data of a block, if it has any.
///
/// `pos` is the position after the header of the block and `version` the
/// version of that header. Fails where the data is malformed or would reach
/// past the end of the block.
pub fn skip_auxpow(data: &[u8], pos: usize, version: i32, network: Network) -> (r: Result<
    usize,
    DecodeError,
>)
    ensures
        match r {
            Ok(next) => spec_skip_auxpow(data@, pos as int, version, network) == Some(next as int)
                && pos <= next,
            Err(e) => e == DecodeError::Framing && spec_skip_auxpow(
                data@,
                pos as int,
                version,
                network,
            ) is None,
        },
{
    if !(network.merge_mined() && has_auxpow(version)) {
        return Ok(pos);
    }
    let hash = match skip_transaction(data, pos) {
        Ok(next) => next,
        Err(e) => {
            return Err(e);
        },
    };
    if data.len() - hash < HASH_LEN {
        return Err(DecodeError::Framing);
    }
    let second = match skip_branch(data, hash + HASH_LEN) {
        Ok(next) => next,
        Err(e) => {
            return Err(e);
        },
    };
    let parent = match skip_branch(data, second) {
        Ok(next) => next,
        Err(e) => {
            return Err(e);
        },
    };
    match read_header(data, parent) {
        Ok((_, end)) => Ok(end),
        Err(e) => Err(e),
    }
}

} // verus!
