//! Consensus framing, read with the `bitcoin` crate.
//!
//! The decoders of that crate are called through small trusted functions;
//! everything built on them is verified against the contracts stated here.

use vstd::prelude::*;
use vstd::slice::slice_subrange;
use crate::error::DecodeError;
use crate::transaction::{RawTransaction, TxInput, TxModel, TxOutput, output_models};

verus! {

/// `bitcoin::Transaction`, carried from the decoder to the functions that
/// read it. Nothing of what it holds is seen here; see
/// [`transaction_content`].
#[verifier::external_type_specification]
#[verifier::external_body]
pub struct ExTransaction(bitcoin::Transaction);

/// The number of bytes of a serialized block header.
pub const HEADER_LEN: usize = 80;

/// The two bytes at `at`, read as a little-endian number.
pub open spec fn le16(data: Seq<u8>, at: int) -> int {
    data[at] as int + 0x100 * (data[at + 1] as int)
}

/// The four bytes at `at`, read as a little-endian number.
pub open spec fn le32(data: Seq<u8>, at: int) -> int {
    le16(data, at) + 0x1_0000 * le16(data, at + 2)
}

/// The eight bytes at `at`, read as a little-endian number.
pub open spec fn le64(data: Seq<u8>, at: int) -> int {
    le32(data, at) + 0x1_0000_0000 * le32(data, at + 4)
}

/// What the scan reads of a block header.
#[derive(Clone, Copy, Debug, PartialEq, Eq, Structural)]
pub struct Header {
    /// The version field, whose bits signal features of the block.
    pub version: i32,
    /// The time the miner claims, in seconds since the Unix epoch.
    pub time: u32,
}

/// The signed value of thirty-two bits given as an unsigned number.
pub open spec fn twos_complement32(bits: int) -> int {
    if bits < 0x8000_0000 {
        bits
    } else {
        bits - 0x1_0000_0000
    }
}

/// The header that the first eighty bytes of `data` encode, if it has that many.
pub open spec fn spec_header(data: Seq<u8>) -> Option<Header> {
    if data.len() >= HEADER_LEN {
        Some(
            Header {
                version: twos_complement32(le32(data, 0)) as i32,
                time: le32(data, 68) as u32,
            },
        )
    } else {
        None
    }
}

/// `bitcoin::consensus::encode::deserialize_partial` at `bitcoin::BlockHeader`.
///
/// The claim: decoding succeeds exactly when at least eighty bytes are given,
/// it consumes eighty, and version and time are the little-endian fields at
/// offsets 0 and 68.
#[verifier::external_body]
fn decode_header(data: &[u8]) -> (r: Option<(Header, usize)>)
    ensures
        match r {
            Some((header, used)) => spec_header(data@) == Some(header) && used == HEADER_LEN,
            None => spec_header(data@) is None,
        },
{
    match bitcoin::consensus::encode::deserialize_partial::<bitcoin::BlockHeader>(data) {
        Ok((h, used)) => Some((Header { version: h.version, time: h.time }, used)),
        Err(_) => None,
    }
}

/// The block header at `pos` and the position after it.
pub open spec fn spec_header_at(data: Seq<u8>, pos: int) -> Option<(Header, int)> {
    if 0 <= pos <= data.len() {
        match spec_header(data.skip(pos)) {
            Some(header) => Some((header, pos + HEADER_LEN)),
            None => None,
        }
    } else {
        None
    }
}

/// Reads a block header at `pos`; on success also gives the position after
/// it. Fails where fewer than eighty bytes follow `pos`.
pub fn read_header(data: &[u8], pos: usize) -> (r: Result<(Header, usize), DecodeError>)
    ensures
        match r {
            Ok((header, next)) => spec_header_at(data@, pos as int) == Some((header, next as int))
                && next <= data@.len(),
            Err(e) => e == DecodeError::Framing && spec_header_at(data@, pos as int) is None,
        },
{
    if pos > data.len() {
        return Err(DecodeError::Framing);
    }
    let rest = slice_subrange(data, pos, data.len());
    match decode_header(rest) {
        Some((header, used)) => Ok((header, pos + used)),
        None => Err(DecodeError::Framing),
    }
}

/// Whether a header's version announces merge-mining data after the header.
pub open spec fn spec_has_auxpow(version: i32) -> bool {
    version & 0x100 != 0
}

/// Whether a header's version announces merge-mining data after the header.
#[verifier::when_used_as_spec(spec_has_auxpow)]
pub fn has_auxpow(version: i32) -> (r: bool)
    ensures
        r == spec_has_auxpow(version),
{
    version & 0x100 != 0
}

/// The length-prefixed integer at the start of `data`, with the number of
/// bytes it takes: one byte below `0xFD`, or a marker byte followed by two,
/// four or eight little-endian bytes. An integer written longer than needed
/// is refused.
pub open spec fn spec_varint(data: Seq<u8>) -> Option<(u64, nat)> {
    if data.len() < 1 {
        None
    } else if data[0] < 0xFD {
        Some((data[0] as u64, 1))
    } else if data[0] == 0xFD {
        if data.len() >= 3 && le16(data, 1) >= 0xFD {
            Some((le16(data, 1) as u64, 3))
        } else {
            None
        }
    } else if data[0] == 0xFE {
        if data.len() >= 5 && le32(data, 1) >= 0x1_0000 {
            Some((le32(data, 1) as u64, 5))
        } else {
            None
        }
    } else {
        if data.len() >= 9 && le64(data, 1) >= 0x1_0000_0000 {
            Some((le64(data, 1) as u64, 9))
        } else {
            None
        }
    }
}

/// `bitcoin::consensus::encode::deserialize_partial` at `bitcoin::VarInt`.
///
/// The claim: the decoder accepts exactly the minimally written
/// length-prefixed integers, and reports the value and the bytes consumed.
#[verifier::external_body]
fn decode_varint(data: &[u8]) -> (r: Option<(u64, usize)>)
    ensures
        match r {
            Some((value, used)) => spec_varint(data@) == Some((value, used as nat)),
            None => spec_varint(data@) is None,
        },
{
    match bitcoin::consensus::encode::deserialize_partial::<bitcoin::VarInt>(data) {
        Ok((v, used)) => Some((v.0, used)),
        Err(_) => None,
    }
}

/// The length-prefixed integer at `pos` and the position after it.
pub open spec fn spec_varint_at(data: Seq<u8>, pos: int) -> Option<(u64, int)> {
    if 0 <= pos <= data.len() {
        match spec_varint(data.skip(pos)) {
            Some((value, used)) => Some((value, pos + used)),
            None => None,
        }
    } else {
        None
    }
}

/// Reads a length-prefixed integer at `pos`; on success also gives the
/// position after it. Fails where the bytes from `pos` on do not begin with
/// such an integer.
pub fn read_varint(data: &[u8], pos: usize) -> (r: Result<(u64, usize), DecodeError>)
    ensures
        match r {
            Ok((value, next)) => spec_varint_at(data@, pos as int) == Some((value, next as int))
                && pos < next <= data@.len(),
            Err(e) => e == DecodeError::Framing && spec_varint_at(data@, pos as int) is None,
        },
{
    if pos > data.len() {
        return Err(DecodeError::Framing);
    }
    let rest = slice_subrange(data, pos, data.len());
    match decode_varint(rest) {
        Some((value, used)) => Ok((value, pos + used)),
        None => Err(DecodeError::Framing),
    }
}

/// What a decoded `bitcoin::Transaction` holds: its id, and of each input
/// and output what the scan reads.
pub uninterp spec fn transaction_content(tx: bitcoin::Transaction) -> TxModel;

/// What decoding a transaction from the start of `data` gives: the content of
/// the transaction and the number of bytes consumed, or nothing where the
/// decoder refuses the bytes.
pub uninterp spec fn transaction_frame(data: Seq<u8>) -> Option<(TxModel, nat)>;

/// `bitcoin::consensus::encode::deserialize_partial` at `bitcoin::Transaction`.
///
/// The claim: the outcome depends on the bytes alone, and the bytes consumed
/// lie within the slice.
#[verifier::external_body]
fn decode_transaction(data: &[u8]) -> (r: Option<(bitcoin::Transaction, usize)>)
    ensures
        match r {
            Some((tx, used)) => transaction_frame(data@) == Some(
                (transaction_content(tx), used as nat),
            ) && used <= data@.len(),
            None => transaction_frame(data@) is None,
        },
{
    match bitcoin::consensus::encode::deserialize_partial::<bitcoin::Transaction>(data) {
        Ok(found) => Some(found),
        Err(_) => None,
    }
}

/// `bitcoin::Transaction::txid`: the id, as the thirty-two bytes of the hash.
#[verifier::external_body]
fn transaction_id(tx: &bitcoin::Transaction) -> (id: [u8; 32])
    ensures
        id == transaction_content(*tx).txid,
{
    bitcoin::hashes::Hash::into_inner(tx.txid())
}

/// The length of the field `input` of a `bitcoin::Transaction`.
#[verifier::external_body]
fn input_count(tx: &bitcoin::Transaction) -> (n: usize)
    ensures
        n == transaction_content(*tx).inputs.len(),
{
    tx.input.len()
}

/// The previous output named by one element of the field `input` of a
/// `bitcoin::Transaction`.
#[verifier::external_body]
fn input_at(tx: &bitcoin::Transaction, i: usize) -> (input: TxInput)
    requires
        i < transaction_content(*tx).inputs.len(),
    ensures
        input == transaction_content(*tx).inputs[i as int],
{
    let previous = &tx.input[i].previous_output;
    TxInput {
        previous_txid: bitcoin::hashes::Hash::into_inner(previous.txid),
        previous_index: previous.vout,
    }
}

/// The length of the field `output` of a `bitcoin::Transaction`.
#[verifier::external_body]
fn output_count(tx: &bitcoin::Transaction) -> (n: usize)
    ensures
        n == transaction_content(*tx).outputs.len(),
{
    tx.output.len()
}

/// The value and the script bytes (`bitcoin::Script::to_bytes`) of one
/// element of the field `output` of a `bitcoin::Transaction`.
#[verifier::external_body]
fn output_at(tx: &bitcoin::Transaction, i: usize) -> (output: TxOutput)
    requires
        i < transaction_content(*tx).outputs.len(),
    ensures
        output@ == transaction_content(*tx).outputs[i as int],
{
    let out = &tx.output[i];
    TxOutput { value: out.value, script: out.script_pubkey.to_bytes() }
}

/// Copies out of a decoded transaction what the scan reads of it.
fn extract(tx: &bitcoin::Transaction) -> (raw: RawTransaction)
    ensures
        raw@ == transaction_content(*tx),
{
    let txid = transaction_id(tx);
    let n_in = input_count(tx);
    let mut inputs: Vec<TxInput> = Vec::new();
    let mut i: usize = 0;
    while i < n_in
        invariant
            i <= n_in,
            n_in == transaction_content(*tx).inputs.len(),
            inputs@ == transaction_content(*tx).inputs.take(i as int),
        decreases n_in - i,
    {
        inputs.push(input_at(tx, i));
        i += 1;
    }
    assert(inputs@ =~= transaction_content(*tx).inputs);
    let n_out = output_count(tx);
    let mut outputs: Vec<TxOutput> = Vec::new();
    let mut j: usize = 0;
    while j < n_out
        invariant
            j <= n_out,
            n_out == transaction_content(*tx).outputs.len(),
            outputs@.len() == j,
            forall|k: int|
                0 <= k < j ==> (#[trigger] outputs@[k])@ == transaction_content(*tx).outputs[k],
        decreases n_out - j,
    {
        outputs.push(output_at(tx, j));
        j += 1;
    }
    assert(output_models(outputs@) =~= transaction_content(*tx).outputs);
    RawTransaction { txid, inputs, outputs }
}

/// The transaction at `pos` and the position after it.
pub open spec fn spec_transaction_at(data: Seq<u8>, pos: int) -> Option<(TxModel, int)> {
    if 0 <= pos <= data.len() {
        match transaction_frame(data.skip(pos)) {
            Some((tx, used)) => Some((tx, pos + used)),
            None => None,
        }
    } else {
        None
    }
}

/// Finds where the transaction at `pos` ends, without keeping what it holds.
/// Fails where the bytes from `pos` on do not begin with a transaction.
pub fn skip_transaction(data: &[u8], pos: usize) -> (r: Result<usize, DecodeError>)
    ensures
        match r {
            Ok(next) => spec_transaction_at(data@, pos as int) matches Some((_, end)) && end
                == next && pos <= next <= data@.len(),
            Err(e) => e == DecodeError::Framing && spec_transaction_at(data@, pos as int) is None,
        },
{
    if pos > data.len() {
        return Err(DecodeError::Framing);
    }
    let rest = slice_subrange(data, pos, data.len());
    match decode_transaction(rest) {
        Some((_, used)) => Ok(pos + used),
        None => Err(DecodeError::Framing),
    }
}

/// Reads a transaction at `pos`; on success also gives the position after
/// it. Fails where the bytes from `pos` on do not begin with a transaction.
pub fn read_transaction(data: &[u8], pos: usize) -> (r: Result<
    (RawTransaction, usize),
    DecodeError,
>)
    ensures
        match r {
            Ok((tx, next)) => spec_transaction_at(data@, pos as int) == Some((tx@, next as int))
                && pos <= next <= data@.len(),
            Err(e) => e == DecodeError::Framing && spec_transaction_at(data@, pos as int) is None,
        },
{
    if pos > data.len() {
        return Err(DecodeError::Framing);
    }
    let rest = slice_subrange(data, pos, data.len());
    match decode_transaction(rest) {
        Some((tx, used)) => Ok((extract(&tx), pos + used)),
        None => Err(DecodeError::Framing),
    }
}

} // verus!
