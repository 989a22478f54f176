//! From bytes to posts.

use vstd::prelude::*;
use vstd::slice::{slice_subrange, slice_to_vec};
use vstd::utf8::{decode_utf8, encode_utf8, valid_utf8};
use crate::error::DecodeError;
use crate::protocol::buffers::{join, views};
use crate::protocol::{
    BorkRecord, BorkTxData, BorkType, MAGIC, MAGIC_LEN, PREAMBLE_LEN, REFERENCE_ID_LEN,
};

verus! {

/// `String::from_utf8` of the standard library.
///
/// The claim: the bytes are accepted exactly when they are valid UTF-8, and
/// the string then consists of these bytes.
#[verifier::external_body]
fn string_from_utf8(bytes: Vec<u8>) -> (r: Option<String>)
    ensures
        r is Some <==> valid_utf8(bytes@),
        r matches Some(s) ==> encode_utf8(s@) == bytes@,
{
    match String::from_utf8(bytes) {
        Ok(s) => Some(s),
        Err(_) => None,
    }
}

/// What a payload (a chunk without its magic marker, or the reassembled
/// chunks of a post) says.
pub open spec fn spec_decode(payload: Seq<u8>, timestamp: i64) -> Result<BorkRecord, DecodeError> {
    if payload.len() < PREAMBLE_LEN {
        Err(DecodeError::Truncated)
    } else {
        match BorkType::spec_from_tag(payload[0]) {
            None => Err(DecodeError::UnrecognizedType),
            Some(kind) => {
                let start = PREAMBLE_LEN + kind.spec_fixed_len();
                if payload.len() < start {
                    Err(DecodeError::Truncated)
                } else if !valid_utf8(payload.skip(start as int)) {
                    Err(DecodeError::InvalidUtf8)
                } else {
                    Ok(
                        BorkRecord {
                            bork_type: kind,
                            content: Some(decode_utf8(payload.skip(start as int))),
                            nonce: Some(payload[1]),
                            reference_id: if kind.refers() {
                                Some(payload.subrange(PREAMBLE_LEN as int, start as int))
                            } else {
                                None
                            },
                            index: if kind == BorkType::Extension {
                                Some(payload[PREAMBLE_LEN as int])
                            } else {
                                None
                            },
                            timestamp,
                        },
                    )
                }
            },
        }
    }
}

/// Copies the reference id that starts at `at`.
fn copy_reference(data: &[u8], at: usize) -> (id: [u8; 32])
    requires
        at + REFERENCE_ID_LEN <= data@.len(),
    ensures
        id@ == data@.subrange(at as int, at + REFERENCE_ID_LEN),
{
    let mut id = [0u8; 32];
    let len = data.len();
    let mut i: usize = 0;
    while i < REFERENCE_ID_LEN
        invariant
            i <= REFERENCE_ID_LEN,
            len == data@.len(),
            at + REFERENCE_ID_LEN <= len,
            forall|k: int| 0 <= k < i ==> id@[k] == data@[at + k],
        decreases REFERENCE_ID_LEN - i,
    {
        id[i] = data[at + i];
        i += 1;
    }
    id
}

/// Reads a payload: the type tag, the nonce, the fixed fields of the type,
/// and the content, which must be UTF-8.
pub fn decode(payload: &[u8], timestamp: i64) -> (r: Result<BorkTxData, DecodeError>)
    ensures
        match r {
            Ok(bork) => spec_decode(payload@, timestamp) == Ok::<BorkRecord, DecodeError>(bork@),
            Err(e) => spec_decode(payload@, timestamp) == Err::<BorkRecord, DecodeError>(e),
        },
{
    if payload.len() < PREAMBLE_LEN {
        return Err(DecodeError::Truncated);
    }
    let kind = match BorkType::from_tag(payload[0]) {
        Some(kind) => kind,
        None => {
            return Err(DecodeError::UnrecognizedType);
        },
    };
    let start = PREAMBLE_LEN + kind.fixed_len();
    if payload.len() < start {
        return Err(DecodeError::Truncated);
    }
    let bytes = slice_to_vec(slice_subrange(payload, start, payload.len()));
    let content = match string_from_utf8(bytes) {
        Some(content) => content,
        None => {
            return Err(DecodeError::InvalidUtf8);
        },
    };
    proof {
        vstd::utf8::encode_utf8_decode_utf8(content@);
    }
    let reference_id = match kind {
        BorkType::Comment | BorkType::Rebork => Some(copy_reference(payload, PREAMBLE_LEN)),
        _ => None,
    };
    let index = match kind {
        BorkType::Extension => Some(payload[PREAMBLE_LEN]),
        _ => None,
    };
    Ok(
        BorkTxData {
            bork_type: kind,
            content: Some(content),
            nonce: Some(payload[1]),
            reference_id,
            index,
            timestamp,
        },
    )
}

/// Whether a chunk begins with the magic marker.
pub open spec fn spec_has_magic(chunk: Seq<u8>) -> bool {
    chunk.len() >= MAGIC_LEN && chunk[0] == MAGIC[0] && chunk[1] == MAGIC[1]
}

/// Whether a chunk begins with the magic marker.
pub fn has_magic(chunk: &[u8]) -> (r: bool)
    ensures
        r == spec_has_magic(chunk@),
{
    chunk.len() >= MAGIC_LEN && chunk[0] == MAGIC[0] && chunk[1] == MAGIC[1]
}

/// What a single chunk says, read on its own.
pub open spec fn spec_decode_chunk(chunk: Seq<u8>, timestamp: i64) -> Result<
    BorkRecord,
    DecodeError,
> {
    if spec_has_magic(chunk) {
        spec_decode(chunk.skip(MAGIC_LEN as int), timestamp)
    } else {
        Err(DecodeError::UnrecognizedMagic)
    }
}

/// Reads a single chunk on its own: the magic marker, then the payload.
pub fn decode_chunk(chunk: &[u8], timestamp: i64) -> (r: Result<BorkTxData, DecodeError>)
    ensures
        match r {
            Ok(bork) => spec_decode_chunk(chunk@, timestamp) == Ok::<BorkRecord, DecodeError>(
                bork@,
            ),
            Err(e) => spec_decode_chunk(chunk@, timestamp) == Err::<BorkRecord, DecodeError>(e),
        },
{
    if !has_magic(chunk) {
        return Err(DecodeError::UnrecognizedMagic);
    }
    let payload = slice_subrange(chunk, MAGIC_LEN, chunk.len());
    decode(payload, timestamp)
}

/// The length of the header of a chunk: the magic marker, the type tag, the
/// nonce and the fixed fields of the type.
pub open spec fn spec_header_len(chunk: Seq<u8>) -> Result<nat, DecodeError> {
    if !spec_has_magic(chunk) {
        Err(DecodeError::UnrecognizedMagic)
    } else if chunk.len() < MAGIC_LEN + PREAMBLE_LEN {
        Err(DecodeError::Truncated)
    } else {
        match BorkType::spec_from_tag(chunk[MAGIC_LEN as int]) {
            None => Err(DecodeError::UnrecognizedType),
            Some(kind) => if chunk.len() < MAGIC_LEN + PREAMBLE_LEN + kind.spec_fixed_len() {
                Err(DecodeError::Truncated)
            } else {
                Ok(MAGIC_LEN as nat + PREAMBLE_LEN as nat + kind.spec_fixed_len())
            },
        }
    }
}

/// Finds the length of the header of a chunk.
pub fn header_len(chunk: &[u8]) -> (r: Result<usize, DecodeError>)
    ensures
        match r {
            Ok(n) => spec_header_len(chunk@) == Ok::<nat, DecodeError>(n as nat),
            Err(e) => spec_header_len(chunk@) == Err::<nat, DecodeError>(e),
        },
{
    if !has_magic(chunk) {
        return Err(DecodeError::UnrecognizedMagic);
    }
    if chunk.len() < MAGIC_LEN + PREAMBLE_LEN {
        return Err(DecodeError::Truncated);
    }
    match BorkType::from_tag(chunk[MAGIC_LEN]) {
        None => Err(DecodeError::UnrecognizedType),
        Some(kind) => {
            let n = MAGIC_LEN + PREAMBLE_LEN + kind.fixed_len();
            if chunk.len() < n {
                Err(DecodeError::Truncated)
            } else {
                Ok(n)
            }
        },
    }
}

/// Whether a chunk begins with the given header.
pub open spec fn carries(chunk: Seq<u8>, header: Seq<u8>) -> bool {
    chunk.len() >= header.len() && chunk.take(header.len() as int) == header
}

/// The content slices of the chunks, one after the other.
pub open spec fn contents(chunks: Seq<Seq<u8>>, header_len: nat) -> Seq<u8>
    decreases chunks.len(),
{
    if chunks.len() == 0 {
        Seq::empty()
    } else {
        chunks[0].skip(header_len as int) + contents(chunks.drop_first(), header_len)
    }
}

/// The payload of the post that the chunks carry: the header of the first
/// chunk without the magic marker, then the content of all chunks. Every
/// chunk must carry the header of the first.
pub open spec fn spec_reassemble(chunks: Seq<Seq<u8>>) -> Result<Seq<u8>, DecodeError> {
    if chunks.len() == 0 {
        Err(DecodeError::Truncated)
    } else {
        match spec_header_len(chunks[0]) {
            Err(e) => Err(e),
            Ok(n) => if forall|i: int|
                0 <= i < chunks.len() ==> carries(#[trigger] chunks[i], chunks[0].take(n as int)) {
                Ok(chunks[0].subrange(MAGIC_LEN as int, n as int) + contents(chunks, n))
            } else {
                Err(DecodeError::HeaderMismatch)
            },
        }
    }
}

/// Adding a chunk at the end adds its content slice at the end.
pub proof fn lemma_contents_push(chunks: Seq<Seq<u8>>, chunk: Seq<u8>, header_len: nat)
    ensures
        contents(chunks.push(chunk), header_len) == contents(chunks, header_len) + chunk.skip(
            header_len as int,
        ),
    decreases chunks.len(),
{
    if chunks.len() == 0 {
        assert(chunks.push(chunk).drop_first() =~= chunks);
    } else {
        assert(chunks.push(chunk).drop_first() =~= chunks.drop_first().push(chunk));
        lemma_contents_push(chunks.drop_first(), chunk, header_len);
    }
}

/// Whether `chunk` begins with the first `n` bytes of `first`.
fn same_header(chunk: &[u8], first: &[u8], n: usize) -> (r: bool)
    requires
        n <= first@.len(),
    ensures
        r == carries(chunk@, first@.take(n as int)),
{
    if chunk.len() < n {
        return false;
    }
    let mut i: usize = 0;
    while i < n
        invariant
            i <= n,
            n <= first@.len(),
            n <= chunk@.len(),
            forall|k: int| 0 <= k < i ==> chunk@[k] == first@[k],
        decreases n - i,
    {
        if chunk[i] != first[i] {
            assert(chunk@.take(n as int)[i as int] != first@.take(n as int)[i as int]);
            return false;
        }
        i += 1;
    }
    assert(chunk@.take(n as int) =~= first@.take(n as int));
    true
}

/// Puts the chunks of one post together into its payload.
///
/// Fails where there is no chunk, where the first chunk has no well-formed
/// header, and where a chunk does not carry the header of the first.
pub fn reassemble(chunks: &Vec<Vec<u8>>) -> (r: Result<Vec<u8>, DecodeError>)
    ensures
        match r {
            Ok(payload) => spec_reassemble(views(chunks@)) == Ok::<Seq<u8>, DecodeError>(payload@),
            Err(e) => spec_reassemble(views(chunks@)) == Err::<Seq<u8>, DecodeError>(e),
        },
{
    if chunks.len() == 0 {
        return Err(DecodeError::Truncated);
    }
    let first = chunks[0].as_slice();
    let n = match header_len(first) {
        Ok(n) => n,
        Err(e) => {
            return Err(e);
        },
    };
    let mut payload = slice_to_vec(slice_subrange(first, MAGIC_LEN, n));
    let mut i: usize = 0;
    while i < chunks.len()
        invariant
            i <= chunks@.len(),
            chunks@.len() > 0,
            first@ == views(chunks@)[0],
            n <= first@.len(),
            spec_header_len(first@) == Ok::<nat, DecodeError>(n as nat),
            forall|k: int|
                0 <= k < i ==> carries(#[trigger] views(chunks@)[k], first@.take(n as int)),
            payload@ == first@.subrange(MAGIC_LEN as int, n as int) + contents(
                views(chunks@).take(i as int),
                n as nat,
            ),
        decreases chunks@.len() - i,
    {
        let chunk = chunks[i].as_slice();
        assert(chunk@ == views(chunks@)[i as int]);
        if !same_header(chunk, first, n) {
            return Err(DecodeError::HeaderMismatch);
        }
        let ghost before = payload@;
        payload = join(payload.as_slice(), slice_subrange(chunk, n, chunk.len()));
        proof {
            lemma_contents_push(views(chunks@).take(i as int), chunk@, n as nat);
            assert(views(chunks@).take(i as int).push(chunk@) =~= views(chunks@).take(i + 1));
        }
        i += 1;
    }
    assert(views(chunks@).take(i as int) =~= views(chunks@));
    Ok(payload)
}

/// What the chunks of one post say, read together.
pub open spec fn spec_decode_chunks(chunks: Seq<Seq<u8>>, timestamp: i64) -> Result<
    BorkRecord,
    DecodeError,
> {
    match spec_reassemble(chunks) {
        Ok(payload) => spec_decode(payload, timestamp),
        Err(e) => Err(e),
    }
}

/// Reads the chunks of one post: puts them together, then reads the payload.
pub fn decode_chunks(chunks: &Vec<Vec<u8>>, timestamp: i64) -> (r: Result<BorkTxData, DecodeError>)
    ensures
        match r {
            Ok(bork) => spec_decode_chunks(views(chunks@), timestamp) == Ok::<
                BorkRecord,
                DecodeError,
            >(bork@),
            Err(e) => spec_decode_chunks(views(chunks@), timestamp) == Err::<
                BorkRecord,
                DecodeError,
            >(e),
        },
{
    match reassemble(chunks) {
        Ok(payload) => decode(payload.as_slice(), timestamp),
        Err(e) => Err(e),
    }
}

} // verus!
