//! From posts to bytes.

use vstd::prelude::*;
use vstd::slice::slice_subrange;
use vstd::utf8::encode_utf8;
use crate::error::EncodeError;
use crate::protocol::buffers::{join, views};
use crate::protocol::{magic, NewBork, Profile, MAGIC, MAGIC_LEN, PREAMBLE_LEN};

verus! {

/// The content cut into slices of `room` bytes, the last one holding the
/// remainder. Empty content gives one empty slice.
pub open spec fn split(content: Seq<u8>, room: nat) -> Seq<Seq<u8>>
    decreases content.len(),
{
    if room == 0 || content.len() <= room {
        seq![content]
    } else {
        seq![content.take(room as int)] + split(content.skip(room as int), room)
    }
}

/// Each slice behind a copy of the header.
pub open spec fn with_header(header: Seq<u8>, parts: Seq<Seq<u8>>) -> Seq<Seq<u8>> {
    Seq::new(parts.len(), |i: int| header + parts[i])
}

/// The chunks of a post, or why it cannot be written.
pub open spec fn spec_encode(request: NewBork, nonce: u8, profile: Profile) -> Result<
    Seq<Seq<u8>>,
    EncodeError,
> {
    let header = request.header(nonce);
    let content = encode_utf8(request.spec_content());
    let room = (profile.capacity - header.len()) as nat;
    if !profile.spec_supports(request.spec_bork_type()) {
        Err(EncodeError::UnsupportedVariant)
    } else if profile.capacity < header.len() {
        Err(EncodeError::ContentTooLarge)
    } else if room == 0 && content.len() > 0 {
        Err(EncodeError::ContentTooLarge)
    } else if split(content, room).len() > profile.max_chunks {
        Err(EncodeError::ContentTooLarge)
    } else {
        Ok(with_header(header, split(content, room)))
    }
}

/// The header that every chunk of a post carries.
fn header_bytes(request: &NewBork, nonce: u8) -> (header: Vec<u8>)
    ensures
        header@ == request.header(nonce),
        header@.len() == MAGIC_LEN + PREAMBLE_LEN + request.spec_bork_type().spec_fixed_len(),
{
    let mut start: Vec<u8> = Vec::new();
    start.push(MAGIC[0]);
    start.push(MAGIC[1]);
    start.push(request.bork_type().tag());
    start.push(nonce);
    match request {
        NewBork::Bork { .. } => {
            start
        },
        NewBork::Comment { reference_id, .. } => join(start.as_slice(), reference_id.as_slice()),
        NewBork::Rebork { reference_id, .. } => join(start.as_slice(), reference_id.as_slice()),
        NewBork::Extension { index, .. } => {
            start.push(*index);
            start
        },
    }
}

/// A split is never empty.
pub proof fn lemma_split_nonempty(content: Seq<u8>, room: nat)
    ensures
        split(content, room).len() >= 1,
    decreases content.len(),
{
    if room == 0 || content.len() <= room {
    } else {
        lemma_split_nonempty(content.skip(room as int), room);
    }
}

/// Writes a post as the ordered chunks that carry it.
///
/// Fails, with nothing written, where the profile does not allow the kind of
/// post, and where the content does not fit into the chunks that the profile
/// allows.
pub fn encode(request: &NewBork, nonce: u8, profile: &Profile) -> (r: Result<
    Vec<Vec<u8>>,
    EncodeError,
>)
    ensures
        match r {
            Ok(chunks) => spec_encode(*request, nonce, *profile) == Ok::<
                Seq<Seq<u8>>,
                EncodeError,
            >(views(chunks@)),
            Err(e) => spec_encode(*request, nonce, *profile) == Err::<Seq<Seq<u8>>, EncodeError>(e),
        },
{
    if !profile.supports(request.bork_type()) {
        return Err(EncodeError::UnsupportedVariant);
    }
    let header = header_bytes(request, nonce);
    if profile.capacity < header.len() {
        return Err(EncodeError::ContentTooLarge);
    }
    let room = profile.capacity - header.len();
    let content = request.content().as_bytes();
    let len = content.len();
    if room == 0 && len > 0 {
        return Err(EncodeError::ContentTooLarge);
    }
    let mut chunks: Vec<Vec<u8>> = Vec::new();
    let mut pos: usize = 0;
    let ghost mut done: Seq<Seq<u8>> = Seq::empty();
    assert(content@.skip(0) =~= content@);
    loop
        invariant
            pos <= len,
            len == content@.len(),
            room > 0 || len == 0,
            profile.spec_supports(request.spec_bork_type()),
            header@ == request.header(nonce),
            header@.len() <= profile.capacity,
            room == profile.capacity - header@.len(),
            content@ == encode_utf8(request.spec_content()),
            views(chunks@) == with_header(header@, done),
            chunks@.len() == done.len(),
            done + split(content@.skip(pos as int), room as nat) == split(content@, room as nat),
        decreases len - pos,
    {
        proof {
            lemma_split_nonempty(content@.skip(pos as int), room as nat);
        }
        if chunks.len() >= profile.max_chunks {
            return Err(EncodeError::ContentTooLarge);
        }
        let remaining = len - pos;
        let last = remaining <= room;
        let take = if last {
            remaining
        } else {
            room
        };
        let part = slice_subrange(content, pos, pos + take);
        let chunk = join(header.as_slice(), part);
        let ghost rest = content@.skip(pos as int);
        let ghost before = views(chunks@);
        chunks.push(chunk);
        proof {
            // The slice is the next one of the split of what is left.
            assert(part@ =~= rest.take(take as int));
            if last {
                assert(done.push(part@) =~= done + split(rest, room as nat));
            } else {
                assert(rest.skip(room as int) =~= content@.skip(pos + take));
            }
            assert(views(chunks@) =~= before.push(header@ + part@));
            assert(with_header(header@, done.push(part@)) =~= with_header(header@, done).push(
                header@ + part@,
            ));
            done = done.push(part@);
        }
        if last {
            return Ok(chunks);
        }
        pos += take;
    }
}

} // verus!
