//! What writing and reading a post have to do with each other.

use vstd::prelude::*;
use vstd::utf8::encode_utf8;
use crate::error::{DecodeError, EncodeError};
use crate::protocol::reading::{
    carries, contents, spec_decode_chunk, spec_decode_chunks, spec_header_len, spec_reassemble,
};
use crate::protocol::writing::{lemma_split_nonempty, spec_encode, split, with_header};
use crate::protocol::{BorkRecord, BorkType, NewBork, Profile, MAGIC_LEN, PREAMBLE_LEN};

verus! {

/// Every kind is found again from its wire byte.
pub proof fn lemma_tag_roundtrip(kind: BorkType)
    ensures
        BorkType::spec_from_tag(kind.spec_tag()) == Some(kind),
{
}

/// The length of the header of a post: four bytes and the fixed fields.
pub proof fn lemma_header_len(request: NewBork, nonce: u8)
    ensures
        request.header(nonce).len() == MAGIC_LEN + PREAMBLE_LEN
            + request.spec_bork_type().spec_fixed_len(),
        request.fixed_fields().len() == request.spec_bork_type().spec_fixed_len(),
{
    broadcast use vstd::array::group_array_axioms;

}

/// The slices of a split have at most `room` bytes, and all but the last
/// have exactly `room`.
pub proof fn lemma_split_sizes(content: Seq<u8>, room: nat)
    requires
        room > 0,
    ensures
        forall|i: int|
            0 <= i < split(content, room).len() ==> (#[trigger] split(content, room)[i]).len()
                <= room,
        forall|i: int|
            0 <= i < split(content, room).len() - 1 ==> (#[trigger] split(content, room)[i]).len()
                == room,
    decreases content.len(),
{
    if content.len() <= room {
    } else {
        let rest = content.skip(room as int);
        lemma_split_sizes(rest, room);
        assert forall|i: int| 0 <= i < split(content, room).len() implies (#[trigger] split(
            content,
            room,
        )[i]).len() <= room by {
            if i > 0 {
                assert(split(content, room)[i] == split(rest, room)[i - 1]);
            }
        }
        assert forall|i: int| 0 <= i < split(content, room).len() - 1 implies (#[trigger] split(
            content,
            room,
        )[i]).len() == room by {
            if i > 0 {
                assert(split(content, room)[i] == split(rest, room)[i - 1]);
            }
        }
    }
}

/// The number of slices of a split: one for empty content, else the length
/// divided by `room`, rounded up.
pub proof fn lemma_split_count(content: Seq<u8>, room: nat)
    requires
        room > 0,
    ensures
        split(content, room).len() == if content.len() == 0 {
            1
        } else {
            (content.len() + room - 1) / (room as int)
        },
    decreases content.len(),
{
    let len = content.len() as int;
    let r = room as int;
    if len == 0 {
    } else if len <= r {
        assert((len + r - 1) / r == 1) by (nonlinear_arith)
            requires
                0 < len <= r,
        ;
    } else {
        lemma_split_count(content.skip(r), room);
        assert((len + r - 1) / r == 1 + (len - r + r - 1) / r) by (nonlinear_arith)
            requires
                r > 0,
                len > r,
        ;
    }
}

/// Content longer than one slice and no longer than two is cut into exactly
/// two slices: the first `room` bytes, and the remainder.
pub proof fn lemma_split_in_two(content: Seq<u8>, room: nat)
    requires
        room < content.len() <= 2 * room,
    ensures
        split(content, room) == seq![content.take(room as int), content.skip(room as int)],
{
    let rest = content.skip(room as int);
    assert(split(rest, room) == seq![rest]);
    assert(split(content, room) =~= seq![content.take(room as int), rest]);
}

/// A post whose content is longer than what one chunk holds beside the
/// header, and no longer than twice that, is written as exactly two chunks:
/// the first is full, the second holds the remainder.
pub proof fn lemma_encode_in_two(request: NewBork, nonce: u8, profile: Profile)
    requires
        profile.spec_supports(request.spec_bork_type()),
        profile.max_chunks >= 2,
        request.header(nonce).len() <= profile.capacity,
        ({
            let room = profile.capacity - request.header(nonce).len();
            room < encode_utf8(request.spec_content()).len() <= 2 * room
        }),
    ensures
        ({
            let header = request.header(nonce);
            let content = encode_utf8(request.spec_content());
            let room = profile.capacity - header.len();
            spec_encode(request, nonce, profile) == Ok::<Seq<Seq<u8>>, EncodeError>(
                seq![header + content.take(room), header + content.skip(room)],
            )
        }),
{
    let header = request.header(nonce);
    let content = encode_utf8(request.spec_content());
    let room = (profile.capacity - header.len()) as nat;
    lemma_split_in_two(content, room);
    assert(with_header(header, split(content, room)) =~= seq![
        header + content.take(room as int),
        header + content.skip(room as int),
    ]);
}

/// The slices of a split, put one after the other, are the content again,
/// whatever header stands before each.
pub proof fn lemma_contents_of_split(header: Seq<u8>, content: Seq<u8>, room: nat)
    ensures
        contents(with_header(header, split(content, room)), header.len()) == content,
    decreases content.len(),
{
    let chunks = with_header(header, split(content, room));
    if room == 0 || content.len() <= room {
        assert(contents(chunks.drop_first(), header.len()) =~= Seq::<u8>::empty());
    } else {
        let rest = content.skip(room as int);
        lemma_contents_of_split(header, rest, room);
        assert(chunks.drop_first() =~= with_header(header, split(rest, room)));
    }
}

/// A post that can be written is written as at least one chunk and at most
/// as many as the profile allows; every chunk begins with the header of the
/// post and fits into one data output, and every chunk but the last fills it.
pub proof fn lemma_encode_chunks(request: NewBork, nonce: u8, profile: Profile)
    requires
        spec_encode(request, nonce, profile) is Ok,
    ensures
        ({
            let chunks = spec_encode(request, nonce, profile)->Ok_0;
            &&& 1 <= chunks.len() <= profile.max_chunks
            &&& forall|i: int|
                0 <= i < chunks.len() ==> carries(#[trigger] chunks[i], request.header(nonce))
            &&& forall|i: int|
                0 <= i < chunks.len() ==> (#[trigger] chunks[i]).len() <= profile.capacity
            &&& forall|i: int|
                0 <= i < chunks.len() - 1 ==> (#[trigger] chunks[i]).len() == profile.capacity
        }),
{
    let header = request.header(nonce);
    let content = encode_utf8(request.spec_content());
    let room = (profile.capacity - header.len()) as nat;
    let parts = split(content, room);
    let chunks = with_header(header, parts);
    lemma_split_nonempty(content, room);
    if room > 0 {
        lemma_split_sizes(content, room);
    }
    assert forall|i: int| 0 <= i < chunks.len() implies carries(
        #[trigger] chunks[i],
        header,
    ) by {
        assert(chunks[i].take(header.len() as int) =~= header);
    }
    assert forall|i: int| 0 <= i < chunks.len() implies (#[trigger] chunks[i]).len()
        <= profile.capacity by {
        assert(chunks[i].len() == header.len() + parts[i].len());
    }
    assert forall|i: int| 0 <= i < chunks.len() - 1 implies (#[trigger] chunks[i]).len()
        == profile.capacity by {
        assert(chunks[i].len() == header.len() + parts[i].len());
    }
}

/// Reading the chunks of a written post gives back the post: its kind, its
/// text, its nonce, and the reference id or index that it was written with.
pub proof fn lemma_encode_decode(request: NewBork, nonce: u8, profile: Profile, timestamp: i64)
    requires
        spec_encode(request, nonce, profile) is Ok,
    ensures
        spec_decode_chunks(spec_encode(request, nonce, profile)->Ok_0, timestamp) == Ok::<
            BorkRecord,
            DecodeError,
        >(request.record(nonce, timestamp)),
{
    broadcast use vstd::array::group_array_axioms;

    let kind = request.spec_bork_type();
    let header = request.header(nonce);
    let chars = request.spec_content();
    let content = encode_utf8(chars);
    let room = (profile.capacity - header.len()) as nat;
    let chunks = with_header(header, split(content, room));
    let n = header.len();
    lemma_header_len(request, nonce);
    lemma_tag_roundtrip(kind);
    lemma_encode_chunks(request, nonce, profile);
    lemma_contents_of_split(header, content, room);
    // The first chunk begins with the header, so its header is found again.
    assert(chunks[0].take(n as int) =~= header);
    assert(spec_header_len(chunks[0]) == Ok::<nat, DecodeError>(n));
    // The payload is the header without the magic marker, then the content.
    let payload = chunks[0].subrange(MAGIC_LEN as int, n as int) + content;
    assert(spec_reassemble(chunks) == Ok::<Seq<u8>, DecodeError>(payload));
    let start = PREAMBLE_LEN + kind.spec_fixed_len();
    assert(payload.skip(start as int) =~= content);
    assert(payload.subrange(PREAMBLE_LEN as int, start as int) =~= request.fixed_fields());
    // The content is the UTF-8 of the text, and is read back as the text.
    vstd::utf8::encode_utf8_valid_utf8(chars);
    vstd::utf8::encode_utf8_decode_utf8(chars);
}

/// A post of a kind that the profile does not allow is refused as such,
/// whatever its size, and no other post is.
pub proof fn lemma_unsupported_variant(request: NewBork, nonce: u8, profile: Profile)
    ensures
        !profile.spec_supports(request.spec_bork_type()) <==> spec_encode(request, nonce, profile)
            == Err::<Seq<Seq<u8>>, EncodeError>(EncodeError::UnsupportedVariant),
{
}

/// A post whose content fits beside the header into one data output is
/// written as a single chunk, the header followed by the content, and that
/// chunk read on its own gives back the post.
pub proof fn lemma_single_chunk(request: NewBork, nonce: u8, profile: Profile, timestamp: i64)
    requires
        profile.spec_supports(request.spec_bork_type()),
        profile.max_chunks >= 1,
        request.header(nonce).len() + encode_utf8(request.spec_content()).len()
            <= profile.capacity,
    ensures
        spec_encode(request, nonce, profile) == Ok::<Seq<Seq<u8>>, EncodeError>(
            seq![request.header(nonce) + encode_utf8(request.spec_content())],
        ),
        spec_decode_chunk(
            request.header(nonce) + encode_utf8(request.spec_content()),
            timestamp,
        ) == Ok::<BorkRecord, DecodeError>(request.record(nonce, timestamp)),
{
    broadcast use vstd::array::group_array_axioms;

    let header = request.header(nonce);
    let content = encode_utf8(request.spec_content());
    let room = (profile.capacity - header.len()) as nat;
    let chunk = header + content;
    let chunks = seq![chunk];
    assert(split(content, room) =~= seq![content]);
    assert(with_header(header, seq![content]) =~= chunks);
    // Read as the only chunk of its post, the chunk gives back the post.
    lemma_encode_decode(request, nonce, profile, timestamp);
    // Its payload as the only chunk is the chunk without the magic marker.
    lemma_header_len(request, nonce);
    lemma_tag_roundtrip(request.spec_bork_type());
    assert(spec_header_len(chunk) == Ok::<nat, DecodeError>(header.len()));
    assert(contents(chunks.drop_first(), header.len()) =~= Seq::<u8>::empty());
    assert(chunk.subrange(MAGIC_LEN as int, header.len() as int) + chunk.skip(header.len() as int)
        =~= chunk.skip(MAGIC_LEN as int));
    assert(spec_reassemble(chunks) == Ok::<Seq<u8>, DecodeError>(chunk.skip(MAGIC_LEN as int)));
}

} // verus!
