//! The wire form of a post.
//!
//! A post travels as one or more chunks, each small enough for one data
//! output. Every chunk of a post carries the same header and a slice of the
//! content:
//!
//! ```text
//! [MAGIC][TYPE:1][NONCE:1]{fixed fields of the type}{content bytes}
//! ```
//!
//! `MAGIC` is the two bytes `0D 06`. `TYPE` is `00` for a plain post, `01`
//! for a comment, `02` for a rebork and `03` for an extension; a chunk with
//! any other type is refused as unrecognized. The fixed fields are the
//! thirty-two bytes of a reference id for comments and reborks, one index
//! byte for extensions, and nothing for plain posts.
//!
//! The content of the post is the concatenation, in order, of the content
//! slices of its chunks. It is UTF-8 as a whole: a chunk boundary may fall
//! inside a character, and such a chunk cannot be read on its own. The
//! chunks of a post are put together first ([`reassemble`]) and read
//! afterwards ([`decode`]); putting together refuses chunks whose headers
//! differ.

use vstd::prelude::*;
use crate::network::Network;

pub mod buffers;
pub mod reading;
pub mod roundtrip;
pub mod writing;

pub use reading::{decode, decode_chunk, decode_chunks, has_magic, header_len, reassemble};
pub use writing::encode;

verus! {

/// The marker with which every chunk begins.
pub const MAGIC: [u8; 2] = [0x0D, 0x06];

/// The number of bytes of the magic marker.
pub const MAGIC_LEN: usize = 2;

/// The number of bytes with which every payload begins: the type tag and the
/// nonce.
pub const PREAMBLE_LEN: usize = 2;

/// The number of bytes of a reference id.
pub const REFERENCE_ID_LEN: usize = 32;

/// The bytes of the magic marker.
pub open spec fn magic() -> Seq<u8> {
    seq![MAGIC[0], MAGIC[1]]
}

/// The kind of a post.
#[derive(Clone, Copy, Debug, PartialEq, Eq, Structural)]
pub enum BorkType {
    /// A post of its own.
    Bork,
    /// A reply to another post.
    Comment,
    /// A repetition of another post, with a remark.
    Rebork,
    /// A numbered continuation.
    Extension,
}

impl BorkType {
    /// The byte that stands for this kind on the wire.
    pub open spec fn spec_tag(self) -> u8 {
        match self {
            BorkType::Bork => 0x00,
            BorkType::Comment => 0x01,
            BorkType::Rebork => 0x02,
            BorkType::Extension => 0x03,
        }
    }

    /// The byte that stands for this kind on the wire.
    #[verifier::when_used_as_spec(spec_tag)]
    pub fn tag(self) -> (t: u8)
        ensures
            t == self.spec_tag(),
    {
        match self {
            BorkType::Bork => 0x00,
            BorkType::Comment => 0x01,
            BorkType::Rebork => 0x02,
            BorkType::Extension => 0x03,
        }
    }

    /// The kind that a wire byte stands for, if it is a known one.
    pub open spec fn spec_from_tag(tag: u8) -> Option<BorkType> {
        if tag == 0x00 {
            Some(BorkType::Bork)
        } else if tag == 0x01 {
            Some(BorkType::Comment)
        } else if tag == 0x02 {
            Some(BorkType::Rebork)
        } else if tag == 0x03 {
            Some(BorkType::Extension)
        } else {
            None
        }
    }

    /// The kind that a wire byte stands for, if it is a known one.
    #[verifier::when_used_as_spec(spec_from_tag)]
    pub fn from_tag(tag: u8) -> (r: Option<BorkType>)
        ensures
            r == BorkType::spec_from_tag(tag),
    {
        match tag {
            0x00 => Some(BorkType::Bork),
            0x01 => Some(BorkType::Comment),
            0x02 => Some(BorkType::Rebork),
            0x03 => Some(BorkType::Extension),
            _ => None,
        }
    }

    /// The number of bytes between the nonce and the content.
    pub open spec fn spec_fixed_len(self) -> nat {
        match self {
            BorkType::Bork => 0,
            BorkType::Comment => REFERENCE_ID_LEN as nat,
            BorkType::Rebork => REFERENCE_ID_LEN as nat,
            BorkType::Extension => 1,
        }
    }

    /// The number of bytes between the nonce and the content.
    pub fn fixed_len(self) -> (n: usize)
        ensures
            n == self.spec_fixed_len(),
    {
        match self {
            BorkType::Bork => 0,
            BorkType::Comment => REFERENCE_ID_LEN,
            BorkType::Rebork => REFERENCE_ID_LEN,
            BorkType::Extension => 1,
        }
    }

    /// Whether posts of this kind name another post.
    pub open spec fn refers(self) -> bool {
        self == BorkType::Comment || self == BorkType::Rebork
    }
}

/// A post as read from the chain.
#[derive(Clone, Debug, PartialEq, Eq)]
pub struct BorkTxData {
    /// The kind of the post.
    pub bork_type: BorkType,
    /// The text of the post.
    pub content: Option<String>,
    /// The byte by which the author tells the posts of one block apart.
    pub nonce: Option<u8>,
    /// The post that a comment or rebork refers to.
    pub reference_id: Option<[u8; 32]>,
    /// The number of an extension.
    pub index: Option<u8>,
    /// The time of the block that holds the post, in seconds since the Unix epoch.
    pub timestamp: i64,
}

/// The mathematical value of a [`BorkTxData`].
pub struct BorkRecord {
    pub bork_type: BorkType,
    pub content: Option<Seq<char>>,
    pub nonce: Option<u8>,
    pub reference_id: Option<Seq<u8>>,
    pub index: Option<u8>,
    pub timestamp: i64,
}

impl View for BorkTxData {
    type V = BorkRecord;

    open spec fn view(&self) -> BorkRecord {
        BorkRecord {
            bork_type: self.bork_type,
            content: match self.content {
                Some(s) => Some(s@),
                None => None,
            },
            nonce: self.nonce,
            reference_id: match self.reference_id {
                Some(id) => Some(id@),
                None => None,
            },
            index: self.index,
            timestamp: self.timestamp,
        }
    }
}

/// A post to be written.
#[derive(Clone, Debug, PartialEq, Eq)]
pub enum NewBork {
    /// A post of its own.
    Bork { content: String },
    /// A reply to the post named by `reference_id`.
    Comment { content: String, reference_id: [u8; 32] },
    /// A repetition of the post named by `reference_id`, with a remark.
    Rebork { content: String, reference_id: [u8; 32] },
    /// A continuation with the number `index`.
    Extension { content: String, index: u8 },
}

impl NewBork {
    /// The kind of the post.
    pub open spec fn spec_bork_type(&self) -> BorkType {
        match *self {
            NewBork::Bork { .. } => BorkType::Bork,
            NewBork::Comment { .. } => BorkType::Comment,
            NewBork::Rebork { .. } => BorkType::Rebork,
            NewBork::Extension { .. } => BorkType::Extension,
        }
    }

    /// The kind of the post.
    #[verifier::when_used_as_spec(spec_bork_type)]
    pub fn bork_type(&self) -> (kind: BorkType)
        ensures
            kind == self.spec_bork_type(),
    {
        match self {
            NewBork::Bork { .. } => BorkType::Bork,
            NewBork::Comment { .. } => BorkType::Comment,
            NewBork::Rebork { .. } => BorkType::Rebork,
            NewBork::Extension { .. } => BorkType::Extension,
        }
    }

    /// The text of the post.
    pub open spec fn spec_content(self) -> Seq<char> {
        match self {
            NewBork::Bork { content } => content@,
            NewBork::Comment { content, .. } => content@,
            NewBork::Rebork { content, .. } => content@,
            NewBork::Extension { content, .. } => content@,
        }
    }

    /// The text of the post.
    pub fn content(&self) -> (text: &str)
        ensures
            text@ == self.spec_content(),
    {
        match self {
            NewBork::Bork { content } => content.as_str(),
            NewBork::Comment { content, .. } => content.as_str(),
            NewBork::Rebork { content, .. } => content.as_str(),
            NewBork::Extension { content, .. } => content.as_str(),
        }
    }

    /// The bytes that stand between the nonce and the content.
    pub open spec fn fixed_fields(self) -> Seq<u8> {
        match self {
            NewBork::Bork { .. } => Seq::empty(),
            NewBork::Comment { reference_id, .. } => reference_id@,
            NewBork::Rebork { reference_id, .. } => reference_id@,
            NewBork::Extension { index, .. } => seq![index],
        }
    }

    /// The header that every chunk of the post carries.
    pub open spec fn header(self, nonce: u8) -> Seq<u8> {
        magic() + seq![self.spec_bork_type().spec_tag(), nonce] + self.fixed_fields()
    }

    /// The record that a reader of the post is to find.
    pub open spec fn record(self, nonce: u8, timestamp: i64) -> BorkRecord {
        BorkRecord {
            bork_type: self.spec_bork_type(),
            content: Some(self.spec_content()),
            nonce: Some(nonce),
            reference_id: match self {
                NewBork::Comment { reference_id, .. } => Some(reference_id@),
                NewBork::Rebork { reference_id, .. } => Some(reference_id@),
                _ => None,
            },
            index: match self {
                NewBork::Extension { index, .. } => Some(index),
                _ => None,
            },
            timestamp,
        }
    }
}

/// The limits within which posts are written for a chain.
#[derive(Clone, Copy, Debug, PartialEq, Eq, Structural)]
pub struct Profile {
    /// The number of bytes that one data output can carry.
    pub capacity: usize,
    /// The largest number of chunks that one post may take.
    pub max_chunks: usize,
    /// Whether extensions can be written.
    pub extensions: bool,
}

/// The number of bytes that a data output carries on the three chains.
pub const STANDARD_CAPACITY: usize = 80;

/// The largest number of chunks of a post on the three chains.
pub const STANDARD_MAX_CHUNKS: usize = 16;

impl Profile {
    /// The profile of a chain.
    pub open spec fn spec_for_network(network: Network) -> Profile {
        Profile {
            capacity: STANDARD_CAPACITY,
            max_chunks: STANDARD_MAX_CHUNKS,
            extensions: false,
        }
    }

    /// The profile of a chain. On all three chains a data output carries
    /// eighty bytes, and extensions cannot be written.
    #[verifier::when_used_as_spec(spec_for_network)]
    pub fn for_network(network: Network) -> (profile: Profile)
        ensures
            profile == Profile::spec_for_network(network),
    {
        match network {
            Network::Dogecoin | Network::Litecoin | Network::Bitcoin => Profile {
                capacity: STANDARD_CAPACITY,
                max_chunks: STANDARD_MAX_CHUNKS,
                extensions: false,
            },
        }
    }

    /// Whether posts of a kind can be written.
    pub open spec fn spec_supports(&self, kind: BorkType) -> bool {
        kind != BorkType::Extension || self.extensions
    }

    /// Whether posts of a kind can be written.
    #[verifier::when_used_as_spec(spec_supports)]
    pub fn supports(&self, kind: BorkType) -> (r: bool)
        ensures
            r == self.spec_supports(kind),
    {
        match kind {
            BorkType::Extension => self.extensions,
            _ => true,
        }
    }
}

} // verus!
