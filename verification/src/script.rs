//! Locking scripts: which of them pay to an address, and which carry data.
//!
//! Two shapes of script pay to an address: the one that pays to the hash of
//! a public key and the one that pays to the hash of a script. The address
//! is the Base58Check text of a version byte, which differs between chains
//! and between the two shapes, and the twenty bytes of the hash. Every other
//! script has no address here.
//!
//! A script that begins with `OP_RETURN` is a data carrier; what it carries
//! are the bytes of the single push that follows.

use vstd::prelude::*;
use crate::network::Network;

verus! {

/// The opcode that pushes the twenty bytes that follow it.
pub const OP_PUSHBYTES_20: u8 = 0x14;

/// The opcode that pushes as many bytes as the byte that follows it says.
pub const OP_PUSHDATA1: u8 = 0x4c;

/// The opcode that ends a script as unspendable.
pub const OP_RETURN: u8 = 0x6a;

pub const OP_DUP: u8 = 0x76;

pub const OP_EQUAL: u8 = 0x87;

pub const OP_EQUALVERIFY: u8 = 0x88;

pub const OP_HASH160: u8 = 0xa9;

pub const OP_CHECKSIG: u8 = 0xac;

/// The largest number of bytes that a single-byte push opcode pushes.
pub const MAX_DIRECT_PUSH: u8 = 75;

/// The number of bytes of the hash in a script that pays to an address.
pub const ADDRESS_HASH_LEN: usize = 20;

/// Whether a script pays to the hash of a public key:
/// `OP_DUP OP_HASH160 <20 bytes> OP_EQUALVERIFY OP_CHECKSIG`.
pub open spec fn spec_is_p2pkh(script: Seq<u8>) -> bool {
    &&& script.len() == 25
    &&& script[0] == OP_DUP
    &&& script[1] == OP_HASH160
    &&& script[2] == OP_PUSHBYTES_20
    &&& script[23] == OP_EQUALVERIFY
    &&& script[24] == OP_CHECKSIG
}

/// Whether a script pays to the hash of a public key.
pub fn is_p2pkh(script: &[u8]) -> (r: bool)
    ensures
        r == spec_is_p2pkh(script@),
{
    script.len() == 25 && script[0] == OP_DUP && script[1] == OP_HASH160 && script[2]
        == OP_PUSHBYTES_20 && script[23] == OP_EQUALVERIFY && script[24] == OP_CHECKSIG
}

/// Whether a script pays to the hash of a script:
/// `OP_HASH160 <20 bytes> OP_EQUAL`.
pub open spec fn spec_is_p2sh(script: Seq<u8>) -> bool {
    &&& script.len() == 23
    &&& script[0] == OP_HASH160
    &&& script[1] == OP_PUSHBYTES_20
    &&& script[22] == OP_EQUAL
}

/// Whether a script pays to the hash of a script.
pub fn is_p2sh(script: &[u8]) -> (r: bool)
    ensures
        r == spec_is_p2sh(script@),
{
    script.len() == 23 && script[0] == OP_HASH160 && script[1] == OP_PUSHBYTES_20 && script[22]
        == OP_EQUAL
}

/// Whether a script is a data carrier: it begins with `OP_RETURN`, so that
/// nothing can ever spend the output.
pub open spec fn spec_is_data_carrier(script: Seq<u8>) -> bool {
    script.len() >= 1 && script[0] == OP_RETURN
}

/// Whether a script is a data carrier.
pub fn is_data_carrier(script: &[u8]) -> (r: bool)
    ensures
        r == spec_is_data_carrier(script@),
{
    script.len() >= 1 && script[0] == OP_RETURN
}

/// Where the bytes that a data carrier carries begin, if it carries any:
/// after `OP_RETURN` and a single push that reaches to the end of the script,
/// written with a one-byte push opcode (1 to 75 bytes) or with `OP_PUSHDATA1`
/// (a length byte, then the bytes). A script of any other shape carries
/// nothing.
pub open spec fn spec_carried_data_start(script: Seq<u8>) -> Option<usize> {
    if !spec_is_data_carrier(script) || script.len() < 2 {
        None
    } else if 1 <= script[1] <= MAX_DIRECT_PUSH {
        if script.len() == 2 + script[1] {
            Some(2)
        } else {
            None
        }
    } else if script[1] == OP_PUSHDATA1 {
        if script.len() >= 3 && script.len() == 3 + script[2] {
            Some(3)
        } else {
            None
        }
    } else {
        None
    }
}

/// The bytes that a data carrier carries, if it carries any.
pub open spec fn spec_carried_data(script: Seq<u8>) -> Option<Seq<u8>> {
    match spec_carried_data_start(script) {
        Some(start) => Some(script.skip(start as int)),
        None => None,
    }
}

/// Finds where the bytes that a data carrier carries begin; they reach to
/// the end of the script.
pub fn carried_data_start(script: &[u8]) -> (r: Option<usize>)
    ensures
        r == spec_carried_data_start(script@),
        r matches Some(start) ==> start <= script@.len(),
{
    if !is_data_carrier(script) || script.len() < 2 {
        return None;
    }
    let op = script[1];
    if 1 <= op && op <= MAX_DIRECT_PUSH {
        if script.len() - 2 == op as usize {
            Some(2)
        } else {
            None
        }
    } else if op == OP_PUSHDATA1 {
        if script.len() >= 3 && script.len() - 3 == script[2] as usize {
            Some(3)
        } else {
            None
        }
    } else {
        None
    }
}

impl Network {
    /// The version byte of an address that stands for the hash of a public key.
    pub open spec fn spec_p2pkh_version(&self) -> u8 {
        match *self {
            Network::Dogecoin => 0x1e,
            Network::Litecoin => 0x30,
            Network::Bitcoin => 0x00,
        }
    }

    /// The version byte of an address that stands for the hash of a public key.
    #[verifier::when_used_as_spec(spec_p2pkh_version)]
    pub fn p2pkh_version(&self) -> (v: u8)
        ensures
            v == self.spec_p2pkh_version(),
    {
        match self {
            Network::Dogecoin => 0x1e,
            Network::Litecoin => 0x30,
            Network::Bitcoin => 0x00,
        }
    }

    /// The version byte of an address that stands for the hash of a script.
    pub open spec fn spec_p2sh_version(&self) -> u8 {
        match *self {
            Network::Dogecoin => 0x16,
            Network::Litecoin => 0x32,
            Network::Bitcoin => 0x05,
        }
    }

    /// The version byte of an address that stands for the hash of a script.
    #[verifier::when_used_as_spec(spec_p2sh_version)]
    pub fn p2sh_version(&self) -> (v: u8)
        ensures
            v == self.spec_p2sh_version(),
    {
        match self {
            Network::Dogecoin => 0x16,
            Network::Litecoin => 0x32,
            Network::Bitcoin => 0x05,
        }
    }
}

/// What the address of a script is made of: the version byte of the chain
/// and the twenty bytes of the hash. Only scripts that pay to the hash of a
/// public key or of a script have an address.
pub open spec fn spec_address_payload(script: Seq<u8>, network: Network) -> Option<Seq<u8>> {
    if spec_is_p2pkh(script) {
        Some(seq![network.spec_p2pkh_version()] + script.subrange(3, 3 + ADDRESS_HASH_LEN as int))
    } else if spec_is_p2sh(script) {
        Some(seq![network.spec_p2sh_version()] + script.subrange(2, 2 + ADDRESS_HASH_LEN as int))
    } else {
        None
    }
}

/// Finds what the address of a script is made of.
pub fn address_payload(script: &[u8], network: Network) -> (r: Option<Vec<u8>>)
    ensures
        match r {
            Some(payload) => spec_address_payload(script@, network) == Some(payload@),
            None => spec_address_payload(script@, network) is None,
        },
{
    let (version, start): (u8, usize) = if is_p2pkh(script) {
        (network.p2pkh_version(), 3)
    } else if is_p2sh(script) {
        (network.p2sh_version(), 2)
    } else {
        return None;
    };
    let mut payload: Vec<u8> = Vec::new();
    payload.push(version);
    let mut i: usize = 0;
    while i < ADDRESS_HASH_LEN
        invariant
            i <= ADDRESS_HASH_LEN,
            start <= 3,
            start + ADDRESS_HASH_LEN <= script@.len(),
            payload@ == seq![version] + script@.subrange(start as int, start + i),
        decreases ADDRESS_HASH_LEN - i,
    {
        payload.push(script[start + i]);
        i += 1;
    }
    Some(payload)
}

/// The Base58Check text of a payload: the payload and the first four bytes
/// of its double SHA-256, written in base 58.
pub uninterp spec fn base58check(payload: Seq<u8>) -> Seq<char>;

/// `bitcoin::util::base58::check_encode_slice`.
///
/// The claim: the text depends on the bytes alone.
#[verifier::external_body]
fn base58check_text(payload: &[u8]) -> (text: String)
    ensures
        text@ == base58check(payload@),
{
    bitcoin::util::base58::check_encode_slice(payload)
}

/// The address that a script pays to on a chain, if it pays to one.
pub open spec fn spec_address(script: Seq<u8>, network: Network) -> Option<Seq<char>> {
    match spec_address_payload(script, network) {
        Some(payload) => Some(base58check(payload)),
        None => None,
    }
}

/// Finds the address that a script pays to on a chain.
pub fn address(script: &[u8], network: Network) -> (r: Option<String>)
    ensures
        match r {
            Some(text) => spec_address(script@, network) == Some(text@),
            None => spec_address(script@, network) is None,
        },
{
    match address_payload(script, network) {
        Some(payload) => Some(base58check_text(payload.as_slice())),
        None => None,
    }
}

} // verus!
