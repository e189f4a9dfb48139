//! The canonical byte encoding of a swap message and its hash.
//!
//! A message is encoded field by field in the SCALE format, in the order in
//! which `SwapMessage` declares its fields, and the hash of a message is the
//! SHA3-256 digest of that encoding.

use vstd::prelude::*;
use vstd::bytes::{
    spec_u128_to_le_bytes, spec_u16_to_le_bytes, spec_u32_to_le_bytes, spec_u64_to_le_bytes,
};
use parity_scale_codec::Encode;
use sha3::{Digest, Sha3_256};
use crate::account::AccountId;

verus! {

/// A request to release funds on this side of the bridge, as the validators
/// attest it.
#[derive(Clone, Debug, PartialEq, Eq)]
pub struct SwapMessage {
    /// The chain the release is meant for.
    pub chain_id: u8,
    /// Who is paid.
    pub receiver: AccountId,
    /// Who deposited on the other side, in that side's notation.
    pub sender: String,
    /// When the deposit was made, in seconds.
    pub timestamp: u64,
    /// How much was deposited, before the fee.
    pub amount: u128,
    /// The asset, with the all-zero identity for the native coin.
    pub asset: AccountId,
    /// The nonce the other side gave the deposit.
    pub transfer_nonce: u128,
}

/// The SCALE compact encoding of a length.
pub open spec fn compact_len(len: u32) -> Seq<u8> {
    if len < 0x40 {
        seq![(len * 4) as u8]
    } else if len < 0x4000 {
        spec_u16_to_le_bytes((len * 4 + 1) as u16)
    } else if len < 0x4000_0000 {
        spec_u32_to_le_bytes((len * 4 + 2) as u32)
    } else {
        seq![3u8] + spec_u32_to_le_bytes(len)
    }
}

/// The SCALE encoding of a text: its length in bytes, compact, then its UTF-8
/// bytes.
pub open spec fn text_encoding(text: Seq<char>) -> Seq<u8> {
    compact_len(vstd::utf8::encode_utf8(text).len() as u32) + vstd::utf8::encode_utf8(text)
}

/// Whether a text is short enough to be encoded: its UTF-8 form has at most
/// `u32::MAX` bytes.
pub open spec fn encodable(text: Seq<char>) -> bool {
    vstd::utf8::encode_utf8(text).len() <= u32::MAX
}

/// The canonical encoding of a message: its seven fields in order, integers
/// little-endian, identities as their bytes, the sender as a text.
pub open spec fn message_encoding(message: SwapMessage) -> Seq<u8> {
    seq![message.chain_id] + message.receiver@ + text_encoding(message.sender@)
        + spec_u64_to_le_bytes(message.timestamp) + spec_u128_to_le_bytes(message.amount)
        + message.asset@ + spec_u128_to_le_bytes(message.transfer_nonce)
}

/// The SHA3-256 digest of a byte string.
pub uninterp spec fn sha3_256(data: Seq<u8>) -> Seq<u8>;

/// `<u8 as Encode>::encode`: the byte itself.
#[verifier::external_body]
fn encode_u8(value: u8) -> (bytes: Vec<u8>)
    ensures
        bytes@ == seq![value],
{
    value.encode()
}

/// `<u64 as Encode>::encode`: the eight bytes of the value, lowest first.
#[verifier::external_body]
fn encode_u64(value: u64) -> (bytes: Vec<u8>)
    ensures
        bytes@ == spec_u64_to_le_bytes(value),
{
    value.encode()
}

/// `<u128 as Encode>::encode`: the sixteen bytes of the value, lowest first.
#[verifier::external_body]
fn encode_u128(value: u128) -> (bytes: Vec<u8>)
    ensures
        bytes@ == spec_u128_to_le_bytes(value),
{
    value.encode()
}

/// `<[u8; 32] as Encode>::encode`: the bytes of the array, with no length
/// before them.
#[verifier::external_body]
fn encode_account(account: &AccountId) -> (bytes: Vec<u8>)
    ensures
        bytes@ == account@,
{
    account.encode()
}

/// `<str as Encode>::encode`: the compact length of the text's UTF-8 form,
/// then that form. The call panics on a text of more than `u32::MAX` bytes.
#[verifier::external_body]
fn encode_text(text: &str) -> (bytes: Vec<u8>)
    requires
        encodable(text@),
    ensures
        bytes@ == text_encoding(text@),
{
    text.encode()
}

/// `Sha3_256::digest`: the digest of `data`, which has thirty-two bytes.
#[verifier::external_body]
fn sha3_256_digest(data: &Vec<u8>) -> (digest: Vec<u8>)
    ensures
        digest@ == sha3_256(data@),
        digest@.len() == 32,
{
    Sha3_256::digest(data.as_slice()).to_vec()
}

/// Appends `tail` to `bytes`.
fn append(bytes: &mut Vec<u8>, tail: &Vec<u8>)
    ensures
        final(bytes)@ == old(bytes)@ + tail@,
{
    let mut i: usize = 0;
    while i < tail.len()
        invariant
            i <= tail.len(),
            bytes@ == old(bytes)@ + tail@.subrange(0, i as int),
        decreases tail.len() - i,
    {
        bytes.push(tail[i]);
        i = i + 1;
    }
    assert(tail@.subrange(0, tail.len() as int) == tail@);
}

/// Whether the sender of a message is short enough for the message to be
/// encoded.
pub fn can_encode(message: &SwapMessage) -> (fits: bool)
    ensures
        fits == encodable(message.sender@),
{
    message.sender.as_str().as_bytes().len() <= 0xffff_ffff
}

/// The canonical encoding of a message.
pub fn encode_message(message: &SwapMessage) -> (bytes: Vec<u8>)
    requires
        encodable(message.sender@),
    ensures
        bytes@ == message_encoding(*message),
{
    let mut bytes = encode_u8(message.chain_id);
    append(&mut bytes, &encode_account(&message.receiver));
    append(&mut bytes, &encode_text(message.sender.as_str()));
    append(&mut bytes, &encode_u64(message.timestamp));
    append(&mut bytes, &encode_u128(message.amount));
    append(&mut bytes, &encode_account(&message.asset));
    append(&mut bytes, &encode_u128(message.transfer_nonce));
    bytes
}

/// The hash that identifies a message among the pending swaps: the SHA3-256
/// digest of its canonical encoding, or `None` for a message whose sender is
/// too long to be encoded.
pub fn hash_message(message: &SwapMessage) -> (hash: Option<Vec<u8>>)
    ensures
        hash is Some == encodable(message.sender@),
        hash is Some ==> hash->0@ == sha3_256(message_encoding(*message)),
{
    if can_encode(message) {
        let bytes = encode_message(message);
        Some(sha3_256_digest(&bytes))
    } else {
        None
    }
}

} // verus!
