//! Consensus encoded blocks, headers and witnesses: the calls into `bitcoin` that decode or build
//! them.
use vstd::prelude::*;

use crate::compact_size::le_value;
use crate::model::BlockHeader;

verus! {

/// A block of `bitcoin`, carried through unopened.
#[verifier::external_type_specification]
#[verifier::external_body]
pub struct ExBlock(bitcoin::Block);

/// A transaction of `bitcoin`, carried through unopened.
#[verifier::external_type_specification]
#[verifier::external_body]
pub struct ExTransaction(bitcoin::Transaction);

/// `Clone` of `bitcoin::Transaction`, which `derive` writes over fields that all derive `Clone`.
///
/// Trusted: the clone equals the transaction.
pub assume_specification[ <bitcoin::Transaction as Clone>::clone ](t: &bitcoin::Transaction) -> (r: bitcoin::Transaction)
    ensures
        r == *t,
;

/// A transaction witness of `bitcoin`, carried through unopened.
#[verifier::external_type_specification]
#[verifier::external_body]
pub struct ExWitness(bitcoin::Witness);

/// Error of consensus decoding.
#[verifier::external_type_specification]
#[verifier::external_body]
pub struct ExEncodeError(bitcoin::consensus::encode::Error);

/// Error of consensus decoding from hex.
#[verifier::external_type_specification]
#[verifier::external_body]
pub struct ExFromHexError(bitcoin::consensus::encode::FromHexError);

/// `h` is the header whose 80 byte consensus encoding is `bytes`: version, previous block hash,
/// merkle root, time, bits and nonce, each integer little endian.
pub open spec fn header_decodes_to(bytes: Seq<u8>, h: BlockHeader) -> bool {
    &&& h.version == (le_value(bytes.subrange(0, 4)) as u32) as i32
    &&& h.prev_blockhash@ == bytes.subrange(4, 36)
    &&& h.merkle_root@ == bytes.subrange(36, 68)
    &&& h.time == le_value(bytes.subrange(68, 72))
    &&& h.bits == le_value(bytes.subrange(72, 76))
    &&& h.nonce == le_value(bytes.subrange(76, 80))
}

/// What `bitcoin::consensus::encode::deserialize_hex::<bitcoin::Block>` returns for `s`: the
/// block, or its error.
pub uninterp spec fn block_hex_result(s: Seq<char>) -> Result<bitcoin::Block, bitcoin::consensus::encode::FromHexError>;

/// The block read from `s`, or `None` where it does not decode.
pub open spec fn block_from_hex(s: Seq<char>) -> Option<bitcoin::Block> {
    match block_hex_result(s) {
        Ok(b) => Some(b),
        Err(_) => None,
    }
}

/// Whether `bitcoin::consensus::encode::deserialize_hex::<bitcoin::Block>` accepts `s`.
pub open spec fn block_hex_decodes(s: Seq<char>) -> bool {
    block_from_hex(s) is Some
}

/// The witness that `bitcoin::Witness::from_slice` builds of `items`.
pub uninterp spec fn witness_from_slice(items: Seq<Seq<u8>>) -> bitcoin::Witness;

/// The error that `bitcoin::consensus::encode::deserialize::<block::Header>` returns for `bytes`
/// (where it fails).
pub uninterp spec fn header_decode_error(bytes: Seq<u8>) -> bitcoin::consensus::encode::Error;

/// Decodes a block header with `bitcoin::consensus::encode::deserialize::<block::Header>`.
///
/// Trusted: a header is six fixed width fields, 80 bytes in all, and `deserialize` fails unless
/// it consumes its input entirely; so the call succeeds exactly on 80 bytes and reads the fields
/// from them in order. The error is a function of the bytes alone, named by
/// [`header_decode_error`].
#[verifier::external_body]
pub(crate) fn decode_header(bytes: &[u8]) -> (r: Result<BlockHeader, bitcoin::consensus::encode::Error>)
    ensures
        r is Ok <==> bytes@.len() == 80,
        r matches Ok(h) ==> header_decodes_to(bytes@, h),
        r matches Err(e) ==> e == header_decode_error(bytes@),
{
    match bitcoin::consensus::encode::deserialize::<bitcoin::block::Header>(bytes) {
        Ok(h) => Ok(BlockHeader {
            version: h.version.to_consensus(),
            prev_blockhash: bitcoin::hashes::Hash::to_byte_array(h.prev_blockhash),
            merkle_root: bitcoin::hashes::Hash::to_byte_array(h.merkle_root),
            time: h.time,
            bits: h.bits.to_consensus(),
            nonce: h.nonce,
        }),
        Err(e) => Err(e),
    }
}

/// Decodes a hex encoded block with `bitcoin::consensus::encode::deserialize_hex`.
///
/// Trusted: the result, the error included, is a function of the string alone, named by
/// [`block_hex_result`] (the consensus decoding of a block is not restated).
#[verifier::external_body]
pub(crate) fn decode_block_hex(s: &str) -> (r: Result<bitcoin::Block, bitcoin::consensus::encode::FromHexError>)
    ensures
        r == block_hex_result(s@),
{
    bitcoin::consensus::encode::deserialize_hex::<bitcoin::Block>(s)
}

/// Builds a witness from its items with `bitcoin::Witness::from_slice`.
///
/// Trusted: the witness is a function of the items' bytes alone, named by
/// [`witness_from_slice`].
#[verifier::external_body]
pub(crate) fn witness_from_items(items: &[Vec<u8>]) -> (w: bitcoin::Witness)
    ensures
        w == witness_from_slice(items@.map_values(|v: Vec<u8>| v@)),
{
    bitcoin::Witness::from_slice(items)
}

} // verus!
