//! Hexadecimal text: what it means, and the calls into `bitcoin` that decode it.
//!
//! The decoding itself is done by the `hex` crate that `bitcoin` re-exports and by the hash types
//! of `bitcoin`; this module states what those calls return.
use vstd::prelude::*;

use bitcoin::hex::FromHex;
use core::str::FromStr;

verus! {

/// Error of decoding hex into a byte vector (odd length or a non hex character).
#[verifier::external_type_specification]
#[verifier::external_body]
pub struct ExHexToBytesError(bitcoin::hex::HexToBytesError);

/// Error of decoding hex into a fixed length byte array (wrong length or a non hex character).
#[verifier::external_type_specification]
#[verifier::external_body]
pub struct ExHexToArrayError(bitcoin::hex::HexToArrayError);

/// Whether `c` is one of `0-9`, `a-f`, `A-F`.
pub open spec fn is_hex_digit(c: char) -> bool {
    ||| ('0' as int) <= (c as int) <= ('9' as int)
    ||| ('a' as int) <= (c as int) <= ('f' as int)
    ||| ('A' as int) <= (c as int) <= ('F' as int)
}

/// The value of the hex digit `c`.
pub open spec fn hex_digit_value(c: char) -> int {
    if ('0' as int) <= (c as int) <= ('9' as int) {
        (c as int) - ('0' as int)
    } else if ('a' as int) <= (c as int) <= ('f' as int) {
        (c as int) - ('a' as int) + 10
    } else {
        (c as int) - ('A' as int) + 10
    }
}

/// Every character of `s` is a hex digit.
pub open spec fn all_hex_digits(s: Seq<char>) -> bool {
    forall|i: int| 0 <= i < s.len() ==> #[trigger] is_hex_digit(s[i])
}

/// `s` is the hex encoding of a byte string: an even number of hex digits.
pub open spec fn is_hex(s: Seq<char>) -> bool {
    s.len() % 2 == 0 && all_hex_digits(s)
}

/// The bytes that the hex string `s` encodes, two digits per byte, high nibble first.
pub open spec fn hex_decode(s: Seq<char>) -> Seq<u8> {
    Seq::new(
        s.len() / 2,
        |i: int| (16 * hex_digit_value(s[2 * i]) + hex_digit_value(s[2 * i + 1])) as u8,
    )
}

/// `s` is the hex encoding of a 32 byte hash: exactly 64 hex digits.
pub open spec fn is_hash_hex(s: Seq<char>) -> bool {
    s.len() == 64 && all_hex_digits(s)
}

/// The bytes of the hash written as `s`.
///
/// Hashes of blocks and transactions are displayed with their bytes in reverse order, so the
/// decoded bytes are reversed.
pub open spec fn hash_from_hex(s: Seq<char>) -> Seq<u8> {
    hex_decode(s).reverse()
}

/// The error that `<Vec<u8> as bitcoin::hex::FromHex>::from_hex` returns for `s` (where it fails).
pub uninterp spec fn bytes_hex_error(s: Seq<char>) -> bitcoin::hex::HexToBytesError;

/// The error that `<[u8; 32] as bitcoin::hex::FromHex>::from_hex` returns for `s` (where it
/// fails). The `from_str` of each hash type of `bitcoin` reads the hash with this call and hands
/// its error on.
pub uninterp spec fn array_hex_error(s: Seq<char>) -> bitcoin::hex::HexToArrayError;

/// Decodes a hex string into bytes with `<Vec<u8> as bitcoin::hex::FromHex>::from_hex`.
///
/// Trusted: the call succeeds exactly on an even number of hex digits (either case), and then
/// returns the bytes, each from two digits, high nibble first. The source works on the UTF-8
/// bytes of the string; a non ASCII character yields bytes that are no hex digit, so over the
/// characters the statement is the same. The error is a function of the string alone, named by
/// [`bytes_hex_error`].
#[verifier::external_body]
pub(crate) fn bytes_from_hex(s: &str) -> (r: Result<Vec<u8>, bitcoin::hex::HexToBytesError>)
    ensures
        r is Ok <==> is_hex(s@),
        r matches Ok(b) ==> b@ == hex_decode(s@),
        r matches Err(e) ==> e == bytes_hex_error(s@),
{
    Vec::<u8>::from_hex(s)
}

/// Parses a block hash with `<bitcoin::BlockHash as FromStr>::from_str` and returns its bytes.
///
/// Trusted: the call succeeds exactly on 64 hex digits, and the hash bytes are the decoded bytes
/// in reverse order (the display order of block hashes is backwards).
/// Its error is that of reading the hex, named by [`array_hex_error`].
#[verifier::external_body]
pub(crate) fn block_hash_from_str(s: &str) -> (r: Result<[u8; 32], bitcoin::hex::HexToArrayError>)
    ensures
        r is Ok <==> is_hash_hex(s@),
        r matches Ok(h) ==> h@ == hash_from_hex(s@),
        r matches Err(e) ==> e == array_hex_error(s@),
{
    match bitcoin::BlockHash::from_str(s) {
        Ok(h) => Ok(bitcoin::hashes::Hash::to_byte_array(h)),
        Err(e) => Err(e),
    }
}

/// Parses a transaction id with `<bitcoin::Txid as FromStr>::from_str` and returns its bytes.
///
/// Trusted: the call succeeds exactly on 64 hex digits, and the id bytes are the decoded bytes
/// in reverse order.
/// Its error is that of reading the hex, named by [`array_hex_error`].
#[verifier::external_body]
pub(crate) fn txid_from_str(s: &str) -> (r: Result<[u8; 32], bitcoin::hex::HexToArrayError>)
    ensures
        r is Ok <==> is_hash_hex(s@),
        r matches Ok(h) ==> h@ == hash_from_hex(s@),
        r matches Err(e) ==> e == array_hex_error(s@),
{
    match bitcoin::Txid::from_str(s) {
        Ok(h) => Ok(bitcoin::hashes::Hash::to_byte_array(h)),
        Err(e) => Err(e),
    }
}

/// Parses a witness transaction id with `<bitcoin::Wtxid as FromStr>::from_str` and returns its
/// bytes.
///
/// Trusted: the call succeeds exactly on 64 hex digits, and the id bytes are the decoded bytes
/// in reverse order.
/// Its error is that of reading the hex, named by [`array_hex_error`].
#[verifier::external_body]
pub(crate) fn wtxid_from_str(s: &str) -> (r: Result<[u8; 32], bitcoin::hex::HexToArrayError>)
    ensures
        r is Ok <==> is_hash_hex(s@),
        r matches Ok(h) ==> h@ == hash_from_hex(s@),
        r matches Err(e) ==> e == array_hex_error(s@),
{
    match bitcoin::Wtxid::from_str(s) {
        Ok(h) => Ok(bitcoin::hashes::Hash::to_byte_array(h)),
        Err(e) => Err(e),
    }
}

/// Parses a compact filter header with `<bitcoin::bip158::FilterHash as FromStr>::from_str` and
/// returns its bytes.
///
/// Trusted: the call succeeds exactly on 64 hex digits, and the hash bytes are the decoded bytes
/// in reverse order (`FilterHash` wraps a double SHA256 hash, displayed backwards).
/// Its error is that of reading the hex, named by [`array_hex_error`].
#[verifier::external_body]
pub(crate) fn filter_hash_from_str(s: &str) -> (r: Result<[u8; 32], bitcoin::hex::HexToArrayError>)
    ensures
        r is Ok <==> is_hash_hex(s@),
        r matches Ok(h) ==> h@ == hash_from_hex(s@),
        r matches Err(e) ==> e == array_hex_error(s@),
{
    match bitcoin::bip158::FilterHash::from_str(s) {
        Ok(h) => Ok(bitcoin::hashes::Hash::to_byte_array(h)),
        Err(e) => Err(e),
    }
}

/// Parses a merkle root with `<bitcoin::TxMerkleNode as FromStr>::from_str` and returns its
/// bytes.
///
/// Trusted: the call succeeds exactly on 64 hex digits, and the hash bytes are the decoded bytes
/// in reverse order.
/// Its error is that of reading the hex, named by [`array_hex_error`].
#[verifier::external_body]
pub(crate) fn merkle_node_from_str(s: &str) -> (r: Result<[u8; 32], bitcoin::hex::HexToArrayError>)
    ensures
        r is Ok <==> is_hash_hex(s@),
        r matches Ok(h) ==> h@ == hash_from_hex(s@),
        r matches Err(e) ==> e == array_hex_error(s@),
{
    match bitcoin::TxMerkleNode::from_str(s) {
        Ok(h) => Ok(bitcoin::hashes::Hash::to_byte_array(h)),
        Err(e) => Err(e),
    }
}

/// Every string of `ids` is the hex of a 32 byte hash.
pub open spec fn all_hash_hex(ids: Seq<String>) -> bool {
    forall|i: int| 0 <= i < ids.len() ==> is_hash_hex(#[trigger] ids[i]@)
}

/// `hashes` are the hashes written as `ids`, in order.
pub open spec fn hashes_from_hex(ids: Seq<String>, hashes: Seq<[u8; 32]>) -> bool {
    &&& hashes.len() == ids.len()
    &&& forall|i: int| 0 <= i < ids.len() ==> (#[trigger] hashes[i])@ == hash_from_hex(ids[i]@)
}

/// `i` is the first position of `ids` that is not the hex of a 32 byte hash.
pub open spec fn is_first_bad_hash(ids: Seq<String>, i: int) -> bool {
    &&& 0 <= i < ids.len()
    &&& !is_hash_hex(ids[i]@)
    &&& forall|j: int| 0 <= j < i ==> is_hash_hex(#[trigger] ids[j]@)
}

/// The first position of `ids` that is not the hex of a 32 byte hash (where there is one).
pub open spec fn first_bad_hash(ids: Seq<String>) -> int {
    choose|i: int| is_first_bad_hash(ids, i)
}

/// The error of reading the first string of `ids` that is not the hex of a 32 byte hash.
pub open spec fn first_hash_error(ids: Seq<String>) -> bitcoin::hex::HexToArrayError {
    array_hex_error(ids[first_bad_hash(ids)]@)
}

/// A first bad position is the only one.
pub proof fn lemma_first_bad_hash(ids: Seq<String>, i: int)
    requires
        is_first_bad_hash(ids, i),
    ensures
        first_bad_hash(ids) == i,
{
    let k = first_bad_hash(ids);
    assert(is_first_bad_hash(ids, k));
    if k < i {
        assert(is_hash_hex(ids[k]@));
    } else if k > i {
        assert(is_hash_hex(ids[i]@));
    }
}

/// Parses each string of `ids` as a transaction id; fails with the error of the first one that
/// does not parse.
pub(crate) fn txids_from_strs(ids: &Vec<String>) -> (r: Result<Vec<[u8; 32]>, bitcoin::hex::HexToArrayError>)
    ensures
        r is Ok <==> all_hash_hex(ids@),
        r matches Ok(hashes) ==> hashes_from_hex(ids@, hashes@),
        r matches Err(e) ==> e == first_hash_error(ids@),
{
    let mut hashes: Vec<[u8; 32]> = Vec::new();
    let n = ids.len();
    let mut i: usize = 0;
    while i < n
        invariant
            n == ids@.len(),
            i <= n,
            hashes@.len() == i,
            forall|j: int| 0 <= j < i ==> is_hash_hex(#[trigger] ids@[j]@),
            forall|j: int| 0 <= j < i ==> (#[trigger] hashes@[j])@ == hash_from_hex(ids@[j]@),
        decreases n - i,
    {
        match txid_from_str(ids[i].as_str()) {
            Ok(h) => hashes.push(h),
            Err(e) => {
                proof {
                    lemma_first_bad_hash(ids@, i as int);
                }
                return Err(e);
            },
        }
        i = i + 1;
    }
    Ok(hashes)
}

/// `o` is absent, or the hex of a 32 byte hash.
pub open spec fn opt_is_hash_hex(o: Option<String>) -> bool {
    match o {
        Some(s) => is_hash_hex(s@),
        None => true,
    }
}

/// `h` is the optional hash written as `o`: both absent, or `h` holds the hash that `o` spells.
pub open spec fn opt_hash_from_hex(o: Option<String>, h: Option<[u8; 32]>) -> bool {
    match (o, h) {
        (Some(s), Some(b)) => b@ == hash_from_hex(s@),
        (None, None) => true,
        _ => false,
    }
}

/// Parses an optional block hash, as `o.map(|s| s.parse::<BlockHash>()).transpose()` does.
pub(crate) fn opt_block_hash_from_str(o: &Option<String>) -> (r: Result<Option<[u8; 32]>, bitcoin::hex::HexToArrayError>)
    ensures
        r is Ok <==> opt_is_hash_hex(*o),
        r matches Ok(h) ==> opt_hash_from_hex(*o, h),
        r matches Err(e) ==> o matches Some(s) && e == array_hex_error(s@),
{
    match o {
        Some(s) => match block_hash_from_str(s.as_str()) {
            Ok(h) => Ok(Some(h)),
            Err(e) => Err(e),
        },
        None => Ok(None),
    }
}

} // verus!
