//! Chain parameters and proof of work values, as the JSON-RPC API writes them, and the calls into
//! `bitcoin` that read them.
use vstd::prelude::*;

use crate::hex::{all_hex_digits, hex_digit_value};

use vstd::utf8::{
    encode_utf8, encode_utf8_valid_utf8, is_char_boundary,
    is_char_boundary_iff_not_is_continuation_byte,
};

verus! {

/// Error of parsing a network name.
#[verifier::external_type_specification]
#[verifier::external_body]
pub struct ExParseNetworkError(bitcoin::network::ParseNetworkError);

/// Error of parsing an integer from a hex string that must not carry a `0x` prefix.
#[verifier::external_type_specification]
#[verifier::external_body]
pub struct ExUnprefixedHexError(bitcoin::error::UnprefixedHexError);

/// The network a node runs on.
#[derive(Debug, Clone, Copy, PartialEq, Eq, Structural)]
pub enum Network {
    /// Mainnet Bitcoin.
    Bitcoin,
    /// Bitcoin's testnet network.
    Testnet,
    /// Bitcoin's testnet4 network.
    Testnet4,
    /// Bitcoin's signet network.
    Signet,
    /// Bitcoin's regtest network.
    Regtest,
}

/// The network that Core's name `arg` stands for (as in `-chain=<arg>`), if any.
pub open spec fn network_from_core_arg(arg: Seq<char>) -> Option<Network> {
    if arg == "main"@ {
        Some(Network::Bitcoin)
    } else if arg == "test"@ {
        Some(Network::Testnet)
    } else if arg == "testnet4"@ {
        Some(Network::Testnet4)
    } else if arg == "signet"@ {
        Some(Network::Signet)
    } else if arg == "regtest"@ {
        Some(Network::Regtest)
    } else {
        None
    }
}

/// The error that `bitcoin::Network::from_core_arg` returns for `arg` (where it fails).
pub uninterp spec fn network_error(arg: Seq<char>) -> bitcoin::network::ParseNetworkError;

/// Parses Core's name of a network with `bitcoin::Network::from_core_arg`.
///
/// Trusted: the source maps "main", "test", "testnet4", "signet" and "regtest" to the five
/// networks and rejects every other string, with an error that is a function of the string
/// alone, named by [`network_error`].
#[verifier::external_body]
pub(crate) fn parse_network(arg: &str) -> (r: Result<Network, bitcoin::network::ParseNetworkError>)
    ensures
        match r {
            Ok(n) => network_from_core_arg(arg@) == Some(n),
            Err(e) => network_from_core_arg(arg@) is None && e == network_error(arg@),
        },
{
    match bitcoin::Network::from_core_arg(arg) {
        Ok(bitcoin::Network::Bitcoin) => Ok(Network::Bitcoin),
        Ok(bitcoin::Network::Testnet) => Ok(Network::Testnet),
        Ok(bitcoin::Network::Testnet4) => Ok(Network::Testnet4),
        Ok(bitcoin::Network::Signet) => Ok(Network::Signet),
        Ok(bitcoin::Network::Regtest) => Ok(Network::Regtest),
        Err(e) => Err(e),
    }
}

/// The UTF-8 bytes `b` begin with the prefix `0x` or `0X` (as `str::starts_with` sees it).
pub open spec fn has_hex_prefix(b: Seq<u8>) -> bool {
    b.len() >= 2 && b[0] == 0x30 && (b[1] == 0x78 || b[1] == 0x58)
}

/// Reading a 256 bit value from `s` does not split a character: the string carries the prefix
/// `0x` (and is refused before it is cut), is at most 32 bytes long, or its last 32 bytes start
/// at a character boundary.
///
/// `Work::from_unprefixed_hex` and `Target::from_unprefixed_hex` cut a longer string without the
/// prefix 32 bytes before its end, and panic where that cut falls inside a character.
pub open spec fn u256_hex_splittable(s: Seq<char>) -> bool {
    let b = encode_utf8(s);
    has_hex_prefix(b) || b.len() <= 32 || is_char_boundary(b, b.len() - 32)
}

/// Tests [`u256_hex_splittable`]: whether reading a 256 bit value from `s` keeps to character
/// boundaries.
pub fn is_u256_hex_splittable(s: &str) -> (r: bool)
    ensures
        r == u256_hex_splittable(s@),
{
    let b = s.as_bytes();
    let n = b.len();
    if n >= 2 && b[0] == 0x30 && (b[1] == 0x78 || b[1] == 0x58) {
        return true;
    }
    if n <= 32 {
        return true;
    }
    s.is_char_boundary(n - 32)
}

/// Every character of `s` is ASCII.
pub open spec fn all_ascii(s: Seq<char>) -> bool {
    forall|i: int| 0 <= i < s.len() ==> (#[trigger] s[i] as u32) < 128
}

proof fn lemma_ascii_encoding(s: Seq<char>)
    requires
        all_ascii(s),
    ensures
        encode_utf8(s).len() == s.len(),
        forall|i: int| 0 <= i < s.len() ==> #[trigger] encode_utf8(s)[i] < 128,
    decreases s.len(),
{
    if s.len() > 0 {
        let c = s[0] as u32;
        assert(all_ascii(s.drop_first())) by {
            assert forall|i: int| 0 <= i < s.drop_first().len() implies (#[trigger] s.drop_first()[i] as u32) < 128 by {
                assert(s.drop_first()[i] == s[i + 1]);
            }
        }
        lemma_ascii_encoding(s.drop_first());
        assert(c < 128);
        assert(((c & 0x7F) as u8) < 128) by (bit_vector)
            requires
                c < 128,
        ;
        let rest = encode_utf8(s.drop_first());
        assert(encode_utf8(s) == seq![(c & 0x7F) as u8] + rest);
        assert forall|i: int| 0 <= i < s.len() implies #[trigger] encode_utf8(s)[i] < 128 by {
            if i > 0 {
                assert(encode_utf8(s)[i] == rest[i - 1]);
            }
        }
    }
}

/// A string of ASCII characters is always read as a 256 bit value without splitting a
/// character: its bytes are its characters.
pub proof fn lemma_ascii_splittable(s: Seq<char>)
    requires
        all_ascii(s),
    ensures
        u256_hex_splittable(s),
{
    lemma_ascii_encoding(s);
    let b = encode_utf8(s);
    if b.len() > 32 {
        encode_utf8_valid_utf8(s);
        is_char_boundary_iff_not_is_continuation_byte(b, b.len() - 32);
        assert(b[b.len() - 32] < 128);
    }
}

/// The number that the hex digits `s` write, most significant first.
pub open spec fn hex_number(s: Seq<char>) -> nat
    decreases s.len(),
{
    if s.len() == 0 {
        0
    } else {
        hex_number(s.drop_last()) * 16 + hex_digit_value(s.last()) as nat
    }
}

/// `s` starts with the prefix `0x` or `0X`.
pub open spec fn starts_with_hex_prefix(s: Seq<char>) -> bool {
    s.len() >= 2 && s[0] == '0' && (s[1] == 'x' || s[1] == 'X')
}

/// The number that `from_str_radix(t, 16)` of an unsigned integer type reads from `t`, before
/// the check that it fits the type: an optional `+` followed by at least one hex digit and
/// nothing else.
pub open spec fn radix16_number(t: Seq<char>) -> Option<nat> {
    let digits = if t.len() > 0 && t[0] == '+' {
        t.drop_first()
    } else {
        t
    };
    if digits.len() == 0 || !all_hex_digits(digits) {
        None
    } else {
        Some(hex_number(digits))
    }
}

/// The `u128` that `bitcoin_units::parse::hex_u128` reads from `t`: a `0x` or `0X` prefix is
/// dropped, and the rest read as `u128::from_str_radix(_, 16)` does.
pub open spec fn hex_u128_value(t: Seq<char>) -> Option<nat> {
    let rest = if starts_with_hex_prefix(t) {
        t.skip(2)
    } else {
        t
    };
    match radix16_number(rest) {
        Some(n) => if n <= u128::MAX {
            Some(n)
        } else {
            None
        },
        None => None,
    }
}

/// The `len` bytes that write `n` big endian (its `len` lowest bytes).
pub open spec fn be_bytes(n: nat, len: nat) -> Seq<u8>
    decreases len,
{
    if len == 0 {
        Seq::empty()
    } else {
        be_bytes(n / 256, (len - 1) as nat).push((n % 256) as u8)
    }
}

/// The big endian bytes of the 256 bit value that `U256::from_unprefixed_hex` of `bitcoin` reads
/// from `s` (for `Work` and `Target` alike), or `None` where it fails. A `0x` or `0X` prefix is
/// refused. A string of at most 32 bytes is read as the low `u128`; a longer one is cut 32 bytes
/// before its end, and the two parts are read as the high and the low `u128`, each with
/// `bitcoin_units::parse::hex_u128`. A character that is not ASCII is no hex digit, so a string
/// that holds one fails; otherwise its bytes are its characters.
pub open spec fn u256_from_unprefixed_hex(s: Seq<char>) -> Option<Seq<u8>> {
    if starts_with_hex_prefix(s) || !all_ascii(s) {
        None
    } else if s.len() <= 32 {
        match hex_u128_value(s) {
            Some(low) => Some(be_bytes(0, 16) + be_bytes(low, 16)),
            None => None,
        }
    } else {
        match (hex_u128_value(s.take(s.len() - 32)), hex_u128_value(s.skip(s.len() - 32))) {
            (Some(high), Some(low)) => Some(be_bytes(high, 16) + be_bytes(low, 16)),
            _ => None,
        }
    }
}

/// The error that `U256::from_unprefixed_hex` of `bitcoin` returns for `s` (where it fails);
/// `Work::from_unprefixed_hex` and `Target::from_unprefixed_hex` hand it on.
pub uninterp spec fn u256_hex_error(s: Seq<char>) -> bitcoin::error::UnprefixedHexError;

/// The big endian bytes of the chain work read from `s`, or `None` where reading fails.
pub open spec fn work_from_unprefixed_hex(s: Seq<char>) -> Option<Seq<u8>> {
    u256_from_unprefixed_hex(s)
}

/// The big endian bytes of the target read from `s`, or `None` where reading fails.
pub open spec fn target_from_unprefixed_hex(s: Seq<char>) -> Option<Seq<u8>> {
    u256_from_unprefixed_hex(s)
}

/// The error that `bitcoin::CompactTarget::from_unprefixed_hex` returns for `s` (where it fails).
pub uninterp spec fn compact_target_error(s: Seq<char>) -> bitcoin::error::UnprefixedHexError;

/// The consensus encoding of the compact target that
/// `bitcoin::CompactTarget::from_unprefixed_hex` reads from `s`, or `None` where it fails: `s`
/// must not start with `0x` or `0X`, and is then read as `u32::from_str_radix(s, 16)` does, an
/// optional `+` followed by at least one hex digit and nothing else, of a value that fits a
/// `u32`.
pub open spec fn compact_target_from_unprefixed_hex(s: Seq<char>) -> Option<u32> {
    if starts_with_hex_prefix(s) {
        None
    } else {
        match radix16_number(s) {
            Some(n) => if n <= u32::MAX {
                Some(n as u32)
            } else {
                None
            },
            None => None,
        }
    }
}

/// Reads chain work with `bitcoin::Work::from_unprefixed_hex`, returned as big endian bytes.
///
/// Trusted: `Work::from_unprefixed_hex` wraps `U256::from_unprefixed_hex`, which the source
/// (`pow.rs`, with `bitcoin_units::parse::hex_u128`) and the std documentation of
/// `u128::from_str_radix` give as [`u256_from_unprefixed_hex`]; the bytes are those of
/// `to_be_bytes`. The error is a function of the string alone, named by [`u256_hex_error`]. The
/// source panics where the cut 32 bytes before the end falls inside a character, which
/// `requires` leaves out.
#[verifier::external_body]
pub(crate) fn parse_work(s: &str) -> (r: Result<[u8; 32], bitcoin::error::UnprefixedHexError>)
    requires
        u256_hex_splittable(s@),
    ensures
        match r {
            Ok(w) => work_from_unprefixed_hex(s@) == Some(w@),
            Err(e) => work_from_unprefixed_hex(s@) is None && e == u256_hex_error(s@),
        },
{
    match bitcoin::Work::from_unprefixed_hex(s) {
        Ok(w) => Ok(w.to_be_bytes()),
        Err(e) => Err(e),
    }
}

/// Reads a target with `bitcoin::Target::from_unprefixed_hex`, returned as big endian bytes.
///
/// Trusted: `Target::from_unprefixed_hex` wraps `U256::from_unprefixed_hex`, as
/// [`parse_work`] does; see there. The error is named by [`u256_hex_error`].
#[verifier::external_body]
pub(crate) fn parse_target(s: &str) -> (r: Result<[u8; 32], bitcoin::error::UnprefixedHexError>)
    requires
        u256_hex_splittable(s@),
    ensures
        match r {
            Ok(t) => target_from_unprefixed_hex(s@) == Some(t@),
            Err(e) => target_from_unprefixed_hex(s@) is None && e == u256_hex_error(s@),
        },
{
    match bitcoin::Target::from_unprefixed_hex(s) {
        Ok(t) => Ok(t.to_be_bytes()),
        Err(e) => Err(e),
    }
}

/// Reads the compact target ("bits") with `bitcoin::CompactTarget::from_unprefixed_hex`,
/// returned as its consensus `u32`.
///
/// Trusted: the source refuses the prefix `0x` or `0X`, reads the rest with
/// `u32::from_str_radix(s, 16)` and keeps the number as the consensus encoding; the std
/// documentation of `from_str_radix` gives [`compact_target_from_unprefixed_hex`]. The error is a
/// function of the string alone, named by [`compact_target_error`].
#[verifier::external_body]
pub(crate) fn parse_compact_target(s: &str) -> (r: Result<u32, bitcoin::error::UnprefixedHexError>)
    ensures
        match r {
            Ok(b) => compact_target_from_unprefixed_hex(s@) == Some(b),
            Err(e) => compact_target_from_unprefixed_hex(s@) is None && e == compact_target_error(s@),
        },
{
    match bitcoin::CompactTarget::from_unprefixed_hex(s) {
        Ok(b) => Ok(b.to_consensus()),
        Err(e) => Err(e),
    }
}

} // verus!
