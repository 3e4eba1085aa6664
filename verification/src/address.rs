//! Addresses and witness programs: the calls into `bitcoin` that parse and check them.
use vstd::prelude::*;

use bitcoin::address::NetworkUnchecked;

verus! {

/// A Bitcoin address parsed by `bitcoin`, its network not yet checked, carried through unopened.
///
/// Verus refuses a declaration of `bitcoin::Address` (its parameter is bound by a trait of
/// `bitcoin`), so the value is held in a type of this crate whose content Verus does not see.
#[verifier::external_body]
#[derive(Debug, PartialEq, Eq)]
pub struct Address(pub bitcoin::Address<NetworkUnchecked>);

/// Error of parsing an address.
#[verifier::external_type_specification]
#[verifier::external_body]
pub struct ExAddressParseError(bitcoin::address::ParseError);

/// A segwit version of `bitcoin`, carried through unopened.
#[verifier::external_type_specification]
#[verifier::external_body]
pub struct ExWitnessVersion(bitcoin::WitnessVersion);

/// Error of converting an integer into a segwit version.
#[verifier::external_type_specification]
#[verifier::external_body]
pub struct ExWitnessVersionError(bitcoin::script::witness_version::TryFromError);

/// A witness program of `bitcoin`, carried through unopened.
#[verifier::external_type_specification]
#[verifier::external_body]
pub struct ExWitnessProgram(bitcoin::WitnessProgram);

/// Error of building a witness program.
#[verifier::external_type_specification]
#[verifier::external_body]
pub struct ExWitnessProgramError(bitcoin::script::witness_program::Error);

/// What `<bitcoin::Address<NetworkUnchecked> as FromStr>::from_str` returns for `s`: the address,
/// or its error.
pub uninterp spec fn address_parse_result(s: Seq<char>) -> Result<Address, bitcoin::address::ParseError>;

/// The address read from `s`, or `None` where it does not parse.
pub open spec fn address_from_str(s: Seq<char>) -> Option<Address> {
    match address_parse_result(s) {
        Ok(a) => Some(a),
        Err(_) => None,
    }
}

/// Whether `<bitcoin::Address<NetworkUnchecked> as FromStr>::from_str` accepts `s`.
pub open spec fn address_parses(s: Seq<char>) -> bool {
    address_from_str(s) is Some
}

/// Parses an address (its network not yet checked) with
/// `<bitcoin::Address<NetworkUnchecked> as FromStr>::from_str`.
///
/// Trusted: the result, the error included, is a function of the string alone, named by
/// [`address_parse_result`] (bech32 and base58 decoding with checksums are not restated).
#[verifier::external_body]
pub(crate) fn parse_address(s: &str) -> (r: Result<Address, bitcoin::address::ParseError>)
    ensures
        r == address_parse_result(s@),
{
    match s.parse::<bitcoin::Address<NetworkUnchecked>>() {
        Ok(a) => Ok(Address(a)),
        Err(e) => Err(e),
    }
}

/// The segwit version that `<bitcoin::WitnessVersion as TryFrom<u8>>::try_from` makes of `v`
/// (where it accepts `v`).
pub uninterp spec fn witness_version_of(v: u8) -> bitcoin::WitnessVersion;

/// The error that `<bitcoin::WitnessVersion as TryFrom<u8>>::try_from` returns for `v` (where it
/// refuses `v`).
pub uninterp spec fn witness_version_error(v: u8) -> bitcoin::script::witness_version::TryFromError;

/// The error that `bitcoin::WitnessProgram::new` returns for `version` and `program` (where it
/// refuses them).
pub uninterp spec fn witness_program_error(version: bitcoin::WitnessVersion, program: Seq<u8>) -> bitcoin::script::witness_program::Error;

/// The witness program that `bitcoin::WitnessProgram::new` builds of `version` and `program`
/// (where it accepts them).
pub uninterp spec fn witness_program_of(version: bitcoin::WitnessVersion, program: Seq<u8>) -> bitcoin::WitnessProgram;

/// Converts an integer into a segwit version with `<bitcoin::WitnessVersion as TryFrom<u8>>`.
///
/// Trusted: the source accepts exactly the versions 0 to 16, mapping each to its own variant
/// (`V0` to `V16`), so only 0 gives version 0; the version made is a function of the integer
/// alone, named by [`witness_version_of`], and so is the error, named by
/// [`witness_version_error`].
#[verifier::external_body]
pub(crate) fn witness_version_from_u8(v: u8) -> (r: Result<
    bitcoin::WitnessVersion,
    bitcoin::script::witness_version::TryFromError,
>)
    ensures
        r is Ok <==> v <= 16,
        r matches Ok(w) ==> w == witness_version_of(v),
        r matches Ok(w) ==> (w == witness_version_of(0) <==> v == 0),
        r matches Err(e) ==> e == witness_version_error(v),
{
    bitcoin::WitnessVersion::try_from(v)
}

/// A program of `len` bytes is allowed for `version`: 2 to 40 bytes, and for version 0 only 20
/// or 32.
pub open spec fn valid_witness_program_length(version: bitcoin::WitnessVersion, len: nat) -> bool {
    &&& 2 <= len <= 40
    &&& version == witness_version_of(0) ==> (len == 20 || len == 32)
}

/// Builds a witness program with `bitcoin::WitnessProgram::new`.
///
/// Trusted: the source rejects a program shorter than 2 or longer than 40 bytes, and a version 0
/// program (`WitnessVersion::V0`, which is [`witness_version_of`]`(0)`) of a length other than 20
/// or 32, and accepts every other program. The program built
/// is a function of the version and the bytes, named by [`witness_program_of`], and so is the
/// error, named by [`witness_program_error`].
#[verifier::external_body]
pub(crate) fn witness_program_new(version: bitcoin::WitnessVersion, program: &[u8]) -> (r: Result<
    bitcoin::WitnessProgram,
    bitcoin::script::witness_program::Error,
>)
    ensures
        r is Ok <==> valid_witness_program_length(version, program@.len()),
        r matches Ok(p) ==> p == witness_program_of(version, program@),
        r matches Err(e) ==> e == witness_program_error(version, program@),
{
    bitcoin::WitnessProgram::new(version, program)
}

/// Every string of `addresses` parses as an address.
pub open spec fn all_addresses_parse(addresses: Seq<String>) -> bool {
    forall|i: int| 0 <= i < addresses.len() ==> address_parses(#[trigger] addresses[i]@)
}

/// The address read from an optional address field, or `None` where the field is absent (or does
/// not parse).
pub open spec fn opt_address_from_str(o: Option<String>) -> Option<Address> {
    match o {
        Some(s) => address_from_str(s@),
        None => None,
    }
}

/// `parsed` holds, in order, the address read from each string of `strs`.
pub open spec fn addresses_from_strs(strs: Seq<String>, parsed: Seq<Address>) -> bool {
    &&& parsed.len() == strs.len()
    &&& forall|i: int| 0 <= i < strs.len() ==> address_from_str(#[trigger] strs[i]@) == Some(parsed[i])
}

/// Law: a list of addresses read from strings holds, in the strings' order, one address per
/// string: the one its string parses to.
pub proof fn lemma_addresses_from_strs_in_order(strs: Seq<String>, parsed: Seq<Address>)
    requires
        addresses_from_strs(strs, parsed),
    ensures
        parsed.len() == strs.len(),
        forall|i: int|
            0 <= i < strs.len() ==> address_parse_result(#[trigger] strs[i]@) == Ok::<
                Address,
                bitcoin::address::ParseError,
            >(parsed[i]),
{
}

/// Law: an optional address field gives no address where it is absent, and the address its
/// string parses to where it is present and parses.
pub proof fn lemma_opt_address_from_str(o: Option<String>)
    ensures
        o is None ==> opt_address_from_str(o) is None,
        o matches Some(s) ==> match address_parse_result(s@) {
            Ok(a) => opt_address_from_str(o) == Some(a),
            Err(_) => opt_address_from_str(o) is None,
        },
{
}

/// `e` is the error of the first string of `strs` that does not parse as an address.
pub open spec fn first_address_error(strs: Seq<String>, e: bitcoin::address::ParseError) -> bool {
    exists|i: int|
        0 <= i < strs.len() && all_addresses_parse(strs.take(i))
            && address_parse_result(#[trigger] strs[i]@) == Err::<Address, _>(e)
}

/// Parses each string of `addresses`; fails with the error of the first one that does not parse.
pub(crate) fn parse_addresses(addresses: &Vec<String>) -> (r: Result<Vec<Address>, bitcoin::address::ParseError>)
    ensures
        r is Ok <==> all_addresses_parse(addresses@),
        r matches Ok(v) ==> addresses_from_strs(addresses@, v@),
        r matches Err(e) ==> first_address_error(addresses@, e),
{
    let mut parsed: Vec<Address> = Vec::new();
    let n = addresses.len();
    let mut i: usize = 0;
    while i < n
        invariant
            n == addresses@.len(),
            i <= n,
            parsed@.len() == i,
            forall|j: int| 0 <= j < i ==> address_from_str(#[trigger] addresses@[j]@) == Some(parsed@[j]),
        decreases n - i,
    {
        match parse_address(addresses[i].as_str()) {
            Ok(a) => parsed.push(a),
            Err(e) => {
                assert(all_addresses_parse(addresses@.take(i as int))) by {
                    assert forall|j: int| 0 <= j < i implies address_parses(#[trigger] addresses@.take(i as int)[j]@) by {
                        assert(addresses@.take(i as int)[j] == addresses@[j]);
                    }
                }
                return Err(e);
            },
        }
        i = i + 1;
    }
    Ok(parsed)
}

} // verus!
