use std::str::FromStr;

use bitcoin::address::NetworkUnchecked;
use bitcoin::hex::FromHex;
use bitcoin::{Address, Amount, Psbt, Transaction, Txid};
use corepc_types::v17::{
    DecodePsbtError, DecodeScriptError, GetRawTransactionVerboseError, PsbtOutputError, FinalizePsbtError, FundRawTransactionError, SignFailError,
    SignRawTransactionError,
};
use corepc_types::v30::{GetOrphanTxsVerboseOneEntryError, GetOrphanTxsVerboseTwoEntryError};

fn hex_bytes_error() -> bitcoin::hex::HexToBytesError { Vec::<u8>::from_hex("zz").unwrap_err() }
fn hex_array_error() -> bitcoin::hex::HexToArrayError { Txid::from_str("zz").unwrap_err() }
fn address_error() -> bitcoin::address::ParseError {
    Address::<NetworkUnchecked>::from_str("x").unwrap_err()
}
fn from_hex_error() -> bitcoin::consensus::encode::FromHexError {
    bitcoin::consensus::encode::deserialize_hex::<Transaction>("zz").unwrap_err()
}
fn encode_error() -> bitcoin::consensus::encode::Error {
    bitcoin::consensus::encode::deserialize::<Transaction>(&[]).unwrap_err()
}

#[test]
fn decode_script_error_messages() {
    assert_eq!(DecodeScriptError::Hex(hex_bytes_error()).message(), "conversion of the `hex` field failed");
    assert_eq!(
        DecodeScriptError::Addresses(address_error()).message(),
        "conversion of the `addresses` field failed"
    );
    assert_eq!(DecodeScriptError::P2sh(address_error()).message(), "conversion of the `p2sh` field failed");
}

#[test]
fn psbt_and_signing_error_messages() {
    let psbt = Psbt::from_str("not a psbt").unwrap_err();
    assert_eq!(FinalizePsbtError::Psbt(psbt).message(), "conversion of the `psbt` field failed");
    assert_eq!(FinalizePsbtError::Hex(from_hex_error()).message(), "conversion of the `hex` field failed");
    assert_eq!(FundRawTransactionError::Hex(from_hex_error()).message(), "conversion of the `hex` field failed");
    let fee = Amount::from_btc(-1.0).unwrap_err();
    assert_eq!(FundRawTransactionError::Fee(fee).message(), "conversion of the `fee` field failed");
    assert_eq!(SignRawTransactionError::Hex(from_hex_error()).message(), "conversion of the `hex` field failed");
    let fail = SignFailError::Txid(hex_array_error());
    assert_eq!(fail.message(), "conversion of the `txid` field failed");
    assert_eq!(SignRawTransactionError::Errors(fail).message(), "conversion of the `errors` field failed");
    assert_eq!(
        SignFailError::ScriptSig(hex_bytes_error()).message(),
        "conversion of the `script_sig` field failed"
    );
}

#[test]
fn orphan_error_messages() {
    assert_eq!(
        GetOrphanTxsVerboseOneEntryError::Txid(hex_array_error()).message(),
        "conversion of the `txid` field failed"
    );
    assert_eq!(
        GetOrphanTxsVerboseOneEntryError::Wtxid(hex_array_error()).message(),
        "conversion of the `wtxid` field failed"
    );
    assert_eq!(
        GetOrphanTxsVerboseTwoEntryError::Hex(hex_bytes_error()).message(),
        "conversion of hex data to bytes failed"
    );
    assert_eq!(
        GetOrphanTxsVerboseTwoEntryError::Consensus(encode_error()).message(),
        "consensus decoding of `hex` to transaction failed"
    );
    assert_eq!(
        GetOrphanTxsVerboseTwoEntryError::Wtxid(hex_array_error()).message(),
        "conversion of the `wtxid` field failed"
    );
}

type InputError = corepc_types::v17::PsbtInputError<(), (), (), ()>;

#[test]
fn psbt_input_error_messages() {
    let sighash = "NOT_A_SIGHASH".parse::<bitcoin::sighash::EcdsaSighashType>().unwrap_err();
    let cases: Vec<(InputError, &str)> = vec![
        (InputError::NonWitnessUtxo(()), "conversion of the `non_witness_utxo` field failed"),
        (InputError::WitnessUtxo(()), "conversion of the `witness_utxo` field failed"),
        (InputError::PartialSignatures(()), "conversion of the `partial_signatures` field failed"),
        (InputError::Sighash(sighash), "conversion of the `sighash` field failed"),
        (InputError::RedeemScript(hex_bytes_error()), "conversion of the `redeem_script` field failed"),
        (InputError::WitnessScript(hex_bytes_error()), "conversion of the `witness_script` field failed"),
        (InputError::Bip32Derivs(()), "conversion of the `bip32_derivs` field failed"),
        (InputError::FinalScriptSig(hex_bytes_error()), "conversion of the `final_script_sig` field failed"),
        (
            InputError::FinalScriptWitness(hex_bytes_error()),
            "conversion of the `final_script_witness` field failed",
        ),
        (InputError::Unknown(hex_bytes_error()), "conversion of the `unknown` field failed"),
    ];
    for (e, m) in cases {
        assert_eq!(e.message(), m);
    }
}

#[test]
fn psbt_output_and_decode_error_messages() {
    assert_eq!(
        PsbtOutputError::<()>::RedeemScript(hex_bytes_error()).message(),
        "conversion of the `redeem_script` field failed"
    );
    assert_eq!(PsbtOutputError::<()>::Bip32Derivs(()).message(), "conversion of the `bip32_derivs` field failed");
    assert_eq!(
        DecodePsbtError::<(), (), (), ()>::Tx(()).message(),
        "conversion of raw transaction data field failed"
    );
    assert_eq!(
        DecodePsbtError::<(), (), (), ()>::Outputs(PsbtOutputError::Unknown(hex_bytes_error())).message(),
        "conversion of one of the PSBT outputs failed"
    );
    assert_eq!(
        GetRawTransactionVerboseError::<(), ()>::BlockHash(hex_array_error()).message(),
        "conversion of the `block_hash` field failed"
    );
    assert_eq!(
        GetRawTransactionVerboseError::<(), ()>::Inputs(()).message(),
        "conversion of one of the transaction inputs failed"
    );
}
