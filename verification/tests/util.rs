use std::str::FromStr;

use bitcoin::address::NetworkUnchecked;
use bitcoin::amount::ParseAmountError;
use bitcoin::{Address, Amount, FeeRate};
use corepc_types::v17::{
    CreateMultisig, CreateMultisigError, EstimateSmartFee, SignMessageWithPrivKey,
    ValidateAddress, ValidateAddressError,
};

const P2SH: &str = "3J98t1WpEZ73CNmQviecrnyiWrnqRhWNLy";
const P2WPKH: &str = "bc1qw508d6qejxtdg4y5r3zarvary0c5xw7kv8f3t4";
const PROGRAM: &str = "751e76e8199196d454941c45d1b3a323f1433bd6";
const SIGNATURE: &str = "HwAAAAAAAAAAAAAAAAAAAAAAAAAAAAAAAAAAAAAAAAABAAAAAAAAAAAAAAAAAAAAAAAAAAAAAAAAAAAAAAAAAAE=";

#[test]
fn create_multisig_converts() {
    let c = CreateMultisig { address: P2SH.to_string(), redeem_script: "5121ae".to_string() };
    let m = c.into_model().unwrap();
    assert_eq!(m.address.0, Address::<NetworkUnchecked>::from_str(P2SH).unwrap());
    assert_eq!(m.redeem_script, vec![0x51, 0x21, 0xae]);
    assert_eq!(m.descriptor, None);
    assert_eq!(m.warnings, None);
}

#[test]
fn create_multisig_errors() {
    let c = CreateMultisig { address: "3J98".to_string(), redeem_script: "zz".to_string() };
    assert!(matches!(c.into_model(), Err(CreateMultisigError::Address(_))));
    let c = CreateMultisig { address: P2SH.to_string(), redeem_script: "zz".to_string() };
    assert!(matches!(c.into_model(), Err(CreateMultisigError::RedeemScript(_))));
}

#[test]
fn v20_create_multisig_keeps_descriptor() {
    let c = corepc_types::v20::CreateMultisig {
        address: P2SH.to_string(),
        redeem_script: "".to_string(),
        descriptor: "sh(multi(1,...))".to_string(),
    };
    let m = c.into_model().unwrap();
    assert!(m.redeem_script.is_empty());
    assert_eq!(m.descriptor, Some("sh(multi(1,...))".to_string()));
}

fn validate(version: Option<i64>, program: Option<&str>) -> ValidateAddress {
    ValidateAddress {
        is_valid: true,
        address: P2WPKH.to_string(),
        script_pubkey: format!("0014{}", PROGRAM),
        is_script: false,
        is_witness: true,
        witness_version: version,
        witness_program: program.map(|p| p.to_string()),
    }
}

#[test]
fn validate_address_converts() {
    let m = validate(Some(0), Some(PROGRAM)).into_model().unwrap();
    assert!(m.is_valid);
    assert!(m.is_witness);
    assert!(!m.is_script);
    assert_eq!(m.address.0, Address::<NetworkUnchecked>::from_str(P2WPKH).unwrap());
    assert_eq!(m.script_pubkey.len(), 22);
    assert_eq!(m.witness_version, Some(bitcoin::WitnessVersion::V0));
    let program = m.witness_program.unwrap();
    assert_eq!(program.program().as_bytes().len(), 20);
    assert_eq!(program.program().as_bytes()[0], 0x75);
    assert_eq!(program.version(), bitcoin::WitnessVersion::V0);

    let v1 = validate(Some(1), Some(PROGRAM)).into_model().unwrap();
    assert_eq!(v1.witness_version, Some(bitcoin::WitnessVersion::V1));

    let m = validate(Some(0), None).into_model().unwrap();
    assert_eq!(m.witness_version, None);
    assert!(m.witness_program.is_none());
}

#[test]
fn validate_address_errors() {
    let mut v = validate(Some(0), Some(PROGRAM));
    v.address = "bc1".to_string();
    assert!(matches!(v.into_model(), Err(ValidateAddressError::Address(_))));
    let mut v = validate(Some(0), Some(PROGRAM));
    v.script_pubkey = "0".to_string();
    assert!(matches!(v.into_model(), Err(ValidateAddressError::ScriptPubKey(_))));
    match validate(Some(-1), Some(PROGRAM)).into_model() {
        Err(ValidateAddressError::WitnessVersionValue(v)) => assert_eq!(v, -1),
        other => panic!("unexpected result: {:?}", other.err()),
    }
    match validate(Some(256), Some(PROGRAM)).into_model() {
        Err(ValidateAddressError::WitnessVersionValue(v)) => assert_eq!(v, 256),
        other => panic!("unexpected result: {:?}", other.err()),
    }
    assert!(matches!(
        validate(Some(17), Some(PROGRAM)).into_model(),
        Err(ValidateAddressError::WitnessVersion(_))
    ));
    assert!(matches!(
        validate(Some(0), Some("xyz")).into_model(),
        Err(ValidateAddressError::WitnessProgramBytes(_))
    ));
    assert!(matches!(
        validate(Some(0), Some("00")).into_model(),
        Err(ValidateAddressError::WitnessProgram(_))
    ));
    assert!(matches!(
        validate(Some(0), Some("000102")).into_model(),
        Err(ValidateAddressError::WitnessProgram(_))
    ));
}

#[test]
fn sign_message_with_priv_key_parses_signature() {
    let m = SignMessageWithPrivKey(SIGNATURE.to_string()).into_model().unwrap();
    assert_eq!(m.0.serialize()[0], 31);
    assert!(SignMessageWithPrivKey("not base64".to_string()).into_model().is_err());
}

#[test]
fn estimate_smart_fee_converts() {
    let rate = FeeRate::from_sat_per_vb(5);
    let e = EstimateSmartFee::<Result<Option<FeeRate>, ParseAmountError>> {
        fee_rate: Some(Ok(rate)),
        errors: None,
        blocks: 6,
    };
    let m = e.into_model().unwrap();
    assert_eq!(m.fee_rate, Some(rate));
    assert_eq!(m.blocks, 6);

    let e = EstimateSmartFee::<Result<Option<FeeRate>, ParseAmountError>> {
        fee_rate: Some(Ok(None)),
        errors: None,
        blocks: 3,
    };
    assert_eq!(e.into_model().unwrap().fee_rate, Some(None));

    let e = EstimateSmartFee::<Result<Option<FeeRate>, ParseAmountError>> {
        fee_rate: None,
        errors: Some(vec!["Insufficient data or no feerate found".to_string()]),
        blocks: 2,
    };
    let m = e.into_model().unwrap();
    assert_eq!(m.fee_rate, None);
    assert_eq!(m.errors, Some(vec!["Insufficient data or no feerate found".to_string()]));

    let e = EstimateSmartFee::<Result<Option<FeeRate>, ParseAmountError>> {
        fee_rate: Some(Amount::from_btc(-1.0).map(|_| None)),
        errors: None,
        blocks: 2,
    };
    assert_eq!(e.into_model().unwrap_err(), Amount::from_btc(-1.0).unwrap_err());
}

#[test]
fn validate_address_version_zero_length_rule() {
    let long = format!("{}0102030405", PROGRAM);
    let m = validate(Some(1), Some(&long)).into_model().unwrap();
    assert_eq!(m.witness_version, Some(bitcoin::WitnessVersion::V1));
    assert_eq!(m.witness_program.unwrap().program().as_bytes().len(), 25);
    assert!(matches!(
        validate(Some(0), Some(&long)).into_model(),
        Err(ValidateAddressError::WitnessProgram(_))
    ));
    let too_long = "00".repeat(41);
    assert!(matches!(
        validate(Some(2), Some(&too_long)).into_model(),
        Err(ValidateAddressError::WitnessProgram(_))
    ));
}
