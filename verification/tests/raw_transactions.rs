use bitcoin::address::NetworkUnchecked;
use bitcoin::Address;
use corepc_types::v22::{AddConnection, DecodeScript, DecodeScriptError, DecodeScriptSegwit};

const P2SH: &str = "3J98t1WpEZ73CNmQviecrnyiWrnqRhWNLy";
const P2PKH: &str = "1A1zP1eP5QGefi2DMPTfTL5SLmv7DivfNa";

fn decode_script() -> DecodeScript {
    DecodeScript {
        assembly: "OP_DUP OP_HASH160".to_string(),
        type_: "pubkeyhash".to_string(),
        address: Some(P2PKH.to_string()),
        required_signatures: Some(1),
        addresses: Some(vec![P2PKH.to_string(), P2SH.to_string()]),
        p2sh: Some(P2SH.to_string()),
        p2sh_segwit: Some("whatever".to_string()),
        segwit: None,
    }
}

#[test]
fn decode_script_converts() {
    let m = decode_script().into_model().unwrap();
    assert_eq!(m.type_, "pubkeyhash");
    assert!(m.address.is_some());
    assert_eq!(m.required_signatures, Some(1));
    assert_eq!(m.addresses.len(), 2);
    assert_eq!(m.addresses[0].0, P2PKH.parse::<Address<NetworkUnchecked>>().unwrap());
    assert_eq!(m.addresses[1].0, P2SH.parse::<Address<NetworkUnchecked>>().unwrap());
    assert_eq!(m.address.unwrap().0, P2PKH.parse::<Address<NetworkUnchecked>>().unwrap());
    assert_eq!(m.p2sh.unwrap().0, P2SH.parse::<Address<NetworkUnchecked>>().unwrap());
    assert_eq!(m.p2sh_segwit, Some("whatever".to_string()));
    assert!(m.script_pubkey.is_none());
    assert!(m.descriptor.is_none());
    assert!(m.segwit.is_none());
}

#[test]
fn decode_script_carries_segwit() {
    let mut d = decode_script();
    d.segwit = Some(DecodeScriptSegwit {
        assembly: "0 abcd".to_string(),
        hex: bitcoin::ScriptBuf::from_bytes(vec![0x00, 0x02, 0xab, 0xcd]),
        type_: "witness_unknown".to_string(),
        address: None,
        required_signatures: None,
        addresses: None,
        p2sh_segwit: None,
    });
    let m = d.into_model().unwrap();
    let s = m.segwit.unwrap();
    assert_eq!(s.assembly, "0 abcd");
    assert_eq!(s.hex.as_bytes(), &[0x00, 0x02, 0xab, 0xcd]);
    assert_eq!(s.type_, "witness_unknown");
}

#[test]
fn decode_script_errors() {
    let mut d = decode_script();
    d.address = Some("x".to_string());
    d.p2sh = Some("x".to_string());
    assert!(matches!(d.into_model(), Err(DecodeScriptError::Address(_))));
    let mut d = decode_script();
    d.addresses = Some(vec![P2SH.to_string(), "x".to_string()]);
    assert!(matches!(d.into_model(), Err(DecodeScriptError::Addresses(_))));
    let mut d = decode_script();
    d.p2sh = Some("x".to_string());
    assert!(matches!(d.into_model(), Err(DecodeScriptError::P2sh(_))));
    let mut d = decode_script();
    d.address = None;
    d.addresses = None;
    d.p2sh = None;
    let m = d.into_model().unwrap();
    assert!(m.address.is_none());
    assert!(m.addresses.is_empty());
    assert!(m.p2sh.is_none());
}

#[test]
fn add_connection_converts() {
    let a = AddConnection { address: "127.0.0.1:8333".to_string(), connection_type: "outbound-full-relay".to_string() };
    let m = a.into_model();
    assert_eq!(m.address, "127.0.0.1:8333");
    assert_eq!(m.connection_type, "outbound-full-relay");
}
