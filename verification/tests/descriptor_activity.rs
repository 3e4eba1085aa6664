use bitcoin::amount::ParseAmountError;
use bitcoin::Amount;
use corepc_types::model;
use corepc_types::v29::{
    ActivityEntry, GetDescriptorActivity, GetDescriptorActivityError, ReceiveActivity,
    ScriptPubkey, SpendActivity,
};
use corepc_types::NumericError;

const TXID: &str = "4a5e1e4baab89f3a32518a88c31bc87f618f76673e2cc77ab2127b7afdeda33b";
const BLOCK: &str = "000000000019d6689c085ae165831e934ff763ae46a2a6c172b3f1b60a8ce26f";

type Read = Result<Amount, ParseAmountError>;

fn reversed_hex(s: &str) -> [u8; 32] {
    let mut out = [0u8; 32];
    for i in 0..32 {
        out[31 - i] = u8::from_str_radix(&s[2 * i..2 * i + 2], 16).unwrap();
    }
    out
}

fn spk(address: Option<&str>) -> ScriptPubkey {
    ScriptPubkey {
        assembly: "0 751e76e8199196d454941c45d1b3a323f1433bd6".to_string(),
        hex: "0014751e76e8199196d454941c45d1b3a323f1433bd6".to_string(),
        type_: "witness_v0_keyhash".to_string(),
        address: address.map(|a| a.to_string()),
    }
}

fn spend() -> SpendActivity<Read> {
    SpendActivity {
        amount: Amount::from_btc(0.5),
        block_hash: Some(BLOCK.to_string()),
        height: Some(7),
        spend_txid: TXID.to_string(),
        spend_vout: 1,
        prevout_txid: BLOCK.to_string(),
        prevout_vout: 2,
        prevout_spk: spk(Some("bc1qw508d6qejxtdg4y5r3zarvary0c5xw7kv8f3t4")),
    }
}

fn receive() -> ReceiveActivity<Read> {
    ReceiveActivity {
        amount: Amount::from_btc(1.25),
        block_hash: None,
        height: None,
        txid: TXID.to_string(),
        vout: 3,
        output_spk: spk(None),
    }
}

#[test]
fn descriptor_activity_converts() {
    let a = GetDescriptorActivity {
        activity: vec![ActivityEntry::Spend(spend()), ActivityEntry::Receive(receive())],
    };
    let m = a.into_model().unwrap();
    assert_eq!(m.activity.len(), 2);
    match &m.activity[0] {
        model::ActivityEntry::Spend(s) => {
            assert_eq!(s.amount, Amount::from_sat(50_000_000));
            assert_eq!(s.block_hash, Some(reversed_hex(BLOCK)));
            assert_eq!(s.height, Some(7));
            assert_eq!(s.spend_txid, reversed_hex(TXID));
            assert_eq!(s.spend_vout, 1);
            assert_eq!(s.prevout_txid, reversed_hex(BLOCK));
            assert_eq!(s.prevout_vout, 2);
            assert_eq!(s.prevout_spk.hex[0], 0x00);
            assert_eq!(s.prevout_spk.hex.len(), 22);
            assert_eq!(s.prevout_spk.type_, "witness_v0_keyhash");
            assert_eq!(
                s.prevout_spk.address.as_ref().unwrap().0,
                "bc1qw508d6qejxtdg4y5r3zarvary0c5xw7kv8f3t4"
                    .parse::<bitcoin::Address<bitcoin::address::NetworkUnchecked>>()
                    .unwrap()
            );
        }
        other => panic!("unexpected entry: {:?}", other),
    }
    match &m.activity[1] {
        model::ActivityEntry::Receive(r) => {
            assert_eq!(r.amount, Amount::from_sat(125_000_000));
            assert_eq!(r.block_hash, None);
            assert_eq!(r.height, None);
            assert_eq!(r.txid, reversed_hex(TXID));
            assert_eq!(r.vout, 3);
            assert!(r.output_spk.address.is_none());
        }
        other => panic!("unexpected entry: {:?}", other),
    }
}

#[test]
fn descriptor_activity_empty() {
    let a = GetDescriptorActivity::<Read> { activity: vec![] };
    assert!(a.into_model().unwrap().activity.is_empty());
}

#[test]
fn descriptor_activity_errors() {
    let mut s = spend();
    s.amount = Amount::from_btc(-1.0);
    s.spend_txid = "x".to_string();
    let a = GetDescriptorActivity { activity: vec![ActivityEntry::Spend(s)] };
    assert!(matches!(a.into_model(), Err(GetDescriptorActivityError::Amount(_))));

    let mut r = receive();
    r.height = Some(-4);
    let a = GetDescriptorActivity {
        activity: vec![ActivityEntry::Spend(spend()), ActivityEntry::Receive(r)],
    };
    match a.into_model() {
        Err(GetDescriptorActivityError::Numeric(NumericError::Negative { field, value })) => {
            assert_eq!(field, "height");
            assert_eq!(value, -4);
        }
        other => panic!("unexpected result: {:?}", other.err()),
    }

    let mut s = spend();
    s.prevout_txid = "00".to_string();
    let a = GetDescriptorActivity { activity: vec![ActivityEntry::Spend(s)] };
    assert!(matches!(a.into_model(), Err(GetDescriptorActivityError::Hash(_))));

    let mut s = spend();
    s.prevout_spk.hex = "0".to_string();
    let a = GetDescriptorActivity { activity: vec![ActivityEntry::Spend(s)] };
    match a.into_model() {
        Err(GetDescriptorActivityError::ActivityEntry(inner)) => {
            assert!(matches!(*inner, GetDescriptorActivityError::Script(_)))
        }
        other => panic!("unexpected result: {:?}", other.err()),
    }

    let mut r = receive();
    r.output_spk.address = Some("not an address".to_string());
    let a = GetDescriptorActivity { activity: vec![ActivityEntry::Receive(r)] };
    match a.into_model() {
        Err(GetDescriptorActivityError::ActivityEntry(inner)) => {
            assert!(matches!(*inner, GetDescriptorActivityError::Address(_)))
        }
        other => panic!("unexpected result: {:?}", other.err()),
    }
}
