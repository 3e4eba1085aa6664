use bitcoin::amount::ParseAmountError;
use bitcoin::Amount;
use corepc_types::v19::{ScanTxOutSetError, ScanTxOutSetStart, ScanTxOutSetUnspent};

const TXID: &str = "4a5e1e4baab89f3a32518a88c31bc87f618f76673e2cc77ab2127b7afdeda33b";
const BLOCK: &str = "000000000019d6689c085ae165831e934ff763ae46a2a6c172b3f1b60a8ce26f";

type Read = Result<Amount, ParseAmountError>;

fn reversed_hex(s: &str) -> [u8; 32] {
    let mut out = [0u8; 32];
    for i in 0..32 {
        out[31 - i] = u8::from_str_radix(&s[2 * i..2 * i + 2], 16).unwrap();
    }
    out
}

fn unspent() -> ScanTxOutSetUnspent<Read> {
    ScanTxOutSetUnspent {
        txid: TXID.to_string(),
        vout: 0,
        script_pubkey: "51".to_string(),
        descriptor: "raw(51)".to_string(),
        amount: Amount::from_btc(50.0),
        coinbase: true,
        height: 1,
    }
}

#[test]
fn scan_unspent_converts() {
    let m = unspent().into_model().unwrap();
    assert_eq!(m.txid, reversed_hex(TXID));
    assert_eq!(m.vout, 0);
    assert_eq!(m.script_pubkey, vec![0x51]);
    assert_eq!(m.desc, Some("raw(51)".to_string()));
    assert_eq!(m.amount, Amount::from_sat(5_000_000_000));
    assert_eq!(m.coinbase, None);
    assert_eq!(m.height, 1);
    assert_eq!(m.blockhash, None);
    assert_eq!(m.confirmations, None);
}

#[test]
fn scan_start_converts_and_orders_errors() {
    let start = ScanTxOutSetStart {
        success: true,
        txouts: 100,
        height: 2,
        best_block: BLOCK.to_string(),
        unspents: vec![unspent(), unspent()],
        total_amount: Amount::from_btc(100.0),
    };
    let m = start.clone().into_model().unwrap();
    assert_eq!(m.success, Some(true));
    assert_eq!(m.txouts, Some(100));
    assert_eq!(m.height, Some(2));
    assert_eq!(m.bestblock, Some(reversed_hex(BLOCK)));
    assert_eq!(m.unspents.len(), 2);
    assert_eq!(m.total_amount, Amount::from_sat(10_000_000_000));

    let mut bad = start.clone();
    bad.best_block = "nope".to_string();
    bad.total_amount = Amount::from_btc(-1.0);
    assert!(matches!(bad.into_model(), Err(ScanTxOutSetError::BestBlockHash(_))));

    let mut bad = start.clone();
    bad.unspents[0].script_pubkey = "5".to_string();
    bad.unspents[1].txid = "x".to_string();
    assert!(matches!(bad.into_model(), Err(ScanTxOutSetError::ScriptPubKey(_))));

    let mut bad = start.clone();
    bad.unspents[1].amount = Amount::from_btc(-2.0);
    bad.total_amount = Amount::from_btc(-1.0);
    assert!(matches!(bad.into_model(), Err(ScanTxOutSetError::Amount(_))));

    let mut bad = start;
    bad.total_amount = Amount::from_btc(-1.0);
    assert!(matches!(bad.into_model(), Err(ScanTxOutSetError::TotalAmount(_))));
}

#[test]
fn v28_scan_unspent_keeps_block_hash() {
    let u = corepc_types::v28::ScanTxOutSetUnspent::<Read> {
        txid: TXID.to_string(),
        vout: 4,
        script_pub_key: "0014751e76e8199196d454941c45d1b3a323f1433bd6".to_string(),
        desc: "addr(bc1qw508d6qejxtdg4y5r3zarvary0c5xw7kv8f3t4)".to_string(),
        amount: Amount::from_btc(0.001),
        coinbase: false,
        height: 800_000,
        blockhash: BLOCK.to_string(),
        confirmations: 6,
    };
    let m = u.clone().into_model().unwrap();
    assert_eq!(m.blockhash, Some(reversed_hex(BLOCK)));
    assert_eq!(m.confirmations, Some(6));
    assert_eq!(m.coinbase, Some(false));
    assert_eq!(m.amount, Amount::from_sat(100_000));
    let mut bad = u;
    bad.blockhash = "00".to_string();
    assert!(matches!(bad.into_model(), Err(ScanTxOutSetError::BlockHash(_))));
}
