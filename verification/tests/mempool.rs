use bitcoin::amount::ParseAmountError;
use bitcoin::{Amount, FeeRate};
use corepc_types::v19::{
    mempool_entries_into_model, GetMempoolEntry, GetMempoolInfo, GetMempoolInfoError,
    MapMempoolEntryError, MempoolEntry, MempoolEntryError, MempoolEntryFees, MempoolEntryFeesError,
};
use corepc_types::NumericError;

const TXID: &str = "4a5e1e4baab89f3a32518a88c31bc87f618f76673e2cc77ab2127b7afdeda33b";

fn reversed_hex(s: &str) -> [u8; 32] {
    let mut out = [0u8; 32];
    for i in 0..32 {
        out[31 - i] = u8::from_str_radix(&s[2 * i..2 * i + 2], 16).unwrap();
    }
    out
}

fn read(btc: f64) -> Result<Amount, ParseAmountError> { Amount::from_btc(btc) }

fn fees() -> MempoolEntryFees<Result<Amount, ParseAmountError>> {
    MempoolEntryFees {
        base: read(0.0001),
        modified: read(0.0002),
        ancestor: read(0.0003),
        descendant: read(0.0004),
    }
}

fn entry() -> MempoolEntry<Result<Amount, ParseAmountError>> {
    MempoolEntry {
        vsize: 141,
        size: None,
        weight: 561,
        fee: read(0.0001),
        modified_fee: read(0.0001),
        time: 1_700_000_000,
        height: 100,
        descendant_count: 1,
        descendant_size: 141,
        descendant_fees: read(0.0001),
        ancestor_count: 2,
        ancestor_size: 282,
        ancestor_fees: read(0.0002),
        wtxid: TXID.to_string(),
        fees: fees(),
        depends: vec![TXID.to_string()],
        spent_by: vec![],
        bip125_replaceable: true,
    }
}

#[test]
fn mempool_entry_fees_convert() {
    let m = fees().into_model().unwrap();
    assert_eq!(m.base, Amount::from_sat(10_000));
    assert_eq!(m.modified, Amount::from_sat(20_000));
    assert_eq!(m.ancestor, Amount::from_sat(30_000));
    assert_eq!(m.descendant, Amount::from_sat(40_000));
}

#[test]
fn mempool_entry_fees_errors() {
    let mut f = fees();
    f.modified = read(-1.0);
    f.descendant = read(-1.0);
    assert!(matches!(f.into_model(), Err(MempoolEntryFeesError::Modified(_))));
    let mut f = fees();
    f.ancestor = read(-1.0);
    assert!(matches!(f.into_model(), Err(MempoolEntryFeesError::MempoolEntry(_))));
    let mut f = fees();
    f.base = read(-1.0);
    assert!(matches!(f.into_model(), Err(MempoolEntryFeesError::Base(_))));
    let mut f = fees();
    f.descendant = read(-0.5);
    assert!(matches!(f.into_model(), Err(MempoolEntryFeesError::Descendant(_))));
}

#[test]
fn mempool_entry_converts() {
    let m = GetMempoolEntry(entry()).into_model().unwrap().0;
    assert_eq!(m.vsize, Some(141));
    assert_eq!(m.size, None);
    assert_eq!(m.weight, Some(561));
    assert_eq!(m.time, 1_700_000_000);
    assert_eq!(m.height, 100);
    assert_eq!(m.descendant_count, 1);
    assert_eq!(m.ancestor_size, 282);
    assert_eq!(m.wtxid, reversed_hex(TXID));
    assert_eq!(m.fees.base, Amount::from_sat(10_000));
    assert_eq!(m.depends, vec![reversed_hex(TXID)]);
    assert!(m.spent_by.is_empty());
    assert_eq!(m.bip125_replaceable, Some(true));
    assert_eq!(m.unbroadcast, None);
}

#[test]
fn mempool_entry_errors_in_order() {
    let mut e = entry();
    e.weight = -1;
    e.wtxid = "x".to_string();
    match e.into_model() {
        Err(MempoolEntryError::Numeric(NumericError::Negative { field, .. })) => {
            assert_eq!(field, "weight")
        }
        other => panic!("unexpected result: {:?}", other.err()),
    }
    let mut e = entry();
    e.wtxid = "x".to_string();
    e.fees.base = read(-1.0);
    assert!(matches!(e.into_model(), Err(MempoolEntryError::Wtxid(_))));
    let mut e = entry();
    e.fees.base = read(-1.0);
    e.depends = vec!["x".to_string()];
    assert!(matches!(e.into_model(), Err(MempoolEntryError::Fees(MempoolEntryFeesError::Base(_)))));
    let mut e = entry();
    e.depends = vec!["x".to_string()];
    e.spent_by = vec!["x".to_string()];
    assert!(matches!(e.into_model(), Err(MempoolEntryError::Depends(_))));
    let mut e = entry();
    e.spent_by = vec![TXID.to_string(), "x".to_string()];
    assert!(matches!(e.into_model(), Err(MempoolEntryError::SpentBy(_))));
}

fn fee_rate(btc_per_kb: f64) -> Result<Option<FeeRate>, ParseAmountError> {
    let per_byte = Amount::from_btc(btc_per_kb / 1000.0)?;
    Ok(FeeRate::from_sat_per_vb(per_byte.to_sat()))
}

#[test]
fn mempool_info_converts() {
    let info = GetMempoolInfo {
        loaded: true,
        size: 3,
        bytes: 600,
        usage: 2000,
        max_mempool: 300_000_000,
        mempool_min_fee: fee_rate(0.001),
        min_relay_tx_fee: fee_rate(0.002),
    };
    let m = info.into_model().unwrap();
    assert_eq!(m.loaded, Some(true));
    assert_eq!(m.size, 3);
    assert_eq!(m.bytes, 600);
    assert_eq!(m.usage, 2000);
    assert_eq!(m.max_mempool, 300_000_000);
    assert_eq!(m.mempool_min_fee, FeeRate::from_sat_per_vb(100));
    assert_eq!(m.min_relay_tx_fee, FeeRate::from_sat_per_vb(200));
    assert_eq!(m.total_fee, None);
    assert_eq!(m.full_rbf, None);
}

#[test]
fn mempool_info_errors() {
    let info = GetMempoolInfo {
        loaded: true,
        size: 3,
        bytes: -600,
        usage: 2000,
        max_mempool: 300_000_000,
        mempool_min_fee: fee_rate(-1.0),
        min_relay_tx_fee: fee_rate(0.002),
    };
    match info.into_model() {
        Err(GetMempoolInfoError::Numeric(NumericError::Negative { field, value })) => {
            assert_eq!(field, "bytes");
            assert_eq!(value, -600);
        }
        other => panic!("unexpected result: {:?}", other.err()),
    }
    let info = GetMempoolInfo {
        loaded: false,
        size: 3,
        bytes: 600,
        usage: 2000,
        max_mempool: 300_000_000,
        mempool_min_fee: fee_rate(0.001),
        min_relay_tx_fee: fee_rate(-1.0),
    };
    assert!(matches!(info.into_model(), Err(GetMempoolInfoError::FeeRate(_))));
}

const OTHER_TXID: &str = "000000000019d6689c085ae165831e934ff763ae46a2a6c172b3f1b60a8ce26f";

#[test]
fn mempool_entries_convert_in_order() {
    let mut second = entry();
    second.height = 101;
    let v = mempool_entries_into_model(vec![
        (OTHER_TXID.to_string(), entry()),
        (TXID.to_string(), second),
    ])
    .unwrap();
    assert_eq!(v.len(), 2);
    assert_eq!(v[0].0, reversed_hex(OTHER_TXID));
    assert_eq!(v[0].1.height, 100);
    assert_eq!(v[1].0, reversed_hex(TXID));
    assert_eq!(v[1].1.height, 101);
    assert!(mempool_entries_into_model(vec![]).unwrap().is_empty());
}

#[test]
fn mempool_entries_stop_at_first_failure() {
    let mut bad = entry();
    bad.height = -1;
    let r = mempool_entries_into_model(vec![
        (TXID.to_string(), entry()),
        ("not a txid".to_string(), bad),
    ]);
    assert!(matches!(r, Err(MapMempoolEntryError::Txid(_))));

    let mut bad = entry();
    bad.height = -1;
    let r = mempool_entries_into_model(vec![
        (TXID.to_string(), bad),
        ("not a txid".to_string(), entry()),
    ]);
    match r {
        Err(MapMempoolEntryError::MempoolEntry(MempoolEntryError::Numeric(
            NumericError::Negative { field, value },
        ))) => {
            assert_eq!(field, "height");
            assert_eq!(value, -1);
        }
        other => panic!("unexpected result: {:?}", other.err()),
    }
}
