use std::collections::BTreeMap;

use corepc_types::model;
use corepc_types::v29::{
    Bip9SoftforkStatus, GetBlockHeader, GetBlockHeaderError, GetBlockHeaderVerbose,
    GetBlockHeaderVerboseError, GetBlockVerboseOne, GetBlockVerboseOneError, GetBlockVerboseZero,
    GetBlockchainInfo,
};
use corepc_types::NumericError;

const GENESIS_HASH: &str = "000000000019d6689c085ae165831e934ff763ae46a2a6c172b3f1b60a8ce26f";
const GENESIS_MERKLE_ROOT: &str = "4a5e1e4baab89f3a32518a88c31bc87f618f76673e2cc77ab2127b7afdeda33b";
const GENESIS_HEADER: &str = "0100000000000000000000000000000000000000000000000000000000000000000000003ba3edfd7a7b12b27ac72c3e67768f617fc81bc3888a51323a9fb8aa4b1e5e4a29ab5f49ffff001d1dac2b7c";
const GENESIS_COINBASE: &str = "01000000010000000000000000000000000000000000000000000000000000000000000000ffffffff4d04ffff001d0104455468652054696d65732030332f4a616e2f32303039204368616e63656c6c6f72206f6e206272696e6b206f66207365636f6e64206261696c6f757420666f722062616e6b73ffffffff0100f2052a01000000434104678afdb0fe5548271967f1a67130b7105cd6a828e03909a67962e0ea1f61deb649f6bc3f4cef38c4f35504e51ec112de5c384df7ba0b8d578a4c702b6bf11d5fac00000000";
const CHAIN_WORK: &str = "0000000000000000000000000000000000000000000000000000000100010001";
const TARGET: &str = "00000000ffff0000000000000000000000000000000000000000000000000000";

fn reversed_hex(s: &str) -> [u8; 32] {
    let mut out = [0u8; 32];
    for i in 0..32 {
        out[31 - i] = u8::from_str_radix(&s[2 * i..2 * i + 2], 16).unwrap();
    }
    out
}

fn be_hex(s: &str) -> [u8; 32] {
    let mut out = [0u8; 32];
    for i in 0..32 {
        out[i] = u8::from_str_radix(&s[2 * i..2 * i + 2], 16).unwrap();
    }
    out
}

#[test]
fn block_header_decodes_genesis() {
    let h = GetBlockHeader(GENESIS_HEADER.to_string()).into_model().unwrap().0;
    assert_eq!(h.version, 1);
    assert_eq!(h.prev_blockhash, [0u8; 32]);
    assert_eq!(h.merkle_root, reversed_hex(GENESIS_MERKLE_ROOT));
    assert_eq!(h.time, 1_231_006_505);
    assert_eq!(h.bits, 0x1d00_ffff);
    assert_eq!(h.nonce, 2_083_236_893);
    let again = GetBlockHeader(GENESIS_HEADER.to_string()).block_header().unwrap();
    assert_eq!(again, h);
}

#[test]
fn block_header_errors() {
    let odd = GetBlockHeader("abc".to_string());
    assert!(matches!(odd.into_model(), Err(GetBlockHeaderError::Hex(_))));
    let short = GetBlockHeader(GENESIS_HEADER[..158].to_string());
    assert!(matches!(short.into_model(), Err(GetBlockHeaderError::Consensus(_))));
    let long = GetBlockHeader(format!("{}00", GENESIS_HEADER));
    assert!(matches!(long.block_header(), Err(GetBlockHeaderError::Consensus(_))));
}

#[test]
fn block_verbose_zero_decodes_genesis() {
    let hex = format!("{}01{}", GENESIS_HEADER, GENESIS_COINBASE);
    let block = GetBlockVerboseZero(hex.clone()).block().unwrap();
    assert_eq!(block.block_hash().to_string(), GENESIS_HASH);
    assert_eq!(block.txdata.len(), 1);
    let m = GetBlockVerboseZero(hex).into_model().unwrap();
    assert_eq!(m.0, block);
    assert!(GetBlockVerboseZero(GENESIS_HEADER.to_string()).into_model().is_err());
}

fn verbose_one() -> GetBlockVerboseOne<f64> {
    GetBlockVerboseOne {
        hash: GENESIS_HASH.to_string(),
        confirmations: 10,
        size: 285,
        stripped_size: Some(285),
        weight: 1140,
        height: 0,
        version: 1,
        version_hex: "00000001".to_string(),
        merkle_root: GENESIS_MERKLE_ROOT.to_string(),
        tx: vec![GENESIS_MERKLE_ROOT.to_string()],
        time: 1_231_006_505,
        median_time: Some(1_231_006_505),
        nonce: 2_083_236_893,
        bits: "1d00ffff".to_string(),
        target: TARGET.to_string(),
        difficulty: 1.0,
        chain_work: CHAIN_WORK.to_string(),
        n_tx: 1,
        previous_block_hash: None,
        next_block_hash: Some(GENESIS_HASH.to_string()),
    }
}

#[test]
fn block_verbose_one_converts() {
    let m = verbose_one().into_model().unwrap();
    assert_eq!(m.hash, reversed_hex(GENESIS_HASH));
    assert_eq!(m.confirmations, 10);
    assert_eq!(m.size, 285);
    assert_eq!(m.stripped_size, Some(285));
    assert_eq!(m.weight, 1140);
    assert_eq!(m.height, 0);
    assert_eq!(m.version, 1);
    assert_eq!(m.merkle_root, GENESIS_MERKLE_ROOT);
    assert_eq!(m.tx, vec![reversed_hex(GENESIS_MERKLE_ROOT)]);
    assert_eq!(m.time, 1_231_006_505);
    assert_eq!(m.median_time, Some(1_231_006_505));
    assert_eq!(m.nonce, 2_083_236_893);
    assert_eq!(m.bits, 0x1d00_ffff);
    assert_eq!(m.difficulty, 1.0);
    assert_eq!(m.chain_work, be_hex(CHAIN_WORK));
    assert_eq!(m.n_tx, 1);
    assert_eq!(m.previous_block_hash, None);
    assert_eq!(m.next_block_hash, Some(reversed_hex(GENESIS_HASH)));
}

#[test]
fn block_verbose_one_errors_in_order() {
    let mut b = verbose_one();
    b.hash = "x".to_string();
    b.stripped_size = Some(-1);
    assert!(matches!(b.into_model(), Err(GetBlockVerboseOneError::Hash(_))));

    let mut b = verbose_one();
    b.stripped_size = Some(-1);
    b.tx = vec!["x".to_string()];
    match b.into_model() {
        Err(GetBlockVerboseOneError::Numeric(NumericError::Negative { field, .. })) => {
            assert_eq!(field, "stripped_size")
        }
        other => panic!("unexpected result: {:?}", other.err()),
    }

    let mut b = verbose_one();
    b.tx = vec![GENESIS_HASH.to_string(), "x".to_string()];
    assert!(matches!(b.into_model(), Err(GetBlockVerboseOneError::Hash(_))));

    let mut b = verbose_one();
    b.bits = "xyz".to_string();
    assert!(matches!(b.into_model(), Err(GetBlockVerboseOneError::Bits(_))));

    let mut b = verbose_one();
    b.chain_work = "0xff".to_string();
    assert!(matches!(b.into_model(), Err(GetBlockVerboseOneError::ChainWork(_))));

    let mut b = verbose_one();
    b.previous_block_hash = Some("00".to_string());
    assert!(matches!(b.into_model(), Err(GetBlockVerboseOneError::PreviousBlockHash(_))));

    let mut b = verbose_one();
    b.next_block_hash = Some("00".to_string());
    assert!(matches!(b.into_model(), Err(GetBlockVerboseOneError::NextBlockHash(_))));

    let mut b = verbose_one();
    b.n_tx = 1 << 40;
    match b.into_model() {
        Err(GetBlockVerboseOneError::Numeric(NumericError::Overflow { field, .. })) => {
            assert_eq!(field, "n_tx")
        }
        other => panic!("unexpected result: {:?}", other.err()),
    }
}

fn header_verbose() -> GetBlockHeaderVerbose<f64> {
    GetBlockHeaderVerbose {
        hash: GENESIS_HASH.to_string(),
        confirmations: -1,
        height: 0,
        version: 1,
        version_hex: "00000001".to_string(),
        merkle_root: GENESIS_MERKLE_ROOT.to_string(),
        time: 1_231_006_505,
        median_time: 1_231_006_505,
        nonce: 2_083_236_893,
        bits: "1d00ffff".to_string(),
        target: TARGET.to_string(),
        difficulty: 1.0,
        chain_work: CHAIN_WORK.to_string(),
        n_tx: 1,
        previous_block_hash: Some(GENESIS_HASH.to_string()),
        next_block_hash: None,
    }
}

#[test]
fn block_header_verbose_converts() {
    let m = header_verbose().into_model().unwrap();
    assert_eq!(m.hash, reversed_hex(GENESIS_HASH));
    assert_eq!(m.confirmations, -1);
    assert_eq!(m.merkle_root, reversed_hex(GENESIS_MERKLE_ROOT));
    assert_eq!(m.bits, 0x1d00_ffff);
    assert_eq!(m.target, Some(be_hex(TARGET)));
    assert_eq!(m.chain_work, be_hex(CHAIN_WORK));
    assert_eq!(m.n_tx, 1);
    assert_eq!(m.previous_block_hash, Some(reversed_hex(GENESIS_HASH)));
    assert_eq!(m.next_block_hash, None);
}

#[test]
fn block_header_verbose_errors() {
    let mut h = header_verbose();
    h.merkle_root = "ab".to_string();
    assert!(matches!(h.into_model(), Err(GetBlockHeaderVerboseError::MerkleRoot(_))));
    let mut h = header_verbose();
    h.target = "target".to_string();
    assert!(matches!(h.into_model(), Err(GetBlockHeaderVerboseError::Target(_))));
    let mut h = header_verbose();
    h.median_time = -3;
    match h.into_model() {
        Err(GetBlockHeaderVerboseError::Numeric(NumericError::Negative { field, value })) => {
            assert_eq!(field, "median_time");
            assert_eq!(value, -3);
        }
        other => panic!("unexpected result: {:?}", other.err()),
    }
}

#[test]
fn bip9_status_converts() {
    assert_eq!(Bip9SoftforkStatus::Defined.into_model(), model::Bip9SoftforkStatus::Defined);
    assert_eq!(Bip9SoftforkStatus::Started.into_model(), model::Bip9SoftforkStatus::Started);
    assert_eq!(Bip9SoftforkStatus::LockedIn.into_model(), model::Bip9SoftforkStatus::LockedIn);
    assert_eq!(Bip9SoftforkStatus::Active.into_model(), model::Bip9SoftforkStatus::Active);
    assert_eq!(Bip9SoftforkStatus::Failed.into_model(), model::Bip9SoftforkStatus::Failed);
}

#[test]
fn v29_blockchain_info_converts() {
    let info = GetBlockchainInfo::<f64> {
        chain: "signet".to_string(),
        blocks: 5,
        headers: 6,
        best_block_hash: GENESIS_HASH.to_string(),
        bits: "1d00ffff".to_string(),
        target: TARGET.to_string(),
        difficulty: 1.0,
        median_time: 7,
        verification_progress: 0.5,
        initial_block_download: false,
        chain_work: CHAIN_WORK.to_string(),
        size_on_disk: 8,
        pruned: false,
        prune_height: None,
        automatic_pruning: None,
        prune_target_size: None,
        softforks: vec![],
        bip9_softforks: BTreeMap::new(),
        signet_challenge: "51".to_string(),
        warnings: "".to_string(),
    };
    let m = info.into_model().unwrap();
    assert_eq!(m.chain, model::Network::Signet);
    assert_eq!(m.blocks, 5);
    assert_eq!(m.headers, 6);
    assert_eq!(m.warnings, vec![String::new()]);
    assert!(m.softforks.is_empty());
    assert_eq!(m.target, None);
    assert!(m.signet_challenge.is_none());
}

/// A string whose last 32 bytes start inside a character.
fn split_inside_char() -> String {
    let mut s = "\u{e9}".repeat(16);
    s.push('a');
    s
}

#[test]
fn block_verbose_one_earlier_error_before_chain_work() {
    let mut b = verbose_one();
    b.tx = vec!["not a txid".to_string()];
    b.chain_work = split_inside_char();
    assert!(matches!(b.into_model(), Err(GetBlockVerboseOneError::Hash(_))));
    let mut b = verbose_one();
    b.median_time = Some(-1);
    b.chain_work = split_inside_char();
    assert!(matches!(b.into_model(), Err(GetBlockVerboseOneError::Numeric(_))));
    let mut b = verbose_one();
    b.chain_work = split_inside_char();
    assert!(b.into_model_checked().is_none());
}

#[test]
fn block_header_verbose_earlier_error_before_split() {
    let mut h = header_verbose();
    h.merkle_root = "ab".to_string();
    h.chain_work = split_inside_char();
    assert!(matches!(h.into_model(), Err(GetBlockHeaderVerboseError::MerkleRoot(_))));
    let mut h = header_verbose();
    h.chain_work = "0x01".to_string();
    h.target = split_inside_char();
    assert!(matches!(h.into_model(), Err(GetBlockHeaderVerboseError::ChainWork(_))));
    let mut h = header_verbose();
    h.target = split_inside_char();
    assert!(h.into_model_checked().is_none());
}

#[test]
fn block_header_verbose_gives_header() {
    let h = header_verbose().block_header().unwrap();
    assert_eq!(h.version, header_verbose().version);
    assert_eq!(h.prev_blockhash, reversed_hex(GENESIS_HASH));
    assert_eq!(h.merkle_root, reversed_hex(GENESIS_MERKLE_ROOT));
    assert_eq!(h.bits, 0x1d00_ffff);
    let mut genesis = header_verbose();
    genesis.previous_block_hash = None;
    genesis.time = 1_231_006_505;
    genesis.nonce = 2_083_236_893;
    let h = genesis.block_header().unwrap();
    assert_eq!(h.prev_blockhash, [0u8; 32]);
    assert_eq!(h.time, 1_231_006_505);
    assert_eq!(h.nonce, 2_083_236_893);
    let mut bad = header_verbose();
    bad.height = -1;
    assert!(matches!(bad.block_header(), Err(GetBlockHeaderVerboseError::Numeric(_))));
}

#[test]
fn block_verbose_one_reads_bits_as_from_str_radix() {
    let mut b = verbose_one();
    b.bits = "+1d00ffff".to_string();
    assert_eq!(b.into_model().unwrap().bits, 0x1d00_ffff);
    let mut b = verbose_one();
    b.bits = "1D00FFFF".to_string();
    assert_eq!(b.into_model().unwrap().bits, 0x1d00_ffff);
    for bad in ["0x1d00ffff", "0X1d", "", "+", "1d00ffff0", "-1", "1d 00"] {
        let mut b = verbose_one();
        b.bits = bad.to_string();
        assert!(matches!(b.into_model(), Err(GetBlockVerboseOneError::Bits(_))), "{}", bad);
    }
}
