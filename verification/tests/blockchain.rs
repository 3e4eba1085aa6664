use std::collections::BTreeMap;

use corepc_types::model::Network;
use corepc_types::v19::{
    GetBlockFilter, GetBlockFilterError, GetBlockchainInfo, GetBlockchainInfoError,
    GetChainTxStats, GetChainTxStatsError, GetMempoolAncestors, GetMempoolDescendants,
};
use corepc_types::NumericError;

const GENESIS_HASH: &str = "000000000019d6689c085ae165831e934ff763ae46a2a6c172b3f1b60a8ce26f";
const CHAIN_WORK: &str = "0000000000000000000000000000000000000000000000000000000100010001";

fn reversed_hex(s: &str) -> [u8; 32] {
    let mut out = [0u8; 32];
    for i in 0..32 {
        out[31 - i] = u8::from_str_radix(&s[2 * i..2 * i + 2], 16).unwrap();
    }
    out
}

fn be_hex(s: &str) -> [u8; 32] {
    let mut out = [0u8; 32];
    for i in 0..32 {
        out[i] = u8::from_str_radix(&s[2 * i..2 * i + 2], 16).unwrap();
    }
    out
}

fn blockchain_info() -> GetBlockchainInfo<f64> {
    GetBlockchainInfo {
        chain: "main".to_string(),
        blocks: 800_000,
        headers: 800_001,
        best_block_hash: GENESIS_HASH.to_string(),
        difficulty: 1.5,
        median_time: 1_700_000_000,
        verification_progress: 0.999,
        initial_block_download: false,
        chain_work: CHAIN_WORK.to_string(),
        size_on_disk: 600_000_000_000,
        pruned: true,
        prune_height: Some(10),
        automatic_pruning: Some(true),
        prune_target_size: None,
        softforks: BTreeMap::new(),
        warnings: "none".to_string(),
    }
}

#[test]
fn blockchain_info_converts() {
    let m = blockchain_info().into_model().unwrap();
    assert_eq!(m.chain, Network::Bitcoin);
    assert_eq!(m.blocks, 800_000);
    assert_eq!(m.headers, 800_001);
    assert_eq!(m.best_block_hash, reversed_hex(GENESIS_HASH));
    assert_eq!(m.best_block_hash[31], 0x00);
    assert_eq!(m.best_block_hash[0], 0x6f);
    assert_eq!(m.difficulty, 1.5);
    assert_eq!(m.median_time, 1_700_000_000);
    assert_eq!(m.chain_work, be_hex(CHAIN_WORK));
    assert_eq!(m.prune_height, Some(10));
    assert_eq!(m.prune_target_size, None);
    assert_eq!(m.warnings, vec!["none".to_string()]);
    assert!(m.softforks.is_empty());
    assert_eq!(m.bits, None);
    assert_eq!(m.target, None);
    assert_eq!(m.time, None);
    assert!(m.signet_challenge.is_none());
}

/// A string whose last 32 bytes start inside a character.
fn split_inside_char() -> String {
    let mut s = "\u{e9}".repeat(16);
    s.push('a');
    s
}

#[test]
fn blockchain_info_earlier_error_before_chain_work() {
    let mut info = blockchain_info();
    info.chain = "mainnet".to_string();
    info.chain_work = split_inside_char();
    assert!(matches!(info.into_model(), Err(GetBlockchainInfoError::Chain(_))));

    let mut info = blockchain_info();
    info.best_block_hash = "zz".to_string();
    info.chain_work = split_inside_char();
    assert!(matches!(info.into_model(), Err(GetBlockchainInfoError::BestBlockHash(_))));
}

#[test]
fn blockchain_info_checked_refuses_split_chain_work() {
    let mut info = blockchain_info();
    info.chain_work = split_inside_char();
    assert!(info.into_model_checked().is_none());
    let checked = blockchain_info().into_model_checked().unwrap().unwrap();
    assert_eq!(checked.chain_work, be_hex(CHAIN_WORK));
}

#[test]
fn blockchain_info_networks() {
    for (name, network) in [
        ("main", Network::Bitcoin),
        ("test", Network::Testnet),
        ("testnet4", Network::Testnet4),
        ("signet", Network::Signet),
        ("regtest", Network::Regtest),
    ] {
        let mut info = blockchain_info();
        info.chain = name.to_string();
        assert_eq!(info.into_model().unwrap().chain, network);
    }
}

#[test]
fn blockchain_info_errors_in_order() {
    let mut info = blockchain_info();
    info.chain = "bitcoin".to_string();
    info.best_block_hash = "zz".to_string();
    assert!(matches!(info.into_model(), Err(GetBlockchainInfoError::Chain(_))));

    let mut info = blockchain_info();
    info.best_block_hash = "zz".to_string();
    info.blocks = -1;
    assert!(matches!(info.into_model(), Err(GetBlockchainInfoError::BestBlockHash(_))));

    let mut info = blockchain_info();
    info.chain_work = "0x01".to_string();
    assert!(matches!(info.into_model(), Err(GetBlockchainInfoError::ChainWork(_))));

    let mut info = blockchain_info();
    info.headers = -5;
    info.prune_target_size = Some(5_000_000_000);
    match info.into_model() {
        Err(GetBlockchainInfoError::Numeric(NumericError::Overflow { field, value })) => {
            assert_eq!(field, "prune_target_size");
            assert_eq!(value, 5_000_000_000);
        }
        other => panic!("unexpected result: {:?}", other.err()),
    }
}

#[test]
fn v28_blockchain_info_keeps_warnings() {
    let info = corepc_types::v28::GetBlockchainInfo::<f64> {
        chain: "regtest".to_string(),
        blocks: 1,
        headers: 1,
        best_block_hash: GENESIS_HASH.to_string(),
        difficulty: 0.0,
        median_time: 0,
        verification_progress: 1.0,
        initial_block_download: true,
        chain_work: "02".to_string(),
        size_on_disk: 0,
        pruned: false,
        prune_height: None,
        automatic_pruning: None,
        prune_target_size: None,
        softforks: BTreeMap::new(),
        warnings: vec!["a".to_string(), "b".to_string()],
    };
    let m = info.into_model().unwrap();
    assert_eq!(m.chain, Network::Regtest);
    assert_eq!(m.warnings, vec!["a".to_string(), "b".to_string()]);
    assert!(m.softforks.is_empty());
    assert_eq!(m.bits, None);
    let mut two = [0u8; 32];
    two[31] = 2;
    assert_eq!(m.chain_work, two);
}

#[test]
fn block_filter_converts() {
    let f = GetBlockFilter { filter: "0a1B".to_string(), header: GENESIS_HASH.to_string() };
    let m = f.into_model().unwrap();
    assert_eq!(m.filter, vec![0x0a, 0x1b]);
    assert_eq!(m.header, reversed_hex(GENESIS_HASH));
}

#[test]
fn block_filter_errors() {
    let f = GetBlockFilter { filter: "abc".to_string(), header: "zz".to_string() };
    assert!(matches!(f.into_model(), Err(GetBlockFilterError::Filter(_))));
    let f = GetBlockFilter { filter: "ab".to_string(), header: "abcd".to_string() };
    assert!(matches!(f.into_model(), Err(GetBlockFilterError::Header(_))));
}

fn chain_tx_stats() -> GetChainTxStats {
    GetChainTxStats {
        time: 1_600_000_000,
        tx_count: 500,
        window_final_block_hash: GENESIS_HASH.to_string(),
        window_final_block_height: 100,
        window_block_count: 10,
        window_tx_count: Some(20),
        window_interval: None,
        tx_rate: Some(3),
    }
}

#[test]
fn chain_tx_stats_converts() {
    let m = chain_tx_stats().into_model().unwrap();
    assert_eq!(m.time, 1_600_000_000);
    assert_eq!(m.tx_count, 500);
    assert_eq!(m.window_final_block_hash, reversed_hex(GENESIS_HASH));
    assert_eq!(m.window_final_block_height, Some(100));
    assert_eq!(m.window_block_count, 10);
    assert_eq!(m.window_tx_count, Some(20));
    assert_eq!(m.window_interval, None);
    assert_eq!(m.tx_rate, Some(3));
}

#[test]
fn chain_tx_stats_errors() {
    let mut s = chain_tx_stats();
    s.window_final_block_hash = GENESIS_HASH[1..].to_string();
    s.time = -1;
    assert!(matches!(s.into_model(), Err(GetChainTxStatsError::WindowFinalBlockHash(_))));

    let mut s = chain_tx_stats();
    s.window_final_block_height = -2;
    s.time = -1;
    match s.into_model() {
        Err(GetChainTxStatsError::Numeric(NumericError::Negative { field, value })) => {
            assert_eq!(field, "window_final_block_height");
            assert_eq!(value, -2);
        }
        other => panic!("unexpected result: {:?}", other.err()),
    }
}

#[test]
fn mempool_ancestors_and_descendants() {
    let a = GetMempoolAncestors(vec![GENESIS_HASH.to_string(), CHAIN_WORK.to_string()]);
    let m = a.into_model().unwrap();
    assert_eq!(m.0, vec![reversed_hex(GENESIS_HASH), reversed_hex(CHAIN_WORK)]);
    let d = GetMempoolDescendants(vec![GENESIS_HASH.to_string(), "nothex".to_string()]);
    assert!(d.into_model().is_err());
    let d = GetMempoolDescendants(vec![]);
    assert_eq!(d.into_model().unwrap().0, Vec::<[u8; 32]>::new());
}

fn read_chain_work(s: &str) -> Result<[u8; 32], ()> {
    let mut info = blockchain_info();
    info.chain_work = s.to_string();
    match info.into_model() {
        Ok(m) => Ok(m.chain_work),
        Err(GetBlockchainInfoError::ChainWork(_)) => Err(()),
        Err(other) => panic!("unexpected error: {:?}", other),
    }
}

#[test]
fn chain_work_reads_two_u128_halves() {
    let mut expected = [0u8; 32];
    expected[31] = 0xff;
    assert_eq!(read_chain_work("+ff"), Ok(expected));

    // Longer than 32 bytes: the last 32 are the low half, read with its own `0x` dropped.
    let s = format!("1{}", format!("0x{}5", "0".repeat(29)));
    let mut expected = [0u8; 32];
    expected[15] = 1;
    expected[31] = 5;
    assert_eq!(read_chain_work(&s), Ok(expected));

    // The low half may carry its own `+`.
    let s = format!("2+{}7", "0".repeat(30));
    let mut expected = [0u8; 32];
    expected[15] = 2;
    expected[31] = 7;
    assert_eq!(read_chain_work(&s), Ok(expected));
}

#[test]
fn chain_work_refusals() {
    for bad in ["", "0x01", "0Xff", "1 2", "-1", "+"] {
        assert_eq!(read_chain_work(bad), Err(()), "{:?}", bad);
    }
    // A high half of 33 digits does not fit a u128.
    let s = format!("1{}", "0".repeat(64));
    assert_eq!(read_chain_work(&s), Err(()));
    // A high half of `+` alone has no digit.
    let s = format!("+{}", "0".repeat(32));
    assert_eq!(read_chain_work(&s), Err(()));
}
