use corepc_types::v17::{CreateWallet, DumpPrivKey, LoadWallet, SendToAddress};

const WIF: &str = "5HueCGU8rMjxEXxiPuD5BDku4MkFqeZyd4dZ1jvhTVqvbTLvyTJ";
const WIF_COMPRESSED: &str = "KwdMAjGmerYanjeui5SHS7JkmpZvVipYvB2LJGU1ZxJwYvP98617";
const TXID: &str = "4a5e1e4baab89f3a32518a88c31bc87f618f76673e2cc77ab2127b7afdeda33b";

#[test]
fn create_wallet_name_and_model() {
    let w = CreateWallet { name: "alice".to_string(), warning: "careful".to_string() };
    assert_eq!(w.clone().name(), "alice");
    let m = w.into_model();
    assert_eq!(m.name, "alice");
    assert_eq!(m.warnings, vec!["careful".to_string()]);
}

#[test]
fn load_wallet_name_and_model() {
    let w = LoadWallet { name: "bob".to_string(), warning: "".to_string() };
    assert_eq!(w.clone().name(), "bob");
    let m = w.into_model();
    assert_eq!(m.name, "bob");
    assert_eq!(m.warnings, vec![String::new()]);
}

#[test]
fn dump_priv_key_parses_wif() {
    let key = DumpPrivKey(WIF.to_string()).key().unwrap();
    assert!(!key.compressed);
    assert_eq!(key.inner.secret_bytes()[0], 0x0c);
    let m = DumpPrivKey(WIF_COMPRESSED.to_string()).into_model().unwrap();
    assert!(m.0.compressed);
    assert_eq!(m.0.inner, key.inner);
    assert!(DumpPrivKey("5HueCGU8".to_string()).into_model().is_err());
}

#[test]
fn send_to_address_txid() {
    let t = SendToAddress(TXID.to_string()).txid().unwrap();
    assert_eq!(t[0], 0x3b);
    assert_eq!(t[31], 0x4a);
    let m = SendToAddress(TXID.to_string()).into_model().unwrap();
    assert_eq!(m.txid, t);
    assert!(SendToAddress("3b".to_string()).txid().is_err());
}
