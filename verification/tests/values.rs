use std::str::FromStr;

use anoma_cli::cmds;
use anoma_cli::resolve::ArgError;
use anoma_cli::values::{
    Address, Amount, ChainId, ChainIdPrefix, LedgerAddress, NetAddress, PublicKey, StorageKey,
    TendermintMode, Timeout,
};
use anoma_cli::{anoma_client_cli, AnomaClient, CliError};

fn args(words: &[&str]) -> Vec<String> {
    words.iter().map(|w| w.to_string()).collect()
}

#[test]
fn amount_parses_to_micro_units() {
    assert_eq!(Amount::parse("0").unwrap().micro, 0);
    assert_eq!(Amount::parse("1").unwrap().micro, 1_000_000);
    assert_eq!(Amount::parse("10.1").unwrap().micro, 10_100_000);
    assert_eq!(Amount::parse("0.000001").unwrap().micro, 1);
    assert_eq!(Amount::parse("+2.5").unwrap().micro, 2_500_000);
    assert_eq!(Amount::parse("000.5").unwrap().micro, 500_000);
}

#[test]
fn amount_rejects_out_of_grammar_text() {
    assert!(Amount::parse("").is_none());
    assert!(Amount::parse(".5").is_none());
    assert!(Amount::parse("1.").is_none());
    assert!(Amount::parse("1.2345678").is_none());
    assert!(Amount::parse("1,5").is_none());
    assert!(Amount::parse("-1").is_none());
    // the largest representable value, and one just past it
    assert_eq!(
        Amount::parse("18446744073709.551615").unwrap().micro,
        u64::MAX,
    );
    assert!(Amount::parse("18446744073709.551616").is_none());
    assert!(Amount::parse("18446744073709551616").is_none());
}

#[test]
fn u64_arguments_parse_exactly() {
    let a = args(&["query-proposal", "--proposal-id", "18446744073709551615"]);
    match anoma_client_cli(&a, &Vec::new()).unwrap() {
        AnomaClient::WithContext(cmds::AnomaClientWithContext::QueryProposal(q), _) => {
            assert_eq!(q.0.proposal_id, Some(u64::MAX));
        },
        _ => panic!("expected a proposal query"),
    }
    let b = args(&["query-proposal", "--proposal-id", "18446744073709551616"]);
    assert!(matches!(
        anoma_client_cli(&b, &Vec::new()),
        Err(CliError::Arg(ArgError::BadValue(_, _)))
    ));
}

#[test]
fn public_key_hex_decodes_to_bytes() {
    assert_eq!(PublicKey::parse("0a1B").unwrap().bytes, vec![10u8, 27u8]);
    assert_eq!(PublicKey::parse("ff00").unwrap().bytes, vec![255u8, 0u8]);
    assert!(PublicKey::parse("").is_none());
    assert!(PublicKey::parse("abc").is_none());
    assert!(PublicKey::parse("zz").is_none());
}

#[test]
fn storage_key_splits_on_slashes() {
    let k = StorageKey::parse("a/bc/d").unwrap();
    assert_eq!(k.segments, vec!["a".to_string(), "bc".to_string(), "d".to_string()]);
    let single = StorageKey::parse("balance").unwrap();
    assert_eq!(single.segments, vec!["balance".to_string()]);
    assert!(StorageKey::parse("").is_none());
    assert!(StorageKey::parse("a//b").is_none());
    assert!(StorageKey::parse("/a").is_none());
    assert!(StorageKey::parse("a/").is_none());
}

#[test]
fn ledger_address_forms() {
    match LedgerAddress::parse("tcp://10.0.0.1:26656").unwrap() {
        LedgerAddress::Tcp { host, port } => {
            assert_eq!(host, "10.0.0.1");
            assert_eq!(port, 26656);
        },
        _ => panic!("expected a TCP endpoint"),
    }
    match LedgerAddress::parse("node.example:26657").unwrap() {
        LedgerAddress::Tcp { host, port } => {
            assert_eq!(host, "node.example");
            assert_eq!(port, 26657);
        },
        _ => panic!("a bare endpoint is assumed to be TCP"),
    }
    match LedgerAddress::parse("unix:///var/run/node.sock").unwrap() {
        LedgerAddress::Unix { path } => assert_eq!(path, "/var/run/node.sock"),
        _ => panic!("expected a unix socket path"),
    }
    assert!(LedgerAddress::parse("host-without-port").is_none());
    assert!(LedgerAddress::parse(":26657").is_none());
    assert!(LedgerAddress::parse("h:99999").is_none());
    assert!(LedgerAddress::parse("unix://").is_none());
}

#[test]
fn timeout_units() {
    assert_eq!(Timeout::parse("1s").unwrap().millis, 1000);
    assert_eq!(Timeout::parse("250ms").unwrap().millis, 250);
    assert_eq!(Timeout::parse("0s").unwrap().millis, 0);
    assert!(Timeout::parse("1").is_none());
    assert!(Timeout::parse("s").is_none());
    assert!(Timeout::parse("1m").is_none());
}

#[test]
fn net_address_requires_host_and_port() {
    let n = NetAddress::parse("validator.local:26656").unwrap();
    assert_eq!(n.host, "validator.local");
    assert_eq!(n.port, 26656);
    assert!(NetAddress::parse("validator.local").is_none());
    assert!(NetAddress::parse(":1").is_none());
    assert!(NetAddress::parse("h:65536").is_none());
}

#[test]
fn chain_identifiers_bound_length_and_charset() {
    assert!(ChainId::parse("anoma-test.1a2b3c").is_some());
    assert!(ChainId::parse("").is_none());
    assert!(ChainId::parse(&"x".repeat(31)).is_none());
    assert!(ChainId::parse("bad space").is_none());
    assert!(ChainIdPrefix::parse(&"p".repeat(19)).is_some());
    assert!(ChainIdPrefix::parse(&"p".repeat(20)).is_none());
}

#[test]
fn address_shape() {
    assert!(Address::parse("atest1qqqqqq").is_some());
    assert!(Address::parse("atest1").is_none());
    assert!(Address::parse("1qqqqqq").is_none());
    assert!(Address::parse("atest1qqbqqq").is_none());
    assert!(Address::parse("ATEST1QQQQQQ").is_none());
    assert!(Address::parse("no-separator").is_none());
}

#[test]
fn mode_vocabulary() {
    assert!(matches!(TendermintMode::parse("validator"), Some(TendermintMode::Validator)));
    assert!(matches!(TendermintMode::parse("full"), Some(TendermintMode::Full)));
    assert!(matches!(TendermintMode::parse("seed"), Some(TendermintMode::Seed)));
    assert!(TendermintMode::parse("Validator").is_none());
}

#[test]
fn commission_rate_decimal_through_init_validator() {
    let a = args(&[
        "init-validator", "--source", "s", "--commission-rate", "0.05",
        "--max-commission-rate-change", "0.01",
    ]);
    match anoma_client_cli(&a, &Vec::new()).unwrap() {
        AnomaClient::WithContext(cmds::AnomaClientWithContext::TxInitValidator(v), _) => {
            assert_eq!(v.0.commission_rate, rust_decimal::Decimal::from_str("0.05").unwrap());
            assert_eq!(
                v.0.max_commission_rate_change,
                rust_decimal::Decimal::from_str("0.01").unwrap(),
            );
        },
        _ => panic!("expected the validator initialization command"),
    }
    let bad = args(&[
        "init-validator", "--source", "s", "--commission-rate", "five",
        "--max-commission-rate-change", "0.01",
    ]);
    match anoma_client_cli(&bad, &Vec::new()) {
        Err(CliError::Arg(ArgError::BadValue(k, v))) => {
            assert_eq!(k, "commission-rate");
            assert_eq!(v, "five");
        },
        _ => panic!("expected a bad-value error for the commission rate"),
    }
}

#[test]
fn init_network_defaults_and_timeout() {
    let a = args(&[
        "utils", "init-network", "--genesis-path", "g.toml", "--wasm-checksums-path", "c.json",
        "--chain-prefix", "test",
    ]);
    match anoma_client_cli(&a, &Vec::new()).unwrap() {
        AnomaClient::WithoutContext(cmds::Utils::InitNetwork(n), _) => {
            assert_eq!(n.0.consensus_timeout_commit.millis, 1000);
            assert_eq!(n.0.chain_id_prefix.raw, "test");
            assert!(!n.0.localhost);
        },
        _ => panic!("expected the network initialization utility"),
    }
}
