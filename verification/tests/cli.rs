use anoma_cli::cmds;
use anoma_cli::constraints::ConstraintError;
use anoma_cli::resolve::ArgError;
use anoma_cli::tokenize::TokenizeError;
use anoma_cli::values::{LedgerAddress, ProposalVote, SchemeType, TendermintMode};
use anoma_cli::{anoma_cli, anoma_client_cli, anoma_node_cli, anoma_wallet_cli, AnomaClient,
    CliError, EXIT_USAGE};

fn args(words: &[&str]) -> Vec<String> {
    words.iter().map(|w| w.to_string()).collect()
}

fn no_env() -> Vec<(String, String)> {
    Vec::new()
}

#[test]
fn transfer_round_trip() {
    let a = args(&[
        "transfer", "--source", "alice", "--target", "bob", "--token", "NAM", "--amount", "10.1",
    ]);
    let r = anoma_client_cli(&a, &no_env()).unwrap();
    match r {
        AnomaClient::WithContext(cmds::AnomaClientWithContext::TxTransfer(t), _g) => {
            let t = t.0;
            assert_eq!(t.source.raw, "alice");
            assert_eq!(t.target.raw, "bob");
            assert_eq!(t.token.raw, "NAM");
            assert!(t.sub_prefix.is_none());
            assert_eq!(t.amount.micro, 10_100_000);
            // untouched common arguments resolve their declared defaults
            assert!(!t.tx.dry_run);
            assert_eq!(t.tx.fee_amount.micro, 0);
            assert_eq!(t.tx.fee_token.raw, "NAM");
            assert_eq!(t.tx.gas_limit.micro, 0);
            match t.tx.ledger_address {
                LedgerAddress::Tcp { host, port } => {
                    assert_eq!(host, "127.0.0.1");
                    assert_eq!(port, 26657);
                },
                _ => panic!("expected the default TCP endpoint"),
            }
        },
        _ => panic!("expected a transfer command"),
    }
}

#[test]
fn combined_tool_nested_round_trip() {
    let a = args(&[
        "client", "transfer", "--source", "s", "--target", "t", "--token", "tok", "--amount", "7",
    ]);
    let (cmd, raw) = anoma_cli(&a).unwrap();
    assert_eq!(raw, "client");
    match cmd {
        cmds::Anoma::Client(cmds::AnomaClient::WithContext(
            cmds::AnomaClientWithContext::TxTransfer(t),
        )) => {
            assert_eq!(t.0.source.raw, "s");
            assert_eq!(t.0.amount.micro, 7_000_000);
        },
        _ => panic!("expected the nested transfer command"),
    }
}

#[test]
fn wallet_key_gen_round_trip() {
    let a = args(&["wallet", "key", "gen", "--alias", "k1", "--unsafe-dont-encrypt"]);
    let (cmd, raw) = anoma_cli(&a).unwrap();
    assert_eq!(raw, "wallet");
    match cmd {
        cmds::Anoma::Wallet(cmds::AnomaWallet::Key(cmds::WalletKey::Gen(g))) => {
            assert_eq!(g.0.alias.as_deref(), Some("k1"));
            assert!(g.0.unsafe_dont_encrypt);
            assert!(matches!(g.0.scheme, SchemeType::Ed25519));
        },
        _ => panic!("expected the wallet key generation command"),
    }
}

#[test]
fn same_definition_serves_top_level_and_nested() {
    let top = args(&["update", "--code-path", "vp.wasm", "--address", "a"]);
    let nested = args(&["client", "update", "--code-path", "vp.wasm", "--address", "a"]);
    let (t, _) = anoma_cli(&top).unwrap();
    let (n, _) = anoma_cli(&nested).unwrap();
    let tp = match t {
        cmds::Anoma::TxUpdateVp(u) => u.0,
        _ => panic!("expected the update command at the top level"),
    };
    let np = match n {
        cmds::Anoma::Client(cmds::AnomaClient::WithContext(
            cmds::AnomaClientWithContext::TxUpdateVp(u),
        )) => u.0,
        _ => panic!("expected the update command under the client"),
    };
    assert_eq!(tp.vp_code_path, np.vp_code_path);
    assert_eq!(tp.addr.raw, np.addr.raw);
}

#[test]
fn base_dir_flag_overrides_environment() {
    let env = vec![("ANOMA_BASE_DIR".to_string(), "/from-env".to_string())];
    let a = args(&["--base-dir", "/from-flag", "ledger"]);
    let (_, g) = anoma_node_cli(&a, &env).unwrap();
    assert_eq!(g.base_dir, "/from-flag");
}

#[test]
fn base_dir_environment_overrides_static_default() {
    let env = vec![("ANOMA_BASE_DIR".to_string(), "/from-env".to_string())];
    let a = args(&["ledger"]);
    let (_, g) = anoma_node_cli(&a, &env).unwrap();
    assert_eq!(g.base_dir, "/from-env");
}

#[test]
fn wasm_dir_flag_overrides_environment() {
    let env = vec![("ANOMA_WASM_DIR".to_string(), "/wasm-from-env".to_string())];
    let a = args(&["--wasm-dir", "/wasm-from-flag", "ledger"]);
    let (_, g) = anoma_node_cli(&a, &env).unwrap();
    assert_eq!(g.wasm_dir.as_deref(), Some("/wasm-from-flag"));
}

#[test]
fn wasm_dir_environment_consulted_when_flag_absent() {
    let env = vec![("ANOMA_WASM_DIR".to_string(), "/wasm-from-env".to_string())];
    let a = args(&["ledger"]);
    let (_, g) = anoma_node_cli(&a, &env).unwrap();
    assert_eq!(g.wasm_dir.as_deref(), Some("/wasm-from-env"));
}

#[test]
fn wasm_dir_absent_without_flag_or_environment() {
    let a = args(&["ledger"]);
    let (_, g) = anoma_node_cli(&a, &no_env()).unwrap();
    assert!(g.wasm_dir.is_none());
}

#[test]
fn base_dir_static_default_when_nothing_supplied() {
    let a = args(&["ledger"]);
    let (_, g) = anoma_node_cli(&a, &no_env()).unwrap();
    assert_eq!(g.base_dir, ".anoma");
}

#[test]
fn global_mode_parses_and_rejects() {
    let a = args(&["--mode", "validator", "ledger"]);
    let (_, g) = anoma_node_cli(&a, &no_env()).unwrap();
    assert!(matches!(g.mode, Some(TendermintMode::Validator)));
    let bad = args(&["--mode", "turbo", "ledger"]);
    match anoma_node_cli(&bad, &no_env()) {
        Err(CliError::Arg(ArgError::BadValue(k, v))) => {
            assert_eq!(k, "mode");
            assert_eq!(v, "turbo");
        },
        _ => panic!("expected a bad-value error for the mode"),
    }
}

#[test]
fn mutually_exclusive_proposal_id_and_offline() {
    let a = args(&["vote-proposal", "--proposal-id", "1", "--vote", "yay", "--offline"]);
    match anoma_client_cli(&a, &no_env()) {
        Err(CliError::Constraint(ConstraintError::Conflict(x, y))) => {
            assert_eq!(x, "proposal-id");
            assert_eq!(y, "offline");
        },
        _ => panic!("expected a constraint violation"),
    }
}

#[test]
fn mutually_exclusive_signing_key_and_signer() {
    let a = args(&[
        "transfer", "--source", "s", "--target", "t", "--token", "tok", "--amount", "1",
        "--signing-key", "k", "--signer", "a",
    ]);
    match anoma_client_cli(&a, &no_env()) {
        Err(CliError::Constraint(ConstraintError::Conflict(x, y))) => {
            assert_eq!(x, "signing-key");
            assert_eq!(y, "signer");
        },
        _ => panic!("expected a constraint violation"),
    }
}

#[test]
fn find_requires_alias_or_address() {
    let a = args(&["wallet", "address", "find"]);
    match anoma_cli(&a) {
        Err(CliError::Constraint(ConstraintError::MissingOneOf(ks))) => {
            assert_eq!(ks, vec!["alias".to_string(), "address".to_string()]);
        },
        _ => panic!("expected a required-group violation"),
    }
}

#[test]
fn find_rejects_alias_and_address_together() {
    let a = args(&[
        "wallet", "address", "find", "--alias", "mine", "--address", "atest1qqqqqq",
    ]);
    match anoma_cli(&a) {
        Err(CliError::Constraint(ConstraintError::Conflict(x, y))) => {
            assert_eq!(x, "alias");
            assert_eq!(y, "address");
        },
        _ => panic!("expected a constraint violation"),
    }
}

#[test]
fn vote_outside_vocabulary_fails() {
    let a = args(&["vote-proposal", "--proposal-id", "1", "--vote", "maybe"]);
    match anoma_client_cli(&a, &no_env()) {
        Err(CliError::Arg(ArgError::BadValue(k, v))) => {
            assert_eq!(k, "vote");
            assert_eq!(v, "maybe");
        },
        _ => panic!("expected a bad-value error for the vote"),
    }
    assert!(matches!(ProposalVote::parse("yay"), Some(ProposalVote::Yay)));
    assert!(matches!(ProposalVote::parse("nay"), Some(ProposalVote::Nay)));
    assert!(ProposalVote::parse("YAY").is_none());
    assert!(ProposalVote::parse("").is_none());
}

#[test]
fn no_command_prints_usage_and_exit_code_is_two() {
    assert!(matches!(anoma_cli(&args(&[])), Err(CliError::NoCommand)));
    assert!(matches!(anoma_cli(&args(&["node"])), Err(CliError::NoCommand)));
    assert_eq!(EXIT_USAGE, 2);
}

#[test]
fn ledger_without_sub_token_runs_the_node() {
    let (cmd, raw) = anoma_cli(&args(&["ledger"])).unwrap();
    assert_eq!(raw, "ledger");
    assert!(matches!(cmd, cmds::Anoma::Ledger(cmds::Ledger::Run(_))));
    let (ncmd, _) = anoma_node_cli(&args(&["ledger"]), &no_env()).unwrap();
    assert!(matches!(ncmd, cmds::AnomaNode::Ledger(cmds::Ledger::Run(_))));
    let (rcmd, _) = anoma_node_cli(&args(&["ledger", "reset"]), &no_env()).unwrap();
    assert!(matches!(rcmd, cmds::AnomaNode::Ledger(cmds::Ledger::Reset(_))));
    let (xcmd, _) = anoma_node_cli(&args(&["ledger", "run"]), &no_env()).unwrap();
    assert!(matches!(xcmd, cmds::AnomaNode::Ledger(cmds::Ledger::Run(_))));
}

/// A stand-in for the external context collaborator, counting constructions.
struct CountingContext {
    calls: u32,
}

impl CountingContext {
    fn new() -> CountingContext {
        CountingContext { calls: 0 }
    }

    fn construct(&mut self) {
        self.calls += 1;
    }
}

#[test]
fn context_constructed_once_and_only_with_context() {
    let mut counter = CountingContext::new();
    // a utility never triggers context construction
    let a = args(&["utils", "join-network", "--chain-id", "test.a1"]);
    match anoma_client_cli(&a, &no_env()).unwrap() {
        AnomaClient::WithoutContext(u, _g) => {
            assert!(matches!(u, cmds::Utils::JoinNetwork(_)));
        },
        AnomaClient::WithContext(_, _) => counter.construct(),
    }
    assert_eq!(counter.calls, 0);
    // a context-dependent command triggers exactly one construction
    let b = args(&["epoch"]);
    match anoma_client_cli(&b, &no_env()).unwrap() {
        AnomaClient::WithoutContext(_, _) => {},
        AnomaClient::WithContext(c, _g) => {
            assert!(matches!(c, cmds::AnomaClientWithContext::QueryEpoch(_)));
            counter.construct();
        },
    }
    assert_eq!(counter.calls, 1);
}

#[test]
fn unknown_command_and_arguments_are_rejected() {
    match anoma_cli(&args(&["frobnicate"])) {
        Err(CliError::Tokenize(TokenizeError::UnknownCommand(t))) => assert_eq!(t, "frobnicate"),
        _ => panic!("expected an unknown-command error"),
    }
    match anoma_cli(&args(&["transfer", "--sauce", "alice"])) {
        Err(CliError::Tokenize(TokenizeError::UnknownArgument(k))) => assert_eq!(k, "sauce"),
        _ => panic!("expected an unknown-argument error"),
    }
    match anoma_cli(&args(&["transfer", "--source"])) {
        Err(CliError::Tokenize(TokenizeError::MissingValue(k))) => assert_eq!(k, "source"),
        _ => panic!("expected a missing-value error"),
    }
    match anoma_cli(&args(&["transfer", "--source", "a", "--source", "b"])) {
        Err(CliError::Tokenize(TokenizeError::DuplicateArgument(k))) => assert_eq!(k, "source"),
        _ => panic!("expected a duplicate-argument error"),
    }
}

#[test]
fn missing_required_argument_is_always_an_error() {
    let a = args(&["transfer", "--target", "t", "--token", "tok", "--amount", "1"]);
    match anoma_client_cli(&a, &no_env()) {
        Err(CliError::Arg(ArgError::Missing(k))) => assert_eq!(k, "source"),
        _ => panic!("expected a missing-argument error"),
    }
}

#[test]
fn malformed_amount_reports_key_and_text() {
    let a = args(&["transfer", "--source", "s", "--target", "t", "--token", "tok", "--amount",
        "1.2.3"]);
    match anoma_client_cli(&a, &no_env()) {
        Err(CliError::Arg(ArgError::BadValue(k, v))) => {
            assert_eq!(k, "amount");
            assert_eq!(v, "1.2.3");
        },
        _ => panic!("expected a bad-value error for the amount"),
    }
}

#[test]
fn wallet_tool_parses_address_add() {
    let addr = "atest1v4ehgw36xqcrzdzxg5crvsfsg5mr2v6989pnxdf5xvmnydesxqunqvp4xcenqvpjxcurxdpk8fmn2a";
    let a = args(&["address", "add", "--alias", "mine", "--address", addr]);
    let (cmd, _g) = anoma_wallet_cli(&a, &no_env()).unwrap();
    match cmd {
        cmds::AnomaWallet::Address(cmds::WalletAddress::Add(x)) => {
            assert_eq!(x.0.alias, "mine");
            assert_eq!(x.0.address.raw, addr);
        },
        _ => panic!("expected the address add command"),
    }
}

#[test]
fn composed_trees_have_distinct_sibling_tokens() {
    assert!(anoma_cli::defs::check_no_duplicate_tokens(&anoma_cli::anoma_app()));
    assert!(anoma_cli::defs::check_no_duplicate_tokens(&anoma_cli::anoma_node_app()));
    assert!(anoma_cli::defs::check_no_duplicate_tokens(&anoma_cli::anoma_client_app()));
    assert!(anoma_cli::defs::check_no_duplicate_tokens(&anoma_cli::anoma_wallet_app()));
}

#[test]
fn composed_trees_declare_each_argument_key_once() {
    assert!(anoma_cli::defs::check_no_duplicate_arg_keys(&anoma_cli::anoma_app()));
    assert!(anoma_cli::defs::check_no_duplicate_arg_keys(&anoma_cli::anoma_node_app()));
    assert!(anoma_cli::defs::check_no_duplicate_arg_keys(&anoma_cli::anoma_client_app()));
    assert!(anoma_cli::defs::check_no_duplicate_arg_keys(&anoma_cli::anoma_wallet_app()));
}
