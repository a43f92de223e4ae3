//! The typed argument sets of the concrete commands: one struct per
//! command, each with `parse`, which resolves its fields out of the matched
//! input, and `def`, which appends its declarative descriptors and
//! constraints to a command definition.

use vstd::prelude::*;

use crate::context::{WalletAddress, WalletKeypair, WalletPublicKey};
use crate::defs::{
    conflicts, ctx_def_arg, def_arg, env_def_arg, env_opt_arg, flag_arg, opt_arg, req_arg,
    required_one_of2,
    ArgSpecV, Cardinality, CmdDef, CmdDefV, ConstraintV, DefaultKindV, cview,
};
use crate::matches::{flag_of, opt_of, Matches, MatchesV, mview};
use crate::resolve::{
    aeview, arg_ctx_def_wallet_address, arg_def_amount, arg_def_ledger_address, arg_def_scheme,
    arg_def_timeout, arg_env_def_string, arg_env_opt_string, arg_flag, arg_opt_address,
    arg_opt_chain_id,
    arg_opt_mode, arg_opt_public_key, arg_opt_string, arg_opt_u64, arg_opt_wallet_address,
    arg_opt_wallet_keypair, arg_opt_wallet_public_key, arg_req_address, arg_req_amount,
    arg_req_chain_id, arg_req_chain_prefix, arg_req_decimal, arg_req_net_address,
    arg_req_storage_key, arg_req_string, arg_req_vote, arg_req_wallet_address,
    arg_req_wallet_public_key, r_def_amount, r_def_ledger_address, r_def_scheme, r_def_str,
    r_def_timeout, r_env_def_str, r_env_opt_str, r_opt_address, r_opt_chain_id, r_opt_mode,
    r_opt_public_key,
    r_opt_u64, r_req_address, r_req_amount, r_req_chain_id, r_req_chain_prefix, r_req_decimal,
    r_req_net_address, r_req_storage_key, r_req_str, r_req_vote, ArgError, ArgFail,
};
use crate::values::{
    Address, Amount, ChainId, ChainIdPrefix, GasLimit, LedgerAddress, NetAddress, ProposalVote,
    PublicKey, SchemeType, StorageKey, TendermintMode, Timeout, laview,
};

verus! {

/// Whether an optional text field holds exactly the supplied raw text.
pub open spec fn opt_string_is(x: Option<String>, v: Option<Seq<char>>) -> bool {
    match x {
        Option::Some(s) => v == Option::Some(s@),
        Option::None => v is None,
    }
}

/// Whether an optional wallet-address field holds exactly the supplied text.
pub open spec fn opt_waddr_is(x: Option<WalletAddress>, v: Option<Seq<char>>) -> bool {
    match x {
        Option::Some(a) => v == Option::Some(a.raw@),
        Option::None => v is None,
    }
}

/// Whether an optional wallet-keypair field holds exactly the supplied text.
pub open spec fn opt_wkeyp_is(x: Option<WalletKeypair>, v: Option<Seq<char>>) -> bool {
    match x {
        Option::Some(a) => v == Option::Some(a.raw@),
        Option::None => v is None,
    }
}

/// Whether an optional wallet-public-key field holds exactly the supplied
/// text.
pub open spec fn opt_wpk_is(x: Option<WalletPublicKey>, v: Option<Seq<char>>) -> bool {
    match x {
        Option::Some(a) => v == Option::Some(a.raw@),
        Option::None => v is None,
    }
}

/// Whether an optional chain-id field holds exactly the resolved value.
pub open spec fn opt_chain_id_is(x: Option<ChainId>, v: Result<Option<Seq<char>>, ArgFail>) -> bool {
    match x {
        Option::Some(c) => v == Result::<Option<Seq<char>>, ArgFail>::Ok(
            Option::Some(c.raw@),
        ),
        Option::None => v == Result::<Option<Seq<char>>, ArgFail>::Ok(
            Option::None::<Seq<char>>,
        ),
    }
}

/// Whether an optional raw-address field holds exactly the resolved value.
pub open spec fn opt_address_is(x: Option<Address>, v: Result<Option<Seq<char>>, ArgFail>) -> bool {
    match x {
        Option::Some(c) => v == Result::<Option<Seq<char>>, ArgFail>::Ok(
            Option::Some(c.raw@),
        ),
        Option::None => v == Result::<Option<Seq<char>>, ArgFail>::Ok(
            Option::None::<Seq<char>>,
        ),
    }
}

/// Whether an optional raw-public-key field holds exactly the resolved
/// value.
pub open spec fn opt_pk_is(x: Option<PublicKey>, v: Result<Option<Seq<u8>>, ArgFail>) -> bool {
    match x {
        Option::Some(c) => v == Result::<Option<Seq<u8>>, ArgFail>::Ok(
            Option::Some(c.bytes@),
        ),
        Option::None => v == Result::<Option<Seq<u8>>, ArgFail>::Ok(Option::None::<Seq<u8>>),
    }
}

/// Global command arguments, available on every executable and parsed once,
/// before any subcommand-specific parsing.
pub struct Global {
    pub chain_id: Option<ChainId>,
    pub base_dir: String,
    pub wasm_dir: Option<String>,
    pub mode: Option<TendermintMode>,
}

/// Descriptors of the global arguments.
pub open spec fn global_args() -> Seq<ArgSpecV> {
    seq![
        ArgSpecV {
            name: "chain-id"@,
            cardinality: Cardinality::OptionalValue,
            default: DefaultKindV::NoDefault,
        },
        ArgSpecV {
            name: "base-dir"@,
            cardinality: Cardinality::OptionalValue,
            default: DefaultKindV::EnvThenStatic("ANOMA_BASE_DIR"@, ".anoma"@),
        },
        ArgSpecV {
            name: "wasm-dir"@,
            cardinality: Cardinality::OptionalValue,
            default: DefaultKindV::FromEnv("ANOMA_WASM_DIR"@),
        },
        ArgSpecV {
            name: "mode"@,
            cardinality: Cardinality::OptionalValue,
            default: DefaultKindV::NoDefault,
        },
    ]
}

/// Which global argument fails first, if any.
pub open spec fn global_res(m: MatchesV) -> Result<(), ArgFail> {
    match r_opt_chain_id(m, "chain-id"@) {
        Result::Err(e) => Result::Err(e),
        Result::Ok(u) => match r_opt_mode(m, "mode"@) {
            Result::Err(e) => Result::Err(e),
            Result::Ok(w) => Result::Ok(()),
        },
    }
}

/// Whether parsed global arguments hold exactly the resolved values: the
/// base directory is the flag, then the environment, then the static
/// fallback; the wasm directory is the flag, then the environment, then
/// absent — there is no static fallback for it.
pub open spec fn global_matches(
    g: Global,
    m: MatchesV,
    env: Seq<(Seq<char>, Seq<char>)>,
) -> bool {
    &&& opt_chain_id_is(g.chain_id, r_opt_chain_id(m, "chain-id"@))
    &&& g.base_dir@ == r_env_def_str(m, "base-dir"@, env, "ANOMA_BASE_DIR"@, ".anoma"@)
    &&& opt_string_is(g.wasm_dir, r_env_opt_str(m, "wasm-dir"@, env, "ANOMA_WASM_DIR"@))
    &&& r_opt_mode(m, "mode"@) == Result::<Option<TendermintMode>, ArgFail>::Ok(g.mode)
}

impl Global {
    /// Parses the global arguments, given the matched input at the root and
    /// a snapshot of the process environment as name-value pairs.
    pub fn parse(matches: &Matches, env: &Vec<(String, String)>) -> (r: Result<Global, ArgError>)
        ensures
            (r is Ok) == (global_res(mview(*matches)) is Ok),
            r matches Result::Ok(g) ==> global_matches(
                g,
                mview(*matches),
                crate::matches::opt_views(env@),
            ),
            r matches Result::Err(e) ==> global_res(mview(*matches)) == Result::<
                (),
                ArgFail,
            >::Err(aeview(e)),
    {
        let chain_id = match arg_opt_chain_id(matches, "chain-id") {
            Result::Ok(v) => v,
            Result::Err(e) => {
                return Result::Err(e);
            },
        };
        let base_dir = arg_env_def_string(matches, "base-dir", env, "ANOMA_BASE_DIR", ".anoma");
        let wasm_dir = arg_env_opt_string(matches, "wasm-dir", env, "ANOMA_WASM_DIR");
        let mode = match arg_opt_mode(matches, "mode") {
            Result::Ok(v) => v,
            Result::Err(e) => {
                return Result::Err(e);
            },
        };
        Result::Ok(Global { chain_id, base_dir, wasm_dir, mode })
    }

    /// Adds the global args definition. Should be added to every top-level
    /// command.
    pub fn def(app: CmdDef) -> (r: CmdDef)
        ensures
            cview(r) == (CmdDefV {
                args: cview(app).args + global_args(),
                ..cview(app)
            }),
    {
        let ghost appv = cview(app);
        let r = app.arg(opt_arg("chain-id", "The chain ID.")).arg(
            env_def_arg(
                "base-dir",
                "The base directory for node, client and wallet state; the environment variable \
                 is consulted when the flag is absent, and the static fallback after that.",
                "ANOMA_BASE_DIR",
                ".anoma",
            ),
        ).arg(
            env_opt_arg(
                "wasm-dir",
                "Directory with built WASM validity predicates and transactions; the \
                 environment variable is consulted when the flag is absent.",
                "ANOMA_WASM_DIR",
            ),
        ).arg(opt_arg("mode", "The mode in which to run: validator, full or seed."));
        proof {
            assert(cview(r).args =~= appv.args + global_args());
        }
        r
    }
}

/// Common transaction arguments.
pub struct Tx {
    /// Simulate applying the transaction.
    pub dry_run: bool,
    /// Submit the transaction even if it fails client checks.
    pub force: bool,
    /// Do not wait for the transaction to be included in a block.
    pub broadcast_only: bool,
    /// The ledger node to submit to.
    pub ledger_address: LedgerAddress,
    /// The alias for any account the transaction initializes.
    pub initialized_account_alias: Option<String>,
    /// The fee paid for inclusion.
    pub fee_amount: Amount,
    /// The token the fee is paid in.
    pub fee_token: WalletAddress,
    /// The most gas the transaction may use.
    pub gas_limit: GasLimit,
    /// Sign with the key of this alias.
    pub signing_key: Option<WalletKeypair>,
    /// Sign with the key behind this address.
    pub signer: Option<WalletAddress>,
}

/// Descriptors of the common transaction arguments.
pub open spec fn tx_args() -> Seq<ArgSpecV> {
    seq![
        ArgSpecV {
            name: "dry-run"@,
            cardinality: Cardinality::BoolFlag,
            default: DefaultKindV::NoDefault,
        },
        ArgSpecV {
            name: "force"@,
            cardinality: Cardinality::BoolFlag,
            default: DefaultKindV::NoDefault,
        },
        ArgSpecV {
            name: "broadcast-only"@,
            cardinality: Cardinality::BoolFlag,
            default: DefaultKindV::NoDefault,
        },
        ArgSpecV {
            name: "ledger-address"@,
            cardinality: Cardinality::OptionalValue,
            default: DefaultKindV::Static("127.0.0.1:26657"@),
        },
        ArgSpecV {
            name: "alias"@,
            cardinality: Cardinality::OptionalValue,
            default: DefaultKindV::NoDefault,
        },
        ArgSpecV {
            name: "fee-amount"@,
            cardinality: Cardinality::OptionalValue,
            default: DefaultKindV::Static("0"@),
        },
        ArgSpecV {
            name: "fee-token"@,
            cardinality: Cardinality::OptionalValue,
            default: DefaultKindV::FromContext("NAM"@),
        },
        ArgSpecV {
            name: "gas-limit"@,
            cardinality: Cardinality::OptionalValue,
            default: DefaultKindV::Static("0"@),
        },
        ArgSpecV {
            name: "signing-key"@,
            cardinality: Cardinality::OptionalValue,
            default: DefaultKindV::NoDefault,
        },
        ArgSpecV {
            name: "signer"@,
            cardinality: Cardinality::OptionalValue,
            default: DefaultKindV::NoDefault,
        },
    ]
}

/// The common transaction constraints: a signing key alias and a signer
/// address are mutually exclusive.
pub open spec fn tx_constraints() -> Seq<ConstraintV> {
    seq![ConstraintV::Conflicts("signing-key"@, "signer"@)]
}

/// Which common transaction argument fails first, if any.
pub open spec fn tx_res(m: MatchesV) -> Result<(), ArgFail> {
    match r_def_ledger_address(m, "ledger-address"@) {
        Result::Err(e) => Result::Err(e),
        Result::Ok(a) => match r_def_amount(m, "fee-amount"@, 0) {
            Result::Err(e) => Result::Err(e),
            Result::Ok(f) => match r_def_amount(m, "gas-limit"@, 0) {
                Result::Err(e) => Result::Err(e),
                Result::Ok(g) => Result::Ok(()),
            },
        },
    }
}

/// Whether parsed common transaction arguments hold exactly the resolved
/// values.
pub open spec fn tx_matches(t: Tx, m: MatchesV) -> bool {
    &&& t.dry_run == flag_of(m, "dry-run"@)
    &&& t.force == flag_of(m, "force"@)
    &&& t.broadcast_only == flag_of(m, "broadcast-only"@)
    &&& r_def_ledger_address(m, "ledger-address"@) == Result::<
        crate::values::LedgerAddressV,
        ArgFail,
    >::Ok(laview(t.ledger_address))
    &&& opt_string_is(t.initialized_account_alias, opt_of(m, "alias"@))
    &&& r_def_amount(m, "fee-amount"@, 0) == Result::<u64, ArgFail>::Ok(t.fee_amount.micro)
    &&& t.fee_token.raw@ == r_def_str(m, "fee-token"@, "NAM"@)
    &&& r_def_amount(m, "gas-limit"@, 0) == Result::<u64, ArgFail>::Ok(t.gas_limit.micro)
    &&& opt_wkeyp_is(t.signing_key, opt_of(m, "signing-key"@))
    &&& opt_waddr_is(t.signer, opt_of(m, "signer"@))
}

impl Tx {
    /// Parses the common transaction arguments.
    pub fn parse(matches: &Matches) -> (r: Result<Tx, ArgError>)
        ensures
            (r is Ok) == (tx_res(mview(*matches)) is Ok),
            r matches Result::Ok(t) ==> tx_matches(t, mview(*matches)),
            r matches Result::Err(e) ==> tx_res(mview(*matches)) == Result::<(), ArgFail>::Err(
                aeview(e),
            ),
    {
        let dry_run = arg_flag(matches, "dry-run");
        let force = arg_flag(matches, "force");
        let broadcast_only = arg_flag(matches, "broadcast-only");
        let ledger_address = match arg_def_ledger_address(matches, "ledger-address") {
            Result::Ok(v) => v,
            Result::Err(e) => {
                return Result::Err(e);
            },
        };
        let initialized_account_alias = arg_opt_string(matches, "alias");
        let fee_amount = match arg_def_amount(matches, "fee-amount", 0) {
            Result::Ok(v) => v,
            Result::Err(e) => {
                return Result::Err(e);
            },
        };
        let fee_token = arg_ctx_def_wallet_address(matches, "fee-token", "NAM");
        let gas_limit = match arg_def_amount(matches, "gas-limit", 0) {
            Result::Ok(v) => GasLimit { micro: v.micro },
            Result::Err(e) => {
                return Result::Err(e);
            },
        };
        let signing_key = arg_opt_wallet_keypair(matches, "signing-key");
        let signer = arg_opt_wallet_address(matches, "signer");
        Result::Ok(
            Tx {
                dry_run,
                force,
                broadcast_only,
                ledger_address,
                initialized_account_alias,
                fee_amount,
                fee_token,
                gas_limit,
                signing_key,
                signer,
            },
        )
    }

    /// Adds the common transaction args definition.
    pub fn def(app: CmdDef) -> (r: CmdDef)
        ensures
            cview(r) == (CmdDefV {
                args: cview(app).args + tx_args(),
                constraints: cview(app).constraints + tx_constraints(),
                ..cview(app)
            }),
    {
        let ghost appv = cview(app);
        let r = app.arg(flag_arg("dry-run", "Simulate the transaction application.")).arg(
            flag_arg("force", "Submit the transaction even if it fails client checks."),
        ).arg(
            flag_arg(
                "broadcast-only",
                "Return once the transaction is in the mempool, without waiting for it to be \
                 applied.",
            ),
        ).arg(
            def_arg(
                "ledger-address",
                "Address of a ledger node as {scheme}://{host}:{port}. If the scheme is not \
                 supplied, it is assumed to be TCP.",
                "127.0.0.1:26657",
            ),
        ).arg(
            opt_arg(
                "alias",
                "The alias for any account the transaction initializes, to save it in the \
                 wallet.",
            ),
        ).arg(
            def_arg("fee-amount", "The amount paid for the inclusion of this transaction.", "0"),
        ).arg(ctx_def_arg("fee-token", "The token for paying the fee.", "NAM")).arg(
            def_arg("gas-limit", "The most gas the transaction may use.", "0"),
        ).arg(
            opt_arg(
                "signing-key",
                "Sign the transaction with the key for the given public key, public key hash or \
                 alias from the wallet.",
            ),
        ).arg(
            opt_arg(
                "signer",
                "Sign the transaction with the keypair of the public key of the given address.",
            ),
        ).constraint(conflicts("signing-key", "signer"));
        proof {
            assert(cview(r).args =~= appv.args + tx_args());
            assert(cview(r).constraints =~= appv.constraints + tx_constraints());
        }
        r
    }
}

/// Common query arguments.
pub struct Query {
    /// The ledger node to query.
    pub ledger_address: LedgerAddress,
}

/// Descriptors of the common query arguments.
pub open spec fn query_args() -> Seq<ArgSpecV> {
    seq![
        ArgSpecV {
            name: "ledger-address"@,
            cardinality: Cardinality::OptionalValue,
            default: DefaultKindV::Static("127.0.0.1:26657"@),
        },
    ]
}

/// Constraints the common query arguments declare: none.
pub open spec fn query_constraints() -> Seq<ConstraintV> {
    Seq::<ConstraintV>::empty()
}

/// Which common query argument fails first, if any.
pub open spec fn query_res(m: MatchesV) -> Result<(), ArgFail> {
    match r_def_ledger_address(m, "ledger-address"@) {
        Result::Err(e) => Result::Err(e),
        Result::Ok(a) => Result::Ok(()),
    }
}

/// Whether parsed common query arguments hold exactly the resolved values.
pub open spec fn query_matches(q: Query, m: MatchesV) -> bool {
    r_def_ledger_address(m, "ledger-address"@) == Result::<
        crate::values::LedgerAddressV,
        ArgFail,
    >::Ok(laview(q.ledger_address))
}

impl Query {
    /// Parses the common query arguments.
    pub fn parse(matches: &Matches) -> (r: Result<Query, ArgError>)
        ensures
            (r is Ok) == (query_res(mview(*matches)) is Ok),
            r matches Result::Ok(q) ==> query_matches(q, mview(*matches)),
            r matches Result::Err(e) ==> query_res(mview(*matches)) == Result::<
                (),
                ArgFail,
            >::Err(aeview(e)),
    {
        let ledger_address = match arg_def_ledger_address(matches, "ledger-address") {
            Result::Ok(v) => v,
            Result::Err(e) => {
                return Result::Err(e);
            },
        };
        Result::Ok(Query { ledger_address })
    }

    /// Adds the common query args definition.
    pub fn def(app: CmdDef) -> (r: CmdDef)
        ensures
            cview(r) == (CmdDefV {
                args: cview(app).args + query_args(),
                ..cview(app)
            }),
    {
        let ghost appv = cview(app);
        let r = app.arg(
            def_arg(
                "ledger-address",
                "Address of a ledger node as {scheme}://{host}:{port}. If the scheme is not \
                 supplied, it is assumed to be TCP.",
                "127.0.0.1:26657",
            ),
        );
        proof {
            assert(cview(r).args =~= appv.args + query_args());
        }
        r
    }
}


/// Transaction-result query arguments.
pub struct QueryResult {
    /// Common query arguments.
    pub query: Query,
    pub tx_hash: String,
}

/// Descriptors of these arguments, in definition order.
pub open spec fn query_result_args() -> Seq<ArgSpecV> {
    query_args() + seq![
        ArgSpecV { name: "tx-hash"@, cardinality: Cardinality::RequiredValue, default: DefaultKindV::NoDefault },
    ]
}

/// Constraints these arguments declare.
pub open spec fn query_result_constraints() -> Seq<ConstraintV> {
    Seq::<ConstraintV>::empty()
}

/// Which of these arguments fails first, if any.
pub open spec fn query_result_res(m: MatchesV) -> Result<(), ArgFail> {
    match query_res(m) {
        Result::Err(e) => Result::Err(e),
        Result::Ok(u) => {
        match r_req_str(m, "tx-hash"@) {
            Result::Err(e) => Result::Err(e),
            Result::Ok(u) => {
            Result::Ok(())
            },
        }
        },
    }
}

/// Whether parsed values hold exactly the resolved arguments.
pub open spec fn query_result_matches(x: QueryResult, m: MatchesV) -> bool {
    &&& query_matches(x.query, m)
    &&& r_req_str(m, "tx-hash"@) == Result::<Seq<char>, ArgFail>::Ok(x.tx_hash@)
}

impl QueryResult {
    /// Parses these arguments out of the matched input.
    pub fn parse(matches: &Matches) -> (r: Result<QueryResult, ArgError>)
        ensures
            (r is Ok) == (query_result_res(mview(*matches)) is Ok),
            r matches Result::Ok(x) ==> query_result_matches(x, mview(*matches)),
            r matches Result::Err(e) ==> query_result_res(mview(*matches)) == Result::<
                (),
                ArgFail,
            >::Err(aeview(e)),
    {
        let query = match Query::parse(matches) { Result::Ok(v) => v, Result::Err(e) => { return Result::Err(e); } };
        let tx_hash = match arg_req_string(matches, "tx-hash") { Result::Ok(v) => v, Result::Err(e) => { return Result::Err(e); } };
        Result::Ok(QueryResult { query, tx_hash })
    }

    /// Adds these argument and constraint definitions.
    pub fn def(app: CmdDef) -> (r: CmdDef)
        ensures
            cview(r) == (CmdDefV {
                args: cview(app).args + query_result_args(),
                constraints: cview(app).constraints + query_result_constraints(),
                ..cview(app)
            }),
    {
        let ghost appv = cview(app);
        let r = Query::def(app).arg(req_arg("tx-hash", "The hash of the transaction being looked up."));
        proof {
            assert(cview(r).args =~= appv.args + query_result_args());
            assert(cview(r).constraints =~= appv.constraints + query_result_constraints());
        }
        r
    }
}

/// Custom transaction arguments.
pub struct TxCustom {
    /// Common transaction arguments.
    pub tx: Tx,
    pub code_path: String,
    pub data_path: Option<String>,
}

/// Descriptors of these arguments, in definition order.
pub open spec fn tx_custom_args() -> Seq<ArgSpecV> {
    tx_args() + seq![
        ArgSpecV { name: "code-path"@, cardinality: Cardinality::RequiredValue, default: DefaultKindV::NoDefault },
        ArgSpecV { name: "data-path"@, cardinality: Cardinality::OptionalValue, default: DefaultKindV::NoDefault },
    ]
}

/// Constraints these arguments declare.
pub open spec fn tx_custom_constraints() -> Seq<ConstraintV> {
    tx_constraints()
}

/// Which of these arguments fails first, if any.
pub open spec fn tx_custom_res(m: MatchesV) -> Result<(), ArgFail> {
    match tx_res(m) {
        Result::Err(e) => Result::Err(e),
        Result::Ok(u) => {
        match r_req_str(m, "code-path"@) {
            Result::Err(e) => Result::Err(e),
            Result::Ok(u) => {
            Result::Ok(())
            },
        }
        },
    }
}

/// Whether parsed values hold exactly the resolved arguments.
pub open spec fn tx_custom_matches(x: TxCustom, m: MatchesV) -> bool {
    &&& tx_matches(x.tx, m)
    &&& r_req_str(m, "code-path"@) == Result::<Seq<char>, ArgFail>::Ok(x.code_path@)
    &&& opt_string_is(x.data_path, opt_of(m, "data-path"@))
}

impl TxCustom {
    /// Parses these arguments out of the matched input.
    pub fn parse(matches: &Matches) -> (r: Result<TxCustom, ArgError>)
        ensures
            (r is Ok) == (tx_custom_res(mview(*matches)) is Ok),
            r matches Result::Ok(x) ==> tx_custom_matches(x, mview(*matches)),
            r matches Result::Err(e) ==> tx_custom_res(mview(*matches)) == Result::<
                (),
                ArgFail,
            >::Err(aeview(e)),
    {
        let tx = match Tx::parse(matches) { Result::Ok(v) => v, Result::Err(e) => { return Result::Err(e); } };
        let code_path = match arg_req_string(matches, "code-path") { Result::Ok(v) => v, Result::Err(e) => { return Result::Err(e); } };
        let data_path = arg_opt_string(matches, "data-path");
        Result::Ok(TxCustom { tx, code_path, data_path })
    }

    /// Adds these argument and constraint definitions.
    pub fn def(app: CmdDef) -> (r: CmdDef)
        ensures
            cview(r) == (CmdDefV {
                args: cview(app).args + tx_custom_args(),
                constraints: cview(app).constraints + tx_custom_constraints(),
                ..cview(app)
            }),
    {
        let ghost appv = cview(app);
        let r = Tx::def(app).arg(req_arg("code-path", "The path to the transaction's WASM code.")).arg(opt_arg("data-path", "The data file at this path, passed to the transaction code when it runs."));
        proof {
            assert(cview(r).args =~= appv.args + tx_custom_args());
            assert(cview(r).constraints =~= appv.constraints + tx_custom_constraints());
        }
        r
    }
}

/// Transfer transaction arguments.
pub struct TxTransfer {
    /// Common transaction arguments.
    pub tx: Tx,
    pub source: WalletAddress,
    pub target: WalletAddress,
    pub token: WalletAddress,
    pub sub_prefix: Option<String>,
    pub amount: Amount,
}

/// Descriptors of these arguments, in definition order.
pub open spec fn tx_transfer_args() -> Seq<ArgSpecV> {
    tx_args() + seq![
        ArgSpecV { name: "source"@, cardinality: Cardinality::RequiredValue, default: DefaultKindV::NoDefault },
        ArgSpecV { name: "target"@, cardinality: Cardinality::RequiredValue, default: DefaultKindV::NoDefault },
        ArgSpecV { name: "token"@, cardinality: Cardinality::RequiredValue, default: DefaultKindV::NoDefault },
        ArgSpecV { name: "sub-prefix"@, cardinality: Cardinality::OptionalValue, default: DefaultKindV::NoDefault },
        ArgSpecV { name: "amount"@, cardinality: Cardinality::RequiredValue, default: DefaultKindV::NoDefault },
    ]
}

/// Constraints these arguments declare.
pub open spec fn tx_transfer_constraints() -> Seq<ConstraintV> {
    tx_constraints()
}

/// Which of these arguments fails first, if any.
pub open spec fn tx_transfer_res(m: MatchesV) -> Result<(), ArgFail> {
    match tx_res(m) {
        Result::Err(e) => Result::Err(e),
        Result::Ok(u) => {
        match r_req_str(m, "source"@) {
            Result::Err(e) => Result::Err(e),
            Result::Ok(u) => {
            match r_req_str(m, "target"@) {
                Result::Err(e) => Result::Err(e),
                Result::Ok(u) => {
                match r_req_str(m, "token"@) {
                    Result::Err(e) => Result::Err(e),
                    Result::Ok(u) => {
                    match r_req_amount(m, "amount"@) {
                        Result::Err(e) => Result::Err(e),
                        Result::Ok(u) => {
                        Result::Ok(())
                        },
                    }
                    },
                }
                },
            }
            },
        }
        },
    }
}

/// Whether parsed values hold exactly the resolved arguments.
pub open spec fn tx_transfer_matches(x: TxTransfer, m: MatchesV) -> bool {
    &&& tx_matches(x.tx, m)
    &&& r_req_str(m, "source"@) == Result::<Seq<char>, ArgFail>::Ok(x.source.raw@)
    &&& r_req_str(m, "target"@) == Result::<Seq<char>, ArgFail>::Ok(x.target.raw@)
    &&& r_req_str(m, "token"@) == Result::<Seq<char>, ArgFail>::Ok(x.token.raw@)
    &&& opt_string_is(x.sub_prefix, opt_of(m, "sub-prefix"@))
    &&& r_req_amount(m, "amount"@) == Result::<u64, ArgFail>::Ok(x.amount.micro)
}

impl TxTransfer {
    /// Parses these arguments out of the matched input.
    pub fn parse(matches: &Matches) -> (r: Result<TxTransfer, ArgError>)
        ensures
            (r is Ok) == (tx_transfer_res(mview(*matches)) is Ok),
            r matches Result::Ok(x) ==> tx_transfer_matches(x, mview(*matches)),
            r matches Result::Err(e) ==> tx_transfer_res(mview(*matches)) == Result::<
                (),
                ArgFail,
            >::Err(aeview(e)),
    {
        let tx = match Tx::parse(matches) { Result::Ok(v) => v, Result::Err(e) => { return Result::Err(e); } };
        let source = match arg_req_wallet_address(matches, "source") { Result::Ok(v) => v, Result::Err(e) => { return Result::Err(e); } };
        let target = match arg_req_wallet_address(matches, "target") { Result::Ok(v) => v, Result::Err(e) => { return Result::Err(e); } };
        let token = match arg_req_wallet_address(matches, "token") { Result::Ok(v) => v, Result::Err(e) => { return Result::Err(e); } };
        let sub_prefix = arg_opt_string(matches, "sub-prefix");
        let amount = match arg_req_amount(matches, "amount") { Result::Ok(v) => v, Result::Err(e) => { return Result::Err(e); } };
        Result::Ok(TxTransfer { tx, source, target, token, sub_prefix, amount })
    }

    /// Adds these argument and constraint definitions.
    pub fn def(app: CmdDef) -> (r: CmdDef)
        ensures
            cview(r) == (CmdDefV {
                args: cview(app).args + tx_transfer_args(),
                constraints: cview(app).constraints + tx_transfer_constraints(),
                ..cview(app)
            }),
    {
        let ghost appv = cview(app);
        let r = Tx::def(app).arg(req_arg("source", "The source account address. The source's key signs the transaction.")).arg(req_arg("target", "The target account address.")).arg(req_arg("token", "The transfer token.")).arg(opt_arg("sub-prefix", "The token's sub prefix.")).arg(req_arg("amount", "The amount to transfer, in decimal."));
        proof {
            assert(cview(r).args =~= appv.args + tx_transfer_args());
            assert(cview(r).constraints =~= appv.constraints + tx_transfer_constraints());
        }
        r
    }
}

/// Arguments of the transaction initializing a new account.
pub struct TxInitAccount {
    /// Common transaction arguments.
    pub tx: Tx,
    pub source: WalletAddress,
    pub vp_code_path: Option<String>,
    pub public_key: WalletPublicKey,
}

/// Descriptors of these arguments, in definition order.
pub open spec fn tx_init_account_args() -> Seq<ArgSpecV> {
    tx_args() + seq![
        ArgSpecV { name: "source"@, cardinality: Cardinality::RequiredValue, default: DefaultKindV::NoDefault },
        ArgSpecV { name: "code-path"@, cardinality: Cardinality::OptionalValue, default: DefaultKindV::NoDefault },
        ArgSpecV { name: "public-key"@, cardinality: Cardinality::RequiredValue, default: DefaultKindV::NoDefault },
    ]
}

/// Constraints these arguments declare.
pub open spec fn tx_init_account_constraints() -> Seq<ConstraintV> {
    tx_constraints()
}

/// Which of these arguments fails first, if any.
pub open spec fn tx_init_account_res(m: MatchesV) -> Result<(), ArgFail> {
    match tx_res(m) {
        Result::Err(e) => Result::Err(e),
        Result::Ok(u) => {
        match r_req_str(m, "source"@) {
            Result::Err(e) => Result::Err(e),
            Result::Ok(u) => {
            match r_req_str(m, "public-key"@) {
                Result::Err(e) => Result::Err(e),
                Result::Ok(u) => {
                Result::Ok(())
                },
            }
            },
        }
        },
    }
}

/// Whether parsed values hold exactly the resolved arguments.
pub open spec fn tx_init_account_matches(x: TxInitAccount, m: MatchesV) -> bool {
    &&& tx_matches(x.tx, m)
    &&& r_req_str(m, "source"@) == Result::<Seq<char>, ArgFail>::Ok(x.source.raw@)
    &&& opt_string_is(x.vp_code_path, opt_of(m, "code-path"@))
    &&& r_req_str(m, "public-key"@) == Result::<Seq<char>, ArgFail>::Ok(x.public_key.raw@)
}

impl TxInitAccount {
    /// Parses these arguments out of the matched input.
    pub fn parse(matches: &Matches) -> (r: Result<TxInitAccount, ArgError>)
        ensures
            (r is Ok) == (tx_init_account_res(mview(*matches)) is Ok),
            r matches Result::Ok(x) ==> tx_init_account_matches(x, mview(*matches)),
            r matches Result::Err(e) ==> tx_init_account_res(mview(*matches)) == Result::<
                (),
                ArgFail,
            >::Err(aeview(e)),
    {
        let tx = match Tx::parse(matches) { Result::Ok(v) => v, Result::Err(e) => { return Result::Err(e); } };
        let source = match arg_req_wallet_address(matches, "source") { Result::Ok(v) => v, Result::Err(e) => { return Result::Err(e); } };
        let vp_code_path = arg_opt_string(matches, "code-path");
        let public_key = match arg_req_wallet_public_key(matches, "public-key") { Result::Ok(v) => v, Result::Err(e) => { return Result::Err(e); } };
        Result::Ok(TxInitAccount { tx, source, vp_code_path, public_key })
    }

    /// Adds these argument and constraint definitions.
    pub fn def(app: CmdDef) -> (r: CmdDef)
        ensures
            cview(r) == (CmdDefV {
                args: cview(app).args + tx_init_account_args(),
                constraints: cview(app).constraints + tx_init_account_constraints(),
                ..cview(app)
            }),
    {
        let ghost appv = cview(app);
        let r = Tx::def(app).arg(req_arg("source", "The source account's address that signs the transaction.")).arg(opt_arg("code-path", "The path to the validity predicate WASM code of the new account; the default user predicate stands in when none is given.")).arg(req_arg("public-key", "A public key for the new account, in hexadecimal encoding."));
        proof {
            assert(cview(r).args =~= appv.args + tx_init_account_args());
            assert(cview(r).constraints =~= appv.constraints + tx_init_account_constraints());
        }
        r
    }
}

/// Arguments of the transaction initializing a new validator account.
pub struct TxInitValidator {
    /// Common transaction arguments.
    pub tx: Tx,
    pub source: WalletAddress,
    pub scheme: SchemeType,
    pub account_key: Option<WalletPublicKey>,
    pub consensus_key: Option<WalletKeypair>,
    pub protocol_key: Option<WalletPublicKey>,
    pub commission_rate: rust_decimal::Decimal,
    pub max_commission_rate_change: rust_decimal::Decimal,
    pub validator_vp_code_path: Option<String>,
    pub unsafe_dont_encrypt: bool,
}

/// Descriptors of these arguments, in definition order.
pub open spec fn tx_init_validator_args() -> Seq<ArgSpecV> {
    tx_args() + seq![
        ArgSpecV { name: "source"@, cardinality: Cardinality::RequiredValue, default: DefaultKindV::NoDefault },
        ArgSpecV { name: "scheme"@, cardinality: Cardinality::OptionalValue, default: DefaultKindV::Static("ed25519"@) },
        ArgSpecV { name: "account-key"@, cardinality: Cardinality::OptionalValue, default: DefaultKindV::NoDefault },
        ArgSpecV { name: "consensus-key"@, cardinality: Cardinality::OptionalValue, default: DefaultKindV::NoDefault },
        ArgSpecV { name: "protocol-key"@, cardinality: Cardinality::OptionalValue, default: DefaultKindV::NoDefault },
        ArgSpecV { name: "commission-rate"@, cardinality: Cardinality::RequiredValue, default: DefaultKindV::NoDefault },
        ArgSpecV { name: "max-commission-rate-change"@, cardinality: Cardinality::RequiredValue, default: DefaultKindV::NoDefault },
        ArgSpecV { name: "validator-code-path"@, cardinality: Cardinality::OptionalValue, default: DefaultKindV::NoDefault },
        ArgSpecV { name: "unsafe-dont-encrypt"@, cardinality: Cardinality::BoolFlag, default: DefaultKindV::NoDefault },
    ]
}

/// Constraints these arguments declare.
pub open spec fn tx_init_validator_constraints() -> Seq<ConstraintV> {
    tx_constraints()
}

/// Which of these arguments fails first, if any.
pub open spec fn tx_init_validator_res(m: MatchesV) -> Result<(), ArgFail> {
    match tx_res(m) {
        Result::Err(e) => Result::Err(e),
        Result::Ok(u) => {
        match r_req_str(m, "source"@) {
            Result::Err(e) => Result::Err(e),
            Result::Ok(u) => {
            match r_def_scheme(m, "scheme"@, SchemeType::Ed25519) {
                Result::Err(e) => Result::Err(e),
                Result::Ok(u) => {
                match r_req_decimal(m, "commission-rate"@) {
                    Result::Err(e) => Result::Err(e),
                    Result::Ok(u) => {
                    match r_req_decimal(m, "max-commission-rate-change"@) {
                        Result::Err(e) => Result::Err(e),
                        Result::Ok(u) => {
                        Result::Ok(())
                        },
                    }
                    },
                }
                },
            }
            },
        }
        },
    }
}

/// Whether parsed values hold exactly the resolved arguments.
pub open spec fn tx_init_validator_matches(x: TxInitValidator, m: MatchesV) -> bool {
    &&& tx_matches(x.tx, m)
    &&& r_req_str(m, "source"@) == Result::<Seq<char>, ArgFail>::Ok(x.source.raw@)
    &&& r_def_scheme(m, "scheme"@, SchemeType::Ed25519) == Result::<SchemeType, ArgFail>::Ok(x.scheme)
    &&& opt_wpk_is(x.account_key, opt_of(m, "account-key"@))
    &&& opt_wkeyp_is(x.consensus_key, opt_of(m, "consensus-key"@))
    &&& opt_wpk_is(x.protocol_key, opt_of(m, "protocol-key"@))
    &&& r_req_decimal(m, "commission-rate"@) == Result::<rust_decimal::Decimal, ArgFail>::Ok(x.commission_rate)
    &&& r_req_decimal(m, "max-commission-rate-change"@) == Result::<rust_decimal::Decimal, ArgFail>::Ok(x.max_commission_rate_change)
    &&& opt_string_is(x.validator_vp_code_path, opt_of(m, "validator-code-path"@))
    &&& x.unsafe_dont_encrypt == flag_of(m, "unsafe-dont-encrypt"@)
}

impl TxInitValidator {
    /// Parses these arguments out of the matched input.
    pub fn parse(matches: &Matches) -> (r: Result<TxInitValidator, ArgError>)
        ensures
            (r is Ok) == (tx_init_validator_res(mview(*matches)) is Ok),
            r matches Result::Ok(x) ==> tx_init_validator_matches(x, mview(*matches)),
            r matches Result::Err(e) ==> tx_init_validator_res(mview(*matches)) == Result::<
                (),
                ArgFail,
            >::Err(aeview(e)),
    {
        let tx = match Tx::parse(matches) { Result::Ok(v) => v, Result::Err(e) => { return Result::Err(e); } };
        let source = match arg_req_wallet_address(matches, "source") { Result::Ok(v) => v, Result::Err(e) => { return Result::Err(e); } };
        let scheme = match arg_def_scheme(matches, "scheme", SchemeType::Ed25519) { Result::Ok(v) => v, Result::Err(e) => { return Result::Err(e); } };
        let account_key = arg_opt_wallet_public_key(matches, "account-key");
        let consensus_key = arg_opt_wallet_keypair(matches, "consensus-key");
        let protocol_key = arg_opt_wallet_public_key(matches, "protocol-key");
        let commission_rate = match arg_req_decimal(matches, "commission-rate") { Result::Ok(v) => v, Result::Err(e) => { return Result::Err(e); } };
        let max_commission_rate_change = match arg_req_decimal(matches, "max-commission-rate-change") { Result::Ok(v) => v, Result::Err(e) => { return Result::Err(e); } };
        let validator_vp_code_path = arg_opt_string(matches, "validator-code-path");
        let unsafe_dont_encrypt = arg_flag(matches, "unsafe-dont-encrypt");
        Result::Ok(TxInitValidator { tx, source, scheme, account_key, consensus_key, protocol_key, commission_rate, max_commission_rate_change, validator_vp_code_path, unsafe_dont_encrypt })
    }

    /// Adds these argument and constraint definitions.
    pub fn def(app: CmdDef) -> (r: CmdDef)
        ensures
            cview(r) == (CmdDefV {
                args: cview(app).args + tx_init_validator_args(),
                constraints: cview(app).constraints + tx_init_validator_constraints(),
                ..cview(app)
            }),
    {
        let ghost appv = cview(app);
        let r = Tx::def(app).arg(req_arg("source", "The source account's address that signs the transaction.")).arg(def_arg("scheme", "The key scheme for the validator keys: ed25519 or secp256k1.", "ed25519")).arg(opt_arg("account-key", "A public key for the validator account; a new one is generated when none is given.")).arg(opt_arg("consensus-key", "A consensus key for the validator account; a new one is generated when none is given.")).arg(opt_arg("protocol-key", "A public key for signing protocol transactions; a new one is generated when none is given.")).arg(req_arg("commission-rate", "The commission rate charged by the validator for delegation rewards.")).arg(req_arg("max-commission-rate-change", "The largest change per epoch in the commission rate.")).arg(opt_arg("validator-code-path", "The path to the validity predicate WASM code of the validator account.")).arg(flag_arg("unsafe-dont-encrypt", "UNSAFE: do not encrypt the generated keypairs."));
        proof {
            assert(cview(r).args =~= appv.args + tx_init_validator_args());
            assert(cview(r).constraints =~= appv.constraints + tx_init_validator_constraints());
        }
        r
    }
}

/// Arguments of the transaction updating an account's validity predicate.
pub struct TxUpdateVp {
    /// Common transaction arguments.
    pub tx: Tx,
    pub vp_code_path: String,
    pub addr: WalletAddress,
}

/// Descriptors of these arguments, in definition order.
pub open spec fn tx_update_vp_args() -> Seq<ArgSpecV> {
    tx_args() + seq![
        ArgSpecV { name: "code-path"@, cardinality: Cardinality::RequiredValue, default: DefaultKindV::NoDefault },
        ArgSpecV { name: "address"@, cardinality: Cardinality::RequiredValue, default: DefaultKindV::NoDefault },
    ]
}

/// Constraints these arguments declare.
pub open spec fn tx_update_vp_constraints() -> Seq<ConstraintV> {
    tx_constraints()
}

/// Which of these arguments fails first, if any.
pub open spec fn tx_update_vp_res(m: MatchesV) -> Result<(), ArgFail> {
    match tx_res(m) {
        Result::Err(e) => Result::Err(e),
        Result::Ok(u) => {
        match r_req_str(m, "code-path"@) {
            Result::Err(e) => Result::Err(e),
            Result::Ok(u) => {
            match r_req_str(m, "address"@) {
                Result::Err(e) => Result::Err(e),
                Result::Ok(u) => {
                Result::Ok(())
                },
            }
            },
        }
        },
    }
}

/// Whether parsed values hold exactly the resolved arguments.
pub open spec fn tx_update_vp_matches(x: TxUpdateVp, m: MatchesV) -> bool {
    &&& tx_matches(x.tx, m)
    &&& r_req_str(m, "code-path"@) == Result::<Seq<char>, ArgFail>::Ok(x.vp_code_path@)
    &&& r_req_str(m, "address"@) == Result::<Seq<char>, ArgFail>::Ok(x.addr.raw@)
}

impl TxUpdateVp {
    /// Parses these arguments out of the matched input.
    pub fn parse(matches: &Matches) -> (r: Result<TxUpdateVp, ArgError>)
        ensures
            (r is Ok) == (tx_update_vp_res(mview(*matches)) is Ok),
            r matches Result::Ok(x) ==> tx_update_vp_matches(x, mview(*matches)),
            r matches Result::Err(e) ==> tx_update_vp_res(mview(*matches)) == Result::<
                (),
                ArgFail,
            >::Err(aeview(e)),
    {
        let tx = match Tx::parse(matches) { Result::Ok(v) => v, Result::Err(e) => { return Result::Err(e); } };
        let vp_code_path = match arg_req_string(matches, "code-path") { Result::Ok(v) => v, Result::Err(e) => { return Result::Err(e); } };
        let addr = match arg_req_wallet_address(matches, "address") { Result::Ok(v) => v, Result::Err(e) => { return Result::Err(e); } };
        Result::Ok(TxUpdateVp { tx, vp_code_path, addr })
    }

    /// Adds these argument and constraint definitions.
    pub fn def(app: CmdDef) -> (r: CmdDef)
        ensures
            cview(r) == (CmdDefV {
                args: cview(app).args + tx_update_vp_args(),
                constraints: cview(app).constraints + tx_update_vp_constraints(),
                ..cview(app)
            }),
    {
        let ghost appv = cview(app);
        let r = Tx::def(app).arg(req_arg("code-path", "The path to the new validity predicate WASM code.")).arg(req_arg("address", "The account's address; its key signs the transaction."));
        proof {
            assert(cview(r).args =~= appv.args + tx_update_vp_args());
            assert(cview(r).constraints =~= appv.constraints + tx_update_vp_constraints());
        }
        r
    }
}

/// Bond arguments.
pub struct Bond {
    /// Common transaction arguments.
    pub tx: Tx,
    pub validator: WalletAddress,
    pub amount: Amount,
    pub source: Option<WalletAddress>,
}

/// Descriptors of these arguments, in definition order.
pub open spec fn bond_args() -> Seq<ArgSpecV> {
    tx_args() + seq![
        ArgSpecV { name: "validator"@, cardinality: Cardinality::RequiredValue, default: DefaultKindV::NoDefault },
        ArgSpecV { name: "amount"@, cardinality: Cardinality::RequiredValue, default: DefaultKindV::NoDefault },
        ArgSpecV { name: "source"@, cardinality: Cardinality::OptionalValue, default: DefaultKindV::NoDefault },
    ]
}

/// Constraints these arguments declare.
pub open spec fn bond_constraints() -> Seq<ConstraintV> {
    tx_constraints()
}

/// Which of these arguments fails first, if any.
pub open spec fn bond_res(m: MatchesV) -> Result<(), ArgFail> {
    match tx_res(m) {
        Result::Err(e) => Result::Err(e),
        Result::Ok(u) => {
        match r_req_str(m, "validator"@) {
            Result::Err(e) => Result::Err(e),
            Result::Ok(u) => {
            match r_req_amount(m, "amount"@) {
                Result::Err(e) => Result::Err(e),
                Result::Ok(u) => {
                Result::Ok(())
                },
            }
            },
        }
        },
    }
}

/// Whether parsed values hold exactly the resolved arguments.
pub open spec fn bond_matches(x: Bond, m: MatchesV) -> bool {
    &&& tx_matches(x.tx, m)
    &&& r_req_str(m, "validator"@) == Result::<Seq<char>, ArgFail>::Ok(x.validator.raw@)
    &&& r_req_amount(m, "amount"@) == Result::<u64, ArgFail>::Ok(x.amount.micro)
    &&& opt_waddr_is(x.source, opt_of(m, "source"@))
}

impl Bond {
    /// Parses these arguments out of the matched input.
    pub fn parse(matches: &Matches) -> (r: Result<Bond, ArgError>)
        ensures
            (r is Ok) == (bond_res(mview(*matches)) is Ok),
            r matches Result::Ok(x) ==> bond_matches(x, mview(*matches)),
            r matches Result::Err(e) ==> bond_res(mview(*matches)) == Result::<
                (),
                ArgFail,
            >::Err(aeview(e)),
    {
        let tx = match Tx::parse(matches) { Result::Ok(v) => v, Result::Err(e) => { return Result::Err(e); } };
        let validator = match arg_req_wallet_address(matches, "validator") { Result::Ok(v) => v, Result::Err(e) => { return Result::Err(e); } };
        let amount = match arg_req_amount(matches, "amount") { Result::Ok(v) => v, Result::Err(e) => { return Result::Err(e); } };
        let source = arg_opt_wallet_address(matches, "source");
        Result::Ok(Bond { tx, validator, amount, source })
    }

    /// Adds these argument and constraint definitions.
    pub fn def(app: CmdDef) -> (r: CmdDef)
        ensures
            cview(r) == (CmdDefV {
                args: cview(app).args + bond_args(),
                constraints: cview(app).constraints + bond_constraints(),
                ..cview(app)
            }),
    {
        let ghost appv = cview(app);
        let r = Tx::def(app).arg(req_arg("validator", "Validator address.")).arg(req_arg("amount", "Amount of tokens to stake in a bond.")).arg(opt_arg("source", "Source address for delegations. For self-bonds, the validator is also the source."));
        proof {
            assert(cview(r).args =~= appv.args + bond_args());
            assert(cview(r).constraints =~= appv.constraints + bond_constraints());
        }
        r
    }
}

/// Unbond arguments.
pub struct Unbond {
    /// Common transaction arguments.
    pub tx: Tx,
    pub validator: WalletAddress,
    pub amount: Amount,
    pub source: Option<WalletAddress>,
}

/// Descriptors of these arguments, in definition order.
pub open spec fn unbond_args() -> Seq<ArgSpecV> {
    tx_args() + seq![
        ArgSpecV { name: "validator"@, cardinality: Cardinality::RequiredValue, default: DefaultKindV::NoDefault },
        ArgSpecV { name: "amount"@, cardinality: Cardinality::RequiredValue, default: DefaultKindV::NoDefault },
        ArgSpecV { name: "source"@, cardinality: Cardinality::OptionalValue, default: DefaultKindV::NoDefault },
    ]
}

/// Constraints these arguments declare.
pub open spec fn unbond_constraints() -> Seq<ConstraintV> {
    tx_constraints()
}

/// Which of these arguments fails first, if any.
pub open spec fn unbond_res(m: MatchesV) -> Result<(), ArgFail> {
    match tx_res(m) {
        Result::Err(e) => Result::Err(e),
        Result::Ok(u) => {
        match r_req_str(m, "validator"@) {
            Result::Err(e) => Result::Err(e),
            Result::Ok(u) => {
            match r_req_amount(m, "amount"@) {
                Result::Err(e) => Result::Err(e),
                Result::Ok(u) => {
                Result::Ok(())
                },
            }
            },
        }
        },
    }
}

/// Whether parsed values hold exactly the resolved arguments.
pub open spec fn unbond_matches(x: Unbond, m: MatchesV) -> bool {
    &&& tx_matches(x.tx, m)
    &&& r_req_str(m, "validator"@) == Result::<Seq<char>, ArgFail>::Ok(x.validator.raw@)
    &&& r_req_amount(m, "amount"@) == Result::<u64, ArgFail>::Ok(x.amount.micro)
    &&& opt_waddr_is(x.source, opt_of(m, "source"@))
}

impl Unbond {
    /// Parses these arguments out of the matched input.
    pub fn parse(matches: &Matches) -> (r: Result<Unbond, ArgError>)
        ensures
            (r is Ok) == (unbond_res(mview(*matches)) is Ok),
            r matches Result::Ok(x) ==> unbond_matches(x, mview(*matches)),
            r matches Result::Err(e) ==> unbond_res(mview(*matches)) == Result::<
                (),
                ArgFail,
            >::Err(aeview(e)),
    {
        let tx = match Tx::parse(matches) { Result::Ok(v) => v, Result::Err(e) => { return Result::Err(e); } };
        let validator = match arg_req_wallet_address(matches, "validator") { Result::Ok(v) => v, Result::Err(e) => { return Result::Err(e); } };
        let amount = match arg_req_amount(matches, "amount") { Result::Ok(v) => v, Result::Err(e) => { return Result::Err(e); } };
        let source = arg_opt_wallet_address(matches, "source");
        Result::Ok(Unbond { tx, validator, amount, source })
    }

    /// Adds these argument and constraint definitions.
    pub fn def(app: CmdDef) -> (r: CmdDef)
        ensures
            cview(r) == (CmdDefV {
                args: cview(app).args + unbond_args(),
                constraints: cview(app).constraints + unbond_constraints(),
                ..cview(app)
            }),
    {
        let ghost appv = cview(app);
        let r = Tx::def(app).arg(req_arg("validator", "Validator address.")).arg(req_arg("amount", "Amount of tokens to unbond from a bond.")).arg(opt_arg("source", "Source address for unbonding from delegations. For self-bonds, the validator is also the source."));
        proof {
            assert(cview(r).args =~= appv.args + unbond_args());
            assert(cview(r).constraints =~= appv.constraints + unbond_constraints());
        }
        r
    }
}

/// Withdraw arguments.
pub struct Withdraw {
    /// Common transaction arguments.
    pub tx: Tx,
    pub validator: WalletAddress,
    pub source: Option<WalletAddress>,
}

/// Descriptors of these arguments, in definition order.
pub open spec fn withdraw_args() -> Seq<ArgSpecV> {
    tx_args() + seq![
        ArgSpecV { name: "validator"@, cardinality: Cardinality::RequiredValue, default: DefaultKindV::NoDefault },
        ArgSpecV { name: "source"@, cardinality: Cardinality::OptionalValue, default: DefaultKindV::NoDefault },
    ]
}

/// Constraints these arguments declare.
pub open spec fn withdraw_constraints() -> Seq<ConstraintV> {
    tx_constraints()
}

/// Which of these arguments fails first, if any.
pub open spec fn withdraw_res(m: MatchesV) -> Result<(), ArgFail> {
    match tx_res(m) {
        Result::Err(e) => Result::Err(e),
        Result::Ok(u) => {
        match r_req_str(m, "validator"@) {
            Result::Err(e) => Result::Err(e),
            Result::Ok(u) => {
            Result::Ok(())
            },
        }
        },
    }
}

/// Whether parsed values hold exactly the resolved arguments.
pub open spec fn withdraw_matches(x: Withdraw, m: MatchesV) -> bool {
    &&& tx_matches(x.tx, m)
    &&& r_req_str(m, "validator"@) == Result::<Seq<char>, ArgFail>::Ok(x.validator.raw@)
    &&& opt_waddr_is(x.source, opt_of(m, "source"@))
}

impl Withdraw {
    /// Parses these arguments out of the matched input.
    pub fn parse(matches: &Matches) -> (r: Result<Withdraw, ArgError>)
        ensures
            (r is Ok) == (withdraw_res(mview(*matches)) is Ok),
            r matches Result::Ok(x) ==> withdraw_matches(x, mview(*matches)),
            r matches Result::Err(e) ==> withdraw_res(mview(*matches)) == Result::<
                (),
                ArgFail,
            >::Err(aeview(e)),
    {
        let tx = match Tx::parse(matches) { Result::Ok(v) => v, Result::Err(e) => { return Result::Err(e); } };
        let validator = match arg_req_wallet_address(matches, "validator") { Result::Ok(v) => v, Result::Err(e) => { return Result::Err(e); } };
        let source = arg_opt_wallet_address(matches, "source");
        Result::Ok(Withdraw { tx, validator, source })
    }

    /// Adds these argument and constraint definitions.
    pub fn def(app: CmdDef) -> (r: CmdDef)
        ensures
            cview(r) == (CmdDefV {
                args: cview(app).args + withdraw_args(),
                constraints: cview(app).constraints + withdraw_constraints(),
                ..cview(app)
            }),
    {
        let ghost appv = cview(app);
        let r = Tx::def(app).arg(req_arg("validator", "Validator address.")).arg(opt_arg("source", "Source address for withdrawing from delegations. For self-bonds, the validator is also the source."));
        proof {
            assert(cview(r).args =~= appv.args + withdraw_args());
            assert(cview(r).constraints =~= appv.constraints + withdraw_constraints());
        }
        r
    }
}

/// Proposal-creation arguments.
pub struct InitProposal {
    /// Common transaction arguments.
    pub tx: Tx,
    pub proposal_data: String,
    pub offline: bool,
}

/// Descriptors of these arguments, in definition order.
pub open spec fn init_proposal_args() -> Seq<ArgSpecV> {
    tx_args() + seq![
        ArgSpecV { name: "data-path"@, cardinality: Cardinality::RequiredValue, default: DefaultKindV::NoDefault },
        ArgSpecV { name: "offline"@, cardinality: Cardinality::BoolFlag, default: DefaultKindV::NoDefault },
    ]
}

/// Constraints these arguments declare.
pub open spec fn init_proposal_constraints() -> Seq<ConstraintV> {
    tx_constraints()
}

/// Which of these arguments fails first, if any.
pub open spec fn init_proposal_res(m: MatchesV) -> Result<(), ArgFail> {
    match tx_res(m) {
        Result::Err(e) => Result::Err(e),
        Result::Ok(u) => {
        match r_req_str(m, "data-path"@) {
            Result::Err(e) => Result::Err(e),
            Result::Ok(u) => {
            Result::Ok(())
            },
        }
        },
    }
}

/// Whether parsed values hold exactly the resolved arguments.
pub open spec fn init_proposal_matches(x: InitProposal, m: MatchesV) -> bool {
    &&& tx_matches(x.tx, m)
    &&& r_req_str(m, "data-path"@) == Result::<Seq<char>, ArgFail>::Ok(x.proposal_data@)
    &&& x.offline == flag_of(m, "offline"@)
}

impl InitProposal {
    /// Parses these arguments out of the matched input.
    pub fn parse(matches: &Matches) -> (r: Result<InitProposal, ArgError>)
        ensures
            (r is Ok) == (init_proposal_res(mview(*matches)) is Ok),
            r matches Result::Ok(x) ==> init_proposal_matches(x, mview(*matches)),
            r matches Result::Err(e) ==> init_proposal_res(mview(*matches)) == Result::<
                (),
                ArgFail,
            >::Err(aeview(e)),
    {
        let tx = match Tx::parse(matches) { Result::Ok(v) => v, Result::Err(e) => { return Result::Err(e); } };
        let proposal_data = match arg_req_string(matches, "data-path") { Result::Ok(v) => v, Result::Err(e) => { return Result::Err(e); } };
        let offline = arg_flag(matches, "offline");
        Result::Ok(InitProposal { tx, proposal_data, offline })
    }

    /// Adds these argument and constraint definitions.
    pub fn def(app: CmdDef) -> (r: CmdDef)
        ensures
            cview(r) == (CmdDefV {
                args: cview(app).args + init_proposal_args(),
                constraints: cview(app).constraints + init_proposal_constraints(),
                ..cview(app)
            }),
    {
        let ghost appv = cview(app);
        let r = Tx::def(app).arg(req_arg("data-path", "The file describing the proposal.")).arg(flag_arg("offline", "Run the proposal offline."));
        proof {
            assert(cview(r).args =~= appv.args + init_proposal_args());
            assert(cview(r).constraints =~= appv.constraints + init_proposal_constraints());
        }
        r
    }
}

/// Proposal-vote arguments.
pub struct VoteProposal {
    /// Common transaction arguments.
    pub tx: Tx,
    pub proposal_id: Option<u64>,
    pub vote: ProposalVote,
    pub offline: bool,
    pub proposal_data: Option<String>,
}

/// Descriptors of these arguments, in definition order.
pub open spec fn vote_proposal_args() -> Seq<ArgSpecV> {
    tx_args() + seq![
        ArgSpecV { name: "proposal-id"@, cardinality: Cardinality::OptionalValue, default: DefaultKindV::NoDefault },
        ArgSpecV { name: "vote"@, cardinality: Cardinality::RequiredValue, default: DefaultKindV::NoDefault },
        ArgSpecV { name: "offline"@, cardinality: Cardinality::BoolFlag, default: DefaultKindV::NoDefault },
        ArgSpecV { name: "data-path"@, cardinality: Cardinality::OptionalValue, default: DefaultKindV::NoDefault },
    ]
}

/// Constraints these arguments declare.
pub open spec fn vote_proposal_constraints() -> Seq<ConstraintV> {
    tx_constraints() + seq![
        ConstraintV::Conflicts("proposal-id"@, "offline"@),
        ConstraintV::Conflicts("proposal-id"@, "data-path"@),
    ]
}

/// Which of these arguments fails first, if any.
pub open spec fn vote_proposal_res(m: MatchesV) -> Result<(), ArgFail> {
    match tx_res(m) {
        Result::Err(e) => Result::Err(e),
        Result::Ok(u) => {
        match r_opt_u64(m, "proposal-id"@) {
            Result::Err(e) => Result::Err(e),
            Result::Ok(u) => {
            match r_req_vote(m, "vote"@) {
                Result::Err(e) => Result::Err(e),
                Result::Ok(u) => {
                Result::Ok(())
                },
            }
            },
        }
        },
    }
}

/// Whether parsed values hold exactly the resolved arguments.
pub open spec fn vote_proposal_matches(x: VoteProposal, m: MatchesV) -> bool {
    &&& tx_matches(x.tx, m)
    &&& r_opt_u64(m, "proposal-id"@) == Result::<Option<u64>, ArgFail>::Ok(x.proposal_id)
    &&& r_req_vote(m, "vote"@) == Result::<ProposalVote, ArgFail>::Ok(x.vote)
    &&& x.offline == flag_of(m, "offline"@)
    &&& opt_string_is(x.proposal_data, opt_of(m, "data-path"@))
}

impl VoteProposal {
    /// Parses these arguments out of the matched input.
    pub fn parse(matches: &Matches) -> (r: Result<VoteProposal, ArgError>)
        ensures
            (r is Ok) == (vote_proposal_res(mview(*matches)) is Ok),
            r matches Result::Ok(x) ==> vote_proposal_matches(x, mview(*matches)),
            r matches Result::Err(e) ==> vote_proposal_res(mview(*matches)) == Result::<
                (),
                ArgFail,
            >::Err(aeview(e)),
    {
        let tx = match Tx::parse(matches) { Result::Ok(v) => v, Result::Err(e) => { return Result::Err(e); } };
        let proposal_id = match arg_opt_u64(matches, "proposal-id") { Result::Ok(v) => v, Result::Err(e) => { return Result::Err(e); } };
        let vote = match arg_req_vote(matches, "vote") { Result::Ok(v) => v, Result::Err(e) => { return Result::Err(e); } };
        let offline = arg_flag(matches, "offline");
        let proposal_data = arg_opt_string(matches, "data-path");
        Result::Ok(VoteProposal { tx, proposal_id, vote, offline, proposal_data })
    }

    /// Adds these argument and constraint definitions.
    pub fn def(app: CmdDef) -> (r: CmdDef)
        ensures
            cview(r) == (CmdDefV {
                args: cview(app).args + vote_proposal_args(),
                constraints: cview(app).constraints + vote_proposal_constraints(),
                ..cview(app)
            }),
    {
        let ghost appv = cview(app);
        let r = Tx::def(app).arg(opt_arg("proposal-id", "The proposal identifier.")).arg(req_arg("vote", "The vote for the proposal: either yay or nay.")).arg(flag_arg("offline", "Run the proposal vote offline.")).arg(opt_arg("data-path", "The file describing the proposal.")).constraint(conflicts("proposal-id", "offline")).constraint(conflicts("proposal-id", "data-path"));
        proof {
            assert(cview(r).args =~= appv.args + vote_proposal_args());
            assert(cview(r).constraints =~= appv.constraints + vote_proposal_constraints());
        }
        r
    }
}

/// Proposal query arguments.
pub struct QueryProposal {
    /// Common query arguments.
    pub query: Query,
    pub proposal_id: Option<u64>,
}

/// Descriptors of these arguments, in definition order.
pub open spec fn query_proposal_args() -> Seq<ArgSpecV> {
    query_args() + seq![
        ArgSpecV { name: "proposal-id"@, cardinality: Cardinality::OptionalValue, default: DefaultKindV::NoDefault },
    ]
}

/// Constraints these arguments declare.
pub open spec fn query_proposal_constraints() -> Seq<ConstraintV> {
    Seq::<ConstraintV>::empty()
}

/// Which of these arguments fails first, if any.
pub open spec fn query_proposal_res(m: MatchesV) -> Result<(), ArgFail> {
    match query_res(m) {
        Result::Err(e) => Result::Err(e),
        Result::Ok(u) => {
        match r_opt_u64(m, "proposal-id"@) {
            Result::Err(e) => Result::Err(e),
            Result::Ok(u) => {
            Result::Ok(())
            },
        }
        },
    }
}

/// Whether parsed values hold exactly the resolved arguments.
pub open spec fn query_proposal_matches(x: QueryProposal, m: MatchesV) -> bool {
    &&& query_matches(x.query, m)
    &&& r_opt_u64(m, "proposal-id"@) == Result::<Option<u64>, ArgFail>::Ok(x.proposal_id)
}

impl QueryProposal {
    /// Parses these arguments out of the matched input.
    pub fn parse(matches: &Matches) -> (r: Result<QueryProposal, ArgError>)
        ensures
            (r is Ok) == (query_proposal_res(mview(*matches)) is Ok),
            r matches Result::Ok(x) ==> query_proposal_matches(x, mview(*matches)),
            r matches Result::Err(e) ==> query_proposal_res(mview(*matches)) == Result::<
                (),
                ArgFail,
            >::Err(aeview(e)),
    {
        let query = match Query::parse(matches) { Result::Ok(v) => v, Result::Err(e) => { return Result::Err(e); } };
        let proposal_id = match arg_opt_u64(matches, "proposal-id") { Result::Ok(v) => v, Result::Err(e) => { return Result::Err(e); } };
        Result::Ok(QueryProposal { query, proposal_id })
    }

    /// Adds these argument and constraint definitions.
    pub fn def(app: CmdDef) -> (r: CmdDef)
        ensures
            cview(r) == (CmdDefV {
                args: cview(app).args + query_proposal_args(),
                constraints: cview(app).constraints + query_proposal_constraints(),
                ..cview(app)
            }),
    {
        let ghost appv = cview(app);
        let r = Query::def(app).arg(opt_arg("proposal-id", "The proposal identifier."));
        proof {
            assert(cview(r).args =~= appv.args + query_proposal_args());
            assert(cview(r).constraints =~= appv.constraints + query_proposal_constraints());
        }
        r
    }
}

/// Proposal-result query arguments.
pub struct QueryProposalResult {
    /// Common query arguments.
    pub query: Query,
    pub proposal_id: Option<u64>,
    pub offline: bool,
    pub proposal_folder: Option<String>,
}

/// Descriptors of these arguments, in definition order.
pub open spec fn query_proposal_result_args() -> Seq<ArgSpecV> {
    query_args() + seq![
        ArgSpecV { name: "proposal-id"@, cardinality: Cardinality::OptionalValue, default: DefaultKindV::NoDefault },
        ArgSpecV { name: "offline"@, cardinality: Cardinality::BoolFlag, default: DefaultKindV::NoDefault },
        ArgSpecV { name: "data-path"@, cardinality: Cardinality::OptionalValue, default: DefaultKindV::NoDefault },
    ]
}

/// Constraints these arguments declare.
pub open spec fn query_proposal_result_constraints() -> Seq<ConstraintV> {
    seq![
        ConstraintV::Conflicts("offline"@, "proposal-id"@),
        ConstraintV::Conflicts("data-path"@, "proposal-id"@),
    ]
}

/// Which of these arguments fails first, if any.
pub open spec fn query_proposal_result_res(m: MatchesV) -> Result<(), ArgFail> {
    match query_res(m) {
        Result::Err(e) => Result::Err(e),
        Result::Ok(u) => {
        match r_opt_u64(m, "proposal-id"@) {
            Result::Err(e) => Result::Err(e),
            Result::Ok(u) => {
            Result::Ok(())
            },
        }
        },
    }
}

/// Whether parsed values hold exactly the resolved arguments.
pub open spec fn query_proposal_result_matches(x: QueryProposalResult, m: MatchesV) -> bool {
    &&& query_matches(x.query, m)
    &&& r_opt_u64(m, "proposal-id"@) == Result::<Option<u64>, ArgFail>::Ok(x.proposal_id)
    &&& x.offline == flag_of(m, "offline"@)
    &&& opt_string_is(x.proposal_folder, opt_of(m, "data-path"@))
}

impl QueryProposalResult {
    /// Parses these arguments out of the matched input.
    pub fn parse(matches: &Matches) -> (r: Result<QueryProposalResult, ArgError>)
        ensures
            (r is Ok) == (query_proposal_result_res(mview(*matches)) is Ok),
            r matches Result::Ok(x) ==> query_proposal_result_matches(x, mview(*matches)),
            r matches Result::Err(e) ==> query_proposal_result_res(mview(*matches)) == Result::<
                (),
                ArgFail,
            >::Err(aeview(e)),
    {
        let query = match Query::parse(matches) { Result::Ok(v) => v, Result::Err(e) => { return Result::Err(e); } };
        let proposal_id = match arg_opt_u64(matches, "proposal-id") { Result::Ok(v) => v, Result::Err(e) => { return Result::Err(e); } };
        let offline = arg_flag(matches, "offline");
        let proposal_folder = arg_opt_string(matches, "data-path");
        Result::Ok(QueryProposalResult { query, proposal_id, offline, proposal_folder })
    }

    /// Adds these argument and constraint definitions.
    pub fn def(app: CmdDef) -> (r: CmdDef)
        ensures
            cview(r) == (CmdDefV {
                args: cview(app).args + query_proposal_result_args(),
                constraints: cview(app).constraints + query_proposal_result_constraints(),
                ..cview(app)
            }),
    {
        let ghost appv = cview(app);
        let r = Query::def(app).arg(opt_arg("proposal-id", "The proposal identifier.")).arg(flag_arg("offline", "Compute the proposal result from offline data.")).arg(opt_arg("data-path", "The folder holding the proposal and its votes.")).constraint(conflicts("offline", "proposal-id")).constraint(conflicts("data-path", "proposal-id"));
        proof {
            assert(cview(r).args =~= appv.args + query_proposal_result_args());
            assert(cview(r).constraints =~= appv.constraints + query_proposal_result_constraints());
        }
        r
    }
}

/// Protocol-parameter query arguments.
pub struct QueryProtocolParameters {
    /// Common query arguments.
    pub query: Query,
}

/// Descriptors of these arguments, in definition order.
pub open spec fn query_protocol_parameters_args() -> Seq<ArgSpecV> {
    query_args()
}

/// Constraints these arguments declare.
pub open spec fn query_protocol_parameters_constraints() -> Seq<ConstraintV> {
    Seq::<ConstraintV>::empty()
}

/// Which of these arguments fails first, if any.
pub open spec fn query_protocol_parameters_res(m: MatchesV) -> Result<(), ArgFail> {
    match query_res(m) {
        Result::Err(e) => Result::Err(e),
        Result::Ok(u) => {
        Result::Ok(())
        },
    }
}

/// Whether parsed values hold exactly the resolved arguments.
pub open spec fn query_protocol_parameters_matches(x: QueryProtocolParameters, m: MatchesV) -> bool {
    query_matches(x.query, m)
}

impl QueryProtocolParameters {
    /// Parses these arguments out of the matched input.
    pub fn parse(matches: &Matches) -> (r: Result<QueryProtocolParameters, ArgError>)
        ensures
            (r is Ok) == (query_protocol_parameters_res(mview(*matches)) is Ok),
            r matches Result::Ok(x) ==> query_protocol_parameters_matches(x, mview(*matches)),
            r matches Result::Err(e) ==> query_protocol_parameters_res(mview(*matches)) == Result::<
                (),
                ArgFail,
            >::Err(aeview(e)),
    {
        let query = match Query::parse(matches) { Result::Ok(v) => v, Result::Err(e) => { return Result::Err(e); } };
        Result::Ok(QueryProtocolParameters { query })
    }

    /// Adds these argument and constraint definitions.
    pub fn def(app: CmdDef) -> (r: CmdDef)
        ensures
            cview(r) == (CmdDefV {
                args: cview(app).args + query_protocol_parameters_args(),
                constraints: cview(app).constraints + query_protocol_parameters_constraints(),
                ..cview(app)
            }),
    {
        let ghost appv = cview(app);
        let r = Query::def(app);
        proof {
            assert(cview(r).args =~= appv.args + query_protocol_parameters_args());
            assert(cview(r).constraints =~= appv.constraints + query_protocol_parameters_constraints());
        }
        r
    }
}

/// Token-balance query arguments.
pub struct QueryBalance {
    /// Common query arguments.
    pub query: Query,
    pub owner: Option<WalletAddress>,
    pub token: Option<WalletAddress>,
    pub sub_prefix: Option<String>,
}

/// Descriptors of these arguments, in definition order.
pub open spec fn query_balance_args() -> Seq<ArgSpecV> {
    query_args() + seq![
        ArgSpecV { name: "owner"@, cardinality: Cardinality::OptionalValue, default: DefaultKindV::NoDefault },
        ArgSpecV { name: "token"@, cardinality: Cardinality::OptionalValue, default: DefaultKindV::NoDefault },
        ArgSpecV { name: "sub-prefix"@, cardinality: Cardinality::OptionalValue, default: DefaultKindV::NoDefault },
    ]
}

/// Constraints these arguments declare.
pub open spec fn query_balance_constraints() -> Seq<ConstraintV> {
    Seq::<ConstraintV>::empty()
}

/// Which of these arguments fails first, if any.
pub open spec fn query_balance_res(m: MatchesV) -> Result<(), ArgFail> {
    match query_res(m) {
        Result::Err(e) => Result::Err(e),
        Result::Ok(u) => {
        Result::Ok(())
        },
    }
}

/// Whether parsed values hold exactly the resolved arguments.
pub open spec fn query_balance_matches(x: QueryBalance, m: MatchesV) -> bool {
    &&& query_matches(x.query, m)
    &&& opt_waddr_is(x.owner, opt_of(m, "owner"@))
    &&& opt_waddr_is(x.token, opt_of(m, "token"@))
    &&& opt_string_is(x.sub_prefix, opt_of(m, "sub-prefix"@))
}

impl QueryBalance {
    /// Parses these arguments out of the matched input.
    pub fn parse(matches: &Matches) -> (r: Result<QueryBalance, ArgError>)
        ensures
            (r is Ok) == (query_balance_res(mview(*matches)) is Ok),
            r matches Result::Ok(x) ==> query_balance_matches(x, mview(*matches)),
            r matches Result::Err(e) ==> query_balance_res(mview(*matches)) == Result::<
                (),
                ArgFail,
            >::Err(aeview(e)),
    {
        let query = match Query::parse(matches) { Result::Ok(v) => v, Result::Err(e) => { return Result::Err(e); } };
        let owner = arg_opt_wallet_address(matches, "owner");
        let token = arg_opt_wallet_address(matches, "token");
        let sub_prefix = arg_opt_string(matches, "sub-prefix");
        Result::Ok(QueryBalance { query, owner, token, sub_prefix })
    }

    /// Adds these argument and constraint definitions.
    pub fn def(app: CmdDef) -> (r: CmdDef)
        ensures
            cview(r) == (CmdDefV {
                args: cview(app).args + query_balance_args(),
                constraints: cview(app).constraints + query_balance_constraints(),
                ..cview(app)
            }),
    {
        let ghost appv = cview(app);
        let r = Query::def(app).arg(opt_arg("owner", "The account address whose balance to query.")).arg(opt_arg("token", "The token's address whose balance to query.")).arg(opt_arg("sub-prefix", "The token's sub prefix whose balance to query."));
        proof {
            assert(cview(r).args =~= appv.args + query_balance_args());
            assert(cview(r).constraints =~= appv.constraints + query_balance_constraints());
        }
        r
    }
}

/// Bond query arguments.
pub struct QueryBonds {
    /// Common query arguments.
    pub query: Query,
    pub owner: Option<WalletAddress>,
    pub validator: Option<WalletAddress>,
}

/// Descriptors of these arguments, in definition order.
pub open spec fn query_bonds_args() -> Seq<ArgSpecV> {
    query_args() + seq![
        ArgSpecV { name: "owner"@, cardinality: Cardinality::OptionalValue, default: DefaultKindV::NoDefault },
        ArgSpecV { name: "validator"@, cardinality: Cardinality::OptionalValue, default: DefaultKindV::NoDefault },
    ]
}

/// Constraints these arguments declare.
pub open spec fn query_bonds_constraints() -> Seq<ConstraintV> {
    Seq::<ConstraintV>::empty()
}

/// Which of these arguments fails first, if any.
pub open spec fn query_bonds_res(m: MatchesV) -> Result<(), ArgFail> {
    match query_res(m) {
        Result::Err(e) => Result::Err(e),
        Result::Ok(u) => {
        Result::Ok(())
        },
    }
}

/// Whether parsed values hold exactly the resolved arguments.
pub open spec fn query_bonds_matches(x: QueryBonds, m: MatchesV) -> bool {
    &&& query_matches(x.query, m)
    &&& opt_waddr_is(x.owner, opt_of(m, "owner"@))
    &&& opt_waddr_is(x.validator, opt_of(m, "validator"@))
}

impl QueryBonds {
    /// Parses these arguments out of the matched input.
    pub fn parse(matches: &Matches) -> (r: Result<QueryBonds, ArgError>)
        ensures
            (r is Ok) == (query_bonds_res(mview(*matches)) is Ok),
            r matches Result::Ok(x) ==> query_bonds_matches(x, mview(*matches)),
            r matches Result::Err(e) ==> query_bonds_res(mview(*matches)) == Result::<
                (),
                ArgFail,
            >::Err(aeview(e)),
    {
        let query = match Query::parse(matches) { Result::Ok(v) => v, Result::Err(e) => { return Result::Err(e); } };
        let owner = arg_opt_wallet_address(matches, "owner");
        let validator = arg_opt_wallet_address(matches, "validator");
        Result::Ok(QueryBonds { query, owner, validator })
    }

    /// Adds these argument and constraint definitions.
    pub fn def(app: CmdDef) -> (r: CmdDef)
        ensures
            cview(r) == (CmdDefV {
                args: cview(app).args + query_bonds_args(),
                constraints: cview(app).constraints + query_bonds_constraints(),
                ..cview(app)
            }),
    {
        let ghost appv = cview(app);
        let r = Query::def(app).arg(opt_arg("owner", "The owner account address whose bonds to query.")).arg(opt_arg("validator", "The validator's address whose bonds to query."));
        proof {
            assert(cview(r).args =~= appv.args + query_bonds_args());
            assert(cview(r).constraints =~= appv.constraints + query_bonds_constraints());
        }
        r
    }
}

/// Voting-power query arguments.
pub struct QueryVotingPower {
    /// Common query arguments.
    pub query: Query,
    pub validator: Option<WalletAddress>,
    pub epoch: Option<u64>,
}

/// Descriptors of these arguments, in definition order.
pub open spec fn query_voting_power_args() -> Seq<ArgSpecV> {
    query_args() + seq![
        ArgSpecV { name: "validator"@, cardinality: Cardinality::OptionalValue, default: DefaultKindV::NoDefault },
        ArgSpecV { name: "epoch"@, cardinality: Cardinality::OptionalValue, default: DefaultKindV::NoDefault },
    ]
}

/// Constraints these arguments declare.
pub open spec fn query_voting_power_constraints() -> Seq<ConstraintV> {
    Seq::<ConstraintV>::empty()
}

/// Which of these arguments fails first, if any.
pub open spec fn query_voting_power_res(m: MatchesV) -> Result<(), ArgFail> {
    match query_res(m) {
        Result::Err(e) => Result::Err(e),
        Result::Ok(u) => {
        match r_opt_u64(m, "epoch"@) {
            Result::Err(e) => Result::Err(e),
            Result::Ok(u) => {
            Result::Ok(())
            },
        }
        },
    }
}

/// Whether parsed values hold exactly the resolved arguments.
pub open spec fn query_voting_power_matches(x: QueryVotingPower, m: MatchesV) -> bool {
    &&& query_matches(x.query, m)
    &&& opt_waddr_is(x.validator, opt_of(m, "validator"@))
    &&& r_opt_u64(m, "epoch"@) == Result::<Option<u64>, ArgFail>::Ok(x.epoch)
}

impl QueryVotingPower {
    /// Parses these arguments out of the matched input.
    pub fn parse(matches: &Matches) -> (r: Result<QueryVotingPower, ArgError>)
        ensures
            (r is Ok) == (query_voting_power_res(mview(*matches)) is Ok),
            r matches Result::Ok(x) ==> query_voting_power_matches(x, mview(*matches)),
            r matches Result::Err(e) ==> query_voting_power_res(mview(*matches)) == Result::<
                (),
                ArgFail,
            >::Err(aeview(e)),
    {
        let query = match Query::parse(matches) { Result::Ok(v) => v, Result::Err(e) => { return Result::Err(e); } };
        let validator = arg_opt_wallet_address(matches, "validator");
        let epoch = match arg_opt_u64(matches, "epoch") { Result::Ok(v) => v, Result::Err(e) => { return Result::Err(e); } };
        Result::Ok(QueryVotingPower { query, validator, epoch })
    }

    /// Adds these argument and constraint definitions.
    pub fn def(app: CmdDef) -> (r: CmdDef)
        ensures
            cview(r) == (CmdDefV {
                args: cview(app).args + query_voting_power_args(),
                constraints: cview(app).constraints + query_voting_power_constraints(),
                ..cview(app)
            }),
    {
        let ghost appv = cview(app);
        let r = Query::def(app).arg(opt_arg("validator", "The validator's address whose voting power to query.")).arg(opt_arg("epoch", "The epoch at which to query; the last committed when absent."));
        proof {
            assert(cview(r).args =~= appv.args + query_voting_power_args());
            assert(cview(r).constraints =~= appv.constraints + query_voting_power_constraints());
        }
        r
    }
}

/// Commission-rate query arguments.
pub struct QueryCommissionRate {
    /// Common query arguments.
    pub query: Query,
    pub validator: Option<WalletAddress>,
    pub epoch: Option<u64>,
}

/// Descriptors of these arguments, in definition order.
pub open spec fn query_commission_rate_args() -> Seq<ArgSpecV> {
    query_args() + seq![
        ArgSpecV { name: "validator"@, cardinality: Cardinality::OptionalValue, default: DefaultKindV::NoDefault },
        ArgSpecV { name: "epoch"@, cardinality: Cardinality::OptionalValue, default: DefaultKindV::NoDefault },
    ]
}

/// Constraints these arguments declare.
pub open spec fn query_commission_rate_constraints() -> Seq<ConstraintV> {
    Seq::<ConstraintV>::empty()
}

/// Which of these arguments fails first, if any.
pub open spec fn query_commission_rate_res(m: MatchesV) -> Result<(), ArgFail> {
    match query_res(m) {
        Result::Err(e) => Result::Err(e),
        Result::Ok(u) => {
        match r_opt_u64(m, "epoch"@) {
            Result::Err(e) => Result::Err(e),
            Result::Ok(u) => {
            Result::Ok(())
            },
        }
        },
    }
}

/// Whether parsed values hold exactly the resolved arguments.
pub open spec fn query_commission_rate_matches(x: QueryCommissionRate, m: MatchesV) -> bool {
    &&& query_matches(x.query, m)
    &&& opt_waddr_is(x.validator, opt_of(m, "validator"@))
    &&& r_opt_u64(m, "epoch"@) == Result::<Option<u64>, ArgFail>::Ok(x.epoch)
}

impl QueryCommissionRate {
    /// Parses these arguments out of the matched input.
    pub fn parse(matches: &Matches) -> (r: Result<QueryCommissionRate, ArgError>)
        ensures
            (r is Ok) == (query_commission_rate_res(mview(*matches)) is Ok),
            r matches Result::Ok(x) ==> query_commission_rate_matches(x, mview(*matches)),
            r matches Result::Err(e) ==> query_commission_rate_res(mview(*matches)) == Result::<
                (),
                ArgFail,
            >::Err(aeview(e)),
    {
        let query = match Query::parse(matches) { Result::Ok(v) => v, Result::Err(e) => { return Result::Err(e); } };
        let validator = arg_opt_wallet_address(matches, "validator");
        let epoch = match arg_opt_u64(matches, "epoch") { Result::Ok(v) => v, Result::Err(e) => { return Result::Err(e); } };
        Result::Ok(QueryCommissionRate { query, validator, epoch })
    }

    /// Adds these argument and constraint definitions.
    pub fn def(app: CmdDef) -> (r: CmdDef)
        ensures
            cview(r) == (CmdDefV {
                args: cview(app).args + query_commission_rate_args(),
                constraints: cview(app).constraints + query_commission_rate_constraints(),
                ..cview(app)
            }),
    {
        let ghost appv = cview(app);
        let r = Query::def(app).arg(opt_arg("validator", "The validator's address whose commission rate to query.")).arg(opt_arg("epoch", "The epoch at which to query; the last committed when absent."));
        proof {
            assert(cview(r).args =~= appv.args + query_commission_rate_args());
            assert(cview(r).constraints =~= appv.constraints + query_commission_rate_constraints());
        }
        r
    }
}

/// Slash query arguments.
pub struct QuerySlashes {
    /// Common query arguments.
    pub query: Query,
    pub validator: Option<WalletAddress>,
}

/// Descriptors of these arguments, in definition order.
pub open spec fn query_slashes_args() -> Seq<ArgSpecV> {
    query_args() + seq![
        ArgSpecV { name: "validator"@, cardinality: Cardinality::OptionalValue, default: DefaultKindV::NoDefault },
    ]
}

/// Constraints these arguments declare.
pub open spec fn query_slashes_constraints() -> Seq<ConstraintV> {
    Seq::<ConstraintV>::empty()
}

/// Which of these arguments fails first, if any.
pub open spec fn query_slashes_res(m: MatchesV) -> Result<(), ArgFail> {
    match query_res(m) {
        Result::Err(e) => Result::Err(e),
        Result::Ok(u) => {
        Result::Ok(())
        },
    }
}

/// Whether parsed values hold exactly the resolved arguments.
pub open spec fn query_slashes_matches(x: QuerySlashes, m: MatchesV) -> bool {
    &&& query_matches(x.query, m)
    &&& opt_waddr_is(x.validator, opt_of(m, "validator"@))
}

impl QuerySlashes {
    /// Parses these arguments out of the matched input.
    pub fn parse(matches: &Matches) -> (r: Result<QuerySlashes, ArgError>)
        ensures
            (r is Ok) == (query_slashes_res(mview(*matches)) is Ok),
            r matches Result::Ok(x) ==> query_slashes_matches(x, mview(*matches)),
            r matches Result::Err(e) ==> query_slashes_res(mview(*matches)) == Result::<
                (),
                ArgFail,
            >::Err(aeview(e)),
    {
        let query = match Query::parse(matches) { Result::Ok(v) => v, Result::Err(e) => { return Result::Err(e); } };
        let validator = arg_opt_wallet_address(matches, "validator");
        Result::Ok(QuerySlashes { query, validator })
    }

    /// Adds these argument and constraint definitions.
    pub fn def(app: CmdDef) -> (r: CmdDef)
        ensures
            cview(r) == (CmdDefV {
                args: cview(app).args + query_slashes_args(),
                constraints: cview(app).constraints + query_slashes_constraints(),
                ..cview(app)
            }),
    {
        let ghost appv = cview(app);
        let r = Query::def(app).arg(opt_arg("validator", "The validator's address whose slashes to query."));
        proof {
            assert(cview(r).args =~= appv.args + query_slashes_args());
            assert(cview(r).constraints =~= appv.constraints + query_slashes_constraints());
        }
        r
    }
}

/// Raw-storage query arguments.
pub struct QueryRawBytes {
    pub storage_key: StorageKey,
    /// Common query arguments.
    pub query: Query,
}

/// Descriptors of these arguments, in definition order.
pub open spec fn query_raw_bytes_args() -> Seq<ArgSpecV> {
    query_args() + seq![
        ArgSpecV { name: "storage-key"@, cardinality: Cardinality::RequiredValue, default: DefaultKindV::NoDefault },
    ]
}

/// Constraints these arguments declare.
pub open spec fn query_raw_bytes_constraints() -> Seq<ConstraintV> {
    Seq::<ConstraintV>::empty()
}

/// Which of these arguments fails first, if any.
pub open spec fn query_raw_bytes_res(m: MatchesV) -> Result<(), ArgFail> {
    match query_res(m) {
        Result::Err(e) => Result::Err(e),
        Result::Ok(u) => {
        match r_req_storage_key(m, "storage-key"@) {
            Result::Err(e) => Result::Err(e),
            Result::Ok(u) => {
            Result::Ok(())
            },
        }
        },
    }
}

/// Whether parsed values hold exactly the resolved arguments.
pub open spec fn query_raw_bytes_matches(x: QueryRawBytes, m: MatchesV) -> bool {
    &&& query_matches(x.query, m)
    &&& r_req_storage_key(m, "storage-key"@) == Result::<Seq<Seq<char>>, ArgFail>::Ok(crate::matches::str_views(x.storage_key.segments@))
}

impl QueryRawBytes {
    /// Parses these arguments out of the matched input.
    pub fn parse(matches: &Matches) -> (r: Result<QueryRawBytes, ArgError>)
        ensures
            (r is Ok) == (query_raw_bytes_res(mview(*matches)) is Ok),
            r matches Result::Ok(x) ==> query_raw_bytes_matches(x, mview(*matches)),
            r matches Result::Err(e) ==> query_raw_bytes_res(mview(*matches)) == Result::<
                (),
                ArgFail,
            >::Err(aeview(e)),
    {
        let query = match Query::parse(matches) { Result::Ok(v) => v, Result::Err(e) => { return Result::Err(e); } };
        let storage_key = match arg_req_storage_key(matches, "storage-key") { Result::Ok(v) => v, Result::Err(e) => { return Result::Err(e); } };
        Result::Ok(QueryRawBytes { query, storage_key })
    }

    /// Adds these argument and constraint definitions.
    pub fn def(app: CmdDef) -> (r: CmdDef)
        ensures
            cview(r) == (CmdDefV {
                args: cview(app).args + query_raw_bytes_args(),
                constraints: cview(app).constraints + query_raw_bytes_constraints(),
                ..cview(app)
            }),
    {
        let ghost appv = cview(app);
        let r = Query::def(app).arg(req_arg("storage-key", "The storage key to query."));
        proof {
            assert(cview(r).args =~= appv.args + query_raw_bytes_args());
            assert(cview(r).constraints =~= appv.constraints + query_raw_bytes_constraints());
        }
        r
    }
}

/// Wallet key and implicit address generation arguments.
pub struct KeyAndAddressGen {
    pub scheme: SchemeType,
    pub alias: Option<String>,
    pub unsafe_dont_encrypt: bool,
}

/// Descriptors of these arguments, in definition order.
pub open spec fn key_and_address_gen_args() -> Seq<ArgSpecV> {
    seq![
        ArgSpecV { name: "scheme"@, cardinality: Cardinality::OptionalValue, default: DefaultKindV::Static("ed25519"@) },
        ArgSpecV { name: "alias"@, cardinality: Cardinality::OptionalValue, default: DefaultKindV::NoDefault },
        ArgSpecV { name: "unsafe-dont-encrypt"@, cardinality: Cardinality::BoolFlag, default: DefaultKindV::NoDefault },
    ]
}

/// Constraints these arguments declare.
pub open spec fn key_and_address_gen_constraints() -> Seq<ConstraintV> {
    Seq::<ConstraintV>::empty()
}

/// Which of these arguments fails first, if any.
pub open spec fn key_and_address_gen_res(m: MatchesV) -> Result<(), ArgFail> {
    match r_def_scheme(m, "scheme"@, SchemeType::Ed25519) {
        Result::Err(e) => Result::Err(e),
        Result::Ok(u) => {
        Result::Ok(())
        },
    }
}

/// Whether parsed values hold exactly the resolved arguments.
pub open spec fn key_and_address_gen_matches(x: KeyAndAddressGen, m: MatchesV) -> bool {
    &&& r_def_scheme(m, "scheme"@, SchemeType::Ed25519) == Result::<SchemeType, ArgFail>::Ok(x.scheme)
    &&& opt_string_is(x.alias, opt_of(m, "alias"@))
    &&& x.unsafe_dont_encrypt == flag_of(m, "unsafe-dont-encrypt"@)
}

impl KeyAndAddressGen {
    /// Parses these arguments out of the matched input.
    pub fn parse(matches: &Matches) -> (r: Result<KeyAndAddressGen, ArgError>)
        ensures
            (r is Ok) == (key_and_address_gen_res(mview(*matches)) is Ok),
            r matches Result::Ok(x) ==> key_and_address_gen_matches(x, mview(*matches)),
            r matches Result::Err(e) ==> key_and_address_gen_res(mview(*matches)) == Result::<
                (),
                ArgFail,
            >::Err(aeview(e)),
    {
        let scheme = match arg_def_scheme(matches, "scheme", SchemeType::Ed25519) { Result::Ok(v) => v, Result::Err(e) => { return Result::Err(e); } };
        let alias = arg_opt_string(matches, "alias");
        let unsafe_dont_encrypt = arg_flag(matches, "unsafe-dont-encrypt");
        Result::Ok(KeyAndAddressGen { scheme, alias, unsafe_dont_encrypt })
    }

    /// Adds these argument and constraint definitions.
    pub fn def(app: CmdDef) -> (r: CmdDef)
        ensures
            cview(r) == (CmdDefV {
                args: cview(app).args + key_and_address_gen_args(),
                constraints: cview(app).constraints + key_and_address_gen_constraints(),
                ..cview(app)
            }),
    {
        let ghost appv = cview(app);
        let r = app.arg(def_arg("scheme", "The type of key to generate: ed25519 or secp256k1.", "ed25519")).arg(opt_arg("alias", "The key and address alias; the public key hash stands in when none is given.")).arg(flag_arg("unsafe-dont-encrypt", "UNSAFE: do not encrypt the keypair."));
        proof {
            assert(cview(r).args =~= appv.args + key_and_address_gen_args());
            assert(cview(r).constraints =~= appv.constraints + key_and_address_gen_constraints());
        }
        r
    }
}

/// Wallet key lookup arguments.
pub struct KeyFind {
    pub public_key: Option<PublicKey>,
    pub alias: Option<String>,
    pub value: Option<String>,
    pub unsafe_show_secret: bool,
}

/// Descriptors of these arguments, in definition order.
pub open spec fn key_find_args() -> Seq<ArgSpecV> {
    seq![
        ArgSpecV { name: "public-key"@, cardinality: Cardinality::OptionalValue, default: DefaultKindV::NoDefault },
        ArgSpecV { name: "alias"@, cardinality: Cardinality::OptionalValue, default: DefaultKindV::NoDefault },
        ArgSpecV { name: "value"@, cardinality: Cardinality::OptionalValue, default: DefaultKindV::NoDefault },
        ArgSpecV { name: "unsafe-show-secret"@, cardinality: Cardinality::BoolFlag, default: DefaultKindV::NoDefault },
    ]
}

/// Constraints these arguments declare.
pub open spec fn key_find_constraints() -> Seq<ConstraintV> {
    seq![
        ConstraintV::Conflicts("public-key"@, "alias"@),
        ConstraintV::Conflicts("public-key"@, "value"@),
        ConstraintV::Conflicts("alias"@, "value"@),
    ]
}

/// Which of these arguments fails first, if any.
pub open spec fn key_find_res(m: MatchesV) -> Result<(), ArgFail> {
    match r_opt_public_key(m, "public-key"@) {
        Result::Err(e) => Result::Err(e),
        Result::Ok(u) => {
        Result::Ok(())
        },
    }
}

/// Whether parsed values hold exactly the resolved arguments.
pub open spec fn key_find_matches(x: KeyFind, m: MatchesV) -> bool {
    &&& opt_pk_is(x.public_key, r_opt_public_key(m, "public-key"@))
    &&& opt_string_is(x.alias, opt_of(m, "alias"@))
    &&& opt_string_is(x.value, opt_of(m, "value"@))
    &&& x.unsafe_show_secret == flag_of(m, "unsafe-show-secret"@)
}

impl KeyFind {
    /// Parses these arguments out of the matched input.
    pub fn parse(matches: &Matches) -> (r: Result<KeyFind, ArgError>)
        ensures
            (r is Ok) == (key_find_res(mview(*matches)) is Ok),
            r matches Result::Ok(x) ==> key_find_matches(x, mview(*matches)),
            r matches Result::Err(e) ==> key_find_res(mview(*matches)) == Result::<
                (),
                ArgFail,
            >::Err(aeview(e)),
    {
        let public_key = match arg_opt_public_key(matches, "public-key") { Result::Ok(v) => v, Result::Err(e) => { return Result::Err(e); } };
        let alias = arg_opt_string(matches, "alias");
        let value = arg_opt_string(matches, "value");
        let unsafe_show_secret = arg_flag(matches, "unsafe-show-secret");
        Result::Ok(KeyFind { public_key, alias, value, unsafe_show_secret })
    }

    /// Adds these argument and constraint definitions.
    pub fn def(app: CmdDef) -> (r: CmdDef)
        ensures
            cview(r) == (CmdDefV {
                args: cview(app).args + key_find_args(),
                constraints: cview(app).constraints + key_find_constraints(),
                ..cview(app)
            }),
    {
        let ghost appv = cview(app);
        let r = app.arg(opt_arg("public-key", "A public key associated with the keypair.")).arg(opt_arg("alias", "An alias associated with the keypair.")).arg(opt_arg("value", "A public key or alias associated with the keypair.")).arg(flag_arg("unsafe-show-secret", "UNSAFE: print the secret key.")).constraint(conflicts("public-key", "alias")).constraint(conflicts("public-key", "value")).constraint(conflicts("alias", "value"));
        proof {
            assert(cview(r).args =~= appv.args + key_find_args());
            assert(cview(r).constraints =~= appv.constraints + key_find_constraints());
        }
        r
    }
}

/// Wallet key listing arguments.
pub struct KeyList {
    pub decrypt: bool,
    pub unsafe_show_secret: bool,
}

/// Descriptors of these arguments, in definition order.
pub open spec fn key_list_args() -> Seq<ArgSpecV> {
    seq![
        ArgSpecV { name: "decrypt"@, cardinality: Cardinality::BoolFlag, default: DefaultKindV::NoDefault },
        ArgSpecV { name: "unsafe-show-secret"@, cardinality: Cardinality::BoolFlag, default: DefaultKindV::NoDefault },
    ]
}

/// Constraints these arguments declare.
pub open spec fn key_list_constraints() -> Seq<ConstraintV> {
    Seq::<ConstraintV>::empty()
}

/// Which of these arguments fails first, if any.
pub open spec fn key_list_res(m: MatchesV) -> Result<(), ArgFail> {
    Result::Ok(())
}

/// Whether parsed values hold exactly the resolved arguments.
pub open spec fn key_list_matches(x: KeyList, m: MatchesV) -> bool {
    &&& x.decrypt == flag_of(m, "decrypt"@)
    &&& x.unsafe_show_secret == flag_of(m, "unsafe-show-secret"@)
}

impl KeyList {
    /// Parses these arguments out of the matched input.
    pub fn parse(matches: &Matches) -> (r: Result<KeyList, ArgError>)
        ensures
            (r is Ok) == (key_list_res(mview(*matches)) is Ok),
            r matches Result::Ok(x) ==> key_list_matches(x, mview(*matches)),
            r matches Result::Err(e) ==> key_list_res(mview(*matches)) == Result::<
                (),
                ArgFail,
            >::Err(aeview(e)),
    {
        let decrypt = arg_flag(matches, "decrypt");
        let unsafe_show_secret = arg_flag(matches, "unsafe-show-secret");
        Result::Ok(KeyList { decrypt, unsafe_show_secret })
    }

    /// Adds these argument and constraint definitions.
    pub fn def(app: CmdDef) -> (r: CmdDef)
        ensures
            cview(r) == (CmdDefV {
                args: cview(app).args + key_list_args(),
                constraints: cview(app).constraints + key_list_constraints(),
                ..cview(app)
            }),
    {
        let ghost appv = cview(app);
        let r = app.arg(flag_arg("decrypt", "Decrypt keys that are encrypted.")).arg(flag_arg("unsafe-show-secret", "UNSAFE: print the secret keys."));
        proof {
            assert(cview(r).args =~= appv.args + key_list_args());
            assert(cview(r).constraints =~= appv.constraints + key_list_constraints());
        }
        r
    }
}

/// Wallet key export arguments.
pub struct KeyExport {
    pub alias: String,
}

/// Descriptors of these arguments, in definition order.
pub open spec fn key_export_args() -> Seq<ArgSpecV> {
    seq![
        ArgSpecV { name: "alias"@, cardinality: Cardinality::RequiredValue, default: DefaultKindV::NoDefault },
    ]
}

/// Constraints these arguments declare.
pub open spec fn key_export_constraints() -> Seq<ConstraintV> {
    Seq::<ConstraintV>::empty()
}

/// Which of these arguments fails first, if any.
pub open spec fn key_export_res(m: MatchesV) -> Result<(), ArgFail> {
    match r_req_str(m, "alias"@) {
        Result::Err(e) => Result::Err(e),
        Result::Ok(u) => {
        Result::Ok(())
        },
    }
}

/// Whether parsed values hold exactly the resolved arguments.
pub open spec fn key_export_matches(x: KeyExport, m: MatchesV) -> bool {
    r_req_str(m, "alias"@) == Result::<Seq<char>, ArgFail>::Ok(x.alias@)
}

impl KeyExport {
    /// Parses these arguments out of the matched input.
    pub fn parse(matches: &Matches) -> (r: Result<KeyExport, ArgError>)
        ensures
            (r is Ok) == (key_export_res(mview(*matches)) is Ok),
            r matches Result::Ok(x) ==> key_export_matches(x, mview(*matches)),
            r matches Result::Err(e) ==> key_export_res(mview(*matches)) == Result::<
                (),
                ArgFail,
            >::Err(aeview(e)),
    {
        let alias = match arg_req_string(matches, "alias") { Result::Ok(v) => v, Result::Err(e) => { return Result::Err(e); } };
        Result::Ok(KeyExport { alias })
    }

    /// Adds these argument and constraint definitions.
    pub fn def(app: CmdDef) -> (r: CmdDef)
        ensures
            cview(r) == (CmdDefV {
                args: cview(app).args + key_export_args(),
                constraints: cview(app).constraints + key_export_constraints(),
                ..cview(app)
            }),
    {
        let ghost appv = cview(app);
        let r = app.arg(req_arg("alias", "The alias of the key to export."));
        proof {
            assert(cview(r).args =~= appv.args + key_export_args());
            assert(cview(r).constraints =~= appv.constraints + key_export_constraints());
        }
        r
    }
}

/// Wallet address lookup arguments.
pub struct AddressOrAliasFind {
    pub alias: Option<String>,
    pub address: Option<Address>,
}

/// Descriptors of these arguments, in definition order.
pub open spec fn address_or_alias_find_args() -> Seq<ArgSpecV> {
    seq![
        ArgSpecV { name: "alias"@, cardinality: Cardinality::OptionalValue, default: DefaultKindV::NoDefault },
        ArgSpecV { name: "address"@, cardinality: Cardinality::OptionalValue, default: DefaultKindV::NoDefault },
    ]
}

/// Constraints these arguments declare: exactly one of the alias and the
/// address must be supplied.
pub open spec fn address_or_alias_find_constraints() -> Seq<ConstraintV> {
    seq![
        ConstraintV::RequiredOneOf(seq!["alias"@, "address"@]),
        ConstraintV::Conflicts("alias"@, "address"@),
    ]
}

/// Which of these arguments fails first, if any.
pub open spec fn address_or_alias_find_res(m: MatchesV) -> Result<(), ArgFail> {
    match r_opt_address(m, "address"@) {
        Result::Err(e) => Result::Err(e),
        Result::Ok(u) => {
        Result::Ok(())
        },
    }
}

/// Whether parsed values hold exactly the resolved arguments.
pub open spec fn address_or_alias_find_matches(x: AddressOrAliasFind, m: MatchesV) -> bool {
    &&& opt_string_is(x.alias, opt_of(m, "alias"@))
    &&& opt_address_is(x.address, r_opt_address(m, "address"@))
}

impl AddressOrAliasFind {
    /// Parses these arguments out of the matched input.
    pub fn parse(matches: &Matches) -> (r: Result<AddressOrAliasFind, ArgError>)
        ensures
            (r is Ok) == (address_or_alias_find_res(mview(*matches)) is Ok),
            r matches Result::Ok(x) ==> address_or_alias_find_matches(x, mview(*matches)),
            r matches Result::Err(e) ==> address_or_alias_find_res(mview(*matches)) == Result::<
                (),
                ArgFail,
            >::Err(aeview(e)),
    {
        let alias = arg_opt_string(matches, "alias");
        let address = match arg_opt_address(matches, "address") { Result::Ok(v) => v, Result::Err(e) => { return Result::Err(e); } };
        Result::Ok(AddressOrAliasFind { alias, address })
    }

    /// Adds these argument and constraint definitions.
    pub fn def(app: CmdDef) -> (r: CmdDef)
        ensures
            cview(r) == (CmdDefV {
                args: cview(app).args + address_or_alias_find_args(),
                constraints: cview(app).constraints + address_or_alias_find_constraints(),
                ..cview(app)
            }),
    {
        let ghost appv = cview(app);
        let r = app.arg(opt_arg("alias", "An alias associated with the address.")).arg(opt_arg("address", "The bech32m encoded address string.")).constraint(required_one_of2("alias", "address")).constraint(conflicts("alias", "address"));
        proof {
            assert(cview(r).args =~= appv.args + address_or_alias_find_args());
            assert(cview(r).constraints =~= appv.constraints + address_or_alias_find_constraints());
        }
        r
    }
}

/// Wallet address storing arguments.
pub struct AddressAdd {
    pub alias: String,
    pub address: Address,
}

/// Descriptors of these arguments, in definition order.
pub open spec fn address_add_args() -> Seq<ArgSpecV> {
    seq![
        ArgSpecV { name: "alias"@, cardinality: Cardinality::RequiredValue, default: DefaultKindV::NoDefault },
        ArgSpecV { name: "address"@, cardinality: Cardinality::RequiredValue, default: DefaultKindV::NoDefault },
    ]
}

/// Constraints these arguments declare.
pub open spec fn address_add_constraints() -> Seq<ConstraintV> {
    Seq::<ConstraintV>::empty()
}

/// Which of these arguments fails first, if any.
pub open spec fn address_add_res(m: MatchesV) -> Result<(), ArgFail> {
    match r_req_str(m, "alias"@) {
        Result::Err(e) => Result::Err(e),
        Result::Ok(u) => {
        match r_req_address(m, "address"@) {
            Result::Err(e) => Result::Err(e),
            Result::Ok(u) => {
            Result::Ok(())
            },
        }
        },
    }
}

/// Whether parsed values hold exactly the resolved arguments.
pub open spec fn address_add_matches(x: AddressAdd, m: MatchesV) -> bool {
    &&& r_req_str(m, "alias"@) == Result::<Seq<char>, ArgFail>::Ok(x.alias@)
    &&& r_req_address(m, "address"@) == Result::<Seq<char>, ArgFail>::Ok(x.address.raw@)
}

impl AddressAdd {
    /// Parses these arguments out of the matched input.
    pub fn parse(matches: &Matches) -> (r: Result<AddressAdd, ArgError>)
        ensures
            (r is Ok) == (address_add_res(mview(*matches)) is Ok),
            r matches Result::Ok(x) ==> address_add_matches(x, mview(*matches)),
            r matches Result::Err(e) ==> address_add_res(mview(*matches)) == Result::<
                (),
                ArgFail,
            >::Err(aeview(e)),
    {
        let alias = match arg_req_string(matches, "alias") { Result::Ok(v) => v, Result::Err(e) => { return Result::Err(e); } };
        let address = match arg_req_address(matches, "address") { Result::Ok(v) => v, Result::Err(e) => { return Result::Err(e); } };
        Result::Ok(AddressAdd { alias, address })
    }

    /// Adds these argument and constraint definitions.
    pub fn def(app: CmdDef) -> (r: CmdDef)
        ensures
            cview(r) == (CmdDefV {
                args: cview(app).args + address_add_args(),
                constraints: cview(app).constraints + address_add_constraints(),
                ..cview(app)
            }),
    {
        let ghost appv = cview(app);
        let r = app.arg(req_arg("alias", "An alias to be associated with the address.")).arg(req_arg("address", "The bech32m encoded address string."));
        proof {
            assert(cview(r).args =~= appv.args + address_add_args());
            assert(cview(r).constraints =~= appv.constraints + address_add_constraints());
        }
        r
    }
}

/// Network-joining arguments.
pub struct JoinNetwork {
    pub chain_id: ChainId,
    pub genesis_validator: Option<String>,
    pub pre_genesis_path: Option<String>,
    pub dont_prefetch_wasm: bool,
}

/// Descriptors of these arguments, in definition order.
pub open spec fn join_network_args() -> Seq<ArgSpecV> {
    seq![
        ArgSpecV { name: "chain-id"@, cardinality: Cardinality::RequiredValue, default: DefaultKindV::NoDefault },
        ArgSpecV { name: "genesis-validator"@, cardinality: Cardinality::OptionalValue, default: DefaultKindV::NoDefault },
        ArgSpecV { name: "pre-genesis-path"@, cardinality: Cardinality::OptionalValue, default: DefaultKindV::NoDefault },
        ArgSpecV { name: "dont-prefetch-wasm"@, cardinality: Cardinality::BoolFlag, default: DefaultKindV::NoDefault },
    ]
}

/// Constraints these arguments declare.
pub open spec fn join_network_constraints() -> Seq<ConstraintV> {
    Seq::<ConstraintV>::empty()
}

/// Which of these arguments fails first, if any.
pub open spec fn join_network_res(m: MatchesV) -> Result<(), ArgFail> {
    match r_req_chain_id(m, "chain-id"@) {
        Result::Err(e) => Result::Err(e),
        Result::Ok(u) => {
        Result::Ok(())
        },
    }
}

/// Whether parsed values hold exactly the resolved arguments.
pub open spec fn join_network_matches(x: JoinNetwork, m: MatchesV) -> bool {
    &&& r_req_chain_id(m, "chain-id"@) == Result::<Seq<char>, ArgFail>::Ok(x.chain_id.raw@)
    &&& opt_string_is(x.genesis_validator, opt_of(m, "genesis-validator"@))
    &&& opt_string_is(x.pre_genesis_path, opt_of(m, "pre-genesis-path"@))
    &&& x.dont_prefetch_wasm == flag_of(m, "dont-prefetch-wasm"@)
}

impl JoinNetwork {
    /// Parses these arguments out of the matched input.
    pub fn parse(matches: &Matches) -> (r: Result<JoinNetwork, ArgError>)
        ensures
            (r is Ok) == (join_network_res(mview(*matches)) is Ok),
            r matches Result::Ok(x) ==> join_network_matches(x, mview(*matches)),
            r matches Result::Err(e) ==> join_network_res(mview(*matches)) == Result::<
                (),
                ArgFail,
            >::Err(aeview(e)),
    {
        let chain_id = match arg_req_chain_id(matches, "chain-id") { Result::Ok(v) => v, Result::Err(e) => { return Result::Err(e); } };
        let genesis_validator = arg_opt_string(matches, "genesis-validator");
        let pre_genesis_path = arg_opt_string(matches, "pre-genesis-path");
        let dont_prefetch_wasm = arg_flag(matches, "dont-prefetch-wasm");
        Result::Ok(JoinNetwork { chain_id, genesis_validator, pre_genesis_path, dont_prefetch_wasm })
    }

    /// Adds these argument and constraint definitions.
    pub fn def(app: CmdDef) -> (r: CmdDef)
        ensures
            cview(r) == (CmdDefV {
                args: cview(app).args + join_network_args(),
                constraints: cview(app).constraints + join_network_constraints(),
                ..cview(app)
            }),
    {
        let ghost appv = cview(app);
        let r = app.arg(req_arg("chain-id", "The chain ID of the network to join.")).arg(opt_arg("genesis-validator", "The alias of the genesis validator to set up as, if any.")).arg(opt_arg("pre-genesis-path", "The path to the pre-genesis directory for the genesis validator, if any.")).arg(flag_arg("dont-prefetch-wasm", "Do not pre-fetch WASM."));
        proof {
            assert(cview(r).args =~= appv.args + join_network_args());
            assert(cview(r).constraints =~= appv.constraints + join_network_constraints());
        }
        r
    }
}

/// Pre-built WASM fetching arguments.
pub struct FetchWasms {
    pub chain_id: ChainId,
}

/// Descriptors of these arguments, in definition order.
pub open spec fn fetch_wasms_args() -> Seq<ArgSpecV> {
    seq![
        ArgSpecV { name: "chain-id"@, cardinality: Cardinality::RequiredValue, default: DefaultKindV::NoDefault },
    ]
}

/// Constraints these arguments declare.
pub open spec fn fetch_wasms_constraints() -> Seq<ConstraintV> {
    Seq::<ConstraintV>::empty()
}

/// Which of these arguments fails first, if any.
pub open spec fn fetch_wasms_res(m: MatchesV) -> Result<(), ArgFail> {
    match r_req_chain_id(m, "chain-id"@) {
        Result::Err(e) => Result::Err(e),
        Result::Ok(u) => {
        Result::Ok(())
        },
    }
}

/// Whether parsed values hold exactly the resolved arguments.
pub open spec fn fetch_wasms_matches(x: FetchWasms, m: MatchesV) -> bool {
    r_req_chain_id(m, "chain-id"@) == Result::<Seq<char>, ArgFail>::Ok(x.chain_id.raw@)
}

impl FetchWasms {
    /// Parses these arguments out of the matched input.
    pub fn parse(matches: &Matches) -> (r: Result<FetchWasms, ArgError>)
        ensures
            (r is Ok) == (fetch_wasms_res(mview(*matches)) is Ok),
            r matches Result::Ok(x) ==> fetch_wasms_matches(x, mview(*matches)),
            r matches Result::Err(e) ==> fetch_wasms_res(mview(*matches)) == Result::<
                (),
                ArgFail,
            >::Err(aeview(e)),
    {
        let chain_id = match arg_req_chain_id(matches, "chain-id") { Result::Ok(v) => v, Result::Err(e) => { return Result::Err(e); } };
        Result::Ok(FetchWasms { chain_id })
    }

    /// Adds these argument and constraint definitions.
    pub fn def(app: CmdDef) -> (r: CmdDef)
        ensures
            cview(r) == (CmdDefV {
                args: cview(app).args + fetch_wasms_args(),
                constraints: cview(app).constraints + fetch_wasms_constraints(),
                ..cview(app)
            }),
    {
        let ghost appv = cview(app);
        let r = app.arg(req_arg("chain-id", "The chain ID whose pre-built WASM to fetch."));
        proof {
            assert(cview(r).args =~= appv.args + fetch_wasms_args());
            assert(cview(r).constraints =~= appv.constraints + fetch_wasms_constraints());
        }
        r
    }
}

/// Test-network initialization arguments.
pub struct InitNetwork {
    pub genesis_path: String,
    pub wasm_checksums_path: String,
    pub chain_id_prefix: ChainIdPrefix,
    pub unsafe_dont_encrypt: bool,
    pub consensus_timeout_commit: Timeout,
    pub localhost: bool,
    pub allow_duplicate_ip: bool,
    pub dont_archive: bool,
    pub archive_dir: Option<String>,
}

/// Descriptors of these arguments, in definition order.
pub open spec fn init_network_args() -> Seq<ArgSpecV> {
    seq![
        ArgSpecV { name: "genesis-path"@, cardinality: Cardinality::RequiredValue, default: DefaultKindV::NoDefault },
        ArgSpecV { name: "wasm-checksums-path"@, cardinality: Cardinality::RequiredValue, default: DefaultKindV::NoDefault },
        ArgSpecV { name: "chain-prefix"@, cardinality: Cardinality::RequiredValue, default: DefaultKindV::NoDefault },
        ArgSpecV { name: "unsafe-dont-encrypt"@, cardinality: Cardinality::BoolFlag, default: DefaultKindV::NoDefault },
        ArgSpecV { name: "consensus-timeout-commit"@, cardinality: Cardinality::OptionalValue, default: DefaultKindV::Static("1s"@) },
        ArgSpecV { name: "localhost"@, cardinality: Cardinality::BoolFlag, default: DefaultKindV::NoDefault },
        ArgSpecV { name: "allow-duplicate-ip"@, cardinality: Cardinality::BoolFlag, default: DefaultKindV::NoDefault },
        ArgSpecV { name: "dont-archive"@, cardinality: Cardinality::BoolFlag, default: DefaultKindV::NoDefault },
        ArgSpecV { name: "archive-dir"@, cardinality: Cardinality::OptionalValue, default: DefaultKindV::NoDefault },
    ]
}

/// Constraints these arguments declare.
pub open spec fn init_network_constraints() -> Seq<ConstraintV> {
    Seq::<ConstraintV>::empty()
}

/// Which of these arguments fails first, if any.
pub open spec fn init_network_res(m: MatchesV) -> Result<(), ArgFail> {
    match r_req_str(m, "genesis-path"@) {
        Result::Err(e) => Result::Err(e),
        Result::Ok(u) => {
        match r_req_str(m, "wasm-checksums-path"@) {
            Result::Err(e) => Result::Err(e),
            Result::Ok(u) => {
            match r_req_chain_prefix(m, "chain-prefix"@) {
                Result::Err(e) => Result::Err(e),
                Result::Ok(u) => {
                match r_def_timeout(m, "consensus-timeout-commit"@, 1000) {
                    Result::Err(e) => Result::Err(e),
                    Result::Ok(u) => {
                    Result::Ok(())
                    },
                }
                },
            }
            },
        }
        },
    }
}

/// Whether parsed values hold exactly the resolved arguments.
pub open spec fn init_network_matches(x: InitNetwork, m: MatchesV) -> bool {
    &&& r_req_str(m, "genesis-path"@) == Result::<Seq<char>, ArgFail>::Ok(x.genesis_path@)
    &&& r_req_str(m, "wasm-checksums-path"@) == Result::<Seq<char>, ArgFail>::Ok(x.wasm_checksums_path@)
    &&& r_req_chain_prefix(m, "chain-prefix"@) == Result::<Seq<char>, ArgFail>::Ok(x.chain_id_prefix.raw@)
    &&& x.unsafe_dont_encrypt == flag_of(m, "unsafe-dont-encrypt"@)
    &&& r_def_timeout(m, "consensus-timeout-commit"@, 1000) == Result::<u64, ArgFail>::Ok(x.consensus_timeout_commit.millis)
    &&& x.localhost == flag_of(m, "localhost"@)
    &&& x.allow_duplicate_ip == flag_of(m, "allow-duplicate-ip"@)
    &&& x.dont_archive == flag_of(m, "dont-archive"@)
    &&& opt_string_is(x.archive_dir, opt_of(m, "archive-dir"@))
}

impl InitNetwork {
    /// Parses these arguments out of the matched input.
    pub fn parse(matches: &Matches) -> (r: Result<InitNetwork, ArgError>)
        ensures
            (r is Ok) == (init_network_res(mview(*matches)) is Ok),
            r matches Result::Ok(x) ==> init_network_matches(x, mview(*matches)),
            r matches Result::Err(e) ==> init_network_res(mview(*matches)) == Result::<
                (),
                ArgFail,
            >::Err(aeview(e)),
    {
        let genesis_path = match arg_req_string(matches, "genesis-path") { Result::Ok(v) => v, Result::Err(e) => { return Result::Err(e); } };
        let wasm_checksums_path = match arg_req_string(matches, "wasm-checksums-path") { Result::Ok(v) => v, Result::Err(e) => { return Result::Err(e); } };
        let chain_id_prefix = match arg_req_chain_prefix(matches, "chain-prefix") { Result::Ok(v) => v, Result::Err(e) => { return Result::Err(e); } };
        let unsafe_dont_encrypt = arg_flag(matches, "unsafe-dont-encrypt");
        let consensus_timeout_commit = match arg_def_timeout(matches, "consensus-timeout-commit", 1000) { Result::Ok(v) => v, Result::Err(e) => { return Result::Err(e); } };
        let localhost = arg_flag(matches, "localhost");
        let allow_duplicate_ip = arg_flag(matches, "allow-duplicate-ip");
        let dont_archive = arg_flag(matches, "dont-archive");
        let archive_dir = arg_opt_string(matches, "archive-dir");
        Result::Ok(InitNetwork { genesis_path, wasm_checksums_path, chain_id_prefix, unsafe_dont_encrypt, consensus_timeout_commit, localhost, allow_duplicate_ip, dont_archive, archive_dir })
    }

    /// Adds these argument and constraint definitions.
    pub fn def(app: CmdDef) -> (r: CmdDef)
        ensures
            cview(r) == (CmdDefV {
                args: cview(app).args + init_network_args(),
                constraints: cview(app).constraints + init_network_constraints(),
                ..cview(app)
            }),
    {
        let ghost appv = cview(app);
        let r = app.arg(req_arg("genesis-path", "Path to the preliminary genesis configuration file.")).arg(req_arg("wasm-checksums-path", "Path to the WASM checksums file.")).arg(req_arg("chain-prefix", "The chain ID prefix: up to 19 alphanumeric, '.', '-' or '_' characters.")).arg(flag_arg("unsafe-dont-encrypt", "UNSAFE: do not encrypt the generated keypairs.")).arg(def_arg("consensus-timeout-commit", "The consensus timeout_commit configuration, as in 1s or 1000ms.", "1s")).arg(flag_arg("localhost", "Use localhost addresses for peer-to-peer and RPC connections.")).arg(flag_arg("allow-duplicate-ip", "Disable the guard against peers connecting from the same IP.")).arg(flag_arg("dont-archive", "Do not create the release archive.")).arg(opt_arg("archive-dir", "The directory to store the archive in; the working directory when absent."));
        proof {
            assert(cview(r).args =~= appv.args + init_network_args());
            assert(cview(r).constraints =~= appv.constraints + init_network_constraints());
        }
        r
    }
}

/// Genesis-validator initialization arguments.
pub struct InitGenesisValidator {
    pub alias: String,
    pub commission_rate: rust_decimal::Decimal,
    pub max_commission_rate_change: rust_decimal::Decimal,
    pub net_address: NetAddress,
    pub unsafe_dont_encrypt: bool,
    pub key_scheme: SchemeType,
}

/// Descriptors of these arguments, in definition order.
pub open spec fn init_genesis_validator_args() -> Seq<ArgSpecV> {
    seq![
        ArgSpecV { name: "alias"@, cardinality: Cardinality::RequiredValue, default: DefaultKindV::NoDefault },
        ArgSpecV { name: "net-address"@, cardinality: Cardinality::RequiredValue, default: DefaultKindV::NoDefault },
        ArgSpecV { name: "commission-rate"@, cardinality: Cardinality::RequiredValue, default: DefaultKindV::NoDefault },
        ArgSpecV { name: "max-commission-rate-change"@, cardinality: Cardinality::RequiredValue, default: DefaultKindV::NoDefault },
        ArgSpecV { name: "unsafe-dont-encrypt"@, cardinality: Cardinality::BoolFlag, default: DefaultKindV::NoDefault },
        ArgSpecV { name: "scheme"@, cardinality: Cardinality::OptionalValue, default: DefaultKindV::Static("ed25519"@) },
    ]
}

/// Constraints these arguments declare.
pub open spec fn init_genesis_validator_constraints() -> Seq<ConstraintV> {
    Seq::<ConstraintV>::empty()
}

/// Which of these arguments fails first, if any.
pub open spec fn init_genesis_validator_res(m: MatchesV) -> Result<(), ArgFail> {
    match r_req_str(m, "alias"@) {
        Result::Err(e) => Result::Err(e),
        Result::Ok(u) => {
        match r_req_decimal(m, "commission-rate"@) {
            Result::Err(e) => Result::Err(e),
            Result::Ok(u) => {
            match r_req_decimal(m, "max-commission-rate-change"@) {
                Result::Err(e) => Result::Err(e),
                Result::Ok(u) => {
                match r_req_net_address(m, "net-address"@) {
                    Result::Err(e) => Result::Err(e),
                    Result::Ok(u) => {
                    match r_def_scheme(m, "scheme"@, SchemeType::Ed25519) {
                        Result::Err(e) => Result::Err(e),
                        Result::Ok(u) => {
                        Result::Ok(())
                        },
                    }
                    },
                }
                },
            }
            },
        }
        },
    }
}

/// Whether parsed values hold exactly the resolved arguments.
pub open spec fn init_genesis_validator_matches(x: InitGenesisValidator, m: MatchesV) -> bool {
    &&& r_req_str(m, "alias"@) == Result::<Seq<char>, ArgFail>::Ok(x.alias@)
    &&& r_req_decimal(m, "commission-rate"@) == Result::<rust_decimal::Decimal, ArgFail>::Ok(x.commission_rate)
    &&& r_req_decimal(m, "max-commission-rate-change"@) == Result::<rust_decimal::Decimal, ArgFail>::Ok(x.max_commission_rate_change)
    &&& r_req_net_address(m, "net-address"@) == Result::<(Seq<char>, u16), ArgFail>::Ok((x.net_address.host@, x.net_address.port))
    &&& x.unsafe_dont_encrypt == flag_of(m, "unsafe-dont-encrypt"@)
    &&& r_def_scheme(m, "scheme"@, SchemeType::Ed25519) == Result::<SchemeType, ArgFail>::Ok(x.key_scheme)
}

impl InitGenesisValidator {
    /// Parses these arguments out of the matched input.
    pub fn parse(matches: &Matches) -> (r: Result<InitGenesisValidator, ArgError>)
        ensures
            (r is Ok) == (init_genesis_validator_res(mview(*matches)) is Ok),
            r matches Result::Ok(x) ==> init_genesis_validator_matches(x, mview(*matches)),
            r matches Result::Err(e) ==> init_genesis_validator_res(mview(*matches)) == Result::<
                (),
                ArgFail,
            >::Err(aeview(e)),
    {
        let alias = match arg_req_string(matches, "alias") { Result::Ok(v) => v, Result::Err(e) => { return Result::Err(e); } };
        let commission_rate = match arg_req_decimal(matches, "commission-rate") { Result::Ok(v) => v, Result::Err(e) => { return Result::Err(e); } };
        let max_commission_rate_change = match arg_req_decimal(matches, "max-commission-rate-change") { Result::Ok(v) => v, Result::Err(e) => { return Result::Err(e); } };
        let net_address = match arg_req_net_address(matches, "net-address") { Result::Ok(v) => v, Result::Err(e) => { return Result::Err(e); } };
        let unsafe_dont_encrypt = arg_flag(matches, "unsafe-dont-encrypt");
        let key_scheme = match arg_def_scheme(matches, "scheme", SchemeType::Ed25519) { Result::Ok(v) => v, Result::Err(e) => { return Result::Err(e); } };
        Result::Ok(InitGenesisValidator { alias, commission_rate, max_commission_rate_change, net_address, unsafe_dont_encrypt, key_scheme })
    }

    /// Adds these argument and constraint definitions.
    pub fn def(app: CmdDef) -> (r: CmdDef)
        ensures
            cview(r) == (CmdDefV {
                args: cview(app).args + init_genesis_validator_args(),
                constraints: cview(app).constraints + init_genesis_validator_constraints(),
                ..cview(app)
            }),
    {
        let ghost appv = cview(app);
        let r = app.arg(req_arg("alias", "The validator address alias.")).arg(req_arg("net-address", "Static {host:port} of the validator node's peer-to-peer address.")).arg(req_arg("commission-rate", "The commission rate charged by the validator for delegation rewards.")).arg(req_arg("max-commission-rate-change", "The largest change per epoch in the commission rate.")).arg(flag_arg("unsafe-dont-encrypt", "UNSAFE: do not encrypt the generated keypairs.")).arg(def_arg("scheme", "The key scheme for the validator keys: ed25519 or secp256k1.", "ed25519"));
        proof {
            assert(cview(r).args =~= appv.args + init_genesis_validator_args());
            assert(cview(r).constraints =~= appv.constraints + init_genesis_validator_constraints());
        }
        r
    }
}

} // verus!
