//! Typed argument resolution: pulling one declared argument out of the
//! matched input. A required argument that is absent, or raw text outside
//! the argument's grammar, is reported with the argument's key and the
//! offending text; a defaultable argument resolves its default instead, with
//! the fixed precedence: supplied value, then environment variable, then
//! static fallback.

use vstd::prelude::*;

use crate::context::{WalletAddress, WalletKeypair, WalletPublicKey};
use crate::matches::{lookup, opt_of, flag_of, Matches, MatchesV, mview};
use crate::values::{
    address_shape_ok, amount_of, chain_id_ok, chain_id_prefix_ok, hex_bytes_of, hostport_of,
    laview, ledger_address_of, mode_of, public_key_text_ok, scheme_of, split_slash,
    all_segments_nonempty, timeout_millis_of, u64_of, vote_of, Address, Amount, ChainId,
    ChainIdPrefix, LedgerAddress, LedgerAddressV, NetAddress, ProposalVote, PublicKey, SchemeType,
    StorageKey, TendermintMode, Timeout,
};

verus! {

/// Why one argument could not be resolved.
#[derive(Debug)]
pub enum ArgError {
    /// A required argument was absent; its key.
    Missing(String),
    /// Raw text outside the argument's grammar; the key and the text.
    BadValue(String, String),
}

/// Mathematical model of an argument error.
pub ghost enum ArgFail {
    Missing(Seq<char>),
    BadValue(Seq<char>, Seq<char>),
}

/// The model of an argument error.
pub open spec fn aeview(e: ArgError) -> ArgFail {
    match e {
        ArgError::Missing(k) => ArgFail::Missing(k@),
        ArgError::BadValue(k, t) => ArgFail::BadValue(k@, t@),
    }
}

impl ArgError {
    /// The key of the argument the error is about.
    pub fn key<'a>(&'a self) -> (r: &'a String)
        ensures
            match aeview(*self) {
                ArgFail::Missing(k) => r@ == k,
                ArgFail::BadValue(k, t) => r@ == k,
            },
    {
        match self {
            ArgError::Missing(k) => k,
            ArgError::BadValue(k, t) => k,
        }
    }
}

/// The raw text of option `k`, required.
pub open spec fn r_req_str(m: MatchesV, k: Seq<char>) -> Result<Seq<char>, ArgFail> {
    match opt_of(m, k) {
        Option::Some(v) => Result::Ok(v),
        Option::None => Result::Err(ArgFail::Missing(k)),
    }
}

/// Resolves a required text argument.
pub fn arg_req_string(m: &Matches, k: &str) -> (r: Result<String, ArgError>)
    ensures
        match r {
            Result::Ok(v) => r_req_str(mview(*m), k@) == Result::<Seq<char>, ArgFail>::Ok(v@),
            Result::Err(e) => r_req_str(mview(*m), k@) == Result::<Seq<char>, ArgFail>::Err(
                aeview(e),
            ),
        },
{
    match m.value_of(k) {
        Option::Some(v) => Result::Ok(v.clone()),
        Option::None => Result::Err(ArgError::Missing(k.to_owned())),
    }
}

/// Resolves an optional text argument; absence is not an error.
pub fn arg_opt_string(m: &Matches, k: &str) -> (r: Option<String>)
    ensures
        match r {
            Option::Some(v) => opt_of(mview(*m), k@) == Option::Some(v@),
            Option::None => opt_of(mview(*m), k@) is None,
        },
{
    match m.value_of(k) {
        Option::Some(v) => Option::Some(v.clone()),
        Option::None => Option::None,
    }
}

/// Resolves a boolean flag; absence means `false` and never fails.
pub fn arg_flag(m: &Matches, k: &str) -> (r: bool)
    ensures
        r == flag_of(mview(*m), k@),
{
    m.has_flag(k)
}

/// The text of option `k`, or the static default when absent: a supplied
/// value always wins over the default.
pub open spec fn r_def_str(m: MatchesV, k: Seq<char>, d: Seq<char>) -> Seq<char> {
    match opt_of(m, k) {
        Option::Some(v) => v,
        Option::None => d,
    }
}

/// The text of option `k`, or, when absent, the environment variable `var`,
/// or, when that is unset, the static fallback `d`. A supplied value always
/// overrides the environment, which always overrides the fallback.
pub open spec fn r_env_def_str(
    m: MatchesV,
    k: Seq<char>,
    env: Seq<(Seq<char>, Seq<char>)>,
    var: Seq<char>,
    d: Seq<char>,
) -> Seq<char> {
    match opt_of(m, k) {
        Option::Some(v) => v,
        Option::None => match lookup(env, var) {
            Option::Some(v) => v,
            Option::None => d,
        },
    }
}

/// The default-source precedence law: an explicit value always overrides an
/// environment value, which always overrides the static fallback.
pub proof fn lemma_default_precedence(
    m: MatchesV,
    k: Seq<char>,
    env: Seq<(Seq<char>, Seq<char>)>,
    var: Seq<char>,
    d: Seq<char>,
)
    ensures
        opt_of(m, k) is Some ==> r_env_def_str(m, k, env, var, d) == opt_of(m, k)->Some_0,
        opt_of(m, k) is None && lookup(env, var) is Some ==> r_env_def_str(m, k, env, var, d)
            == lookup(env, var)->Some_0,
        opt_of(m, k) is None && lookup(env, var) is None ==> r_env_def_str(m, k, env, var, d)
            == d,
{
}

/// The text of option `k`, or, when absent, the environment variable `var`,
/// or absence when that too is unset: there is no static fallback. A
/// supplied value always overrides the environment.
pub open spec fn r_env_opt_str(
    m: MatchesV,
    k: Seq<char>,
    env: Seq<(Seq<char>, Seq<char>)>,
    var: Seq<char>,
) -> Option<Seq<char>> {
    match opt_of(m, k) {
        Option::Some(v) => Option::Some(v),
        Option::None => lookup(env, var),
    }
}

/// The value of environment variable `var` in a process-environment
/// snapshot, given as name-value pairs.
pub fn env_value_of<'a>(env: &'a Vec<(String, String)>, var: &str) -> (r: Option<&'a String>)
    ensures
        match r {
            Option::Some(v) => lookup(crate::matches::opt_views(env@), var@) == Option::Some(v@),
            Option::None => lookup(crate::matches::opt_views(env@), var@) is None,
        },
{
    let ghost entries = crate::matches::opt_views(env@);
    proof {
        assert(entries.skip(0) =~= entries);
    }
    let mut i: usize = 0;
    while i < env.len()
        invariant
            0 <= i <= env.len(),
            entries == crate::matches::opt_views(env@),
            entries.len() == env.len(),
            lookup(entries, var@) == lookup(entries.skip(i as int), var@),
        decreases env.len() - i,
    {
        proof {
            assert(entries.skip(i as int)[0] == entries[i as int]);
        }
        if crate::str_eq(env[i].0.as_str(), var) {
            return Option::Some(&env[i].1);
        }
        proof {
            assert(entries.skip(i as int).skip(1) =~= entries.skip(i + 1));
        }
        i += 1;
    }
    proof {
        assert(entries.skip(i as int).len() == 0);
    }
    Option::None
}

/// Resolves a text argument with an environment variable and a static
/// fallback behind it.
pub fn arg_env_def_string(
    m: &Matches,
    k: &str,
    env: &Vec<(String, String)>,
    var: &str,
    d: &str,
) -> (r: String)
    ensures
        r@ == r_env_def_str(mview(*m), k@, crate::matches::opt_views(env@), var@, d@),
{
    match m.value_of(k) {
        Option::Some(v) => v.clone(),
        Option::None => match env_value_of(env, var) {
            Option::Some(v) => v.clone(),
            Option::None => d.to_owned(),
        },
    }
}

/// Resolves an optional text argument with an environment variable behind
/// it and no static fallback.
pub fn arg_env_opt_string(
    m: &Matches,
    k: &str,
    env: &Vec<(String, String)>,
    var: &str,
) -> (r: Option<String>)
    ensures
        match r {
            Option::Some(v) => r_env_opt_str(mview(*m), k@, crate::matches::opt_views(env@), var@)
                == Option::Some(v@),
            Option::None => r_env_opt_str(
                mview(*m),
                k@,
                crate::matches::opt_views(env@),
                var@,
            ) is None,
        },
{
    match m.value_of(k) {
        Option::Some(v) => Option::Some(v.clone()),
        Option::None => match env_value_of(env, var) {
            Option::Some(v) => Option::Some(v.clone()),
            Option::None => Option::None,
        },
    }
}

/// Resolves a required wallet-address argument; any text is a valid alias.
pub fn arg_req_wallet_address(m: &Matches, k: &str) -> (r: Result<WalletAddress, ArgError>)
    ensures
        match r {
            Result::Ok(v) => r_req_str(mview(*m), k@) == Result::<Seq<char>, ArgFail>::Ok(v.raw@),
            Result::Err(e) => r_req_str(mview(*m), k@) == Result::<Seq<char>, ArgFail>::Err(
                aeview(e),
            ),
        },
{
    match m.value_of(k) {
        Option::Some(v) => Result::Ok(WalletAddress::parse(v.as_str())),
        Option::None => Result::Err(ArgError::Missing(k.to_owned())),
    }
}

/// Resolves an optional wallet-address argument.
pub fn arg_opt_wallet_address(m: &Matches, k: &str) -> (r: Option<WalletAddress>)
    ensures
        match r {
            Option::Some(v) => opt_of(mview(*m), k@) == Option::Some(v.raw@),
            Option::None => opt_of(mview(*m), k@) is None,
        },
{
    match m.value_of(k) {
        Option::Some(v) => Option::Some(WalletAddress::parse(v.as_str())),
        Option::None => Option::None,
    }
}

/// Resolves a wallet-address argument whose default is an alias resolved
/// against the runtime context once it exists; until then the alias text
/// stands in.
pub fn arg_ctx_def_wallet_address(m: &Matches, k: &str, d: &str) -> (r: WalletAddress)
    ensures
        r.raw@ == r_def_str(mview(*m), k@, d@),
{
    match m.value_of(k) {
        Option::Some(v) => WalletAddress::parse(v.as_str()),
        Option::None => WalletAddress::parse(d),
    }
}

/// Resolves an optional wallet-keypair argument.
pub fn arg_opt_wallet_keypair(m: &Matches, k: &str) -> (r: Option<WalletKeypair>)
    ensures
        match r {
            Option::Some(v) => opt_of(mview(*m), k@) == Option::Some(v.raw@),
            Option::None => opt_of(mview(*m), k@) is None,
        },
{
    match m.value_of(k) {
        Option::Some(v) => Option::Some(WalletKeypair::parse(v.as_str())),
        Option::None => Option::None,
    }
}

/// Resolves a required wallet-public-key argument.
pub fn arg_req_wallet_public_key(m: &Matches, k: &str) -> (r: Result<WalletPublicKey, ArgError>)
    ensures
        match r {
            Result::Ok(v) => r_req_str(mview(*m), k@) == Result::<Seq<char>, ArgFail>::Ok(v.raw@),
            Result::Err(e) => r_req_str(mview(*m), k@) == Result::<Seq<char>, ArgFail>::Err(
                aeview(e),
            ),
        },
{
    match m.value_of(k) {
        Option::Some(v) => Result::Ok(WalletPublicKey::parse(v.as_str())),
        Option::None => Result::Err(ArgError::Missing(k.to_owned())),
    }
}

/// Resolves an optional wallet-public-key argument.
pub fn arg_opt_wallet_public_key(m: &Matches, k: &str) -> (r: Option<WalletPublicKey>)
    ensures
        match r {
            Option::Some(v) => opt_of(mview(*m), k@) == Option::Some(v.raw@),
            Option::None => opt_of(mview(*m), k@) is None,
        },
{
    match m.value_of(k) {
        Option::Some(v) => Option::Some(WalletPublicKey::parse(v.as_str())),
        Option::None => Option::None,
    }
}

/// The token amount of option `k`, required.
pub open spec fn r_req_amount(m: MatchesV, k: Seq<char>) -> Result<u64, ArgFail> {
    match opt_of(m, k) {
        Option::None => Result::Err(ArgFail::Missing(k)),
        Option::Some(raw) => match amount_of(raw) {
            Option::Some(v) => Result::Ok(v),
            Option::None => Result::Err(ArgFail::BadValue(k, raw)),
        },
    }
}

/// Resolves a required token-amount argument.
pub fn arg_req_amount(m: &Matches, k: &str) -> (r: Result<Amount, ArgError>)
    ensures
        match r {
            Result::Ok(v) => r_req_amount(mview(*m), k@) == Result::<u64, ArgFail>::Ok(v.micro),
            Result::Err(e) => r_req_amount(mview(*m), k@) == Result::<u64, ArgFail>::Err(
                aeview(e),
            ),
        },
{
    match m.value_of(k) {
        Option::None => Result::Err(ArgError::Missing(k.to_owned())),
        Option::Some(raw) => match Amount::parse(raw.as_str()) {
            Option::Some(v) => Result::Ok(v),
            Option::None => Result::Err(ArgError::BadValue(k.to_owned(), raw.clone())),
        },
    }
}

/// The token amount of option `k`, or the default when absent.
pub open spec fn r_def_amount(m: MatchesV, k: Seq<char>, d: u64) -> Result<u64, ArgFail> {
    match opt_of(m, k) {
        Option::None => Result::Ok(d),
        Option::Some(raw) => match amount_of(raw) {
            Option::Some(v) => Result::Ok(v),
            Option::None => Result::Err(ArgFail::BadValue(k, raw)),
        },
    }
}

/// Resolves a token-amount argument with a static default.
pub fn arg_def_amount(m: &Matches, k: &str, d: u64) -> (r: Result<Amount, ArgError>)
    ensures
        match r {
            Result::Ok(v) => r_def_amount(mview(*m), k@, d) == Result::<u64, ArgFail>::Ok(
                v.micro,
            ),
            Result::Err(e) => r_def_amount(mview(*m), k@, d) == Result::<u64, ArgFail>::Err(
                aeview(e),
            ),
        },
{
    match m.value_of(k) {
        Option::None => Result::Ok(Amount { micro: d }),
        Option::Some(raw) => match Amount::parse(raw.as_str()) {
            Option::Some(v) => Result::Ok(v),
            Option::None => Result::Err(ArgError::BadValue(k.to_owned(), raw.clone())),
        },
    }
}

/// The 64-bit number of option `k`, if supplied.
pub open spec fn r_opt_u64(m: MatchesV, k: Seq<char>) -> Result<Option<u64>, ArgFail> {
    match opt_of(m, k) {
        Option::None => Result::Ok(Option::None),
        Option::Some(raw) => match u64_of(raw) {
            Option::Some(v) => Result::Ok(Option::Some(v)),
            Option::None => Result::Err(ArgFail::BadValue(k, raw)),
        },
    }
}

/// Resolves an optional unsigned-number argument.
pub fn arg_opt_u64(m: &Matches, k: &str) -> (r: Result<Option<u64>, ArgError>)
    ensures
        match r {
            Result::Ok(v) => r_opt_u64(mview(*m), k@) == Result::<Option<u64>, ArgFail>::Ok(v),
            Result::Err(e) => r_opt_u64(mview(*m), k@) == Result::<Option<u64>, ArgFail>::Err(
                aeview(e),
            ),
        },
{
    match m.value_of(k) {
        Option::None => Result::Ok(Option::None),
        Option::Some(raw) => match crate::values::parse_u64(raw.as_str()) {
            Option::Some(v) => Result::Ok(Option::Some(v)),
            Option::None => Result::Err(ArgError::BadValue(k.to_owned(), raw.clone())),
        },
    }
}

/// The proposal vote of option `k`, required: a value outside the vocabulary
/// always fails and never falls back to anything.
pub open spec fn r_req_vote(m: MatchesV, k: Seq<char>) -> Result<ProposalVote, ArgFail> {
    match opt_of(m, k) {
        Option::None => Result::Err(ArgFail::Missing(k)),
        Option::Some(raw) => match vote_of(raw) {
            Option::Some(v) => Result::Ok(v),
            Option::None => Result::Err(ArgFail::BadValue(k, raw)),
        },
    }
}

/// Resolves a required proposal-vote argument.
pub fn arg_req_vote(m: &Matches, k: &str) -> (r: Result<ProposalVote, ArgError>)
    ensures
        match r {
            Result::Ok(v) => r_req_vote(mview(*m), k@) == Result::<ProposalVote, ArgFail>::Ok(v),
            Result::Err(e) => r_req_vote(mview(*m), k@) == Result::<ProposalVote, ArgFail>::Err(
                aeview(e),
            ),
        },
{
    match m.value_of(k) {
        Option::None => Result::Err(ArgError::Missing(k.to_owned())),
        Option::Some(raw) => match ProposalVote::parse(raw.as_str()) {
            Option::Some(v) => Result::Ok(v),
            Option::None => Result::Err(ArgError::BadValue(k.to_owned(), raw.clone())),
        },
    }
}

/// The key scheme of option `k`, or the default when absent.
pub open spec fn r_def_scheme(m: MatchesV, k: Seq<char>, d: SchemeType) -> Result<
    SchemeType,
    ArgFail,
> {
    match opt_of(m, k) {
        Option::None => Result::Ok(d),
        Option::Some(raw) => match scheme_of(raw) {
            Option::Some(v) => Result::Ok(v),
            Option::None => Result::Err(ArgFail::BadValue(k, raw)),
        },
    }
}

/// Resolves a key-scheme argument with a static default.
pub fn arg_def_scheme(m: &Matches, k: &str, d: SchemeType) -> (r: Result<SchemeType, ArgError>)
    ensures
        match r {
            Result::Ok(v) => r_def_scheme(mview(*m), k@, d) == Result::<SchemeType, ArgFail>::Ok(
                v,
            ),
            Result::Err(e) => r_def_scheme(mview(*m), k@, d) == Result::<
                SchemeType,
                ArgFail,
            >::Err(aeview(e)),
        },
{
    match m.value_of(k) {
        Option::None => Result::Ok(d),
        Option::Some(raw) => match SchemeType::parse(raw.as_str()) {
            Option::Some(v) => Result::Ok(v),
            Option::None => Result::Err(ArgError::BadValue(k.to_owned(), raw.clone())),
        },
    }
}

/// The run mode of option `k`, if supplied.
pub open spec fn r_opt_mode(m: MatchesV, k: Seq<char>) -> Result<Option<TendermintMode>, ArgFail> {
    match opt_of(m, k) {
        Option::None => Result::Ok(Option::None),
        Option::Some(raw) => match mode_of(raw) {
            Option::Some(v) => Result::Ok(Option::Some(v)),
            Option::None => Result::Err(ArgFail::BadValue(k, raw)),
        },
    }
}

/// Resolves an optional run-mode argument.
pub fn arg_opt_mode(m: &Matches, k: &str) -> (r: Result<Option<TendermintMode>, ArgError>)
    ensures
        match r {
            Result::Ok(v) => r_opt_mode(mview(*m), k@) == Result::<
                Option<TendermintMode>,
                ArgFail,
            >::Ok(v),
            Result::Err(e) => r_opt_mode(mview(*m), k@) == Result::<
                Option<TendermintMode>,
                ArgFail,
            >::Err(aeview(e)),
        },
{
    match m.value_of(k) {
        Option::None => Result::Ok(Option::None),
        Option::Some(raw) => match TendermintMode::parse(raw.as_str()) {
            Option::Some(v) => Result::Ok(Option::Some(v)),
            Option::None => Result::Err(ArgError::BadValue(k.to_owned(), raw.clone())),
        },
    }
}

/// The chain identifier of option `k`, required.
pub open spec fn r_req_chain_id(m: MatchesV, k: Seq<char>) -> Result<Seq<char>, ArgFail> {
    match opt_of(m, k) {
        Option::None => Result::Err(ArgFail::Missing(k)),
        Option::Some(raw) => if chain_id_ok(raw) {
            Result::Ok(raw)
        } else {
            Result::Err(ArgFail::BadValue(k, raw))
        },
    }
}

/// Resolves a required chain-identifier argument.
pub fn arg_req_chain_id(m: &Matches, k: &str) -> (r: Result<ChainId, ArgError>)
    ensures
        match r {
            Result::Ok(v) => r_req_chain_id(mview(*m), k@) == Result::<Seq<char>, ArgFail>::Ok(
                v.raw@,
            ),
            Result::Err(e) => r_req_chain_id(mview(*m), k@) == Result::<Seq<char>, ArgFail>::Err(
                aeview(e),
            ),
        },
{
    match m.value_of(k) {
        Option::None => Result::Err(ArgError::Missing(k.to_owned())),
        Option::Some(raw) => match ChainId::parse(raw.as_str()) {
            Option::Some(v) => Result::Ok(v),
            Option::None => Result::Err(ArgError::BadValue(k.to_owned(), raw.clone())),
        },
    }
}

/// The chain identifier of option `k`, if supplied.
pub open spec fn r_opt_chain_id(m: MatchesV, k: Seq<char>) -> Result<Option<Seq<char>>, ArgFail> {
    match opt_of(m, k) {
        Option::None => Result::Ok(Option::None),
        Option::Some(raw) => if chain_id_ok(raw) {
            Result::Ok(Option::Some(raw))
        } else {
            Result::Err(ArgFail::BadValue(k, raw))
        },
    }
}

/// Resolves an optional chain-identifier argument.
pub fn arg_opt_chain_id(m: &Matches, k: &str) -> (r: Result<Option<ChainId>, ArgError>)
    ensures
        match r {
            Result::Ok(v) => match v {
                Option::Some(c) => r_opt_chain_id(mview(*m), k@) == Result::<
                    Option<Seq<char>>,
                    ArgFail,
                >::Ok(Option::Some(c.raw@)),
                Option::None => r_opt_chain_id(mview(*m), k@) == Result::<
                    Option<Seq<char>>,
                    ArgFail,
                >::Ok(Option::None),
            },
            Result::Err(e) => r_opt_chain_id(mview(*m), k@) == Result::<
                Option<Seq<char>>,
                ArgFail,
            >::Err(aeview(e)),
        },
{
    match m.value_of(k) {
        Option::None => Result::Ok(Option::None),
        Option::Some(raw) => match ChainId::parse(raw.as_str()) {
            Option::Some(v) => Result::Ok(Option::Some(v)),
            Option::None => Result::Err(ArgError::BadValue(k.to_owned(), raw.clone())),
        },
    }
}

/// The chain-identifier prefix of option `k`, required.
pub open spec fn r_req_chain_prefix(m: MatchesV, k: Seq<char>) -> Result<Seq<char>, ArgFail> {
    match opt_of(m, k) {
        Option::None => Result::Err(ArgFail::Missing(k)),
        Option::Some(raw) => if chain_id_prefix_ok(raw) {
            Result::Ok(raw)
        } else {
            Result::Err(ArgFail::BadValue(k, raw))
        },
    }
}

/// Resolves a required chain-identifier-prefix argument.
pub fn arg_req_chain_prefix(m: &Matches, k: &str) -> (r: Result<ChainIdPrefix, ArgError>)
    ensures
        match r {
            Result::Ok(v) => r_req_chain_prefix(mview(*m), k@) == Result::<
                Seq<char>,
                ArgFail,
            >::Ok(v.raw@),
            Result::Err(e) => r_req_chain_prefix(mview(*m), k@) == Result::<
                Seq<char>,
                ArgFail,
            >::Err(aeview(e)),
        },
{
    match m.value_of(k) {
        Option::None => Result::Err(ArgError::Missing(k.to_owned())),
        Option::Some(raw) => match ChainIdPrefix::parse(raw.as_str()) {
            Option::Some(v) => Result::Ok(v),
            Option::None => Result::Err(ArgError::BadValue(k.to_owned(), raw.clone())),
        },
    }
}

/// The raw address of option `k`, required.
pub open spec fn r_req_address(m: MatchesV, k: Seq<char>) -> Result<Seq<char>, ArgFail> {
    match opt_of(m, k) {
        Option::None => Result::Err(ArgFail::Missing(k)),
        Option::Some(raw) => if address_shape_ok(raw) {
            Result::Ok(raw)
        } else {
            Result::Err(ArgFail::BadValue(k, raw))
        },
    }
}

/// Resolves a required raw-address argument.
pub fn arg_req_address(m: &Matches, k: &str) -> (r: Result<Address, ArgError>)
    ensures
        match r {
            Result::Ok(v) => r_req_address(mview(*m), k@) == Result::<Seq<char>, ArgFail>::Ok(
                v.raw@,
            ),
            Result::Err(e) => r_req_address(mview(*m), k@) == Result::<Seq<char>, ArgFail>::Err(
                aeview(e),
            ),
        },
{
    match m.value_of(k) {
        Option::None => Result::Err(ArgError::Missing(k.to_owned())),
        Option::Some(raw) => match Address::parse(raw.as_str()) {
            Option::Some(v) => Result::Ok(v),
            Option::None => Result::Err(ArgError::BadValue(k.to_owned(), raw.clone())),
        },
    }
}

/// The raw address of option `k`, if supplied.
pub open spec fn r_opt_address(m: MatchesV, k: Seq<char>) -> Result<Option<Seq<char>>, ArgFail> {
    match opt_of(m, k) {
        Option::None => Result::Ok(Option::None),
        Option::Some(raw) => if address_shape_ok(raw) {
            Result::Ok(Option::Some(raw))
        } else {
            Result::Err(ArgFail::BadValue(k, raw))
        },
    }
}

/// Resolves an optional raw-address argument.
pub fn arg_opt_address(m: &Matches, k: &str) -> (r: Result<Option<Address>, ArgError>)
    ensures
        match r {
            Result::Ok(v) => match v {
                Option::Some(a) => r_opt_address(mview(*m), k@) == Result::<
                    Option<Seq<char>>,
                    ArgFail,
                >::Ok(Option::Some(a.raw@)),
                Option::None => r_opt_address(mview(*m), k@) == Result::<
                    Option<Seq<char>>,
                    ArgFail,
                >::Ok(Option::None),
            },
            Result::Err(e) => r_opt_address(mview(*m), k@) == Result::<
                Option<Seq<char>>,
                ArgFail,
            >::Err(aeview(e)),
        },
{
    match m.value_of(k) {
        Option::None => Result::Ok(Option::None),
        Option::Some(raw) => match Address::parse(raw.as_str()) {
            Option::Some(v) => Result::Ok(Option::Some(v)),
            Option::None => Result::Err(ArgError::BadValue(k.to_owned(), raw.clone())),
        },
    }
}

/// The raw public key of option `k`, if supplied.
pub open spec fn r_opt_public_key(m: MatchesV, k: Seq<char>) -> Result<Option<Seq<u8>>, ArgFail> {
    match opt_of(m, k) {
        Option::None => Result::Ok(Option::None),
        Option::Some(raw) => if public_key_text_ok(raw) {
            Result::Ok(Option::Some(hex_bytes_of(raw)))
        } else {
            Result::Err(ArgFail::BadValue(k, raw))
        },
    }
}

/// Resolves an optional raw-public-key argument, written in hexadecimal.
pub fn arg_opt_public_key(m: &Matches, k: &str) -> (r: Result<Option<PublicKey>, ArgError>)
    ensures
        match r {
            Result::Ok(v) => match v {
                Option::Some(p) => r_opt_public_key(mview(*m), k@) == Result::<
                    Option<Seq<u8>>,
                    ArgFail,
                >::Ok(Option::Some(p.bytes@)),
                Option::None => r_opt_public_key(mview(*m), k@) == Result::<
                    Option<Seq<u8>>,
                    ArgFail,
                >::Ok(Option::None),
            },
            Result::Err(e) => r_opt_public_key(mview(*m), k@) == Result::<
                Option<Seq<u8>>,
                ArgFail,
            >::Err(aeview(e)),
        },
{
    match m.value_of(k) {
        Option::None => Result::Ok(Option::None),
        Option::Some(raw) => match PublicKey::parse(raw.as_str()) {
            Option::Some(v) => Result::Ok(Option::Some(v)),
            Option::None => Result::Err(ArgError::BadValue(k.to_owned(), raw.clone())),
        },
    }
}

/// The storage key of option `k`, required.
pub open spec fn r_req_storage_key(m: MatchesV, k: Seq<char>) -> Result<Seq<Seq<char>>, ArgFail> {
    match opt_of(m, k) {
        Option::None => Result::Err(ArgFail::Missing(k)),
        Option::Some(raw) => if raw.len() > 0 && all_segments_nonempty(split_slash(raw)) {
            Result::Ok(split_slash(raw))
        } else {
            Result::Err(ArgFail::BadValue(k, raw))
        },
    }
}

/// Resolves a required storage-key argument.
pub fn arg_req_storage_key(m: &Matches, k: &str) -> (r: Result<StorageKey, ArgError>)
    ensures
        match r {
            Result::Ok(v) => r_req_storage_key(mview(*m), k@) == Result::<
                Seq<Seq<char>>,
                ArgFail,
            >::Ok(crate::matches::str_views(v.segments@)),
            Result::Err(e) => r_req_storage_key(mview(*m), k@) == Result::<
                Seq<Seq<char>>,
                ArgFail,
            >::Err(aeview(e)),
        },
{
    match m.value_of(k) {
        Option::None => Result::Err(ArgError::Missing(k.to_owned())),
        Option::Some(raw) => match StorageKey::parse(raw.as_str()) {
            Option::Some(v) => Result::Ok(v),
            Option::None => Result::Err(ArgError::BadValue(k.to_owned(), raw.clone())),
        },
    }
}

/// The ledger node address of option `k`, or the fixed local endpoint when
/// absent.
pub open spec fn default_ledger_address() -> LedgerAddressV {
    LedgerAddressV::Tcp("127.0.0.1"@, 26657)
}

/// The ledger node address of option `k`, or the default when absent.
pub open spec fn r_def_ledger_address(m: MatchesV, k: Seq<char>) -> Result<
    LedgerAddressV,
    ArgFail,
> {
    match opt_of(m, k) {
        Option::None => Result::Ok(default_ledger_address()),
        Option::Some(raw) => match ledger_address_of(raw) {
            Option::Some(v) => Result::Ok(v),
            Option::None => Result::Err(ArgFail::BadValue(k, raw)),
        },
    }
}

/// Resolves the ledger-node-address argument, defaulting to the local
/// endpoint `127.0.0.1:26657`.
pub fn arg_def_ledger_address(m: &Matches, k: &str) -> (r: Result<LedgerAddress, ArgError>)
    ensures
        match r {
            Result::Ok(v) => r_def_ledger_address(mview(*m), k@) == Result::<
                LedgerAddressV,
                ArgFail,
            >::Ok(laview(v)),
            Result::Err(e) => r_def_ledger_address(mview(*m), k@) == Result::<
                LedgerAddressV,
                ArgFail,
            >::Err(aeview(e)),
        },
{
    match m.value_of(k) {
        Option::None => {
            let host: String = "127.0.0.1".to_owned();
            Result::Ok(LedgerAddress::Tcp { host, port: 26657 })
        },
        Option::Some(raw) => match LedgerAddress::parse(raw.as_str()) {
            Option::Some(v) => Result::Ok(v),
            Option::None => Result::Err(ArgError::BadValue(k.to_owned(), raw.clone())),
        },
    }
}

/// The consensus timeout of option `k` in milliseconds, or the default when
/// absent.
pub open spec fn r_def_timeout(m: MatchesV, k: Seq<char>, d: u64) -> Result<u64, ArgFail> {
    match opt_of(m, k) {
        Option::None => Result::Ok(d),
        Option::Some(raw) => match timeout_millis_of(raw) {
            Option::Some(v) => Result::Ok(v),
            Option::None => Result::Err(ArgFail::BadValue(k, raw)),
        },
    }
}

/// Resolves a consensus-timeout argument with a static default, in
/// milliseconds.
pub fn arg_def_timeout(m: &Matches, k: &str, d: u64) -> (r: Result<Timeout, ArgError>)
    ensures
        match r {
            Result::Ok(v) => r_def_timeout(mview(*m), k@, d) == Result::<u64, ArgFail>::Ok(
                v.millis,
            ),
            Result::Err(e) => r_def_timeout(mview(*m), k@, d) == Result::<u64, ArgFail>::Err(
                aeview(e),
            ),
        },
{
    match m.value_of(k) {
        Option::None => Result::Ok(Timeout { millis: d }),
        Option::Some(raw) => match Timeout::parse(raw.as_str()) {
            Option::Some(v) => Result::Ok(v),
            Option::None => Result::Err(ArgError::BadValue(k.to_owned(), raw.clone())),
        },
    }
}

/// The peer-to-peer endpoint of option `k`, required.
pub open spec fn r_req_net_address(m: MatchesV, k: Seq<char>) -> Result<
    (Seq<char>, u16),
    ArgFail,
> {
    match opt_of(m, k) {
        Option::None => Result::Err(ArgFail::Missing(k)),
        Option::Some(raw) => match hostport_of(raw) {
            Option::Some(v) => Result::Ok(v),
            Option::None => Result::Err(ArgFail::BadValue(k, raw)),
        },
    }
}

/// Resolves a required `host:port` endpoint argument.
pub fn arg_req_net_address(m: &Matches, k: &str) -> (r: Result<NetAddress, ArgError>)
    ensures
        match r {
            Result::Ok(v) => r_req_net_address(mview(*m), k@) == Result::<
                (Seq<char>, u16),
                ArgFail,
            >::Ok((v.host@, v.port)),
            Result::Err(e) => r_req_net_address(mview(*m), k@) == Result::<
                (Seq<char>, u16),
                ArgFail,
            >::Err(aeview(e)),
        },
{
    match m.value_of(k) {
        Option::None => Result::Err(ArgError::Missing(k.to_owned())),
        Option::Some(raw) => match NetAddress::parse(raw.as_str()) {
            Option::Some(v) => Result::Ok(v),
            Option::None => Result::Err(ArgError::BadValue(k.to_owned(), raw.clone())),
        },
    }
}

/// The decimal of option `k`, required, as `rust_decimal` reads it.
pub open spec fn r_req_decimal(m: MatchesV, k: Seq<char>) -> Result<
    rust_decimal::Decimal,
    ArgFail,
> {
    match opt_of(m, k) {
        Option::None => Result::Err(ArgFail::Missing(k)),
        Option::Some(raw) => match crate::decimal::decimal_of(raw) {
            Option::Some(v) => Result::Ok(v),
            Option::None => Result::Err(ArgFail::BadValue(k, raw)),
        },
    }
}

/// Resolves a required decimal argument.
pub fn arg_req_decimal(m: &Matches, k: &str) -> (r: Result<rust_decimal::Decimal, ArgError>)
    ensures
        match r {
            Result::Ok(v) => r_req_decimal(mview(*m), k@) == Result::<
                rust_decimal::Decimal,
                ArgFail,
            >::Ok(v),
            Result::Err(e) => r_req_decimal(mview(*m), k@) == Result::<
                rust_decimal::Decimal,
                ArgFail,
            >::Err(aeview(e)),
        },
{
    match m.value_of(k) {
        Option::None => Result::Err(ArgError::Missing(k.to_owned())),
        Option::Some(raw) => match crate::decimal::parse_decimal(raw.as_str()) {
            Option::Some(v) => Result::Ok(v),
            Option::None => Result::Err(ArgError::BadValue(k.to_owned(), raw.clone())),
        },
    }
}

} // verus!
