//! The concrete commands of the shared vocabulary. Each command owns its
//! token and argument set; `parse` yields the command exactly when its token
//! was selected in the matched input, and `def` yields its declarative
//! definition for tree composition. The same definition serves unchanged as
//! a top-level command in one executable and a nested subcommand in another;
//! only the composed tree decides its position.

use vstd::prelude::*;

use crate::args;
use crate::defs::{ArgSpecV, CmdDef, CmdDefV, ConstraintV, cview};
use crate::matches::{sub_of, sub_token, Matches, MatchesV, mview};
use crate::resolve::{aeview, ArgError, ArgFail};

verus! {

/// The outcome of a parse attempt, with the payload forgotten: whether the
/// token was selected, and which argument failed if one did.
pub open spec fn cmd_status<T>(r: Result<Option<T>, ArgError>) -> Result<Option<()>, ArgFail> {
    match r {
        Result::Ok(o) => match o {
            Option::Some(x) => Result::Ok(Option::Some(())),
            Option::None => Result::Ok(Option::None),
        },
        Result::Err(e) => Result::Err(aeview(e)),
    }
}


/// Generates a keypair with a given alias and derives the implicit address from its public key. The address is stored under the same alias.
pub struct KeyGen(pub args::KeyAndAddressGen);

/// What parsing this command yields, with the payload forgotten.
pub open spec fn key_gen_cmd_res(m: MatchesV) -> Result<Option<()>, ArgFail> {
    match sub_of(m, "gen"@) {
        Option::None => Result::Ok(Option::None),
        Option::Some(i) => match args::key_and_address_gen_res(i) {
            Result::Ok(u) => Result::Ok(Option::Some(())),
            Result::Err(e) => Result::Err(e),
        },
    }
}

/// Whether the parsed command holds exactly the resolved arguments.
pub open spec fn key_gen_cmd_matches(c: KeyGen, m: MatchesV) -> bool {
    sub_of(m, "gen"@) is Some && args::key_and_address_gen_matches(c.0, sub_of(m, "gen"@)->Some_0)
}

/// The declarative definition of this command.
pub open spec fn key_gen_def() -> CmdDefV {
    CmdDefV {
        token: "gen"@,
        args: args::key_and_address_gen_args(),
        constraints: args::key_and_address_gen_constraints(),
        children: Seq::<CmdDefV>::empty(),
    }
}

impl KeyGen {
    /// Parses this command out of the matched input, if its token was
    /// selected.
    pub fn parse(matches: &Matches) -> (r: Result<Option<KeyGen>, ArgError>)
        ensures
            cmd_status(r) == key_gen_cmd_res(mview(*matches)),
            r matches Result::Ok(Option::Some(c)) ==> key_gen_cmd_matches(c, mview(*matches)),
    {
        match matches.subcommand_matches("gen") {
            Option::None => Result::Ok(Option::None),
            Option::Some(inner) => match args::KeyAndAddressGen::parse(inner) {
                Result::Ok(a) => Result::Ok(Option::Some(KeyGen(a))),
                Result::Err(e) => Result::Err(e),
            },
        }
    }

    /// The declarative definition of this command.
    pub fn def() -> (r: CmdDef)
        ensures
            cview(r) == key_gen_def(),
    {
        let r = args::KeyAndAddressGen::def(CmdDef::leaf("gen", "Generates a keypair with a given alias and derives the implicit address from its public key. The address is stored under the same alias."));
        proof {
            assert(cview(r).args =~= args::key_and_address_gen_args());
            assert(cview(r).constraints =~= args::key_and_address_gen_constraints());
        }
        r
    }
}


/// Searches for a keypair from a public key or an alias.
pub struct KeyFind(pub args::KeyFind);

/// What parsing this command yields, with the payload forgotten.
pub open spec fn key_find_cmd_res(m: MatchesV) -> Result<Option<()>, ArgFail> {
    match sub_of(m, "find"@) {
        Option::None => Result::Ok(Option::None),
        Option::Some(i) => match args::key_find_res(i) {
            Result::Ok(u) => Result::Ok(Option::Some(())),
            Result::Err(e) => Result::Err(e),
        },
    }
}

/// Whether the parsed command holds exactly the resolved arguments.
pub open spec fn key_find_cmd_matches(c: KeyFind, m: MatchesV) -> bool {
    sub_of(m, "find"@) is Some && args::key_find_matches(c.0, sub_of(m, "find"@)->Some_0)
}

/// The declarative definition of this command.
pub open spec fn key_find_def() -> CmdDefV {
    CmdDefV {
        token: "find"@,
        args: args::key_find_args(),
        constraints: args::key_find_constraints(),
        children: Seq::<CmdDefV>::empty(),
    }
}

impl KeyFind {
    /// Parses this command out of the matched input, if its token was
    /// selected.
    pub fn parse(matches: &Matches) -> (r: Result<Option<KeyFind>, ArgError>)
        ensures
            cmd_status(r) == key_find_cmd_res(mview(*matches)),
            r matches Result::Ok(Option::Some(c)) ==> key_find_cmd_matches(c, mview(*matches)),
    {
        match matches.subcommand_matches("find") {
            Option::None => Result::Ok(Option::None),
            Option::Some(inner) => match args::KeyFind::parse(inner) {
                Result::Ok(a) => Result::Ok(Option::Some(KeyFind(a))),
                Result::Err(e) => Result::Err(e),
            },
        }
    }

    /// The declarative definition of this command.
    pub fn def() -> (r: CmdDef)
        ensures
            cview(r) == key_find_def(),
    {
        let r = args::KeyFind::def(CmdDef::leaf("find", "Searches for a keypair from a public key or an alias."));
        proof {
            assert(cview(r).args =~= args::key_find_args());
            assert(cview(r).constraints =~= args::key_find_constraints());
        }
        r
    }
}


/// List all known keys.
pub struct KeyList(pub args::KeyList);

/// What parsing this command yields, with the payload forgotten.
pub open spec fn key_list_cmd_res(m: MatchesV) -> Result<Option<()>, ArgFail> {
    match sub_of(m, "list"@) {
        Option::None => Result::Ok(Option::None),
        Option::Some(i) => match args::key_list_res(i) {
            Result::Ok(u) => Result::Ok(Option::Some(())),
            Result::Err(e) => Result::Err(e),
        },
    }
}

/// Whether the parsed command holds exactly the resolved arguments.
pub open spec fn key_list_cmd_matches(c: KeyList, m: MatchesV) -> bool {
    sub_of(m, "list"@) is Some && args::key_list_matches(c.0, sub_of(m, "list"@)->Some_0)
}

/// The declarative definition of this command.
pub open spec fn key_list_def() -> CmdDefV {
    CmdDefV {
        token: "list"@,
        args: args::key_list_args(),
        constraints: args::key_list_constraints(),
        children: Seq::<CmdDefV>::empty(),
    }
}

impl KeyList {
    /// Parses this command out of the matched input, if its token was
    /// selected.
    pub fn parse(matches: &Matches) -> (r: Result<Option<KeyList>, ArgError>)
        ensures
            cmd_status(r) == key_list_cmd_res(mview(*matches)),
            r matches Result::Ok(Option::Some(c)) ==> key_list_cmd_matches(c, mview(*matches)),
    {
        match matches.subcommand_matches("list") {
            Option::None => Result::Ok(Option::None),
            Option::Some(inner) => match args::KeyList::parse(inner) {
                Result::Ok(a) => Result::Ok(Option::Some(KeyList(a))),
                Result::Err(e) => Result::Err(e),
            },
        }
    }

    /// The declarative definition of this command.
    pub fn def() -> (r: CmdDef)
        ensures
            cview(r) == key_list_def(),
    {
        let r = args::KeyList::def(CmdDef::leaf("list", "List all known keys."));
        proof {
            assert(cview(r).args =~= args::key_list_args());
            assert(cview(r).constraints =~= args::key_list_constraints());
        }
        r
    }
}


/// Exports a keypair to a file.
pub struct Export(pub args::KeyExport);

/// What parsing this command yields, with the payload forgotten.
pub open spec fn export_cmd_res(m: MatchesV) -> Result<Option<()>, ArgFail> {
    match sub_of(m, "export"@) {
        Option::None => Result::Ok(Option::None),
        Option::Some(i) => match args::key_export_res(i) {
            Result::Ok(u) => Result::Ok(Option::Some(())),
            Result::Err(e) => Result::Err(e),
        },
    }
}

/// Whether the parsed command holds exactly the resolved arguments.
pub open spec fn export_cmd_matches(c: Export, m: MatchesV) -> bool {
    sub_of(m, "export"@) is Some && args::key_export_matches(c.0, sub_of(m, "export"@)->Some_0)
}

/// The declarative definition of this command.
pub open spec fn export_def() -> CmdDefV {
    CmdDefV {
        token: "export"@,
        args: args::key_export_args(),
        constraints: args::key_export_constraints(),
        children: Seq::<CmdDefV>::empty(),
    }
}

impl Export {
    /// Parses this command out of the matched input, if its token was
    /// selected.
    pub fn parse(matches: &Matches) -> (r: Result<Option<Export>, ArgError>)
        ensures
            cmd_status(r) == export_cmd_res(mview(*matches)),
            r matches Result::Ok(Option::Some(c)) ==> export_cmd_matches(c, mview(*matches)),
    {
        match matches.subcommand_matches("export") {
            Option::None => Result::Ok(Option::None),
            Option::Some(inner) => match args::KeyExport::parse(inner) {
                Result::Ok(a) => Result::Ok(Option::Some(Export(a))),
                Result::Err(e) => Result::Err(e),
            },
        }
    }

    /// The declarative definition of this command.
    pub fn def() -> (r: CmdDef)
        ensures
            cview(r) == export_def(),
    {
        let r = args::KeyExport::def(CmdDef::leaf("export", "Exports a keypair to a file."));
        proof {
            assert(cview(r).args =~= args::key_export_args());
            assert(cview(r).constraints =~= args::key_export_constraints());
        }
        r
    }
}


/// Generates a keypair with a given alias and derives the implicit address from its public key. The address is stored under the same alias.
pub struct AddressGen(pub args::KeyAndAddressGen);

/// What parsing this command yields, with the payload forgotten.
pub open spec fn address_gen_cmd_res(m: MatchesV) -> Result<Option<()>, ArgFail> {
    match sub_of(m, "gen"@) {
        Option::None => Result::Ok(Option::None),
        Option::Some(i) => match args::key_and_address_gen_res(i) {
            Result::Ok(u) => Result::Ok(Option::Some(())),
            Result::Err(e) => Result::Err(e),
        },
    }
}

/// Whether the parsed command holds exactly the resolved arguments.
pub open spec fn address_gen_cmd_matches(c: AddressGen, m: MatchesV) -> bool {
    sub_of(m, "gen"@) is Some && args::key_and_address_gen_matches(c.0, sub_of(m, "gen"@)->Some_0)
}

/// The declarative definition of this command.
pub open spec fn address_gen_def() -> CmdDefV {
    CmdDefV {
        token: "gen"@,
        args: args::key_and_address_gen_args(),
        constraints: args::key_and_address_gen_constraints(),
        children: Seq::<CmdDefV>::empty(),
    }
}

impl AddressGen {
    /// Parses this command out of the matched input, if its token was
    /// selected.
    pub fn parse(matches: &Matches) -> (r: Result<Option<AddressGen>, ArgError>)
        ensures
            cmd_status(r) == address_gen_cmd_res(mview(*matches)),
            r matches Result::Ok(Option::Some(c)) ==> address_gen_cmd_matches(c, mview(*matches)),
    {
        match matches.subcommand_matches("gen") {
            Option::None => Result::Ok(Option::None),
            Option::Some(inner) => match args::KeyAndAddressGen::parse(inner) {
                Result::Ok(a) => Result::Ok(Option::Some(AddressGen(a))),
                Result::Err(e) => Result::Err(e),
            },
        }
    }

    /// The declarative definition of this command.
    pub fn def() -> (r: CmdDef)
        ensures
            cview(r) == address_gen_def(),
    {
        let r = args::KeyAndAddressGen::def(CmdDef::leaf("gen", "Generates a keypair with a given alias and derives the implicit address from its public key. The address is stored under the same alias."));
        proof {
            assert(cview(r).args =~= args::key_and_address_gen_args());
            assert(cview(r).constraints =~= args::key_and_address_gen_constraints());
        }
        r
    }
}


/// Find an address by its alias or an alias by its address.
pub struct AddressOrAliasFind(pub args::AddressOrAliasFind);

/// What parsing this command yields, with the payload forgotten.
pub open spec fn address_or_alias_find_cmd_res(m: MatchesV) -> Result<Option<()>, ArgFail> {
    match sub_of(m, "find"@) {
        Option::None => Result::Ok(Option::None),
        Option::Some(i) => match args::address_or_alias_find_res(i) {
            Result::Ok(u) => Result::Ok(Option::Some(())),
            Result::Err(e) => Result::Err(e),
        },
    }
}

/// Whether the parsed command holds exactly the resolved arguments.
pub open spec fn address_or_alias_find_cmd_matches(c: AddressOrAliasFind, m: MatchesV) -> bool {
    sub_of(m, "find"@) is Some && args::address_or_alias_find_matches(c.0, sub_of(m, "find"@)->Some_0)
}

/// The declarative definition of this command.
pub open spec fn address_or_alias_find_def() -> CmdDefV {
    CmdDefV {
        token: "find"@,
        args: args::address_or_alias_find_args(),
        constraints: args::address_or_alias_find_constraints(),
        children: Seq::<CmdDefV>::empty(),
    }
}

impl AddressOrAliasFind {
    /// Parses this command out of the matched input, if its token was
    /// selected.
    pub fn parse(matches: &Matches) -> (r: Result<Option<AddressOrAliasFind>, ArgError>)
        ensures
            cmd_status(r) == address_or_alias_find_cmd_res(mview(*matches)),
            r matches Result::Ok(Option::Some(c)) ==> address_or_alias_find_cmd_matches(c, mview(*matches)),
    {
        match matches.subcommand_matches("find") {
            Option::None => Result::Ok(Option::None),
            Option::Some(inner) => match args::AddressOrAliasFind::parse(inner) {
                Result::Ok(a) => Result::Ok(Option::Some(AddressOrAliasFind(a))),
                Result::Err(e) => Result::Err(e),
            },
        }
    }

    /// The declarative definition of this command.
    pub fn def() -> (r: CmdDef)
        ensures
            cview(r) == address_or_alias_find_def(),
    {
        let r = args::AddressOrAliasFind::def(CmdDef::leaf("find", "Find an address by its alias or an alias by its address."));
        proof {
            assert(cview(r).args =~= args::address_or_alias_find_args());
            assert(cview(r).constraints =~= args::address_or_alias_find_constraints());
        }
        r
    }
}


/// List all known addresses.
pub struct AddressList;

/// What parsing this command yields, with the payload forgotten.
pub open spec fn address_list_cmd_res(m: MatchesV) -> Result<Option<()>, ArgFail> {
    match sub_of(m, "list"@) {
        Option::None => Result::Ok(Option::None),
        Option::Some(i) => Result::Ok(Option::Some(())),
    }
}

/// Whether the parsed command corresponds to the matched input.
pub open spec fn address_list_cmd_matches(c: AddressList, m: MatchesV) -> bool {
    sub_of(m, "list"@) is Some
}

/// The declarative definition of this command.
pub open spec fn address_list_def() -> CmdDefV {
    CmdDefV {
        token: "list"@,
        args: Seq::<ArgSpecV>::empty(),
        constraints: Seq::<ConstraintV>::empty(),
        children: Seq::<CmdDefV>::empty(),
    }
}

impl AddressList {
    /// Parses this command out of the matched input, if its token was
    /// selected.
    pub fn parse(matches: &Matches) -> (r: Result<Option<AddressList>, ArgError>)
        ensures
            cmd_status(r) == address_list_cmd_res(mview(*matches)),
            r matches Result::Ok(Option::Some(c)) ==> address_list_cmd_matches(c, mview(*matches)),
    {
        match matches.subcommand_matches("list") {
            Option::None => Result::Ok(Option::None),
            Option::Some(inner) => Result::Ok(Option::Some(AddressList)),
        }
    }

    /// The declarative definition of this command.
    pub fn def() -> (r: CmdDef)
        ensures
            cview(r) == address_list_def(),
    {
        CmdDef::leaf("list", "List all known addresses.")
    }
}


/// Store an alias for an address in the wallet.
pub struct AddressAdd(pub args::AddressAdd);

/// What parsing this command yields, with the payload forgotten.
pub open spec fn address_add_cmd_res(m: MatchesV) -> Result<Option<()>, ArgFail> {
    match sub_of(m, "add"@) {
        Option::None => Result::Ok(Option::None),
        Option::Some(i) => match args::address_add_res(i) {
            Result::Ok(u) => Result::Ok(Option::Some(())),
            Result::Err(e) => Result::Err(e),
        },
    }
}

/// Whether the parsed command holds exactly the resolved arguments.
pub open spec fn address_add_cmd_matches(c: AddressAdd, m: MatchesV) -> bool {
    sub_of(m, "add"@) is Some && args::address_add_matches(c.0, sub_of(m, "add"@)->Some_0)
}

/// The declarative definition of this command.
pub open spec fn address_add_def() -> CmdDefV {
    CmdDefV {
        token: "add"@,
        args: args::address_add_args(),
        constraints: args::address_add_constraints(),
        children: Seq::<CmdDefV>::empty(),
    }
}

impl AddressAdd {
    /// Parses this command out of the matched input, if its token was
    /// selected.
    pub fn parse(matches: &Matches) -> (r: Result<Option<AddressAdd>, ArgError>)
        ensures
            cmd_status(r) == address_add_cmd_res(mview(*matches)),
            r matches Result::Ok(Option::Some(c)) ==> address_add_cmd_matches(c, mview(*matches)),
    {
        match matches.subcommand_matches("add") {
            Option::None => Result::Ok(Option::None),
            Option::Some(inner) => match args::AddressAdd::parse(inner) {
                Result::Ok(a) => Result::Ok(Option::Some(AddressAdd(a))),
                Result::Err(e) => Result::Err(e),
            },
        }
    }

    /// The declarative definition of this command.
    pub fn def() -> (r: CmdDef)
        ensures
            cview(r) == address_add_def(),
    {
        let r = args::AddressAdd::def(CmdDef::leaf("add", "Store an alias for an address in the wallet."));
        proof {
            assert(cview(r).args =~= args::address_add_args());
            assert(cview(r).constraints =~= args::address_add_constraints());
        }
        r
    }
}


/// Run the ledger node.
pub struct LedgerRun;

/// What parsing this command yields, with the payload forgotten.
pub open spec fn ledger_run_cmd_res(m: MatchesV) -> Result<Option<()>, ArgFail> {
    match sub_of(m, "run"@) {
        Option::None => Result::Ok(Option::None),
        Option::Some(i) => Result::Ok(Option::Some(())),
    }
}

/// Whether the parsed command corresponds to the matched input.
pub open spec fn ledger_run_cmd_matches(c: LedgerRun, m: MatchesV) -> bool {
    sub_of(m, "run"@) is Some
}

/// The declarative definition of this command.
pub open spec fn ledger_run_def() -> CmdDefV {
    CmdDefV {
        token: "run"@,
        args: Seq::<ArgSpecV>::empty(),
        constraints: Seq::<ConstraintV>::empty(),
        children: Seq::<CmdDefV>::empty(),
    }
}

impl LedgerRun {
    /// Parses this command out of the matched input, if its token was
    /// selected.
    pub fn parse(matches: &Matches) -> (r: Result<Option<LedgerRun>, ArgError>)
        ensures
            cmd_status(r) == ledger_run_cmd_res(mview(*matches)),
            r matches Result::Ok(Option::Some(c)) ==> ledger_run_cmd_matches(c, mview(*matches)),
    {
        match matches.subcommand_matches("run") {
            Option::None => Result::Ok(Option::None),
            Option::Some(inner) => Result::Ok(Option::Some(LedgerRun)),
        }
    }

    /// The declarative definition of this command.
    pub fn def() -> (r: CmdDef)
        ensures
            cview(r) == ledger_run_def(),
    {
        CmdDef::leaf("run", "Run the ledger node.")
    }
}


/// Delete the ledger node's and the consensus node's storage data.
pub struct LedgerReset;

/// What parsing this command yields, with the payload forgotten.
pub open spec fn ledger_reset_cmd_res(m: MatchesV) -> Result<Option<()>, ArgFail> {
    match sub_of(m, "reset"@) {
        Option::None => Result::Ok(Option::None),
        Option::Some(i) => Result::Ok(Option::Some(())),
    }
}

/// Whether the parsed command corresponds to the matched input.
pub open spec fn ledger_reset_cmd_matches(c: LedgerReset, m: MatchesV) -> bool {
    sub_of(m, "reset"@) is Some
}

/// The declarative definition of this command.
pub open spec fn ledger_reset_def() -> CmdDefV {
    CmdDefV {
        token: "reset"@,
        args: Seq::<ArgSpecV>::empty(),
        constraints: Seq::<ConstraintV>::empty(),
        children: Seq::<CmdDefV>::empty(),
    }
}

impl LedgerReset {
    /// Parses this command out of the matched input, if its token was
    /// selected.
    pub fn parse(matches: &Matches) -> (r: Result<Option<LedgerReset>, ArgError>)
        ensures
            cmd_status(r) == ledger_reset_cmd_res(mview(*matches)),
            r matches Result::Ok(Option::Some(c)) ==> ledger_reset_cmd_matches(c, mview(*matches)),
    {
        match matches.subcommand_matches("reset") {
            Option::None => Result::Ok(Option::None),
            Option::Some(inner) => Result::Ok(Option::Some(LedgerReset)),
        }
    }

    /// The declarative definition of this command.
    pub fn def() -> (r: CmdDef)
        ensures
            cview(r) == ledger_reset_def(),
    {
        CmdDef::leaf("reset", "Delete the ledger node's and the consensus node's storage data.")
    }
}


/// Generate the default configuration file.
pub struct ConfigGen;

/// What parsing this command yields, with the payload forgotten.
pub open spec fn config_gen_cmd_res(m: MatchesV) -> Result<Option<()>, ArgFail> {
    match sub_of(m, "gen"@) {
        Option::None => Result::Ok(Option::None),
        Option::Some(i) => Result::Ok(Option::Some(())),
    }
}

/// Whether the parsed command corresponds to the matched input.
pub open spec fn config_gen_cmd_matches(c: ConfigGen, m: MatchesV) -> bool {
    sub_of(m, "gen"@) is Some
}

/// The declarative definition of this command.
pub open spec fn config_gen_def() -> CmdDefV {
    CmdDefV {
        token: "gen"@,
        args: Seq::<ArgSpecV>::empty(),
        constraints: Seq::<ConstraintV>::empty(),
        children: Seq::<CmdDefV>::empty(),
    }
}

impl ConfigGen {
    /// Parses this command out of the matched input, if its token was
    /// selected.
    pub fn parse(matches: &Matches) -> (r: Result<Option<ConfigGen>, ArgError>)
        ensures
            cmd_status(r) == config_gen_cmd_res(mview(*matches)),
            r matches Result::Ok(Option::Some(c)) ==> config_gen_cmd_matches(c, mview(*matches)),
    {
        match matches.subcommand_matches("gen") {
            Option::None => Result::Ok(Option::None),
            Option::Some(inner) => Result::Ok(Option::Some(ConfigGen)),
        }
    }

    /// The declarative definition of this command.
    pub fn def() -> (r: CmdDef)
        ensures
            cview(r) == config_gen_def(),
    {
        CmdDef::leaf("gen", "Generate the default configuration file.")
    }
}


/// Query the result of a transaction.
pub struct QueryResult(pub args::QueryResult);

/// What parsing this command yields, with the payload forgotten.
pub open spec fn query_result_cmd_res(m: MatchesV) -> Result<Option<()>, ArgFail> {
    match sub_of(m, "tx-result"@) {
        Option::None => Result::Ok(Option::None),
        Option::Some(i) => match args::query_result_res(i) {
            Result::Ok(u) => Result::Ok(Option::Some(())),
            Result::Err(e) => Result::Err(e),
        },
    }
}

/// Whether the parsed command holds exactly the resolved arguments.
pub open spec fn query_result_cmd_matches(c: QueryResult, m: MatchesV) -> bool {
    sub_of(m, "tx-result"@) is Some && args::query_result_matches(c.0, sub_of(m, "tx-result"@)->Some_0)
}

/// The declarative definition of this command.
pub open spec fn query_result_def() -> CmdDefV {
    CmdDefV {
        token: "tx-result"@,
        args: args::query_result_args(),
        constraints: args::query_result_constraints(),
        children: Seq::<CmdDefV>::empty(),
    }
}

impl QueryResult {
    /// Parses this command out of the matched input, if its token was
    /// selected.
    pub fn parse(matches: &Matches) -> (r: Result<Option<QueryResult>, ArgError>)
        ensures
            cmd_status(r) == query_result_cmd_res(mview(*matches)),
            r matches Result::Ok(Option::Some(c)) ==> query_result_cmd_matches(c, mview(*matches)),
    {
        match matches.subcommand_matches("tx-result") {
            Option::None => Result::Ok(Option::None),
            Option::Some(inner) => match args::QueryResult::parse(inner) {
                Result::Ok(a) => Result::Ok(Option::Some(QueryResult(a))),
                Result::Err(e) => Result::Err(e),
            },
        }
    }

    /// The declarative definition of this command.
    pub fn def() -> (r: CmdDef)
        ensures
            cview(r) == query_result_def(),
    {
        let r = args::QueryResult::def(CmdDef::leaf("tx-result", "Query the result of a transaction."));
        proof {
            assert(cview(r).args =~= args::query_result_args());
            assert(cview(r).constraints =~= args::query_result_constraints());
        }
        r
    }
}


/// Query proposals.
pub struct QueryProposal(pub args::QueryProposal);

/// What parsing this command yields, with the payload forgotten.
pub open spec fn query_proposal_cmd_res(m: MatchesV) -> Result<Option<()>, ArgFail> {
    match sub_of(m, "query-proposal"@) {
        Option::None => Result::Ok(Option::None),
        Option::Some(i) => match args::query_proposal_res(i) {
            Result::Ok(u) => Result::Ok(Option::Some(())),
            Result::Err(e) => Result::Err(e),
        },
    }
}

/// Whether the parsed command holds exactly the resolved arguments.
pub open spec fn query_proposal_cmd_matches(c: QueryProposal, m: MatchesV) -> bool {
    sub_of(m, "query-proposal"@) is Some && args::query_proposal_matches(c.0, sub_of(m, "query-proposal"@)->Some_0)
}

/// The declarative definition of this command.
pub open spec fn query_proposal_def() -> CmdDefV {
    CmdDefV {
        token: "query-proposal"@,
        args: args::query_proposal_args(),
        constraints: args::query_proposal_constraints(),
        children: Seq::<CmdDefV>::empty(),
    }
}

impl QueryProposal {
    /// Parses this command out of the matched input, if its token was
    /// selected.
    pub fn parse(matches: &Matches) -> (r: Result<Option<QueryProposal>, ArgError>)
        ensures
            cmd_status(r) == query_proposal_cmd_res(mview(*matches)),
            r matches Result::Ok(Option::Some(c)) ==> query_proposal_cmd_matches(c, mview(*matches)),
    {
        match matches.subcommand_matches("query-proposal") {
            Option::None => Result::Ok(Option::None),
            Option::Some(inner) => match args::QueryProposal::parse(inner) {
                Result::Ok(a) => Result::Ok(Option::Some(QueryProposal(a))),
                Result::Err(e) => Result::Err(e),
            },
        }
    }

    /// The declarative definition of this command.
    pub fn def() -> (r: CmdDef)
        ensures
            cview(r) == query_proposal_def(),
    {
        let r = args::QueryProposal::def(CmdDef::leaf("query-proposal", "Query proposals."));
        proof {
            assert(cview(r).args =~= args::query_proposal_args());
            assert(cview(r).constraints =~= args::query_proposal_constraints());
        }
        r
    }
}


/// Query proposal results.
pub struct QueryProposalResult(pub args::QueryProposalResult);

/// What parsing this command yields, with the payload forgotten.
pub open spec fn query_proposal_result_cmd_res(m: MatchesV) -> Result<Option<()>, ArgFail> {
    match sub_of(m, "query-proposal-result"@) {
        Option::None => Result::Ok(Option::None),
        Option::Some(i) => match args::query_proposal_result_res(i) {
            Result::Ok(u) => Result::Ok(Option::Some(())),
            Result::Err(e) => Result::Err(e),
        },
    }
}

/// Whether the parsed command holds exactly the resolved arguments.
pub open spec fn query_proposal_result_cmd_matches(c: QueryProposalResult, m: MatchesV) -> bool {
    sub_of(m, "query-proposal-result"@) is Some && args::query_proposal_result_matches(c.0, sub_of(m, "query-proposal-result"@)->Some_0)
}

/// The declarative definition of this command.
pub open spec fn query_proposal_result_def() -> CmdDefV {
    CmdDefV {
        token: "query-proposal-result"@,
        args: args::query_proposal_result_args(),
        constraints: args::query_proposal_result_constraints(),
        children: Seq::<CmdDefV>::empty(),
    }
}

impl QueryProposalResult {
    /// Parses this command out of the matched input, if its token was
    /// selected.
    pub fn parse(matches: &Matches) -> (r: Result<Option<QueryProposalResult>, ArgError>)
        ensures
            cmd_status(r) == query_proposal_result_cmd_res(mview(*matches)),
            r matches Result::Ok(Option::Some(c)) ==> query_proposal_result_cmd_matches(c, mview(*matches)),
    {
        match matches.subcommand_matches("query-proposal-result") {
            Option::None => Result::Ok(Option::None),
            Option::Some(inner) => match args::QueryProposalResult::parse(inner) {
                Result::Ok(a) => Result::Ok(Option::Some(QueryProposalResult(a))),
                Result::Err(e) => Result::Err(e),
            },
        }
    }

    /// The declarative definition of this command.
    pub fn def() -> (r: CmdDef)
        ensures
            cview(r) == query_proposal_result_def(),
    {
        let r = args::QueryProposalResult::def(CmdDef::leaf("query-proposal-result", "Query proposal results."));
        proof {
            assert(cview(r).args =~= args::query_proposal_result_args());
            assert(cview(r).constraints =~= args::query_proposal_result_constraints());
        }
        r
    }
}


/// Query protocol parameters.
pub struct QueryProtocolParameters(pub args::QueryProtocolParameters);

/// What parsing this command yields, with the payload forgotten.
pub open spec fn query_protocol_parameters_cmd_res(m: MatchesV) -> Result<Option<()>, ArgFail> {
    match sub_of(m, "query-protocol-parameters"@) {
        Option::None => Result::Ok(Option::None),
        Option::Some(i) => match args::query_protocol_parameters_res(i) {
            Result::Ok(u) => Result::Ok(Option::Some(())),
            Result::Err(e) => Result::Err(e),
        },
    }
}

/// Whether the parsed command holds exactly the resolved arguments.
pub open spec fn query_protocol_parameters_cmd_matches(c: QueryProtocolParameters, m: MatchesV) -> bool {
    sub_of(m, "query-protocol-parameters"@) is Some && args::query_protocol_parameters_matches(c.0, sub_of(m, "query-protocol-parameters"@)->Some_0)
}

/// The declarative definition of this command.
pub open spec fn query_protocol_parameters_def() -> CmdDefV {
    CmdDefV {
        token: "query-protocol-parameters"@,
        args: args::query_protocol_parameters_args(),
        constraints: args::query_protocol_parameters_constraints(),
        children: Seq::<CmdDefV>::empty(),
    }
}

impl QueryProtocolParameters {
    /// Parses this command out of the matched input, if its token was
    /// selected.
    pub fn parse(matches: &Matches) -> (r: Result<Option<QueryProtocolParameters>, ArgError>)
        ensures
            cmd_status(r) == query_protocol_parameters_cmd_res(mview(*matches)),
            r matches Result::Ok(Option::Some(c)) ==> query_protocol_parameters_cmd_matches(c, mview(*matches)),
    {
        match matches.subcommand_matches("query-protocol-parameters") {
            Option::None => Result::Ok(Option::None),
            Option::Some(inner) => match args::QueryProtocolParameters::parse(inner) {
                Result::Ok(a) => Result::Ok(Option::Some(QueryProtocolParameters(a))),
                Result::Err(e) => Result::Err(e),
            },
        }
    }

    /// The declarative definition of this command.
    pub fn def() -> (r: CmdDef)
        ensures
            cview(r) == query_protocol_parameters_def(),
    {
        let r = args::QueryProtocolParameters::def(CmdDef::leaf("query-protocol-parameters", "Query protocol parameters."));
        proof {
            assert(cview(r).args =~= args::query_protocol_parameters_args());
            assert(cview(r).constraints =~= args::query_protocol_parameters_constraints());
        }
        r
    }
}


/// Send a transaction with custom WASM code.
pub struct TxCustom(pub args::TxCustom);

/// What parsing this command yields, with the payload forgotten.
pub open spec fn tx_custom_cmd_res(m: MatchesV) -> Result<Option<()>, ArgFail> {
    match sub_of(m, "tx"@) {
        Option::None => Result::Ok(Option::None),
        Option::Some(i) => match args::tx_custom_res(i) {
            Result::Ok(u) => Result::Ok(Option::Some(())),
            Result::Err(e) => Result::Err(e),
        },
    }
}

/// Whether the parsed command holds exactly the resolved arguments.
pub open spec fn tx_custom_cmd_matches(c: TxCustom, m: MatchesV) -> bool {
    sub_of(m, "tx"@) is Some && args::tx_custom_matches(c.0, sub_of(m, "tx"@)->Some_0)
}

/// The declarative definition of this command.
pub open spec fn tx_custom_def() -> CmdDefV {
    CmdDefV {
        token: "tx"@,
        args: args::tx_custom_args(),
        constraints: args::tx_custom_constraints(),
        children: Seq::<CmdDefV>::empty(),
    }
}

impl TxCustom {
    /// Parses this command out of the matched input, if its token was
    /// selected.
    pub fn parse(matches: &Matches) -> (r: Result<Option<TxCustom>, ArgError>)
        ensures
            cmd_status(r) == tx_custom_cmd_res(mview(*matches)),
            r matches Result::Ok(Option::Some(c)) ==> tx_custom_cmd_matches(c, mview(*matches)),
    {
        match matches.subcommand_matches("tx") {
            Option::None => Result::Ok(Option::None),
            Option::Some(inner) => match args::TxCustom::parse(inner) {
                Result::Ok(a) => Result::Ok(Option::Some(TxCustom(a))),
                Result::Err(e) => Result::Err(e),
            },
        }
    }

    /// The declarative definition of this command.
    pub fn def() -> (r: CmdDef)
        ensures
            cview(r) == tx_custom_def(),
    {
        let r = args::TxCustom::def(CmdDef::leaf("tx", "Send a transaction with custom WASM code."));
        proof {
            assert(cview(r).args =~= args::tx_custom_args());
            assert(cview(r).constraints =~= args::tx_custom_constraints());
        }
        r
    }
}


/// Send a signed transfer transaction.
pub struct TxTransfer(pub args::TxTransfer);

/// What parsing this command yields, with the payload forgotten.
pub open spec fn tx_transfer_cmd_res(m: MatchesV) -> Result<Option<()>, ArgFail> {
    match sub_of(m, "transfer"@) {
        Option::None => Result::Ok(Option::None),
        Option::Some(i) => match args::tx_transfer_res(i) {
            Result::Ok(u) => Result::Ok(Option::Some(())),
            Result::Err(e) => Result::Err(e),
        },
    }
}

/// Whether the parsed command holds exactly the resolved arguments.
pub open spec fn tx_transfer_cmd_matches(c: TxTransfer, m: MatchesV) -> bool {
    sub_of(m, "transfer"@) is Some && args::tx_transfer_matches(c.0, sub_of(m, "transfer"@)->Some_0)
}

/// The declarative definition of this command.
pub open spec fn tx_transfer_def() -> CmdDefV {
    CmdDefV {
        token: "transfer"@,
        args: args::tx_transfer_args(),
        constraints: args::tx_transfer_constraints(),
        children: Seq::<CmdDefV>::empty(),
    }
}

impl TxTransfer {
    /// Parses this command out of the matched input, if its token was
    /// selected.
    pub fn parse(matches: &Matches) -> (r: Result<Option<TxTransfer>, ArgError>)
        ensures
            cmd_status(r) == tx_transfer_cmd_res(mview(*matches)),
            r matches Result::Ok(Option::Some(c)) ==> tx_transfer_cmd_matches(c, mview(*matches)),
    {
        match matches.subcommand_matches("transfer") {
            Option::None => Result::Ok(Option::None),
            Option::Some(inner) => match args::TxTransfer::parse(inner) {
                Result::Ok(a) => Result::Ok(Option::Some(TxTransfer(a))),
                Result::Err(e) => Result::Err(e),
            },
        }
    }

    /// The declarative definition of this command.
    pub fn def() -> (r: CmdDef)
        ensures
            cview(r) == tx_transfer_def(),
    {
        let r = args::TxTransfer::def(CmdDef::leaf("transfer", "Send a signed transfer transaction."));
        proof {
            assert(cview(r).args =~= args::tx_transfer_args());
            assert(cview(r).constraints =~= args::tx_transfer_constraints());
        }
        r
    }
}


/// Send a signed transaction to update an account's validity predicate.
pub struct TxUpdateVp(pub args::TxUpdateVp);

/// What parsing this command yields, with the payload forgotten.
pub open spec fn tx_update_vp_cmd_res(m: MatchesV) -> Result<Option<()>, ArgFail> {
    match sub_of(m, "update"@) {
        Option::None => Result::Ok(Option::None),
        Option::Some(i) => match args::tx_update_vp_res(i) {
            Result::Ok(u) => Result::Ok(Option::Some(())),
            Result::Err(e) => Result::Err(e),
        },
    }
}

/// Whether the parsed command holds exactly the resolved arguments.
pub open spec fn tx_update_vp_cmd_matches(c: TxUpdateVp, m: MatchesV) -> bool {
    sub_of(m, "update"@) is Some && args::tx_update_vp_matches(c.0, sub_of(m, "update"@)->Some_0)
}

/// The declarative definition of this command.
pub open spec fn tx_update_vp_def() -> CmdDefV {
    CmdDefV {
        token: "update"@,
        args: args::tx_update_vp_args(),
        constraints: args::tx_update_vp_constraints(),
        children: Seq::<CmdDefV>::empty(),
    }
}

impl TxUpdateVp {
    /// Parses this command out of the matched input, if its token was
    /// selected.
    pub fn parse(matches: &Matches) -> (r: Result<Option<TxUpdateVp>, ArgError>)
        ensures
            cmd_status(r) == tx_update_vp_cmd_res(mview(*matches)),
            r matches Result::Ok(Option::Some(c)) ==> tx_update_vp_cmd_matches(c, mview(*matches)),
    {
        match matches.subcommand_matches("update") {
            Option::None => Result::Ok(Option::None),
            Option::Some(inner) => match args::TxUpdateVp::parse(inner) {
                Result::Ok(a) => Result::Ok(Option::Some(TxUpdateVp(a))),
                Result::Err(e) => Result::Err(e),
            },
        }
    }

    /// The declarative definition of this command.
    pub fn def() -> (r: CmdDef)
        ensures
            cview(r) == tx_update_vp_def(),
    {
        let r = args::TxUpdateVp::def(CmdDef::leaf("update", "Send a signed transaction to update an account's validity predicate."));
        proof {
            assert(cview(r).args =~= args::tx_update_vp_args());
            assert(cview(r).constraints =~= args::tx_update_vp_constraints());
        }
        r
    }
}


/// Send a signed transaction to create a new established account.
pub struct TxInitAccount(pub args::TxInitAccount);

/// What parsing this command yields, with the payload forgotten.
pub open spec fn tx_init_account_cmd_res(m: MatchesV) -> Result<Option<()>, ArgFail> {
    match sub_of(m, "init-account"@) {
        Option::None => Result::Ok(Option::None),
        Option::Some(i) => match args::tx_init_account_res(i) {
            Result::Ok(u) => Result::Ok(Option::Some(())),
            Result::Err(e) => Result::Err(e),
        },
    }
}

/// Whether the parsed command holds exactly the resolved arguments.
pub open spec fn tx_init_account_cmd_matches(c: TxInitAccount, m: MatchesV) -> bool {
    sub_of(m, "init-account"@) is Some && args::tx_init_account_matches(c.0, sub_of(m, "init-account"@)->Some_0)
}

/// The declarative definition of this command.
pub open spec fn tx_init_account_def() -> CmdDefV {
    CmdDefV {
        token: "init-account"@,
        args: args::tx_init_account_args(),
        constraints: args::tx_init_account_constraints(),
        children: Seq::<CmdDefV>::empty(),
    }
}

impl TxInitAccount {
    /// Parses this command out of the matched input, if its token was
    /// selected.
    pub fn parse(matches: &Matches) -> (r: Result<Option<TxInitAccount>, ArgError>)
        ensures
            cmd_status(r) == tx_init_account_cmd_res(mview(*matches)),
            r matches Result::Ok(Option::Some(c)) ==> tx_init_account_cmd_matches(c, mview(*matches)),
    {
        match matches.subcommand_matches("init-account") {
            Option::None => Result::Ok(Option::None),
            Option::Some(inner) => match args::TxInitAccount::parse(inner) {
                Result::Ok(a) => Result::Ok(Option::Some(TxInitAccount(a))),
                Result::Err(e) => Result::Err(e),
            },
        }
    }

    /// The declarative definition of this command.
    pub fn def() -> (r: CmdDef)
        ensures
            cview(r) == tx_init_account_def(),
    {
        let r = args::TxInitAccount::def(CmdDef::leaf("init-account", "Send a signed transaction to create a new established account."));
        proof {
            assert(cview(r).args =~= args::tx_init_account_args());
            assert(cview(r).constraints =~= args::tx_init_account_constraints());
        }
        r
    }
}


/// Send a signed transaction to create a new validator account.
pub struct TxInitValidator(pub args::TxInitValidator);

/// What parsing this command yields, with the payload forgotten.
pub open spec fn tx_init_validator_cmd_res(m: MatchesV) -> Result<Option<()>, ArgFail> {
    match sub_of(m, "init-validator"@) {
        Option::None => Result::Ok(Option::None),
        Option::Some(i) => match args::tx_init_validator_res(i) {
            Result::Ok(u) => Result::Ok(Option::Some(())),
            Result::Err(e) => Result::Err(e),
        },
    }
}

/// Whether the parsed command holds exactly the resolved arguments.
pub open spec fn tx_init_validator_cmd_matches(c: TxInitValidator, m: MatchesV) -> bool {
    sub_of(m, "init-validator"@) is Some && args::tx_init_validator_matches(c.0, sub_of(m, "init-validator"@)->Some_0)
}

/// The declarative definition of this command.
pub open spec fn tx_init_validator_def() -> CmdDefV {
    CmdDefV {
        token: "init-validator"@,
        args: args::tx_init_validator_args(),
        constraints: args::tx_init_validator_constraints(),
        children: Seq::<CmdDefV>::empty(),
    }
}

impl TxInitValidator {
    /// Parses this command out of the matched input, if its token was
    /// selected.
    pub fn parse(matches: &Matches) -> (r: Result<Option<TxInitValidator>, ArgError>)
        ensures
            cmd_status(r) == tx_init_validator_cmd_res(mview(*matches)),
            r matches Result::Ok(Option::Some(c)) ==> tx_init_validator_cmd_matches(c, mview(*matches)),
    {
        match matches.subcommand_matches("init-validator") {
            Option::None => Result::Ok(Option::None),
            Option::Some(inner) => match args::TxInitValidator::parse(inner) {
                Result::Ok(a) => Result::Ok(Option::Some(TxInitValidator(a))),
                Result::Err(e) => Result::Err(e),
            },
        }
    }

    /// The declarative definition of this command.
    pub fn def() -> (r: CmdDef)
        ensures
            cview(r) == tx_init_validator_def(),
    {
        let r = args::TxInitValidator::def(CmdDef::leaf("init-validator", "Send a signed transaction to create a new validator account."));
        proof {
            assert(cview(r).args =~= args::tx_init_validator_args());
            assert(cview(r).constraints =~= args::tx_init_validator_constraints());
        }
        r
    }
}


/// Bond tokens in the proof-of-stake system.
pub struct Bond(pub args::Bond);

/// What parsing this command yields, with the payload forgotten.
pub open spec fn bond_cmd_res(m: MatchesV) -> Result<Option<()>, ArgFail> {
    match sub_of(m, "bond"@) {
        Option::None => Result::Ok(Option::None),
        Option::Some(i) => match args::bond_res(i) {
            Result::Ok(u) => Result::Ok(Option::Some(())),
            Result::Err(e) => Result::Err(e),
        },
    }
}

/// Whether the parsed command holds exactly the resolved arguments.
pub open spec fn bond_cmd_matches(c: Bond, m: MatchesV) -> bool {
    sub_of(m, "bond"@) is Some && args::bond_matches(c.0, sub_of(m, "bond"@)->Some_0)
}

/// The declarative definition of this command.
pub open spec fn bond_def() -> CmdDefV {
    CmdDefV {
        token: "bond"@,
        args: args::bond_args(),
        constraints: args::bond_constraints(),
        children: Seq::<CmdDefV>::empty(),
    }
}

impl Bond {
    /// Parses this command out of the matched input, if its token was
    /// selected.
    pub fn parse(matches: &Matches) -> (r: Result<Option<Bond>, ArgError>)
        ensures
            cmd_status(r) == bond_cmd_res(mview(*matches)),
            r matches Result::Ok(Option::Some(c)) ==> bond_cmd_matches(c, mview(*matches)),
    {
        match matches.subcommand_matches("bond") {
            Option::None => Result::Ok(Option::None),
            Option::Some(inner) => match args::Bond::parse(inner) {
                Result::Ok(a) => Result::Ok(Option::Some(Bond(a))),
                Result::Err(e) => Result::Err(e),
            },
        }
    }

    /// The declarative definition of this command.
    pub fn def() -> (r: CmdDef)
        ensures
            cview(r) == bond_def(),
    {
        let r = args::Bond::def(CmdDef::leaf("bond", "Bond tokens in the proof-of-stake system."));
        proof {
            assert(cview(r).args =~= args::bond_args());
            assert(cview(r).constraints =~= args::bond_constraints());
        }
        r
    }
}


/// Unbond tokens from a proof-of-stake bond.
pub struct Unbond(pub args::Unbond);

/// What parsing this command yields, with the payload forgotten.
pub open spec fn unbond_cmd_res(m: MatchesV) -> Result<Option<()>, ArgFail> {
    match sub_of(m, "unbond"@) {
        Option::None => Result::Ok(Option::None),
        Option::Some(i) => match args::unbond_res(i) {
            Result::Ok(u) => Result::Ok(Option::Some(())),
            Result::Err(e) => Result::Err(e),
        },
    }
}

/// Whether the parsed command holds exactly the resolved arguments.
pub open spec fn unbond_cmd_matches(c: Unbond, m: MatchesV) -> bool {
    sub_of(m, "unbond"@) is Some && args::unbond_matches(c.0, sub_of(m, "unbond"@)->Some_0)
}

/// The declarative definition of this command.
pub open spec fn unbond_def() -> CmdDefV {
    CmdDefV {
        token: "unbond"@,
        args: args::unbond_args(),
        constraints: args::unbond_constraints(),
        children: Seq::<CmdDefV>::empty(),
    }
}

impl Unbond {
    /// Parses this command out of the matched input, if its token was
    /// selected.
    pub fn parse(matches: &Matches) -> (r: Result<Option<Unbond>, ArgError>)
        ensures
            cmd_status(r) == unbond_cmd_res(mview(*matches)),
            r matches Result::Ok(Option::Some(c)) ==> unbond_cmd_matches(c, mview(*matches)),
    {
        match matches.subcommand_matches("unbond") {
            Option::None => Result::Ok(Option::None),
            Option::Some(inner) => match args::Unbond::parse(inner) {
                Result::Ok(a) => Result::Ok(Option::Some(Unbond(a))),
                Result::Err(e) => Result::Err(e),
            },
        }
    }

    /// The declarative definition of this command.
    pub fn def() -> (r: CmdDef)
        ensures
            cview(r) == unbond_def(),
    {
        let r = args::Unbond::def(CmdDef::leaf("unbond", "Unbond tokens from a proof-of-stake bond."));
        proof {
            assert(cview(r).args =~= args::unbond_args());
            assert(cview(r).constraints =~= args::unbond_constraints());
        }
        r
    }
}


/// Withdraw tokens from a previously unbonded proof-of-stake bond.
pub struct Withdraw(pub args::Withdraw);

/// What parsing this command yields, with the payload forgotten.
pub open spec fn withdraw_cmd_res(m: MatchesV) -> Result<Option<()>, ArgFail> {
    match sub_of(m, "withdraw"@) {
        Option::None => Result::Ok(Option::None),
        Option::Some(i) => match args::withdraw_res(i) {
            Result::Ok(u) => Result::Ok(Option::Some(())),
            Result::Err(e) => Result::Err(e),
        },
    }
}

/// Whether the parsed command holds exactly the resolved arguments.
pub open spec fn withdraw_cmd_matches(c: Withdraw, m: MatchesV) -> bool {
    sub_of(m, "withdraw"@) is Some && args::withdraw_matches(c.0, sub_of(m, "withdraw"@)->Some_0)
}

/// The declarative definition of this command.
pub open spec fn withdraw_def() -> CmdDefV {
    CmdDefV {
        token: "withdraw"@,
        args: args::withdraw_args(),
        constraints: args::withdraw_constraints(),
        children: Seq::<CmdDefV>::empty(),
    }
}

impl Withdraw {
    /// Parses this command out of the matched input, if its token was
    /// selected.
    pub fn parse(matches: &Matches) -> (r: Result<Option<Withdraw>, ArgError>)
        ensures
            cmd_status(r) == withdraw_cmd_res(mview(*matches)),
            r matches Result::Ok(Option::Some(c)) ==> withdraw_cmd_matches(c, mview(*matches)),
    {
        match matches.subcommand_matches("withdraw") {
            Option::None => Result::Ok(Option::None),
            Option::Some(inner) => match args::Withdraw::parse(inner) {
                Result::Ok(a) => Result::Ok(Option::Some(Withdraw(a))),
                Result::Err(e) => Result::Err(e),
            },
        }
    }

    /// The declarative definition of this command.
    pub fn def() -> (r: CmdDef)
        ensures
            cview(r) == withdraw_def(),
    {
        let r = args::Withdraw::def(CmdDef::leaf("withdraw", "Withdraw tokens from a previously unbonded proof-of-stake bond."));
        proof {
            assert(cview(r).args =~= args::withdraw_args());
            assert(cview(r).constraints =~= args::withdraw_constraints());
        }
        r
    }
}


/// Query the epoch of the last committed block.
pub struct QueryEpoch(pub args::Query);

/// What parsing this command yields, with the payload forgotten.
pub open spec fn query_epoch_cmd_res(m: MatchesV) -> Result<Option<()>, ArgFail> {
    match sub_of(m, "epoch"@) {
        Option::None => Result::Ok(Option::None),
        Option::Some(i) => match args::query_res(i) {
            Result::Ok(u) => Result::Ok(Option::Some(())),
            Result::Err(e) => Result::Err(e),
        },
    }
}

/// Whether the parsed command holds exactly the resolved arguments.
pub open spec fn query_epoch_cmd_matches(c: QueryEpoch, m: MatchesV) -> bool {
    sub_of(m, "epoch"@) is Some && args::query_matches(c.0, sub_of(m, "epoch"@)->Some_0)
}

/// The declarative definition of this command.
pub open spec fn query_epoch_def() -> CmdDefV {
    CmdDefV {
        token: "epoch"@,
        args: args::query_args(),
        constraints: args::query_constraints(),
        children: Seq::<CmdDefV>::empty(),
    }
}

impl QueryEpoch {
    /// Parses this command out of the matched input, if its token was
    /// selected.
    pub fn parse(matches: &Matches) -> (r: Result<Option<QueryEpoch>, ArgError>)
        ensures
            cmd_status(r) == query_epoch_cmd_res(mview(*matches)),
            r matches Result::Ok(Option::Some(c)) ==> query_epoch_cmd_matches(c, mview(*matches)),
    {
        match matches.subcommand_matches("epoch") {
            Option::None => Result::Ok(Option::None),
            Option::Some(inner) => match args::Query::parse(inner) {
                Result::Ok(a) => Result::Ok(Option::Some(QueryEpoch(a))),
                Result::Err(e) => Result::Err(e),
            },
        }
    }

    /// The declarative definition of this command.
    pub fn def() -> (r: CmdDef)
        ensures
            cview(r) == query_epoch_def(),
    {
        let r = args::Query::def(CmdDef::leaf("epoch", "Query the epoch of the last committed block."));
        proof {
            assert(cview(r).args =~= args::query_args());
            assert(cview(r).constraints =~= args::query_constraints());
        }
        r
    }
}


/// Query the last committed block.
pub struct QueryBlock(pub args::Query);

/// What parsing this command yields, with the payload forgotten.
pub open spec fn query_block_cmd_res(m: MatchesV) -> Result<Option<()>, ArgFail> {
    match sub_of(m, "block"@) {
        Option::None => Result::Ok(Option::None),
        Option::Some(i) => match args::query_res(i) {
            Result::Ok(u) => Result::Ok(Option::Some(())),
            Result::Err(e) => Result::Err(e),
        },
    }
}

/// Whether the parsed command holds exactly the resolved arguments.
pub open spec fn query_block_cmd_matches(c: QueryBlock, m: MatchesV) -> bool {
    sub_of(m, "block"@) is Some && args::query_matches(c.0, sub_of(m, "block"@)->Some_0)
}

/// The declarative definition of this command.
pub open spec fn query_block_def() -> CmdDefV {
    CmdDefV {
        token: "block"@,
        args: args::query_args(),
        constraints: args::query_constraints(),
        children: Seq::<CmdDefV>::empty(),
    }
}

impl QueryBlock {
    /// Parses this command out of the matched input, if its token was
    /// selected.
    pub fn parse(matches: &Matches) -> (r: Result<Option<QueryBlock>, ArgError>)
        ensures
            cmd_status(r) == query_block_cmd_res(mview(*matches)),
            r matches Result::Ok(Option::Some(c)) ==> query_block_cmd_matches(c, mview(*matches)),
    {
        match matches.subcommand_matches("block") {
            Option::None => Result::Ok(Option::None),
            Option::Some(inner) => match args::Query::parse(inner) {
                Result::Ok(a) => Result::Ok(Option::Some(QueryBlock(a))),
                Result::Err(e) => Result::Err(e),
            },
        }
    }

    /// The declarative definition of this command.
    pub fn def() -> (r: CmdDef)
        ensures
            cview(r) == query_block_def(),
    {
        let r = args::Query::def(CmdDef::leaf("block", "Query the last committed block."));
        proof {
            assert(cview(r).args =~= args::query_args());
            assert(cview(r).constraints =~= args::query_constraints());
        }
        r
    }
}


/// Query balances of tokens.
pub struct QueryBalance(pub args::QueryBalance);

/// What parsing this command yields, with the payload forgotten.
pub open spec fn query_balance_cmd_res(m: MatchesV) -> Result<Option<()>, ArgFail> {
    match sub_of(m, "balance"@) {
        Option::None => Result::Ok(Option::None),
        Option::Some(i) => match args::query_balance_res(i) {
            Result::Ok(u) => Result::Ok(Option::Some(())),
            Result::Err(e) => Result::Err(e),
        },
    }
}

/// Whether the parsed command holds exactly the resolved arguments.
pub open spec fn query_balance_cmd_matches(c: QueryBalance, m: MatchesV) -> bool {
    sub_of(m, "balance"@) is Some && args::query_balance_matches(c.0, sub_of(m, "balance"@)->Some_0)
}

/// The declarative definition of this command.
pub open spec fn query_balance_def() -> CmdDefV {
    CmdDefV {
        token: "balance"@,
        args: args::query_balance_args(),
        constraints: args::query_balance_constraints(),
        children: Seq::<CmdDefV>::empty(),
    }
}

impl QueryBalance {
    /// Parses this command out of the matched input, if its token was
    /// selected.
    pub fn parse(matches: &Matches) -> (r: Result<Option<QueryBalance>, ArgError>)
        ensures
            cmd_status(r) == query_balance_cmd_res(mview(*matches)),
            r matches Result::Ok(Option::Some(c)) ==> query_balance_cmd_matches(c, mview(*matches)),
    {
        match matches.subcommand_matches("balance") {
            Option::None => Result::Ok(Option::None),
            Option::Some(inner) => match args::QueryBalance::parse(inner) {
                Result::Ok(a) => Result::Ok(Option::Some(QueryBalance(a))),
                Result::Err(e) => Result::Err(e),
            },
        }
    }

    /// The declarative definition of this command.
    pub fn def() -> (r: CmdDef)
        ensures
            cview(r) == query_balance_def(),
    {
        let r = args::QueryBalance::def(CmdDef::leaf("balance", "Query balances of tokens."));
        proof {
            assert(cview(r).args =~= args::query_balance_args());
            assert(cview(r).constraints =~= args::query_balance_constraints());
        }
        r
    }
}


/// Query proof-of-stake bonds.
pub struct QueryBonds(pub args::QueryBonds);

/// What parsing this command yields, with the payload forgotten.
pub open spec fn query_bonds_cmd_res(m: MatchesV) -> Result<Option<()>, ArgFail> {
    match sub_of(m, "bonds"@) {
        Option::None => Result::Ok(Option::None),
        Option::Some(i) => match args::query_bonds_res(i) {
            Result::Ok(u) => Result::Ok(Option::Some(())),
            Result::Err(e) => Result::Err(e),
        },
    }
}

/// Whether the parsed command holds exactly the resolved arguments.
pub open spec fn query_bonds_cmd_matches(c: QueryBonds, m: MatchesV) -> bool {
    sub_of(m, "bonds"@) is Some && args::query_bonds_matches(c.0, sub_of(m, "bonds"@)->Some_0)
}

/// The declarative definition of this command.
pub open spec fn query_bonds_def() -> CmdDefV {
    CmdDefV {
        token: "bonds"@,
        args: args::query_bonds_args(),
        constraints: args::query_bonds_constraints(),
        children: Seq::<CmdDefV>::empty(),
    }
}

impl QueryBonds {
    /// Parses this command out of the matched input, if its token was
    /// selected.
    pub fn parse(matches: &Matches) -> (r: Result<Option<QueryBonds>, ArgError>)
        ensures
            cmd_status(r) == query_bonds_cmd_res(mview(*matches)),
            r matches Result::Ok(Option::Some(c)) ==> query_bonds_cmd_matches(c, mview(*matches)),
    {
        match matches.subcommand_matches("bonds") {
            Option::None => Result::Ok(Option::None),
            Option::Some(inner) => match args::QueryBonds::parse(inner) {
                Result::Ok(a) => Result::Ok(Option::Some(QueryBonds(a))),
                Result::Err(e) => Result::Err(e),
            },
        }
    }

    /// The declarative definition of this command.
    pub fn def() -> (r: CmdDef)
        ensures
            cview(r) == query_bonds_def(),
    {
        let r = args::QueryBonds::def(CmdDef::leaf("bonds", "Query proof-of-stake bonds."));
        proof {
            assert(cview(r).args =~= args::query_bonds_args());
            assert(cview(r).constraints =~= args::query_bonds_constraints());
        }
        r
    }
}


/// Query proof-of-stake voting power.
pub struct QueryVotingPower(pub args::QueryVotingPower);

/// What parsing this command yields, with the payload forgotten.
pub open spec fn query_voting_power_cmd_res(m: MatchesV) -> Result<Option<()>, ArgFail> {
    match sub_of(m, "voting-power"@) {
        Option::None => Result::Ok(Option::None),
        Option::Some(i) => match args::query_voting_power_res(i) {
            Result::Ok(u) => Result::Ok(Option::Some(())),
            Result::Err(e) => Result::Err(e),
        },
    }
}

/// Whether the parsed command holds exactly the resolved arguments.
pub open spec fn query_voting_power_cmd_matches(c: QueryVotingPower, m: MatchesV) -> bool {
    sub_of(m, "voting-power"@) is Some && args::query_voting_power_matches(c.0, sub_of(m, "voting-power"@)->Some_0)
}

/// The declarative definition of this command.
pub open spec fn query_voting_power_def() -> CmdDefV {
    CmdDefV {
        token: "voting-power"@,
        args: args::query_voting_power_args(),
        constraints: args::query_voting_power_constraints(),
        children: Seq::<CmdDefV>::empty(),
    }
}

impl QueryVotingPower {
    /// Parses this command out of the matched input, if its token was
    /// selected.
    pub fn parse(matches: &Matches) -> (r: Result<Option<QueryVotingPower>, ArgError>)
        ensures
            cmd_status(r) == query_voting_power_cmd_res(mview(*matches)),
            r matches Result::Ok(Option::Some(c)) ==> query_voting_power_cmd_matches(c, mview(*matches)),
    {
        match matches.subcommand_matches("voting-power") {
            Option::None => Result::Ok(Option::None),
            Option::Some(inner) => match args::QueryVotingPower::parse(inner) {
                Result::Ok(a) => Result::Ok(Option::Some(QueryVotingPower(a))),
                Result::Err(e) => Result::Err(e),
            },
        }
    }

    /// The declarative definition of this command.
    pub fn def() -> (r: CmdDef)
        ensures
            cview(r) == query_voting_power_def(),
    {
        let r = args::QueryVotingPower::def(CmdDef::leaf("voting-power", "Query proof-of-stake voting power."));
        proof {
            assert(cview(r).args =~= args::query_voting_power_args());
            assert(cview(r).constraints =~= args::query_voting_power_constraints());
        }
        r
    }
}


/// Query a commission rate.
pub struct QueryCommissionRate(pub args::QueryCommissionRate);

/// What parsing this command yields, with the payload forgotten.
pub open spec fn query_commission_rate_cmd_res(m: MatchesV) -> Result<Option<()>, ArgFail> {
    match sub_of(m, "commission-rate"@) {
        Option::None => Result::Ok(Option::None),
        Option::Some(i) => match args::query_commission_rate_res(i) {
            Result::Ok(u) => Result::Ok(Option::Some(())),
            Result::Err(e) => Result::Err(e),
        },
    }
}

/// Whether the parsed command holds exactly the resolved arguments.
pub open spec fn query_commission_rate_cmd_matches(c: QueryCommissionRate, m: MatchesV) -> bool {
    sub_of(m, "commission-rate"@) is Some && args::query_commission_rate_matches(c.0, sub_of(m, "commission-rate"@)->Some_0)
}

/// The declarative definition of this command.
pub open spec fn query_commission_rate_def() -> CmdDefV {
    CmdDefV {
        token: "commission-rate"@,
        args: args::query_commission_rate_args(),
        constraints: args::query_commission_rate_constraints(),
        children: Seq::<CmdDefV>::empty(),
    }
}

impl QueryCommissionRate {
    /// Parses this command out of the matched input, if its token was
    /// selected.
    pub fn parse(matches: &Matches) -> (r: Result<Option<QueryCommissionRate>, ArgError>)
        ensures
            cmd_status(r) == query_commission_rate_cmd_res(mview(*matches)),
            r matches Result::Ok(Option::Some(c)) ==> query_commission_rate_cmd_matches(c, mview(*matches)),
    {
        match matches.subcommand_matches("commission-rate") {
            Option::None => Result::Ok(Option::None),
            Option::Some(inner) => match args::QueryCommissionRate::parse(inner) {
                Result::Ok(a) => Result::Ok(Option::Some(QueryCommissionRate(a))),
                Result::Err(e) => Result::Err(e),
            },
        }
    }

    /// The declarative definition of this command.
    pub fn def() -> (r: CmdDef)
        ensures
            cview(r) == query_commission_rate_def(),
    {
        let r = args::QueryCommissionRate::def(CmdDef::leaf("commission-rate", "Query a commission rate."));
        proof {
            assert(cview(r).args =~= args::query_commission_rate_args());
            assert(cview(r).constraints =~= args::query_commission_rate_constraints());
        }
        r
    }
}


/// Query applied proof-of-stake slashes.
pub struct QuerySlashes(pub args::QuerySlashes);

/// What parsing this command yields, with the payload forgotten.
pub open spec fn query_slashes_cmd_res(m: MatchesV) -> Result<Option<()>, ArgFail> {
    match sub_of(m, "slashes"@) {
        Option::None => Result::Ok(Option::None),
        Option::Some(i) => match args::query_slashes_res(i) {
            Result::Ok(u) => Result::Ok(Option::Some(())),
            Result::Err(e) => Result::Err(e),
        },
    }
}

/// Whether the parsed command holds exactly the resolved arguments.
pub open spec fn query_slashes_cmd_matches(c: QuerySlashes, m: MatchesV) -> bool {
    sub_of(m, "slashes"@) is Some && args::query_slashes_matches(c.0, sub_of(m, "slashes"@)->Some_0)
}

/// The declarative definition of this command.
pub open spec fn query_slashes_def() -> CmdDefV {
    CmdDefV {
        token: "slashes"@,
        args: args::query_slashes_args(),
        constraints: args::query_slashes_constraints(),
        children: Seq::<CmdDefV>::empty(),
    }
}

impl QuerySlashes {
    /// Parses this command out of the matched input, if its token was
    /// selected.
    pub fn parse(matches: &Matches) -> (r: Result<Option<QuerySlashes>, ArgError>)
        ensures
            cmd_status(r) == query_slashes_cmd_res(mview(*matches)),
            r matches Result::Ok(Option::Some(c)) ==> query_slashes_cmd_matches(c, mview(*matches)),
    {
        match matches.subcommand_matches("slashes") {
            Option::None => Result::Ok(Option::None),
            Option::Some(inner) => match args::QuerySlashes::parse(inner) {
                Result::Ok(a) => Result::Ok(Option::Some(QuerySlashes(a))),
                Result::Err(e) => Result::Err(e),
            },
        }
    }

    /// The declarative definition of this command.
    pub fn def() -> (r: CmdDef)
        ensures
            cview(r) == query_slashes_def(),
    {
        let r = args::QuerySlashes::def(CmdDef::leaf("slashes", "Query applied proof-of-stake slashes."));
        proof {
            assert(cview(r).args =~= args::query_slashes_args());
            assert(cview(r).constraints =~= args::query_slashes_constraints());
        }
        r
    }
}


/// Query the raw bytes of a given storage key.
pub struct QueryRawBytes(pub args::QueryRawBytes);

/// What parsing this command yields, with the payload forgotten.
pub open spec fn query_raw_bytes_cmd_res(m: MatchesV) -> Result<Option<()>, ArgFail> {
    match sub_of(m, "query-bytes"@) {
        Option::None => Result::Ok(Option::None),
        Option::Some(i) => match args::query_raw_bytes_res(i) {
            Result::Ok(u) => Result::Ok(Option::Some(())),
            Result::Err(e) => Result::Err(e),
        },
    }
}

/// Whether the parsed command holds exactly the resolved arguments.
pub open spec fn query_raw_bytes_cmd_matches(c: QueryRawBytes, m: MatchesV) -> bool {
    sub_of(m, "query-bytes"@) is Some && args::query_raw_bytes_matches(c.0, sub_of(m, "query-bytes"@)->Some_0)
}

/// The declarative definition of this command.
pub open spec fn query_raw_bytes_def() -> CmdDefV {
    CmdDefV {
        token: "query-bytes"@,
        args: args::query_raw_bytes_args(),
        constraints: args::query_raw_bytes_constraints(),
        children: Seq::<CmdDefV>::empty(),
    }
}

impl QueryRawBytes {
    /// Parses this command out of the matched input, if its token was
    /// selected.
    pub fn parse(matches: &Matches) -> (r: Result<Option<QueryRawBytes>, ArgError>)
        ensures
            cmd_status(r) == query_raw_bytes_cmd_res(mview(*matches)),
            r matches Result::Ok(Option::Some(c)) ==> query_raw_bytes_cmd_matches(c, mview(*matches)),
    {
        match matches.subcommand_matches("query-bytes") {
            Option::None => Result::Ok(Option::None),
            Option::Some(inner) => match args::QueryRawBytes::parse(inner) {
                Result::Ok(a) => Result::Ok(Option::Some(QueryRawBytes(a))),
                Result::Err(e) => Result::Err(e),
            },
        }
    }

    /// The declarative definition of this command.
    pub fn def() -> (r: CmdDef)
        ensures
            cview(r) == query_raw_bytes_def(),
    {
        let r = args::QueryRawBytes::def(CmdDef::leaf("query-bytes", "Query the raw bytes of a given storage key."));
        proof {
            assert(cview(r).args =~= args::query_raw_bytes_args());
            assert(cview(r).constraints =~= args::query_raw_bytes_constraints());
        }
        r
    }
}


/// Create a new proposal.
pub struct TxInitProposal(pub args::InitProposal);

/// What parsing this command yields, with the payload forgotten.
pub open spec fn tx_init_proposal_cmd_res(m: MatchesV) -> Result<Option<()>, ArgFail> {
    match sub_of(m, "init-proposal"@) {
        Option::None => Result::Ok(Option::None),
        Option::Some(i) => match args::init_proposal_res(i) {
            Result::Ok(u) => Result::Ok(Option::Some(())),
            Result::Err(e) => Result::Err(e),
        },
    }
}

/// Whether the parsed command holds exactly the resolved arguments.
pub open spec fn tx_init_proposal_cmd_matches(c: TxInitProposal, m: MatchesV) -> bool {
    sub_of(m, "init-proposal"@) is Some && args::init_proposal_matches(c.0, sub_of(m, "init-proposal"@)->Some_0)
}

/// The declarative definition of this command.
pub open spec fn tx_init_proposal_def() -> CmdDefV {
    CmdDefV {
        token: "init-proposal"@,
        args: args::init_proposal_args(),
        constraints: args::init_proposal_constraints(),
        children: Seq::<CmdDefV>::empty(),
    }
}

impl TxInitProposal {
    /// Parses this command out of the matched input, if its token was
    /// selected.
    pub fn parse(matches: &Matches) -> (r: Result<Option<TxInitProposal>, ArgError>)
        ensures
            cmd_status(r) == tx_init_proposal_cmd_res(mview(*matches)),
            r matches Result::Ok(Option::Some(c)) ==> tx_init_proposal_cmd_matches(c, mview(*matches)),
    {
        match matches.subcommand_matches("init-proposal") {
            Option::None => Result::Ok(Option::None),
            Option::Some(inner) => match args::InitProposal::parse(inner) {
                Result::Ok(a) => Result::Ok(Option::Some(TxInitProposal(a))),
                Result::Err(e) => Result::Err(e),
            },
        }
    }

    /// The declarative definition of this command.
    pub fn def() -> (r: CmdDef)
        ensures
            cview(r) == tx_init_proposal_def(),
    {
        let r = args::InitProposal::def(CmdDef::leaf("init-proposal", "Create a new proposal."));
        proof {
            assert(cview(r).args =~= args::init_proposal_args());
            assert(cview(r).constraints =~= args::init_proposal_constraints());
        }
        r
    }
}


/// Vote on a proposal.
pub struct TxVoteProposal(pub args::VoteProposal);

/// What parsing this command yields, with the payload forgotten.
pub open spec fn tx_vote_proposal_cmd_res(m: MatchesV) -> Result<Option<()>, ArgFail> {
    match sub_of(m, "vote-proposal"@) {
        Option::None => Result::Ok(Option::None),
        Option::Some(i) => match args::vote_proposal_res(i) {
            Result::Ok(u) => Result::Ok(Option::Some(())),
            Result::Err(e) => Result::Err(e),
        },
    }
}

/// Whether the parsed command holds exactly the resolved arguments.
pub open spec fn tx_vote_proposal_cmd_matches(c: TxVoteProposal, m: MatchesV) -> bool {
    sub_of(m, "vote-proposal"@) is Some && args::vote_proposal_matches(c.0, sub_of(m, "vote-proposal"@)->Some_0)
}

/// The declarative definition of this command.
pub open spec fn tx_vote_proposal_def() -> CmdDefV {
    CmdDefV {
        token: "vote-proposal"@,
        args: args::vote_proposal_args(),
        constraints: args::vote_proposal_constraints(),
        children: Seq::<CmdDefV>::empty(),
    }
}

impl TxVoteProposal {
    /// Parses this command out of the matched input, if its token was
    /// selected.
    pub fn parse(matches: &Matches) -> (r: Result<Option<TxVoteProposal>, ArgError>)
        ensures
            cmd_status(r) == tx_vote_proposal_cmd_res(mview(*matches)),
            r matches Result::Ok(Option::Some(c)) ==> tx_vote_proposal_cmd_matches(c, mview(*matches)),
    {
        match matches.subcommand_matches("vote-proposal") {
            Option::None => Result::Ok(Option::None),
            Option::Some(inner) => match args::VoteProposal::parse(inner) {
                Result::Ok(a) => Result::Ok(Option::Some(TxVoteProposal(a))),
                Result::Err(e) => Result::Err(e),
            },
        }
    }

    /// The declarative definition of this command.
    pub fn def() -> (r: CmdDef)
        ensures
            cview(r) == tx_vote_proposal_def(),
    {
        let r = args::VoteProposal::def(CmdDef::leaf("vote-proposal", "Vote on a proposal."));
        proof {
            assert(cview(r).args =~= args::vote_proposal_args());
            assert(cview(r).constraints =~= args::vote_proposal_constraints());
        }
        r
    }
}


/// Configure the tool to join an existing network.
pub struct JoinNetwork(pub args::JoinNetwork);

/// What parsing this command yields, with the payload forgotten.
pub open spec fn join_network_cmd_res(m: MatchesV) -> Result<Option<()>, ArgFail> {
    match sub_of(m, "join-network"@) {
        Option::None => Result::Ok(Option::None),
        Option::Some(i) => match args::join_network_res(i) {
            Result::Ok(u) => Result::Ok(Option::Some(())),
            Result::Err(e) => Result::Err(e),
        },
    }
}

/// Whether the parsed command holds exactly the resolved arguments.
pub open spec fn join_network_cmd_matches(c: JoinNetwork, m: MatchesV) -> bool {
    sub_of(m, "join-network"@) is Some && args::join_network_matches(c.0, sub_of(m, "join-network"@)->Some_0)
}

/// The declarative definition of this command.
pub open spec fn join_network_def() -> CmdDefV {
    CmdDefV {
        token: "join-network"@,
        args: args::join_network_args(),
        constraints: args::join_network_constraints(),
        children: Seq::<CmdDefV>::empty(),
    }
}

impl JoinNetwork {
    /// Parses this command out of the matched input, if its token was
    /// selected.
    pub fn parse(matches: &Matches) -> (r: Result<Option<JoinNetwork>, ArgError>)
        ensures
            cmd_status(r) == join_network_cmd_res(mview(*matches)),
            r matches Result::Ok(Option::Some(c)) ==> join_network_cmd_matches(c, mview(*matches)),
    {
        match matches.subcommand_matches("join-network") {
            Option::None => Result::Ok(Option::None),
            Option::Some(inner) => match args::JoinNetwork::parse(inner) {
                Result::Ok(a) => Result::Ok(Option::Some(JoinNetwork(a))),
                Result::Err(e) => Result::Err(e),
            },
        }
    }

    /// The declarative definition of this command.
    pub fn def() -> (r: CmdDef)
        ensures
            cview(r) == join_network_def(),
    {
        let r = args::JoinNetwork::def(CmdDef::leaf("join-network", "Configure the tool to join an existing network."));
        proof {
            assert(cview(r).args =~= args::join_network_args());
            assert(cview(r).constraints =~= args::join_network_constraints());
        }
        r
    }
}


/// Ensure pre-built WASM artifacts are present.
pub struct FetchWasms(pub args::FetchWasms);

/// What parsing this command yields, with the payload forgotten.
pub open spec fn fetch_wasms_cmd_res(m: MatchesV) -> Result<Option<()>, ArgFail> {
    match sub_of(m, "fetch-wasms"@) {
        Option::None => Result::Ok(Option::None),
        Option::Some(i) => match args::fetch_wasms_res(i) {
            Result::Ok(u) => Result::Ok(Option::Some(())),
            Result::Err(e) => Result::Err(e),
        },
    }
}

/// Whether the parsed command holds exactly the resolved arguments.
pub open spec fn fetch_wasms_cmd_matches(c: FetchWasms, m: MatchesV) -> bool {
    sub_of(m, "fetch-wasms"@) is Some && args::fetch_wasms_matches(c.0, sub_of(m, "fetch-wasms"@)->Some_0)
}

/// The declarative definition of this command.
pub open spec fn fetch_wasms_def() -> CmdDefV {
    CmdDefV {
        token: "fetch-wasms"@,
        args: args::fetch_wasms_args(),
        constraints: args::fetch_wasms_constraints(),
        children: Seq::<CmdDefV>::empty(),
    }
}

impl FetchWasms {
    /// Parses this command out of the matched input, if its token was
    /// selected.
    pub fn parse(matches: &Matches) -> (r: Result<Option<FetchWasms>, ArgError>)
        ensures
            cmd_status(r) == fetch_wasms_cmd_res(mview(*matches)),
            r matches Result::Ok(Option::Some(c)) ==> fetch_wasms_cmd_matches(c, mview(*matches)),
    {
        match matches.subcommand_matches("fetch-wasms") {
            Option::None => Result::Ok(Option::None),
            Option::Some(inner) => match args::FetchWasms::parse(inner) {
                Result::Ok(a) => Result::Ok(Option::Some(FetchWasms(a))),
                Result::Err(e) => Result::Err(e),
            },
        }
    }

    /// The declarative definition of this command.
    pub fn def() -> (r: CmdDef)
        ensures
            cview(r) == fetch_wasms_def(),
    {
        let r = args::FetchWasms::def(CmdDef::leaf("fetch-wasms", "Ensure pre-built WASM artifacts are present."));
        proof {
            assert(cview(r).args =~= args::fetch_wasms_args());
            assert(cview(r).constraints =~= args::fetch_wasms_constraints());
        }
        r
    }
}


/// Initialize a new test network.
pub struct InitNetwork(pub args::InitNetwork);

/// What parsing this command yields, with the payload forgotten.
pub open spec fn init_network_cmd_res(m: MatchesV) -> Result<Option<()>, ArgFail> {
    match sub_of(m, "init-network"@) {
        Option::None => Result::Ok(Option::None),
        Option::Some(i) => match args::init_network_res(i) {
            Result::Ok(u) => Result::Ok(Option::Some(())),
            Result::Err(e) => Result::Err(e),
        },
    }
}

/// Whether the parsed command holds exactly the resolved arguments.
pub open spec fn init_network_cmd_matches(c: InitNetwork, m: MatchesV) -> bool {
    sub_of(m, "init-network"@) is Some && args::init_network_matches(c.0, sub_of(m, "init-network"@)->Some_0)
}

/// The declarative definition of this command.
pub open spec fn init_network_def() -> CmdDefV {
    CmdDefV {
        token: "init-network"@,
        args: args::init_network_args(),
        constraints: args::init_network_constraints(),
        children: Seq::<CmdDefV>::empty(),
    }
}

impl InitNetwork {
    /// Parses this command out of the matched input, if its token was
    /// selected.
    pub fn parse(matches: &Matches) -> (r: Result<Option<InitNetwork>, ArgError>)
        ensures
            cmd_status(r) == init_network_cmd_res(mview(*matches)),
            r matches Result::Ok(Option::Some(c)) ==> init_network_cmd_matches(c, mview(*matches)),
    {
        match matches.subcommand_matches("init-network") {
            Option::None => Result::Ok(Option::None),
            Option::Some(inner) => match args::InitNetwork::parse(inner) {
                Result::Ok(a) => Result::Ok(Option::Some(InitNetwork(a))),
                Result::Err(e) => Result::Err(e),
            },
        }
    }

    /// The declarative definition of this command.
    pub fn def() -> (r: CmdDef)
        ensures
            cview(r) == init_network_def(),
    {
        let r = args::InitNetwork::def(CmdDef::leaf("init-network", "Initialize a new test network."));
        proof {
            assert(cview(r).args =~= args::init_network_args());
            assert(cview(r).constraints =~= args::init_network_constraints());
        }
        r
    }
}


/// Initialize a genesis validator's address, consensus key and validator account key for use in the ledger node.
pub struct InitGenesisValidator(pub args::InitGenesisValidator);

/// What parsing this command yields, with the payload forgotten.
pub open spec fn init_genesis_validator_cmd_res(m: MatchesV) -> Result<Option<()>, ArgFail> {
    match sub_of(m, "init-genesis-validator"@) {
        Option::None => Result::Ok(Option::None),
        Option::Some(i) => match args::init_genesis_validator_res(i) {
            Result::Ok(u) => Result::Ok(Option::Some(())),
            Result::Err(e) => Result::Err(e),
        },
    }
}

/// Whether the parsed command holds exactly the resolved arguments.
pub open spec fn init_genesis_validator_cmd_matches(c: InitGenesisValidator, m: MatchesV) -> bool {
    sub_of(m, "init-genesis-validator"@) is Some && args::init_genesis_validator_matches(c.0, sub_of(m, "init-genesis-validator"@)->Some_0)
}

/// The declarative definition of this command.
pub open spec fn init_genesis_validator_def() -> CmdDefV {
    CmdDefV {
        token: "init-genesis-validator"@,
        args: args::init_genesis_validator_args(),
        constraints: args::init_genesis_validator_constraints(),
        children: Seq::<CmdDefV>::empty(),
    }
}

impl InitGenesisValidator {
    /// Parses this command out of the matched input, if its token was
    /// selected.
    pub fn parse(matches: &Matches) -> (r: Result<Option<InitGenesisValidator>, ArgError>)
        ensures
            cmd_status(r) == init_genesis_validator_cmd_res(mview(*matches)),
            r matches Result::Ok(Option::Some(c)) ==> init_genesis_validator_cmd_matches(c, mview(*matches)),
    {
        match matches.subcommand_matches("init-genesis-validator") {
            Option::None => Result::Ok(Option::None),
            Option::Some(inner) => match args::InitGenesisValidator::parse(inner) {
                Result::Ok(a) => Result::Ok(Option::Some(InitGenesisValidator(a))),
                Result::Err(e) => Result::Err(e),
            },
        }
    }

    /// The declarative definition of this command.
    pub fn def() -> (r: CmdDef)
        ensures
            cview(r) == init_genesis_validator_def(),
    {
        let r = args::InitGenesisValidator::def(CmdDef::leaf("init-genesis-validator", "Initialize a genesis validator's address, consensus key and validator account key for use in the ledger node."));
        proof {
            assert(cview(r).args =~= args::init_genesis_validator_args());
            assert(cview(r).constraints =~= args::init_genesis_validator_constraints());
        }
        r
    }
}



/// Tries the second parse outcome when the first selected nothing; the first
/// selection or failure wins.
pub open spec fn or_else(
    a: Result<Option<()>, ArgFail>,
    b: Result<Option<()>, ArgFail>,
) -> Result<Option<()>, ArgFail> {
    match a {
        Result::Ok(o) => match o {
            Option::None => b,
            Option::Some(u) => Result::Ok(Option::Some(())),
        },
        Result::Err(e) => Result::Err(e),
    }
}

/// Keypair management, including methods to generate and look up keys.
pub enum WalletKey {
    Gen(KeyGen),
    Find(KeyFind),
    List(KeyList),
    Export(Export),
}

/// What parsing inside this command's own matches yields, child by child,
/// the first selection winning.
pub open spec fn wallet_key_inner_res(i: MatchesV) -> Result<Option<()>, ArgFail> {
    or_else(key_gen_cmd_res(i), or_else(key_find_cmd_res(i), or_else(key_list_cmd_res(i), export_cmd_res(i))))
}

/// What parsing this command yields, with the payload forgotten.
pub open spec fn wallet_key_cmd_res(m: MatchesV) -> Result<Option<()>, ArgFail> {
    match sub_of(m, "key"@) {
        Option::None => Result::Ok(Option::None),
        Option::Some(i) => wallet_key_inner_res(i),
    }
}

/// Whether the parsed command holds exactly the resolved arguments of the
/// selected child.
pub open spec fn wallet_key_cmd_matches(c: WalletKey, m: MatchesV) -> bool {
    sub_of(m, "key"@) is Some && match c {
        WalletKey::Gen(x) => key_gen_cmd_matches(x, sub_of(m, "key"@)->Some_0),
        WalletKey::Find(x) => key_find_cmd_matches(x, sub_of(m, "key"@)->Some_0),
        WalletKey::List(x) => key_list_cmd_matches(x, sub_of(m, "key"@)->Some_0),
        WalletKey::Export(x) => export_cmd_matches(x, sub_of(m, "key"@)->Some_0),
    }
}

/// The declarative definition of this command and its children.
pub open spec fn wallet_key_def() -> CmdDefV {
    CmdDefV {
        token: "key"@,
        args: Seq::<ArgSpecV>::empty(),
        constraints: Seq::<ConstraintV>::empty(),
        children: seq![key_gen_def(), key_find_def(), key_list_def(), export_def()],
    }
}

impl WalletKey {
    /// Parses this command out of the matched input, if its token was
    /// selected: the children are tried in order and the first selection
    /// wins.
    pub fn parse(matches: &Matches) -> (r: Result<Option<WalletKey>, ArgError>)
        ensures
            cmd_status(r) == wallet_key_cmd_res(mview(*matches)),
            r matches Result::Ok(Option::Some(c)) ==> wallet_key_cmd_matches(c, mview(*matches)),
    {
        let inner = match matches.subcommand_matches("key") {
            Option::None => {
                return Result::Ok(Option::None);
            },
            Option::Some(i) => i,
        };
        match KeyGen::parse(inner) {
            Result::Err(e) => {
                return Result::Err(e);
            },
            Result::Ok(Option::Some(c)) => {
                return Result::Ok(Option::Some(WalletKey::Gen(c)));
            },
            Result::Ok(Option::None) => {},
        }
        match KeyFind::parse(inner) {
            Result::Err(e) => {
                return Result::Err(e);
            },
            Result::Ok(Option::Some(c)) => {
                return Result::Ok(Option::Some(WalletKey::Find(c)));
            },
            Result::Ok(Option::None) => {},
        }
        match KeyList::parse(inner) {
            Result::Err(e) => {
                return Result::Err(e);
            },
            Result::Ok(Option::Some(c)) => {
                return Result::Ok(Option::Some(WalletKey::List(c)));
            },
            Result::Ok(Option::None) => {},
        }
        match Export::parse(inner) {
            Result::Err(e) => {
                return Result::Err(e);
            },
            Result::Ok(Option::Some(c)) => {
                return Result::Ok(Option::Some(WalletKey::Export(c)));
            },
            Result::Ok(Option::None) => {},
        }
        Result::Ok(Option::None)
    }

    /// The declarative definition of this command and its children.
    pub fn def() -> (r: CmdDef)
        ensures
            cview(r) == wallet_key_def(),
    {
        let r = CmdDef::leaf("key", "Keypair management, including methods to generate and look up keys.").subcommand(KeyGen::def()).subcommand(KeyFind::def()).subcommand(KeyList::def()).subcommand(Export::def());
        proof {
            assert(cview(r).children =~= wallet_key_def().children);
        }
        r
    }
}

/// Address management, including methods to generate and look up addresses.
pub enum WalletAddress {
    Gen(AddressGen),
    Find(AddressOrAliasFind),
    List(AddressList),
    Add(AddressAdd),
}

/// What parsing inside this command's own matches yields, child by child,
/// the first selection winning.
pub open spec fn wallet_address_inner_res(i: MatchesV) -> Result<Option<()>, ArgFail> {
    or_else(address_gen_cmd_res(i), or_else(address_or_alias_find_cmd_res(i), or_else(address_list_cmd_res(i), address_add_cmd_res(i))))
}

/// What parsing this command yields, with the payload forgotten.
pub open spec fn wallet_address_cmd_res(m: MatchesV) -> Result<Option<()>, ArgFail> {
    match sub_of(m, "address"@) {
        Option::None => Result::Ok(Option::None),
        Option::Some(i) => wallet_address_inner_res(i),
    }
}

/// Whether the parsed command holds exactly the resolved arguments of the
/// selected child.
pub open spec fn wallet_address_cmd_matches(c: WalletAddress, m: MatchesV) -> bool {
    sub_of(m, "address"@) is Some && match c {
        WalletAddress::Gen(x) => address_gen_cmd_matches(x, sub_of(m, "address"@)->Some_0),
        WalletAddress::Find(x) => address_or_alias_find_cmd_matches(x, sub_of(m, "address"@)->Some_0),
        WalletAddress::List(x) => address_list_cmd_matches(x, sub_of(m, "address"@)->Some_0),
        WalletAddress::Add(x) => address_add_cmd_matches(x, sub_of(m, "address"@)->Some_0),
    }
}

/// The declarative definition of this command and its children.
pub open spec fn wallet_address_def() -> CmdDefV {
    CmdDefV {
        token: "address"@,
        args: Seq::<ArgSpecV>::empty(),
        constraints: Seq::<ConstraintV>::empty(),
        children: seq![address_gen_def(), address_or_alias_find_def(), address_list_def(), address_add_def()],
    }
}

impl WalletAddress {
    /// Parses this command out of the matched input, if its token was
    /// selected: the children are tried in order and the first selection
    /// wins.
    pub fn parse(matches: &Matches) -> (r: Result<Option<WalletAddress>, ArgError>)
        ensures
            cmd_status(r) == wallet_address_cmd_res(mview(*matches)),
            r matches Result::Ok(Option::Some(c)) ==> wallet_address_cmd_matches(c, mview(*matches)),
    {
        let inner = match matches.subcommand_matches("address") {
            Option::None => {
                return Result::Ok(Option::None);
            },
            Option::Some(i) => i,
        };
        match AddressGen::parse(inner) {
            Result::Err(e) => {
                return Result::Err(e);
            },
            Result::Ok(Option::Some(c)) => {
                return Result::Ok(Option::Some(WalletAddress::Gen(c)));
            },
            Result::Ok(Option::None) => {},
        }
        match AddressOrAliasFind::parse(inner) {
            Result::Err(e) => {
                return Result::Err(e);
            },
            Result::Ok(Option::Some(c)) => {
                return Result::Ok(Option::Some(WalletAddress::Find(c)));
            },
            Result::Ok(Option::None) => {},
        }
        match AddressList::parse(inner) {
            Result::Err(e) => {
                return Result::Err(e);
            },
            Result::Ok(Option::Some(c)) => {
                return Result::Ok(Option::Some(WalletAddress::List(c)));
            },
            Result::Ok(Option::None) => {},
        }
        match AddressAdd::parse(inner) {
            Result::Err(e) => {
                return Result::Err(e);
            },
            Result::Ok(Option::Some(c)) => {
                return Result::Ok(Option::Some(WalletAddress::Add(c)));
            },
            Result::Ok(Option::None) => {},
        }
        Result::Ok(Option::None)
    }

    /// The declarative definition of this command and its children.
    pub fn def() -> (r: CmdDef)
        ensures
            cview(r) == wallet_address_def(),
    {
        let r = CmdDef::leaf("address", "Address management, including methods to generate and look up addresses.").subcommand(AddressGen::def()).subcommand(AddressOrAliasFind::def()).subcommand(AddressList::def()).subcommand(AddressAdd::def());
        proof {
            assert(cview(r).children =~= wallet_address_def().children);
        }
        r
    }
}

/// Configuration sub-commands.
pub enum Config {
    Gen(ConfigGen),
}

/// What parsing inside this command's own matches yields, child by child,
/// the first selection winning.
pub open spec fn config_inner_res(i: MatchesV) -> Result<Option<()>, ArgFail> {
    config_gen_cmd_res(i)
}

/// What parsing this command yields, with the payload forgotten.
pub open spec fn config_cmd_res(m: MatchesV) -> Result<Option<()>, ArgFail> {
    match sub_of(m, "config"@) {
        Option::None => Result::Ok(Option::None),
        Option::Some(i) => config_inner_res(i),
    }
}

/// Whether the parsed command holds exactly the resolved arguments of the
/// selected child.
pub open spec fn config_cmd_matches(c: Config, m: MatchesV) -> bool {
    sub_of(m, "config"@) is Some && match c {
        Config::Gen(x) => config_gen_cmd_matches(x, sub_of(m, "config"@)->Some_0),
    }
}

/// The declarative definition of this command and its children.
pub open spec fn config_def() -> CmdDefV {
    CmdDefV {
        token: "config"@,
        args: Seq::<ArgSpecV>::empty(),
        constraints: Seq::<ConstraintV>::empty(),
        children: seq![config_gen_def()],
    }
}

impl Config {
    /// Parses this command out of the matched input, if its token was
    /// selected: the children are tried in order and the first selection
    /// wins.
    pub fn parse(matches: &Matches) -> (r: Result<Option<Config>, ArgError>)
        ensures
            cmd_status(r) == config_cmd_res(mview(*matches)),
            r matches Result::Ok(Option::Some(c)) ==> config_cmd_matches(c, mview(*matches)),
    {
        let inner = match matches.subcommand_matches("config") {
            Option::None => {
                return Result::Ok(Option::None);
            },
            Option::Some(i) => i,
        };
        match ConfigGen::parse(inner) {
            Result::Err(e) => {
                return Result::Err(e);
            },
            Result::Ok(Option::Some(c)) => {
                return Result::Ok(Option::Some(Config::Gen(c)));
            },
            Result::Ok(Option::None) => {},
        }
        Result::Ok(Option::None)
    }

    /// The declarative definition of this command and its children.
    pub fn def() -> (r: CmdDef)
        ensures
            cview(r) == config_def(),
    {
        let r = CmdDef::leaf("config", "Configuration sub-commands.").subcommand(ConfigGen::def());
        proof {
            assert(cview(r).children =~= config_def().children);
        }
        r
    }
}

/// Utilities.
pub enum Utils {
    JoinNetwork(JoinNetwork),
    FetchWasms(FetchWasms),
    InitNetwork(InitNetwork),
    InitGenesisValidator(InitGenesisValidator),
}

/// What parsing inside this command's own matches yields, child by child,
/// the first selection winning.
pub open spec fn utils_inner_res(i: MatchesV) -> Result<Option<()>, ArgFail> {
    or_else(join_network_cmd_res(i), or_else(fetch_wasms_cmd_res(i), or_else(init_network_cmd_res(i), init_genesis_validator_cmd_res(i))))
}

/// What parsing this command yields, with the payload forgotten.
pub open spec fn utils_cmd_res(m: MatchesV) -> Result<Option<()>, ArgFail> {
    match sub_of(m, "utils"@) {
        Option::None => Result::Ok(Option::None),
        Option::Some(i) => utils_inner_res(i),
    }
}

/// Whether the parsed command holds exactly the resolved arguments of the
/// selected child.
pub open spec fn utils_cmd_matches(c: Utils, m: MatchesV) -> bool {
    sub_of(m, "utils"@) is Some && match c {
        Utils::JoinNetwork(x) => join_network_cmd_matches(x, sub_of(m, "utils"@)->Some_0),
        Utils::FetchWasms(x) => fetch_wasms_cmd_matches(x, sub_of(m, "utils"@)->Some_0),
        Utils::InitNetwork(x) => init_network_cmd_matches(x, sub_of(m, "utils"@)->Some_0),
        Utils::InitGenesisValidator(x) => init_genesis_validator_cmd_matches(x, sub_of(m, "utils"@)->Some_0),
    }
}

/// The declarative definition of this command and its children.
pub open spec fn utils_def() -> CmdDefV {
    CmdDefV {
        token: "utils"@,
        args: Seq::<ArgSpecV>::empty(),
        constraints: Seq::<ConstraintV>::empty(),
        children: seq![join_network_def(), fetch_wasms_def(), init_network_def(), init_genesis_validator_def()],
    }
}

impl Utils {
    /// Parses this command out of the matched input, if its token was
    /// selected: the children are tried in order and the first selection
    /// wins.
    pub fn parse(matches: &Matches) -> (r: Result<Option<Utils>, ArgError>)
        ensures
            cmd_status(r) == utils_cmd_res(mview(*matches)),
            r matches Result::Ok(Option::Some(c)) ==> utils_cmd_matches(c, mview(*matches)),
    {
        let inner = match matches.subcommand_matches("utils") {
            Option::None => {
                return Result::Ok(Option::None);
            },
            Option::Some(i) => i,
        };
        match JoinNetwork::parse(inner) {
            Result::Err(e) => {
                return Result::Err(e);
            },
            Result::Ok(Option::Some(c)) => {
                return Result::Ok(Option::Some(Utils::JoinNetwork(c)));
            },
            Result::Ok(Option::None) => {},
        }
        match FetchWasms::parse(inner) {
            Result::Err(e) => {
                return Result::Err(e);
            },
            Result::Ok(Option::Some(c)) => {
                return Result::Ok(Option::Some(Utils::FetchWasms(c)));
            },
            Result::Ok(Option::None) => {},
        }
        match InitNetwork::parse(inner) {
            Result::Err(e) => {
                return Result::Err(e);
            },
            Result::Ok(Option::Some(c)) => {
                return Result::Ok(Option::Some(Utils::InitNetwork(c)));
            },
            Result::Ok(Option::None) => {},
        }
        match InitGenesisValidator::parse(inner) {
            Result::Err(e) => {
                return Result::Err(e);
            },
            Result::Ok(Option::Some(c)) => {
                return Result::Ok(Option::Some(Utils::InitGenesisValidator(c)));
            },
            Result::Ok(Option::None) => {},
        }
        Result::Ok(Option::None)
    }

    /// The declarative definition of this command and its children.
    pub fn def() -> (r: CmdDef)
        ensures
            cview(r) == utils_def(),
    {
        let r = CmdDef::leaf("utils", "Utilities.").subcommand(JoinNetwork::def()).subcommand(FetchWasms::def()).subcommand(InitNetwork::def()).subcommand(InitGenesisValidator::def());
        proof {
            assert(cview(r).children =~= utils_def().children);
        }
        r
    }
}


/// Ledger node sub-commands; with no sub-command given, running the node is
/// the designated default.
pub enum Ledger {
    Run(LedgerRun),
    Reset(LedgerReset),
}

/// What parsing this command yields: once its token is selected it always
/// resolves, to the named child or to the default.
pub open spec fn ledger_cmd_res(m: MatchesV) -> Result<Option<()>, ArgFail> {
    match sub_of(m, "ledger"@) {
        Option::None => Result::Ok(Option::None),
        Option::Some(i) => Result::Ok(Option::Some(())),
    }
}

/// Whether the parsed command corresponds to the matched input: reset only
/// on its own token, the run child everywhere else.
pub open spec fn ledger_cmd_matches(c: Ledger, m: MatchesV) -> bool {
    sub_of(m, "ledger"@) is Some && match c {
        Ledger::Run(x) => !(sub_of(sub_of(m, "ledger"@)->Some_0, "reset"@) is Some),
        Ledger::Reset(x) => sub_of(sub_of(m, "ledger"@)->Some_0, "reset"@) is Some,
    }
}

/// Whether a parse outcome selected the run child.
pub open spec fn is_ledger_run(r: Result<Option<Ledger>, ArgError>) -> bool {
    match r {
        Result::Ok(o) => match o {
            Option::Some(c) => c is Run,
            Option::None => false,
        },
        Result::Err(e) => false,
    }
}

/// The declarative definition of this command and its children.
pub open spec fn ledger_def() -> CmdDefV {
    CmdDefV {
        token: "ledger"@,
        args: Seq::<ArgSpecV>::empty(),
        constraints: Seq::<ConstraintV>::empty(),
        children: seq![ledger_run_def(), ledger_reset_def()],
    }
}

impl Ledger {
    /// Parses this command out of the matched input, if its token was
    /// selected; with no sub-command given, the run child is the designated
    /// default rather than an error.
    pub fn parse(matches: &Matches) -> (r: Result<Option<Ledger>, ArgError>)
        ensures
            cmd_status(r) == ledger_cmd_res(mview(*matches)),
            r matches Result::Ok(Option::Some(c)) ==> ledger_cmd_matches(c, mview(*matches)),
            sub_of(mview(*matches), "ledger"@) is Some && sub_token(
                sub_of(mview(*matches), "ledger"@)->Some_0,
            ) is None ==> is_ledger_run(r),
    {
        let inner = match matches.subcommand_matches("ledger") {
            Option::None => {
                return Result::Ok(Option::None);
            },
            Option::Some(i) => i,
        };
        match LedgerReset::parse(inner) {
            Result::Err(e) => Result::Err(e),
            Result::Ok(Option::Some(c)) => Result::Ok(Option::Some(Ledger::Reset(c))),
            Result::Ok(Option::None) => Result::Ok(Option::Some(Ledger::Run(LedgerRun))),
        }
    }

    /// The declarative definition of this command and its children.
    pub fn def() -> (r: CmdDef)
        ensures
            cview(r) == ledger_def(),
    {
        let r = CmdDef::leaf(
            "ledger",
            "Ledger node sub-commands; with no sub-command given, the node is run.",
        ).subcommand(LedgerRun::def()).subcommand(LedgerReset::def());
        proof {
            assert(cview(r).children =~= ledger_def().children);
        }
        r
    }
}


/// The commands of the node tool; the same definitions also stand under the
/// `node` subcommand of the combined tool.
pub enum AnomaNode {
    Ledger(Ledger),
    Config(Config),
}

/// What parsing the node commands yields, with the payload forgotten.
pub open spec fn anoma_node_cmd_res(m: MatchesV) -> Result<Option<()>, ArgFail> {
    or_else(ledger_cmd_res(m), config_cmd_res(m))
}

/// Whether the parsed command holds exactly the resolved arguments of the
/// selected child.
pub open spec fn anoma_node_cmd_matches(c: AnomaNode, m: MatchesV) -> bool {
    match c {
        AnomaNode::Ledger(x) => ledger_cmd_matches(x, m),
        AnomaNode::Config(x) => config_cmd_matches(x, m),
    }
}

/// The children of the node command set.
pub open spec fn anoma_node_children() -> Seq<CmdDefV> {
    seq![ledger_def(), config_def()]
}

/// The declarative definition of the node command set as a nested
/// subcommand.
pub open spec fn anoma_node_def() -> CmdDefV {
    CmdDefV {
        token: "node"@,
        args: Seq::<ArgSpecV>::empty(),
        constraints: Seq::<ConstraintV>::empty(),
        children: anoma_node_children(),
    }
}

impl AnomaNode {
    /// Parses a node command out of the matched input: the children are
    /// tried in order and the first selection wins.
    pub fn parse(matches: &Matches) -> (r: Result<Option<AnomaNode>, ArgError>)
        ensures
            cmd_status(r) == anoma_node_cmd_res(mview(*matches)),
            r matches Result::Ok(Option::Some(c)) ==> anoma_node_cmd_matches(c, mview(*matches)),
    {
        match Ledger::parse(matches) {
            Result::Err(e) => {
                return Result::Err(e);
            },
            Result::Ok(Option::Some(c)) => {
                return Result::Ok(Option::Some(AnomaNode::Ledger(c)));
            },
            Result::Ok(Option::None) => {},
        }
        match Config::parse(matches) {
            Result::Err(e) => {
                return Result::Err(e);
            },
            Result::Ok(Option::Some(c)) => {
                return Result::Ok(Option::Some(AnomaNode::Config(c)));
            },
            Result::Ok(Option::None) => {},
        }
        Result::Ok(Option::None)
    }

    /// Attaches every child command definition to the given command surface.
    pub fn add_sub(app: CmdDef) -> (r: CmdDef)
        ensures
            cview(r) == (CmdDefV {
                children: cview(app).children + anoma_node_children(),
                ..cview(app)
            }),
    {
        let ghost appv = cview(app);
        let r = app.subcommand(Ledger::def()).subcommand(Config::def());
        proof {
            assert(cview(r).children =~= appv.children + anoma_node_children());
        }
        r
    }

    /// The declarative definition of the node command set as a nested
    /// subcommand.
    pub fn def() -> (r: CmdDef)
        ensures
            cview(r) == anoma_node_def(),
    {
        let r = Self::add_sub(CmdDef::leaf("node", "Node sub-commands."));
        proof {
            assert(Seq::<CmdDefV>::empty() + anoma_node_children() =~= anoma_node_children());
        }
        r
    }
}


/// The commands of the wallet tool; the same definitions also stand under
/// the `wallet` subcommand of the combined tool.
pub enum AnomaWallet {
    /// Key management commands.
    Key(WalletKey),
    /// Address management commands.
    Address(WalletAddress),
}

/// What parsing the wallet commands yields, with the payload forgotten.
pub open spec fn anoma_wallet_cmd_res(m: MatchesV) -> Result<Option<()>, ArgFail> {
    or_else(wallet_key_cmd_res(m), wallet_address_cmd_res(m))
}

/// Whether the parsed command holds exactly the resolved arguments of the
/// selected child.
pub open spec fn anoma_wallet_cmd_matches(c: AnomaWallet, m: MatchesV) -> bool {
    match c {
        AnomaWallet::Key(x) => wallet_key_cmd_matches(x, m),
        AnomaWallet::Address(x) => wallet_address_cmd_matches(x, m),
    }
}

/// The children of the wallet command set.
pub open spec fn anoma_wallet_children() -> Seq<CmdDefV> {
    seq![wallet_key_def(), wallet_address_def()]
}

/// The declarative definition of the wallet command set as a nested
/// subcommand.
pub open spec fn anoma_wallet_def() -> CmdDefV {
    CmdDefV {
        token: "wallet"@,
        args: Seq::<ArgSpecV>::empty(),
        constraints: Seq::<ConstraintV>::empty(),
        children: anoma_wallet_children(),
    }
}

impl AnomaWallet {
    /// Parses a wallet command out of the matched input: the children are
    /// tried in order and the first selection wins.
    pub fn parse(matches: &Matches) -> (r: Result<Option<AnomaWallet>, ArgError>)
        ensures
            cmd_status(r) == anoma_wallet_cmd_res(mview(*matches)),
            r matches Result::Ok(Option::Some(c)) ==> anoma_wallet_cmd_matches(
                c,
                mview(*matches),
            ),
    {
        match WalletKey::parse(matches) {
            Result::Err(e) => {
                return Result::Err(e);
            },
            Result::Ok(Option::Some(c)) => {
                return Result::Ok(Option::Some(AnomaWallet::Key(c)));
            },
            Result::Ok(Option::None) => {},
        }
        match WalletAddress::parse(matches) {
            Result::Err(e) => {
                return Result::Err(e);
            },
            Result::Ok(Option::Some(c)) => {
                return Result::Ok(Option::Some(AnomaWallet::Address(c)));
            },
            Result::Ok(Option::None) => {},
        }
        Result::Ok(Option::None)
    }

    /// Attaches every child command definition to the given command surface.
    pub fn add_sub(app: CmdDef) -> (r: CmdDef)
        ensures
            cview(r) == (CmdDefV {
                children: cview(app).children + anoma_wallet_children(),
                ..cview(app)
            }),
    {
        let ghost appv = cview(app);
        let r = app.subcommand(WalletKey::def()).subcommand(WalletAddress::def());
        proof {
            assert(cview(r).children =~= appv.children + anoma_wallet_children());
        }
        r
    }

    /// The declarative definition of the wallet command set as a nested
    /// subcommand.
    pub fn def() -> (r: CmdDef)
        ensures
            cview(r) == anoma_wallet_def(),
    {
        let r = Self::add_sub(CmdDef::leaf("wallet", "Wallet sub-commands."));
        proof {
            assert(Seq::<CmdDefV>::empty() + anoma_wallet_children()
                =~= anoma_wallet_children());
        }
        r
    }
}


/// The client commands that run against a constructed Context: wallet and
/// configuration are loaded before they are handled.
pub enum AnomaClientWithContext {
    TxCustom(TxCustom),
    TxTransfer(TxTransfer),
    TxUpdateVp(TxUpdateVp),
    TxInitAccount(TxInitAccount),
    TxInitValidator(TxInitValidator),
    TxInitProposal(TxInitProposal),
    TxVoteProposal(TxVoteProposal),
    Bond(Bond),
    Unbond(Unbond),
    Withdraw(Withdraw),
    QueryEpoch(QueryEpoch),
    QueryBlock(QueryBlock),
    QueryBalance(QueryBalance),
    QueryBonds(QueryBonds),
    QueryVotingPower(QueryVotingPower),
    QuerySlashes(QuerySlashes),
    QueryResult(QueryResult),
    QueryRawBytes(QueryRawBytes),
    QueryProposal(QueryProposal),
    QueryProposalResult(QueryProposalResult),
    QueryProtocolParameters(QueryProtocolParameters),
    QueryCommissionRate(QueryCommissionRate),
}

/// The commands of the client tool. Context-dependent commands are kept
/// apart from the utilities, which only ever see the global arguments and
/// never trigger wallet or configuration loading.
pub enum AnomaClient {
    /// A command handled with a constructed Context.
    WithContext(AnomaClientWithContext),
    /// A utility handled with the global arguments alone.
    WithoutContext(Utils),
}

/// What parsing the client commands yields, with the payload forgotten.
pub open spec fn anoma_client_cmd_res(m: MatchesV) -> Result<Option<()>, ArgFail> {
    or_else(
        tx_custom_cmd_res(m),
        or_else(tx_transfer_cmd_res(m), or_else(tx_update_vp_cmd_res(m), or_else(tx_init_account_cmd_res(m), or_else(tx_init_validator_cmd_res(m), or_else(tx_init_proposal_cmd_res(m), or_else(tx_vote_proposal_cmd_res(m), or_else(bond_cmd_res(m), or_else(unbond_cmd_res(m), or_else(withdraw_cmd_res(m), or_else(query_epoch_cmd_res(m), or_else(query_block_cmd_res(m), or_else(query_balance_cmd_res(m), or_else(query_bonds_cmd_res(m), or_else(query_voting_power_cmd_res(m), or_else(query_slashes_cmd_res(m), or_else(query_result_cmd_res(m), or_else(query_raw_bytes_cmd_res(m), or_else(query_proposal_cmd_res(m), or_else(query_proposal_result_cmd_res(m), or_else(query_protocol_parameters_cmd_res(m), utils_cmd_res(m))))))))))))))))))))),
    )
}

/// Whether the parsed command holds exactly the resolved arguments of the
/// selected child.
pub open spec fn anoma_client_cmd_matches(c: AnomaClient, m: MatchesV) -> bool {
    match c {
        AnomaClient::WithContext(w) => match w {
        AnomaClientWithContext::TxCustom(x) => tx_custom_cmd_matches(x, m),
        AnomaClientWithContext::TxTransfer(x) => tx_transfer_cmd_matches(x, m),
        AnomaClientWithContext::TxUpdateVp(x) => tx_update_vp_cmd_matches(x, m),
        AnomaClientWithContext::TxInitAccount(x) => tx_init_account_cmd_matches(x, m),
        AnomaClientWithContext::TxInitValidator(x) => tx_init_validator_cmd_matches(x, m),
        AnomaClientWithContext::TxInitProposal(x) => tx_init_proposal_cmd_matches(x, m),
        AnomaClientWithContext::TxVoteProposal(x) => tx_vote_proposal_cmd_matches(x, m),
        AnomaClientWithContext::Bond(x) => bond_cmd_matches(x, m),
        AnomaClientWithContext::Unbond(x) => unbond_cmd_matches(x, m),
        AnomaClientWithContext::Withdraw(x) => withdraw_cmd_matches(x, m),
        AnomaClientWithContext::QueryEpoch(x) => query_epoch_cmd_matches(x, m),
        AnomaClientWithContext::QueryBlock(x) => query_block_cmd_matches(x, m),
        AnomaClientWithContext::QueryBalance(x) => query_balance_cmd_matches(x, m),
        AnomaClientWithContext::QueryBonds(x) => query_bonds_cmd_matches(x, m),
        AnomaClientWithContext::QueryVotingPower(x) => query_voting_power_cmd_matches(x, m),
        AnomaClientWithContext::QuerySlashes(x) => query_slashes_cmd_matches(x, m),
        AnomaClientWithContext::QueryResult(x) => query_result_cmd_matches(x, m),
        AnomaClientWithContext::QueryRawBytes(x) => query_raw_bytes_cmd_matches(x, m),
        AnomaClientWithContext::QueryProposal(x) => query_proposal_cmd_matches(x, m),
        AnomaClientWithContext::QueryProposalResult(x) => query_proposal_result_cmd_matches(x, m),
        AnomaClientWithContext::QueryProtocolParameters(x) => query_protocol_parameters_cmd_matches(x, m),
            AnomaClientWithContext::QueryCommissionRate(x) => query_commission_rate_cmd_matches(
                x,
                m,
            ),
        },
        AnomaClient::WithoutContext(u) => utils_cmd_matches(u, m),
    }
}

/// Whether a parsed client command is context-dependent.
pub open spec fn client_needs_context(c: AnomaClient) -> bool {
    c is WithContext
}

/// The children of the client command set.
pub open spec fn anoma_client_children() -> Seq<CmdDefV> {
    seq![
        tx_custom_def(),
        tx_transfer_def(),
        tx_update_vp_def(),
        tx_init_account_def(),
        tx_init_validator_def(),
        tx_init_proposal_def(),
        tx_vote_proposal_def(),
        bond_def(),
        unbond_def(),
        withdraw_def(),
        query_epoch_def(),
        query_block_def(),
        query_balance_def(),
        query_bonds_def(),
        query_voting_power_def(),
        query_slashes_def(),
        query_result_def(),
        query_raw_bytes_def(),
        query_proposal_def(),
        query_proposal_result_def(),
        query_protocol_parameters_def(),
        utils_def(),
    ]
}

/// The declarative definition of the client command set as a nested
/// subcommand.
pub open spec fn anoma_client_def() -> CmdDefV {
    CmdDefV {
        token: "client"@,
        args: Seq::<ArgSpecV>::empty(),
        constraints: Seq::<ConstraintV>::empty(),
        children: anoma_client_children(),
    }
}

impl AnomaClient {
    /// Parses a client command out of the matched input: the children are
    /// tried in order and the first selection wins.
    pub fn parse(matches: &Matches) -> (r: Result<Option<AnomaClient>, ArgError>)
        ensures
            cmd_status(r) == anoma_client_cmd_res(mview(*matches)),
            r matches Result::Ok(Option::Some(c)) ==> anoma_client_cmd_matches(
                c,
                mview(*matches),
            ),
    {
        match TxCustom::parse(matches) {
            Result::Err(e) => {
                return Result::Err(e);
            },
            Result::Ok(Option::Some(c)) => {
                return Result::Ok(
                    Option::Some(AnomaClient::WithContext(AnomaClientWithContext::TxCustom(c))),
                );
            },
            Result::Ok(Option::None) => {},
        }
        match TxTransfer::parse(matches) {
            Result::Err(e) => {
                return Result::Err(e);
            },
            Result::Ok(Option::Some(c)) => {
                return Result::Ok(
                    Option::Some(AnomaClient::WithContext(AnomaClientWithContext::TxTransfer(c))),
                );
            },
            Result::Ok(Option::None) => {},
        }
        match TxUpdateVp::parse(matches) {
            Result::Err(e) => {
                return Result::Err(e);
            },
            Result::Ok(Option::Some(c)) => {
                return Result::Ok(
                    Option::Some(AnomaClient::WithContext(AnomaClientWithContext::TxUpdateVp(c))),
                );
            },
            Result::Ok(Option::None) => {},
        }
        match TxInitAccount::parse(matches) {
            Result::Err(e) => {
                return Result::Err(e);
            },
            Result::Ok(Option::Some(c)) => {
                return Result::Ok(
                    Option::Some(AnomaClient::WithContext(AnomaClientWithContext::TxInitAccount(c))),
                );
            },
            Result::Ok(Option::None) => {},
        }
        match TxInitValidator::parse(matches) {
            Result::Err(e) => {
                return Result::Err(e);
            },
            Result::Ok(Option::Some(c)) => {
                return Result::Ok(
                    Option::Some(AnomaClient::WithContext(AnomaClientWithContext::TxInitValidator(c))),
                );
            },
            Result::Ok(Option::None) => {},
        }
        match TxInitProposal::parse(matches) {
            Result::Err(e) => {
                return Result::Err(e);
            },
            Result::Ok(Option::Some(c)) => {
                return Result::Ok(
                    Option::Some(AnomaClient::WithContext(AnomaClientWithContext::TxInitProposal(c))),
                );
            },
            Result::Ok(Option::None) => {},
        }
        match TxVoteProposal::parse(matches) {
            Result::Err(e) => {
                return Result::Err(e);
            },
            Result::Ok(Option::Some(c)) => {
                return Result::Ok(
                    Option::Some(AnomaClient::WithContext(AnomaClientWithContext::TxVoteProposal(c))),
                );
            },
            Result::Ok(Option::None) => {},
        }
        match Bond::parse(matches) {
            Result::Err(e) => {
                return Result::Err(e);
            },
            Result::Ok(Option::Some(c)) => {
                return Result::Ok(
                    Option::Some(AnomaClient::WithContext(AnomaClientWithContext::Bond(c))),
                );
            },
            Result::Ok(Option::None) => {},
        }
        match Unbond::parse(matches) {
            Result::Err(e) => {
                return Result::Err(e);
            },
            Result::Ok(Option::Some(c)) => {
                return Result::Ok(
                    Option::Some(AnomaClient::WithContext(AnomaClientWithContext::Unbond(c))),
                );
            },
            Result::Ok(Option::None) => {},
        }
        match Withdraw::parse(matches) {
            Result::Err(e) => {
                return Result::Err(e);
            },
            Result::Ok(Option::Some(c)) => {
                return Result::Ok(
                    Option::Some(AnomaClient::WithContext(AnomaClientWithContext::Withdraw(c))),
                );
            },
            Result::Ok(Option::None) => {},
        }
        match QueryEpoch::parse(matches) {
            Result::Err(e) => {
                return Result::Err(e);
            },
            Result::Ok(Option::Some(c)) => {
                return Result::Ok(
                    Option::Some(AnomaClient::WithContext(AnomaClientWithContext::QueryEpoch(c))),
                );
            },
            Result::Ok(Option::None) => {},
        }
        match QueryBlock::parse(matches) {
            Result::Err(e) => {
                return Result::Err(e);
            },
            Result::Ok(Option::Some(c)) => {
                return Result::Ok(
                    Option::Some(AnomaClient::WithContext(AnomaClientWithContext::QueryBlock(c))),
                );
            },
            Result::Ok(Option::None) => {},
        }
        match QueryBalance::parse(matches) {
            Result::Err(e) => {
                return Result::Err(e);
            },
            Result::Ok(Option::Some(c)) => {
                return Result::Ok(
                    Option::Some(AnomaClient::WithContext(AnomaClientWithContext::QueryBalance(c))),
                );
            },
            Result::Ok(Option::None) => {},
        }
        match QueryBonds::parse(matches) {
            Result::Err(e) => {
                return Result::Err(e);
            },
            Result::Ok(Option::Some(c)) => {
                return Result::Ok(
                    Option::Some(AnomaClient::WithContext(AnomaClientWithContext::QueryBonds(c))),
                );
            },
            Result::Ok(Option::None) => {},
        }
        match QueryVotingPower::parse(matches) {
            Result::Err(e) => {
                return Result::Err(e);
            },
            Result::Ok(Option::Some(c)) => {
                return Result::Ok(
                    Option::Some(AnomaClient::WithContext(AnomaClientWithContext::QueryVotingPower(c))),
                );
            },
            Result::Ok(Option::None) => {},
        }
        match QuerySlashes::parse(matches) {
            Result::Err(e) => {
                return Result::Err(e);
            },
            Result::Ok(Option::Some(c)) => {
                return Result::Ok(
                    Option::Some(AnomaClient::WithContext(AnomaClientWithContext::QuerySlashes(c))),
                );
            },
            Result::Ok(Option::None) => {},
        }
        match QueryResult::parse(matches) {
            Result::Err(e) => {
                return Result::Err(e);
            },
            Result::Ok(Option::Some(c)) => {
                return Result::Ok(
                    Option::Some(AnomaClient::WithContext(AnomaClientWithContext::QueryResult(c))),
                );
            },
            Result::Ok(Option::None) => {},
        }
        match QueryRawBytes::parse(matches) {
            Result::Err(e) => {
                return Result::Err(e);
            },
            Result::Ok(Option::Some(c)) => {
                return Result::Ok(
                    Option::Some(AnomaClient::WithContext(AnomaClientWithContext::QueryRawBytes(c))),
                );
            },
            Result::Ok(Option::None) => {},
        }
        match QueryProposal::parse(matches) {
            Result::Err(e) => {
                return Result::Err(e);
            },
            Result::Ok(Option::Some(c)) => {
                return Result::Ok(
                    Option::Some(AnomaClient::WithContext(AnomaClientWithContext::QueryProposal(c))),
                );
            },
            Result::Ok(Option::None) => {},
        }
        match QueryProposalResult::parse(matches) {
            Result::Err(e) => {
                return Result::Err(e);
            },
            Result::Ok(Option::Some(c)) => {
                return Result::Ok(
                    Option::Some(AnomaClient::WithContext(AnomaClientWithContext::QueryProposalResult(c))),
                );
            },
            Result::Ok(Option::None) => {},
        }
        match QueryProtocolParameters::parse(matches) {
            Result::Err(e) => {
                return Result::Err(e);
            },
            Result::Ok(Option::Some(c)) => {
                return Result::Ok(
                    Option::Some(AnomaClient::WithContext(AnomaClientWithContext::QueryProtocolParameters(c))),
                );
            },
            Result::Ok(Option::None) => {},
        }
        match Utils::parse(matches) {
            Result::Err(e) => {
                return Result::Err(e);
            },
            Result::Ok(Option::Some(c)) => {
                return Result::Ok(Option::Some(AnomaClient::WithoutContext(c)));
            },
            Result::Ok(Option::None) => {},
        }
        Result::Ok(Option::None)
    }

    /// Attaches every child command definition to the given command surface.
    pub fn add_sub(app: CmdDef) -> (r: CmdDef)
        ensures
            cview(r) == (CmdDefV {
                children: cview(app).children + anoma_client_children(),
                ..cview(app)
            }),
    {
        let ghost appv = cview(app);
        let r = app.subcommand(TxCustom::def()).subcommand(TxTransfer::def()).subcommand(TxUpdateVp::def()).subcommand(TxInitAccount::def()).subcommand(TxInitValidator::def()).subcommand(TxInitProposal::def()).subcommand(TxVoteProposal::def()).subcommand(Bond::def()).subcommand(Unbond::def()).subcommand(Withdraw::def()).subcommand(QueryEpoch::def()).subcommand(QueryBlock::def()).subcommand(QueryBalance::def()).subcommand(QueryBonds::def()).subcommand(QueryVotingPower::def()).subcommand(QuerySlashes::def()).subcommand(QueryResult::def()).subcommand(QueryRawBytes::def()).subcommand(QueryProposal::def()).subcommand(QueryProposalResult::def()).subcommand(QueryProtocolParameters::def()).subcommand(Utils::def());
        proof {
            assert(cview(r).children =~= appv.children + anoma_client_children());
        }
        r
    }

    /// The declarative definition of the client command set as a nested
    /// subcommand.
    pub fn def() -> (r: CmdDef)
        ensures
            cview(r) == anoma_client_def(),
    {
        let r = Self::add_sub(CmdDef::leaf("client", "Client sub-commands."));
        proof {
            assert(Seq::<CmdDefV>::empty() + anoma_client_children()
                =~= anoma_client_children());
        }
        r
    }
}


/// The commands of the combined tool: the node, client and wallet command
/// sets under their own tokens, and the most common node and client commands
/// inlined at the top level, their definitions shared unchanged.
pub enum Anoma {
    Node(AnomaNode),
    Client(AnomaClient),
    Wallet(AnomaWallet),
    Ledger(Ledger),
    TxCustom(TxCustom),
    TxTransfer(TxTransfer),
    TxUpdateVp(TxUpdateVp),
    TxInitProposal(TxInitProposal),
    TxVoteProposal(TxVoteProposal),
}

/// What descending into the node command set yields.
pub open spec fn anoma_node_sub_res(m: MatchesV) -> Result<Option<()>, ArgFail> {
    match sub_of(m, "node"@) {
        Option::None => Result::Ok(Option::None),
        Option::Some(i) => anoma_node_cmd_res(i),
    }
}

/// What descending into the client command set yields.
pub open spec fn anoma_client_sub_res(m: MatchesV) -> Result<Option<()>, ArgFail> {
    match sub_of(m, "client"@) {
        Option::None => Result::Ok(Option::None),
        Option::Some(i) => anoma_client_cmd_res(i),
    }
}

/// What descending into the wallet command set yields.
pub open spec fn anoma_wallet_sub_res(m: MatchesV) -> Result<Option<()>, ArgFail> {
    match sub_of(m, "wallet"@) {
        Option::None => Result::Ok(Option::None),
        Option::Some(i) => anoma_wallet_cmd_res(i),
    }
}

/// What parsing the combined tool's commands yields, with the payload
/// forgotten.
pub open spec fn anoma_cmd_res(m: MatchesV) -> Result<Option<()>, ArgFail> {
    or_else(
        anoma_node_sub_res(m),
        or_else(
            anoma_client_sub_res(m),
            or_else(
                anoma_wallet_sub_res(m),
                or_else(
                    ledger_cmd_res(m),
                    or_else(
                        tx_custom_cmd_res(m),
                        or_else(
                            tx_transfer_cmd_res(m),
                            or_else(
                                tx_update_vp_cmd_res(m),
                                or_else(tx_init_proposal_cmd_res(m), tx_vote_proposal_cmd_res(m)),
                            ),
                        ),
                    ),
                ),
            ),
        ),
    )
}

/// Whether the parsed command holds exactly the resolved arguments of the
/// selected child.
pub open spec fn anoma_cmd_matches(c: Anoma, m: MatchesV) -> bool {
    match c {
        Anoma::Node(x) => sub_of(m, "node"@) is Some && anoma_node_cmd_matches(
            x,
            sub_of(m, "node"@)->Some_0,
        ),
        Anoma::Client(x) => sub_of(m, "client"@) is Some && anoma_client_cmd_matches(
            x,
            sub_of(m, "client"@)->Some_0,
        ),
        Anoma::Wallet(x) => sub_of(m, "wallet"@) is Some && anoma_wallet_cmd_matches(
            x,
            sub_of(m, "wallet"@)->Some_0,
        ),
        Anoma::Ledger(x) => ledger_cmd_matches(x, m),
        Anoma::TxCustom(x) => tx_custom_cmd_matches(x, m),
        Anoma::TxTransfer(x) => tx_transfer_cmd_matches(x, m),
        Anoma::TxUpdateVp(x) => tx_update_vp_cmd_matches(x, m),
        Anoma::TxInitProposal(x) => tx_init_proposal_cmd_matches(x, m),
        Anoma::TxVoteProposal(x) => tx_vote_proposal_cmd_matches(x, m),
    }
}

/// The children of the combined tool's command set.
pub open spec fn anoma_children() -> Seq<CmdDefV> {
    seq![
        anoma_node_def(),
        anoma_client_def(),
        anoma_wallet_def(),
        ledger_def(),
        tx_custom_def(),
        tx_transfer_def(),
        tx_update_vp_def(),
        tx_init_proposal_def(),
        tx_vote_proposal_def(),
    ]
}

impl Anoma {
    /// Parses a combined-tool command out of the matched input: the children
    /// are tried in order and the first selection wins.
    pub fn parse(matches: &Matches) -> (r: Result<Option<Anoma>, ArgError>)
        ensures
            cmd_status(r) == anoma_cmd_res(mview(*matches)),
            r matches Result::Ok(Option::Some(c)) ==> anoma_cmd_matches(c, mview(*matches)),
    {
        match matches.subcommand_matches("node") {
            Option::Some(inner) => match AnomaNode::parse(inner) {
                Result::Err(e) => {
                    return Result::Err(e);
                },
                Result::Ok(Option::Some(c)) => {
                    return Result::Ok(Option::Some(Anoma::Node(c)));
                },
                Result::Ok(Option::None) => {},
            },
            Option::None => {},
        }
        match matches.subcommand_matches("client") {
            Option::Some(inner) => match AnomaClient::parse(inner) {
                Result::Err(e) => {
                    return Result::Err(e);
                },
                Result::Ok(Option::Some(c)) => {
                    return Result::Ok(Option::Some(Anoma::Client(c)));
                },
                Result::Ok(Option::None) => {},
            },
            Option::None => {},
        }
        match matches.subcommand_matches("wallet") {
            Option::Some(inner) => match AnomaWallet::parse(inner) {
                Result::Err(e) => {
                    return Result::Err(e);
                },
                Result::Ok(Option::Some(c)) => {
                    return Result::Ok(Option::Some(Anoma::Wallet(c)));
                },
                Result::Ok(Option::None) => {},
            },
            Option::None => {},
        }
        match Ledger::parse(matches) {
            Result::Err(e) => {
                return Result::Err(e);
            },
            Result::Ok(Option::Some(c)) => {
                return Result::Ok(Option::Some(Anoma::Ledger(c)));
            },
            Result::Ok(Option::None) => {},
        }
        match TxCustom::parse(matches) {
            Result::Err(e) => {
                return Result::Err(e);
            },
            Result::Ok(Option::Some(c)) => {
                return Result::Ok(Option::Some(Anoma::TxCustom(c)));
            },
            Result::Ok(Option::None) => {},
        }
        match TxTransfer::parse(matches) {
            Result::Err(e) => {
                return Result::Err(e);
            },
            Result::Ok(Option::Some(c)) => {
                return Result::Ok(Option::Some(Anoma::TxTransfer(c)));
            },
            Result::Ok(Option::None) => {},
        }
        match TxUpdateVp::parse(matches) {
            Result::Err(e) => {
                return Result::Err(e);
            },
            Result::Ok(Option::Some(c)) => {
                return Result::Ok(Option::Some(Anoma::TxUpdateVp(c)));
            },
            Result::Ok(Option::None) => {},
        }
        match TxInitProposal::parse(matches) {
            Result::Err(e) => {
                return Result::Err(e);
            },
            Result::Ok(Option::Some(c)) => {
                return Result::Ok(Option::Some(Anoma::TxInitProposal(c)));
            },
            Result::Ok(Option::None) => {},
        }
        match TxVoteProposal::parse(matches) {
            Result::Err(e) => {
                return Result::Err(e);
            },
            Result::Ok(Option::Some(c)) => {
                return Result::Ok(Option::Some(Anoma::TxVoteProposal(c)));
            },
            Result::Ok(Option::None) => {},
        }
        Result::Ok(Option::None)
    }

    /// Attaches every child command definition to the given command surface.
    pub fn add_sub(app: CmdDef) -> (r: CmdDef)
        ensures
            cview(r) == (CmdDefV {
                children: cview(app).children + anoma_children(),
                ..cview(app)
            }),
    {
        let ghost appv = cview(app);
        let r = app.subcommand(AnomaNode::def()).subcommand(AnomaClient::def()).subcommand(
            AnomaWallet::def(),
        ).subcommand(Ledger::def()).subcommand(TxCustom::def()).subcommand(
            TxTransfer::def(),
        ).subcommand(TxUpdateVp::def()).subcommand(TxInitProposal::def()).subcommand(
            TxVoteProposal::def(),
        );
        proof {
            assert(cview(r).children =~= appv.children + anoma_children());
        }
        r
    }
}


/// A context-dependent client command is never the utilities command: its
/// selected token differs from the utilities token, so a `WithContext`
/// dispatch never stands for input that selected a utility. Together with
/// the dispatch contract this pins when a Context is owed.
pub proof fn lemma_with_context_excludes_utils(w: AnomaClientWithContext, m: MatchesV)
    requires
        anoma_client_cmd_matches(AnomaClient::WithContext(w), m),
    ensures
        sub_of(m, "utils"@) is None,
{
    reveal_strlit("utils");
    reveal_strlit("balance");
    reveal_strlit("block");
    reveal_strlit("bond");
    reveal_strlit("bonds");
    reveal_strlit("commission-rate");
    reveal_strlit("epoch");
    reveal_strlit("init-account");
    reveal_strlit("init-proposal");
    reveal_strlit("init-validator");
    reveal_strlit("query-bytes");
    reveal_strlit("query-proposal");
    reveal_strlit("query-proposal-result");
    reveal_strlit("query-protocol-parameters");
    reveal_strlit("slashes");
    reveal_strlit("transfer");
    reveal_strlit("tx");
    reveal_strlit("tx-result");
    reveal_strlit("unbond");
    reveal_strlit("update");
    reveal_strlit("vote-proposal");
    reveal_strlit("voting-power");
    reveal_strlit("withdraw");
    match w {
        AnomaClientWithContext::TxCustom(x) => {
            assert(("tx"@) != ("utils"@)) by {
                assert(("tx"@).len() == 2);
                assert(("utils"@).len() == 5);
            }
        },
        AnomaClientWithContext::TxTransfer(x) => {
            assert(("transfer"@) != ("utils"@)) by {
                assert(("transfer"@).len() == 8);
                assert(("utils"@).len() == 5);
            }
        },
        AnomaClientWithContext::TxUpdateVp(x) => {
            assert(("update"@) != ("utils"@)) by {
                assert(("update"@).len() == 6);
                assert(("utils"@).len() == 5);
            }
        },
        AnomaClientWithContext::TxInitAccount(x) => {
            assert(("init-account"@) != ("utils"@)) by {
                assert(("init-account"@).len() == 12);
                assert(("utils"@).len() == 5);
            }
        },
        AnomaClientWithContext::TxInitValidator(x) => {
            assert(("init-validator"@) != ("utils"@)) by {
                assert(("init-validator"@).len() == 14);
                assert(("utils"@).len() == 5);
            }
        },
        AnomaClientWithContext::TxInitProposal(x) => {
            assert(("init-proposal"@) != ("utils"@)) by {
                assert(("init-proposal"@).len() == 13);
                assert(("utils"@).len() == 5);
            }
        },
        AnomaClientWithContext::TxVoteProposal(x) => {
            assert(("vote-proposal"@) != ("utils"@)) by {
                assert(("vote-proposal"@).len() == 13);
                assert(("utils"@).len() == 5);
            }
        },
        AnomaClientWithContext::Bond(x) => {
            assert(("bond"@) != ("utils"@)) by {
                assert(("bond"@).len() == 4);
                assert(("utils"@).len() == 5);
            }
        },
        AnomaClientWithContext::Unbond(x) => {
            assert(("unbond"@) != ("utils"@)) by {
                assert(("unbond"@).len() == 6);
                assert(("utils"@).len() == 5);
            }
        },
        AnomaClientWithContext::Withdraw(x) => {
            assert(("withdraw"@) != ("utils"@)) by {
                assert(("withdraw"@).len() == 8);
                assert(("utils"@).len() == 5);
            }
        },
        AnomaClientWithContext::QueryEpoch(x) => {
            assert(("epoch"@) != ("utils"@)) by {
                assert(("epoch"@)[0] == 'e');
                assert(("utils"@)[0] == 'u');
            }
        },
        AnomaClientWithContext::QueryBlock(x) => {
            assert(("block"@) != ("utils"@)) by {
                assert(("block"@)[0] == 'b');
                assert(("utils"@)[0] == 'u');
            }
        },
        AnomaClientWithContext::QueryBalance(x) => {
            assert(("balance"@) != ("utils"@)) by {
                assert(("balance"@).len() == 7);
                assert(("utils"@).len() == 5);
            }
        },
        AnomaClientWithContext::QueryBonds(x) => {
            assert(("bonds"@) != ("utils"@)) by {
                assert(("bonds"@)[0] == 'b');
                assert(("utils"@)[0] == 'u');
            }
        },
        AnomaClientWithContext::QueryVotingPower(x) => {
            assert(("voting-power"@) != ("utils"@)) by {
                assert(("voting-power"@).len() == 12);
                assert(("utils"@).len() == 5);
            }
        },
        AnomaClientWithContext::QuerySlashes(x) => {
            assert(("slashes"@) != ("utils"@)) by {
                assert(("slashes"@).len() == 7);
                assert(("utils"@).len() == 5);
            }
        },
        AnomaClientWithContext::QueryResult(x) => {
            assert(("tx-result"@) != ("utils"@)) by {
                assert(("tx-result"@).len() == 9);
                assert(("utils"@).len() == 5);
            }
        },
        AnomaClientWithContext::QueryRawBytes(x) => {
            assert(("query-bytes"@) != ("utils"@)) by {
                assert(("query-bytes"@).len() == 11);
                assert(("utils"@).len() == 5);
            }
        },
        AnomaClientWithContext::QueryProposal(x) => {
            assert(("query-proposal"@) != ("utils"@)) by {
                assert(("query-proposal"@).len() == 14);
                assert(("utils"@).len() == 5);
            }
        },
        AnomaClientWithContext::QueryProposalResult(x) => {
            assert(("query-proposal-result"@) != ("utils"@)) by {
                assert(("query-proposal-result"@).len() == 21);
                assert(("utils"@).len() == 5);
            }
        },
        AnomaClientWithContext::QueryProtocolParameters(x) => {
            assert(("query-protocol-parameters"@) != ("utils"@)) by {
                assert(("query-protocol-parameters"@).len() == 25);
                assert(("utils"@).len() == 5);
            }
        },
        AnomaClientWithContext::QueryCommissionRate(x) => {
            assert(("commission-rate"@) != ("utils"@)) by {
                assert(("commission-rate"@).len() == 15);
                assert(("utils"@).len() == 5);
            }
        },
    }
}


/// The combined tool's dispatcher mapping is unambiguous in both directions:
/// a parsed command is each variant exactly when the selected top-level
/// token is that variant's token — the nine tokens are pairwise distinct,
/// so the token pins the variant.
pub proof fn lemma_anoma_variant_pinned(c: Anoma, m: MatchesV)
    requires
        anoma_cmd_matches(c, m),
    ensures
        (c is Node) <==> sub_token(m) == Option::Some("node"@),
        (c is Client) <==> sub_token(m) == Option::Some("client"@),
        (c is Wallet) <==> sub_token(m) == Option::Some("wallet"@),
        (c is Ledger) <==> sub_token(m) == Option::Some("ledger"@),
        (c is TxCustom) <==> sub_token(m) == Option::Some("tx"@),
        (c is TxTransfer) <==> sub_token(m) == Option::Some("transfer"@),
        (c is TxUpdateVp) <==> sub_token(m) == Option::Some("update"@),
        (c is TxInitProposal) <==> sub_token(m) == Option::Some("init-proposal"@),
        (c is TxVoteProposal) <==> sub_token(m) == Option::Some("vote-proposal"@),
{
    reveal_strlit("node");
    reveal_strlit("client");
    reveal_strlit("wallet");
    reveal_strlit("ledger");
    reveal_strlit("tx");
    reveal_strlit("transfer");
    reveal_strlit("update");
    reveal_strlit("init-proposal");
    reveal_strlit("vote-proposal");
    assert(("node"@) != ("client"@)) by {
        assert(("node"@).len() == 4);
        assert(("client"@).len() == 6);
    }
    assert(("node"@) != ("wallet"@)) by {
        assert(("node"@).len() == 4);
        assert(("wallet"@).len() == 6);
    }
    assert(("node"@) != ("ledger"@)) by {
        assert(("node"@).len() == 4);
        assert(("ledger"@).len() == 6);
    }
    assert(("node"@) != ("tx"@)) by {
        assert(("node"@).len() == 4);
        assert(("tx"@).len() == 2);
    }
    assert(("node"@) != ("transfer"@)) by {
        assert(("node"@).len() == 4);
        assert(("transfer"@).len() == 8);
    }
    assert(("node"@) != ("update"@)) by {
        assert(("node"@).len() == 4);
        assert(("update"@).len() == 6);
    }
    assert(("node"@) != ("init-proposal"@)) by {
        assert(("node"@).len() == 4);
        assert(("init-proposal"@).len() == 13);
    }
    assert(("node"@) != ("vote-proposal"@)) by {
        assert(("node"@).len() == 4);
        assert(("vote-proposal"@).len() == 13);
    }
    assert(("client"@) != ("wallet"@)) by {
        assert(("client"@)[0] == 'c');
        assert(("wallet"@)[0] == 'w');
    }
    assert(("client"@) != ("ledger"@)) by {
        assert(("client"@)[0] == 'c');
        assert(("ledger"@)[0] == 'l');
    }
    assert(("client"@) != ("tx"@)) by {
        assert(("client"@).len() == 6);
        assert(("tx"@).len() == 2);
    }
    assert(("client"@) != ("transfer"@)) by {
        assert(("client"@).len() == 6);
        assert(("transfer"@).len() == 8);
    }
    assert(("client"@) != ("update"@)) by {
        assert(("client"@)[0] == 'c');
        assert(("update"@)[0] == 'u');
    }
    assert(("client"@) != ("init-proposal"@)) by {
        assert(("client"@).len() == 6);
        assert(("init-proposal"@).len() == 13);
    }
    assert(("client"@) != ("vote-proposal"@)) by {
        assert(("client"@).len() == 6);
        assert(("vote-proposal"@).len() == 13);
    }
    assert(("wallet"@) != ("ledger"@)) by {
        assert(("wallet"@)[0] == 'w');
        assert(("ledger"@)[0] == 'l');
    }
    assert(("wallet"@) != ("tx"@)) by {
        assert(("wallet"@).len() == 6);
        assert(("tx"@).len() == 2);
    }
    assert(("wallet"@) != ("transfer"@)) by {
        assert(("wallet"@).len() == 6);
        assert(("transfer"@).len() == 8);
    }
    assert(("wallet"@) != ("update"@)) by {
        assert(("wallet"@)[0] == 'w');
        assert(("update"@)[0] == 'u');
    }
    assert(("wallet"@) != ("init-proposal"@)) by {
        assert(("wallet"@).len() == 6);
        assert(("init-proposal"@).len() == 13);
    }
    assert(("wallet"@) != ("vote-proposal"@)) by {
        assert(("wallet"@).len() == 6);
        assert(("vote-proposal"@).len() == 13);
    }
    assert(("ledger"@) != ("tx"@)) by {
        assert(("ledger"@).len() == 6);
        assert(("tx"@).len() == 2);
    }
    assert(("ledger"@) != ("transfer"@)) by {
        assert(("ledger"@).len() == 6);
        assert(("transfer"@).len() == 8);
    }
    assert(("ledger"@) != ("update"@)) by {
        assert(("ledger"@)[0] == 'l');
        assert(("update"@)[0] == 'u');
    }
    assert(("ledger"@) != ("init-proposal"@)) by {
        assert(("ledger"@).len() == 6);
        assert(("init-proposal"@).len() == 13);
    }
    assert(("ledger"@) != ("vote-proposal"@)) by {
        assert(("ledger"@).len() == 6);
        assert(("vote-proposal"@).len() == 13);
    }
    assert(("tx"@) != ("transfer"@)) by {
        assert(("tx"@).len() == 2);
        assert(("transfer"@).len() == 8);
    }
    assert(("tx"@) != ("update"@)) by {
        assert(("tx"@).len() == 2);
        assert(("update"@).len() == 6);
    }
    assert(("tx"@) != ("init-proposal"@)) by {
        assert(("tx"@).len() == 2);
        assert(("init-proposal"@).len() == 13);
    }
    assert(("tx"@) != ("vote-proposal"@)) by {
        assert(("tx"@).len() == 2);
        assert(("vote-proposal"@).len() == 13);
    }
    assert(("transfer"@) != ("update"@)) by {
        assert(("transfer"@).len() == 8);
        assert(("update"@).len() == 6);
    }
    assert(("transfer"@) != ("init-proposal"@)) by {
        assert(("transfer"@).len() == 8);
        assert(("init-proposal"@).len() == 13);
    }
    assert(("transfer"@) != ("vote-proposal"@)) by {
        assert(("transfer"@).len() == 8);
        assert(("vote-proposal"@).len() == 13);
    }
    assert(("update"@) != ("init-proposal"@)) by {
        assert(("update"@).len() == 6);
        assert(("init-proposal"@).len() == 13);
    }
    assert(("update"@) != ("vote-proposal"@)) by {
        assert(("update"@).len() == 6);
        assert(("vote-proposal"@).len() == 13);
    }
    assert(("init-proposal"@) != ("vote-proposal"@)) by {
        assert(("init-proposal"@)[0] == 'i');
        assert(("vote-proposal"@)[0] == 'v');
    }
    match c {
        Anoma::Node(x) => {
            assert(sub_token(m) == Option::Some("node"@));
        },
        Anoma::Client(x) => {
            assert(sub_token(m) == Option::Some("client"@));
        },
        Anoma::Wallet(x) => {
            assert(sub_token(m) == Option::Some("wallet"@));
        },
        Anoma::Ledger(x) => {
            assert(sub_token(m) == Option::Some("ledger"@));
        },
        Anoma::TxCustom(x) => {
            assert(sub_token(m) == Option::Some("tx"@));
        },
        Anoma::TxTransfer(x) => {
            assert(sub_token(m) == Option::Some("transfer"@));
        },
        Anoma::TxUpdateVp(x) => {
            assert(sub_token(m) == Option::Some("update"@));
        },
        Anoma::TxInitProposal(x) => {
            assert(sub_token(m) == Option::Some("init-proposal"@));
        },
        Anoma::TxVoteProposal(x) => {
            assert(sub_token(m) == Option::Some("vote-proposal"@));
        },
    }
}

/// The client tool's dispatcher mapping is unambiguous in both directions: a
/// parsed command is each context-dependent variant exactly when the
/// selected token is that variant's token, and the utilities variant exactly
/// on the utilities token — the tokens are pairwise distinct, so the token
/// pins the variant.
#[verifier::rlimit(100)]
pub proof fn lemma_anoma_client_variant_pinned(c: AnomaClient, m: MatchesV)
    requires
        anoma_client_cmd_matches(c, m),
    ensures
        (c matches AnomaClient::WithContext(AnomaClientWithContext::TxCustom(x))) <==> sub_token(
            m,
        ) == Option::Some("tx"@),
        (c matches AnomaClient::WithContext(AnomaClientWithContext::TxTransfer(x))) <==> sub_token(
            m,
        ) == Option::Some("transfer"@),
        (c matches AnomaClient::WithContext(AnomaClientWithContext::TxUpdateVp(x))) <==> sub_token(
            m,
        ) == Option::Some("update"@),
        (c matches AnomaClient::WithContext(AnomaClientWithContext::TxInitAccount(x))) <==> sub_token(
            m,
        ) == Option::Some("init-account"@),
        (c matches AnomaClient::WithContext(AnomaClientWithContext::TxInitValidator(x))) <==> sub_token(
            m,
        ) == Option::Some("init-validator"@),
        (c matches AnomaClient::WithContext(AnomaClientWithContext::TxInitProposal(x))) <==> sub_token(
            m,
        ) == Option::Some("init-proposal"@),
        (c matches AnomaClient::WithContext(AnomaClientWithContext::TxVoteProposal(x))) <==> sub_token(
            m,
        ) == Option::Some("vote-proposal"@),
        (c matches AnomaClient::WithContext(AnomaClientWithContext::Bond(x))) <==> sub_token(
            m,
        ) == Option::Some("bond"@),
        (c matches AnomaClient::WithContext(AnomaClientWithContext::Unbond(x))) <==> sub_token(
            m,
        ) == Option::Some("unbond"@),
        (c matches AnomaClient::WithContext(AnomaClientWithContext::Withdraw(x))) <==> sub_token(
            m,
        ) == Option::Some("withdraw"@),
        (c matches AnomaClient::WithContext(AnomaClientWithContext::QueryEpoch(x))) <==> sub_token(
            m,
        ) == Option::Some("epoch"@),
        (c matches AnomaClient::WithContext(AnomaClientWithContext::QueryBlock(x))) <==> sub_token(
            m,
        ) == Option::Some("block"@),
        (c matches AnomaClient::WithContext(AnomaClientWithContext::QueryBalance(x))) <==> sub_token(
            m,
        ) == Option::Some("balance"@),
        (c matches AnomaClient::WithContext(AnomaClientWithContext::QueryBonds(x))) <==> sub_token(
            m,
        ) == Option::Some("bonds"@),
        (c matches AnomaClient::WithContext(AnomaClientWithContext::QueryVotingPower(x))) <==> sub_token(
            m,
        ) == Option::Some("voting-power"@),
        (c matches AnomaClient::WithContext(AnomaClientWithContext::QuerySlashes(x))) <==> sub_token(
            m,
        ) == Option::Some("slashes"@),
        (c matches AnomaClient::WithContext(AnomaClientWithContext::QueryResult(x))) <==> sub_token(
            m,
        ) == Option::Some("tx-result"@),
        (c matches AnomaClient::WithContext(AnomaClientWithContext::QueryRawBytes(x))) <==> sub_token(
            m,
        ) == Option::Some("query-bytes"@),
        (c matches AnomaClient::WithContext(AnomaClientWithContext::QueryProposal(x))) <==> sub_token(
            m,
        ) == Option::Some("query-proposal"@),
        (c matches AnomaClient::WithContext(AnomaClientWithContext::QueryProposalResult(x))) <==> sub_token(
            m,
        ) == Option::Some("query-proposal-result"@),
        (c matches AnomaClient::WithContext(AnomaClientWithContext::QueryProtocolParameters(x))) <==> sub_token(
            m,
        ) == Option::Some("query-protocol-parameters"@),
        (c matches AnomaClient::WithContext(AnomaClientWithContext::QueryCommissionRate(x))) <==> sub_token(
            m,
        ) == Option::Some("commission-rate"@),
        (c is WithoutContext) <==> sub_token(m) == Option::Some("utils"@),
{
    reveal_strlit("tx");
    reveal_strlit("transfer");
    reveal_strlit("update");
    reveal_strlit("init-account");
    reveal_strlit("init-validator");
    reveal_strlit("init-proposal");
    reveal_strlit("vote-proposal");
    reveal_strlit("bond");
    reveal_strlit("unbond");
    reveal_strlit("withdraw");
    reveal_strlit("epoch");
    reveal_strlit("block");
    reveal_strlit("balance");
    reveal_strlit("bonds");
    reveal_strlit("voting-power");
    reveal_strlit("slashes");
    reveal_strlit("tx-result");
    reveal_strlit("query-bytes");
    reveal_strlit("query-proposal");
    reveal_strlit("query-proposal-result");
    reveal_strlit("query-protocol-parameters");
    reveal_strlit("commission-rate");
    reveal_strlit("utils");
    assert(("tx"@) != ("transfer"@)) by {
        assert(("tx"@).len() == 2);
        assert(("transfer"@).len() == 8);
    }
    assert(("tx"@) != ("update"@)) by {
        assert(("tx"@).len() == 2);
        assert(("update"@).len() == 6);
    }
    assert(("tx"@) != ("init-account"@)) by {
        assert(("tx"@).len() == 2);
        assert(("init-account"@).len() == 12);
    }
    assert(("tx"@) != ("init-validator"@)) by {
        assert(("tx"@).len() == 2);
        assert(("init-validator"@).len() == 14);
    }
    assert(("tx"@) != ("init-proposal"@)) by {
        assert(("tx"@).len() == 2);
        assert(("init-proposal"@).len() == 13);
    }
    assert(("tx"@) != ("vote-proposal"@)) by {
        assert(("tx"@).len() == 2);
        assert(("vote-proposal"@).len() == 13);
    }
    assert(("tx"@) != ("bond"@)) by {
        assert(("tx"@).len() == 2);
        assert(("bond"@).len() == 4);
    }
    assert(("tx"@) != ("unbond"@)) by {
        assert(("tx"@).len() == 2);
        assert(("unbond"@).len() == 6);
    }
    assert(("tx"@) != ("withdraw"@)) by {
        assert(("tx"@).len() == 2);
        assert(("withdraw"@).len() == 8);
    }
    assert(("tx"@) != ("epoch"@)) by {
        assert(("tx"@).len() == 2);
        assert(("epoch"@).len() == 5);
    }
    assert(("tx"@) != ("block"@)) by {
        assert(("tx"@).len() == 2);
        assert(("block"@).len() == 5);
    }
    assert(("tx"@) != ("balance"@)) by {
        assert(("tx"@).len() == 2);
        assert(("balance"@).len() == 7);
    }
    assert(("tx"@) != ("bonds"@)) by {
        assert(("tx"@).len() == 2);
        assert(("bonds"@).len() == 5);
    }
    assert(("tx"@) != ("voting-power"@)) by {
        assert(("tx"@).len() == 2);
        assert(("voting-power"@).len() == 12);
    }
    assert(("tx"@) != ("slashes"@)) by {
        assert(("tx"@).len() == 2);
        assert(("slashes"@).len() == 7);
    }
    assert(("tx"@) != ("tx-result"@)) by {
        assert(("tx"@).len() == 2);
        assert(("tx-result"@).len() == 9);
    }
    assert(("tx"@) != ("query-bytes"@)) by {
        assert(("tx"@).len() == 2);
        assert(("query-bytes"@).len() == 11);
    }
    assert(("tx"@) != ("query-proposal"@)) by {
        assert(("tx"@).len() == 2);
        assert(("query-proposal"@).len() == 14);
    }
    assert(("tx"@) != ("query-proposal-result"@)) by {
        assert(("tx"@).len() == 2);
        assert(("query-proposal-result"@).len() == 21);
    }
    assert(("tx"@) != ("query-protocol-parameters"@)) by {
        assert(("tx"@).len() == 2);
        assert(("query-protocol-parameters"@).len() == 25);
    }
    assert(("tx"@) != ("commission-rate"@)) by {
        assert(("tx"@).len() == 2);
        assert(("commission-rate"@).len() == 15);
    }
    assert(("tx"@) != ("utils"@)) by {
        assert(("tx"@).len() == 2);
        assert(("utils"@).len() == 5);
    }
    assert(("transfer"@) != ("update"@)) by {
        assert(("transfer"@).len() == 8);
        assert(("update"@).len() == 6);
    }
    assert(("transfer"@) != ("init-account"@)) by {
        assert(("transfer"@).len() == 8);
        assert(("init-account"@).len() == 12);
    }
    assert(("transfer"@) != ("init-validator"@)) by {
        assert(("transfer"@).len() == 8);
        assert(("init-validator"@).len() == 14);
    }
    assert(("transfer"@) != ("init-proposal"@)) by {
        assert(("transfer"@).len() == 8);
        assert(("init-proposal"@).len() == 13);
    }
    assert(("transfer"@) != ("vote-proposal"@)) by {
        assert(("transfer"@).len() == 8);
        assert(("vote-proposal"@).len() == 13);
    }
    assert(("transfer"@) != ("bond"@)) by {
        assert(("transfer"@).len() == 8);
        assert(("bond"@).len() == 4);
    }
    assert(("transfer"@) != ("unbond"@)) by {
        assert(("transfer"@).len() == 8);
        assert(("unbond"@).len() == 6);
    }
    assert(("transfer"@) != ("withdraw"@)) by {
        assert(("transfer"@)[0] == 't');
        assert(("withdraw"@)[0] == 'w');
    }
    assert(("transfer"@) != ("epoch"@)) by {
        assert(("transfer"@).len() == 8);
        assert(("epoch"@).len() == 5);
    }
    assert(("transfer"@) != ("block"@)) by {
        assert(("transfer"@).len() == 8);
        assert(("block"@).len() == 5);
    }
    assert(("transfer"@) != ("balance"@)) by {
        assert(("transfer"@).len() == 8);
        assert(("balance"@).len() == 7);
    }
    assert(("transfer"@) != ("bonds"@)) by {
        assert(("transfer"@).len() == 8);
        assert(("bonds"@).len() == 5);
    }
    assert(("transfer"@) != ("voting-power"@)) by {
        assert(("transfer"@).len() == 8);
        assert(("voting-power"@).len() == 12);
    }
    assert(("transfer"@) != ("slashes"@)) by {
        assert(("transfer"@).len() == 8);
        assert(("slashes"@).len() == 7);
    }
    assert(("transfer"@) != ("tx-result"@)) by {
        assert(("transfer"@).len() == 8);
        assert(("tx-result"@).len() == 9);
    }
    assert(("transfer"@) != ("query-bytes"@)) by {
        assert(("transfer"@).len() == 8);
        assert(("query-bytes"@).len() == 11);
    }
    assert(("transfer"@) != ("query-proposal"@)) by {
        assert(("transfer"@).len() == 8);
        assert(("query-proposal"@).len() == 14);
    }
    assert(("transfer"@) != ("query-proposal-result"@)) by {
        assert(("transfer"@).len() == 8);
        assert(("query-proposal-result"@).len() == 21);
    }
    assert(("transfer"@) != ("query-protocol-parameters"@)) by {
        assert(("transfer"@).len() == 8);
        assert(("query-protocol-parameters"@).len() == 25);
    }
    assert(("transfer"@) != ("commission-rate"@)) by {
        assert(("transfer"@).len() == 8);
        assert(("commission-rate"@).len() == 15);
    }
    assert(("transfer"@) != ("utils"@)) by {
        assert(("transfer"@).len() == 8);
        assert(("utils"@).len() == 5);
    }
    assert(("update"@) != ("init-account"@)) by {
        assert(("update"@).len() == 6);
        assert(("init-account"@).len() == 12);
    }
    assert(("update"@) != ("init-validator"@)) by {
        assert(("update"@).len() == 6);
        assert(("init-validator"@).len() == 14);
    }
    assert(("update"@) != ("init-proposal"@)) by {
        assert(("update"@).len() == 6);
        assert(("init-proposal"@).len() == 13);
    }
    assert(("update"@) != ("vote-proposal"@)) by {
        assert(("update"@).len() == 6);
        assert(("vote-proposal"@).len() == 13);
    }
    assert(("update"@) != ("bond"@)) by {
        assert(("update"@).len() == 6);
        assert(("bond"@).len() == 4);
    }
    assert(("update"@) != ("unbond"@)) by {
        assert(("update"@)[1] == 'p');
        assert(("unbond"@)[1] == 'n');
    }
    assert(("update"@) != ("withdraw"@)) by {
        assert(("update"@).len() == 6);
        assert(("withdraw"@).len() == 8);
    }
    assert(("update"@) != ("epoch"@)) by {
        assert(("update"@).len() == 6);
        assert(("epoch"@).len() == 5);
    }
    assert(("update"@) != ("block"@)) by {
        assert(("update"@).len() == 6);
        assert(("block"@).len() == 5);
    }
    assert(("update"@) != ("balance"@)) by {
        assert(("update"@).len() == 6);
        assert(("balance"@).len() == 7);
    }
    assert(("update"@) != ("bonds"@)) by {
        assert(("update"@).len() == 6);
        assert(("bonds"@).len() == 5);
    }
    assert(("update"@) != ("voting-power"@)) by {
        assert(("update"@).len() == 6);
        assert(("voting-power"@).len() == 12);
    }
    assert(("update"@) != ("slashes"@)) by {
        assert(("update"@).len() == 6);
        assert(("slashes"@).len() == 7);
    }
    assert(("update"@) != ("tx-result"@)) by {
        assert(("update"@).len() == 6);
        assert(("tx-result"@).len() == 9);
    }
    assert(("update"@) != ("query-bytes"@)) by {
        assert(("update"@).len() == 6);
        assert(("query-bytes"@).len() == 11);
    }
    assert(("update"@) != ("query-proposal"@)) by {
        assert(("update"@).len() == 6);
        assert(("query-proposal"@).len() == 14);
    }
    assert(("update"@) != ("query-proposal-result"@)) by {
        assert(("update"@).len() == 6);
        assert(("query-proposal-result"@).len() == 21);
    }
    assert(("update"@) != ("query-protocol-parameters"@)) by {
        assert(("update"@).len() == 6);
        assert(("query-protocol-parameters"@).len() == 25);
    }
    assert(("update"@) != ("commission-rate"@)) by {
        assert(("update"@).len() == 6);
        assert(("commission-rate"@).len() == 15);
    }
    assert(("update"@) != ("utils"@)) by {
        assert(("update"@).len() == 6);
        assert(("utils"@).len() == 5);
    }
    assert(("init-account"@) != ("init-validator"@)) by {
        assert(("init-account"@).len() == 12);
        assert(("init-validator"@).len() == 14);
    }
    assert(("init-account"@) != ("init-proposal"@)) by {
        assert(("init-account"@).len() == 12);
        assert(("init-proposal"@).len() == 13);
    }
    assert(("init-account"@) != ("vote-proposal"@)) by {
        assert(("init-account"@).len() == 12);
        assert(("vote-proposal"@).len() == 13);
    }
    assert(("init-account"@) != ("bond"@)) by {
        assert(("init-account"@).len() == 12);
        assert(("bond"@).len() == 4);
    }
    assert(("init-account"@) != ("unbond"@)) by {
        assert(("init-account"@).len() == 12);
        assert(("unbond"@).len() == 6);
    }
    assert(("init-account"@) != ("withdraw"@)) by {
        assert(("init-account"@).len() == 12);
        assert(("withdraw"@).len() == 8);
    }
    assert(("init-account"@) != ("epoch"@)) by {
        assert(("init-account"@).len() == 12);
        assert(("epoch"@).len() == 5);
    }
    assert(("init-account"@) != ("block"@)) by {
        assert(("init-account"@).len() == 12);
        assert(("block"@).len() == 5);
    }
    assert(("init-account"@) != ("balance"@)) by {
        assert(("init-account"@).len() == 12);
        assert(("balance"@).len() == 7);
    }
    assert(("init-account"@) != ("bonds"@)) by {
        assert(("init-account"@).len() == 12);
        assert(("bonds"@).len() == 5);
    }
    assert(("init-account"@) != ("voting-power"@)) by {
        assert(("init-account"@)[0] == 'i');
        assert(("voting-power"@)[0] == 'v');
    }
    assert(("init-account"@) != ("slashes"@)) by {
        assert(("init-account"@).len() == 12);
        assert(("slashes"@).len() == 7);
    }
    assert(("init-account"@) != ("tx-result"@)) by {
        assert(("init-account"@).len() == 12);
        assert(("tx-result"@).len() == 9);
    }
    assert(("init-account"@) != ("query-bytes"@)) by {
        assert(("init-account"@).len() == 12);
        assert(("query-bytes"@).len() == 11);
    }
    assert(("init-account"@) != ("query-proposal"@)) by {
        assert(("init-account"@).len() == 12);
        assert(("query-proposal"@).len() == 14);
    }
    assert(("init-account"@) != ("query-proposal-result"@)) by {
        assert(("init-account"@).len() == 12);
        assert(("query-proposal-result"@).len() == 21);
    }
    assert(("init-account"@) != ("query-protocol-parameters"@)) by {
        assert(("init-account"@).len() == 12);
        assert(("query-protocol-parameters"@).len() == 25);
    }
    assert(("init-account"@) != ("commission-rate"@)) by {
        assert(("init-account"@).len() == 12);
        assert(("commission-rate"@).len() == 15);
    }
    assert(("init-account"@) != ("utils"@)) by {
        assert(("init-account"@).len() == 12);
        assert(("utils"@).len() == 5);
    }
    assert(("init-validator"@) != ("init-proposal"@)) by {
        assert(("init-validator"@).len() == 14);
        assert(("init-proposal"@).len() == 13);
    }
    assert(("init-validator"@) != ("vote-proposal"@)) by {
        assert(("init-validator"@).len() == 14);
        assert(("vote-proposal"@).len() == 13);
    }
    assert(("init-validator"@) != ("bond"@)) by {
        assert(("init-validator"@).len() == 14);
        assert(("bond"@).len() == 4);
    }
    assert(("init-validator"@) != ("unbond"@)) by {
        assert(("init-validator"@).len() == 14);
        assert(("unbond"@).len() == 6);
    }
    assert(("init-validator"@) != ("withdraw"@)) by {
        assert(("init-validator"@).len() == 14);
        assert(("withdraw"@).len() == 8);
    }
    assert(("init-validator"@) != ("epoch"@)) by {
        assert(("init-validator"@).len() == 14);
        assert(("epoch"@).len() == 5);
    }
    assert(("init-validator"@) != ("block"@)) by {
        assert(("init-validator"@).len() == 14);
        assert(("block"@).len() == 5);
    }
    assert(("init-validator"@) != ("balance"@)) by {
        assert(("init-validator"@).len() == 14);
        assert(("balance"@).len() == 7);
    }
    assert(("init-validator"@) != ("bonds"@)) by {
        assert(("init-validator"@).len() == 14);
        assert(("bonds"@).len() == 5);
    }
    assert(("init-validator"@) != ("voting-power"@)) by {
        assert(("init-validator"@).len() == 14);
        assert(("voting-power"@).len() == 12);
    }
    assert(("init-validator"@) != ("slashes"@)) by {
        assert(("init-validator"@).len() == 14);
        assert(("slashes"@).len() == 7);
    }
    assert(("init-validator"@) != ("tx-result"@)) by {
        assert(("init-validator"@).len() == 14);
        assert(("tx-result"@).len() == 9);
    }
    assert(("init-validator"@) != ("query-bytes"@)) by {
        assert(("init-validator"@).len() == 14);
        assert(("query-bytes"@).len() == 11);
    }
    assert(("init-validator"@) != ("query-proposal"@)) by {
        assert(("init-validator"@)[0] == 'i');
        assert(("query-proposal"@)[0] == 'q');
    }
    assert(("init-validator"@) != ("query-proposal-result"@)) by {
        assert(("init-validator"@).len() == 14);
        assert(("query-proposal-result"@).len() == 21);
    }
    assert(("init-validator"@) != ("query-protocol-parameters"@)) by {
        assert(("init-validator"@).len() == 14);
        assert(("query-protocol-parameters"@).len() == 25);
    }
    assert(("init-validator"@) != ("commission-rate"@)) by {
        assert(("init-validator"@).len() == 14);
        assert(("commission-rate"@).len() == 15);
    }
    assert(("init-validator"@) != ("utils"@)) by {
        assert(("init-validator"@).len() == 14);
        assert(("utils"@).len() == 5);
    }
    assert(("init-proposal"@) != ("vote-proposal"@)) by {
        assert(("init-proposal"@)[0] == 'i');
        assert(("vote-proposal"@)[0] == 'v');
    }
    assert(("init-proposal"@) != ("bond"@)) by {
        assert(("init-proposal"@).len() == 13);
        assert(("bond"@).len() == 4);
    }
    assert(("init-proposal"@) != ("unbond"@)) by {
        assert(("init-proposal"@).len() == 13);
        assert(("unbond"@).len() == 6);
    }
    assert(("init-proposal"@) != ("withdraw"@)) by {
        assert(("init-proposal"@).len() == 13);
        assert(("withdraw"@).len() == 8);
    }
    assert(("init-proposal"@) != ("epoch"@)) by {
        assert(("init-proposal"@).len() == 13);
        assert(("epoch"@).len() == 5);
    }
    assert(("init-proposal"@) != ("block"@)) by {
        assert(("init-proposal"@).len() == 13);
        assert(("block"@).len() == 5);
    }
    assert(("init-proposal"@) != ("balance"@)) by {
        assert(("init-proposal"@).len() == 13);
        assert(("balance"@).len() == 7);
    }
    assert(("init-proposal"@) != ("bonds"@)) by {
        assert(("init-proposal"@).len() == 13);
        assert(("bonds"@).len() == 5);
    }
    assert(("init-proposal"@) != ("voting-power"@)) by {
        assert(("init-proposal"@).len() == 13);
        assert(("voting-power"@).len() == 12);
    }
    assert(("init-proposal"@) != ("slashes"@)) by {
        assert(("init-proposal"@).len() == 13);
        assert(("slashes"@).len() == 7);
    }
    assert(("init-proposal"@) != ("tx-result"@)) by {
        assert(("init-proposal"@).len() == 13);
        assert(("tx-result"@).len() == 9);
    }
    assert(("init-proposal"@) != ("query-bytes"@)) by {
        assert(("init-proposal"@).len() == 13);
        assert(("query-bytes"@).len() == 11);
    }
    assert(("init-proposal"@) != ("query-proposal"@)) by {
        assert(("init-proposal"@).len() == 13);
        assert(("query-proposal"@).len() == 14);
    }
    assert(("init-proposal"@) != ("query-proposal-result"@)) by {
        assert(("init-proposal"@).len() == 13);
        assert(("query-proposal-result"@).len() == 21);
    }
    assert(("init-proposal"@) != ("query-protocol-parameters"@)) by {
        assert(("init-proposal"@).len() == 13);
        assert(("query-protocol-parameters"@).len() == 25);
    }
    assert(("init-proposal"@) != ("commission-rate"@)) by {
        assert(("init-proposal"@).len() == 13);
        assert(("commission-rate"@).len() == 15);
    }
    assert(("init-proposal"@) != ("utils"@)) by {
        assert(("init-proposal"@).len() == 13);
        assert(("utils"@).len() == 5);
    }
    assert(("vote-proposal"@) != ("bond"@)) by {
        assert(("vote-proposal"@).len() == 13);
        assert(("bond"@).len() == 4);
    }
    assert(("vote-proposal"@) != ("unbond"@)) by {
        assert(("vote-proposal"@).len() == 13);
        assert(("unbond"@).len() == 6);
    }
    assert(("vote-proposal"@) != ("withdraw"@)) by {
        assert(("vote-proposal"@).len() == 13);
        assert(("withdraw"@).len() == 8);
    }
    assert(("vote-proposal"@) != ("epoch"@)) by {
        assert(("vote-proposal"@).len() == 13);
        assert(("epoch"@).len() == 5);
    }
    assert(("vote-proposal"@) != ("block"@)) by {
        assert(("vote-proposal"@).len() == 13);
        assert(("block"@).len() == 5);
    }
    assert(("vote-proposal"@) != ("balance"@)) by {
        assert(("vote-proposal"@).len() == 13);
        assert(("balance"@).len() == 7);
    }
    assert(("vote-proposal"@) != ("bonds"@)) by {
        assert(("vote-proposal"@).len() == 13);
        assert(("bonds"@).len() == 5);
    }
    assert(("vote-proposal"@) != ("voting-power"@)) by {
        assert(("vote-proposal"@).len() == 13);
        assert(("voting-power"@).len() == 12);
    }
    assert(("vote-proposal"@) != ("slashes"@)) by {
        assert(("vote-proposal"@).len() == 13);
        assert(("slashes"@).len() == 7);
    }
    assert(("vote-proposal"@) != ("tx-result"@)) by {
        assert(("vote-proposal"@).len() == 13);
        assert(("tx-result"@).len() == 9);
    }
    assert(("vote-proposal"@) != ("query-bytes"@)) by {
        assert(("vote-proposal"@).len() == 13);
        assert(("query-bytes"@).len() == 11);
    }
    assert(("vote-proposal"@) != ("query-proposal"@)) by {
        assert(("vote-proposal"@).len() == 13);
        assert(("query-proposal"@).len() == 14);
    }
    assert(("vote-proposal"@) != ("query-proposal-result"@)) by {
        assert(("vote-proposal"@).len() == 13);
        assert(("query-proposal-result"@).len() == 21);
    }
    assert(("vote-proposal"@) != ("query-protocol-parameters"@)) by {
        assert(("vote-proposal"@).len() == 13);
        assert(("query-protocol-parameters"@).len() == 25);
    }
    assert(("vote-proposal"@) != ("commission-rate"@)) by {
        assert(("vote-proposal"@).len() == 13);
        assert(("commission-rate"@).len() == 15);
    }
    assert(("vote-proposal"@) != ("utils"@)) by {
        assert(("vote-proposal"@).len() == 13);
        assert(("utils"@).len() == 5);
    }
    assert(("bond"@) != ("unbond"@)) by {
        assert(("bond"@).len() == 4);
        assert(("unbond"@).len() == 6);
    }
    assert(("bond"@) != ("withdraw"@)) by {
        assert(("bond"@).len() == 4);
        assert(("withdraw"@).len() == 8);
    }
    assert(("bond"@) != ("epoch"@)) by {
        assert(("bond"@).len() == 4);
        assert(("epoch"@).len() == 5);
    }
    assert(("bond"@) != ("block"@)) by {
        assert(("bond"@).len() == 4);
        assert(("block"@).len() == 5);
    }
    assert(("bond"@) != ("balance"@)) by {
        assert(("bond"@).len() == 4);
        assert(("balance"@).len() == 7);
    }
    assert(("bond"@) != ("bonds"@)) by {
        assert(("bond"@).len() == 4);
        assert(("bonds"@).len() == 5);
    }
    assert(("bond"@) != ("voting-power"@)) by {
        assert(("bond"@).len() == 4);
        assert(("voting-power"@).len() == 12);
    }
    assert(("bond"@) != ("slashes"@)) by {
        assert(("bond"@).len() == 4);
        assert(("slashes"@).len() == 7);
    }
    assert(("bond"@) != ("tx-result"@)) by {
        assert(("bond"@).len() == 4);
        assert(("tx-result"@).len() == 9);
    }
    assert(("bond"@) != ("query-bytes"@)) by {
        assert(("bond"@).len() == 4);
        assert(("query-bytes"@).len() == 11);
    }
    assert(("bond"@) != ("query-proposal"@)) by {
        assert(("bond"@).len() == 4);
        assert(("query-proposal"@).len() == 14);
    }
    assert(("bond"@) != ("query-proposal-result"@)) by {
        assert(("bond"@).len() == 4);
        assert(("query-proposal-result"@).len() == 21);
    }
    assert(("bond"@) != ("query-protocol-parameters"@)) by {
        assert(("bond"@).len() == 4);
        assert(("query-protocol-parameters"@).len() == 25);
    }
    assert(("bond"@) != ("commission-rate"@)) by {
        assert(("bond"@).len() == 4);
        assert(("commission-rate"@).len() == 15);
    }
    assert(("bond"@) != ("utils"@)) by {
        assert(("bond"@).len() == 4);
        assert(("utils"@).len() == 5);
    }
    assert(("unbond"@) != ("withdraw"@)) by {
        assert(("unbond"@).len() == 6);
        assert(("withdraw"@).len() == 8);
    }
    assert(("unbond"@) != ("epoch"@)) by {
        assert(("unbond"@).len() == 6);
        assert(("epoch"@).len() == 5);
    }
    assert(("unbond"@) != ("block"@)) by {
        assert(("unbond"@).len() == 6);
        assert(("block"@).len() == 5);
    }
    assert(("unbond"@) != ("balance"@)) by {
        assert(("unbond"@).len() == 6);
        assert(("balance"@).len() == 7);
    }
    assert(("unbond"@) != ("bonds"@)) by {
        assert(("unbond"@).len() == 6);
        assert(("bonds"@).len() == 5);
    }
    assert(("unbond"@) != ("voting-power"@)) by {
        assert(("unbond"@).len() == 6);
        assert(("voting-power"@).len() == 12);
    }
    assert(("unbond"@) != ("slashes"@)) by {
        assert(("unbond"@).len() == 6);
        assert(("slashes"@).len() == 7);
    }
    assert(("unbond"@) != ("tx-result"@)) by {
        assert(("unbond"@).len() == 6);
        assert(("tx-result"@).len() == 9);
    }
    assert(("unbond"@) != ("query-bytes"@)) by {
        assert(("unbond"@).len() == 6);
        assert(("query-bytes"@).len() == 11);
    }
    assert(("unbond"@) != ("query-proposal"@)) by {
        assert(("unbond"@).len() == 6);
        assert(("query-proposal"@).len() == 14);
    }
    assert(("unbond"@) != ("query-proposal-result"@)) by {
        assert(("unbond"@).len() == 6);
        assert(("query-proposal-result"@).len() == 21);
    }
    assert(("unbond"@) != ("query-protocol-parameters"@)) by {
        assert(("unbond"@).len() == 6);
        assert(("query-protocol-parameters"@).len() == 25);
    }
    assert(("unbond"@) != ("commission-rate"@)) by {
        assert(("unbond"@).len() == 6);
        assert(("commission-rate"@).len() == 15);
    }
    assert(("unbond"@) != ("utils"@)) by {
        assert(("unbond"@).len() == 6);
        assert(("utils"@).len() == 5);
    }
    assert(("withdraw"@) != ("epoch"@)) by {
        assert(("withdraw"@).len() == 8);
        assert(("epoch"@).len() == 5);
    }
    assert(("withdraw"@) != ("block"@)) by {
        assert(("withdraw"@).len() == 8);
        assert(("block"@).len() == 5);
    }
    assert(("withdraw"@) != ("balance"@)) by {
        assert(("withdraw"@).len() == 8);
        assert(("balance"@).len() == 7);
    }
    assert(("withdraw"@) != ("bonds"@)) by {
        assert(("withdraw"@).len() == 8);
        assert(("bonds"@).len() == 5);
    }
    assert(("withdraw"@) != ("voting-power"@)) by {
        assert(("withdraw"@).len() == 8);
        assert(("voting-power"@).len() == 12);
    }
    assert(("withdraw"@) != ("slashes"@)) by {
        assert(("withdraw"@).len() == 8);
        assert(("slashes"@).len() == 7);
    }
    assert(("withdraw"@) != ("tx-result"@)) by {
        assert(("withdraw"@).len() == 8);
        assert(("tx-result"@).len() == 9);
    }
    assert(("withdraw"@) != ("query-bytes"@)) by {
        assert(("withdraw"@).len() == 8);
        assert(("query-bytes"@).len() == 11);
    }
    assert(("withdraw"@) != ("query-proposal"@)) by {
        assert(("withdraw"@).len() == 8);
        assert(("query-proposal"@).len() == 14);
    }
    assert(("withdraw"@) != ("query-proposal-result"@)) by {
        assert(("withdraw"@).len() == 8);
        assert(("query-proposal-result"@).len() == 21);
    }
    assert(("withdraw"@) != ("query-protocol-parameters"@)) by {
        assert(("withdraw"@).len() == 8);
        assert(("query-protocol-parameters"@).len() == 25);
    }
    assert(("withdraw"@) != ("commission-rate"@)) by {
        assert(("withdraw"@).len() == 8);
        assert(("commission-rate"@).len() == 15);
    }
    assert(("withdraw"@) != ("utils"@)) by {
        assert(("withdraw"@).len() == 8);
        assert(("utils"@).len() == 5);
    }
    assert(("epoch"@) != ("block"@)) by {
        assert(("epoch"@)[0] == 'e');
        assert(("block"@)[0] == 'b');
    }
    assert(("epoch"@) != ("balance"@)) by {
        assert(("epoch"@).len() == 5);
        assert(("balance"@).len() == 7);
    }
    assert(("epoch"@) != ("bonds"@)) by {
        assert(("epoch"@)[0] == 'e');
        assert(("bonds"@)[0] == 'b');
    }
    assert(("epoch"@) != ("voting-power"@)) by {
        assert(("epoch"@).len() == 5);
        assert(("voting-power"@).len() == 12);
    }
    assert(("epoch"@) != ("slashes"@)) by {
        assert(("epoch"@).len() == 5);
        assert(("slashes"@).len() == 7);
    }
    assert(("epoch"@) != ("tx-result"@)) by {
        assert(("epoch"@).len() == 5);
        assert(("tx-result"@).len() == 9);
    }
    assert(("epoch"@) != ("query-bytes"@)) by {
        assert(("epoch"@).len() == 5);
        assert(("query-bytes"@).len() == 11);
    }
    assert(("epoch"@) != ("query-proposal"@)) by {
        assert(("epoch"@).len() == 5);
        assert(("query-proposal"@).len() == 14);
    }
    assert(("epoch"@) != ("query-proposal-result"@)) by {
        assert(("epoch"@).len() == 5);
        assert(("query-proposal-result"@).len() == 21);
    }
    assert(("epoch"@) != ("query-protocol-parameters"@)) by {
        assert(("epoch"@).len() == 5);
        assert(("query-protocol-parameters"@).len() == 25);
    }
    assert(("epoch"@) != ("commission-rate"@)) by {
        assert(("epoch"@).len() == 5);
        assert(("commission-rate"@).len() == 15);
    }
    assert(("epoch"@) != ("utils"@)) by {
        assert(("epoch"@)[0] == 'e');
        assert(("utils"@)[0] == 'u');
    }
    assert(("block"@) != ("balance"@)) by {
        assert(("block"@).len() == 5);
        assert(("balance"@).len() == 7);
    }
    assert(("block"@) != ("bonds"@)) by {
        assert(("block"@)[1] == 'l');
        assert(("bonds"@)[1] == 'o');
    }
    assert(("block"@) != ("voting-power"@)) by {
        assert(("block"@).len() == 5);
        assert(("voting-power"@).len() == 12);
    }
    assert(("block"@) != ("slashes"@)) by {
        assert(("block"@).len() == 5);
        assert(("slashes"@).len() == 7);
    }
    assert(("block"@) != ("tx-result"@)) by {
        assert(("block"@).len() == 5);
        assert(("tx-result"@).len() == 9);
    }
    assert(("block"@) != ("query-bytes"@)) by {
        assert(("block"@).len() == 5);
        assert(("query-bytes"@).len() == 11);
    }
    assert(("block"@) != ("query-proposal"@)) by {
        assert(("block"@).len() == 5);
        assert(("query-proposal"@).len() == 14);
    }
    assert(("block"@) != ("query-proposal-result"@)) by {
        assert(("block"@).len() == 5);
        assert(("query-proposal-result"@).len() == 21);
    }
    assert(("block"@) != ("query-protocol-parameters"@)) by {
        assert(("block"@).len() == 5);
        assert(("query-protocol-parameters"@).len() == 25);
    }
    assert(("block"@) != ("commission-rate"@)) by {
        assert(("block"@).len() == 5);
        assert(("commission-rate"@).len() == 15);
    }
    assert(("block"@) != ("utils"@)) by {
        assert(("block"@)[0] == 'b');
        assert(("utils"@)[0] == 'u');
    }
    assert(("balance"@) != ("bonds"@)) by {
        assert(("balance"@).len() == 7);
        assert(("bonds"@).len() == 5);
    }
    assert(("balance"@) != ("voting-power"@)) by {
        assert(("balance"@).len() == 7);
        assert(("voting-power"@).len() == 12);
    }
    assert(("balance"@) != ("slashes"@)) by {
        assert(("balance"@)[0] == 'b');
        assert(("slashes"@)[0] == 's');
    }
    assert(("balance"@) != ("tx-result"@)) by {
        assert(("balance"@).len() == 7);
        assert(("tx-result"@).len() == 9);
    }
    assert(("balance"@) != ("query-bytes"@)) by {
        assert(("balance"@).len() == 7);
        assert(("query-bytes"@).len() == 11);
    }
    assert(("balance"@) != ("query-proposal"@)) by {
        assert(("balance"@).len() == 7);
        assert(("query-proposal"@).len() == 14);
    }
    assert(("balance"@) != ("query-proposal-result"@)) by {
        assert(("balance"@).len() == 7);
        assert(("query-proposal-result"@).len() == 21);
    }
    assert(("balance"@) != ("query-protocol-parameters"@)) by {
        assert(("balance"@).len() == 7);
        assert(("query-protocol-parameters"@).len() == 25);
    }
    assert(("balance"@) != ("commission-rate"@)) by {
        assert(("balance"@).len() == 7);
        assert(("commission-rate"@).len() == 15);
    }
    assert(("balance"@) != ("utils"@)) by {
        assert(("balance"@).len() == 7);
        assert(("utils"@).len() == 5);
    }
    assert(("bonds"@) != ("voting-power"@)) by {
        assert(("bonds"@).len() == 5);
        assert(("voting-power"@).len() == 12);
    }
    assert(("bonds"@) != ("slashes"@)) by {
        assert(("bonds"@).len() == 5);
        assert(("slashes"@).len() == 7);
    }
    assert(("bonds"@) != ("tx-result"@)) by {
        assert(("bonds"@).len() == 5);
        assert(("tx-result"@).len() == 9);
    }
    assert(("bonds"@) != ("query-bytes"@)) by {
        assert(("bonds"@).len() == 5);
        assert(("query-bytes"@).len() == 11);
    }
    assert(("bonds"@) != ("query-proposal"@)) by {
        assert(("bonds"@).len() == 5);
        assert(("query-proposal"@).len() == 14);
    }
    assert(("bonds"@) != ("query-proposal-result"@)) by {
        assert(("bonds"@).len() == 5);
        assert(("query-proposal-result"@).len() == 21);
    }
    assert(("bonds"@) != ("query-protocol-parameters"@)) by {
        assert(("bonds"@).len() == 5);
        assert(("query-protocol-parameters"@).len() == 25);
    }
    assert(("bonds"@) != ("commission-rate"@)) by {
        assert(("bonds"@).len() == 5);
        assert(("commission-rate"@).len() == 15);
    }
    assert(("bonds"@) != ("utils"@)) by {
        assert(("bonds"@)[0] == 'b');
        assert(("utils"@)[0] == 'u');
    }
    assert(("voting-power"@) != ("slashes"@)) by {
        assert(("voting-power"@).len() == 12);
        assert(("slashes"@).len() == 7);
    }
    assert(("voting-power"@) != ("tx-result"@)) by {
        assert(("voting-power"@).len() == 12);
        assert(("tx-result"@).len() == 9);
    }
    assert(("voting-power"@) != ("query-bytes"@)) by {
        assert(("voting-power"@).len() == 12);
        assert(("query-bytes"@).len() == 11);
    }
    assert(("voting-power"@) != ("query-proposal"@)) by {
        assert(("voting-power"@).len() == 12);
        assert(("query-proposal"@).len() == 14);
    }
    assert(("voting-power"@) != ("query-proposal-result"@)) by {
        assert(("voting-power"@).len() == 12);
        assert(("query-proposal-result"@).len() == 21);
    }
    assert(("voting-power"@) != ("query-protocol-parameters"@)) by {
        assert(("voting-power"@).len() == 12);
        assert(("query-protocol-parameters"@).len() == 25);
    }
    assert(("voting-power"@) != ("commission-rate"@)) by {
        assert(("voting-power"@).len() == 12);
        assert(("commission-rate"@).len() == 15);
    }
    assert(("voting-power"@) != ("utils"@)) by {
        assert(("voting-power"@).len() == 12);
        assert(("utils"@).len() == 5);
    }
    assert(("slashes"@) != ("tx-result"@)) by {
        assert(("slashes"@).len() == 7);
        assert(("tx-result"@).len() == 9);
    }
    assert(("slashes"@) != ("query-bytes"@)) by {
        assert(("slashes"@).len() == 7);
        assert(("query-bytes"@).len() == 11);
    }
    assert(("slashes"@) != ("query-proposal"@)) by {
        assert(("slashes"@).len() == 7);
        assert(("query-proposal"@).len() == 14);
    }
    assert(("slashes"@) != ("query-proposal-result"@)) by {
        assert(("slashes"@).len() == 7);
        assert(("query-proposal-result"@).len() == 21);
    }
    assert(("slashes"@) != ("query-protocol-parameters"@)) by {
        assert(("slashes"@).len() == 7);
        assert(("query-protocol-parameters"@).len() == 25);
    }
    assert(("slashes"@) != ("commission-rate"@)) by {
        assert(("slashes"@).len() == 7);
        assert(("commission-rate"@).len() == 15);
    }
    assert(("slashes"@) != ("utils"@)) by {
        assert(("slashes"@).len() == 7);
        assert(("utils"@).len() == 5);
    }
    assert(("tx-result"@) != ("query-bytes"@)) by {
        assert(("tx-result"@).len() == 9);
        assert(("query-bytes"@).len() == 11);
    }
    assert(("tx-result"@) != ("query-proposal"@)) by {
        assert(("tx-result"@).len() == 9);
        assert(("query-proposal"@).len() == 14);
    }
    assert(("tx-result"@) != ("query-proposal-result"@)) by {
        assert(("tx-result"@).len() == 9);
        assert(("query-proposal-result"@).len() == 21);
    }
    assert(("tx-result"@) != ("query-protocol-parameters"@)) by {
        assert(("tx-result"@).len() == 9);
        assert(("query-protocol-parameters"@).len() == 25);
    }
    assert(("tx-result"@) != ("commission-rate"@)) by {
        assert(("tx-result"@).len() == 9);
        assert(("commission-rate"@).len() == 15);
    }
    assert(("tx-result"@) != ("utils"@)) by {
        assert(("tx-result"@).len() == 9);
        assert(("utils"@).len() == 5);
    }
    assert(("query-bytes"@) != ("query-proposal"@)) by {
        assert(("query-bytes"@).len() == 11);
        assert(("query-proposal"@).len() == 14);
    }
    assert(("query-bytes"@) != ("query-proposal-result"@)) by {
        assert(("query-bytes"@).len() == 11);
        assert(("query-proposal-result"@).len() == 21);
    }
    assert(("query-bytes"@) != ("query-protocol-parameters"@)) by {
        assert(("query-bytes"@).len() == 11);
        assert(("query-protocol-parameters"@).len() == 25);
    }
    assert(("query-bytes"@) != ("commission-rate"@)) by {
        assert(("query-bytes"@).len() == 11);
        assert(("commission-rate"@).len() == 15);
    }
    assert(("query-bytes"@) != ("utils"@)) by {
        assert(("query-bytes"@).len() == 11);
        assert(("utils"@).len() == 5);
    }
    assert(("query-proposal"@) != ("query-proposal-result"@)) by {
        assert(("query-proposal"@).len() == 14);
        assert(("query-proposal-result"@).len() == 21);
    }
    assert(("query-proposal"@) != ("query-protocol-parameters"@)) by {
        assert(("query-proposal"@).len() == 14);
        assert(("query-protocol-parameters"@).len() == 25);
    }
    assert(("query-proposal"@) != ("commission-rate"@)) by {
        assert(("query-proposal"@).len() == 14);
        assert(("commission-rate"@).len() == 15);
    }
    assert(("query-proposal"@) != ("utils"@)) by {
        assert(("query-proposal"@).len() == 14);
        assert(("utils"@).len() == 5);
    }
    assert(("query-proposal-result"@) != ("query-protocol-parameters"@)) by {
        assert(("query-proposal-result"@).len() == 21);
        assert(("query-protocol-parameters"@).len() == 25);
    }
    assert(("query-proposal-result"@) != ("commission-rate"@)) by {
        assert(("query-proposal-result"@).len() == 21);
        assert(("commission-rate"@).len() == 15);
    }
    assert(("query-proposal-result"@) != ("utils"@)) by {
        assert(("query-proposal-result"@).len() == 21);
        assert(("utils"@).len() == 5);
    }
    assert(("query-protocol-parameters"@) != ("commission-rate"@)) by {
        assert(("query-protocol-parameters"@).len() == 25);
        assert(("commission-rate"@).len() == 15);
    }
    assert(("query-protocol-parameters"@) != ("utils"@)) by {
        assert(("query-protocol-parameters"@).len() == 25);
        assert(("utils"@).len() == 5);
    }
    assert(("commission-rate"@) != ("utils"@)) by {
        assert(("commission-rate"@).len() == 15);
        assert(("utils"@).len() == 5);
    }
    match c {
        AnomaClient::WithContext(w) => match w {
            AnomaClientWithContext::TxCustom(x) => {
                assert(sub_token(m) == Option::Some("tx"@));
            },
            AnomaClientWithContext::TxTransfer(x) => {
                assert(sub_token(m) == Option::Some("transfer"@));
            },
            AnomaClientWithContext::TxUpdateVp(x) => {
                assert(sub_token(m) == Option::Some("update"@));
            },
            AnomaClientWithContext::TxInitAccount(x) => {
                assert(sub_token(m) == Option::Some("init-account"@));
            },
            AnomaClientWithContext::TxInitValidator(x) => {
                assert(sub_token(m) == Option::Some("init-validator"@));
            },
            AnomaClientWithContext::TxInitProposal(x) => {
                assert(sub_token(m) == Option::Some("init-proposal"@));
            },
            AnomaClientWithContext::TxVoteProposal(x) => {
                assert(sub_token(m) == Option::Some("vote-proposal"@));
            },
            AnomaClientWithContext::Bond(x) => {
                assert(sub_token(m) == Option::Some("bond"@));
            },
            AnomaClientWithContext::Unbond(x) => {
                assert(sub_token(m) == Option::Some("unbond"@));
            },
            AnomaClientWithContext::Withdraw(x) => {
                assert(sub_token(m) == Option::Some("withdraw"@));
            },
            AnomaClientWithContext::QueryEpoch(x) => {
                assert(sub_token(m) == Option::Some("epoch"@));
            },
            AnomaClientWithContext::QueryBlock(x) => {
                assert(sub_token(m) == Option::Some("block"@));
            },
            AnomaClientWithContext::QueryBalance(x) => {
                assert(sub_token(m) == Option::Some("balance"@));
            },
            AnomaClientWithContext::QueryBonds(x) => {
                assert(sub_token(m) == Option::Some("bonds"@));
            },
            AnomaClientWithContext::QueryVotingPower(x) => {
                assert(sub_token(m) == Option::Some("voting-power"@));
            },
            AnomaClientWithContext::QuerySlashes(x) => {
                assert(sub_token(m) == Option::Some("slashes"@));
            },
            AnomaClientWithContext::QueryResult(x) => {
                assert(sub_token(m) == Option::Some("tx-result"@));
            },
            AnomaClientWithContext::QueryRawBytes(x) => {
                assert(sub_token(m) == Option::Some("query-bytes"@));
            },
            AnomaClientWithContext::QueryProposal(x) => {
                assert(sub_token(m) == Option::Some("query-proposal"@));
            },
            AnomaClientWithContext::QueryProposalResult(x) => {
                assert(sub_token(m) == Option::Some("query-proposal-result"@));
            },
            AnomaClientWithContext::QueryProtocolParameters(x) => {
                assert(sub_token(m) == Option::Some("query-protocol-parameters"@));
            },
            AnomaClientWithContext::QueryCommissionRate(x) => {
                assert(sub_token(m) == Option::Some("commission-rate"@));
            },
        },
        AnomaClient::WithoutContext(u) => {
            assert(sub_token(m) == Option::Some("utils"@));
        },
    }
}

} // verus!
