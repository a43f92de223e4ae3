//! A declarative command-definition and argument-resolution core for a family
//! of command-line tools that share one command vocabulary: a combined tool,
//! a node tool, a client tool and a wallet tool.

pub mod args;
pub mod cmds;
pub mod composition;
pub mod constraints;
pub mod context;
pub mod decimal;
pub mod defs;
pub mod resolve;
pub mod matches;
pub mod tokenize;
pub mod values;

use vstd::prelude::*;

use crate::args::{global_args, global_matches, global_res, Global};
use crate::cmds::{
    anoma_children, anoma_client_cmd_matches, anoma_client_cmd_res, anoma_cmd_matches,
    anoma_cmd_res, anoma_node_children, anoma_node_cmd_matches, anoma_node_cmd_res,
    anoma_wallet_children, anoma_wallet_cmd_matches, anoma_wallet_cmd_res, Anoma, AnomaNode,
    AnomaWallet, Utils,
};
use crate::constraints::{check_tree, spec_check_tree, ConstraintErrV, ConstraintError};
use crate::defs::{cview, CmdDef, CmdDefV, ConstraintV};
use crate::matches::{mview, str_views, sub_of, sub_token, Matches, MatchesV};
use crate::resolve::{aeview, ArgError, ArgFail};
use crate::tokenize::{spec_tokenize, teview, tokenize, TokErrV, TokenizeError};

verus! {
/// Compares two string slices character by character.
pub fn str_eq(a: &str, b: &str) -> (r: bool)
    ensures
        r == (a@ == b@),
{
    let alen = a.unicode_len();
    let blen = b.unicode_len();
    if alen != blen {
        proof {
            assert(a@ != b@) by {
                assert(a@.len() != b@.len());
            }
        }
        return false;
    }
    let mut i: usize = 0;
    while i < alen
        invariant
            0 <= i <= alen,
            alen == a@.len(),
            alen == b@.len(),
            forall|j: int| 0 <= j < i ==> a@[j] == b@[j],
        decreases alen - i,
    {
        if a.get_char(i) != b.get_char(i) {
            return false;
        }
        i += 1;
    }
    proof {
        assert(a@ =~= b@);
    }
    true
}

/// The process exit code used when no command matched, usage was printed, or
/// parsing failed.
pub const EXIT_USAGE: i32 = 2;

/// Why a whole invocation was rejected. Every variant is terminal: the
/// caller reports it and exits, nothing is retried.
#[derive(Debug)]
pub enum CliError {
    /// Raw input did not match the command tree.
    Tokenize(TokenizeError),
    /// A declared constraint over argument groups was violated.
    Constraint(ConstraintError),
    /// A selected command's argument was absent or malformed.
    Arg(ArgError),
    /// No command matched: the caller prints usage and exits with
    /// `EXIT_USAGE`.
    NoCommand,
}

/// Mathematical model of an invocation error.
pub ghost enum CliErrV {
    Tokenize(TokErrV),
    Constraint(ConstraintErrV),
    Arg(ArgFail),
    NoCommand,
}

/// The model of an invocation error.
pub open spec fn celview(e: CliError) -> CliErrV {
    match e {
        CliError::Tokenize(t) => CliErrV::Tokenize(teview(t)),
        CliError::Constraint(c) => CliErrV::Constraint(crate::constraints::ceview(c)),
        CliError::Arg(a) => CliErrV::Arg(aeview(a)),
        CliError::NoCommand => CliErrV::NoCommand,
    }
}

/// The outcome of an invocation, with the payload forgotten.
pub open spec fn cli_status<T>(r: Result<T, CliError>) -> Result<(), CliErrV> {
    match r {
        Result::Ok(x) => Result::Ok(()),
        Result::Err(e) => Result::Err(celview(e)),
    }
}

/// The matched-argument tree of an invocation: raw tokens are matched
/// against the command tree, and every declared constraint along the
/// selected path is enforced before any command-specific parsing.
pub open spec fn spec_matched(tree: CmdDefV, toks: Seq<Seq<char>>) -> Result<MatchesV, CliErrV> {
    match spec_tokenize(tree, toks) {
        Result::Err(e) => Result::Err(CliErrV::Tokenize(e)),
        Result::Ok(m) => match spec_check_tree(tree, m) {
            Result::Err(e) => Result::Err(CliErrV::Constraint(e)),
            Result::Ok(u) => Result::Ok(m),
        },
    }
}

/// Matches raw tokens against a command tree and enforces the declared
/// constraints, uniformly for every command.
pub fn matched(tree: &CmdDef, toks: &Vec<String>) -> (r: Result<Matches, CliError>)
    ensures
        match r {
            Result::Ok(m) => spec_matched(cview(*tree), str_views(toks@)) == Result::<
                MatchesV,
                CliErrV,
            >::Ok(mview(m)),
            Result::Err(e) => spec_matched(cview(*tree), str_views(toks@)) == Result::<
                MatchesV,
                CliErrV,
            >::Err(celview(e)),
        },
{
    let m = match tokenize(tree, toks) {
        Result::Ok(m) => m,
        Result::Err(e) => {
            return Result::Err(CliError::Tokenize(e));
        },
    };
    match check_tree(tree, &m) {
        Result::Ok(u) => Result::Ok(m),
        Result::Err(e) => Result::Err(CliError::Constraint(e)),
    }
}

/// The root definition of the combined tool.
pub open spec fn anoma_app_def() -> CmdDefV {
    CmdDefV {
        token: "Namada"@,
        args: global_args(),
        constraints: Seq::<ConstraintV>::empty(),
        children: anoma_children(),
    }
}

/// Builds the command tree of the combined tool.
pub fn anoma_app() -> (r: CmdDef)
    ensures
        cview(r) == anoma_app_def(),
{
    let root = Global::def(CmdDef::leaf("Namada", "Command-line interface of the combined tool."));
    let r = Anoma::add_sub(root);
    proof {
        assert(cview(r).args =~= global_args());
        assert(cview(r).children =~= anoma_children());
        assert(cview(r).constraints =~= Seq::<ConstraintV>::empty());
    }
    r
}

/// The root definition of the node tool.
pub open spec fn anoma_node_app_def() -> CmdDefV {
    CmdDefV {
        token: "Namada"@,
        args: global_args(),
        constraints: Seq::<ConstraintV>::empty(),
        children: anoma_node_children(),
    }
}

/// Builds the command tree of the node tool.
pub fn anoma_node_app() -> (r: CmdDef)
    ensures
        cview(r) == anoma_node_app_def(),
{
    let root = Global::def(CmdDef::leaf("Namada", "Command-line interface of the node tool."));
    let r = AnomaNode::add_sub(root);
    proof {
        assert(cview(r).args =~= global_args());
        assert(cview(r).children =~= anoma_node_children());
        assert(cview(r).constraints =~= Seq::<ConstraintV>::empty());
    }
    r
}

/// The root definition of the client tool.
pub open spec fn anoma_client_app_def() -> CmdDefV {
    CmdDefV {
        token: "Namada"@,
        args: global_args(),
        constraints: Seq::<ConstraintV>::empty(),
        children: crate::cmds::anoma_client_children(),
    }
}

/// Builds the command tree of the client tool.
pub fn anoma_client_app() -> (r: CmdDef)
    ensures
        cview(r) == anoma_client_app_def(),
{
    let root = Global::def(CmdDef::leaf("Namada", "Command-line interface of the client tool."));
    let r = cmds::AnomaClient::add_sub(root);
    proof {
        assert(cview(r).args =~= global_args());
        assert(cview(r).children =~= crate::cmds::anoma_client_children());
        assert(cview(r).constraints =~= Seq::<ConstraintV>::empty());
    }
    r
}

/// The root definition of the wallet tool.
pub open spec fn anoma_wallet_app_def() -> CmdDefV {
    CmdDefV {
        token: "Namada"@,
        args: global_args(),
        constraints: Seq::<ConstraintV>::empty(),
        children: anoma_wallet_children(),
    }
}

/// Builds the command tree of the wallet tool.
pub fn anoma_wallet_app() -> (r: CmdDef)
    ensures
        cview(r) == anoma_wallet_app_def(),
{
    let root = Global::def(CmdDef::leaf("Namada", "Command-line interface of the wallet tool."));
    let r = AnomaWallet::add_sub(root);
    proof {
        assert(cview(r).args =~= global_args());
        assert(cview(r).children =~= anoma_wallet_children());
        assert(cview(r).constraints =~= Seq::<ConstraintV>::empty());
    }
    r
}

/// What invoking the combined tool yields, with the payload forgotten: the
/// first tokenize, constraint or argument error; no command selected; or one
/// command.
pub open spec fn anoma_outcome(toks: Seq<Seq<char>>) -> Result<(), CliErrV> {
    match spec_matched(anoma_app_def(), toks) {
        Result::Err(e) => Result::Err(e),
        Result::Ok(m) => match anoma_cmd_res(m) {
            Result::Err(a) => Result::Err(CliErrV::Arg(a)),
            Result::Ok(o) => match o {
                Option::Some(u) => Result::Ok(()),
                Option::None => Result::Err(CliErrV::NoCommand),
            },
        },
    }
}

/// Parses one invocation of the combined tool from raw tokens (the process
/// arguments after the program name), yielding the typed command and the raw
/// top-level token that selected it. With no command, the caller prints
/// usage and exits with `EXIT_USAGE`.
pub fn anoma_cli(args: &Vec<String>) -> (r: Result<(Anoma, String), CliError>)
    ensures
        cli_status(r) == anoma_outcome(str_views(args@)),
        r matches Result::Ok(p) ==> spec_matched(anoma_app_def(), str_views(args@)) matches
            Result::Ok(m) && anoma_cmd_matches(p.0, m) && sub_token(m) == Option::Some(p.1@),
{
    let tree = anoma_app();
    let m = match matched(&tree, args) {
        Result::Ok(m) => m,
        Result::Err(e) => {
            return Result::Err(e);
        },
    };
    let cmd = match Anoma::parse(&m) {
        Result::Err(e) => {
            return Result::Err(CliError::Arg(e));
        },
        Result::Ok(Option::None) => {
            return Result::Err(CliError::NoCommand);
        },
        Result::Ok(Option::Some(c)) => c,
    };
    match m.sub_token_string() {
        Option::Some(raw) => Result::Ok((cmd, raw)),
        Option::None => {
            proof {
                assert(false);
            }
            Result::Err(CliError::NoCommand)
        },
    }
}

/// What invoking the node tool yields, with the payload forgotten.
pub open spec fn anoma_node_outcome(toks: Seq<Seq<char>>) -> Result<(), CliErrV> {
    match spec_matched(anoma_node_app_def(), toks) {
        Result::Err(e) => Result::Err(e),
        Result::Ok(m) => match anoma_node_cmd_res(m) {
            Result::Err(a) => Result::Err(CliErrV::Arg(a)),
            Result::Ok(o) => match o {
                Option::Some(u) => match global_res(m) {
                    Result::Err(a) => Result::Err(CliErrV::Arg(a)),
                    Result::Ok(w) => Result::Ok(()),
                },
                Option::None => Result::Err(CliErrV::NoCommand),
            },
        },
    }
}

/// Parses one invocation of the node tool: the typed command together with
/// the global arguments it runs under. Every node command is
/// context-dependent: the caller constructs the Context from the returned
/// global arguments.
pub fn anoma_node_cli(args: &Vec<String>, env: &Vec<(String, String)>) -> (r: Result<
    (AnomaNode, Global),
    CliError,
>)
    ensures
        cli_status(r) == anoma_node_outcome(str_views(args@)),
        r matches Result::Ok(p) ==> spec_matched(anoma_node_app_def(), str_views(args@)) matches
            Result::Ok(m) && anoma_node_cmd_matches(p.0, m) && global_matches(
            p.1,
            m,
            crate::matches::opt_views(env@),
        ),
{
    let tree = anoma_node_app();
    let m = match matched(&tree, args) {
        Result::Ok(m) => m,
        Result::Err(e) => {
            return Result::Err(e);
        },
    };
    let cmd = match AnomaNode::parse(&m) {
        Result::Err(e) => {
            return Result::Err(CliError::Arg(e));
        },
        Result::Ok(Option::None) => {
            return Result::Err(CliError::NoCommand);
        },
        Result::Ok(Option::Some(c)) => c,
    };
    match Global::parse(&m, env) {
        Result::Ok(g) => Result::Ok((cmd, g)),
        Result::Err(e) => Result::Err(CliError::Arg(e)),
    }
}

/// What invoking the wallet tool yields, with the payload forgotten.
pub open spec fn anoma_wallet_outcome(toks: Seq<Seq<char>>) -> Result<(), CliErrV> {
    match spec_matched(anoma_wallet_app_def(), toks) {
        Result::Err(e) => Result::Err(e),
        Result::Ok(m) => match anoma_wallet_cmd_res(m) {
            Result::Err(a) => Result::Err(CliErrV::Arg(a)),
            Result::Ok(o) => match o {
                Option::Some(u) => match global_res(m) {
                    Result::Err(a) => Result::Err(CliErrV::Arg(a)),
                    Result::Ok(w) => Result::Ok(()),
                },
                Option::None => Result::Err(CliErrV::NoCommand),
            },
        },
    }
}

/// Parses one invocation of the wallet tool: the typed command together with
/// the global arguments it runs under. Every wallet command is
/// context-dependent: the caller constructs the Context from the returned
/// global arguments.
pub fn anoma_wallet_cli(args: &Vec<String>, env: &Vec<(String, String)>) -> (r: Result<
    (AnomaWallet, Global),
    CliError,
>)
    ensures
        cli_status(r) == anoma_wallet_outcome(str_views(args@)),
        r matches Result::Ok(p) ==> spec_matched(
            anoma_wallet_app_def(),
            str_views(args@),
        ) matches Result::Ok(m) && anoma_wallet_cmd_matches(p.0, m) && global_matches(
            p.1,
            m,
            crate::matches::opt_views(env@),
        ),
{
    let tree = anoma_wallet_app();
    let m = match matched(&tree, args) {
        Result::Ok(m) => m,
        Result::Err(e) => {
            return Result::Err(e);
        },
    };
    let cmd = match AnomaWallet::parse(&m) {
        Result::Err(e) => {
            return Result::Err(CliError::Arg(e));
        },
        Result::Ok(Option::None) => {
            return Result::Err(CliError::NoCommand);
        },
        Result::Ok(Option::Some(c)) => c,
    };
    match Global::parse(&m, env) {
        Result::Ok(g) => Result::Ok((cmd, g)),
        Result::Err(e) => Result::Err(CliError::Arg(e)),
    }
}

/// A dispatched client invocation. Only the `WithContext` variant asks its
/// caller to construct a Context (wallet and configuration); a
/// `WithoutContext` command runs on the global arguments alone and never
/// triggers wallet or configuration loading.
pub enum AnomaClient {
    /// A utility command and the global arguments: no Context is built.
    WithoutContext(Utils, Global),
    /// A context-dependent command and the global arguments to construct
    /// its Context from.
    WithContext(cmds::AnomaClientWithContext, Global),
}

/// What invoking the client tool yields, with the payload forgotten.
pub open spec fn anoma_client_outcome(toks: Seq<Seq<char>>) -> Result<(), CliErrV> {
    match spec_matched(anoma_client_app_def(), toks) {
        Result::Err(e) => Result::Err(e),
        Result::Ok(m) => match anoma_client_cmd_res(m) {
            Result::Err(a) => Result::Err(CliErrV::Arg(a)),
            Result::Ok(o) => match o {
                Option::Some(u) => match global_res(m) {
                    Result::Err(a) => Result::Err(CliErrV::Arg(a)),
                    Result::Ok(w) => Result::Ok(()),
                },
                Option::None => Result::Err(CliErrV::NoCommand),
            },
        },
    }
}

/// Whether a dispatched client invocation corresponds to the matched input
/// and environment.
pub open spec fn anoma_client_dispatch_matches(
    r: AnomaClient,
    m: MatchesV,
    env: Seq<(Seq<char>, Seq<char>)>,
) -> bool {
    match r {
        AnomaClient::WithContext(w, g) => anoma_client_cmd_matches(
            cmds::AnomaClient::WithContext(w),
            m,
        ) && global_matches(g, m, env),
        AnomaClient::WithoutContext(u, g) => anoma_client_cmd_matches(
            cmds::AnomaClient::WithoutContext(u),
            m,
        ) && global_matches(g, m, env),
    }
}

/// Parses one invocation of the client tool and decides whether a Context is
/// owed: exactly the context-dependent commands come back as `WithContext`,
/// and only for those does the caller construct a Context, exactly once.
pub fn anoma_client_cli(args: &Vec<String>, env: &Vec<(String, String)>) -> (r: Result<
    AnomaClient,
    CliError,
>)
    ensures
        cli_status(r) == anoma_client_outcome(str_views(args@)),
        r matches Result::Ok(c) ==> spec_matched(
            anoma_client_app_def(),
            str_views(args@),
        ) matches Result::Ok(m) && anoma_client_dispatch_matches(
            c,
            m,
            crate::matches::opt_views(env@),
        ),
        // Context is owed exactly to context-dependent commands: a
        // `WithContext` dispatch never stands for input that selected the
        // utilities, and a `WithoutContext` dispatch always does.
        r matches Result::Ok(c) ==> ((c is WithContext) <==> sub_of(
            spec_matched(anoma_client_app_def(), str_views(args@))->Ok_0,
            "utils"@,
        ) is None),
{
    let tree = anoma_client_app();
    let m = match matched(&tree, args) {
        Result::Ok(m) => m,
        Result::Err(e) => {
            return Result::Err(e);
        },
    };
    let cmd = match cmds::AnomaClient::parse(&m) {
        Result::Err(e) => {
            return Result::Err(CliError::Arg(e));
        },
        Result::Ok(Option::None) => {
            return Result::Err(CliError::NoCommand);
        },
        Result::Ok(Option::Some(c)) => c,
    };
    let global = match Global::parse(&m, env) {
        Result::Ok(g) => g,
        Result::Err(e) => {
            return Result::Err(CliError::Arg(e));
        },
    };
    match cmd {
        cmds::AnomaClient::WithContext(sub_cmd) => {
            proof {
                crate::cmds::lemma_with_context_excludes_utils(sub_cmd, mview(m));
            }
            Result::Ok(AnomaClient::WithContext(sub_cmd, global))
        },
        cmds::AnomaClient::WithoutContext(sub_cmd) => Result::Ok(
            AnomaClient::WithoutContext(sub_cmd, global),
        ),
    }
}

} // verus!
