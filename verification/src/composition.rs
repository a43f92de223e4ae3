//! Build-time shape of the composed command trees: sibling tokens are
//! pairwise distinct at every depth, in all four executables, so matching by
//! exact token equality selects at most one child everywhere; and the
//! round-trip law instantiated on a composed tree: input text constructed
//! for a transfer parses back to exactly the matched tree it was built from,
//! whatever the argument values.

use vstd::prelude::*;

use crate::defs::{find_arg, find_child, wf_tree, Cardinality};
use crate::matches::{MatchesV, SubMatchesV};
use crate::tokenize::{consistent, lemma_render_round_trip, render, spec_tokenize, TokErrV};

verus! {

/// The composed trees are well formed: no two sibling commands share a
/// token, at any depth, in any of the four executables' trees — token
/// matching therefore selects at most one child everywhere, by construction
/// and not by accident.
#[verifier::rlimit(100)]
pub proof fn lemma_composed_trees_well_formed()
    ensures
        wf_tree(crate::anoma_app_def()),
        wf_tree(crate::anoma_node_app_def()),
        wf_tree(crate::anoma_client_app_def()),
        wf_tree(crate::anoma_wallet_app_def()),
{
    reveal_strlit("add");
    reveal_strlit("address");
    reveal_strlit("balance");
    reveal_strlit("block");
    reveal_strlit("bond");
    reveal_strlit("bonds");
    reveal_strlit("client");
    reveal_strlit("config");
    reveal_strlit("epoch");
    reveal_strlit("export");
    reveal_strlit("fetch-wasms");
    reveal_strlit("find");
    reveal_strlit("gen");
    reveal_strlit("init-account");
    reveal_strlit("init-genesis-validator");
    reveal_strlit("init-network");
    reveal_strlit("init-proposal");
    reveal_strlit("init-validator");
    reveal_strlit("join-network");
    reveal_strlit("key");
    reveal_strlit("ledger");
    reveal_strlit("list");
    reveal_strlit("node");
    reveal_strlit("query-bytes");
    reveal_strlit("query-proposal");
    reveal_strlit("query-proposal-result");
    reveal_strlit("query-protocol-parameters");
    reveal_strlit("reset");
    reveal_strlit("run");
    reveal_strlit("slashes");
    reveal_strlit("transfer");
    reveal_strlit("tx");
    reveal_strlit("tx-result");
    reveal_strlit("unbond");
    reveal_strlit("update");
    reveal_strlit("utils");
    reveal_strlit("vote-proposal");
    reveal_strlit("voting-power");
    reveal_strlit("wallet");
    reveal_strlit("withdraw");
    assert(("join-network"@) != ("fetch-wasms"@)) by {
        assert(("join-network"@).len() == 12);
        assert(("fetch-wasms"@).len() == 11);
    }
    assert(("join-network"@) != ("init-network"@)) by {
        assert(("join-network"@)[0] == 'j');
        assert(("init-network"@)[0] == 'i');
    }
    assert(("join-network"@) != ("init-genesis-validator"@)) by {
        assert(("join-network"@).len() == 12);
        assert(("init-genesis-validator"@).len() == 22);
    }
    assert(("fetch-wasms"@) != ("init-network"@)) by {
        assert(("fetch-wasms"@).len() == 11);
        assert(("init-network"@).len() == 12);
    }
    assert(("fetch-wasms"@) != ("init-genesis-validator"@)) by {
        assert(("fetch-wasms"@).len() == 11);
        assert(("init-genesis-validator"@).len() == 22);
    }
    assert(("init-network"@) != ("init-genesis-validator"@)) by {
        assert(("init-network"@).len() == 12);
        assert(("init-genesis-validator"@).len() == 22);
    }
    assert(("gen"@) != ("find"@)) by {
        assert(("gen"@).len() == 3);
        assert(("find"@).len() == 4);
    }
    assert(("gen"@) != ("list"@)) by {
        assert(("gen"@).len() == 3);
        assert(("list"@).len() == 4);
    }
    assert(("gen"@) != ("export"@)) by {
        assert(("gen"@).len() == 3);
        assert(("export"@).len() == 6);
    }
    assert(("find"@) != ("list"@)) by {
        assert(("find"@)[0] == 'f');
        assert(("list"@)[0] == 'l');
    }
    assert(("find"@) != ("export"@)) by {
        assert(("find"@).len() == 4);
        assert(("export"@).len() == 6);
    }
    assert(("list"@) != ("export"@)) by {
        assert(("list"@).len() == 4);
        assert(("export"@).len() == 6);
    }
    assert(("gen"@) != ("add"@)) by {
        assert(("gen"@)[0] == 'g');
        assert(("add"@)[0] == 'a');
    }
    assert(("find"@) != ("add"@)) by {
        assert(("find"@).len() == 4);
        assert(("add"@).len() == 3);
    }
    assert(("list"@) != ("add"@)) by {
        assert(("list"@).len() == 4);
        assert(("add"@).len() == 3);
    }
    assert(("run"@) != ("reset"@)) by {
        assert(("run"@).len() == 3);
        assert(("reset"@).len() == 5);
    }
    assert(("ledger"@) != ("config"@)) by {
        assert(("ledger"@)[0] == 'l');
        assert(("config"@)[0] == 'c');
    }
    assert(("key"@) != ("address"@)) by {
        assert(("key"@).len() == 3);
        assert(("address"@).len() == 7);
    }
    assert(("tx"@) != ("transfer"@)) by {
        assert(("tx"@).len() == 2);
        assert(("transfer"@).len() == 8);
    }
    assert(("tx"@) != ("update"@)) by {
        assert(("tx"@).len() == 2);
        assert(("update"@).len() == 6);
    }
    assert(("tx"@) != ("init-account"@)) by {
        assert(("tx"@).len() == 2);
        assert(("init-account"@).len() == 12);
    }
    assert(("tx"@) != ("init-validator"@)) by {
        assert(("tx"@).len() == 2);
        assert(("init-validator"@).len() == 14);
    }
    assert(("tx"@) != ("init-proposal"@)) by {
        assert(("tx"@).len() == 2);
        assert(("init-proposal"@).len() == 13);
    }
    assert(("tx"@) != ("vote-proposal"@)) by {
        assert(("tx"@).len() == 2);
        assert(("vote-proposal"@).len() == 13);
    }
    assert(("tx"@) != ("bond"@)) by {
        assert(("tx"@).len() == 2);
        assert(("bond"@).len() == 4);
    }
    assert(("tx"@) != ("unbond"@)) by {
        assert(("tx"@).len() == 2);
        assert(("unbond"@).len() == 6);
    }
    assert(("tx"@) != ("withdraw"@)) by {
        assert(("tx"@).len() == 2);
        assert(("withdraw"@).len() == 8);
    }
    assert(("tx"@) != ("epoch"@)) by {
        assert(("tx"@).len() == 2);
        assert(("epoch"@).len() == 5);
    }
    assert(("tx"@) != ("block"@)) by {
        assert(("tx"@).len() == 2);
        assert(("block"@).len() == 5);
    }
    assert(("tx"@) != ("balance"@)) by {
        assert(("tx"@).len() == 2);
        assert(("balance"@).len() == 7);
    }
    assert(("tx"@) != ("bonds"@)) by {
        assert(("tx"@).len() == 2);
        assert(("bonds"@).len() == 5);
    }
    assert(("tx"@) != ("voting-power"@)) by {
        assert(("tx"@).len() == 2);
        assert(("voting-power"@).len() == 12);
    }
    assert(("tx"@) != ("slashes"@)) by {
        assert(("tx"@).len() == 2);
        assert(("slashes"@).len() == 7);
    }
    assert(("tx"@) != ("tx-result"@)) by {
        assert(("tx"@).len() == 2);
        assert(("tx-result"@).len() == 9);
    }
    assert(("tx"@) != ("query-bytes"@)) by {
        assert(("tx"@).len() == 2);
        assert(("query-bytes"@).len() == 11);
    }
    assert(("tx"@) != ("query-proposal"@)) by {
        assert(("tx"@).len() == 2);
        assert(("query-proposal"@).len() == 14);
    }
    assert(("tx"@) != ("query-proposal-result"@)) by {
        assert(("tx"@).len() == 2);
        assert(("query-proposal-result"@).len() == 21);
    }
    assert(("tx"@) != ("query-protocol-parameters"@)) by {
        assert(("tx"@).len() == 2);
        assert(("query-protocol-parameters"@).len() == 25);
    }
    assert(("tx"@) != ("utils"@)) by {
        assert(("tx"@).len() == 2);
        assert(("utils"@).len() == 5);
    }
    assert(("transfer"@) != ("update"@)) by {
        assert(("transfer"@).len() == 8);
        assert(("update"@).len() == 6);
    }
    assert(("transfer"@) != ("init-account"@)) by {
        assert(("transfer"@).len() == 8);
        assert(("init-account"@).len() == 12);
    }
    assert(("transfer"@) != ("init-validator"@)) by {
        assert(("transfer"@).len() == 8);
        assert(("init-validator"@).len() == 14);
    }
    assert(("transfer"@) != ("init-proposal"@)) by {
        assert(("transfer"@).len() == 8);
        assert(("init-proposal"@).len() == 13);
    }
    assert(("transfer"@) != ("vote-proposal"@)) by {
        assert(("transfer"@).len() == 8);
        assert(("vote-proposal"@).len() == 13);
    }
    assert(("transfer"@) != ("bond"@)) by {
        assert(("transfer"@).len() == 8);
        assert(("bond"@).len() == 4);
    }
    assert(("transfer"@) != ("unbond"@)) by {
        assert(("transfer"@).len() == 8);
        assert(("unbond"@).len() == 6);
    }
    assert(("transfer"@) != ("withdraw"@)) by {
        assert(("transfer"@)[0] == 't');
        assert(("withdraw"@)[0] == 'w');
    }
    assert(("transfer"@) != ("epoch"@)) by {
        assert(("transfer"@).len() == 8);
        assert(("epoch"@).len() == 5);
    }
    assert(("transfer"@) != ("block"@)) by {
        assert(("transfer"@).len() == 8);
        assert(("block"@).len() == 5);
    }
    assert(("transfer"@) != ("balance"@)) by {
        assert(("transfer"@).len() == 8);
        assert(("balance"@).len() == 7);
    }
    assert(("transfer"@) != ("bonds"@)) by {
        assert(("transfer"@).len() == 8);
        assert(("bonds"@).len() == 5);
    }
    assert(("transfer"@) != ("voting-power"@)) by {
        assert(("transfer"@).len() == 8);
        assert(("voting-power"@).len() == 12);
    }
    assert(("transfer"@) != ("slashes"@)) by {
        assert(("transfer"@).len() == 8);
        assert(("slashes"@).len() == 7);
    }
    assert(("transfer"@) != ("tx-result"@)) by {
        assert(("transfer"@).len() == 8);
        assert(("tx-result"@).len() == 9);
    }
    assert(("transfer"@) != ("query-bytes"@)) by {
        assert(("transfer"@).len() == 8);
        assert(("query-bytes"@).len() == 11);
    }
    assert(("transfer"@) != ("query-proposal"@)) by {
        assert(("transfer"@).len() == 8);
        assert(("query-proposal"@).len() == 14);
    }
    assert(("transfer"@) != ("query-proposal-result"@)) by {
        assert(("transfer"@).len() == 8);
        assert(("query-proposal-result"@).len() == 21);
    }
    assert(("transfer"@) != ("query-protocol-parameters"@)) by {
        assert(("transfer"@).len() == 8);
        assert(("query-protocol-parameters"@).len() == 25);
    }
    assert(("transfer"@) != ("utils"@)) by {
        assert(("transfer"@).len() == 8);
        assert(("utils"@).len() == 5);
    }
    assert(("update"@) != ("init-account"@)) by {
        assert(("update"@).len() == 6);
        assert(("init-account"@).len() == 12);
    }
    assert(("update"@) != ("init-validator"@)) by {
        assert(("update"@).len() == 6);
        assert(("init-validator"@).len() == 14);
    }
    assert(("update"@) != ("init-proposal"@)) by {
        assert(("update"@).len() == 6);
        assert(("init-proposal"@).len() == 13);
    }
    assert(("update"@) != ("vote-proposal"@)) by {
        assert(("update"@).len() == 6);
        assert(("vote-proposal"@).len() == 13);
    }
    assert(("update"@) != ("bond"@)) by {
        assert(("update"@).len() == 6);
        assert(("bond"@).len() == 4);
    }
    assert(("update"@) != ("unbond"@)) by {
        assert(("update"@)[1] == 'p');
        assert(("unbond"@)[1] == 'n');
    }
    assert(("update"@) != ("withdraw"@)) by {
        assert(("update"@).len() == 6);
        assert(("withdraw"@).len() == 8);
    }
    assert(("update"@) != ("epoch"@)) by {
        assert(("update"@).len() == 6);
        assert(("epoch"@).len() == 5);
    }
    assert(("update"@) != ("block"@)) by {
        assert(("update"@).len() == 6);
        assert(("block"@).len() == 5);
    }
    assert(("update"@) != ("balance"@)) by {
        assert(("update"@).len() == 6);
        assert(("balance"@).len() == 7);
    }
    assert(("update"@) != ("bonds"@)) by {
        assert(("update"@).len() == 6);
        assert(("bonds"@).len() == 5);
    }
    assert(("update"@) != ("voting-power"@)) by {
        assert(("update"@).len() == 6);
        assert(("voting-power"@).len() == 12);
    }
    assert(("update"@) != ("slashes"@)) by {
        assert(("update"@).len() == 6);
        assert(("slashes"@).len() == 7);
    }
    assert(("update"@) != ("tx-result"@)) by {
        assert(("update"@).len() == 6);
        assert(("tx-result"@).len() == 9);
    }
    assert(("update"@) != ("query-bytes"@)) by {
        assert(("update"@).len() == 6);
        assert(("query-bytes"@).len() == 11);
    }
    assert(("update"@) != ("query-proposal"@)) by {
        assert(("update"@).len() == 6);
        assert(("query-proposal"@).len() == 14);
    }
    assert(("update"@) != ("query-proposal-result"@)) by {
        assert(("update"@).len() == 6);
        assert(("query-proposal-result"@).len() == 21);
    }
    assert(("update"@) != ("query-protocol-parameters"@)) by {
        assert(("update"@).len() == 6);
        assert(("query-protocol-parameters"@).len() == 25);
    }
    assert(("update"@) != ("utils"@)) by {
        assert(("update"@).len() == 6);
        assert(("utils"@).len() == 5);
    }
    assert(("init-account"@) != ("init-validator"@)) by {
        assert(("init-account"@).len() == 12);
        assert(("init-validator"@).len() == 14);
    }
    assert(("init-account"@) != ("init-proposal"@)) by {
        assert(("init-account"@).len() == 12);
        assert(("init-proposal"@).len() == 13);
    }
    assert(("init-account"@) != ("vote-proposal"@)) by {
        assert(("init-account"@).len() == 12);
        assert(("vote-proposal"@).len() == 13);
    }
    assert(("init-account"@) != ("bond"@)) by {
        assert(("init-account"@).len() == 12);
        assert(("bond"@).len() == 4);
    }
    assert(("init-account"@) != ("unbond"@)) by {
        assert(("init-account"@).len() == 12);
        assert(("unbond"@).len() == 6);
    }
    assert(("init-account"@) != ("withdraw"@)) by {
        assert(("init-account"@).len() == 12);
        assert(("withdraw"@).len() == 8);
    }
    assert(("init-account"@) != ("epoch"@)) by {
        assert(("init-account"@).len() == 12);
        assert(("epoch"@).len() == 5);
    }
    assert(("init-account"@) != ("block"@)) by {
        assert(("init-account"@).len() == 12);
        assert(("block"@).len() == 5);
    }
    assert(("init-account"@) != ("balance"@)) by {
        assert(("init-account"@).len() == 12);
        assert(("balance"@).len() == 7);
    }
    assert(("init-account"@) != ("bonds"@)) by {
        assert(("init-account"@).len() == 12);
        assert(("bonds"@).len() == 5);
    }
    assert(("init-account"@) != ("voting-power"@)) by {
        assert(("init-account"@)[0] == 'i');
        assert(("voting-power"@)[0] == 'v');
    }
    assert(("init-account"@) != ("slashes"@)) by {
        assert(("init-account"@).len() == 12);
        assert(("slashes"@).len() == 7);
    }
    assert(("init-account"@) != ("tx-result"@)) by {
        assert(("init-account"@).len() == 12);
        assert(("tx-result"@).len() == 9);
    }
    assert(("init-account"@) != ("query-bytes"@)) by {
        assert(("init-account"@).len() == 12);
        assert(("query-bytes"@).len() == 11);
    }
    assert(("init-account"@) != ("query-proposal"@)) by {
        assert(("init-account"@).len() == 12);
        assert(("query-proposal"@).len() == 14);
    }
    assert(("init-account"@) != ("query-proposal-result"@)) by {
        assert(("init-account"@).len() == 12);
        assert(("query-proposal-result"@).len() == 21);
    }
    assert(("init-account"@) != ("query-protocol-parameters"@)) by {
        assert(("init-account"@).len() == 12);
        assert(("query-protocol-parameters"@).len() == 25);
    }
    assert(("init-account"@) != ("utils"@)) by {
        assert(("init-account"@).len() == 12);
        assert(("utils"@).len() == 5);
    }
    assert(("init-validator"@) != ("init-proposal"@)) by {
        assert(("init-validator"@).len() == 14);
        assert(("init-proposal"@).len() == 13);
    }
    assert(("init-validator"@) != ("vote-proposal"@)) by {
        assert(("init-validator"@).len() == 14);
        assert(("vote-proposal"@).len() == 13);
    }
    assert(("init-validator"@) != ("bond"@)) by {
        assert(("init-validator"@).len() == 14);
        assert(("bond"@).len() == 4);
    }
    assert(("init-validator"@) != ("unbond"@)) by {
        assert(("init-validator"@).len() == 14);
        assert(("unbond"@).len() == 6);
    }
    assert(("init-validator"@) != ("withdraw"@)) by {
        assert(("init-validator"@).len() == 14);
        assert(("withdraw"@).len() == 8);
    }
    assert(("init-validator"@) != ("epoch"@)) by {
        assert(("init-validator"@).len() == 14);
        assert(("epoch"@).len() == 5);
    }
    assert(("init-validator"@) != ("block"@)) by {
        assert(("init-validator"@).len() == 14);
        assert(("block"@).len() == 5);
    }
    assert(("init-validator"@) != ("balance"@)) by {
        assert(("init-validator"@).len() == 14);
        assert(("balance"@).len() == 7);
    }
    assert(("init-validator"@) != ("bonds"@)) by {
        assert(("init-validator"@).len() == 14);
        assert(("bonds"@).len() == 5);
    }
    assert(("init-validator"@) != ("voting-power"@)) by {
        assert(("init-validator"@).len() == 14);
        assert(("voting-power"@).len() == 12);
    }
    assert(("init-validator"@) != ("slashes"@)) by {
        assert(("init-validator"@).len() == 14);
        assert(("slashes"@).len() == 7);
    }
    assert(("init-validator"@) != ("tx-result"@)) by {
        assert(("init-validator"@).len() == 14);
        assert(("tx-result"@).len() == 9);
    }
    assert(("init-validator"@) != ("query-bytes"@)) by {
        assert(("init-validator"@).len() == 14);
        assert(("query-bytes"@).len() == 11);
    }
    assert(("init-validator"@) != ("query-proposal"@)) by {
        assert(("init-validator"@)[0] == 'i');
        assert(("query-proposal"@)[0] == 'q');
    }
    assert(("init-validator"@) != ("query-proposal-result"@)) by {
        assert(("init-validator"@).len() == 14);
        assert(("query-proposal-result"@).len() == 21);
    }
    assert(("init-validator"@) != ("query-protocol-parameters"@)) by {
        assert(("init-validator"@).len() == 14);
        assert(("query-protocol-parameters"@).len() == 25);
    }
    assert(("init-validator"@) != ("utils"@)) by {
        assert(("init-validator"@).len() == 14);
        assert(("utils"@).len() == 5);
    }
    assert(("init-proposal"@) != ("vote-proposal"@)) by {
        assert(("init-proposal"@)[0] == 'i');
        assert(("vote-proposal"@)[0] == 'v');
    }
    assert(("init-proposal"@) != ("bond"@)) by {
        assert(("init-proposal"@).len() == 13);
        assert(("bond"@).len() == 4);
    }
    assert(("init-proposal"@) != ("unbond"@)) by {
        assert(("init-proposal"@).len() == 13);
        assert(("unbond"@).len() == 6);
    }
    assert(("init-proposal"@) != ("withdraw"@)) by {
        assert(("init-proposal"@).len() == 13);
        assert(("withdraw"@).len() == 8);
    }
    assert(("init-proposal"@) != ("epoch"@)) by {
        assert(("init-proposal"@).len() == 13);
        assert(("epoch"@).len() == 5);
    }
    assert(("init-proposal"@) != ("block"@)) by {
        assert(("init-proposal"@).len() == 13);
        assert(("block"@).len() == 5);
    }
    assert(("init-proposal"@) != ("balance"@)) by {
        assert(("init-proposal"@).len() == 13);
        assert(("balance"@).len() == 7);
    }
    assert(("init-proposal"@) != ("bonds"@)) by {
        assert(("init-proposal"@).len() == 13);
        assert(("bonds"@).len() == 5);
    }
    assert(("init-proposal"@) != ("voting-power"@)) by {
        assert(("init-proposal"@).len() == 13);
        assert(("voting-power"@).len() == 12);
    }
    assert(("init-proposal"@) != ("slashes"@)) by {
        assert(("init-proposal"@).len() == 13);
        assert(("slashes"@).len() == 7);
    }
    assert(("init-proposal"@) != ("tx-result"@)) by {
        assert(("init-proposal"@).len() == 13);
        assert(("tx-result"@).len() == 9);
    }
    assert(("init-proposal"@) != ("query-bytes"@)) by {
        assert(("init-proposal"@).len() == 13);
        assert(("query-bytes"@).len() == 11);
    }
    assert(("init-proposal"@) != ("query-proposal"@)) by {
        assert(("init-proposal"@).len() == 13);
        assert(("query-proposal"@).len() == 14);
    }
    assert(("init-proposal"@) != ("query-proposal-result"@)) by {
        assert(("init-proposal"@).len() == 13);
        assert(("query-proposal-result"@).len() == 21);
    }
    assert(("init-proposal"@) != ("query-protocol-parameters"@)) by {
        assert(("init-proposal"@).len() == 13);
        assert(("query-protocol-parameters"@).len() == 25);
    }
    assert(("init-proposal"@) != ("utils"@)) by {
        assert(("init-proposal"@).len() == 13);
        assert(("utils"@).len() == 5);
    }
    assert(("vote-proposal"@) != ("bond"@)) by {
        assert(("vote-proposal"@).len() == 13);
        assert(("bond"@).len() == 4);
    }
    assert(("vote-proposal"@) != ("unbond"@)) by {
        assert(("vote-proposal"@).len() == 13);
        assert(("unbond"@).len() == 6);
    }
    assert(("vote-proposal"@) != ("withdraw"@)) by {
        assert(("vote-proposal"@).len() == 13);
        assert(("withdraw"@).len() == 8);
    }
    assert(("vote-proposal"@) != ("epoch"@)) by {
        assert(("vote-proposal"@).len() == 13);
        assert(("epoch"@).len() == 5);
    }
    assert(("vote-proposal"@) != ("block"@)) by {
        assert(("vote-proposal"@).len() == 13);
        assert(("block"@).len() == 5);
    }
    assert(("vote-proposal"@) != ("balance"@)) by {
        assert(("vote-proposal"@).len() == 13);
        assert(("balance"@).len() == 7);
    }
    assert(("vote-proposal"@) != ("bonds"@)) by {
        assert(("vote-proposal"@).len() == 13);
        assert(("bonds"@).len() == 5);
    }
    assert(("vote-proposal"@) != ("voting-power"@)) by {
        assert(("vote-proposal"@).len() == 13);
        assert(("voting-power"@).len() == 12);
    }
    assert(("vote-proposal"@) != ("slashes"@)) by {
        assert(("vote-proposal"@).len() == 13);
        assert(("slashes"@).len() == 7);
    }
    assert(("vote-proposal"@) != ("tx-result"@)) by {
        assert(("vote-proposal"@).len() == 13);
        assert(("tx-result"@).len() == 9);
    }
    assert(("vote-proposal"@) != ("query-bytes"@)) by {
        assert(("vote-proposal"@).len() == 13);
        assert(("query-bytes"@).len() == 11);
    }
    assert(("vote-proposal"@) != ("query-proposal"@)) by {
        assert(("vote-proposal"@).len() == 13);
        assert(("query-proposal"@).len() == 14);
    }
    assert(("vote-proposal"@) != ("query-proposal-result"@)) by {
        assert(("vote-proposal"@).len() == 13);
        assert(("query-proposal-result"@).len() == 21);
    }
    assert(("vote-proposal"@) != ("query-protocol-parameters"@)) by {
        assert(("vote-proposal"@).len() == 13);
        assert(("query-protocol-parameters"@).len() == 25);
    }
    assert(("vote-proposal"@) != ("utils"@)) by {
        assert(("vote-proposal"@).len() == 13);
        assert(("utils"@).len() == 5);
    }
    assert(("bond"@) != ("unbond"@)) by {
        assert(("bond"@).len() == 4);
        assert(("unbond"@).len() == 6);
    }
    assert(("bond"@) != ("withdraw"@)) by {
        assert(("bond"@).len() == 4);
        assert(("withdraw"@).len() == 8);
    }
    assert(("bond"@) != ("epoch"@)) by {
        assert(("bond"@).len() == 4);
        assert(("epoch"@).len() == 5);
    }
    assert(("bond"@) != ("block"@)) by {
        assert(("bond"@).len() == 4);
        assert(("block"@).len() == 5);
    }
    assert(("bond"@) != ("balance"@)) by {
        assert(("bond"@).len() == 4);
        assert(("balance"@).len() == 7);
    }
    assert(("bond"@) != ("bonds"@)) by {
        assert(("bond"@).len() == 4);
        assert(("bonds"@).len() == 5);
    }
    assert(("bond"@) != ("voting-power"@)) by {
        assert(("bond"@).len() == 4);
        assert(("voting-power"@).len() == 12);
    }
    assert(("bond"@) != ("slashes"@)) by {
        assert(("bond"@).len() == 4);
        assert(("slashes"@).len() == 7);
    }
    assert(("bond"@) != ("tx-result"@)) by {
        assert(("bond"@).len() == 4);
        assert(("tx-result"@).len() == 9);
    }
    assert(("bond"@) != ("query-bytes"@)) by {
        assert(("bond"@).len() == 4);
        assert(("query-bytes"@).len() == 11);
    }
    assert(("bond"@) != ("query-proposal"@)) by {
        assert(("bond"@).len() == 4);
        assert(("query-proposal"@).len() == 14);
    }
    assert(("bond"@) != ("query-proposal-result"@)) by {
        assert(("bond"@).len() == 4);
        assert(("query-proposal-result"@).len() == 21);
    }
    assert(("bond"@) != ("query-protocol-parameters"@)) by {
        assert(("bond"@).len() == 4);
        assert(("query-protocol-parameters"@).len() == 25);
    }
    assert(("bond"@) != ("utils"@)) by {
        assert(("bond"@).len() == 4);
        assert(("utils"@).len() == 5);
    }
    assert(("unbond"@) != ("withdraw"@)) by {
        assert(("unbond"@).len() == 6);
        assert(("withdraw"@).len() == 8);
    }
    assert(("unbond"@) != ("epoch"@)) by {
        assert(("unbond"@).len() == 6);
        assert(("epoch"@).len() == 5);
    }
    assert(("unbond"@) != ("block"@)) by {
        assert(("unbond"@).len() == 6);
        assert(("block"@).len() == 5);
    }
    assert(("unbond"@) != ("balance"@)) by {
        assert(("unbond"@).len() == 6);
        assert(("balance"@).len() == 7);
    }
    assert(("unbond"@) != ("bonds"@)) by {
        assert(("unbond"@).len() == 6);
        assert(("bonds"@).len() == 5);
    }
    assert(("unbond"@) != ("voting-power"@)) by {
        assert(("unbond"@).len() == 6);
        assert(("voting-power"@).len() == 12);
    }
    assert(("unbond"@) != ("slashes"@)) by {
        assert(("unbond"@).len() == 6);
        assert(("slashes"@).len() == 7);
    }
    assert(("unbond"@) != ("tx-result"@)) by {
        assert(("unbond"@).len() == 6);
        assert(("tx-result"@).len() == 9);
    }
    assert(("unbond"@) != ("query-bytes"@)) by {
        assert(("unbond"@).len() == 6);
        assert(("query-bytes"@).len() == 11);
    }
    assert(("unbond"@) != ("query-proposal"@)) by {
        assert(("unbond"@).len() == 6);
        assert(("query-proposal"@).len() == 14);
    }
    assert(("unbond"@) != ("query-proposal-result"@)) by {
        assert(("unbond"@).len() == 6);
        assert(("query-proposal-result"@).len() == 21);
    }
    assert(("unbond"@) != ("query-protocol-parameters"@)) by {
        assert(("unbond"@).len() == 6);
        assert(("query-protocol-parameters"@).len() == 25);
    }
    assert(("unbond"@) != ("utils"@)) by {
        assert(("unbond"@).len() == 6);
        assert(("utils"@).len() == 5);
    }
    assert(("withdraw"@) != ("epoch"@)) by {
        assert(("withdraw"@).len() == 8);
        assert(("epoch"@).len() == 5);
    }
    assert(("withdraw"@) != ("block"@)) by {
        assert(("withdraw"@).len() == 8);
        assert(("block"@).len() == 5);
    }
    assert(("withdraw"@) != ("balance"@)) by {
        assert(("withdraw"@).len() == 8);
        assert(("balance"@).len() == 7);
    }
    assert(("withdraw"@) != ("bonds"@)) by {
        assert(("withdraw"@).len() == 8);
        assert(("bonds"@).len() == 5);
    }
    assert(("withdraw"@) != ("voting-power"@)) by {
        assert(("withdraw"@).len() == 8);
        assert(("voting-power"@).len() == 12);
    }
    assert(("withdraw"@) != ("slashes"@)) by {
        assert(("withdraw"@).len() == 8);
        assert(("slashes"@).len() == 7);
    }
    assert(("withdraw"@) != ("tx-result"@)) by {
        assert(("withdraw"@).len() == 8);
        assert(("tx-result"@).len() == 9);
    }
    assert(("withdraw"@) != ("query-bytes"@)) by {
        assert(("withdraw"@).len() == 8);
        assert(("query-bytes"@).len() == 11);
    }
    assert(("withdraw"@) != ("query-proposal"@)) by {
        assert(("withdraw"@).len() == 8);
        assert(("query-proposal"@).len() == 14);
    }
    assert(("withdraw"@) != ("query-proposal-result"@)) by {
        assert(("withdraw"@).len() == 8);
        assert(("query-proposal-result"@).len() == 21);
    }
    assert(("withdraw"@) != ("query-protocol-parameters"@)) by {
        assert(("withdraw"@).len() == 8);
        assert(("query-protocol-parameters"@).len() == 25);
    }
    assert(("withdraw"@) != ("utils"@)) by {
        assert(("withdraw"@).len() == 8);
        assert(("utils"@).len() == 5);
    }
    assert(("epoch"@) != ("block"@)) by {
        assert(("epoch"@)[0] == 'e');
        assert(("block"@)[0] == 'b');
    }
    assert(("epoch"@) != ("balance"@)) by {
        assert(("epoch"@).len() == 5);
        assert(("balance"@).len() == 7);
    }
    assert(("epoch"@) != ("bonds"@)) by {
        assert(("epoch"@)[0] == 'e');
        assert(("bonds"@)[0] == 'b');
    }
    assert(("epoch"@) != ("voting-power"@)) by {
        assert(("epoch"@).len() == 5);
        assert(("voting-power"@).len() == 12);
    }
    assert(("epoch"@) != ("slashes"@)) by {
        assert(("epoch"@).len() == 5);
        assert(("slashes"@).len() == 7);
    }
    assert(("epoch"@) != ("tx-result"@)) by {
        assert(("epoch"@).len() == 5);
        assert(("tx-result"@).len() == 9);
    }
    assert(("epoch"@) != ("query-bytes"@)) by {
        assert(("epoch"@).len() == 5);
        assert(("query-bytes"@).len() == 11);
    }
    assert(("epoch"@) != ("query-proposal"@)) by {
        assert(("epoch"@).len() == 5);
        assert(("query-proposal"@).len() == 14);
    }
    assert(("epoch"@) != ("query-proposal-result"@)) by {
        assert(("epoch"@).len() == 5);
        assert(("query-proposal-result"@).len() == 21);
    }
    assert(("epoch"@) != ("query-protocol-parameters"@)) by {
        assert(("epoch"@).len() == 5);
        assert(("query-protocol-parameters"@).len() == 25);
    }
    assert(("epoch"@) != ("utils"@)) by {
        assert(("epoch"@)[0] == 'e');
        assert(("utils"@)[0] == 'u');
    }
    assert(("block"@) != ("balance"@)) by {
        assert(("block"@).len() == 5);
        assert(("balance"@).len() == 7);
    }
    assert(("block"@) != ("bonds"@)) by {
        assert(("block"@)[1] == 'l');
        assert(("bonds"@)[1] == 'o');
    }
    assert(("block"@) != ("voting-power"@)) by {
        assert(("block"@).len() == 5);
        assert(("voting-power"@).len() == 12);
    }
    assert(("block"@) != ("slashes"@)) by {
        assert(("block"@).len() == 5);
        assert(("slashes"@).len() == 7);
    }
    assert(("block"@) != ("tx-result"@)) by {
        assert(("block"@).len() == 5);
        assert(("tx-result"@).len() == 9);
    }
    assert(("block"@) != ("query-bytes"@)) by {
        assert(("block"@).len() == 5);
        assert(("query-bytes"@).len() == 11);
    }
    assert(("block"@) != ("query-proposal"@)) by {
        assert(("block"@).len() == 5);
        assert(("query-proposal"@).len() == 14);
    }
    assert(("block"@) != ("query-proposal-result"@)) by {
        assert(("block"@).len() == 5);
        assert(("query-proposal-result"@).len() == 21);
    }
    assert(("block"@) != ("query-protocol-parameters"@)) by {
        assert(("block"@).len() == 5);
        assert(("query-protocol-parameters"@).len() == 25);
    }
    assert(("block"@) != ("utils"@)) by {
        assert(("block"@)[0] == 'b');
        assert(("utils"@)[0] == 'u');
    }
    assert(("balance"@) != ("bonds"@)) by {
        assert(("balance"@).len() == 7);
        assert(("bonds"@).len() == 5);
    }
    assert(("balance"@) != ("voting-power"@)) by {
        assert(("balance"@).len() == 7);
        assert(("voting-power"@).len() == 12);
    }
    assert(("balance"@) != ("slashes"@)) by {
        assert(("balance"@)[0] == 'b');
        assert(("slashes"@)[0] == 's');
    }
    assert(("balance"@) != ("tx-result"@)) by {
        assert(("balance"@).len() == 7);
        assert(("tx-result"@).len() == 9);
    }
    assert(("balance"@) != ("query-bytes"@)) by {
        assert(("balance"@).len() == 7);
        assert(("query-bytes"@).len() == 11);
    }
    assert(("balance"@) != ("query-proposal"@)) by {
        assert(("balance"@).len() == 7);
        assert(("query-proposal"@).len() == 14);
    }
    assert(("balance"@) != ("query-proposal-result"@)) by {
        assert(("balance"@).len() == 7);
        assert(("query-proposal-result"@).len() == 21);
    }
    assert(("balance"@) != ("query-protocol-parameters"@)) by {
        assert(("balance"@).len() == 7);
        assert(("query-protocol-parameters"@).len() == 25);
    }
    assert(("balance"@) != ("utils"@)) by {
        assert(("balance"@).len() == 7);
        assert(("utils"@).len() == 5);
    }
    assert(("bonds"@) != ("voting-power"@)) by {
        assert(("bonds"@).len() == 5);
        assert(("voting-power"@).len() == 12);
    }
    assert(("bonds"@) != ("slashes"@)) by {
        assert(("bonds"@).len() == 5);
        assert(("slashes"@).len() == 7);
    }
    assert(("bonds"@) != ("tx-result"@)) by {
        assert(("bonds"@).len() == 5);
        assert(("tx-result"@).len() == 9);
    }
    assert(("bonds"@) != ("query-bytes"@)) by {
        assert(("bonds"@).len() == 5);
        assert(("query-bytes"@).len() == 11);
    }
    assert(("bonds"@) != ("query-proposal"@)) by {
        assert(("bonds"@).len() == 5);
        assert(("query-proposal"@).len() == 14);
    }
    assert(("bonds"@) != ("query-proposal-result"@)) by {
        assert(("bonds"@).len() == 5);
        assert(("query-proposal-result"@).len() == 21);
    }
    assert(("bonds"@) != ("query-protocol-parameters"@)) by {
        assert(("bonds"@).len() == 5);
        assert(("query-protocol-parameters"@).len() == 25);
    }
    assert(("bonds"@) != ("utils"@)) by {
        assert(("bonds"@)[0] == 'b');
        assert(("utils"@)[0] == 'u');
    }
    assert(("voting-power"@) != ("slashes"@)) by {
        assert(("voting-power"@).len() == 12);
        assert(("slashes"@).len() == 7);
    }
    assert(("voting-power"@) != ("tx-result"@)) by {
        assert(("voting-power"@).len() == 12);
        assert(("tx-result"@).len() == 9);
    }
    assert(("voting-power"@) != ("query-bytes"@)) by {
        assert(("voting-power"@).len() == 12);
        assert(("query-bytes"@).len() == 11);
    }
    assert(("voting-power"@) != ("query-proposal"@)) by {
        assert(("voting-power"@).len() == 12);
        assert(("query-proposal"@).len() == 14);
    }
    assert(("voting-power"@) != ("query-proposal-result"@)) by {
        assert(("voting-power"@).len() == 12);
        assert(("query-proposal-result"@).len() == 21);
    }
    assert(("voting-power"@) != ("query-protocol-parameters"@)) by {
        assert(("voting-power"@).len() == 12);
        assert(("query-protocol-parameters"@).len() == 25);
    }
    assert(("voting-power"@) != ("utils"@)) by {
        assert(("voting-power"@).len() == 12);
        assert(("utils"@).len() == 5);
    }
    assert(("slashes"@) != ("tx-result"@)) by {
        assert(("slashes"@).len() == 7);
        assert(("tx-result"@).len() == 9);
    }
    assert(("slashes"@) != ("query-bytes"@)) by {
        assert(("slashes"@).len() == 7);
        assert(("query-bytes"@).len() == 11);
    }
    assert(("slashes"@) != ("query-proposal"@)) by {
        assert(("slashes"@).len() == 7);
        assert(("query-proposal"@).len() == 14);
    }
    assert(("slashes"@) != ("query-proposal-result"@)) by {
        assert(("slashes"@).len() == 7);
        assert(("query-proposal-result"@).len() == 21);
    }
    assert(("slashes"@) != ("query-protocol-parameters"@)) by {
        assert(("slashes"@).len() == 7);
        assert(("query-protocol-parameters"@).len() == 25);
    }
    assert(("slashes"@) != ("utils"@)) by {
        assert(("slashes"@).len() == 7);
        assert(("utils"@).len() == 5);
    }
    assert(("tx-result"@) != ("query-bytes"@)) by {
        assert(("tx-result"@).len() == 9);
        assert(("query-bytes"@).len() == 11);
    }
    assert(("tx-result"@) != ("query-proposal"@)) by {
        assert(("tx-result"@).len() == 9);
        assert(("query-proposal"@).len() == 14);
    }
    assert(("tx-result"@) != ("query-proposal-result"@)) by {
        assert(("tx-result"@).len() == 9);
        assert(("query-proposal-result"@).len() == 21);
    }
    assert(("tx-result"@) != ("query-protocol-parameters"@)) by {
        assert(("tx-result"@).len() == 9);
        assert(("query-protocol-parameters"@).len() == 25);
    }
    assert(("tx-result"@) != ("utils"@)) by {
        assert(("tx-result"@).len() == 9);
        assert(("utils"@).len() == 5);
    }
    assert(("query-bytes"@) != ("query-proposal"@)) by {
        assert(("query-bytes"@).len() == 11);
        assert(("query-proposal"@).len() == 14);
    }
    assert(("query-bytes"@) != ("query-proposal-result"@)) by {
        assert(("query-bytes"@).len() == 11);
        assert(("query-proposal-result"@).len() == 21);
    }
    assert(("query-bytes"@) != ("query-protocol-parameters"@)) by {
        assert(("query-bytes"@).len() == 11);
        assert(("query-protocol-parameters"@).len() == 25);
    }
    assert(("query-bytes"@) != ("utils"@)) by {
        assert(("query-bytes"@).len() == 11);
        assert(("utils"@).len() == 5);
    }
    assert(("query-proposal"@) != ("query-proposal-result"@)) by {
        assert(("query-proposal"@).len() == 14);
        assert(("query-proposal-result"@).len() == 21);
    }
    assert(("query-proposal"@) != ("query-protocol-parameters"@)) by {
        assert(("query-proposal"@).len() == 14);
        assert(("query-protocol-parameters"@).len() == 25);
    }
    assert(("query-proposal"@) != ("utils"@)) by {
        assert(("query-proposal"@).len() == 14);
        assert(("utils"@).len() == 5);
    }
    assert(("query-proposal-result"@) != ("query-protocol-parameters"@)) by {
        assert(("query-proposal-result"@).len() == 21);
        assert(("query-protocol-parameters"@).len() == 25);
    }
    assert(("query-proposal-result"@) != ("utils"@)) by {
        assert(("query-proposal-result"@).len() == 21);
        assert(("utils"@).len() == 5);
    }
    assert(("query-protocol-parameters"@) != ("utils"@)) by {
        assert(("query-protocol-parameters"@).len() == 25);
        assert(("utils"@).len() == 5);
    }
    assert(("node"@) != ("client"@)) by {
        assert(("node"@).len() == 4);
        assert(("client"@).len() == 6);
    }
    assert(("node"@) != ("wallet"@)) by {
        assert(("node"@).len() == 4);
        assert(("wallet"@).len() == 6);
    }
    assert(("node"@) != ("ledger"@)) by {
        assert(("node"@).len() == 4);
        assert(("ledger"@).len() == 6);
    }
    assert(("node"@) != ("tx"@)) by {
        assert(("node"@).len() == 4);
        assert(("tx"@).len() == 2);
    }
    assert(("node"@) != ("transfer"@)) by {
        assert(("node"@).len() == 4);
        assert(("transfer"@).len() == 8);
    }
    assert(("node"@) != ("update"@)) by {
        assert(("node"@).len() == 4);
        assert(("update"@).len() == 6);
    }
    assert(("node"@) != ("init-proposal"@)) by {
        assert(("node"@).len() == 4);
        assert(("init-proposal"@).len() == 13);
    }
    assert(("node"@) != ("vote-proposal"@)) by {
        assert(("node"@).len() == 4);
        assert(("vote-proposal"@).len() == 13);
    }
    assert(("client"@) != ("wallet"@)) by {
        assert(("client"@)[0] == 'c');
        assert(("wallet"@)[0] == 'w');
    }
    assert(("client"@) != ("ledger"@)) by {
        assert(("client"@)[0] == 'c');
        assert(("ledger"@)[0] == 'l');
    }
    assert(("client"@) != ("tx"@)) by {
        assert(("client"@).len() == 6);
        assert(("tx"@).len() == 2);
    }
    assert(("client"@) != ("transfer"@)) by {
        assert(("client"@).len() == 6);
        assert(("transfer"@).len() == 8);
    }
    assert(("client"@) != ("update"@)) by {
        assert(("client"@)[0] == 'c');
        assert(("update"@)[0] == 'u');
    }
    assert(("client"@) != ("init-proposal"@)) by {
        assert(("client"@).len() == 6);
        assert(("init-proposal"@).len() == 13);
    }
    assert(("client"@) != ("vote-proposal"@)) by {
        assert(("client"@).len() == 6);
        assert(("vote-proposal"@).len() == 13);
    }
    assert(("wallet"@) != ("ledger"@)) by {
        assert(("wallet"@)[0] == 'w');
        assert(("ledger"@)[0] == 'l');
    }
    assert(("wallet"@) != ("tx"@)) by {
        assert(("wallet"@).len() == 6);
        assert(("tx"@).len() == 2);
    }
    assert(("wallet"@) != ("transfer"@)) by {
        assert(("wallet"@).len() == 6);
        assert(("transfer"@).len() == 8);
    }
    assert(("wallet"@) != ("update"@)) by {
        assert(("wallet"@)[0] == 'w');
        assert(("update"@)[0] == 'u');
    }
    assert(("wallet"@) != ("init-proposal"@)) by {
        assert(("wallet"@).len() == 6);
        assert(("init-proposal"@).len() == 13);
    }
    assert(("wallet"@) != ("vote-proposal"@)) by {
        assert(("wallet"@).len() == 6);
        assert(("vote-proposal"@).len() == 13);
    }
    assert(("ledger"@) != ("tx"@)) by {
        assert(("ledger"@).len() == 6);
        assert(("tx"@).len() == 2);
    }
    assert(("ledger"@) != ("transfer"@)) by {
        assert(("ledger"@).len() == 6);
        assert(("transfer"@).len() == 8);
    }
    assert(("ledger"@) != ("update"@)) by {
        assert(("ledger"@)[0] == 'l');
        assert(("update"@)[0] == 'u');
    }
    assert(("ledger"@) != ("init-proposal"@)) by {
        assert(("ledger"@).len() == 6);
        assert(("init-proposal"@).len() == 13);
    }
    assert(("ledger"@) != ("vote-proposal"@)) by {
        assert(("ledger"@).len() == 6);
        assert(("vote-proposal"@).len() == 13);
    }
    let utils_c = crate::cmds::utils_def().children;
    assert(utils_c.len() == 4);
    assert(utils_c[0].token == ("join-network"@));
    assert(utils_c[1].token == ("fetch-wasms"@));
    assert(utils_c[2].token == ("init-network"@));
    assert(utils_c[3].token == ("init-genesis-validator"@));
    assert forall|i: int, j: int| 0 <= i < j < utils_c.len() implies #[trigger] utils_c[i].token
        != #[trigger] utils_c[j].token by {
        if i == 0 && j == 1 {
            assert(utils_c[0].token != utils_c[1].token);
        }
        else if i == 0 && j == 2 {
            assert(utils_c[0].token != utils_c[2].token);
        }
        else if i == 0 && j == 3 {
            assert(utils_c[0].token != utils_c[3].token);
        }
        else if i == 1 && j == 2 {
            assert(utils_c[1].token != utils_c[2].token);
        }
        else if i == 1 && j == 3 {
            assert(utils_c[1].token != utils_c[3].token);
        }
        else if i == 2 && j == 3 {
            assert(utils_c[2].token != utils_c[3].token);
        }
    }
    assert forall|i: int| 0 <= i < utils_c.len() implies wf_tree(#[trigger] utils_c[i]) by {
        if i == 0 {
            assert(wf_tree(utils_c[0]));
        }
        else if i == 1 {
            assert(wf_tree(utils_c[1]));
        }
        else if i == 2 {
            assert(wf_tree(utils_c[2]));
        }
        else if i == 3 {
            assert(wf_tree(utils_c[3]));
        }
    }
    assert(wf_tree(crate::cmds::utils_def()));
    let key_c = crate::cmds::wallet_key_def().children;
    assert(key_c.len() == 4);
    assert(key_c[0].token == ("gen"@));
    assert(key_c[1].token == ("find"@));
    assert(key_c[2].token == ("list"@));
    assert(key_c[3].token == ("export"@));
    assert forall|i: int, j: int| 0 <= i < j < key_c.len() implies #[trigger] key_c[i].token
        != #[trigger] key_c[j].token by {
        if i == 0 && j == 1 {
            assert(key_c[0].token != key_c[1].token);
        }
        else if i == 0 && j == 2 {
            assert(key_c[0].token != key_c[2].token);
        }
        else if i == 0 && j == 3 {
            assert(key_c[0].token != key_c[3].token);
        }
        else if i == 1 && j == 2 {
            assert(key_c[1].token != key_c[2].token);
        }
        else if i == 1 && j == 3 {
            assert(key_c[1].token != key_c[3].token);
        }
        else if i == 2 && j == 3 {
            assert(key_c[2].token != key_c[3].token);
        }
    }
    assert forall|i: int| 0 <= i < key_c.len() implies wf_tree(#[trigger] key_c[i]) by {
        if i == 0 {
            assert(wf_tree(key_c[0]));
        }
        else if i == 1 {
            assert(wf_tree(key_c[1]));
        }
        else if i == 2 {
            assert(wf_tree(key_c[2]));
        }
        else if i == 3 {
            assert(wf_tree(key_c[3]));
        }
    }
    assert(wf_tree(crate::cmds::wallet_key_def()));
    let addr_c = crate::cmds::wallet_address_def().children;
    assert(addr_c.len() == 4);
    assert(addr_c[0].token == ("gen"@));
    assert(addr_c[1].token == ("find"@));
    assert(addr_c[2].token == ("list"@));
    assert(addr_c[3].token == ("add"@));
    assert forall|i: int, j: int| 0 <= i < j < addr_c.len() implies #[trigger] addr_c[i].token
        != #[trigger] addr_c[j].token by {
        if i == 0 && j == 1 {
            assert(addr_c[0].token != addr_c[1].token);
        }
        else if i == 0 && j == 2 {
            assert(addr_c[0].token != addr_c[2].token);
        }
        else if i == 0 && j == 3 {
            assert(addr_c[0].token != addr_c[3].token);
        }
        else if i == 1 && j == 2 {
            assert(addr_c[1].token != addr_c[2].token);
        }
        else if i == 1 && j == 3 {
            assert(addr_c[1].token != addr_c[3].token);
        }
        else if i == 2 && j == 3 {
            assert(addr_c[2].token != addr_c[3].token);
        }
    }
    assert forall|i: int| 0 <= i < addr_c.len() implies wf_tree(#[trigger] addr_c[i]) by {
        if i == 0 {
            assert(wf_tree(addr_c[0]));
        }
        else if i == 1 {
            assert(wf_tree(addr_c[1]));
        }
        else if i == 2 {
            assert(wf_tree(addr_c[2]));
        }
        else if i == 3 {
            assert(wf_tree(addr_c[3]));
        }
    }
    assert(wf_tree(crate::cmds::wallet_address_def()));
    let ledger_c = crate::cmds::ledger_def().children;
    assert(ledger_c.len() == 2);
    assert(ledger_c[0].token == ("run"@));
    assert(ledger_c[1].token == ("reset"@));
    assert forall|i: int, j: int| 0 <= i < j < ledger_c.len() implies #[trigger] ledger_c[i].token
        != #[trigger] ledger_c[j].token by {
        if i == 0 && j == 1 {
            assert(ledger_c[0].token != ledger_c[1].token);
        }
    }
    assert forall|i: int| 0 <= i < ledger_c.len() implies wf_tree(#[trigger] ledger_c[i]) by {
        if i == 0 {
            assert(wf_tree(ledger_c[0]));
        }
        else if i == 1 {
            assert(wf_tree(ledger_c[1]));
        }
    }
    assert(wf_tree(crate::cmds::ledger_def()));
    let config_c = crate::cmds::config_def().children;
    assert(config_c.len() == 1);
    assert(config_c[0].token == ("gen"@));
    assert forall|i: int| 0 <= i < config_c.len() implies wf_tree(#[trigger] config_c[i]) by {
        if i == 0 {
            assert(wf_tree(config_c[0]));
        }
    }
    assert(wf_tree(crate::cmds::config_def()));
    let node_c = crate::anoma_node_app_def().children;
    assert(node_c.len() == 2);
    assert(node_c[0].token == ("ledger"@));
    assert(node_c[1].token == ("config"@));
    assert forall|i: int, j: int| 0 <= i < j < node_c.len() implies #[trigger] node_c[i].token
        != #[trigger] node_c[j].token by {
        if i == 0 && j == 1 {
            assert(node_c[0].token != node_c[1].token);
        }
    }
    assert forall|i: int| 0 <= i < node_c.len() implies wf_tree(#[trigger] node_c[i]) by {
        if i == 0 {
            assert(wf_tree(node_c[0]));
        }
        else if i == 1 {
            assert(wf_tree(node_c[1]));
        }
    }
    assert(wf_tree(crate::anoma_node_app_def()));
    let wallet_c = crate::anoma_wallet_app_def().children;
    assert(wallet_c.len() == 2);
    assert(wallet_c[0].token == ("key"@));
    assert(wallet_c[1].token == ("address"@));
    assert forall|i: int, j: int| 0 <= i < j < wallet_c.len() implies #[trigger] wallet_c[i].token
        != #[trigger] wallet_c[j].token by {
        if i == 0 && j == 1 {
            assert(wallet_c[0].token != wallet_c[1].token);
        }
    }
    assert forall|i: int| 0 <= i < wallet_c.len() implies wf_tree(#[trigger] wallet_c[i]) by {
        if i == 0 {
            assert(wf_tree(wallet_c[0]));
        }
        else if i == 1 {
            assert(wf_tree(wallet_c[1]));
        }
    }
    assert(wf_tree(crate::anoma_wallet_app_def()));
    let client_c = crate::anoma_client_app_def().children;
    assert(client_c.len() == 22);
    assert(client_c[0].token == ("tx"@));
    assert(client_c[1].token == ("transfer"@));
    assert(client_c[2].token == ("update"@));
    assert(client_c[3].token == ("init-account"@));
    assert(client_c[4].token == ("init-validator"@));
    assert(client_c[5].token == ("init-proposal"@));
    assert(client_c[6].token == ("vote-proposal"@));
    assert(client_c[7].token == ("bond"@));
    assert(client_c[8].token == ("unbond"@));
    assert(client_c[9].token == ("withdraw"@));
    assert(client_c[10].token == ("epoch"@));
    assert(client_c[11].token == ("block"@));
    assert(client_c[12].token == ("balance"@));
    assert(client_c[13].token == ("bonds"@));
    assert(client_c[14].token == ("voting-power"@));
    assert(client_c[15].token == ("slashes"@));
    assert(client_c[16].token == ("tx-result"@));
    assert(client_c[17].token == ("query-bytes"@));
    assert(client_c[18].token == ("query-proposal"@));
    assert(client_c[19].token == ("query-proposal-result"@));
    assert(client_c[20].token == ("query-protocol-parameters"@));
    assert(client_c[21].token == ("utils"@));
    assert forall|i: int, j: int| 0 <= i < j < client_c.len() implies #[trigger] client_c[i].token
        != #[trigger] client_c[j].token by {
        if i == 0 && j == 1 {
            assert(client_c[0].token != client_c[1].token);
        }
        else if i == 0 && j == 2 {
            assert(client_c[0].token != client_c[2].token);
        }
        else if i == 0 && j == 3 {
            assert(client_c[0].token != client_c[3].token);
        }
        else if i == 0 && j == 4 {
            assert(client_c[0].token != client_c[4].token);
        }
        else if i == 0 && j == 5 {
            assert(client_c[0].token != client_c[5].token);
        }
        else if i == 0 && j == 6 {
            assert(client_c[0].token != client_c[6].token);
        }
        else if i == 0 && j == 7 {
            assert(client_c[0].token != client_c[7].token);
        }
        else if i == 0 && j == 8 {
            assert(client_c[0].token != client_c[8].token);
        }
        else if i == 0 && j == 9 {
            assert(client_c[0].token != client_c[9].token);
        }
        else if i == 0 && j == 10 {
            assert(client_c[0].token != client_c[10].token);
        }
        else if i == 0 && j == 11 {
            assert(client_c[0].token != client_c[11].token);
        }
        else if i == 0 && j == 12 {
            assert(client_c[0].token != client_c[12].token);
        }
        else if i == 0 && j == 13 {
            assert(client_c[0].token != client_c[13].token);
        }
        else if i == 0 && j == 14 {
            assert(client_c[0].token != client_c[14].token);
        }
        else if i == 0 && j == 15 {
            assert(client_c[0].token != client_c[15].token);
        }
        else if i == 0 && j == 16 {
            assert(client_c[0].token != client_c[16].token);
        }
        else if i == 0 && j == 17 {
            assert(client_c[0].token != client_c[17].token);
        }
        else if i == 0 && j == 18 {
            assert(client_c[0].token != client_c[18].token);
        }
        else if i == 0 && j == 19 {
            assert(client_c[0].token != client_c[19].token);
        }
        else if i == 0 && j == 20 {
            assert(client_c[0].token != client_c[20].token);
        }
        else if i == 0 && j == 21 {
            assert(client_c[0].token != client_c[21].token);
        }
        else if i == 1 && j == 2 {
            assert(client_c[1].token != client_c[2].token);
        }
        else if i == 1 && j == 3 {
            assert(client_c[1].token != client_c[3].token);
        }
        else if i == 1 && j == 4 {
            assert(client_c[1].token != client_c[4].token);
        }
        else if i == 1 && j == 5 {
            assert(client_c[1].token != client_c[5].token);
        }
        else if i == 1 && j == 6 {
            assert(client_c[1].token != client_c[6].token);
        }
        else if i == 1 && j == 7 {
            assert(client_c[1].token != client_c[7].token);
        }
        else if i == 1 && j == 8 {
            assert(client_c[1].token != client_c[8].token);
        }
        else if i == 1 && j == 9 {
            assert(client_c[1].token != client_c[9].token);
        }
        else if i == 1 && j == 10 {
            assert(client_c[1].token != client_c[10].token);
        }
        else if i == 1 && j == 11 {
            assert(client_c[1].token != client_c[11].token);
        }
        else if i == 1 && j == 12 {
            assert(client_c[1].token != client_c[12].token);
        }
        else if i == 1 && j == 13 {
            assert(client_c[1].token != client_c[13].token);
        }
        else if i == 1 && j == 14 {
            assert(client_c[1].token != client_c[14].token);
        }
        else if i == 1 && j == 15 {
            assert(client_c[1].token != client_c[15].token);
        }
        else if i == 1 && j == 16 {
            assert(client_c[1].token != client_c[16].token);
        }
        else if i == 1 && j == 17 {
            assert(client_c[1].token != client_c[17].token);
        }
        else if i == 1 && j == 18 {
            assert(client_c[1].token != client_c[18].token);
        }
        else if i == 1 && j == 19 {
            assert(client_c[1].token != client_c[19].token);
        }
        else if i == 1 && j == 20 {
            assert(client_c[1].token != client_c[20].token);
        }
        else if i == 1 && j == 21 {
            assert(client_c[1].token != client_c[21].token);
        }
        else if i == 2 && j == 3 {
            assert(client_c[2].token != client_c[3].token);
        }
        else if i == 2 && j == 4 {
            assert(client_c[2].token != client_c[4].token);
        }
        else if i == 2 && j == 5 {
            assert(client_c[2].token != client_c[5].token);
        }
        else if i == 2 && j == 6 {
            assert(client_c[2].token != client_c[6].token);
        }
        else if i == 2 && j == 7 {
            assert(client_c[2].token != client_c[7].token);
        }
        else if i == 2 && j == 8 {
            assert(client_c[2].token != client_c[8].token);
        }
        else if i == 2 && j == 9 {
            assert(client_c[2].token != client_c[9].token);
        }
        else if i == 2 && j == 10 {
            assert(client_c[2].token != client_c[10].token);
        }
        else if i == 2 && j == 11 {
            assert(client_c[2].token != client_c[11].token);
        }
        else if i == 2 && j == 12 {
            assert(client_c[2].token != client_c[12].token);
        }
        else if i == 2 && j == 13 {
            assert(client_c[2].token != client_c[13].token);
        }
        else if i == 2 && j == 14 {
            assert(client_c[2].token != client_c[14].token);
        }
        else if i == 2 && j == 15 {
            assert(client_c[2].token != client_c[15].token);
        }
        else if i == 2 && j == 16 {
            assert(client_c[2].token != client_c[16].token);
        }
        else if i == 2 && j == 17 {
            assert(client_c[2].token != client_c[17].token);
        }
        else if i == 2 && j == 18 {
            assert(client_c[2].token != client_c[18].token);
        }
        else if i == 2 && j == 19 {
            assert(client_c[2].token != client_c[19].token);
        }
        else if i == 2 && j == 20 {
            assert(client_c[2].token != client_c[20].token);
        }
        else if i == 2 && j == 21 {
            assert(client_c[2].token != client_c[21].token);
        }
        else if i == 3 && j == 4 {
            assert(client_c[3].token != client_c[4].token);
        }
        else if i == 3 && j == 5 {
            assert(client_c[3].token != client_c[5].token);
        }
        else if i == 3 && j == 6 {
            assert(client_c[3].token != client_c[6].token);
        }
        else if i == 3 && j == 7 {
            assert(client_c[3].token != client_c[7].token);
        }
        else if i == 3 && j == 8 {
            assert(client_c[3].token != client_c[8].token);
        }
        else if i == 3 && j == 9 {
            assert(client_c[3].token != client_c[9].token);
        }
        else if i == 3 && j == 10 {
            assert(client_c[3].token != client_c[10].token);
        }
        else if i == 3 && j == 11 {
            assert(client_c[3].token != client_c[11].token);
        }
        else if i == 3 && j == 12 {
            assert(client_c[3].token != client_c[12].token);
        }
        else if i == 3 && j == 13 {
            assert(client_c[3].token != client_c[13].token);
        }
        else if i == 3 && j == 14 {
            assert(client_c[3].token != client_c[14].token);
        }
        else if i == 3 && j == 15 {
            assert(client_c[3].token != client_c[15].token);
        }
        else if i == 3 && j == 16 {
            assert(client_c[3].token != client_c[16].token);
        }
        else if i == 3 && j == 17 {
            assert(client_c[3].token != client_c[17].token);
        }
        else if i == 3 && j == 18 {
            assert(client_c[3].token != client_c[18].token);
        }
        else if i == 3 && j == 19 {
            assert(client_c[3].token != client_c[19].token);
        }
        else if i == 3 && j == 20 {
            assert(client_c[3].token != client_c[20].token);
        }
        else if i == 3 && j == 21 {
            assert(client_c[3].token != client_c[21].token);
        }
        else if i == 4 && j == 5 {
            assert(client_c[4].token != client_c[5].token);
        }
        else if i == 4 && j == 6 {
            assert(client_c[4].token != client_c[6].token);
        }
        else if i == 4 && j == 7 {
            assert(client_c[4].token != client_c[7].token);
        }
        else if i == 4 && j == 8 {
            assert(client_c[4].token != client_c[8].token);
        }
        else if i == 4 && j == 9 {
            assert(client_c[4].token != client_c[9].token);
        }
        else if i == 4 && j == 10 {
            assert(client_c[4].token != client_c[10].token);
        }
        else if i == 4 && j == 11 {
            assert(client_c[4].token != client_c[11].token);
        }
        else if i == 4 && j == 12 {
            assert(client_c[4].token != client_c[12].token);
        }
        else if i == 4 && j == 13 {
            assert(client_c[4].token != client_c[13].token);
        }
        else if i == 4 && j == 14 {
            assert(client_c[4].token != client_c[14].token);
        }
        else if i == 4 && j == 15 {
            assert(client_c[4].token != client_c[15].token);
        }
        else if i == 4 && j == 16 {
            assert(client_c[4].token != client_c[16].token);
        }
        else if i == 4 && j == 17 {
            assert(client_c[4].token != client_c[17].token);
        }
        else if i == 4 && j == 18 {
            assert(client_c[4].token != client_c[18].token);
        }
        else if i == 4 && j == 19 {
            assert(client_c[4].token != client_c[19].token);
        }
        else if i == 4 && j == 20 {
            assert(client_c[4].token != client_c[20].token);
        }
        else if i == 4 && j == 21 {
            assert(client_c[4].token != client_c[21].token);
        }
        else if i == 5 && j == 6 {
            assert(client_c[5].token != client_c[6].token);
        }
        else if i == 5 && j == 7 {
            assert(client_c[5].token != client_c[7].token);
        }
        else if i == 5 && j == 8 {
            assert(client_c[5].token != client_c[8].token);
        }
        else if i == 5 && j == 9 {
            assert(client_c[5].token != client_c[9].token);
        }
        else if i == 5 && j == 10 {
            assert(client_c[5].token != client_c[10].token);
        }
        else if i == 5 && j == 11 {
            assert(client_c[5].token != client_c[11].token);
        }
        else if i == 5 && j == 12 {
            assert(client_c[5].token != client_c[12].token);
        }
        else if i == 5 && j == 13 {
            assert(client_c[5].token != client_c[13].token);
        }
        else if i == 5 && j == 14 {
            assert(client_c[5].token != client_c[14].token);
        }
        else if i == 5 && j == 15 {
            assert(client_c[5].token != client_c[15].token);
        }
        else if i == 5 && j == 16 {
            assert(client_c[5].token != client_c[16].token);
        }
        else if i == 5 && j == 17 {
            assert(client_c[5].token != client_c[17].token);
        }
        else if i == 5 && j == 18 {
            assert(client_c[5].token != client_c[18].token);
        }
        else if i == 5 && j == 19 {
            assert(client_c[5].token != client_c[19].token);
        }
        else if i == 5 && j == 20 {
            assert(client_c[5].token != client_c[20].token);
        }
        else if i == 5 && j == 21 {
            assert(client_c[5].token != client_c[21].token);
        }
        else if i == 6 && j == 7 {
            assert(client_c[6].token != client_c[7].token);
        }
        else if i == 6 && j == 8 {
            assert(client_c[6].token != client_c[8].token);
        }
        else if i == 6 && j == 9 {
            assert(client_c[6].token != client_c[9].token);
        }
        else if i == 6 && j == 10 {
            assert(client_c[6].token != client_c[10].token);
        }
        else if i == 6 && j == 11 {
            assert(client_c[6].token != client_c[11].token);
        }
        else if i == 6 && j == 12 {
            assert(client_c[6].token != client_c[12].token);
        }
        else if i == 6 && j == 13 {
            assert(client_c[6].token != client_c[13].token);
        }
        else if i == 6 && j == 14 {
            assert(client_c[6].token != client_c[14].token);
        }
        else if i == 6 && j == 15 {
            assert(client_c[6].token != client_c[15].token);
        }
        else if i == 6 && j == 16 {
            assert(client_c[6].token != client_c[16].token);
        }
        else if i == 6 && j == 17 {
            assert(client_c[6].token != client_c[17].token);
        }
        else if i == 6 && j == 18 {
            assert(client_c[6].token != client_c[18].token);
        }
        else if i == 6 && j == 19 {
            assert(client_c[6].token != client_c[19].token);
        }
        else if i == 6 && j == 20 {
            assert(client_c[6].token != client_c[20].token);
        }
        else if i == 6 && j == 21 {
            assert(client_c[6].token != client_c[21].token);
        }
        else if i == 7 && j == 8 {
            assert(client_c[7].token != client_c[8].token);
        }
        else if i == 7 && j == 9 {
            assert(client_c[7].token != client_c[9].token);
        }
        else if i == 7 && j == 10 {
            assert(client_c[7].token != client_c[10].token);
        }
        else if i == 7 && j == 11 {
            assert(client_c[7].token != client_c[11].token);
        }
        else if i == 7 && j == 12 {
            assert(client_c[7].token != client_c[12].token);
        }
        else if i == 7 && j == 13 {
            assert(client_c[7].token != client_c[13].token);
        }
        else if i == 7 && j == 14 {
            assert(client_c[7].token != client_c[14].token);
        }
        else if i == 7 && j == 15 {
            assert(client_c[7].token != client_c[15].token);
        }
        else if i == 7 && j == 16 {
            assert(client_c[7].token != client_c[16].token);
        }
        else if i == 7 && j == 17 {
            assert(client_c[7].token != client_c[17].token);
        }
        else if i == 7 && j == 18 {
            assert(client_c[7].token != client_c[18].token);
        }
        else if i == 7 && j == 19 {
            assert(client_c[7].token != client_c[19].token);
        }
        else if i == 7 && j == 20 {
            assert(client_c[7].token != client_c[20].token);
        }
        else if i == 7 && j == 21 {
            assert(client_c[7].token != client_c[21].token);
        }
        else if i == 8 && j == 9 {
            assert(client_c[8].token != client_c[9].token);
        }
        else if i == 8 && j == 10 {
            assert(client_c[8].token != client_c[10].token);
        }
        else if i == 8 && j == 11 {
            assert(client_c[8].token != client_c[11].token);
        }
        else if i == 8 && j == 12 {
            assert(client_c[8].token != client_c[12].token);
        }
        else if i == 8 && j == 13 {
            assert(client_c[8].token != client_c[13].token);
        }
        else if i == 8 && j == 14 {
            assert(client_c[8].token != client_c[14].token);
        }
        else if i == 8 && j == 15 {
            assert(client_c[8].token != client_c[15].token);
        }
        else if i == 8 && j == 16 {
            assert(client_c[8].token != client_c[16].token);
        }
        else if i == 8 && j == 17 {
            assert(client_c[8].token != client_c[17].token);
        }
        else if i == 8 && j == 18 {
            assert(client_c[8].token != client_c[18].token);
        }
        else if i == 8 && j == 19 {
            assert(client_c[8].token != client_c[19].token);
        }
        else if i == 8 && j == 20 {
            assert(client_c[8].token != client_c[20].token);
        }
        else if i == 8 && j == 21 {
            assert(client_c[8].token != client_c[21].token);
        }
        else if i == 9 && j == 10 {
            assert(client_c[9].token != client_c[10].token);
        }
        else if i == 9 && j == 11 {
            assert(client_c[9].token != client_c[11].token);
        }
        else if i == 9 && j == 12 {
            assert(client_c[9].token != client_c[12].token);
        }
        else if i == 9 && j == 13 {
            assert(client_c[9].token != client_c[13].token);
        }
        else if i == 9 && j == 14 {
            assert(client_c[9].token != client_c[14].token);
        }
        else if i == 9 && j == 15 {
            assert(client_c[9].token != client_c[15].token);
        }
        else if i == 9 && j == 16 {
            assert(client_c[9].token != client_c[16].token);
        }
        else if i == 9 && j == 17 {
            assert(client_c[9].token != client_c[17].token);
        }
        else if i == 9 && j == 18 {
            assert(client_c[9].token != client_c[18].token);
        }
        else if i == 9 && j == 19 {
            assert(client_c[9].token != client_c[19].token);
        }
        else if i == 9 && j == 20 {
            assert(client_c[9].token != client_c[20].token);
        }
        else if i == 9 && j == 21 {
            assert(client_c[9].token != client_c[21].token);
        }
        else if i == 10 && j == 11 {
            assert(client_c[10].token != client_c[11].token);
        }
        else if i == 10 && j == 12 {
            assert(client_c[10].token != client_c[12].token);
        }
        else if i == 10 && j == 13 {
            assert(client_c[10].token != client_c[13].token);
        }
        else if i == 10 && j == 14 {
            assert(client_c[10].token != client_c[14].token);
        }
        else if i == 10 && j == 15 {
            assert(client_c[10].token != client_c[15].token);
        }
        else if i == 10 && j == 16 {
            assert(client_c[10].token != client_c[16].token);
        }
        else if i == 10 && j == 17 {
            assert(client_c[10].token != client_c[17].token);
        }
        else if i == 10 && j == 18 {
            assert(client_c[10].token != client_c[18].token);
        }
        else if i == 10 && j == 19 {
            assert(client_c[10].token != client_c[19].token);
        }
        else if i == 10 && j == 20 {
            assert(client_c[10].token != client_c[20].token);
        }
        else if i == 10 && j == 21 {
            assert(client_c[10].token != client_c[21].token);
        }
        else if i == 11 && j == 12 {
            assert(client_c[11].token != client_c[12].token);
        }
        else if i == 11 && j == 13 {
            assert(client_c[11].token != client_c[13].token);
        }
        else if i == 11 && j == 14 {
            assert(client_c[11].token != client_c[14].token);
        }
        else if i == 11 && j == 15 {
            assert(client_c[11].token != client_c[15].token);
        }
        else if i == 11 && j == 16 {
            assert(client_c[11].token != client_c[16].token);
        }
        else if i == 11 && j == 17 {
            assert(client_c[11].token != client_c[17].token);
        }
        else if i == 11 && j == 18 {
            assert(client_c[11].token != client_c[18].token);
        }
        else if i == 11 && j == 19 {
            assert(client_c[11].token != client_c[19].token);
        }
        else if i == 11 && j == 20 {
            assert(client_c[11].token != client_c[20].token);
        }
        else if i == 11 && j == 21 {
            assert(client_c[11].token != client_c[21].token);
        }
        else if i == 12 && j == 13 {
            assert(client_c[12].token != client_c[13].token);
        }
        else if i == 12 && j == 14 {
            assert(client_c[12].token != client_c[14].token);
        }
        else if i == 12 && j == 15 {
            assert(client_c[12].token != client_c[15].token);
        }
        else if i == 12 && j == 16 {
            assert(client_c[12].token != client_c[16].token);
        }
        else if i == 12 && j == 17 {
            assert(client_c[12].token != client_c[17].token);
        }
        else if i == 12 && j == 18 {
            assert(client_c[12].token != client_c[18].token);
        }
        else if i == 12 && j == 19 {
            assert(client_c[12].token != client_c[19].token);
        }
        else if i == 12 && j == 20 {
            assert(client_c[12].token != client_c[20].token);
        }
        else if i == 12 && j == 21 {
            assert(client_c[12].token != client_c[21].token);
        }
        else if i == 13 && j == 14 {
            assert(client_c[13].token != client_c[14].token);
        }
        else if i == 13 && j == 15 {
            assert(client_c[13].token != client_c[15].token);
        }
        else if i == 13 && j == 16 {
            assert(client_c[13].token != client_c[16].token);
        }
        else if i == 13 && j == 17 {
            assert(client_c[13].token != client_c[17].token);
        }
        else if i == 13 && j == 18 {
            assert(client_c[13].token != client_c[18].token);
        }
        else if i == 13 && j == 19 {
            assert(client_c[13].token != client_c[19].token);
        }
        else if i == 13 && j == 20 {
            assert(client_c[13].token != client_c[20].token);
        }
        else if i == 13 && j == 21 {
            assert(client_c[13].token != client_c[21].token);
        }
        else if i == 14 && j == 15 {
            assert(client_c[14].token != client_c[15].token);
        }
        else if i == 14 && j == 16 {
            assert(client_c[14].token != client_c[16].token);
        }
        else if i == 14 && j == 17 {
            assert(client_c[14].token != client_c[17].token);
        }
        else if i == 14 && j == 18 {
            assert(client_c[14].token != client_c[18].token);
        }
        else if i == 14 && j == 19 {
            assert(client_c[14].token != client_c[19].token);
        }
        else if i == 14 && j == 20 {
            assert(client_c[14].token != client_c[20].token);
        }
        else if i == 14 && j == 21 {
            assert(client_c[14].token != client_c[21].token);
        }
        else if i == 15 && j == 16 {
            assert(client_c[15].token != client_c[16].token);
        }
        else if i == 15 && j == 17 {
            assert(client_c[15].token != client_c[17].token);
        }
        else if i == 15 && j == 18 {
            assert(client_c[15].token != client_c[18].token);
        }
        else if i == 15 && j == 19 {
            assert(client_c[15].token != client_c[19].token);
        }
        else if i == 15 && j == 20 {
            assert(client_c[15].token != client_c[20].token);
        }
        else if i == 15 && j == 21 {
            assert(client_c[15].token != client_c[21].token);
        }
        else if i == 16 && j == 17 {
            assert(client_c[16].token != client_c[17].token);
        }
        else if i == 16 && j == 18 {
            assert(client_c[16].token != client_c[18].token);
        }
        else if i == 16 && j == 19 {
            assert(client_c[16].token != client_c[19].token);
        }
        else if i == 16 && j == 20 {
            assert(client_c[16].token != client_c[20].token);
        }
        else if i == 16 && j == 21 {
            assert(client_c[16].token != client_c[21].token);
        }
        else if i == 17 && j == 18 {
            assert(client_c[17].token != client_c[18].token);
        }
        else if i == 17 && j == 19 {
            assert(client_c[17].token != client_c[19].token);
        }
        else if i == 17 && j == 20 {
            assert(client_c[17].token != client_c[20].token);
        }
        else if i == 17 && j == 21 {
            assert(client_c[17].token != client_c[21].token);
        }
        else if i == 18 && j == 19 {
            assert(client_c[18].token != client_c[19].token);
        }
        else if i == 18 && j == 20 {
            assert(client_c[18].token != client_c[20].token);
        }
        else if i == 18 && j == 21 {
            assert(client_c[18].token != client_c[21].token);
        }
        else if i == 19 && j == 20 {
            assert(client_c[19].token != client_c[20].token);
        }
        else if i == 19 && j == 21 {
            assert(client_c[19].token != client_c[21].token);
        }
        else if i == 20 && j == 21 {
            assert(client_c[20].token != client_c[21].token);
        }
    }
    assert forall|i: int| 0 <= i < client_c.len() implies wf_tree(#[trigger] client_c[i]) by {
        if i == 0 {
            assert(wf_tree(client_c[0]));
        }
        else if i == 1 {
            assert(wf_tree(client_c[1]));
        }
        else if i == 2 {
            assert(wf_tree(client_c[2]));
        }
        else if i == 3 {
            assert(wf_tree(client_c[3]));
        }
        else if i == 4 {
            assert(wf_tree(client_c[4]));
        }
        else if i == 5 {
            assert(wf_tree(client_c[5]));
        }
        else if i == 6 {
            assert(wf_tree(client_c[6]));
        }
        else if i == 7 {
            assert(wf_tree(client_c[7]));
        }
        else if i == 8 {
            assert(wf_tree(client_c[8]));
        }
        else if i == 9 {
            assert(wf_tree(client_c[9]));
        }
        else if i == 10 {
            assert(wf_tree(client_c[10]));
        }
        else if i == 11 {
            assert(wf_tree(client_c[11]));
        }
        else if i == 12 {
            assert(wf_tree(client_c[12]));
        }
        else if i == 13 {
            assert(wf_tree(client_c[13]));
        }
        else if i == 14 {
            assert(wf_tree(client_c[14]));
        }
        else if i == 15 {
            assert(wf_tree(client_c[15]));
        }
        else if i == 16 {
            assert(wf_tree(client_c[16]));
        }
        else if i == 17 {
            assert(wf_tree(client_c[17]));
        }
        else if i == 18 {
            assert(wf_tree(client_c[18]));
        }
        else if i == 19 {
            assert(wf_tree(client_c[19]));
        }
        else if i == 20 {
            assert(wf_tree(client_c[20]));
        }
        else if i == 21 {
            assert(wf_tree(client_c[21]));
        }
    }
    assert(wf_tree(crate::anoma_client_app_def()));
    let anoma_c = crate::anoma_app_def().children;
    assert(anoma_c.len() == 9);
    assert(anoma_c[0].token == ("node"@));
    assert(anoma_c[1].token == ("client"@));
    assert(anoma_c[2].token == ("wallet"@));
    assert(anoma_c[3].token == ("ledger"@));
    assert(anoma_c[4].token == ("tx"@));
    assert(anoma_c[5].token == ("transfer"@));
    assert(anoma_c[6].token == ("update"@));
    assert(anoma_c[7].token == ("init-proposal"@));
    assert(anoma_c[8].token == ("vote-proposal"@));
    assert forall|i: int, j: int| 0 <= i < j < anoma_c.len() implies #[trigger] anoma_c[i].token
        != #[trigger] anoma_c[j].token by {
        if i == 0 && j == 1 {
            assert(anoma_c[0].token != anoma_c[1].token);
        }
        else if i == 0 && j == 2 {
            assert(anoma_c[0].token != anoma_c[2].token);
        }
        else if i == 0 && j == 3 {
            assert(anoma_c[0].token != anoma_c[3].token);
        }
        else if i == 0 && j == 4 {
            assert(anoma_c[0].token != anoma_c[4].token);
        }
        else if i == 0 && j == 5 {
            assert(anoma_c[0].token != anoma_c[5].token);
        }
        else if i == 0 && j == 6 {
            assert(anoma_c[0].token != anoma_c[6].token);
        }
        else if i == 0 && j == 7 {
            assert(anoma_c[0].token != anoma_c[7].token);
        }
        else if i == 0 && j == 8 {
            assert(anoma_c[0].token != anoma_c[8].token);
        }
        else if i == 1 && j == 2 {
            assert(anoma_c[1].token != anoma_c[2].token);
        }
        else if i == 1 && j == 3 {
            assert(anoma_c[1].token != anoma_c[3].token);
        }
        else if i == 1 && j == 4 {
            assert(anoma_c[1].token != anoma_c[4].token);
        }
        else if i == 1 && j == 5 {
            assert(anoma_c[1].token != anoma_c[5].token);
        }
        else if i == 1 && j == 6 {
            assert(anoma_c[1].token != anoma_c[6].token);
        }
        else if i == 1 && j == 7 {
            assert(anoma_c[1].token != anoma_c[7].token);
        }
        else if i == 1 && j == 8 {
            assert(anoma_c[1].token != anoma_c[8].token);
        }
        else if i == 2 && j == 3 {
            assert(anoma_c[2].token != anoma_c[3].token);
        }
        else if i == 2 && j == 4 {
            assert(anoma_c[2].token != anoma_c[4].token);
        }
        else if i == 2 && j == 5 {
            assert(anoma_c[2].token != anoma_c[5].token);
        }
        else if i == 2 && j == 6 {
            assert(anoma_c[2].token != anoma_c[6].token);
        }
        else if i == 2 && j == 7 {
            assert(anoma_c[2].token != anoma_c[7].token);
        }
        else if i == 2 && j == 8 {
            assert(anoma_c[2].token != anoma_c[8].token);
        }
        else if i == 3 && j == 4 {
            assert(anoma_c[3].token != anoma_c[4].token);
        }
        else if i == 3 && j == 5 {
            assert(anoma_c[3].token != anoma_c[5].token);
        }
        else if i == 3 && j == 6 {
            assert(anoma_c[3].token != anoma_c[6].token);
        }
        else if i == 3 && j == 7 {
            assert(anoma_c[3].token != anoma_c[7].token);
        }
        else if i == 3 && j == 8 {
            assert(anoma_c[3].token != anoma_c[8].token);
        }
        else if i == 4 && j == 5 {
            assert(anoma_c[4].token != anoma_c[5].token);
        }
        else if i == 4 && j == 6 {
            assert(anoma_c[4].token != anoma_c[6].token);
        }
        else if i == 4 && j == 7 {
            assert(anoma_c[4].token != anoma_c[7].token);
        }
        else if i == 4 && j == 8 {
            assert(anoma_c[4].token != anoma_c[8].token);
        }
        else if i == 5 && j == 6 {
            assert(anoma_c[5].token != anoma_c[6].token);
        }
        else if i == 5 && j == 7 {
            assert(anoma_c[5].token != anoma_c[7].token);
        }
        else if i == 5 && j == 8 {
            assert(anoma_c[5].token != anoma_c[8].token);
        }
        else if i == 6 && j == 7 {
            assert(anoma_c[6].token != anoma_c[7].token);
        }
        else if i == 6 && j == 8 {
            assert(anoma_c[6].token != anoma_c[8].token);
        }
        else if i == 7 && j == 8 {
            assert(anoma_c[7].token != anoma_c[8].token);
        }
    }
    assert forall|i: int| 0 <= i < anoma_c.len() implies wf_tree(#[trigger] anoma_c[i]) by {
        if i == 0 {
            assert(wf_tree(anoma_c[0]));
        }
        else if i == 1 {
            assert(wf_tree(anoma_c[1]));
        }
        else if i == 2 {
            assert(wf_tree(anoma_c[2]));
        }
        else if i == 3 {
            assert(wf_tree(anoma_c[3]));
        }
        else if i == 4 {
            assert(wf_tree(anoma_c[4]));
        }
        else if i == 5 {
            assert(wf_tree(anoma_c[5]));
        }
        else if i == 6 {
            assert(wf_tree(anoma_c[6]));
        }
        else if i == 7 {
            assert(wf_tree(anoma_c[7]));
        }
        else if i == 8 {
            assert(wf_tree(anoma_c[8]));
        }
    }
    assert(wf_tree(crate::anoma_app_def()));
}


/// The matched tree of one transfer invocation of the client tool, from raw
/// argument values.
pub open spec fn transfer_matched(
    src: Seq<char>,
    tgt: Seq<char>,
    tok: Seq<char>,
    amt: Seq<char>,
) -> MatchesV {
    MatchesV {
        options: Seq::<(Seq<char>, Seq<char>)>::empty(),
        flags: Seq::<Seq<char>>::empty(),
        sub: Option::Some(
            Box::new(
                SubMatchesV {
                    token: "transfer"@,
                    matches: MatchesV {
                        options: seq![
                            ("source"@, src),
                            ("target"@, tgt),
                            ("token"@, tok),
                            ("amount"@, amt),
                        ],
                        flags: Seq::<Seq<char>>::empty(),
                        sub: Option::None,
                    },
                },
            ),
        ),
    }
}

/// The round trip on the composed client tree: for any argument values, the
/// input text constructed for a transfer invocation tokenizes back to
/// exactly the matched tree it was built from — together with the parse
/// contracts, the dispatched command's payload fields equal the values the
/// text was built from.
pub proof fn lemma_transfer_round_trips_on_client_tree(
    src: Seq<char>,
    tgt: Seq<char>,
    tok: Seq<char>,
    amt: Seq<char>,
)
    ensures
        spec_tokenize(
            crate::anoma_client_app_def(),
            render(transfer_matched(src, tgt, tok, amt)),
        ) == Result::<MatchesV, TokErrV>::Ok(transfer_matched(src, tgt, tok, amt)),
{
    reveal_strlit("transfer");
    reveal_strlit("tx");
    reveal_strlit("source");
    reveal_strlit("target");
    reveal_strlit("token");
    reveal_strlit("amount");
    reveal_strlit("dry-run");
    reveal_strlit("force");
    reveal_strlit("broadcast-only");
    reveal_strlit("ledger-address");
    reveal_strlit("alias");
    reveal_strlit("fee-amount");
    reveal_strlit("fee-token");
    reveal_strlit("gas-limit");
    reveal_strlit("signing-key");
    reveal_strlit("signer");
    reveal_strlit("sub-prefix");
    let m = transfer_matched(src, tgt, tok, amt);
    let inner = m.sub->Some_0.matches;
    let root = crate::anoma_client_app_def();
    let leaf = crate::cmds::tx_transfer_def();
    assert(("tx"@) != ("transfer"@)) by {
        assert(("tx"@).len() == 2);
        assert(("transfer"@).len() == 8);
    }
    assert(find_child(root.children, "transfer"@) == Option::Some(leaf)) by {
        reveal_with_fuel(find_child, 3);
        assert(root.children[0].token == "tx"@);
        assert(root.children[1] == leaf);
        assert(root.children.skip(1)[0] == root.children[1]);
        assert(root.children.skip(1).skip(1) =~= root.children.skip(2));
    }
    assert(!crate::tokenize::spec_is_long("transfer"@)) by {
        assert(("transfer"@)[0] == 't');
    }
    // each supplied key names a declared value-taking argument of the leaf
    assert(("dry-run"@) != ("source"@)) by {
        assert(("dry-run"@).len() == 7);
        assert(("source"@).len() == 6);
    }
    assert(("force"@) != ("source"@)) by {
        assert(("force"@).len() == 5);
        assert(("source"@).len() == 6);
    }
    assert(("broadcast-only"@) != ("source"@)) by {
        assert(("broadcast-only"@).len() == 14);
        assert(("source"@).len() == 6);
    }
    assert(("ledger-address"@) != ("source"@)) by {
        assert(("ledger-address"@).len() == 14);
        assert(("source"@).len() == 6);
    }
    assert(("alias"@) != ("source"@)) by {
        assert(("alias"@).len() == 5);
        assert(("source"@).len() == 6);
    }
    assert(("fee-amount"@) != ("source"@)) by {
        assert(("fee-amount"@).len() == 10);
        assert(("source"@).len() == 6);
    }
    assert(("fee-token"@) != ("source"@)) by {
        assert(("fee-token"@).len() == 9);
        assert(("source"@).len() == 6);
    }
    assert(("gas-limit"@) != ("source"@)) by {
        assert(("gas-limit"@).len() == 9);
        assert(("source"@).len() == 6);
    }
    assert(("signing-key"@) != ("source"@)) by {
        assert(("signing-key"@).len() == 11);
        assert(("source"@).len() == 6);
    }
    assert(("signer"@) != ("source"@)) by {
        assert(("signer"@)[1] == 'i');
        assert(("source"@)[1] == 'o');
    }
    assert(("dry-run"@) != ("target"@)) by {
        assert(("dry-run"@).len() == 7);
        assert(("target"@).len() == 6);
    }
    assert(("force"@) != ("target"@)) by {
        assert(("force"@).len() == 5);
        assert(("target"@).len() == 6);
    }
    assert(("broadcast-only"@) != ("target"@)) by {
        assert(("broadcast-only"@).len() == 14);
        assert(("target"@).len() == 6);
    }
    assert(("ledger-address"@) != ("target"@)) by {
        assert(("ledger-address"@).len() == 14);
        assert(("target"@).len() == 6);
    }
    assert(("alias"@) != ("target"@)) by {
        assert(("alias"@).len() == 5);
        assert(("target"@).len() == 6);
    }
    assert(("fee-amount"@) != ("target"@)) by {
        assert(("fee-amount"@).len() == 10);
        assert(("target"@).len() == 6);
    }
    assert(("fee-token"@) != ("target"@)) by {
        assert(("fee-token"@).len() == 9);
        assert(("target"@).len() == 6);
    }
    assert(("gas-limit"@) != ("target"@)) by {
        assert(("gas-limit"@).len() == 9);
        assert(("target"@).len() == 6);
    }
    assert(("signing-key"@) != ("target"@)) by {
        assert(("signing-key"@).len() == 11);
        assert(("target"@).len() == 6);
    }
    assert(("signer"@) != ("target"@)) by {
        assert(("signer"@)[0] == 's');
        assert(("target"@)[0] == 't');
    }
    assert(("source"@) != ("target"@)) by {
        assert(("source"@)[0] == 's');
        assert(("target"@)[0] == 't');
    }
    assert(("dry-run"@) != ("token"@)) by {
        assert(("dry-run"@).len() == 7);
        assert(("token"@).len() == 5);
    }
    assert(("force"@) != ("token"@)) by {
        assert(("force"@)[0] == 'f');
        assert(("token"@)[0] == 't');
    }
    assert(("broadcast-only"@) != ("token"@)) by {
        assert(("broadcast-only"@).len() == 14);
        assert(("token"@).len() == 5);
    }
    assert(("ledger-address"@) != ("token"@)) by {
        assert(("ledger-address"@).len() == 14);
        assert(("token"@).len() == 5);
    }
    assert(("alias"@) != ("token"@)) by {
        assert(("alias"@)[0] == 'a');
        assert(("token"@)[0] == 't');
    }
    assert(("fee-amount"@) != ("token"@)) by {
        assert(("fee-amount"@).len() == 10);
        assert(("token"@).len() == 5);
    }
    assert(("fee-token"@) != ("token"@)) by {
        assert(("fee-token"@).len() == 9);
        assert(("token"@).len() == 5);
    }
    assert(("gas-limit"@) != ("token"@)) by {
        assert(("gas-limit"@).len() == 9);
        assert(("token"@).len() == 5);
    }
    assert(("signing-key"@) != ("token"@)) by {
        assert(("signing-key"@).len() == 11);
        assert(("token"@).len() == 5);
    }
    assert(("signer"@) != ("token"@)) by {
        assert(("signer"@).len() == 6);
        assert(("token"@).len() == 5);
    }
    assert(("source"@) != ("token"@)) by {
        assert(("source"@).len() == 6);
        assert(("token"@).len() == 5);
    }
    assert(("target"@) != ("token"@)) by {
        assert(("target"@).len() == 6);
        assert(("token"@).len() == 5);
    }
    assert(("dry-run"@) != ("amount"@)) by {
        assert(("dry-run"@).len() == 7);
        assert(("amount"@).len() == 6);
    }
    assert(("force"@) != ("amount"@)) by {
        assert(("force"@).len() == 5);
        assert(("amount"@).len() == 6);
    }
    assert(("broadcast-only"@) != ("amount"@)) by {
        assert(("broadcast-only"@).len() == 14);
        assert(("amount"@).len() == 6);
    }
    assert(("ledger-address"@) != ("amount"@)) by {
        assert(("ledger-address"@).len() == 14);
        assert(("amount"@).len() == 6);
    }
    assert(("alias"@) != ("amount"@)) by {
        assert(("alias"@).len() == 5);
        assert(("amount"@).len() == 6);
    }
    assert(("fee-amount"@) != ("amount"@)) by {
        assert(("fee-amount"@).len() == 10);
        assert(("amount"@).len() == 6);
    }
    assert(("fee-token"@) != ("amount"@)) by {
        assert(("fee-token"@).len() == 9);
        assert(("amount"@).len() == 6);
    }
    assert(("gas-limit"@) != ("amount"@)) by {
        assert(("gas-limit"@).len() == 9);
        assert(("amount"@).len() == 6);
    }
    assert(("signing-key"@) != ("amount"@)) by {
        assert(("signing-key"@).len() == 11);
        assert(("amount"@).len() == 6);
    }
    assert(("signer"@) != ("amount"@)) by {
        assert(("signer"@)[0] == 's');
        assert(("amount"@)[0] == 'a');
    }
    assert(("source"@) != ("amount"@)) by {
        assert(("source"@)[0] == 's');
        assert(("amount"@)[0] == 'a');
    }
    assert(("target"@) != ("amount"@)) by {
        assert(("target"@)[0] == 't');
        assert(("amount"@)[0] == 'a');
    }
    assert(("token"@) != ("amount"@)) by {
        assert(("token"@).len() == 5);
        assert(("amount"@).len() == 6);
    }
    assert(("sub-prefix"@) != ("amount"@)) by {
        assert(("sub-prefix"@).len() == 10);
        assert(("amount"@).len() == 6);
    }
    let la = leaf.args;
    assert(la.len() == 15);
    assert(find_arg(la, "source"@) == Option::Some(la[10])) by {
        reveal_with_fuel(find_arg, 12);
    }
    assert(find_arg(la, "target"@) == Option::Some(la[11])) by {
        reveal_with_fuel(find_arg, 13);
    }
    assert(find_arg(la, "token"@) == Option::Some(la[12])) by {
        reveal_with_fuel(find_arg, 14);
    }
    assert(find_arg(la, "amount"@) == Option::Some(la[14])) by {
        reveal_with_fuel(find_arg, 16);
    }
    assert(consistent(inner, leaf)) by {
        assert forall|i: int, j: int| 0 <= i < j < inner.options.len() implies (
        #[trigger] inner.options[i]).0 != (#[trigger] inner.options[j]).0 by {
            assert(("source"@)[0] == 's');
            assert(("target"@)[0] == 't');
            assert(("token"@)[0] == 't');
            assert(("amount"@)[0] == 'a');
            assert(("target"@)[1] == 'a');
            assert(("token"@)[1] == 'o');
            assert(("source"@).len() == 6);
            assert(("token"@).len() == 5);
        }
        assert forall|i: int| 0 <= i < inner.options.len() implies match find_arg(
            leaf.args,
            (#[trigger] inner.options[i]).0,
        ) {
            Option::Some(a) => !(a.cardinality is BoolFlag),
            Option::None => false,
        } by {
            if i == 0 {
                assert(inner.options[0].0 == "source"@);
            } else if i == 1 {
                assert(inner.options[1].0 == "target"@);
            } else if i == 2 {
                assert(inner.options[2].0 == "token"@);
            } else {
                assert(inner.options[3].0 == "amount"@);
            }
        }
    }
    assert(consistent(m, root));
    lemma_render_round_trip(root, m);
}

} // verus!
