//! Turning raw command-line tokens into a matched-argument tree, guided by a
//! command tree: `--key value` pairs and `--flag` tokens are matched against
//! the current node's declared arguments, and a bare token selects the child
//! command it names, whose arguments then own the rest of the input.

use vstd::prelude::*;

use crate::defs::{find_arg, find_child, CmdDef, CmdDefV, Cardinality, cview};
use crate::matches::{
    empty_matches, lookup, Matches, MatchesV, SubMatches, SubMatchesV, mview, opt_views,
    str_views, lemma_opt_views_prepend, lemma_str_views_prepend,
};

verus! {

/// Why raw input could not be matched against the command tree.
#[derive(Debug)]
pub enum TokenizeError {
    /// A bare token named no child command of the current node.
    UnknownCommand(String),
    /// A `--key` named no declared argument of the current node.
    UnknownArgument(String),
    /// A `--key` that takes a value stood last in the input.
    MissingValue(String),
    /// One key was supplied twice at the same level.
    DuplicateArgument(String),
}

/// Mathematical model of a tokenize error.
pub ghost enum TokErrV {
    UnknownCommand(Seq<char>),
    UnknownArgument(Seq<char>),
    MissingValue(Seq<char>),
    DuplicateArgument(Seq<char>),
}

/// The model of a tokenize error.
pub open spec fn teview(e: TokenizeError) -> TokErrV {
    match e {
        TokenizeError::UnknownCommand(t) => TokErrV::UnknownCommand(t@),
        TokenizeError::UnknownArgument(t) => TokErrV::UnknownArgument(t@),
        TokenizeError::MissingValue(t) => TokErrV::MissingValue(t@),
        TokenizeError::DuplicateArgument(t) => TokErrV::DuplicateArgument(t@),
    }
}

/// Whether a token has the `--key` shape.
pub open spec fn spec_is_long(t: Seq<char>) -> bool {
    t.len() >= 2 && t[0] == '-' && t[1] == '-'
}

/// The key of a `--key` token.
pub open spec fn long_key(t: Seq<char>) -> Seq<char> {
    t.skip(2)
}

/// What tokenizing `toks[i..]` at `node` yields: the matched tree for this
/// level, or the first error, scanning left to right.
pub open spec fn spec_tokenize_from(node: CmdDefV, toks: Seq<Seq<char>>, i: int) -> Result<
    MatchesV,
    TokErrV,
>
    decreases toks.len() - i,
{
    if i < 0 || i >= toks.len() {
        Result::Ok(empty_matches())
    } else {
        let t = toks[i];
        if spec_is_long(t) {
            let k = long_key(t);
            match find_arg(node.args, k) {
                Option::None => Result::Err(TokErrV::UnknownArgument(k)),
                Option::Some(a) => if a.cardinality is BoolFlag {
                    match spec_tokenize_from(node, toks, i + 1) {
                        Result::Ok(m) => if m.flags.contains(k) {
                            Result::Err(TokErrV::DuplicateArgument(k))
                        } else {
                            Result::Ok(MatchesV { flags: m.flags.insert(0, k), ..m })
                        },
                        Result::Err(e) => Result::Err(e),
                    }
                } else {
                    if i + 1 >= toks.len() {
                        Result::Err(TokErrV::MissingValue(k))
                    } else {
                        match spec_tokenize_from(node, toks, i + 2) {
                            Result::Ok(m) => if lookup(m.options, k) is Some {
                                Result::Err(TokErrV::DuplicateArgument(k))
                            } else {
                                Result::Ok(
                                    MatchesV { options: m.options.insert(0, (k, toks[i + 1])), ..m },
                                )
                            },
                            Result::Err(e) => Result::Err(e),
                        }
                    }
                },
            }
        } else {
            match find_child(node.children, t) {
                Option::None => Result::Err(TokErrV::UnknownCommand(t)),
                Option::Some(child) => match spec_tokenize_from(child, toks, i + 1) {
                    Result::Ok(m) => Result::Ok(
                        MatchesV {
                            options: Seq::empty(),
                            flags: Seq::empty(),
                            sub: Option::Some(Box::new(SubMatchesV { token: t, matches: m })),
                        },
                    ),
                    Result::Err(e) => Result::Err(e),
                },
            }
        }
    }
}

/// What tokenizing the whole input at the root of a command tree yields.
pub open spec fn spec_tokenize(node: CmdDefV, toks: Seq<Seq<char>>) -> Result<MatchesV, TokErrV> {
    spec_tokenize_from(node, toks, 0)
}

/// Whether a token has the `--key` shape.
fn is_long(t: &str) -> (r: bool)
    ensures
        r == spec_is_long(t@),
{
    if t.unicode_len() < 2 {
        return false;
    }
    t.get_char(0) == '-' && t.get_char(1) == '-'
}

fn tokenize_from(node: &CmdDef, toks: &Vec<String>, i: usize) -> (r: Result<
    Matches,
    TokenizeError,
>)
    requires
        i <= toks@.len(),
    ensures
        match r {
            Result::Ok(m) => spec_tokenize_from(cview(*node), str_views(toks@), i as int)
                == Result::<MatchesV, TokErrV>::Ok(mview(m)),
            Result::Err(e) => spec_tokenize_from(cview(*node), str_views(toks@), i as int)
                == Result::<MatchesV, TokErrV>::Err(teview(e)),
        },
    decreases toks@.len() - i,
{
    let ghost ts = str_views(toks@);
    if i >= toks.len() {
        return Result::Ok(Matches::new_empty());
    }
    let t: &String = &toks[i];
    proof {
        assert(ts[i as int] == t@);
    }
    if is_long(t.as_str()) {
        let len = t.as_str().unicode_len();
        let key: &str = t.as_str().substring_char(2, len);
        proof {
            assert(key@ =~= long_key(t@));
        }
        match crate::defs::find_arg_in(&node.args, key) {
            Option::None => Result::Err(TokenizeError::UnknownArgument(key.to_owned())),
            Option::Some(a) => {
                let is_flag = match a.cardinality {
                    Cardinality::BoolFlag => true,
                    _ => false,
                };
                if is_flag {
                    match tokenize_from(node, toks, i + 1) {
                        Result::Ok(m) => {
                            if m.has_flag(key) {
                                Result::Err(TokenizeError::DuplicateArgument(key.to_owned()))
                            } else {
                                let mut m2 = m;
                                let ghost old_flags = m2.flags@;
                                m2.flags.insert(0, key.to_owned());
                                proof {
                                    lemma_str_views_prepend(old_flags, m2.flags@[0]);
                                    assert(m2.flags@[0]@ == long_key(t@));
                                    assert(mview(m2).flags
                                        =~= str_views(old_flags).insert(0, long_key(t@)));
                                }
                                Result::Ok(m2)
                            }
                        },
                        Result::Err(e) => Result::Err(e),
                    }
                } else {
                    if i + 1 >= toks.len() {
                        Result::Err(TokenizeError::MissingValue(key.to_owned()))
                    } else {
                        let value: String = toks[i + 1].clone();
                        proof {
                            assert(ts[i as int + 1] == value@);
                        }
                        match tokenize_from(node, toks, i + 2) {
                            Result::Ok(m) => {
                                if m.value_of(key).is_some() {
                                    Result::Err(
                                        TokenizeError::DuplicateArgument(key.to_owned()),
                                    )
                                } else {
                                    let mut m2 = m;
                                    let ghost old_opts = m2.options@;
                                    m2.options.insert(0, (key.to_owned(), value));
                                    proof {
                                        lemma_opt_views_prepend(old_opts, m2.options@[0]);
                                        assert(mview(m2).options =~= opt_views(old_opts).insert(
                                            0,
                                            (long_key(t@), ts[i as int + 1]),
                                        ));
                                    }
                                    Result::Ok(m2)
                                }
                            },
                            Result::Err(e) => Result::Err(e),
                        }
                    }
                }
            },
        }
    } else {
        match crate::defs::find_child_in(&node.children, t.as_str()) {
            Option::None => Result::Err(TokenizeError::UnknownCommand(t.clone())),
            Option::Some(child) => {
                match tokenize_from(child, toks, i + 1) {
                    Result::Ok(m) => {
                        let r = Matches {
                            options: Vec::new(),
                            flags: Vec::new(),
                            sub: Option::Some(
                                Box::new(SubMatches { token: t.clone(), matches: m }),
                            ),
                        };
                        proof {
                            assert(mview(r).options =~= Seq::<(Seq<char>, Seq<char>)>::empty());
                            assert(mview(r).flags =~= Seq::<Seq<char>>::empty());
                        }
                        Result::Ok(r)
                    },
                    Result::Err(e) => Result::Err(e),
                }
            },
        }
    }
}

/// Matches raw input tokens against a command tree, yielding the
/// matched-argument tree or the first error, scanning left to right.
pub fn tokenize(node: &CmdDef, toks: &Vec<String>) -> (r: Result<Matches, TokenizeError>)
    ensures
        match r {
            Result::Ok(m) => spec_tokenize(cview(*node), str_views(toks@))
                == Result::<MatchesV, TokErrV>::Ok(mview(m)),
            Result::Err(e) => spec_tokenize(cview(*node), str_views(toks@))
                == Result::<MatchesV, TokErrV>::Err(teview(e)),
        },
{
    tokenize_from(node, toks, 0)
}


/// The `--key` spelling of a key.
pub open spec fn dashes(k: Seq<char>) -> Seq<char> {
    seq!['-', '-'] + k
}

/// Input text for the options of one level: `--key value`, in order.
pub open spec fn render_options(opts: Seq<(Seq<char>, Seq<char>)>) -> Seq<Seq<char>>
    decreases opts.len(),
{
    if opts.len() == 0 {
        Seq::empty()
    } else {
        seq![dashes(opts[0].0), opts[0].1] + render_options(opts.skip(1))
    }
}

/// Input text for the flags of one level: `--flag`, in order.
pub open spec fn render_flags(fs: Seq<Seq<char>>) -> Seq<Seq<char>>
    decreases fs.len(),
{
    if fs.len() == 0 {
        Seq::empty()
    } else {
        seq![dashes(fs[0])] + render_flags(fs.skip(1))
    }
}

/// Input text that selects exactly the given matched tree: each level's
/// options and flags, then the subcommand token and its own text.
pub open spec fn render(m: MatchesV) -> Seq<Seq<char>>
    decreases m,
{
    render_options(m.options) + render_flags(m.flags) + (match m.sub {
        Option::None => Seq::<Seq<char>>::empty(),
        Option::Some(b) => seq![b.token] + render(b.matches),
    })
}

/// The nesting depth of a matched tree.
pub open spec fn mheight(m: MatchesV) -> nat
    decreases m,
{
    match m.sub {
        Option::None => 0,
        Option::Some(b) => 1 + mheight(b.matches),
    }
}

/// Whether a matched tree could have come from tokenizing against the given
/// node: every option names a declared value-taking argument, every flag a
/// declared flag, no key twice, and the selected subcommand names a child,
/// recursively.
pub open spec fn consistent(m: MatchesV, node: CmdDefV) -> bool
    decreases m,
{
    &&& (forall|i: int, j: int|
        0 <= i < j < m.options.len() ==> (#[trigger] m.options[i]).0 != (
        #[trigger] m.options[j]).0)
    &&& (forall|i: int, j: int|
        0 <= i < j < m.flags.len() ==> #[trigger] m.flags[i] != #[trigger] m.flags[j])
    &&& (forall|i: int|
        0 <= i < m.options.len() ==> match find_arg(node.args, (#[trigger] m.options[i]).0) {
            Option::Some(a) => !(a.cardinality is BoolFlag),
            Option::None => false,
        })
    &&& (forall|i: int|
        0 <= i < m.flags.len() ==> match find_arg(node.args, #[trigger] m.flags[i]) {
            Option::Some(a) => a.cardinality is BoolFlag,
            Option::None => false,
        })
    &&& match m.sub {
        Option::None => true,
        Option::Some(b) => {
            &&& !spec_is_long(b.token)
            &&& match find_child(node.children, b.token) {
                Option::Some(child) => consistent(b.matches, child),
                Option::None => false,
            }
        },
    }
}

/// Tokenizing from an offset past a fixed prefix sees only the suffix.
pub proof fn lemma_tok_shift(node: CmdDefV, pre: Seq<Seq<char>>, toks: Seq<Seq<char>>, j: int)
    requires
        0 <= j <= toks.len(),
    ensures
        spec_tokenize_from(node, pre + toks, pre.len() + j) == spec_tokenize_from(node, toks, j),
    decreases toks.len() - j,
{
    let full = pre + toks;
    if j >= toks.len() {
    } else {
        assert(full[pre.len() + j] == toks[j]);
        if j + 1 < toks.len() {
            assert(full[pre.len() + j + 1] == toks[j + 1]);
        }
        lemma_tok_shift(node, pre, toks, j + 1);
        if j + 2 <= toks.len() {
            lemma_tok_shift(node, pre, toks, j + 2);
        }
        let t = toks[j];
        if !spec_is_long(t) {
            match find_child(node.children, t) {
                Option::Some(child) => {
                    lemma_tok_shift(child, pre, toks, j + 1);
                },
                Option::None => {},
            }
        }
    }
}

pub proof fn lemma_lookup_absent(opts: Seq<(Seq<char>, Seq<char>)>, k: Seq<char>)
    requires
        forall|i: int| 0 <= i < opts.len() ==> (#[trigger] opts[i]).0 != k,
    ensures
        lookup(opts, k) is None,
    decreases opts.len(),
{
    if opts.len() > 0 {
        assert forall|i: int| 0 <= i < opts.skip(1).len() implies (#[trigger] opts.skip(1)[i]).0
            != k by {
            assert(opts.skip(1)[i] == opts[i + 1]);
        }
        lemma_lookup_absent(opts.skip(1), k);
    }
}

/// The round trip of the command surface: input text constructed from any
/// matched tree that is consistent with a command tree node tokenizes back
/// to exactly that tree — every option value, flag and subcommand selection
/// is recovered unchanged.
pub proof fn lemma_render_round_trip(node: CmdDefV, m: MatchesV)
    requires
        consistent(m, node),
    ensures
        spec_tokenize(node, render(m)) == Result::<MatchesV, TokErrV>::Ok(m),
    decreases mheight(m), m.options.len() + m.flags.len(),
{
    if m.options.len() > 0 {
        let k = m.options[0].0;
        let v = m.options[0].1;
        let m1 = MatchesV { options: m.options.skip(1), ..m };
        assert(consistent(m1, node)) by {
            assert forall|i: int, j: int| 0 <= i < j < m1.options.len() implies (
            #[trigger] m1.options[i]).0 != (#[trigger] m1.options[j]).0 by {
                assert(m1.options[i] == m.options[i + 1]);
                assert(m1.options[j] == m.options[j + 1]);
            }
            assert forall|i: int| 0 <= i < m1.options.len() implies match find_arg(
                node.args,
                (#[trigger] m1.options[i]).0,
            ) {
                Option::Some(a) => !(a.cardinality is BoolFlag),
                Option::None => false,
            } by {
                assert(m1.options[i] == m.options[i + 1]);
            }
        }
        assert(mheight(m1) == mheight(m));
        lemma_render_round_trip(node, m1);
        let pre = seq![dashes(k), v];
        assert(render(m) =~= pre + render(m1)) by {
            assert(m1.options == m.options.skip(1));
        }
        lemma_tok_shift(node, pre, render(m1), 0);
        assert(spec_tokenize_from(node, pre + render(m1), 2) == Result::<
            MatchesV,
            TokErrV,
        >::Ok(m1));
        assert(spec_is_long(dashes(k))) by {
            assert(dashes(k)[0] == '-');
            assert(dashes(k)[1] == '-');
        }
        assert(long_key(dashes(k)) =~= k);
        assert forall|i: int| 0 <= i < m1.options.len() implies (#[trigger] m1.options[i]).0
            != k by {
            assert(m1.options[i] == m.options[i + 1]);
        }
        lemma_lookup_absent(m1.options, k);
        let full = pre + render(m1);
        assert(full[0] == dashes(k));
        assert(full[1] == v);
        assert(spec_tokenize_from(node, full, 0) == Result::<MatchesV, TokErrV>::Ok(
            MatchesV { options: m1.options.insert(0, (k, v)), ..m1 },
        ));
        assert(m1.options.insert(0, (k, v)) =~= m.options);
    } else if m.flags.len() > 0 {
        let k = m.flags[0];
        let m1 = MatchesV { flags: m.flags.skip(1), ..m };
        assert(consistent(m1, node)) by {
            assert forall|i: int, j: int| 0 <= i < j < m1.flags.len() implies #[trigger] m1.flags[i]
                != #[trigger] m1.flags[j] by {
                assert(m1.flags[i] == m.flags[i + 1]);
                assert(m1.flags[j] == m.flags[j + 1]);
            }
            assert forall|i: int| 0 <= i < m1.flags.len() implies match find_arg(
                node.args,
                #[trigger] m1.flags[i],
            ) {
                Option::Some(a) => a.cardinality is BoolFlag,
                Option::None => false,
            } by {
                assert(m1.flags[i] == m.flags[i + 1]);
            }
            assert(m1.options.len() == 0);
        }
        assert(mheight(m1) == mheight(m));
        lemma_render_round_trip(node, m1);
        let pre = seq![dashes(k)];
        assert(render(m) =~= pre + render(m1)) by {
            assert(m1.flags == m.flags.skip(1));
            assert(render_options(m.options).len() == 0);
        }
        lemma_tok_shift(node, pre, render(m1), 0);
        assert(spec_tokenize_from(node, pre + render(m1), 1) == Result::<
            MatchesV,
            TokErrV,
        >::Ok(m1));
        assert(spec_is_long(dashes(k))) by {
            assert(dashes(k)[0] == '-');
            assert(dashes(k)[1] == '-');
        }
        assert(long_key(dashes(k)) =~= k);
        assert(!m1.flags.contains(k)) by {
            if m1.flags.contains(k) {
                let i = choose|i: int| 0 <= i < m1.flags.len() && m1.flags[i] == k;
                assert(m1.flags[i] == m.flags[i + 1]);
            }
        }
        let full = pre + render(m1);
        assert(full[0] == dashes(k));
        assert(spec_tokenize_from(node, full, 0) == Result::<MatchesV, TokErrV>::Ok(
            MatchesV { flags: m1.flags.insert(0, k), ..m1 },
        ));
        assert(m1.flags.insert(0, k) =~= m.flags);
    } else {
        match m.sub {
            Option::None => {
                assert(render(m) =~= Seq::<Seq<char>>::empty());
                assert(m.options =~= Seq::<(Seq<char>, Seq<char>)>::empty());
                assert(m.flags =~= Seq::<Seq<char>>::empty());
            },
            Option::Some(b) => {
                let child = find_child(node.children, b.token)->Some_0;
                lemma_render_round_trip(child, b.matches);
                let pre = seq![b.token];
                assert(render(m) =~= pre + render(b.matches)) by {
                    assert(render_options(m.options).len() == 0);
                    assert(render_flags(m.flags).len() == 0);
                }
                lemma_tok_shift(child, pre, render(b.matches), 0);
                assert(spec_tokenize_from(child, pre + render(b.matches), 1) == Result::<
                    MatchesV,
                    TokErrV,
                >::Ok(b.matches));
                let full = pre + render(b.matches);
                assert(full[0] == b.token);
                assert(spec_tokenize_from(node, full, 0) == Result::<MatchesV, TokErrV>::Ok(
                    MatchesV {
                        options: Seq::empty(),
                        flags: Seq::empty(),
                        sub: Option::Some(
                            Box::new(SubMatchesV { token: b.token, matches: b.matches }),
                        ),
                    },
                ));
                assert(m.options =~= Seq::<(Seq<char>, Seq<char>)>::empty());
                assert(m.flags =~= Seq::<Seq<char>>::empty());
            },
        }
    }
}

} // verus!
