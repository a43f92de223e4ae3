//! The matched-argument tree: the result of tokenizing raw command-line
//! input against a command tree. Each level holds the named option values
//! and flags that were supplied at that level, and at most one selected
//! subcommand with its own nested matches.

use vstd::prelude::*;

verus! {

/// Matched input for one command level: option values, flags present,
/// and the selected subcommand, if any.
pub struct Matches {
    pub options: Vec<(String, String)>,
    pub flags: Vec<String>,
    pub sub: Option<Box<SubMatches>>,
}

/// The selected subcommand token and its nested matches.
pub struct SubMatches {
    pub token: String,
    pub matches: Matches,
}

/// Mathematical model of a matched-argument tree.
pub ghost struct MatchesV {
    pub options: Seq<(Seq<char>, Seq<char>)>,
    pub flags: Seq<Seq<char>>,
    pub sub: Option<Box<SubMatchesV>>,
}

pub ghost struct SubMatchesV {
    pub token: Seq<char>,
    pub matches: MatchesV,
}

/// The models of an option association list.
pub open spec fn opt_views(v: Seq<(String, String)>) -> Seq<(Seq<char>, Seq<char>)> {
    v.map_values(|p: (String, String)| (p.0@, p.1@))
}

/// The models of a list of strings.
pub open spec fn str_views(v: Seq<String>) -> Seq<Seq<char>> {
    v.map_values(|s: String| s@)
}

pub proof fn lemma_opt_views_prepend(v: Seq<(String, String)>, p: (String, String))
    ensures
        opt_views(v.insert(0, p)) =~= opt_views(v).insert(0, (p.0@, p.1@)),
{
}

pub proof fn lemma_str_views_prepend(v: Seq<String>, s: String)
    ensures
        str_views(v.insert(0, s)) =~= str_views(v).insert(0, s@),
{
}

/// The model of a matched-argument tree.
pub open spec fn mview(m: Matches) -> MatchesV
    decreases m,
{
    MatchesV {
        options: opt_views(m.options@),
        flags: str_views(m.flags@),
        sub: match m.sub {
            Option::None => Option::None,
            Option::Some(b) => Option::Some(
                Box::new(SubMatchesV { token: b.token@, matches: mview(b.matches) }),
            ),
        },
    }
}

/// A matched tree with nothing supplied.
pub open spec fn empty_matches() -> MatchesV {
    MatchesV { options: Seq::empty(), flags: Seq::empty(), sub: Option::None }
}

/// The value of option `k` in an association list, front to back.
pub open spec fn lookup(entries: Seq<(Seq<char>, Seq<char>)>, k: Seq<char>) -> Option<Seq<char>>
    decreases entries.len(),
{
    if entries.len() == 0 {
        Option::None
    } else if entries[0].0 == k {
        Option::Some(entries[0].1)
    } else {
        lookup(entries.skip(1), k)
    }
}

/// The raw text supplied for option `k` at this level, if any.
pub open spec fn opt_of(m: MatchesV, k: Seq<char>) -> Option<Seq<char>> {
    lookup(m.options, k)
}

/// Whether flag `k` was supplied at this level.
pub open spec fn flag_of(m: MatchesV, k: Seq<char>) -> bool {
    m.flags.contains(k)
}

/// Whether option or flag `k` was supplied at this level.
pub open spec fn present(m: MatchesV, k: Seq<char>) -> bool {
    opt_of(m, k) is Some || flag_of(m, k)
}

/// The selected subcommand token at this level, if any.
pub open spec fn sub_token(m: MatchesV) -> Option<Seq<char>> {
    match m.sub {
        Option::None => Option::None,
        Option::Some(b) => Option::Some(b.token),
    }
}

/// The nested matches of the selected subcommand, if its token is `tok`.
pub open spec fn sub_of(m: MatchesV, tok: Seq<char>) -> Option<MatchesV> {
    match m.sub {
        Option::None => Option::None,
        Option::Some(b) => if b.token == tok {
            Option::Some(b.matches)
        } else {
            Option::None
        },
    }
}

impl Matches {
    /// A matched tree with nothing supplied.
    pub fn new_empty() -> (r: Matches)
        ensures
            mview(r) == empty_matches(),
    {
        let r = Matches { options: Vec::new(), flags: Vec::new(), sub: Option::None };
        proof {
            assert(mview(r).options =~= empty_matches().options);
            assert(mview(r).flags =~= empty_matches().flags);
        }
        r
    }

    /// The raw text supplied for option `key` at this level, if any.
    pub fn value_of<'a>(&'a self, key: &str) -> (r: Option<&'a String>)
        ensures
            match r {
                Option::Some(v) => opt_of(mview(*self), key@) == Option::Some(v@),
                Option::None => opt_of(mview(*self), key@) is None,
            },
    {
        let ghost opts = mview(*self).options;
        proof {
            assert(opts.skip(0) =~= opts);
        }
        let mut i: usize = 0;
        while i < self.options.len()
            invariant
                0 <= i <= self.options.len(),
                opts == mview(*self).options,
                opts.len() == self.options.len(),
                forall|j: int| 0 <= j < opts.len() ==> opts[j] == (self.options@[j].0@, self.options@[j].1@),
                lookup(opts, key@) == lookup(opts.skip(i as int), key@),
                forall|j: int| 0 <= j < i ==> opts[j].0 != key@,
            decreases self.options.len() - i,
        {
            proof {
                assert(opts.skip(i as int)[0] == opts[i as int]);
            }
            if crate::str_eq(self.options[i].0.as_str(), key) {
                return Option::Some(&self.options[i].1);
            }
            proof {
                assert(opts.skip(i as int).skip(1) =~= opts.skip(i + 1));
            }
            i += 1;
        }
        proof {
            assert(opts.skip(i as int).len() == 0);
        }
        Option::None
    }

    /// Whether flag `key` was supplied at this level.
    pub fn has_flag(&self, key: &str) -> (r: bool)
        ensures
            r == flag_of(mview(*self), key@),
    {
        let ghost fl = mview(*self).flags;
        let mut i: usize = 0;
        while i < self.flags.len()
            invariant
                0 <= i <= self.flags.len(),
                fl == mview(*self).flags,
                fl.len() == self.flags.len(),
                forall|j: int| 0 <= j < fl.len() ==> fl[j] == self.flags@[j]@,
                forall|j: int| 0 <= j < i ==> fl[j] != key@,
            decreases self.flags.len() - i,
        {
            if crate::str_eq(self.flags[i].as_str(), key) {
                assert(fl[i as int] == key@);
                return true;
            }
            i += 1;
        }
        proof {
            assert(forall|j: int| 0 <= j < fl.len() ==> fl[j] != key@);
        }
        false
    }

    /// The nested matches of the selected subcommand, if its token is `tok`.
    pub fn subcommand_matches<'a>(&'a self, tok: &str) -> (r: Option<&'a Matches>)
        ensures
            match r {
                Option::Some(m) => sub_of(mview(*self), tok@) == Option::Some(mview(*m)),
                Option::None => sub_of(mview(*self), tok@) is None,
            },
    {
        match &self.sub {
            Option::None => Option::None,
            Option::Some(b) => {
                if crate::str_eq(b.token.as_str(), tok) {
                    Option::Some(&b.matches)
                } else {
                    Option::None
                }
            },
        }
    }

    /// The selected subcommand token at this level, if any.
    pub fn sub_token_string(&self) -> (r: Option<String>)
        ensures
            match r {
                Option::Some(t) => sub_token(mview(*self)) == Option::Some(t@),
                Option::None => sub_token(mview(*self)) is None,
            },
    {
        match &self.sub {
            Option::None => Option::None,
            Option::Some(b) => Option::Some(b.token.clone()),
        }
    }
}

} // verus!
