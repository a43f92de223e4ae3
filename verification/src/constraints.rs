//! Uniform enforcement of declared argument-group constraints: mutual
//! exclusion and required-one-of groups are checked against the matched
//! input, level by level along the selected command path, before any
//! command-specific parse logic runs.

use vstd::prelude::*;

use crate::defs::{find_child, kview, CmdDef, CmdDefV, Constraint, ConstraintV, cview};
use crate::matches::{present, Matches, MatchesV, mview, str_views};

verus! {

/// A violated constraint: the conflicting keys, or the group of which none
/// was supplied.
#[derive(Debug)]
pub enum ConstraintError {
    Conflict(String, String),
    MissingOneOf(Vec<String>),
}

/// Mathematical model of a constraint violation.
pub ghost enum ConstraintErrV {
    Conflict(Seq<char>, Seq<char>),
    MissingOneOf(Seq<Seq<char>>),
}

/// The model of a constraint violation.
pub open spec fn ceview(e: ConstraintError) -> ConstraintErrV {
    match e {
        ConstraintError::Conflict(a, b) => ConstraintErrV::Conflict(a@, b@),
        ConstraintError::MissingOneOf(ks) => ConstraintErrV::MissingOneOf(str_views(ks@)),
    }
}

/// Whether any of the keys was supplied.
pub open spec fn any_present(ks: Seq<Seq<char>>, m: MatchesV) -> bool
    decreases ks.len(),
{
    ks.len() > 0 && (present(m, ks[0]) || any_present(ks.skip(1), m))
}

/// Whether the matched input at one level violates one constraint.
pub open spec fn violated(c: ConstraintV, m: MatchesV) -> bool {
    match c {
        ConstraintV::Conflicts(a, b) => present(m, a) && present(m, b),
        ConstraintV::RequiredOneOf(ks) => !any_present(ks, m),
    }
}

/// The violation report for one constraint.
pub open spec fn violation_of(c: ConstraintV) -> ConstraintErrV {
    match c {
        ConstraintV::Conflicts(a, b) => ConstraintErrV::Conflict(a, b),
        ConstraintV::RequiredOneOf(ks) => ConstraintErrV::MissingOneOf(ks),
    }
}

/// The first violated constraint in declaration order, if any.
pub open spec fn spec_check_list(cs: Seq<ConstraintV>, m: MatchesV) -> Result<(), ConstraintErrV>
    decreases cs.len(),
{
    if cs.len() == 0 {
        Result::Ok(())
    } else if violated(cs[0], m) {
        Result::Err(violation_of(cs[0]))
    } else {
        spec_check_list(cs.skip(1), m)
    }
}

/// The first violated constraint along the selected command path, checking
/// each level's declared constraints against that level's matched input.
pub open spec fn spec_check_tree(node: CmdDefV, m: MatchesV) -> Result<(), ConstraintErrV>
    decreases m,
{
    match spec_check_list(node.constraints, m) {
        Result::Err(e) => Result::Err(e),
        Result::Ok(u) => match m.sub {
            Option::None => Result::Ok(()),
            Option::Some(b) => match find_child(node.children, b.token) {
                Option::None => Result::Ok(()),
                Option::Some(child) => spec_check_tree(child, b.matches),
            },
        },
    }
}

/// A supplied pair of mutually exclusive keys is always rejected: if a
/// conflict between `a` and `b` is declared at this level and both are
/// present, the check reports a violation, never a silently chosen winner.
pub proof fn lemma_conflict_always_rejected(
    cs: Seq<ConstraintV>,
    m: MatchesV,
    a: Seq<char>,
    b: Seq<char>,
)
    requires
        cs.contains(ConstraintV::Conflicts(a, b)),
        present(m, a),
        present(m, b),
    ensures
        spec_check_list(cs, m) is Err,
    decreases cs.len(),
{
    if cs.len() > 0 {
        if cs[0] == ConstraintV::Conflicts(a, b) {
        } else {
            if !violated(cs[0], m) {
                assert(cs.skip(1).contains(ConstraintV::Conflicts(a, b))) by {
                    let i = choose|i: int| 0 <= i < cs.len() && cs[i] == ConstraintV::Conflicts(
                        a,
                        b,
                    );
                    assert(cs.skip(1)[i - 1] == ConstraintV::Conflicts(a, b));
                }
                lemma_conflict_always_rejected(cs.skip(1), m, a, b);
            }
        }
    }
}

fn check_one(c: &Constraint, m: &Matches) -> (r: bool)
    ensures
        r == violated(kview(*c), mview(*m)),
{
    match c {
        Constraint::Conflicts(a, b) => {
            let pa = m.value_of(a.as_str()).is_some() || m.has_flag(a.as_str());
            let pb = m.value_of(b.as_str()).is_some() || m.has_flag(b.as_str());
            pa && pb
        },
        Constraint::RequiredOneOf(ks) => {
            let ghost kv = str_views(ks@);
            proof {
                assert(kv.skip(0) =~= kv);
            }
            let mut i: usize = 0;
            while i < ks.len()
                invariant
                    0 <= i <= ks.len(),
                    kv == str_views(ks@),
                    kv.len() == ks.len(),
                    kview(*c) == ConstraintV::RequiredOneOf(kv),
                    any_present(kv, mview(*m)) == any_present(kv.skip(i as int), mview(*m)),
                decreases ks.len() - i,
            {
                proof {
                    assert(kv.skip(i as int)[0] == kv[i as int]);
                }
                if m.value_of(ks[i].as_str()).is_some() || m.has_flag(ks[i].as_str()) {
                    proof {
                        assert(present(mview(*m), kv[i as int]));
                        assert(any_present(kv.skip(i as int), mview(*m)));
                    }
                    return false;
                }
                proof {
                    assert(kv.skip(i as int).skip(1) =~= kv.skip(i + 1));
                }
                i += 1;
            }
            proof {
                assert(kv.skip(i as int).len() == 0);
            }
            true
        },
    }
}

fn clone_keys(ks: &Vec<String>) -> (r: Vec<String>)
    ensures
        str_views(r@) == str_views(ks@),
{
    let mut r: Vec<String> = Vec::new();
    let mut i: usize = 0;
    while i < ks.len()
        invariant
            0 <= i <= ks.len(),
            r@.len() == i,
            forall|j: int| 0 <= j < i ==> r@[j]@ == ks@[j]@,
        decreases ks.len() - i,
    {
        r.push(ks[i].clone());
        i += 1;
    }
    proof {
        assert(str_views(r@) =~= str_views(ks@));
    }
    r
}

fn check_list(cs: &Vec<Constraint>, m: &Matches) -> (r: Result<(), ConstraintError>)
    ensures
        match r {
            Result::Ok(u) => spec_check_list(
                cs@.map_values(|c: Constraint| kview(c)),
                mview(*m),
            ) is Ok,
            Result::Err(e) => spec_check_list(
                cs@.map_values(|c: Constraint| kview(c)),
                mview(*m),
            ) == Result::<(), ConstraintErrV>::Err(ceview(e)),
        },
{
    let ghost csv = cs@.map_values(|c: Constraint| kview(c));
    proof {
        assert(csv.skip(0) =~= csv);
    }
    let mut i: usize = 0;
    while i < cs.len()
        invariant
            0 <= i <= cs.len(),
            csv == cs@.map_values(|c: Constraint| kview(c)),
            csv.len() == cs.len(),
            spec_check_list(csv, mview(*m)) == spec_check_list(csv.skip(i as int), mview(*m)),
        decreases cs.len() - i,
    {
        proof {
            assert(csv.skip(i as int)[0] == csv[i as int]);
        }
        if check_one(&cs[i], m) {
            let e = match &cs[i] {
                Constraint::Conflicts(a, b) => ConstraintError::Conflict(a.clone(), b.clone()),
                Constraint::RequiredOneOf(ks) => ConstraintError::MissingOneOf(clone_keys(ks)),
            };
            return Result::Err(e);
        }
        proof {
            assert(csv.skip(i as int).skip(1) =~= csv.skip(i + 1));
        }
        i += 1;
    }
    proof {
        assert(csv.skip(i as int).len() == 0);
    }
    Result::Ok(())
}

/// Checks every declared constraint along the selected command path against
/// the matched input, uniformly for every command, and reports the first
/// violation.
pub fn check_tree(node: &CmdDef, m: &Matches) -> (r: Result<(), ConstraintError>)
    ensures
        match r {
            Result::Ok(u) => spec_check_tree(cview(*node), mview(*m)) is Ok,
            Result::Err(e) => spec_check_tree(cview(*node), mview(*m)) == Result::<
                (),
                ConstraintErrV,
            >::Err(ceview(e)),
        },
    decreases *m,
{
    match check_list(&node.constraints, m) {
        Result::Err(e) => Result::Err(e),
        Result::Ok(u) => {
            match &m.sub {
                Option::None => Result::Ok(()),
                Option::Some(b) => {
                    match crate::defs::find_child_in(&node.children, b.token.as_str()) {
                        Option::None => Result::Ok(()),
                        Option::Some(child) => check_tree(child, &b.matches),
                    }
                },
            }
        },
    }
}


/// Whether two keys declared mutually exclusive at some node along the
/// selected command path were both supplied at that node's level.
pub open spec fn conflict_hit(node: CmdDefV, m: MatchesV, a: Seq<char>, b: Seq<char>) -> bool
    decreases m,
{
    ||| (node.constraints.contains(ConstraintV::Conflicts(a, b)) && present(m, a) && present(
        m,
        b,
    ))
    ||| match m.sub {
        Option::None => false,
        Option::Some(bx) => match find_child(node.children, bx.token) {
            Option::Some(child) => conflict_hit(child, bx.matches, a, b),
            Option::None => false,
        },
    }
}

/// Mutual exclusion is enforced uniformly, whichever command declared it:
/// supplying both keys of a declared conflict, at any depth of the selected
/// command path, always fails the tree-wide check — never a silently chosen
/// winner.
pub proof fn lemma_conflict_rejected_anywhere(
    node: CmdDefV,
    m: MatchesV,
    a: Seq<char>,
    b: Seq<char>,
)
    requires
        conflict_hit(node, m, a, b),
    ensures
        spec_check_tree(node, m) is Err,
    decreases m,
{
    if node.constraints.contains(ConstraintV::Conflicts(a, b)) && present(m, a) && present(
        m,
        b,
    ) {
        lemma_conflict_always_rejected(node.constraints, m, a, b);
    } else {
        match spec_check_list(node.constraints, m) {
            Result::Err(e) => {},
            Result::Ok(u) => {
                match m.sub {
                    Option::None => {},
                    Option::Some(bx) => {
                        match find_child(node.children, bx.token) {
                            Option::Some(child) => {
                                lemma_conflict_rejected_anywhere(child, bx.matches, a, b);
                            },
                            Option::None => {},
                        }
                    },
                }
            },
        }
    }
}

} // verus!
