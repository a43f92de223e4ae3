//! Typed argument values and their parsers. Every parser is total over raw
//! text: it yields the value exactly when the text is in the argument's
//! vocabulary or grammar, and rejects everything else — a malformed value is
//! never silently replaced by a default.

use vstd::prelude::*;

verus! {

/// Whether `c` is a decimal digit.
pub open spec fn is_dec_digit(c: char) -> bool {
    48 <= c as int <= 57
}

/// Whether every character of `s` is a decimal digit.
pub open spec fn all_digits(s: Seq<char>) -> bool {
    forall|i: int| 0 <= i < s.len() ==> is_dec_digit(#[trigger] s[i])
}

/// The numeric value of a digit string, most significant first.
pub open spec fn dec_val(s: Seq<char>) -> int
    decreases s.len(),
{
    if s.len() == 0 {
        0
    } else {
        10 * dec_val(s.drop_last()) + (s.last() as int - 48)
    }
}

pub proof fn lemma_dec_val_nonneg(s: Seq<char>)
    requires
        all_digits(s),
    ensures
        dec_val(s) >= 0,
    decreases s.len(),
{
    if s.len() > 0 {
        assert(all_digits(s.drop_last()));
        lemma_dec_val_nonneg(s.drop_last());
    }
}

pub proof fn lemma_dec_val_take_succ(s: Seq<char>, i: int)
    requires
        0 <= i < s.len(),
    ensures
        dec_val(s.take(i + 1)) == 10 * dec_val(s.take(i)) + (s[i] as int - 48),
{
    assert(s.take(i + 1).drop_last() =~= s.take(i));
    assert(s.take(i + 1).last() == s[i]);
}

pub proof fn lemma_dec_val_take_mono(s: Seq<char>, i: int)
    requires
        all_digits(s),
        0 <= i <= s.len(),
    ensures
        dec_val(s.take(i)) <= dec_val(s),
    decreases s.len() - i,
{
    if i == s.len() {
        assert(s.take(i) =~= s);
    } else {
        lemma_dec_val_take_succ(s, i);
        assert(all_digits(s.take(i))) by {
            assert(forall|j: int| 0 <= j < i ==> s.take(i)[j] == #[trigger] s[j]);
        }
        lemma_dec_val_nonneg(s.take(i));
        lemma_dec_val_take_mono(s, i + 1);
    }
}

/// The value of a nonempty digit string, when it fits in 64 bits.
pub open spec fn u64_digits_of(s: Seq<char>) -> Option<u64> {
    if s.len() > 0 && all_digits(s) && dec_val(s) <= u64::MAX {
        Option::Some(dec_val(s) as u64)
    } else {
        Option::None
    }
}

/// Parses a nonempty string of decimal digits into a 64-bit value.
pub fn parse_u64_digits(s: &str) -> (r: Option<u64>)
    ensures
        r == u64_digits_of(s@),
{
    let n = s.unicode_len();
    if n == 0 {
        return Option::None;
    }
    let mut acc: u64 = 0;
    let mut i: usize = 0;
    proof {
        assert(s@.take(0) =~= Seq::<char>::empty());
    }
    while i < n
        invariant
            0 <= i <= n,
            n == s@.len(),
            all_digits(s@.take(i as int)),
            acc == dec_val(s@.take(i as int)),
        decreases n - i,
    {
        let c = s.get_char(i);
        let u = c as u32;
        if !(48 <= u && u <= 57) {
            proof {
                assert(!is_dec_digit(s@[i as int]));
                assert(!all_digits(s@));
            }
            return Option::None;
        }
        let d: u64 = (u - 48) as u64;
        proof {
            lemma_dec_val_take_succ(s@, i as int);
            assert(all_digits(s@.take(i as int + 1))) by {
                assert(forall|j: int|
                    0 <= j < i + 1 ==> s@.take(i as int + 1)[j] == #[trigger] s@[j]);
                assert(is_dec_digit(s@[i as int]));
            }
        }
        let step = match acc.checked_mul(10) {
            Option::Some(x) => x.checked_add(d),
            Option::None => Option::None,
        };
        match step {
            Option::Some(x) => {
                acc = x;
            },
            Option::None => {
                proof {
                    assert(dec_val(s@.take(i as int + 1)) > u64::MAX);
                    if all_digits(s@) {
                        lemma_dec_val_take_mono(s@, i as int + 1);
                    }
                    assert(s@.take(n as int) =~= s@);
                }
                return Option::None;
            },
        }
        i += 1;
    }
    proof {
        assert(s@.take(n as int) =~= s@);
    }
    Option::Some(acc)
}

/// The value of an unsigned decimal number with an optional leading plus
/// sign, when it fits in 64 bits.
pub open spec fn u64_of(s: Seq<char>) -> Option<u64> {
    if s.len() > 0 && s[0] == '+' {
        u64_digits_of(s.skip(1))
    } else {
        u64_digits_of(s)
    }
}

/// Parses an unsigned 64-bit decimal number, used for proposal identifiers
/// and epochs.
pub fn parse_u64(s: &str) -> (r: Option<u64>)
    ensures
        r == u64_of(s@),
{
    let n = s.unicode_len();
    if n > 0 && s.get_char(0) == '+' {
        let rest = s.substring_char(1, n);
        proof {
            assert(rest@ =~= s@.skip(1));
        }
        parse_u64_digits(rest)
    } else {
        parse_u64_digits(s)
    }
}

/// Ten to the `k`.
pub open spec fn pow10(k: nat) -> int
    decreases k,
{
    if k == 0 {
        1
    } else {
        10 * pow10((k - 1) as nat)
    }
}

pub proof fn lemma_dec_val_below_pow10(s: Seq<char>)
    requires
        all_digits(s),
    ensures
        dec_val(s) < pow10(s.len()),
    decreases s.len(),
{
    if s.len() > 0 {
        assert(all_digits(s.drop_last()));
        lemma_dec_val_below_pow10(s.drop_last());
        assert(s.last() as int - 48 <= 9);
    }
}

pub proof fn lemma_pow10_concrete()
    ensures
        pow10(0) == 1,
        pow10(1) == 10,
        pow10(2) == 100,
        pow10(3) == 1000,
        pow10(4) == 10000,
        pow10(5) == 100000,
        pow10(6) == 1000000,
{
    reveal_with_fuel(pow10, 8);
}

/// The exact power of ten for scales up to a million.
pub fn pow10_u64(k: usize) -> (r: u64)
    requires
        k <= 6,
    ensures
        r as int == pow10(k as nat),
{
    proof {
        lemma_pow10_concrete();
    }
    if k == 0 {
        1
    } else if k == 1 {
        10
    } else if k == 2 {
        100
    } else if k == 3 {
        1000
    } else if k == 4 {
        10000
    } else if k == 5 {
        100000
    } else {
        1000000
    }
}

/// The index of the first occurrence of `c` in `s`, if any.
pub open spec fn first_ix(s: Seq<char>, c: char) -> Option<int>
    decreases s.len(),
{
    if s.len() == 0 {
        Option::None
    } else if s[0] == c {
        Option::Some(0)
    } else {
        match first_ix(s.skip(1), c) {
            Option::Some(i) => Option::Some(i + 1),
            Option::None => Option::None,
        }
    }
}

/// A token amount in millionths of a whole token.
pub struct Amount {
    pub micro: u64,
}

/// The micro-unit value of an amount written as a decimal number with at
/// most six fraction digits: an optional leading plus sign, a nonempty whole
/// part, and optionally a dot followed by one to six fraction digits.
pub open spec fn amount_of(s: Seq<char>) -> Option<u64> {
    let body = if s.len() > 0 && s[0] == '+' {
        s.skip(1)
    } else {
        s
    };
    match first_ix(body, '.') {
        Option::None => if body.len() > 0 && all_digits(body) && 1000000 * dec_val(body)
            <= u64::MAX {
            Option::Some((1000000 * dec_val(body)) as u64)
        } else {
            Option::None
        },
        Option::Some(d) => {
            let whole = body.take(d);
            let frac = body.skip(d + 1);
            if whole.len() > 0 && 1 <= frac.len() <= 6 && all_digits(whole) && all_digits(frac)
                && 1000000 * dec_val(whole) + pow10((6 - frac.len()) as nat) * dec_val(frac)
                <= u64::MAX {
                Option::Some(
                    (1000000 * dec_val(whole) + pow10((6 - frac.len()) as nat) * dec_val(
                        frac,
                    )) as u64,
                )
            } else {
                Option::None
            }
        },
    }
}

/// The index of the first occurrence of `c` in `s`, if any.
fn find_char(s: &str, c: char) -> (r: Option<usize>)
    ensures
        match r {
            Option::Some(i) => first_ix(s@, c) == Option::Some(i as int) && i < s@.len(),
            Option::None => first_ix(s@, c) is None,
        },
{
    let n = s.unicode_len();
    let mut i: usize = 0;
    proof {
        assert(s@.skip(0) =~= s@);
    }
    while i < n
        invariant
            0 <= i <= n,
            n == s@.len(),
            forall|j: int| 0 <= j < i ==> s@[j] != c,
            first_ix(s@, c) == match first_ix(s@.skip(i as int), c) {
                Option::Some(k) => Option::Some(k + i),
                Option::None => Option::None::<int>,
            },
        decreases n - i,
    {
        proof {
            assert(s@.skip(i as int)[0] == s@[i as int]);
        }
        if s.get_char(i) == c {
            return Option::Some(i);
        }
        proof {
            assert(s@.skip(i as int).skip(1) =~= s@.skip(i + 1));
        }
        i += 1;
    }
    proof {
        assert(s@.skip(i as int).len() == 0);
    }
    Option::None
}

impl Amount {
    /// Parses a token amount written in decimal, to micro units.
    pub fn parse(s: &str) -> (r: Option<Amount>)
        ensures
            match r {
                Option::Some(a) => amount_of(s@) == Option::Some(a.micro),
                Option::None => amount_of(s@) is None,
            },
    {
        let n = s.unicode_len();
        let body: &str = if n > 0 && s.get_char(0) == '+' {
            let b = s.substring_char(1, n);
            proof {
                assert(b@ =~= s@.skip(1));
            }
            b
        } else {
            s
        };
        let bn = body.unicode_len();
        match find_char(body, '.') {
            Option::None => {
                match parse_u64_digits(body) {
                    Option::None => {
                        proof {
                            if body@.len() > 0 && all_digits(body@) {
                                lemma_dec_val_nonneg(body@);
                                assert(1000000 * dec_val(body@) > u64::MAX) by (nonlinear_arith)
                                    requires
                                        dec_val(body@) > u64::MAX,
                                ;
                            }
                        }
                        Option::None
                    },
                    Option::Some(v) => {
                        proof {
                            lemma_dec_val_nonneg(body@);
                        }
                        match v.checked_mul(1000000) {
                            Option::Some(m) => Option::Some(Amount { micro: m }),
                            Option::None => Option::None,
                        }
                    },
                }
            },
            Option::Some(d) => {
                let whole: &str = body.substring_char(0, d);
                let frac: &str = body.substring_char(d + 1, bn);
                proof {
                    assert(whole@ =~= body@.take(d as int));
                    assert(frac@ =~= body@.skip(d as int + 1));
                }
                let fn_len = bn - d - 1;
                if d == 0 || fn_len < 1 || fn_len > 6 {
                    return Option::None;
                }
                let wv = match parse_u64_digits(whole) {
                    Option::Some(v) => v,
                    Option::None => {
                        proof {
                            lemma_pow10_nonneg((6 - frac@.len()) as nat);
                            if whole@.len() > 0 && all_digits(whole@) && all_digits(frac@) {
                                lemma_dec_val_nonneg(whole@);
                                lemma_dec_val_nonneg(frac@);
                                assert(1000000 * dec_val(whole@) + pow10(
                                    (6 - frac@.len()) as nat,
                                ) * dec_val(frac@) > u64::MAX) by (nonlinear_arith)
                                    requires
                                        dec_val(whole@) > u64::MAX,
                                        dec_val(frac@) >= 0,
                                        pow10((6 - frac@.len()) as nat) >= 1,
                                ;
                            }
                        }
                        return Option::None;
                    },
                };
                let fv = match parse_u64_digits(frac) {
                    Option::Some(v) => v,
                    Option::None => {
                        proof {
                            if all_digits(frac@) && frac@.len() <= 6 {
                                lemma_dec_val_below_pow10(frac@);
                                lemma_pow10_mono(frac@.len(), 6);
                                lemma_pow10_concrete();
                            }
                        }
                        return Option::None;
                    },
                };
                let mult = pow10_u64(6 - fn_len);
                let ghost p = pow10((6 - frac@.len()) as nat);
                proof {
                    lemma_dec_val_nonneg(whole@);
                    lemma_dec_val_nonneg(frac@);
                    lemma_pow10_nonneg((6 - frac@.len()) as nat);
                    assert(mult as int == p);
                    assert(fv as int * mult as int == p * dec_val(frac@)) by (nonlinear_arith)
                        requires
                            fv as int == dec_val(frac@),
                            mult as int == p,
                    ;
                    assert(1000000 * dec_val(whole@) >= 0) by (nonlinear_arith)
                        requires
                            dec_val(whole@) >= 0,
                    ;
                    assert(p * dec_val(frac@) >= 0) by (nonlinear_arith)
                        requires
                            dec_val(frac@) >= 0,
                            p >= 1,
                    ;
                }
                let scaled_frac = match fv.checked_mul(mult) {
                    Option::Some(x) => x,
                    Option::None => {
                        return Option::None;
                    },
                };
                let w6 = match (1000000u64).checked_mul(wv) {
                    Option::Some(x) => x,
                    Option::None => {
                        return Option::None;
                    },
                };
                let total = match w6.checked_add(scaled_frac) {
                    Option::Some(x) => x,
                    Option::None => {
                        return Option::None;
                    },
                };
                proof {
                    assert(wv as int == dec_val(whole@));
                    assert(fv as int == dec_val(frac@));
                    assert(scaled_frac as int == p * dec_val(frac@));
                    assert(w6 as int == 1000000 * dec_val(whole@));
                    assert(total as int == 1000000 * dec_val(whole@) + p * dec_val(frac@));
                    assert(amount_of(s@) == Option::Some(total));
                }
                Option::Some(Amount { micro: total })
            },
        }
    }
}

pub proof fn lemma_pow10_nonneg(k: nat)
    ensures
        pow10(k) >= 1,
    decreases k,
{
    if k > 0 {
        lemma_pow10_nonneg((k - 1) as nat);
    }
}

pub proof fn lemma_pow10_mono(a: nat, b: nat)
    requires
        a <= b,
    ensures
        pow10(a) <= pow10(b),
    decreases b,
{
    if a < b {
        lemma_pow10_mono(a, (b - 1) as nat);
        lemma_pow10_nonneg((b - 1) as nat);
    }
}


/// A vote on a governance proposal.
#[derive(PartialEq, Eq, Structural, Clone, Copy, Debug)]
pub enum ProposalVote {
    Yay,
    Nay,
}

/// The vote named by raw text: the vocabulary is exactly `yay` and `nay`,
/// and anything else fails, it never falls back to a default.
pub open spec fn vote_of(s: Seq<char>) -> Option<ProposalVote> {
    if s == "yay"@ {
        Option::Some(ProposalVote::Yay)
    } else if s == "nay"@ {
        Option::Some(ProposalVote::Nay)
    } else {
        Option::None
    }
}

impl ProposalVote {
    /// Parses a proposal vote.
    pub fn parse(s: &str) -> (r: Option<ProposalVote>)
        ensures
            r == vote_of(s@),
    {
        if crate::str_eq(s, "yay") {
            Option::Some(ProposalVote::Yay)
        } else if crate::str_eq(s, "nay") {
            Option::Some(ProposalVote::Nay)
        } else {
            Option::None
        }
    }
}

/// The signature scheme of a key the wallet generates.
#[derive(PartialEq, Eq, Structural, Clone, Copy, Debug)]
pub enum SchemeType {
    Ed25519,
    Secp256k1,
}

/// The scheme named by raw text: exactly `ed25519` or `secp256k1`.
pub open spec fn scheme_of(s: Seq<char>) -> Option<SchemeType> {
    if s == "ed25519"@ {
        Option::Some(SchemeType::Ed25519)
    } else if s == "secp256k1"@ {
        Option::Some(SchemeType::Secp256k1)
    } else {
        Option::None
    }
}

impl SchemeType {
    /// Parses a key scheme name.
    pub fn parse(s: &str) -> (r: Option<SchemeType>)
        ensures
            r == scheme_of(s@),
    {
        if crate::str_eq(s, "ed25519") {
            Option::Some(SchemeType::Ed25519)
        } else if crate::str_eq(s, "secp256k1") {
            Option::Some(SchemeType::Secp256k1)
        } else {
            Option::None
        }
    }
}

/// The mode a node runs in.
#[derive(PartialEq, Eq, Structural, Clone, Copy, Debug)]
pub enum TendermintMode {
    Validator,
    Full,
    Seed,
}

/// The run mode named by raw text: exactly `validator`, `full` or `seed`.
pub open spec fn mode_of(s: Seq<char>) -> Option<TendermintMode> {
    if s == "validator"@ {
        Option::Some(TendermintMode::Validator)
    } else if s == "full"@ {
        Option::Some(TendermintMode::Full)
    } else if s == "seed"@ {
        Option::Some(TendermintMode::Seed)
    } else {
        Option::None
    }
}

impl TendermintMode {
    /// Parses a run mode name.
    pub fn parse(s: &str) -> (r: Option<TendermintMode>)
        ensures
            r == mode_of(s@),
    {
        if crate::str_eq(s, "validator") {
            Option::Some(TendermintMode::Validator)
        } else if crate::str_eq(s, "full") {
            Option::Some(TendermintMode::Full)
        } else if crate::str_eq(s, "seed") {
            Option::Some(TendermintMode::Seed)
        } else {
            Option::None
        }
    }
}

/// Whether `c` may stand in a chain identifier: a letter, a digit, `.`,
/// `-` or `_`.
pub open spec fn is_chain_char(c: char) -> bool {
    ||| 48 <= c as int <= 57
    ||| 65 <= c as int <= 90
    ||| 97 <= c as int <= 122
    ||| c == '.'
    ||| c == '-'
    ||| c == '_'
}

/// Whether every character of `s` may stand in a chain identifier.
pub open spec fn all_chain_chars(s: Seq<char>) -> bool {
    forall|i: int| 0 <= i < s.len() ==> is_chain_char(#[trigger] s[i])
}

fn check_chain_chars(s: &str) -> (r: bool)
    ensures
        r == all_chain_chars(s@),
{
    let n = s.unicode_len();
    let mut i: usize = 0;
    while i < n
        invariant
            0 <= i <= n,
            n == s@.len(),
            forall|j: int| 0 <= j < i ==> is_chain_char(#[trigger] s@[j]),
        decreases n - i,
    {
        let c = s.get_char(i);
        let u = c as u32;
        let ok = (48 <= u && u <= 57) || (65 <= u && u <= 90) || (97 <= u && u <= 122) || c == '.'
            || c == '-' || c == '_';
        if !ok {
            proof {
                assert(!is_chain_char(s@[i as int]));
            }
            return false;
        }
        i += 1;
    }
    true
}

/// The identifier of a chain.
pub struct ChainId {
    pub raw: String,
}

/// Whether raw text is a chain identifier: one to thirty characters, each a
/// letter, a digit, `.`, `-` or `_`.
pub open spec fn chain_id_ok(s: Seq<char>) -> bool {
    1 <= s.len() <= 30 && all_chain_chars(s)
}

impl ChainId {
    /// Parses a chain identifier.
    pub fn parse(s: &str) -> (r: Option<ChainId>)
        ensures
            match r {
                Option::Some(c) => chain_id_ok(s@) && c.raw@ == s@,
                Option::None => !chain_id_ok(s@),
            },
    {
        let n = s.unicode_len();
        if 1 <= n && n <= 30 && check_chain_chars(s) {
            Option::Some(ChainId { raw: s.to_owned() })
        } else {
            Option::None
        }
    }
}

/// The prefix a chain identifier is generated from.
pub struct ChainIdPrefix {
    pub raw: String,
}

/// Whether raw text is a chain identifier prefix: one to nineteen
/// characters, each a letter, a digit, `.`, `-` or `_`.
pub open spec fn chain_id_prefix_ok(s: Seq<char>) -> bool {
    1 <= s.len() <= 19 && all_chain_chars(s)
}

impl ChainIdPrefix {
    /// Parses a chain identifier prefix.
    pub fn parse(s: &str) -> (r: Option<ChainIdPrefix>)
        ensures
            match r {
                Option::Some(c) => chain_id_prefix_ok(s@) && c.raw@ == s@,
                Option::None => !chain_id_prefix_ok(s@),
            },
    {
        let n = s.unicode_len();
        if 1 <= n && n <= 19 && check_chain_chars(s) {
            Option::Some(ChainIdPrefix { raw: s.to_owned() })
        } else {
            Option::None
        }
    }
}

/// Whether `p` is a prefix of `s`.
pub open spec fn has_prefix(s: Seq<char>, p: Seq<char>) -> bool {
    p.len() <= s.len() && s.take(p.len() as int) == p
}

/// Whether `s` starts with `p`.
pub fn starts_with(s: &str, p: &str) -> (r: bool)
    ensures
        r == has_prefix(s@, p@),
{
    let n = s.unicode_len();
    let m = p.unicode_len();
    if m > n {
        return false;
    }
    let mut i: usize = 0;
    while i < m
        invariant
            0 <= i <= m <= n,
            n == s@.len(),
            m == p@.len(),
            forall|j: int| 0 <= j < i ==> s@[j] == p@[j],
        decreases m - i,
    {
        if s.get_char(i) != p.get_char(i) {
            proof {
                assert(s@.take(m as int)[i as int] != p@[i as int]);
            }
            return false;
        }
        i += 1;
    }
    proof {
        assert(s@.take(m as int) =~= p@);
    }
    true
}

/// The host and port named by `host:port` text: the host is everything
/// before the first colon and must be nonempty, the port is a decimal
/// number up to 65535.
pub open spec fn hostport_of(t: Seq<char>) -> Option<(Seq<char>, u16)> {
    match first_ix(t, ':') {
        Option::None => Option::None,
        Option::Some(i) => {
            let h = t.take(i);
            let p = t.skip(i + 1);
            if h.len() > 0 && p.len() > 0 && all_digits(p) && dec_val(p) <= 65535 {
                Option::Some((h, dec_val(p) as u16))
            } else {
                Option::None
            }
        },
    }
}

/// Splits `host:port` text at the first colon.
fn parse_hostport(t: &str) -> (r: Option<(String, u16)>)
    ensures
        match r {
            Option::Some(hp) => hostport_of(t@) == Option::Some((hp.0@, hp.1)),
            Option::None => hostport_of(t@) is None,
        },
{
    let n = t.unicode_len();
    match find_char(t, ':') {
        Option::None => Option::None,
        Option::Some(i) => {
            let host: &str = t.substring_char(0, i);
            let port_text: &str = t.substring_char(i + 1, n);
            proof {
                assert(host@ =~= t@.take(i as int));
                assert(port_text@ =~= t@.skip(i as int + 1));
            }
            if i == 0 {
                return Option::None;
            }
            match parse_u64_digits(port_text) {
                Option::None => {
                    proof {
                        if port_text@.len() > 0 && all_digits(port_text@) {
                            lemma_dec_val_nonneg(port_text@);
                        }
                    }
                    Option::None
                },
                Option::Some(v) => {
                    proof {
                        lemma_dec_val_nonneg(port_text@);
                    }
                    if v <= 65535 {
                        Option::Some((host.to_owned(), v as u16))
                    } else {
                        Option::None
                    }
                },
            }
        },
    }
}

/// The address of a ledger node: a TCP endpoint, or a unix domain socket
/// path.
pub enum LedgerAddress {
    Tcp { host: String, port: u16 },
    Unix { path: String },
}

/// Mathematical model of a ledger node address.
pub ghost enum LedgerAddressV {
    Tcp(Seq<char>, u16),
    Unix(Seq<char>),
}

/// The model of a ledger node address.
pub open spec fn laview(a: LedgerAddress) -> LedgerAddressV {
    match a {
        LedgerAddress::Tcp { host, port } => LedgerAddressV::Tcp(host@, port),
        LedgerAddress::Unix { path } => LedgerAddressV::Unix(path@),
    }
}

/// The ledger node address named by raw text of the shape
/// `{scheme}://{host}:{port}`: a `unix://` prefix names a socket path, a
/// `tcp://` prefix or no scheme at all names a TCP endpoint.
pub open spec fn ledger_address_of(s: Seq<char>) -> Option<LedgerAddressV> {
    if has_prefix(s, "unix://"@) {
        let rest = s.skip("unix://"@.len() as int);
        if rest.len() > 0 {
            Option::Some(LedgerAddressV::Unix(rest))
        } else {
            Option::None
        }
    } else {
        let t = if has_prefix(s, "tcp://"@) {
            s.skip("tcp://"@.len() as int)
        } else {
            s
        };
        match hostport_of(t) {
            Option::Some(hp) => Option::Some(LedgerAddressV::Tcp(hp.0, hp.1)),
            Option::None => Option::None,
        }
    }
}

impl LedgerAddress {
    /// Parses a ledger node address; without a scheme, TCP is assumed.
    pub fn parse(s: &str) -> (r: Option<LedgerAddress>)
        ensures
            match r {
                Option::Some(a) => ledger_address_of(s@) == Option::Some(laview(a)),
                Option::None => ledger_address_of(s@) is None,
            },
    {
        let n = s.unicode_len();
        if starts_with(s, "unix://") {
            proof {
                reveal_strlit("unix://");
            }
            let path: &str = s.substring_char(7, n);
            proof {
                assert(path@ =~= s@.skip(7));
            }
            if path.is_empty() {
                Option::None
            } else {
                Option::Some(LedgerAddress::Unix { path: path.to_owned() })
            }
        } else {
            let t: &str = if starts_with(s, "tcp://") {
                proof {
                    reveal_strlit("tcp://");
                }
                let t0 = s.substring_char(6, n);
                proof {
                    assert(t0@ =~= s@.skip(6));
                }
                t0
            } else {
                s
            };
            match parse_hostport(t) {
                Option::Some(hp) => Option::Some(LedgerAddress::Tcp { host: hp.0, port: hp.1 }),
                Option::None => Option::None,
            }
        }
    }
}

/// A consensus timeout, in milliseconds.
pub struct Timeout {
    pub millis: u64,
}

/// The milliseconds named by a duration written as a number with an `s` or
/// `ms` unit.
pub open spec fn timeout_millis_of(s: Seq<char>) -> Option<u64> {
    if s.len() >= 2 && s[s.len() - 2] == 'm' && s[s.len() - 1] == 's' {
        u64_digits_of(s.take(s.len() - 2))
    } else if s.len() >= 1 && s[s.len() - 1] == 's' {
        match u64_digits_of(s.take(s.len() - 1)) {
            Option::Some(v) => if 1000 * v <= u64::MAX {
                Option::Some((1000 * v) as u64)
            } else {
                Option::None
            },
            Option::None => Option::None,
        }
    } else {
        Option::None
    }
}

impl Timeout {
    /// Parses a duration such as `1s` or `1000ms`.
    pub fn parse(s: &str) -> (r: Option<Timeout>)
        ensures
            match r {
                Option::Some(t) => timeout_millis_of(s@) == Option::Some(t.millis),
                Option::None => timeout_millis_of(s@) is None,
            },
    {
        let n = s.unicode_len();
        if n >= 2 && s.get_char(n - 2) == 'm' && s.get_char(n - 1) == 's' {
            let digits: &str = s.substring_char(0, n - 2);
            proof {
                assert(digits@ =~= s@.take(n as int - 2));
            }
            match parse_u64_digits(digits) {
                Option::Some(v) => Option::Some(Timeout { millis: v }),
                Option::None => Option::None,
            }
        } else if n >= 1 && s.get_char(n - 1) == 's' {
            let digits: &str = s.substring_char(0, n - 1);
            proof {
                assert(digits@ =~= s@.take(n as int - 1));
            }
            match parse_u64_digits(digits) {
                Option::Some(v) => {
                    match (1000u64).checked_mul(v) {
                        Option::Some(m) => Option::Some(Timeout { millis: m }),
                        Option::None => Option::None,
                    }
                },
                Option::None => Option::None,
            }
        } else {
            Option::None
        }
    }
}

/// A static peer-to-peer endpoint as `host:port`.
pub struct NetAddress {
    pub host: String,
    pub port: u16,
}

impl NetAddress {
    /// Parses a `host:port` endpoint.
    pub fn parse(s: &str) -> (r: Option<NetAddress>)
        ensures
            match r {
                Option::Some(a) => hostport_of(s@) == Option::Some((a.host@, a.port)),
                Option::None => hostport_of(s@) is None,
            },
    {
        match parse_hostport(s) {
            Option::Some(hp) => Option::Some(NetAddress { host: hp.0, port: hp.1 }),
            Option::None => Option::None,
        }
    }
}



/// Whether `c` is a lowercase letter or a digit.
pub open spec fn is_lower_or_digit(c: char) -> bool {
    97 <= c as int <= 122 || 48 <= c as int <= 57
}

/// Whether `c` may stand in the data part of a bech32m-encoded address:
/// lowercase letters and digits except `1`, `b`, `i` and `o`.
pub open spec fn is_bech32_data_char(c: char) -> bool {
    is_lower_or_digit(c) && c != '1' && c != 'b' && c != 'i' && c != 'o'
}

/// The index of the last `1` in `s`, if any: the separator of a
/// bech32m-encoded string.
pub open spec fn last_one_ix(s: Seq<char>) -> Option<int>
    decreases s.len(),
{
    if s.len() == 0 {
        Option::None
    } else if s.last() == '1' {
        Option::Some(s.len() - 1)
    } else {
        last_one_ix(s.drop_last())
    }
}

/// Whether raw text has the shape of a bech32m-encoded address: a nonempty
/// lowercase human-readable part, the `1` separator, and at least six data
/// characters from the bech32 alphabet.
pub open spec fn address_shape_ok(s: Seq<char>) -> bool {
    match last_one_ix(s) {
        Option::None => false,
        Option::Some(p) => {
            &&& p >= 1
            &&& s.len() - p - 1 >= 6
            &&& (forall|i: int| 0 <= i < p ==> is_lower_or_digit(#[trigger] s[i]))
            &&& (forall|i: int| p < i < s.len() ==> is_bech32_data_char(#[trigger] s[i]))
        },
    }
}

/// An account address, carried in its bech32m text form.
pub struct Address {
    pub raw: String,
}

fn find_last_one(s: &str) -> (r: Option<usize>)
    ensures
        match r {
            Option::Some(i) => last_one_ix(s@) == Option::Some(i as int) && i < s@.len(),
            Option::None => last_one_ix(s@) is None,
        },
{
    let n = s.unicode_len();
    let mut i: usize = n;
    proof {
        assert(s@.take(n as int) =~= s@);
    }
    while i > 0
        invariant
            0 <= i <= n,
            n == s@.len(),
            last_one_ix(s@) == last_one_ix(s@.take(i as int)),
        decreases i,
    {
        proof {
            assert(s@.take(i as int).last() == s@[i - 1]);
            assert(s@.take(i as int).drop_last() =~= s@.take(i - 1));
        }
        if s.get_char(i - 1) == '1' {
            return Option::Some(i - 1);
        }
        i -= 1;
    }
    proof {
        assert(s@.take(0).len() == 0);
    }
    Option::None
}

impl Address {
    /// Parses an address: only the bech32m shape is checked here; whether
    /// the address names anything is for the ledger to decide.
    pub fn parse(s: &str) -> (r: Option<Address>)
        ensures
            match r {
                Option::Some(a) => address_shape_ok(s@) && a.raw@ == s@,
                Option::None => !address_shape_ok(s@),
            },
    {
        let n = s.unicode_len();
        match find_last_one(s) {
            Option::None => Option::None,
            Option::Some(p) => {
                if p < 1 || n - p - 1 < 6 {
                    return Option::None;
                }
                let mut i: usize = 0;
                while i < p
                    invariant
                        0 <= i <= p < n,
                        n == s@.len(),
                        last_one_ix(s@) == Option::Some(p as int),
                        forall|j: int| 0 <= j < i ==> is_lower_or_digit(#[trigger] s@[j]),
                    decreases p - i,
                {
                    let u = s.get_char(i) as u32;
                    if !((97 <= u && u <= 122) || (48 <= u && u <= 57)) {
                        proof {
                            assert(!is_lower_or_digit(s@[i as int]));
                        }
                        return Option::None;
                    }
                    i += 1;
                }
                let mut j: usize = p + 1;
                while j < n
                    invariant
                        p < j <= n,
                        1 <= p,
                        n == s@.len(),
                        n - p - 1 >= 6,
                        last_one_ix(s@) == Option::Some(p as int),
                        forall|k: int| p < k < j ==> is_bech32_data_char(#[trigger] s@[k]),
                    decreases n - j,
                {
                    let c = s.get_char(j);
                    let u = c as u32;
                    let ok = ((97 <= u && u <= 122) || (48 <= u && u <= 57)) && c != '1' && c
                        != 'b' && c != 'i' && c != 'o';
                    if !ok {
                        proof {
                            assert(!is_bech32_data_char(s@[j as int]));
                        }
                        return Option::None;
                    }
                    j += 1;
                }
                Option::Some(Address { raw: s.to_owned() })
            },
        }
    }
}

/// Whether `c` is a hexadecimal digit.
pub open spec fn is_hex_digit(c: char) -> bool {
    ||| 48 <= c as int <= 57
    ||| 97 <= c as int <= 102
    ||| 65 <= c as int <= 70
}

/// The value of a hexadecimal digit.
pub open spec fn hex_val(c: char) -> int {
    if 48 <= c as int <= 57 {
        c as int - 48
    } else if 97 <= c as int <= 102 {
        c as int - 87
    } else {
        c as int - 55
    }
}

/// Whether every character of `s` is a hexadecimal digit.
pub open spec fn all_hex_digits(s: Seq<char>) -> bool {
    forall|i: int| 0 <= i < s.len() ==> is_hex_digit(#[trigger] s[i])
}

/// The bytes encoded by pairs of hexadecimal digits, most significant digit
/// of each byte first.
pub open spec fn hex_bytes_of(s: Seq<char>) -> Seq<u8>
    decreases s.len(),
{
    if s.len() < 2 {
        Seq::empty()
    } else {
        hex_bytes_of(s.take(s.len() - 2)).push(
            (16 * hex_val(s[s.len() - 2]) + hex_val(s[s.len() - 1])) as u8,
        )
    }
}

/// Whether raw text is a hexadecimal public key: nonempty, of even length,
/// every character a hexadecimal digit.
pub open spec fn public_key_text_ok(s: Seq<char>) -> bool {
    s.len() >= 2 && s.len() % 2 == 0 && all_hex_digits(s)
}

/// A raw public key, decoded from its hexadecimal text form.
pub struct PublicKey {
    pub bytes: Vec<u8>,
}

fn hex_digit_val(c: char) -> (r: Option<u8>)
    ensures
        match r {
            Option::Some(v) => is_hex_digit(c) && v as int == hex_val(c) && v < 16,
            Option::None => !is_hex_digit(c),
        },
{
    let u = c as u32;
    if 48 <= u && u <= 57 {
        Option::Some((u - 48) as u8)
    } else if 97 <= u && u <= 102 {
        Option::Some((u - 87) as u8)
    } else if 65 <= u && u <= 70 {
        Option::Some((u - 55) as u8)
    } else {
        Option::None
    }
}

impl PublicKey {
    /// Parses a public key written in hexadecimal.
    pub fn parse(s: &str) -> (r: Option<PublicKey>)
        ensures
            match r {
                Option::Some(k) => public_key_text_ok(s@) && k.bytes@ == hex_bytes_of(s@),
                Option::None => !public_key_text_ok(s@),
            },
    {
        let n = s.unicode_len();
        if n < 2 || n % 2 != 0 {
            return Option::None;
        }
        let mut bytes: Vec<u8> = Vec::new();
        let mut i: usize = 0;
        proof {
            assert(hex_bytes_of(s@.take(0)) =~= Seq::<u8>::empty());
        }
        while i < n
            invariant
                0 <= i <= n,
                i % 2 == 0,
                n % 2 == 0,
                n == s@.len(),
                forall|j: int| 0 <= j < i ==> is_hex_digit(#[trigger] s@[j]),
                bytes@ == hex_bytes_of(s@.take(i as int)),
            decreases n - i,
        {
            let hi = match hex_digit_val(s.get_char(i)) {
                Option::Some(v) => v,
                Option::None => {
                    proof {
                        assert(!all_hex_digits(s@));
                    }
                    return Option::None;
                },
            };
            let lo = match hex_digit_val(s.get_char(i + 1)) {
                Option::Some(v) => v,
                Option::None => {
                    proof {
                        assert(!all_hex_digits(s@));
                    }
                    return Option::None;
                },
            };
            let b: u8 = 16 * hi + lo;
            bytes.push(b);
            proof {
                assert(s@.take(i as int + 2).take(i as int) =~= s@.take(i as int));
                assert(s@.take(i as int + 2)[i as int] == s@[i as int]);
                assert(s@.take(i as int + 2)[i as int + 1] == s@[i as int + 1]);
            }
            i += 2;
        }
        proof {
            assert(s@.take(n as int) =~= s@);
        }
        Option::Some(PublicKey { bytes })
    }
}

pub proof fn lemma_first_ix_bounds(s: Seq<char>, c: char)
    ensures
        match first_ix(s, c) {
            Option::Some(i) => 0 <= i < s.len() && s[i] == c,
            Option::None => true,
        },
    decreases s.len(),
{
    if s.len() > 0 && s[0] != c {
        lemma_first_ix_bounds(s.skip(1), c);
    }
}

/// The segments of a storage key, split at every `/`.
pub open spec fn split_slash(s: Seq<char>) -> Seq<Seq<char>>
    decreases s.len(),
{
    match first_ix(s, '/') {
        Option::None => seq![s],
        Option::Some(i) => if 0 <= i < s.len() {
            seq![s.take(i)] + split_slash(s.skip(i + 1))
        } else {
            seq![s]
        },
    }
}

/// Whether every segment is nonempty.
pub open spec fn all_segments_nonempty(ss: Seq<Seq<char>>) -> bool
    decreases ss.len(),
{
    ss.len() == 0 || (ss[0].len() > 0 && all_segments_nonempty(ss.skip(1)))
}

/// A storage key: a path of nonempty segments.
pub struct StorageKey {
    pub segments: Vec<String>,
}

fn find_char_from(s: &str, from: usize, c: char) -> (r: Option<usize>)
    requires
        from <= s@.len(),
    ensures
        match r {
            Option::Some(i) => first_ix(s@.skip(from as int), c) == Option::Some(
                i as int - from,
            ) && from <= i < s@.len(),
            Option::None => first_ix(s@.skip(from as int), c) is None,
        },
{
    let n = s.unicode_len();
    let mut i: usize = from;
    proof {
        assert(s@.skip(from as int).skip(0) =~= s@.skip(from as int));
    }
    while i < n
        invariant
            from <= i <= n,
            n == s@.len(),
            first_ix(s@.skip(from as int), c) == match first_ix(s@.skip(i as int), c) {
                Option::Some(k) => Option::Some(k + (i - from)),
                Option::None => Option::None::<int>,
            },
        decreases n - i,
    {
        proof {
            assert(s@.skip(i as int)[0] == s@[i as int]);
        }
        if s.get_char(i) == c {
            return Option::Some(i);
        }
        proof {
            assert(s@.skip(i as int).skip(1) =~= s@.skip(i + 1));
        }
        i += 1;
    }
    proof {
        assert(s@.skip(i as int).len() == 0);
    }
    Option::None
}

fn split_segments(s: &str, from: usize) -> (r: Option<Vec<String>>)
    requires
        from <= s@.len(),
    ensures
        match r {
            Option::Some(v) => crate::matches::str_views(v@) == split_slash(s@.skip(from as int))
                && all_segments_nonempty(split_slash(s@.skip(from as int))),
            Option::None => !all_segments_nonempty(split_slash(s@.skip(from as int))),
        },
    decreases s@.len() - from,
{
    let n = s.unicode_len();
    let ghost tail = s@.skip(from as int);
    match find_char_from(s, from, '/') {
        Option::None => {
            let seg: &str = s.substring_char(from, n);
            proof {
                assert(seg@ =~= tail);
            }
            if seg.is_empty() {
                return Option::None;
            }
            let mut v: Vec<String> = Vec::new();
            v.push(seg.to_owned());
            proof {
                assert(crate::matches::str_views(v@) =~= seq![tail]);
                assert(seq![tail].skip(1) =~= Seq::<Seq<char>>::empty());
                assert(all_segments_nonempty(Seq::<Seq<char>>::empty()));
                assert(all_segments_nonempty(seq![tail]));
            }
            Option::Some(v)
        },
        Option::Some(i) => {
            let seg: &str = s.substring_char(from, i);
            let ghost k = i - from as int;
            proof {
                assert(seg@ =~= tail.take(k));
                assert(0 <= k < tail.len());
                assert(tail.skip(k + 1) =~= s@.skip(i as int + 1));
                assert(split_slash(tail) == seq![tail.take(k)] + split_slash(tail.skip(k + 1)));
                assert(split_slash(tail)[0] == tail.take(k));
                assert(split_slash(tail).skip(1) =~= split_slash(tail.skip(k + 1)));
            }
            if seg.is_empty() {
                return Option::None;
            }
            match split_segments(s, i + 1) {
                Option::None => Option::None,
                Option::Some(rest) => {
                    let mut v = rest;
                    let ghost old_v = v@;
                    v.insert(0, seg.to_owned());
                    proof {
                        crate::matches::lemma_str_views_prepend(old_v, v@[0]);
                        assert(crate::matches::str_views(v@) =~= seq![tail.take(k)]
                            + split_slash(tail.skip(k + 1)));
                        assert(all_segments_nonempty(split_slash(tail.skip(k + 1))));
                        assert(all_segments_nonempty(split_slash(tail)));
                    }
                    Option::Some(v)
                },
            }
        },
    }
}

impl StorageKey {
    /// Parses a storage key: nonempty text split at `/`, every segment
    /// nonempty.
    pub fn parse(s: &str) -> (r: Option<StorageKey>)
        ensures
            match r {
                Option::Some(k) => s@.len() > 0 && crate::matches::str_views(k.segments@)
                    == split_slash(s@) && all_segments_nonempty(split_slash(s@)),
                Option::None => s@.len() == 0 || !all_segments_nonempty(split_slash(s@)),
            },
    {
        if s.is_empty() {
            return Option::None;
        }
        proof {
            assert(s@.skip(0) =~= s@);
        }
        match split_segments(s, 0) {
            Option::Some(v) => Option::Some(StorageKey { segments: v }),
            Option::None => Option::None,
        }
    }
}



/// The highest amount of gas a transaction may use, in the amount's micro
/// units.
pub struct GasLimit {
    pub micro: u64,
}

} // verus!
