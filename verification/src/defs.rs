//! Declarative command and argument definitions: the typed descriptor of one
//! command-line parameter, the constraints a command declares on groups of
//! parameters, and the command tree composed per executable entry point.

use vstd::prelude::*;

verus! {

/// How many values an argument takes.
#[derive(PartialEq, Eq, Structural, Clone, Copy, Debug)]
pub enum Cardinality {
    /// A named option that must be supplied.
    RequiredValue,
    /// A named option that may be absent.
    OptionalValue,
    /// A boolean flag; absence means `false` and never fails to parse.
    BoolFlag,
}

/// How a value is obtained when the option is absent from the input.
pub enum DefaultKind {
    /// No default: absence is an error for required options, `None` for
    /// optional ones.
    NoDefault,
    /// A fixed default value.
    Static(String),
    /// An environment variable, falling back to a fixed default when the
    /// variable is unset.
    EnvThenStatic(String, String),
    /// An environment variable alone: when it too is unset, the option is
    /// simply absent.
    FromEnv(String),
    /// An alias resolved against the runtime context once it exists; until
    /// then the fixed alias text stands in.
    FromContext(String),
}

/// Mathematical model of a default source.
pub ghost enum DefaultKindV {
    NoDefault,
    Static(Seq<char>),
    EnvThenStatic(Seq<char>, Seq<char>),
    FromEnv(Seq<char>),
    FromContext(Seq<char>),
}

/// The model of a default source.
pub open spec fn dview(d: DefaultKind) -> DefaultKindV {
    match d {
        DefaultKind::NoDefault => DefaultKindV::NoDefault,
        DefaultKind::Static(s) => DefaultKindV::Static(s@),
        DefaultKind::EnvThenStatic(v, s) => DefaultKindV::EnvThenStatic(v@, s@),
        DefaultKind::FromEnv(v) => DefaultKindV::FromEnv(v@),
        DefaultKind::FromContext(s) => DefaultKindV::FromContext(s@),
    }
}

/// A typed, named specification of one command-line parameter.
pub struct ArgSpec {
    /// The unique key users supply as `--key`.
    pub name: String,
    /// Help text.
    pub about: String,
    pub cardinality: Cardinality,
    pub default: DefaultKind,
}

/// Mathematical model of an argument descriptor. Help text is carried only
/// on the executable descriptor; no contract depends on it.
pub ghost struct ArgSpecV {
    pub name: Seq<char>,
    pub cardinality: Cardinality,
    pub default: DefaultKindV,
}

/// The model of an argument descriptor.
pub open spec fn aview(a: ArgSpec) -> ArgSpecV {
    ArgSpecV { name: a.name@, cardinality: a.cardinality, default: dview(a.default) }
}

/// A declared constraint over a group of argument keys, enforced uniformly
/// before any command-specific parse logic runs.
pub enum Constraint {
    /// At most one of the two keys may be supplied.
    Conflicts(String, String),
    /// At least one of the keys must be supplied.
    RequiredOneOf(Vec<String>),
}

/// Mathematical model of a constraint.
pub ghost enum ConstraintV {
    Conflicts(Seq<char>, Seq<char>),
    RequiredOneOf(Seq<Seq<char>>),
}

/// The model of a constraint.
pub open spec fn kview(c: Constraint) -> ConstraintV {
    match c {
        Constraint::Conflicts(a, b) => ConstraintV::Conflicts(a@, b@),
        Constraint::RequiredOneOf(ks) => ConstraintV::RequiredOneOf(
            crate::matches::str_views(ks@),
        ),
    }
}

/// One node of a command tree: the token users type, its own argument
/// descriptors and constraints, and its child commands. An empty child list
/// marks a leaf, executable command.
pub struct CmdDef {
    /// The literal token that selects this command.
    pub token: String,
    /// Help text.
    pub about: String,
    pub args: Vec<ArgSpec>,
    pub constraints: Vec<Constraint>,
    pub children: Vec<CmdDef>,
}

/// Mathematical model of a command tree node. Help text is carried only on
/// the executable node; no contract depends on it.
pub ghost struct CmdDefV {
    pub token: Seq<char>,
    pub args: Seq<ArgSpecV>,
    pub constraints: Seq<ConstraintV>,
    pub children: Seq<CmdDefV>,
}

/// The models of a sequence of command tree nodes.
pub open spec fn cviews(s: Seq<CmdDef>) -> Seq<CmdDefV>
    decreases s,
{
    if s.len() == 0 {
        Seq::empty()
    } else {
        cviews(s.drop_last()).push(cview(s.last()))
    }
}

/// The model of a command tree node.
pub open spec fn cview(c: CmdDef) -> CmdDefV
    decreases c,
{
    CmdDefV {
        token: c.token@,
        args: c.args@.map_values(|a: ArgSpec| aview(a)),
        constraints: c.constraints@.map_values(|k: Constraint| kview(k)),
        children: cviews(c.children@),
    }
}

pub proof fn lemma_cviews_len(s: Seq<CmdDef>)
    ensures
        cviews(s).len() == s.len(),
    decreases s,
{
    if s.len() > 0 {
        lemma_cviews_len(s.drop_last());
    }
}

pub proof fn lemma_cviews_index(s: Seq<CmdDef>, i: int)
    requires
        0 <= i < s.len(),
    ensures
        cviews(s).len() == s.len(),
        cviews(s)[i] == cview(s[i]),
    decreases s,
{
    lemma_cviews_len(s);
    if i < s.len() - 1 {
        lemma_cviews_index(s.drop_last(), i);
    }
}

/// The descriptor for key `k` among `args`, front to back.
pub open spec fn find_arg(args: Seq<ArgSpecV>, k: Seq<char>) -> Option<ArgSpecV>
    decreases args.len(),
{
    if args.len() == 0 {
        Option::None
    } else if args[0].name == k {
        Option::Some(args[0])
    } else {
        find_arg(args.skip(1), k)
    }
}

/// The child whose token is `tok` among `children`, front to back.
pub open spec fn find_child(children: Seq<CmdDefV>, tok: Seq<char>) -> Option<CmdDefV>
    decreases children.len(),
{
    if children.len() == 0 {
        Option::None
    } else if children[0].token == tok {
        Option::Some(children[0])
    } else {
        find_child(children.skip(1), tok)
    }
}

/// Sibling tokens are distinct at every node: matching by exact token
/// equality then selects at most one child.
pub open spec fn wf_tree(c: CmdDefV) -> bool
    decreases c,
{
    &&& (forall|i: int, j: int|
        0 <= i < j < c.children.len() ==> #[trigger] c.children[i].token
            != #[trigger] c.children[j].token)
    &&& (forall|i: int| 0 <= i < c.children.len() ==> wf_tree(#[trigger] c.children[i]))
}

/// The descriptor for key `k` among `args`, front to back.
pub fn find_arg_in<'a>(args: &'a Vec<ArgSpec>, k: &str) -> (r: Option<&'a ArgSpec>)
    ensures
        match r {
            Option::Some(a) => find_arg(args@.map_values(|x: ArgSpec| aview(x)), k@)
                == Option::Some(aview(*a)),
            Option::None => find_arg(args@.map_values(|x: ArgSpec| aview(x)), k@) is None,
        },
{
    let ghost s = args@.map_values(|x: ArgSpec| aview(x));
    proof {
        assert(s.skip(0) =~= s);
    }
    let mut i: usize = 0;
    while i < args.len()
        invariant
            0 <= i <= args.len(),
            s == args@.map_values(|x: ArgSpec| aview(x)),
            s.len() == args.len(),
            find_arg(s, k@) == find_arg(s.skip(i as int), k@),
        decreases args.len() - i,
    {
        proof {
            assert(s.skip(i as int)[0] == s[i as int]);
        }
        if crate::str_eq(args[i].name.as_str(), k) {
            return Option::Some(&args[i]);
        }
        proof {
            assert(s.skip(i as int).skip(1) =~= s.skip(i + 1));
        }
        i += 1;
    }
    proof {
        assert(s.skip(i as int).len() == 0);
    }
    Option::None
}

/// The child whose token is `tok` among `children`, front to back.
pub fn find_child_in<'a>(children: &'a Vec<CmdDef>, tok: &str) -> (r: Option<&'a CmdDef>)
    ensures
        match r {
            Option::Some(c) => find_child(cviews(children@), tok@) == Option::Some(cview(*c)),
            Option::None => find_child(cviews(children@), tok@) is None,
        },
{
    let ghost s = cviews(children@);
    proof {
        lemma_cviews_len(children@);
        assert(s.skip(0) =~= s);
    }
    let mut i: usize = 0;
    while i < children.len()
        invariant
            0 <= i <= children.len(),
            s == cviews(children@),
            s.len() == children.len(),
            find_child(s, tok@) == find_child(s.skip(i as int), tok@),
        decreases children.len() - i,
    {
        proof {
            lemma_cviews_index(children@, i as int);
            assert(s.skip(i as int)[0] == s[i as int]);
        }
        if crate::str_eq(children[i].token.as_str(), tok) {
            return Option::Some(&children[i]);
        }
        proof {
            assert(s.skip(i as int).skip(1) =~= s.skip(i + 1));
        }
        i += 1;
    }
    proof {
        assert(s.skip(i as int).len() == 0);
    }
    Option::None
}

/// Decides whether a command tree is well formed: no two sibling commands
/// share a token, at any depth. Composed trees are expected to satisfy this;
/// a violation would make token matching ambiguous.
pub fn check_no_duplicate_tokens(c: &CmdDef) -> (r: bool)
    ensures
        r == wf_tree(cview(*c)),
    decreases *c,
{
    let ghost cv = cview(*c);
    proof {
        lemma_cviews_len(c.children@);
    }
    let n = c.children.len();
    let mut i: usize = 0;
    while i < n
        invariant
            0 <= i <= n,
            cv == cview(*c),
            n == c.children.len(),
            cv.children.len() == n,
            forall|p: int, q: int|
                0 <= p < q < n && q < i ==> #[trigger] cv.children[p].token
                    != #[trigger] cv.children[q].token,
            forall|p: int| 0 <= p < i ==> wf_tree(#[trigger] cv.children[p]),
        decreases n - i,
    {
        proof {
            lemma_cviews_index(c.children@, i as int);
        }
        let mut j: usize = 0;
        while j < i
            invariant
                0 <= j <= i < n,
                cv == cview(*c),
                n == c.children.len(),
                cv.children.len() == n,
                cv.children[i as int] == cview(c.children@[i as int]),
                forall|p: int| 0 <= p < j ==> #[trigger] cv.children[p].token
                    != cv.children[i as int].token,
            decreases i - j,
        {
            proof {
                lemma_cviews_index(c.children@, j as int);
            }
            if crate::str_eq(c.children[j].token.as_str(), c.children[i].token.as_str()) {
                proof {
                    assert(cv.children[j as int].token == cv.children[i as int].token);
                    assert(!wf_tree(cv));
                }
                return false;
            }
            j += 1;
        }
        if !check_no_duplicate_tokens(&c.children[i]) {
            proof {
                assert(!wf_tree(cv.children[i as int]));
            }
            return false;
        }
        i += 1;
    }
    proof {
        assert(wf_tree(cv));
    }
    true
}

impl CmdDef {
    /// A leaf command with the given token and help text.
    pub fn leaf(token: &str, about: &str) -> (r: CmdDef)
        ensures
            cview(r) == (CmdDefV {
                token: token@,
                args: Seq::<ArgSpecV>::empty(),
                constraints: Seq::<ConstraintV>::empty(),
                children: Seq::<CmdDefV>::empty(),
            }),
    {
        let r = CmdDef {
            token: token.to_owned(),
            about: about.to_owned(),
            args: Vec::new(),
            constraints: Vec::new(),
            children: Vec::new(),
        };
        proof {
            assert(cview(r).args =~= Seq::<ArgSpecV>::empty());
            assert(cview(r).constraints =~= Seq::<ConstraintV>::empty());
            assert(cview(r).children =~= Seq::<CmdDefV>::empty());
        }
        r
    }

    /// Appends one argument descriptor.
    pub fn arg(self, a: ArgSpec) -> (r: CmdDef)
        ensures
            cview(r) == (CmdDefV { args: cview(self).args.push(aview(a)), ..cview(self) }),
    {
        let ghost old_c = self;
        let mut c = self;
        c.args.push(a);
        proof {
            assert(cview(c).args =~= cview(old_c).args.push(aview(a)));
            assert(cview(c).constraints =~= cview(old_c).constraints);
            assert(cview(c).children =~= cview(old_c).children);
        }
        c
    }

    /// Appends one constraint.
    pub fn constraint(self, k: Constraint) -> (r: CmdDef)
        ensures
            cview(r) == (CmdDefV {
                constraints: cview(self).constraints.push(kview(k)),
                ..cview(self)
            }),
    {
        let ghost old_c = self;
        let mut c = self;
        let ghost kv = kview(k);
        c.constraints.push(k);
        proof {
            assert(cview(c).args =~= cview(old_c).args);
            assert(cview(c).constraints =~= cview(old_c).constraints.push(kv));
            assert(cview(c).children =~= cview(old_c).children);
        }
        c
    }

    /// Attaches one child command definition.
    pub fn subcommand(self, child: CmdDef) -> (r: CmdDef)
        ensures
            cview(r) == (CmdDefV {
                children: cview(self).children.push(cview(child)),
                ..cview(self)
            }),
    {
        let ghost old_c = self;
        let mut c = self;
        let ghost chv = cview(child);
        let ghost old_children = c.children@;
        c.children.push(child);
        proof {
            assert(cview(c).args =~= cview(old_c).args);
            assert(cview(c).constraints =~= cview(old_c).constraints);
            assert(c.children@.drop_last() =~= old_children);
            assert(cview(c).children == cview(old_c).children.push(chv));
        }
        c
    }
}


/// A named option that must be supplied.
pub fn req_arg(name: &str, about: &str) -> (a: ArgSpec)
    ensures
        aview(a) == (ArgSpecV {
            name: name@,
            cardinality: Cardinality::RequiredValue,
            default: DefaultKindV::NoDefault,
        }),
{
    ArgSpec {
        name: name.to_owned(),
        about: about.to_owned(),
        cardinality: Cardinality::RequiredValue,
        default: DefaultKind::NoDefault,
    }
}

/// A named option that may be absent.
pub fn opt_arg(name: &str, about: &str) -> (a: ArgSpec)
    ensures
        aview(a) == (ArgSpecV {
            name: name@,
            cardinality: Cardinality::OptionalValue,
            default: DefaultKindV::NoDefault,
        }),
{
    ArgSpec {
        name: name.to_owned(),
        about: about.to_owned(),
        cardinality: Cardinality::OptionalValue,
        default: DefaultKind::NoDefault,
    }
}

/// A boolean flag.
pub fn flag_arg(name: &str, about: &str) -> (a: ArgSpec)
    ensures
        aview(a) == (ArgSpecV {
            name: name@,
            cardinality: Cardinality::BoolFlag,
            default: DefaultKindV::NoDefault,
        }),
{
    ArgSpec {
        name: name.to_owned(),
        about: about.to_owned(),
        cardinality: Cardinality::BoolFlag,
        default: DefaultKind::NoDefault,
    }
}

/// A named option with a fixed default.
pub fn def_arg(name: &str, about: &str, d: &str) -> (a: ArgSpec)
    ensures
        aview(a) == (ArgSpecV {
            name: name@,
            cardinality: Cardinality::OptionalValue,
            default: DefaultKindV::Static(d@),
        }),
{
    ArgSpec {
        name: name.to_owned(),
        about: about.to_owned(),
        cardinality: Cardinality::OptionalValue,
        default: DefaultKind::Static(d.to_owned()),
    }
}

/// A named option defaulting to an environment variable, then to a fixed
/// fallback.
pub fn env_def_arg(name: &str, about: &str, var: &str, d: &str) -> (a: ArgSpec)
    ensures
        aview(a) == (ArgSpecV {
            name: name@,
            cardinality: Cardinality::OptionalValue,
            default: DefaultKindV::EnvThenStatic(var@, d@),
        }),
{
    ArgSpec {
        name: name.to_owned(),
        about: about.to_owned(),
        cardinality: Cardinality::OptionalValue,
        default: DefaultKind::EnvThenStatic(var.to_owned(), d.to_owned()),
    }
}

/// A named option backed by an environment variable alone, with no static
/// fallback.
pub fn env_opt_arg(name: &str, about: &str, var: &str) -> (a: ArgSpec)
    ensures
        aview(a) == (ArgSpecV {
            name: name@,
            cardinality: Cardinality::OptionalValue,
            default: DefaultKindV::FromEnv(var@),
        }),
{
    ArgSpec {
        name: name.to_owned(),
        about: about.to_owned(),
        cardinality: Cardinality::OptionalValue,
        default: DefaultKind::FromEnv(var.to_owned()),
    }
}

/// A named option whose default is resolved from the runtime context.
pub fn ctx_def_arg(name: &str, about: &str, d: &str) -> (a: ArgSpec)
    ensures
        aview(a) == (ArgSpecV {
            name: name@,
            cardinality: Cardinality::OptionalValue,
            default: DefaultKindV::FromContext(d@),
        }),
{
    ArgSpec {
        name: name.to_owned(),
        about: about.to_owned(),
        cardinality: Cardinality::OptionalValue,
        default: DefaultKind::FromContext(d.to_owned()),
    }
}

/// Declares two keys mutually exclusive.
pub fn conflicts(a: &str, b: &str) -> (c: Constraint)
    ensures
        kview(c) == ConstraintV::Conflicts(a@, b@),
{
    Constraint::Conflicts(a.to_owned(), b.to_owned())
}


/// Declares that at least one of the two keys must be supplied.
pub fn required_one_of2(a: &str, b: &str) -> (c: Constraint)
    ensures
        kview(c) == ConstraintV::RequiredOneOf(seq![a@, b@]),
{
    let mut v: Vec<String> = Vec::new();
    v.push(a.to_owned());
    v.push(b.to_owned());
    let c = Constraint::RequiredOneOf(v);
    proof {
        assert(crate::matches::str_views(v@) =~= seq![a@, b@]);
    }
    c
}


/// Argument keys are distinct within every command's argument set, at any
/// depth: no two descriptors of one command declare the same key.
pub open spec fn wf_args_tree(c: CmdDefV) -> bool
    decreases c,
{
    &&& (forall|i: int, j: int|
        0 <= i < j < c.args.len() ==> #[trigger] c.args[i].name != #[trigger] c.args[j].name)
    &&& (forall|i: int| 0 <= i < c.children.len() ==> wf_args_tree(#[trigger] c.children[i]))
}

/// Decides whether every command of a tree declares its argument keys at
/// most once. Composed trees are expected to satisfy this; a violation would
/// make one key resolve against two descriptors.
pub fn check_no_duplicate_arg_keys(c: &CmdDef) -> (r: bool)
    ensures
        r == wf_args_tree(cview(*c)),
    decreases *c,
{
    let ghost cv = cview(*c);
    let n = c.args.len();
    let mut i: usize = 0;
    while i < n
        invariant
            0 <= i <= n,
            cv == cview(*c),
            n == c.args.len(),
            cv.args.len() == n,
            forall|p: int, q: int|
                0 <= p < q < n && q < i ==> #[trigger] cv.args[p].name
                    != #[trigger] cv.args[q].name,
        decreases n - i,
    {
        let mut j: usize = 0;
        while j < i
            invariant
                0 <= j <= i < n,
                cv == cview(*c),
                n == c.args.len(),
                cv.args.len() == n,
                forall|p: int| 0 <= p < j ==> #[trigger] cv.args[p].name
                    != cv.args[i as int].name,
            decreases i - j,
        {
            if crate::str_eq(c.args[j].name.as_str(), c.args[i].name.as_str()) {
                proof {
                    assert(cv.args[j as int].name == cv.args[i as int].name);
                    assert(!wf_args_tree(cv));
                }
                return false;
            }
            j += 1;
        }
        i += 1;
    }
    proof {
        lemma_cviews_len(c.children@);
    }
    let cn = c.children.len();
    let mut k: usize = 0;
    while k < cn
        invariant
            0 <= k <= cn,
            cv == cview(*c),
            cn == c.children.len(),
            cv.children.len() == cn,
            forall|p: int| 0 <= p < k ==> wf_args_tree(#[trigger] cv.children[p]),
        decreases cn - k,
    {
        proof {
            lemma_cviews_index(c.children@, k as int);
        }
        if !check_no_duplicate_arg_keys(&c.children[k]) {
            proof {
                assert(!wf_args_tree(cv.children[k as int]));
            }
            return false;
        }
        k += 1;
    }
    proof {
        assert(wf_args_tree(cv));
    }
    true
}

} // verus!
