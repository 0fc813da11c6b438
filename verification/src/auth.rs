use vstd::prelude::*;

use crate::session::Authentication;

verus! {

/// Capability interface of a principal: the rights evaluator asks whether a
/// permission token is held.  `has_spec` gives the mathematical meaning of the
/// executable check `has`; an implementor supplies both and proves that they
/// agree.
pub trait HasPermission {
    /// The meaning of `has`.  The default says no token is held; a verified
    /// implementor overrides it and proves the executable check agrees.
    open spec fn has_spec(&self, perm: Seq<char>) -> bool {
        false
    }

    fn has(&self, perm: &str) -> (r: bool)
        ensures
            r == self.has_spec(perm@),
    ;
}

/// A composable boolean expression over permission tokens, evaluated against a
/// principal's capability checks.  Trees are built once and shared; cloning
/// copies the whole tree.
pub enum Rights {
    /// True iff every child holds; vacuously true when empty.
    All(Vec<Rights>),
    /// True iff at least one child holds; false when empty.
    Any(Vec<Rights>),
    /// True iff no child holds; vacuously true when empty.
    NoneOf(Vec<Rights>),
    /// True iff the principal holds this token.
    Permission(String),
    /// Always false: the safe default for an unconfigured gate.
    Nothing,
}

/// True iff every tree in `s` evaluates true for `u`; vacuously true when
/// `s` is empty.
pub open spec fn eval_each<U: HasPermission>(s: Seq<Rights>, u: U) -> bool
    decreases s,
{
    forall|i: int| 0 <= i < s.len() ==> eval(s[i], u)
}

/// True iff some tree in `s` evaluates true for `u`; false when `s` is empty.
pub open spec fn eval_some<U: HasPermission>(s: Seq<Rights>, u: U) -> bool
    decreases s,
{
    exists|i: int| 0 <= i < s.len() && eval(s[i], u)
}

/// The meaning of a rights tree for a principal `u`.
pub open spec fn eval<U: HasPermission>(r: Rights, u: U) -> bool
    decreases r,
{
    match r {
        Rights::All(children) => eval_each(children@, u),
        Rights::Any(children) => eval_some(children@, u),
        Rights::NoneOf(children) => !eval_some(children@, u),
        Rights::Permission(token) => u.has_spec(token@),
        Rights::Nothing => false,
    }
}

/// True iff every element of `children` evaluates true for `user`; checks the
/// children in order and stops at the first failure.
fn eval_all_vec<U: HasPermission>(children: &Vec<Rights>, user: &U) -> (r: bool)
    ensures
        r == eval_each(children@, *user),
    decreases children@,
{
    let n = children.len();
    let mut i: usize = 0;
    let mut ok = true;
    while ok && i < n
        invariant
            n == children@.len(),
            0 <= i <= n,
            ok ==> forall|j: int| 0 <= j < i ==> eval(children@[j], *user),
            !ok ==> exists|j: int| 0 <= j < children@.len() && !eval(children@[j], *user),
        decreases n - i + (if ok { 1int } else { 0int }),
    {
        if children[i].evaluate(user) {
            i = i + 1;
        } else {
            ok = false;
        }
    }
    ok
}

/// True iff some element of `children` evaluates true for `user`; checks the
/// children in order and stops at the first success.
fn eval_any_vec<U: HasPermission>(children: &Vec<Rights>, user: &U) -> (r: bool)
    ensures
        r == eval_some(children@, *user),
    decreases children@,
{
    let n = children.len();
    let mut i: usize = 0;
    let mut found = false;
    while !found && i < n
        invariant
            n == children@.len(),
            0 <= i <= n,
            !found ==> forall|j: int| 0 <= j < i ==> !eval(children@[j], *user),
            found ==> exists|j: int| 0 <= j < children@.len() && eval(children@[j], *user),
        decreases n - i + (if found { 0int } else { 1int }),
    {
        if children[i].evaluate(user) {
            found = true;
        } else {
            i = i + 1;
        }
    }
    found
}

/// Structural equivalence of two rights trees: the same shape with the same
/// tokens.  A clone establishes exactly this — spec equality is out of reach,
/// since a `Vec` is not identified with its view — and by
/// `lemma_same_tree_eval` it is all a caller needs.
pub open spec fn same_tree(a: Rights, b: Rights) -> bool
    decreases a,
{
    match (a, b) {
        (Rights::All(x), Rights::All(y)) => same_trees(x@, y@),
        (Rights::Any(x), Rights::Any(y)) => same_trees(x@, y@),
        (Rights::NoneOf(x), Rights::NoneOf(y)) => same_trees(x@, y@),
        (Rights::Permission(s), Rights::Permission(t)) => s@ == t@,
        (Rights::Nothing, Rights::Nothing) => true,
        _ => false,
    }
}

/// Pointwise structural equivalence of two tree lists.
pub open spec fn same_trees(x: Seq<Rights>, y: Seq<Rights>) -> bool
    decreases x,
{
    x.len() == y.len() && forall|i: int| 0 <= i < x.len() ==> same_tree(x[i], y[i])
}

/// A structurally equivalent copy of a tree list.
fn clone_rights_vec(children: &Vec<Rights>) -> (r: Vec<Rights>)
    ensures
        same_trees(r@, children@),
    decreases children@,
{
    let n = children.len();
    let mut out: Vec<Rights> = Vec::new();
    let mut i: usize = 0;
    while i < n
        invariant
            n == children@.len(),
            0 <= i <= n,
            out@.len() == i,
            forall|j: int| 0 <= j < i ==> same_tree(out@[j], children@[j]),
        decreases n - i,
    {
        out.push(children[i].clone());
        i = i + 1;
    }
    out
}

impl Clone for Rights {
    /// A copy with the same shape and tokens, so one policy tree can be
    /// shared by many gates; by `lemma_same_tree_eval` it evaluates exactly
    /// as the original.
    fn clone(&self) -> (r: Self)
        ensures
            same_tree(r, *self),
        decreases *self,
    {
        match self {
            Rights::All(children) => Rights::All(clone_rights_vec(children)),
            Rights::Any(children) => Rights::Any(clone_rights_vec(children)),
            Rights::NoneOf(children) => Rights::NoneOf(clone_rights_vec(children)),
            Rights::Permission(token) => Rights::Permission(token.clone()),
            Rights::Nothing => Rights::Nothing,
        }
    }
}

/// Pointwise equivalent tree lists agree under both quantified evaluations.
proof fn lemma_same_trees_eval<U: HasPermission>(x: Seq<Rights>, y: Seq<Rights>, u: U)
    requires
        same_trees(x, y),
    ensures
        eval_each(x, u) == eval_each(y, u),
        eval_some(x, u) == eval_some(y, u),
    decreases x,
{
    assert forall|i: int| 0 <= i < x.len() implies eval(x[i], u) == eval(y[i], u) by {
        lemma_same_tree_eval(x[i], y[i], u);
    }
    if eval_each(x, u) {
        assert forall|i: int| 0 <= i < y.len() implies eval(y[i], u) by {
            assert(eval(x[i], u));
        }
    }
    if eval_each(y, u) {
        assert forall|i: int| 0 <= i < x.len() implies eval(x[i], u) by {
            assert(eval(y[i], u));
        }
    }
    if eval_some(x, u) {
        let i = choose|i: int| 0 <= i < x.len() && eval(x[i], u);
        assert(eval(y[i], u));
    }
    if eval_some(y, u) {
        let i = choose|i: int| 0 <= i < y.len() && eval(y[i], u);
        assert(eval(x[i], u));
    }
}

/// Law: structurally equivalent trees — a clone and its original — evaluate
/// identically for every principal.
pub proof fn lemma_same_tree_eval<U: HasPermission>(a: Rights, b: Rights, u: U)
    requires
        same_tree(a, b),
    ensures
        eval(a, u) == eval(b, u),
    decreases a,
{
    match (a, b) {
        (Rights::All(x), Rights::All(y)) => {
            lemma_same_trees_eval(x@, y@, u);
        },
        (Rights::Any(x), Rights::Any(y)) => {
            lemma_same_trees_eval(x@, y@, u);
        },
        (Rights::NoneOf(x), Rights::NoneOf(y)) => {
            lemma_same_trees_eval(x@, y@, u);
        },
        (Rights::Permission(s), Rights::Permission(t)) => {
        },
        (Rights::Nothing, Rights::Nothing) => {
        },
        _ => {
            assert(false);
        },
    }
}

impl Default for Rights {
    /// The deny-by-default tree.
    fn default() -> (r: Rights)
        ensures
            r == Rights::Nothing,
    {
        Rights::Nothing
    }
}

impl Rights {
    /// A tree that demands every one of `rights`.
    pub fn all(rights: Vec<Rights>) -> (r: Rights)
        ensures
            r == Rights::All(rights),
    {
        Rights::All(rights)
    }

    /// A tree that demands at least one of `rights`.
    pub fn any(rights: Vec<Rights>) -> (r: Rights)
        ensures
            r == Rights::Any(rights),
    {
        Rights::Any(rights)
    }

    /// A tree that forbids every one of `rights`.
    pub fn none(rights: Vec<Rights>) -> (r: Rights)
        ensures
            r == Rights::NoneOf(rights),
    {
        Rights::NoneOf(rights)
    }

    /// A leaf that demands a single permission token.
    pub fn permission(permission: String) -> (r: Rights)
        ensures
            r == Rights::Permission(permission),
    {
        Rights::Permission(permission)
    }

    /// Recursive, short-circuiting evaluation of the tree against `user`'s
    /// capability checks; children are visited left to right.
    pub fn evaluate<U: HasPermission>(&self, user: &U) -> (r: bool)
        ensures
            r == eval(*self, *user),
        decreases *self,
    {
        match self {
            Rights::All(children) => eval_all_vec(children, user),
            Rights::Any(children) => eval_any_vec(children, user),
            Rights::NoneOf(children) => !eval_any_vec(children, user),
            Rights::Permission(token) => user.has(token.as_str()),
            Rights::Nothing => false,
        }
    }
}

/// Law: an empty `All` is vacuously true, an empty `Any` is false, an empty
/// `NoneOf` is vacuously true, and `Nothing` is always false, for every
/// principal.
pub proof fn lemma_eval_empty<U: HasPermission>(children: Vec<Rights>, u: U)
    requires
        children@.len() == 0,
    ensures
        eval(Rights::All(children), u),
        !eval(Rights::Any(children), u),
        eval(Rights::NoneOf(children), u),
        !eval(Rights::Nothing, u),
{
}

/// Law: a two-child `All` is the conjunction of its children, and a two-child
/// `Any` is their disjunction, for every principal.
pub proof fn lemma_eval_pair<U: HasPermission>(children: Vec<Rights>, u: U)
    requires
        children@.len() == 2,
    ensures
        eval(Rights::All(children), u) == (eval(children@[0], u) && eval(children@[1], u)),
        eval(Rights::Any(children), u) == (eval(children@[0], u) || eval(children@[1], u)),
{
    if eval(children@[0], u) && eval(children@[1], u) {
        assert forall|i: int| 0 <= i < children@.len() implies eval(children@[i], u) by {
            if i == 0 {
            } else {
                assert(i == 1);
            }
        }
    }
    if eval(children@[0], u) || eval(children@[1], u) {
        let k: int = if eval(children@[0], u) {
            0
        } else {
            1
        };
        assert(0 <= k < children@.len() && eval(children@[k], u));
    }
    if exists|i: int| 0 <= i < children@.len() && eval(children@[i], u) {
        let i = choose|i: int| 0 <= i < children@.len() && eval(children@[i], u);
        assert(i == 0 || i == 1);
    }
}

/// Law: a one-child `NoneOf` is the negation of its child, for every
/// principal.
pub proof fn lemma_eval_noneof_single<U: HasPermission>(children: Vec<Rights>, u: U)
    requires
        children@.len() == 1,
    ensures
        eval(Rights::NoneOf(children), u) == !eval(children@[0], u),
{
    if eval(children@[0], u) {
        assert(0 <= 0 < children@.len() && eval(children@[0], u));
    }
    if exists|i: int| 0 <= i < children@.len() && eval(children@[i], u) {
        let i = choose|i: int| 0 <= i < children@.len() && eval(children@[i], u);
        assert(i == 0);
    }
}

/// One HTTP verb of a request.
#[derive(Clone, Copy, PartialEq, Eq, Structural, Debug)]
pub enum Method {
    Get,
    Head,
    Post,
    Put,
    Delete,
    Connect,
    Options,
    Trace,
    Patch,
}

/// True iff `method` is one of `methods`; compares in order.
fn method_allowed(methods: &Vec<Method>, method: &Method) -> (r: bool)
    ensures
        r == methods@.contains(*method),
{
    let n = methods.len();
    let mut i: usize = 0;
    let mut found = false;
    while !found && i < n
        invariant
            n == methods@.len(),
            0 <= i <= n,
            !found ==> forall|j: int| 0 <= j < i ==> methods@[j] != *method,
            found ==> methods@.contains(*method),
        decreases n - i + (if found { 0int } else { 1int }),
    {
        if methods[i] == *method {
            found = true;
        } else {
            i = i + 1;
        }
    }
    found
}

/// Authorization gate: pairs an HTTP-method filter, an authentication-required
/// flag, and a rights tree, and validates a principal against them.  A pure
/// decision: producing the actual deny response is the caller's business.
pub struct Auth {
    pub rights: Rights,
    pub auth_required: bool,
    pub methods: Vec<Method>,
}

impl Auth {
    /// A gate that allows the given methods, demands authentication when
    /// `auth_req` is set, and starts with the deny-by-default rights tree.
    pub fn build(methods: Vec<Method>, auth_req: bool) -> (r: Auth)
        ensures
            r.rights == Rights::Nothing,
            r.auth_required == auth_req,
            r.methods == methods,
    {
        Auth { rights: Rights::Nothing, auth_required: auth_req, methods }
    }

    /// The same gate with its rights requirement replaced by `rights`.
    pub fn require(self, rights: Rights) -> (r: Auth)
        ensures
            r.rights == rights,
            r.auth_required == self.auth_required,
            r.methods == self.methods,
    {
        Auth { rights, auth_required: self.auth_required, methods: self.methods }
    }

    /// False when authentication is demanded but `user` is not authenticated,
    /// or when `method` is not in the filter; otherwise the rights tree
    /// decides.
    pub fn validate<U: Authentication + HasPermission>(&self, user: &U, method: &Method) -> (r:
        bool)
        ensures
            r == ((self.auth_required ==> user.authenticated_spec())
                && self.methods@.contains(*method) && eval(self.rights, *user)),
    {
        if self.auth_required && !user.is_authenticated() {
            return false;
        }
        if method_allowed(&self.methods, method) {
            self.rights.evaluate(user)
        } else {
            false
        }
    }
}


} // verus!
