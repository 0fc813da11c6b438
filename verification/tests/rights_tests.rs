use std::cell::RefCell;

use session_auth::Auth;
use session_auth::Authentication;
use session_auth::HasPermission;
use session_auth::Method;
use session_auth::Rights;

#[derive(Clone, Debug, PartialEq)]
struct TestUser {
    authenticated: bool,
    active: bool,
    anonymous: bool,
    perms: Vec<String>,
}

impl TestUser {
    fn with_perms(perms: &[&str]) -> TestUser {
        TestUser {
            authenticated: true,
            active: true,
            anonymous: false,
            perms: perms.iter().map(|p| p.to_string()).collect(),
        }
    }

    fn anonymous_user() -> TestUser {
        TestUser { authenticated: false, active: false, anonymous: true, perms: Vec::new() }
    }
}

impl Authentication for TestUser {
    fn is_authenticated(&self) -> bool {
        self.authenticated
    }

    fn is_active(&self) -> bool {
        self.active
    }

    fn is_anonymous(&self) -> bool {
        self.anonymous
    }

    fn duplicate(&self) -> TestUser {
        self.clone()
    }
}

impl HasPermission for TestUser {
    fn has(&self, perm: &str) -> bool {
        self.perms.iter().any(|p| p == perm)
    }
}

fn perm(token: &str) -> Rights {
    Rights::permission(token.to_string())
}

#[test]
fn empty_trees_evaluate_to_their_units() {
    let user = TestUser::with_perms(&["anything"]);
    assert!(Rights::all(Vec::new()).evaluate(&user));
    assert!(!Rights::any(Vec::new()).evaluate(&user));
    assert!(Rights::none(Vec::new()).evaluate(&user));
    assert!(!Rights::Nothing.evaluate(&user));
}

#[test]
fn two_child_all_is_conjunction() {
    let user = TestUser::with_perms(&["a"]);
    assert!(Rights::all(vec![perm("a"), perm("a")]).evaluate(&user));
    assert!(!Rights::all(vec![perm("a"), perm("b")]).evaluate(&user));
    assert!(!Rights::all(vec![perm("b"), perm("a")]).evaluate(&user));
    assert!(!Rights::all(vec![perm("b"), perm("c")]).evaluate(&user));
}

#[test]
fn two_child_any_is_disjunction() {
    let user = TestUser::with_perms(&["a"]);
    assert!(Rights::any(vec![perm("a"), perm("a")]).evaluate(&user));
    assert!(Rights::any(vec![perm("a"), perm("b")]).evaluate(&user));
    assert!(Rights::any(vec![perm("b"), perm("a")]).evaluate(&user));
    assert!(!Rights::any(vec![perm("b"), perm("c")]).evaluate(&user));
}

#[test]
fn single_child_noneof_is_negation() {
    let user = TestUser::with_perms(&["a"]);
    assert!(!Rights::none(vec![perm("a")]).evaluate(&user));
    assert!(Rights::none(vec![perm("b")]).evaluate(&user));
}

#[test]
fn permission_leaf_asks_the_principal() {
    let user = TestUser::with_perms(&["Category::View"]);
    assert!(perm("Category::View").evaluate(&user));
    assert!(!perm("Admin::View").evaluate(&user));
}

#[test]
fn any_with_one_held_permission_evaluates_true() {
    // A principal holding only "Category::View" passes an Any over
    // "Category::View" and "Admin::View".
    let user = TestUser::with_perms(&["Category::View"]);
    let tree = Rights::any(vec![perm("Category::View"), perm("Admin::View")]);
    assert!(tree.evaluate(&user));
}

#[test]
fn nested_trees_evaluate_recursively() {
    let user = TestUser::with_perms(&["read", "write"]);
    let tree = Rights::all(vec![
        Rights::any(vec![perm("admin"), perm("read")]),
        Rights::none(vec![perm("banned")]),
        perm("write"),
    ]);
    assert!(tree.evaluate(&user));
    let tree2 = Rights::all(vec![
        Rights::any(vec![perm("admin"), perm("read")]),
        Rights::none(vec![perm("write")]),
    ]);
    assert!(!tree2.evaluate(&user));
}

#[test]
fn gate_denies_anonymous_when_auth_required() {
    // auth_required with an anonymous principal: false regardless of the
    // rights tree, even one that always holds.
    let user = TestUser::anonymous_user();
    let gate = Auth::build(vec![Method::Get], true).require(Rights::all(Vec::new()));
    assert!(!gate.validate(&user, &Method::Get));
}

#[test]
fn gate_denies_method_outside_filter() {
    let user = TestUser::with_perms(&["a"]);
    let gate = Auth::build(vec![Method::Get], false).require(Rights::all(Vec::new()));
    assert!(gate.validate(&user, &Method::Get));
    assert!(!gate.validate(&user, &Method::Post));
}

#[test]
fn gate_starts_deny_by_default() {
    let user = TestUser::with_perms(&["a"]);
    let gate = Auth::build(vec![Method::Get], false);
    assert!(!gate.validate(&user, &Method::Get));
}

#[test]
fn gate_delegates_to_rights_tree() {
    let user = TestUser::with_perms(&["form:editreports"]);
    let gate = Auth::build(vec![Method::Post, Method::Get], true)
        .require(Rights::all(vec![perm("form:editreports")]));
    assert!(gate.validate(&user, &Method::Post));
    assert!(gate.validate(&user, &Method::Get));
    let gate2 = Auth::build(vec![Method::Post], true)
        .require(Rights::all(vec![perm("admin:view"), perm("form:editreports")]));
    assert!(!gate2.validate(&user, &Method::Post));
}

#[derive(Clone, Debug)]
struct ProbeUser {
    held: Vec<String>,
    asked: RefCell<Vec<String>>,
}

impl ProbeUser {
    fn holding(held: &[&str]) -> ProbeUser {
        ProbeUser {
            held: held.iter().map(|p| p.to_string()).collect(),
            asked: RefCell::new(Vec::new()),
        }
    }
}

impl Authentication for ProbeUser {
    fn is_authenticated(&self) -> bool {
        true
    }

    fn is_active(&self) -> bool {
        true
    }

    fn is_anonymous(&self) -> bool {
        false
    }

    fn duplicate(&self) -> ProbeUser {
        self.clone()
    }
}

impl HasPermission for ProbeUser {
    fn has(&self, perm: &str) -> bool {
        self.asked.borrow_mut().push(perm.to_string());
        self.held.iter().any(|p| p == perm)
    }
}

#[test]
fn cloned_tree_evaluates_like_the_original() {
    let user = TestUser::with_perms(&["read"]);
    let tree = Rights::all(vec![
        Rights::any(vec![perm("admin"), perm("read")]),
        Rights::none(vec![perm("banned")]),
    ]);
    let copy = tree.clone();
    assert_eq!(tree.evaluate(&user), copy.evaluate(&user));
    assert!(copy.evaluate(&user));
    let leaf = perm("read");
    let leaf_copy = leaf.clone();
    assert!(leaf_copy.evaluate(&user));
}

#[test]
fn default_tree_denies() {
    let user = TestUser::with_perms(&["anything"]);
    assert!(!Rights::default().evaluate(&user));
}

#[test]
fn all_checks_left_to_right_and_stops_at_first_failure() {
    let user = ProbeUser::holding(&["a"]);
    let tree = Rights::all(vec![perm("a"), perm("b"), perm("c")]);
    assert!(!tree.evaluate(&user));
    assert_eq!(*user.asked.borrow(), vec!["a".to_string(), "b".to_string()]);
}

#[test]
fn any_checks_left_to_right_and_stops_at_first_success() {
    let user = ProbeUser::holding(&["b"]);
    let tree = Rights::any(vec![perm("a"), perm("b"), perm("c")]);
    assert!(tree.evaluate(&user));
    assert_eq!(*user.asked.borrow(), vec!["a".to_string(), "b".to_string()]);
}
