use macaroon::ast::{CellObj, Node, Val};
use macaroon::back::env::Env;
use macaroon::back::runtime_error::RuntimeError;
use macaroon::loc::Loc;

fn num(i: i32) -> Node {
    Node::new(Val::Number(i), Loc::Unknown)
}

#[test]
fn define_and_get_in_one_scope() {
    let mut env = Env::default();
    let root = env.new(None);
    env.define(root, "x", num(1)).unwrap();
    assert_eq!(env.get(root, "x"), Some(num(1)));
    assert_eq!(env.get(root, "y"), None);
    env.define(root, "x", num(2)).unwrap();
    assert_eq!(env.get(root, "x"), Some(num(2)));
}

#[test]
fn shadowing_in_child_leaves_ancestor_untouched() {
    let mut env = Env::default();
    let root = env.new(None);
    env.define(root, "x", num(1)).unwrap();
    let child = env.new(Some(root));
    env.define(child, "x", num(2)).unwrap();
    assert_eq!(env.get(child, "x"), Some(num(2)));
    assert_eq!(env.get(root, "x"), Some(num(1)));
}

#[test]
fn lookup_walks_to_ancestors() {
    let mut env = Env::default();
    let root = env.new(None);
    env.define(root, "x", num(7)).unwrap();
    let child = env.new(Some(root));
    let grandchild = env.new(Some(child));
    assert_eq!(env.get(grandchild, "x"), Some(num(7)));
    assert!(!env.has_binding(grandchild, "x"));
    assert!(env.has_binding(root, "x"));
}

#[test]
fn update_mutates_owning_ancestor() {
    let mut env = Env::default();
    let root = env.new(None);
    env.define(root, "y", num(1)).unwrap();
    let child = env.new(Some(root));
    env.update(child, "y", num(5)).unwrap();
    assert_eq!(env.get(child, "y"), Some(num(5)));
    assert_eq!(env.get(root, "y"), Some(num(5)));
    assert!(!env.has_binding(child, "y"));
}

#[test]
fn update_of_undefined_name_fails() {
    let mut env = Env::default();
    let root = env.new(None);
    let child = env.new(Some(root));
    let r = env.update(child, "z", num(5));
    assert_eq!(
        r,
        Err(RuntimeError::CannotUpdateUndefinedName("z".to_string(), Loc::Unknown))
    );
    assert_eq!(env.get(child, "z"), None);
}

#[test]
fn update_prefers_nearest_scope() {
    let mut env = Env::default();
    let root = env.new(None);
    env.define(root, "x", num(1)).unwrap();
    let child = env.new(Some(root));
    env.define(child, "x", num(2)).unwrap();
    env.update(child, "x", num(9)).unwrap();
    assert_eq!(env.get(child, "x"), Some(num(9)));
    assert_eq!(env.get(root, "x"), Some(num(1)));
}

#[test]
fn remove_leaves_placeholder() {
    let mut env = Env::default();
    let root = env.new(None);
    env.define(root, "x", num(7)).unwrap();
    let removed = env.remove(root, "x");
    assert_eq!(removed, Some(num(7)));
    assert_eq!(env.get(root, "x"), Some(num(0)));
    let removed_again = env.remove(root, "y");
    assert_eq!(removed_again, None);
    assert_eq!(env.get(root, "y"), Some(num(0)));
}

#[test]
fn cells_share_one_slot() {
    let mut env = Env::default();
    let _root = env.new(None);
    let cell = CellObj::new(&mut env, num(7));
    let alias = cell;
    assert_eq!(env.cells[cell.index], num(7));
    env.cells[alias.index] = num(9);
    assert_eq!(env.cells[cell.index], num(9));
}
