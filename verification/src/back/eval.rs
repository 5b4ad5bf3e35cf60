use crate::ast::{node_eq, val_display, Node, PrimitiveObj, PrimitiveOp, RoutineObj, RoutineType, Val};
use crate::back::env::Env;
use crate::back::runtime_error::{check_args, RuntimeError};
use crate::loc::Loc;
use vstd::prelude::*;

verus! {

/// A value that evaluates to itself: only numeric literals do at the
/// dispatch layer; every other literal kind must arrive through a special
/// form such as `quote`.
pub open spec fn is_literal(v: Val) -> bool {
    v is Number
}

/// Every node of the sequence is self-evaluating.
pub open spec fn all_literals(ns: Seq<Node>) -> bool {
    forall|i: int| 0 <= i < ns.len() ==> is_literal((#[trigger] ns[i]).val)
}

/// A node the evaluator answers without recursing into a call form: a
/// number or a symbol.
pub open spec fn is_atom(v: Val) -> bool {
    v is Number || v is Symbol
}

/// Every node of the sequence is a number or a symbol.
pub open spec fn all_atoms(ns: Seq<Node>) -> bool {
    forall|i: int| 0 <= i < ns.len() ==> is_atom((#[trigger] ns[i]).val)
}

/// What one atom evaluates to in scope `e`: a number is itself, a symbol is
/// its nearest enclosing binding, and absence of a binding is absence here.
pub open spec fn atom_value(env: Env, e: int, node: Node) -> Option<Node> {
    match node.val {
        Val::Number(_) => Some(node),
        Val::Symbol(s) => env.lookup(e, s@),
        _ => None,
    }
}

/// The first `i` nodes all resolve as atoms in scope `e`.
pub open spec fn atoms_resolve_to(env: Env, e: int, ns: Seq<Node>, i: int) -> bool {
    forall|j: int| 0 <= j < i ==> atom_value(env, e, #[trigger] ns[j]) is Some
}

/// Every parameter is a symbol, and no two share a name.
pub open spec fn params_are_distinct_symbols(ps: Seq<Node>) -> bool {
    &&& forall|i: int| 0 <= i < ps.len() ==> (#[trigger] ps[i]).val is Symbol
    &&& forall|i: int, j: int|
        0 <= i < j < ps.len() ==> (#[trigger] ps[i]).val->Symbol_0@ != (
        #[trigger] ps[j]).val->Symbol_0@
}

/// The fixed arity bounds of each special form; a negative upper bound means
/// unbounded.
pub open spec fn form_bounds(s: Seq<char>) -> Option<(isize, isize)> {
    if s == "list"@ {
        Some((0isize, -1isize))
    } else if s == "quote"@ {
        Some((1isize, -1isize))
    } else if s == "def"@ {
        Some((2isize, 2isize))
    } else if s == "fn"@ {
        Some((2isize, 2isize))
    } else if s == "update!"@ {
        Some((2isize, 2isize))
    } else if s == "update-element!"@ {
        Some((3isize, 3isize))
    } else if s == "if"@ {
        Some((3isize, 3isize))
    } else if s == "let"@ {
        Some((2isize, -1isize))
    } else {
        None
    }
}

/// The arena only grows and keeps every existing scope's parent, so indices
/// held by closures stay meaningful across evaluation.
pub open spec fn env_extends(pre: Env, post: Env) -> bool {
    &&& post.wf()
    &&& post.scopes@.len() >= pre.scopes@.len()
    &&& post.cells@.len() == pre.cells@.len()
    &&& forall|j: int|
        0 <= j < pre.scopes@.len() ==> (#[trigger] post.scopes@[j]).parent == pre.scopes@[j].parent
}

/// Evaluates one node in scope `e`: lists are call forms, symbols resolve
/// through the environment chain, numbers are self-evaluating, and every
/// other kind must arrive through a special form such as `quote`.
/// `depth` bounds the evaluation depth, standing in for the host call stack.
pub fn eval_node(env: &mut Env, e: usize, node: Node, depth: u64) -> (r: Result<
    Node,
    RuntimeError,
>)
    requires
        old(env).wf(),
        e < old(env).scopes@.len(),
    ensures
        env_extends(*old(env), *final(env)),
        depth == 0 ==> (r matches Err(RuntimeError::RecursionDepthExceeded(l)) && l == node.loc)
            && *final(env) == *old(env),
        depth > 0 ==> match node.val {
            Val::Number(_) => r == Ok::<Node, RuntimeError>(node) && *final(env) == *old(env),
            Val::Symbol(s) => (match old(env).lookup(e as int, s@) {
                Some(n0) => (r matches Ok(n) && node_eq(n, n0) && n.loc == n0.loc),
                None => (r matches Err(RuntimeError::UndefinedName(nm, l)) && nm@ == s@ && l
                    == node.loc),
            }) && *final(env) == *old(env),
            Val::List(c) => (c@.len() == 0 ==> (r matches Err(RuntimeError::CannotEvalEmptyList(
                l,
            )) && l == node.loc) && *final(env) == *old(env)),
            _ => (r matches Err(RuntimeError::UnableToEvalValue(v, l)) && v == node.val && l
                == node.loc) && *final(env) == *old(env),
        },
        depth > 1 ==> (node.val matches Val::List(c) ==> {
            &&& (c@.len() >= 2 ==> (c@[0].val matches Val::Symbol(s) ==> (s@ == "quote"@ ==> r
                == Ok::<Node, RuntimeError>(c@[1]) && *final(env) == *old(env))))
            &&& (c@.len() == 3 ==> (c@[0].val matches Val::Symbol(s) ==> {
                &&& (s@ == "def"@ && is_literal(c@[2].val) ==> (c@[1].val matches Val::Symbol(
                    nm,
                ) ==> {
                    &&& r matches Ok(n) && n.val is Nil
                    &&& final(env).scopes@.len() == old(env).scopes@.len()
                    &&& final(env).binding(e as int, nm@) == Some(c@[2])
                    &&& forall|j: int|
                        0 <= j < old(env).scopes@.len() && j != e ==> Env::scope_same(
                            *old(env),
                            *final(env),
                            j,
                        )
                    &&& forall|k2: Seq<char>|
                        k2 != nm@ ==> #[trigger] final(env).binding(e as int, k2) == old(
                            env,
                        ).binding(e as int, k2)
                }))
                &&& (s@ == "update!"@ && is_literal(c@[2].val) ==> (c@[1].val matches Val::Symbol(
                    nm,
                ) ==> (old(env).owner(e as int, nm@) is None ==> (r matches Err(
                    RuntimeError::CannotUpdateUndefinedName(k, l),
                ) && k@ == nm@ && l == c@[2].loc) && *final(env) == *old(env))))
            }))
        }),
    decreases depth, 0int,
{
    if depth == 0 {
        return Err(RuntimeError::RecursionDepthExceeded(node.loc));
    }
    let Node { val, loc } = node;
    match val {
        Val::List(children) => eval_list(env, e, children, loc, depth - 1),
        Val::Symbol(name) => match env.get(e, name.as_str()) {
            Some(found) => Ok(found),
            None => Err(RuntimeError::UndefinedName(name, loc)),
        },
        Val::Number(n) => Ok(Node { val: Val::Number(n), loc }),
        v => Err(RuntimeError::UnableToEvalValue(v, loc)),
    }
}

/// Evaluates each node left to right in the same scope, stopping at the
/// first failure; numeric inputs come back unchanged, symbols come back as
/// what they resolve to.
#[verifier::loop_isolation(false)]
pub fn eval_each_node(env: &mut Env, e: usize, nodes: Vec<Node>, depth: u64) -> (r: Result<
    Vec<Node>,
    RuntimeError,
>)
    requires
        old(env).wf(),
        e < old(env).scopes@.len(),
    ensures
        env_extends(*old(env), *final(env)),
        r matches Ok(outs) ==> outs@.len() == nodes@.len(),
        nodes@.len() == 0 ==> (r matches Ok(outs) && outs@.len() == 0) && *final(env) == *old(env),
        (depth > 0 && all_literals(nodes@)) ==> (r matches Ok(outs) && outs@ == nodes@) && *final(env) == *old(env),
        (depth > 0 && all_atoms(nodes@)) ==> *final(env) == *old(env) && (if atoms_resolve_to(
            *old(env),
            e as int,
            nodes@,
            nodes@.len() as int,
        ) {
            r matches Ok(outs) && outs@.len() == nodes@.len() && (forall|i: int|
                0 <= i < nodes@.len() ==> node_eq(
                    #[trigger] outs@[i],
                    atom_value(*old(env), e as int, nodes@[i])->Some_0,
                ) && outs@[i].loc == atom_value(*old(env), e as int, nodes@[i])->Some_0.loc)
        } else {
            exists|j: int|
                0 <= j < nodes@.len() && atoms_resolve_to(*old(env), e as int, nodes@, j)
                    && atom_value(*old(env), e as int, #[trigger] nodes@[j]) is None && (r matches
                Err(RuntimeError::UndefinedName(nm, l)) && nm@ == nodes@[j].val->Symbol_0@ && l
                    == nodes@[j].loc)
        }),
    decreases depth, 1int,
{
    let ghost nodes0 = nodes@;
    let mut nodes = nodes;
    let mut outputs: Vec<Node> = Vec::new();
    while nodes.len() > 0
        invariant
            env.wf(),
            e < env.scopes@.len(),
            env_extends(*old(env), *env),
            outputs@.len() + nodes@.len() == nodes0.len(),
            outputs@.len() == 0 ==> *env == *old(env),
            nodes@ == nodes0.skip(outputs@.len() as int),
            (depth > 0 && all_literals(nodes0)) ==> outputs@ == nodes0.take(outputs@.len() as int)
                && *env == *old(env),
            (depth > 0 && all_atoms(nodes0)) ==> *env == *old(env) && atoms_resolve_to(
                *old(env),
                e as int,
                nodes0,
                outputs@.len() as int,
            ) && (forall|j: int|
                0 <= j < outputs@.len() ==> node_eq(
                    #[trigger] outputs@[j],
                    atom_value(*old(env), e as int, nodes0[j])->Some_0,
                ) && outputs@[j].loc == atom_value(*old(env), e as int, nodes0[j])->Some_0.loc),
        decreases nodes@.len(),
    {
        proof {
            assert(nodes@[0] == nodes0[outputs@.len() as int]);
        }
        let node = nodes.remove(0);
        let output = match eval_node(env, e, node, depth) {
            Ok(n) => n,
            Err(err) => {
                return Err(err);
            },
        };
        outputs.push(output);
        proof {
            assert(nodes@ =~= nodes0.skip(outputs@.len() as int));
            if depth > 0 && all_literals(nodes0) {
                assert(outputs@ =~= nodes0.take(outputs@.len() as int));
            }
        }
    }
    proof {
        if depth > 0 && all_literals(nodes0) {
            assert(outputs@ =~= nodes0);
        }
    }
    Ok(outputs)
}

/// Evaluates every argument and wraps the results as a list value at the
/// form's position.
fn eval_special_list(env: &mut Env, e: usize, loc: Loc, args: Vec<Node>, depth: u64) -> (r: Result<
    Node,
    RuntimeError,
>)
    requires
        old(env).wf(),
        e < old(env).scopes@.len(),
    ensures
        env_extends(*old(env), *final(env)),
        (depth > 0 && all_literals(args@)) ==> {
            &&& r matches Ok(n)
            &&& n.loc == loc
            &&& n.val matches Val::List(c)
            &&& c@ == args@
            &&& *final(env) == *old(env)
        },
        (depth > 0 && all_atoms(args@) && atoms_resolve_to(
            *old(env),
            e as int,
            args@,
            args@.len() as int,
        )) ==> {
            &&& r matches Ok(n)
            &&& n.loc == loc
            &&& n.val matches Val::List(c)
            &&& c@.len() == args@.len()
            &&& forall|i: int|
                0 <= i < args@.len() ==> node_eq(
                    #[trigger] c@[i],
                    atom_value(*old(env), e as int, args@[i])->Some_0,
                )
            &&& *final(env) == *old(env)
        },
    decreases depth, 2int,
{
    let outputs = match eval_each_node(env, e, args, depth) {
        Ok(outs) => outs,
        Err(err) => {
            return Err(err);
        },
    };
    Ok(Node { val: Val::List(outputs), loc })
}

/// Evaluates the value, then binds it under the name in the current scope
/// alone - this is what makes shadowing and `let`-style locals possible.
/// Answers absence; the binding is the effect.
fn eval_special_def(env: &mut Env, e: usize, args: Vec<Node>, depth: u64) -> (r: Result<
    Node,
    RuntimeError,
>)
    requires
        old(env).wf(),
        e < old(env).scopes@.len(),
        args@.len() == 2,
    ensures
        env_extends(*old(env), *final(env)),
        match args@[0].val {
            Val::Symbol(nm) => (depth > 0 && is_literal(args@[1].val)) ==> {
                &&& r matches Ok(n) && n.val is Nil
                &&& final(env).scopes@.len() == old(env).scopes@.len()
                &&& forall|j: int|
                    0 <= j < old(env).scopes@.len() && j != e ==> Env::scope_same(
                        *old(env),
                        *final(env),
                        j,
                    )
                &&& final(env).binding(e as int, nm@) == Some(args@[1])
                &&& forall|k2: Seq<char>|
                    k2 != nm@ ==> #[trigger] final(env).binding(e as int, k2) == old(env).binding(
                        e as int,
                        k2,
                    )
            },
            _ => (r matches Err(RuntimeError::UnexpectedValue(ex, v, l)) && ex@ == "symbol"@ && v
                == args@[0].val && l == args@[0].loc) && *final(env) == *old(env),
        },
    decreases depth, 2int,
{
    let mut args = args;
    let value_node = args.remove(1);
    let name_node = args.remove(0);
    let Node { val: name_val, loc: name_loc } = name_node;
    match name_val {
        Val::Symbol(nm) => {
            let value = match eval_node(env, e, value_node, depth) {
                Ok(v) => v,
                Err(err) => {
                    return Err(err);
                },
            };
            match env.define(e, nm.as_str(), value) {
                Ok(_) => Ok(Node { val: Val::Nil, loc: name_loc }),
                Err(err) => Err(err),
            }
        },
        v => Err(RuntimeError::UnexpectedValue(String::from_str("symbol"), v, name_loc)),
    }
}

/// Evaluates the value, then overwrites the nearest enclosing binding of
/// the name; a name never defined anywhere on the chain is the
/// undefined-name-update error.  Answers absence; the mutation is the
/// effect.
fn eval_special_update(env: &mut Env, e: usize, args: Vec<Node>, depth: u64) -> (r: Result<
    Node,
    RuntimeError,
>)
    requires
        old(env).wf(),
        e < old(env).scopes@.len(),
        args@.len() == 2,
    ensures
        env_extends(*old(env), *final(env)),
        match args@[0].val {
            Val::Symbol(nm) => (depth > 0 && is_literal(args@[1].val)) ==> match old(env).owner(
                e as int,
                nm@,
            ) {
                Some(o) => {
                    &&& r matches Ok(n) && n.val is Nil
                    &&& final(env).scopes@.len() == old(env).scopes@.len()
                    &&& forall|j: int|
                        0 <= j < old(env).scopes@.len() && j != o ==> Env::scope_same(
                            *old(env),
                            *final(env),
                            j,
                        )
                    &&& final(env).binding(o, nm@) == Some(args@[1])
                    &&& forall|k2: Seq<char>|
                        k2 != nm@ ==> #[trigger] final(env).binding(o, k2) == old(env).binding(
                            o,
                            k2,
                        )
                },
                None => (r matches Err(RuntimeError::CannotUpdateUndefinedName(k, l)) && k@ == nm@
                    && l == args@[1].loc) && *final(env) == *old(env),
            },
            _ => (r matches Err(RuntimeError::UnexpectedValue(ex, v, l)) && ex@ == "symbol"@ && v
                == args@[0].val && l == args@[0].loc) && *final(env) == *old(env),
        },
    decreases depth, 2int,
{
    let mut args = args;
    let value_node = args.remove(1);
    let name_node = args.remove(0);
    let Node { val: name_val, loc: name_loc } = name_node;
    match name_val {
        Val::Symbol(nm) => {
            let value = match eval_node(env, e, value_node, depth) {
                Ok(v) => v,
                Err(err) => {
                    return Err(err);
                },
            };
            match env.update(e, nm.as_str(), value) {
                Ok(_) => Ok(Node { val: Val::Nil, loc: name_loc }),
                Err(err) => Err(err),
            }
        },
        v => Err(RuntimeError::UnexpectedValue(String::from_str("symbol"), v, name_loc)),
    }
}

/// Evaluates the condition, coerces it by the truthiness rule - only
/// absence and boolean false are falsy - and evaluates exactly one of the
/// two branches, never both.
fn eval_special_if(env: &mut Env, e: usize, args: Vec<Node>, depth: u64) -> (r: Result<
    Node,
    RuntimeError,
>)
    requires
        old(env).wf(),
        e < old(env).scopes@.len(),
        args@.len() == 3,
    ensures
        env_extends(*old(env), *final(env)),
        (depth > 0 && is_literal(args@[0].val) && is_literal(args@[1].val)) ==> r == Ok::<
            Node,
            RuntimeError,
        >(args@[1]) && *final(env) == *old(env),
        depth > 0 ==> (args@[0].val matches Val::Symbol(s) ==> (old(env).lookup(e as int, s@)
            matches Some(n0) ==> {
            &&& (((n0.val is Nil || n0.val == Val::Boolean(false)) && is_literal(args@[2].val))
                ==> r == Ok::<Node, RuntimeError>(args@[2]) && *final(env) == *old(env))
            &&& ((!(n0.val is Nil) && !(n0.val == Val::Boolean(false)) && is_literal(
                args@[1].val,
            )) ==> r == Ok::<Node, RuntimeError>(args@[1]) && *final(env) == *old(env))
        })),
        (depth > 0 && is_literal(args@[0].val)) ==> (args@[1].val matches Val::Symbol(b) ==> (
        match old(env).lookup(e as int, b@) {
            Some(n0) => (r matches Ok(n) && node_eq(n, n0) && n.loc == n0.loc),
            None => (r matches Err(RuntimeError::UndefinedName(nm, l)) && nm@ == b@ && l
                == args@[1].loc),
        }) && *final(env) == *old(env)),
    decreases depth, 2int,
{
    let mut args = args;
    let else_node = args.remove(2);
    let then_node = args.remove(1);
    let cond_node = args.remove(0);
    let cond = match eval_node(env, e, cond_node, depth) {
        Ok(v) => v,
        Err(err) => {
            return Err(err);
        },
    };
    let truthy = match cond.as_host_boolean() {
        Ok(b) => b,
        Err(err) => {
            return Err(err);
        },
    };
    if truthy {
        eval_node(env, e, then_node, depth)
    } else {
        eval_node(env, e, else_node, depth)
    }
}

/// Builds a closure over the current scope - the defining environment, not
/// any future call site - with the given parameter list and body, both
/// unevaluated.
fn eval_special_fn(e: usize, loc: Loc, args: Vec<Node>) -> (r: Result<Node, RuntimeError>)
    requires
        args@.len() == 2,
    ensures
        match args@[0].val {
            Val::List(ps) => {
                &&& r matches Ok(n)
                &&& n.loc == loc
                &&& n.val matches Val::Routine(rt)
                &&& rt.name is None
                &&& rt.params == ps
                &&& rt.body.val == args@[1].val
                &&& rt.body.loc == args@[1].loc
                &&& rt.lexical_env == e
                &&& rt.routine_type == RoutineType::Function
            },
            _ => (r matches Err(RuntimeError::UnexpectedValue(ex, v, l)) && ex@ == "list"@ && v
                == args@[0].val && l == args@[0].loc),
        },
{
    let mut args = args;
    let body_node = args.remove(1);
    let params_node = args.remove(0);
    let Node { val: params_val, loc: params_loc } = params_node;
    match params_val {
        Val::List(params) => Ok(
            Node {
                val: Val::Routine(
                    RoutineObj {
                        name: None,
                        params,
                        body: Box::new(body_node),
                        lexical_env: e,
                        routine_type: RoutineType::Function,
                    },
                ),
                loc,
            },
        ),
        v => Err(RuntimeError::UnexpectedValue(String::from_str("list"), v, params_loc)),
    }
}

/// Evaluates target, index and new value.  A cell holding a list has the
/// element at that index replaced in place, seen by every holder of the
/// cell; a cell holding any other value is a one-slot box and takes the new
/// value as its whole contents.  Plain list values are copies, so only a
/// cell can carry a mutation to other holders.  Answers absence.
fn eval_special_update_element(env: &mut Env, e: usize, args: Vec<Node>, depth: u64) -> (r: Result<
    Node,
    RuntimeError,
>)
    requires
        old(env).wf(),
        e < old(env).scopes@.len(),
        args@.len() == 3,
    ensures
        env_extends(*old(env), *final(env)),
        (depth > 0 && is_literal(args@[2].val)) ==> (args@[0].val matches Val::Symbol(s) ==> (
        old(env).lookup(e as int, s@) matches Some(n0) ==> (n0.val matches Val::Cell(cell) ==> (
        cell.index < old(env).cells@.len() ==> (args@[1].val matches Val::Number(ix) ==> {
            &&& (!(old(env).cells@[cell.index as int].val is List) ==> {
                &&& r matches Ok(n) && n.val is Nil
                &&& final(env).cells@ == old(env).cells@.update(cell.index as int, args@[2])
                &&& final(env).scopes@ == old(env).scopes@
            })
            &&& (old(env).cells@[cell.index as int].val matches Val::List(c) ==> {
                &&& ((0 <= ix && ix < c@.len()) ==> {
                    &&& r matches Ok(n) && n.val is Nil
                    &&& final(env).scopes@ == old(env).scopes@
                    &&& final(env).cells@.len() == old(env).cells@.len()
                    &&& forall|j: int|
                        0 <= j < old(env).cells@.len() && j != cell.index
                            ==> #[trigger] final(env).cells@[j] == old(env).cells@[j]
                    &&& final(env).cells@[cell.index as int].val matches Val::List(c2)
                    &&& c2@.len() == c@.len()
                    &&& c2@[ix as int] == args@[2]
                    &&& forall|j: int|
                        0 <= j < c@.len() && j != ix ==> node_eq(#[trigger] c2@[j], c@[j])
                })
                &&& (!(0 <= ix && ix < c@.len()) ==> (r matches Err(
                    RuntimeError::UnexpectedValue(ex, v, l),
                ) && ex@ == "an index within the collection"@ && v == Val::Number(ix) && l
                    == args@[1].loc) && *final(env) == *old(env))
            })
        }))))),
    decreases depth, 2int,
{
    let mut args = args;
    let value_node = args.remove(2);
    let index_node = args.remove(1);
    let target_node = args.remove(0);
    let target = match eval_node(env, e, target_node, depth) {
        Ok(v) => v,
        Err(err) => {
            return Err(err);
        },
    };
    let index = match eval_node(env, e, index_node, depth) {
        Ok(v) => v,
        Err(err) => {
            return Err(err);
        },
    };
    let idx = match index.as_host_number() {
        Ok(i) => i,
        Err(err) => {
            return Err(err);
        },
    };
    let value = match eval_node(env, e, value_node, depth) {
        Ok(v) => v,
        Err(err) => {
            return Err(err);
        },
    };
    let Node { val: target_val, loc: target_loc } = target;
    match target_val {
        Val::Cell(cell) => {
            if cell.index >= env.cells.len() {
                return Err(
                    RuntimeError::InvalidInternalState(
                        String::from_str("cell handle out of range"),
                        target_loc,
                    ),
                );
            }
            let contents = env.cells[cell.index].clone();
            match contents.val {
                Val::List(mut children) => {
                    if idx < 0 || idx as usize >= children.len() {
                        return Err(
                            RuntimeError::UnexpectedValue(
                                String::from_str("an index within the collection"),
                                Val::Number(idx),
                                index.loc,
                            ),
                        );
                    }
                    children[idx as usize] = value;
                    env.cells[cell.index] = Node { val: Val::List(children), loc: contents.loc };
                    Ok(Node { val: Val::Nil, loc: target_loc })
                },
                _ => {
                    env.cells[cell.index] = value;
                    Ok(Node { val: Val::Nil, loc: target_loc })
                },
            }
        },
        v => Err(RuntimeError::UnexpectedValue(String::from_str("cell"), v, target_loc)),
    }
}

/// Introduces a child scope, binds the name/value pairs into it one after
/// another - each value evaluated in that same new scope, so later
/// bindings see earlier ones - then evaluates the body forms there,
/// answering the last one.
#[verifier::loop_isolation(false)]
fn eval_special_let(env: &mut Env, e: usize, loc: Loc, args: Vec<Node>, depth: u64) -> (r: Result<
    Node,
    RuntimeError,
>)
    requires
        old(env).wf(),
        e < old(env).scopes@.len(),
        args@.len() >= 2,
    ensures
        env_extends(*old(env), *final(env)),
        !(args@[0].val is List) ==> (r matches Err(RuntimeError::UnexpectedValue(ex, v, l)) && ex@
            == "list"@ && v == args@[0].val && l == args@[0].loc) && *final(env) == *old(env),
        (depth > 0 && args@.len() == 2) ==> (args@[0].val matches Val::List(pairs) ==> (
        pairs@.len() == 2 ==> (pairs@[0].val matches Val::Symbol(k) ==> (is_literal(
            pairs@[1].val,
        ) ==> (args@[1].val matches Val::Symbol(b) ==> (b@ == k@ ==> (r matches Ok(n) && node_eq(
            n,
            pairs@[1],
        )))))))),
    decreases depth, 2int,
{
    let ghost args0 = args@;
    let ghost one_binding = depth > 0 && args0.len() == 2 && args0[0].val is List
        && args0[0].val->List_0@.len() == 2 && args0[0].val->List_0@[0].val is Symbol
        && is_literal(args0[0].val->List_0@[1].val) && args0[1].val is Symbol
        && args0[1].val->Symbol_0@ == args0[0].val->List_0@[0].val->Symbol_0@;
    let mut args = args;
    let bindings_node = args.remove(0);
    proof {
        assert(bindings_node == args0[0]);
        assert(args@ =~= args0.skip(1));
    }
    let Node { val: bindings_val, loc: bindings_loc } = bindings_node;
    match bindings_val {
        Val::List(pairs) => {
            let mut pairs = pairs;
            if pairs.len() % 2 != 0 {
                return Err(
                    RuntimeError::UnexpectedValue(
                        String::from_str("an even number of binding forms"),
                        Val::List(pairs),
                        bindings_loc,
                    ),
                );
            }
            let child = env.new(Some(e));
            let ghost env1 = *env;
            while pairs.len() >= 2
                invariant
                    env.wf(),
                    child < env.scopes@.len(),
                    env_extends(*old(env), *env),
                    one_binding ==> (pairs@.len() == 2 || pairs@.len() == 0),
                    one_binding ==> (pairs@.len() == 2 ==> *env == env1 && pairs@
                        == args0[0].val->List_0@),
                    one_binding ==> (pairs@.len() == 0 ==> env.binding(
                        child as int,
                        args0[0].val->List_0@[0].val->Symbol_0@,
                    ) == Some(args0[0].val->List_0@[1])),
                decreases pairs@.len(),
            {
                let value_node = pairs.remove(1);
                let name_node = pairs.remove(0);
                let Node { val: name_val, loc: name_loc } = name_node;
                match name_val {
                    Val::Symbol(nm) => {
                        let value = match eval_node(env, child, value_node, depth) {
                            Ok(v) => v,
                            Err(err) => {
                                return Err(err);
                            },
                        };
                        match env.define(child, nm.as_str(), value) {
                            Ok(_) => {},
                            Err(err) => {
                                return Err(err);
                            },
                        }
                    },
                    v => {
                        return Err(
                            RuntimeError::UnexpectedValue(String::from_str("symbol"), v, name_loc),
                        );
                    },
                }
            }
            let mut result = Node { val: Val::Nil, loc };
            while args.len() > 0
                invariant
                    env.wf(),
                    child < env.scopes@.len(),
                    env_extends(*old(env), *env),
                    one_binding ==> args@.len() <= 1,
                    one_binding ==> (args@.len() == 1 ==> args@[0] == args0[1] && env.binding(
                        child as int,
                        args0[1].val->Symbol_0@,
                    ) == Some(args0[0].val->List_0@[1])),
                    one_binding ==> (args@.len() == 0 ==> node_eq(
                        result,
                        args0[0].val->List_0@[1],
                    )),
                decreases args@.len(),
            {
                let form = args.remove(0);
                proof {
                    if one_binding {
                        assert(form == args0[1]);
                        assert(env.lookup(child as int, form.val->Symbol_0@) == Some(
                            args0[0].val->List_0@[1],
                        ));
                    }
                }
                result = match eval_node(env, child, form, depth) {
                    Ok(v) => v,
                    Err(err) => {
                        return Err(err);
                    },
                };
            }
            Ok(result)
        },
        v => Err(RuntimeError::UnexpectedValue(String::from_str("list"), v, bindings_loc)),
    }
}

/// Carries out one native operation on already-evaluated arguments: each
/// dispatches to the matching collection operation of the value model.
pub fn apply_primitive(op: PrimitiveOp, args: Vec<Node>, loc: Loc) -> (r: Result<
    Node,
    RuntimeError,
>)
    ensures
        match op {
            PrimitiveOp::Len => args@.len() == 1 ==> match args@[0].val {
                Val::Nil => (r matches Ok(n) && n.loc == loc && n.val == Val::Number(0)),
                Val::StringVal(s) => s@.len() <= i32::MAX ==> {
                    &&& r matches Ok(n)
                    &&& n.loc == loc
                    &&& n.val matches Val::Number(k)
                    &&& k == s@.len()
                },
                Val::List(c) => c@.len() <= i32::MAX ==> {
                    &&& r matches Ok(n)
                    &&& n.loc == loc
                    &&& n.val matches Val::Number(k)
                    &&& k == c@.len()
                },
                _ => (r matches Err(RuntimeError::CannotGetLengthOfNonCollection(v, l)) && v
                    == args@[0].val && l == args@[0].loc),
            },
            PrimitiveOp::Cons => args@.len() == 2 ==> match args@[1].val {
                Val::Nil => {
                    &&& r matches Ok(n)
                    &&& n.val matches Val::List(c)
                    &&& c@ == seq![args@[0]]
                },
                Val::List(c) => {
                    &&& r matches Ok(n)
                    &&& n.val matches Val::List(c2)
                    &&& c2@ == seq![args@[0]] + c@
                },
                Val::StringVal(s) => (match args@[0].val {
                    Val::Character(c) => {
                        &&& r matches Ok(n)
                        &&& n.val matches Val::StringVal(o)
                        &&& o@ == c@ + s@
                    },
                    _ => (r matches Err(RuntimeError::CannotConsNonCharacterOntoString(v, l))
                        && v == args@[0].val && l == args@[0].loc),
                }),
                _ => (r matches Err(RuntimeError::CannotConsOntoNonCollection(v, l)) && v
                    == args@[1].val && l == args@[1].loc),
            },
            PrimitiveOp::Append => args@.len() == 2 ==> match args@[0].val {
                Val::Nil => r == Ok::<Node, RuntimeError>(args@[1]),
                Val::List(c) => (args@[1].val matches Val::List(cs) ==> {
                    &&& r matches Ok(n)
                    &&& n.val matches Val::List(c2)
                    &&& c2@ == c@ + cs@
                }),
                Val::StringVal(s) => {
                    &&& r matches Ok(n)
                    &&& n.val matches Val::StringVal(o)
                    &&& o@ == s@ + crate::ast::print_friendly(args@[1].val)
                },
                _ => (r matches Err(RuntimeError::CannotAppendOnto(v, l)) && v == args@[0].val
                    && l == args@[0].loc),
            },
        },
{
    let mut args = args;
    match op {
        PrimitiveOp::Len => {
            match check_args("len", &loc, &args, 1, 1) {
                Ok(_) => {},
                Err(err) => {
                    return Err(err);
                },
            }
            let target = args.remove(0);
            let k = match target.coll_len() {
                Ok(k) => k,
                Err(err) => {
                    return Err(err);
                },
            };
            if k > i32::MAX as usize {
                return Err(
                    RuntimeError::InvalidInternalState(
                        String::from_str("collection length out of range"),
                        loc,
                    ),
                );
            }
            Ok(Node { val: Val::Number(k as i32), loc })
        },
        PrimitiveOp::Cons => {
            match check_args("cons", &loc, &args, 2, 2) {
                Ok(_) => {},
                Err(err) => {
                    return Err(err);
                },
            }
            let coll = args.remove(1);
            let elem = args.remove(0);
            coll.coll_cons(elem)
        },
        PrimitiveOp::Append => {
            match check_args("append", &loc, &args, 2, 2) {
                Ok(_) => {},
                Err(err) => {
                    return Err(err);
                },
            }
            let other = args.remove(1);
            let first = args.remove(0);
            first.coll_append(other)
        },
    }
}

/// Evaluates the arguments left to right in the caller's scope, checks them
/// against the primitive's own arity bounds, then invokes the native
/// operation.
pub fn eval_invoke_primitive(
    obj: PrimitiveObj,
    env: &mut Env,
    e: usize,
    unevaled_args: Vec<Node>,
    loc: Loc,
    depth: u64,
) -> (r: Result<Node, RuntimeError>)
    requires
        old(env).wf(),
        e < old(env).scopes@.len(),
    ensures
        env_extends(*old(env), *final(env)),
        (depth > 0 && all_literals(unevaled_args@)) ==> *final(env) == *old(env) && {
            &&& (((unevaled_args@.len() as int) < obj.min_arity) ==> (r matches Err(
                RuntimeError::NotEnoughArgs(nm, mn, act, l),
            ) && nm@ == obj.name@ && mn == obj.min_arity && act == unevaled_args@.len() && l
                == loc))
            &&& ((obj.min_arity <= unevaled_args@.len() as int && 0 <= obj.max_arity && (
            unevaled_args@.len() as int) > obj.max_arity) ==> (r matches Err(
                RuntimeError::TooManyArgs(nm, mx, act, l),
            ) && nm@ == obj.name@ && mx == obj.max_arity && act == unevaled_args@.len() && l
                == loc))
            &&& ((obj.min_arity <= unevaled_args@.len() as int && (obj.max_arity < 0
                || unevaled_args@.len() as int <= obj.max_arity)) ==> match obj.op {
                PrimitiveOp::Len => unevaled_args@.len() == 1 ==> (r matches Err(
                    RuntimeError::CannotGetLengthOfNonCollection(v, l),
                ) && v == unevaled_args@[0].val && l == unevaled_args@[0].loc),
                PrimitiveOp::Cons => unevaled_args@.len() == 2 ==> (r matches Err(
                    RuntimeError::CannotConsOntoNonCollection(v, l),
                ) && v == unevaled_args@[1].val && l == unevaled_args@[1].loc),
                PrimitiveOp::Append => unevaled_args@.len() == 2 ==> (r matches Err(
                    RuntimeError::CannotAppendOnto(v, l),
                ) && v == unevaled_args@[0].val && l == unevaled_args@[0].loc),
            })
        },
        (depth > 0 && obj.op == PrimitiveOp::Len && unevaled_args@.len() == 1 && obj.min_arity
            <= 1 && (obj.max_arity < 0 || obj.max_arity >= 1)) ==> (unevaled_args@[0].val matches
            Val::Symbol(s) ==> (old(env).lookup(e as int, s@) matches Some(n0) ==> (n0.val matches
            Val::List(c) ==> (c@.len() <= i32::MAX ==> {
            &&& r matches Ok(n)
            &&& n.loc == loc
            &&& n.val matches Val::Number(k)
            &&& k == c@.len()
        })))),
    decreases depth, 2int,
{
    proof {
        if unevaled_args@.len() == 1 && unevaled_args@[0].val is Symbol {
            assert(all_atoms(unevaled_args@));
            if atom_value(*old(env), e as int, unevaled_args@[0]) is Some {
                assert(atoms_resolve_to(*old(env), e as int, unevaled_args@, 1));
            }
        }
    }
    let evaled_args = match eval_each_node(env, e, unevaled_args, depth) {
        Ok(outs) => outs,
        Err(err) => {
            return Err(err);
        },
    };
    match check_args(obj.name.as_str(), &loc, &evaled_args, obj.min_arity, obj.max_arity) {
        Ok(_) => {},
        Err(err) => {
            return Err(err);
        },
    }
    apply_primitive(obj.op, evaled_args, loc)
}

/// Invokes a closure: checks that the argument count equals the declared
/// parameter count, creates a child of the closure's *captured* environment
/// - never the caller's - evaluates the arguments in the caller's scope,
/// binds them to the parameters positionally left to right, and evaluates
/// the body in the new scope.  A free variable in the body therefore
/// resolves through the defining environment, whatever `e` is at the call
/// site.
#[verifier::loop_isolation(false)]
pub fn eval_invoke_proc(
    env: &mut Env,
    e: usize,
    proc: Node,
    unevaled_args: Vec<Node>,
    depth: u64,
) -> (r: Result<Node, RuntimeError>)
    requires
        old(env).wf(),
        e < old(env).scopes@.len(),
    ensures
        env_extends(*old(env), *final(env)),
        match proc.val {
            Val::Routine(rt) => {
                &&& (unevaled_args@.len() != rt.params@.len() ==> (r matches Err(
                    RuntimeError::ProcArgsDoNotMatchParams(s, l),
                ) && s@ == Seq::<char>::empty() && l == proc.loc) && *final(env) == *old(env))
                &&& ((depth > 0 && rt.params@.len() == 0 && unevaled_args@.len() == 0
                    && rt.lexical_env < old(env).scopes@.len()) ==> (rt.body.val matches
                    Val::Symbol(s) ==> match old(env).lookup(rt.lexical_env as int, s@) {
                    Some(n0) => (r matches Ok(n) && node_eq(n, n0) && n.loc == n0.loc),
                    None => (r matches Err(RuntimeError::UndefinedName(nm, l)) && nm@ == s@ && l
                        == rt.body.loc),
                }))
                &&& ((depth > 0 && rt.params@.len() == unevaled_args@.len()
                    && rt.lexical_env < old(env).scopes@.len() && params_are_distinct_symbols(
                    rt.params@,
                ) && all_literals(unevaled_args@)) ==> (rt.body.val matches Val::Symbol(b) ==> {
                    &&& (forall|j: int|
                        0 <= j < rt.params@.len() && b@ == (
                        #[trigger] rt.params@[j]).val->Symbol_0@ ==> (r matches Ok(n) && node_eq(
                            n,
                            unevaled_args@[j],
                        )))
                    &&& ((forall|j: int|
                        0 <= j < rt.params@.len() ==> b@ != (
                        #[trigger] rt.params@[j]).val->Symbol_0@) ==> match old(env).lookup(
                        rt.lexical_env as int,
                        b@,
                    ) {
                        Some(n0) => (r matches Ok(n) && node_eq(n, n0) && n.loc == n0.loc),
                        None => (r matches Err(RuntimeError::UndefinedName(nm, l)) && nm@ == b@
                            && l == rt.body.loc),
                    })
                }))
                &&& ((depth > 0 && rt.params@.len() == unevaled_args@.len()
                    && rt.lexical_env < old(env).scopes@.len() && all_atoms(unevaled_args@)
                    && !atoms_resolve_to(
                    *old(env),
                    e as int,
                    unevaled_args@,
                    unevaled_args@.len() as int,
                )) ==> {
                    &&& r matches Err(RuntimeError::UndefinedName(_, _))
                    &&& final(env).scopes@.len() == old(env).scopes@.len() + 1
                    &&& forall|j: int|
                        0 <= j < old(env).scopes@.len() ==> Env::scope_same(
                            *old(env),
                            *final(env),
                            j,
                        )
                    &&& final(env).scopes@[old(env).scopes@.len() as int].entries@.len() == 0
                })
            },
            _ => (r matches Err(RuntimeError::InvalidInternalState(_, l)) && l == proc.loc)
                && *final(env) == *old(env),
        },
    decreases depth, 2int,
{
    let Node { val: proc_val, loc: proc_loc } = proc;
    match proc_val {
        Val::Routine(rt) => {
            let RoutineObj { name: _, params, body, lexical_env, routine_type: _ } = rt;
            if unevaled_args.len() != params.len() {
                return Err(RuntimeError::ProcArgsDoNotMatchParams(String::new(), proc_loc));
            }
            if lexical_env >= env.scopes.len() {
                return Err(
                    RuntimeError::InvalidInternalState(
                        String::from_str("closure environment out of range"),
                        proc_loc,
                    ),
                );
            }
            let ghost env0 = *env;
            let child = env.new(Some(lexical_env));
            let ghost env1 = *env;
            let ghost plen = proc.val->Routine_0.params@.len() as int;
            let ghost all_bound = depth > 0 && unevaled_args@.len() == plen
                && params_are_distinct_symbols(proc.val->Routine_0.params@) && all_literals(
                unevaled_args@,
            );
            proof {
                if depth > 0 && all_atoms(unevaled_args@) {
                    assert forall|i: int| 0 <= i < unevaled_args@.len() implies atom_value(
                        env1,
                        e as int,
                        #[trigger] unevaled_args@[i],
                    ) == atom_value(env0, e as int, unevaled_args@[i]) by {
                        if unevaled_args@[i].val is Symbol {
                            crate::back::env::lemma_lookup_frame(
                                env0,
                                env1,
                                e as int,
                                unevaled_args@[i].val->Symbol_0@,
                            );
                        }
                    }
                }
            }
            let mut evaled_args = match eval_each_node(env, e, unevaled_args, depth) {
                Ok(outs) => outs,
                Err(err) => {
                    return Err(err);
                },
            };
            let mut params = params;
            proof {
                if all_bound {
                    assert(unevaled_args@.skip(0) =~= unevaled_args@);
                    assert(proc.val->Routine_0.params@.skip(0) =~= proc.val->Routine_0.params@);
                    assert(env.scopes@[child as int].entries@.len() == 0);
                    assert forall|k2: Seq<char>| #[trigger] env.binding(child as int, k2)
                        is None by {
                        assert(env.scopes@[child as int].entries@.len() == 0);
                    }
                }
            }
            while params.len() > 0
                invariant
                    env.wf(),
                    child < env.scopes@.len(),
                    e < env.scopes@.len(),
                    env_extends(env0, *env),
                    params@.len() == evaled_args@.len(),
                    params@.len() <= proc.val->Routine_0.params@.len(),
                    (unevaled_args@.len() == 0 && proc.val->Routine_0.params@.len() == 0) ==> (
                    params@.len() == 0 && *env == env1),
                    all_bound ==> evaled_args@ == unevaled_args@.skip(plen - params@.len()),
                    all_bound ==> params@ == proc.val->Routine_0.params@.skip(
                        plen - params@.len(),
                    ),
                    all_bound ==> (forall|j: int|
                        0 <= j < plen - params@.len() ==> env.binding(
                            child as int,
                            (#[trigger] proc.val->Routine_0.params@[j]).val->Symbol_0@,
                        ) == Some(unevaled_args@[j])),
                    all_bound ==> env.scopes@.len() == env1.scopes@.len(),
                    all_bound ==> env.scopes@[child as int].parent == Some(lexical_env),
                    all_bound ==> (forall|j: int|
                        0 <= j < env1.scopes@.len() && j != child
                            ==> #[trigger] env.scopes@[j] == env1.scopes@[j]),
                    all_bound ==> (forall|k2: Seq<char>|
                        (forall|j: int|
                            0 <= j < plen ==> k2 != (
                            #[trigger] proc.val->Routine_0.params@[j]).val->Symbol_0@)
                            ==> #[trigger] env.binding(child as int, k2) is None),
                decreases params@.len(),
            {
                let ghost done = plen - params@.len();
                proof {
                    if all_bound {
                        assert(params@[0] == proc.val->Routine_0.params@[done]);
                        assert(evaled_args@[0] == unevaled_args@[done]);
                    }
                }
                let param = params.remove(0);
                let evaled_arg = evaled_args.remove(0);
                proof {
                    if all_bound {
                        assert(evaled_args@ =~= unevaled_args@.skip(done + 1));
                        assert(params@ =~= proc.val->Routine_0.params@.skip(done + 1));
                    }
                }
                let Node { val: param_val, loc: param_loc } = param;
                let ghost env_before = *env;
                match param_val {
                    Val::Symbol(nm) => {
                        match env.define(child, nm.as_str(), evaled_arg) {
                            Ok(_) => {},
                            Err(err) => {
                                return Err(err);
                            },
                        }
                        proof {
                            if all_bound {
                                assert(nm@ == proc.val->Routine_0.params@[done].val->Symbol_0@);
                                assert forall|j: int|
                                    0 <= j < env1.scopes@.len() && j != child implies
                                    #[trigger] env.scopes@[j] == env1.scopes@[j] by {
                                    assert(Env::scope_same(env_before, *env, j));
                                }
                                assert forall|k2: Seq<char>|
                                    (forall|j: int|
                                        0 <= j < plen ==> k2 != (
                                        #[trigger] proc.val->Routine_0.params@[j]).val->Symbol_0@)
                                        implies #[trigger] env.binding(child as int, k2)
                                    is None by {
                                    assert(k2 != proc.val->Routine_0.params@[done].val->Symbol_0@);
                                }
                            }
                        }
                    },
                    v => {
                        return Err(
                            RuntimeError::UnexpectedValue(String::from_str("symbol"), v, param_loc),
                        );
                    },
                }
            }
            proof {
                if all_bound && body.val is Symbol {
                    assert forall|j: int|
                        0 <= j < plen && body.val->Symbol_0@ == (
                        #[trigger] proc.val->Routine_0.params@[j]).val->Symbol_0@ implies
                        env.lookup(child as int, body.val->Symbol_0@) == Some(
                            unevaled_args@[j],
                        ) by {
                        assert(env.binding(child as int, body.val->Symbol_0@) == Some(
                            unevaled_args@[j],
                        ));
                    }
                    if forall|j: int|
                        0 <= j < plen ==> body.val->Symbol_0@ != (
                        #[trigger] proc.val->Routine_0.params@[j]).val->Symbol_0@ {
                        assert(env.binding(child as int, body.val->Symbol_0@) is None);
                        assert forall|j: int| 0 <= j <= lexical_env implies Env::scope_same(
                            env0,
                            *env,
                            j,
                        ) by {
                            assert(env.scopes@[j] == env1.scopes@[j]);
                            assert(Env::scope_same(env0, env1, j));
                        }
                        crate::back::env::lemma_lookup_frame(
                            env0,
                            *env,
                            lexical_env as int,
                            body.val->Symbol_0@,
                        );
                        assert(env.lookup(child as int, body.val->Symbol_0@) == env0.lookup(
                            lexical_env as int,
                            body.val->Symbol_0@,
                        ));
                    }
                }
                if depth > 0 && unevaled_args@.len() == 0 {
                    assert(*env == env1);
                    assert(env1.scopes@[child as int].entries@.len() == 0);
                    assert(env1.binding(child as int, body.val->Symbol_0@) is None);
                    crate::back::env::lemma_lookup_frame(
                        env0,
                        env1,
                        lexical_env as int,
                        body.val->Symbol_0@,
                    );
                }
            }
            eval_node(env, child, *body, depth)
        },
        v => Err(
            RuntimeError::InvalidInternalState(
                String::from_str("cannot invoke a non-routine value"),
                proc_loc,
            ),
        ),
    }
}

/// Evaluates a non-empty call form: a head symbol naming a special form is
/// dispatched to its handler, with the argument count checked against the
/// form's fixed bounds before any argument is evaluated; any other head is
/// evaluated to a callable - a closure or a primitive - and invoked;
/// anything else cannot be called.
pub fn eval_list(env: &mut Env, e: usize, args: Vec<Node>, loc: Loc, depth: u64) -> (r: Result<
    Node,
    RuntimeError,
>)
    requires
        old(env).wf(),
        e < old(env).scopes@.len(),
    ensures
        env_extends(*old(env), *final(env)),
        args@.len() == 0 ==> (r matches Err(RuntimeError::CannotEvalEmptyList(l)) && l == loc)
            && *final(env) == *old(env),
        args@.len() > 0 ==> (args@[0].val matches Val::Symbol(s) ==> {
            &&& (form_bounds(s@) matches Some(bounds) ==> {
                &&& (args@.len() - 1 < bounds.0 ==> {
                    &&& r matches Err(RuntimeError::NotEnoughArgs(nm, mn, act, l)) && nm@ == s@
                        && mn == bounds.0 && act == args@.len() - 1 && l == args@[0].loc
                    &&& *final(env) == *old(env)
                })
                &&& (bounds.1 >= 0 && args@.len() - 1 > bounds.1 ==> {
                    &&& r matches Err(RuntimeError::TooManyArgs(nm, mx, act, l)) && nm@ == s@
                        && mx == bounds.1 && act == args@.len() - 1 && l == args@[0].loc
                    &&& *final(env) == *old(env)
                })
            })
            &&& (s@ == "quote"@ && args@.len() >= 2 ==> r == Ok::<Node, RuntimeError>(args@[1])
                && *final(env) == *old(env))
            &&& (s@ == "fn"@ && args@.len() == 3 ==> (args@[1].val matches Val::List(ps) ==> {
                &&& r matches Ok(n)
                &&& n.loc == args@[0].loc
                &&& n.val matches Val::Routine(rt)
                &&& rt.name is None
                &&& rt.params == ps
                &&& rt.body.val == args@[2].val
                &&& rt.lexical_env == e
                &&& rt.routine_type == RoutineType::Function
                &&& *final(env) == *old(env)
            }))
            &&& (depth > 0 && s@ == "if"@ && args@.len() == 4 && is_literal(args@[1].val)
                && is_literal(args@[2].val) ==> r == Ok::<Node, RuntimeError>(args@[2]) && *final(env) == *old(env))
            &&& (depth > 0 && s@ == "if"@ && args@.len() == 4 ==> (args@[1].val matches
                Val::Symbol(c) ==> (old(env).lookup(e as int, c@) matches Some(n0) ==> {
                &&& (((n0.val is Nil || n0.val == Val::Boolean(false)) && is_literal(
                    args@[3].val,
                )) ==> r == Ok::<Node, RuntimeError>(args@[3]) && *final(env) == *old(env))
                &&& ((!(n0.val is Nil) && !(n0.val == Val::Boolean(false)) && is_literal(
                    args@[2].val,
                )) ==> r == Ok::<Node, RuntimeError>(args@[2]) && *final(env) == *old(env))
            })))
            &&& (depth > 0 && s@ == "if"@ && args@.len() == 4 && is_literal(args@[1].val) ==> (
            args@[2].val matches Val::Symbol(b) ==> (match old(env).lookup(e as int, b@) {
                Some(n0) => (r matches Ok(n) && node_eq(n, n0) && n.loc == n0.loc),
                None => (r matches Err(RuntimeError::UndefinedName(nm, l)) && nm@ == b@ && l
                    == args@[2].loc),
            }) && *final(env) == *old(env)))
            &&& (depth > 0 && s@ == "list"@ && all_literals(args@.skip(1)) ==> {
                &&& r matches Ok(n)
                &&& n.loc == args@[0].loc
                &&& n.val matches Val::List(c)
                &&& c@ == args@.skip(1)
                &&& *final(env) == *old(env)
            })
            &&& (depth > 0 && s@ == "list"@ && all_atoms(args@.skip(1)) && atoms_resolve_to(
                *old(env),
                e as int,
                args@.skip(1),
                args@.len() - 1,
            ) ==> {
                &&& r matches Ok(n)
                &&& n.loc == args@[0].loc
                &&& n.val matches Val::List(c)
                &&& c@.len() == args@.len() - 1
                &&& forall|i: int|
                    0 <= i < args@.len() - 1 ==> node_eq(
                        #[trigger] c@[i],
                        atom_value(*old(env), e as int, args@.skip(1)[i])->Some_0,
                    )
                &&& *final(env) == *old(env)
            })
            &&& (depth > 0 && s@ == "def"@ && args@.len() == 3 && is_literal(args@[2].val) ==> (
            args@[1].val matches Val::Symbol(nm) ==> {
                &&& r matches Ok(n) && n.val is Nil
                &&& final(env).scopes@.len() == old(env).scopes@.len()
                &&& final(env).binding(e as int, nm@) == Some(args@[2])
                &&& forall|j: int|
                    0 <= j < old(env).scopes@.len() && j != e ==> Env::scope_same(
                        *old(env),
                        *final(env),
                        j,
                    )
                &&& forall|k2: Seq<char>|
                    k2 != nm@ ==> #[trigger] final(env).binding(e as int, k2) == old(env).binding(
                        e as int,
                        k2,
                    )
            }))
            &&& (depth > 0 && s@ == "let"@ && args@.len() == 3 ==> (args@[1].val matches
                Val::List(pairs) ==> (pairs@.len() == 2 ==> (pairs@[0].val matches Val::Symbol(
                k,
            ) ==> (is_literal(pairs@[1].val) ==> (args@[2].val matches Val::Symbol(b) ==> (b@
                == k@ ==> (r matches Ok(n) && node_eq(n, pairs@[1])))))))))
            &&& (depth > 0 && s@ == "update!"@ && args@.len() == 3 && is_literal(args@[2].val)
                ==> (args@[1].val matches Val::Symbol(nm) ==> (match old(env).owner(
                e as int,
                nm@,
            ) {
                Some(o) => {
                    &&& r matches Ok(n) && n.val is Nil
                    &&& final(env).scopes@.len() == old(env).scopes@.len()
                    &&& final(env).binding(o, nm@) == Some(args@[2])
                    &&& forall|j: int|
                        0 <= j < old(env).scopes@.len() && j != o ==> Env::scope_same(
                            *old(env),
                            *final(env),
                            j,
                        )
                },
                None => {
                    &&& r matches Err(RuntimeError::CannotUpdateUndefinedName(k, l)) && k@ == nm@
                        && l == args@[2].loc
                    &&& *final(env) == *old(env)
                },
            })))
        }),
        (depth > 0 && args@.len() > 0 && args@[0].val is Number) ==> {
            &&& r matches Err(RuntimeError::UnableToEvalListStartingWith(ds, l)) && ds@
                == val_display(args@[0].val) && l == args@[0].loc
            &&& *final(env) == *old(env)
        },
    decreases depth, 3int,
{
    proof {
        reveal_strlit("list");
        reveal_strlit("quote");
        reveal_strlit("def");
        reveal_strlit("fn");
        reveal_strlit("update!");
        reveal_strlit("update-element!");
        reveal_strlit("if");
        reveal_strlit("let");
        assert("list"@.len() == 4);
        assert("quote"@.len() == 5);
        assert("def"@.len() == 3);
        assert("fn"@.len() == 2);
        assert("update!"@.len() == 7);
        assert("update-element!"@.len() == 15);
        assert("if"@.len() == 2);
        assert("let"@.len() == 3);
        assert("fn"@[0] == 'f' && "if"@[0] == 'i');
        assert("def"@[0] == 'd' && "let"@[0] == 'l');
    }
    let ghost args0 = args@;
    let mut args = args;
    if args.len() == 0 {
        return Err(RuntimeError::CannotEvalEmptyList(loc));
    }
    let head = args.remove(0);
    proof {
        assert(head == args0[0]);
        assert(args@ =~= args0.skip(1));
    }
    let Node { val: head_val, loc: head_loc } = head;
    match &head_val {
        Val::Symbol(name) => {
            if crate::str_eq(name.as_str(), "list") {
                match check_args("list", &head_loc, &args, 0, -1) {
                    Ok(_) => {},
                    Err(err) => {
                        return Err(err);
                    },
                }
                return eval_special_list(env, e, head_loc, args, depth);
            }
            if crate::str_eq(name.as_str(), "quote") {
                match check_args("quote", &head_loc, &args, 1, -1) {
                    Ok(_) => {},
                    Err(err) => {
                        return Err(err);
                    },
                }
                let first = args.remove(0);
                proof {
                    assert(args0.skip(1)[0] == args0[1]);
                    assert(first == args0[1]);
                }
                return Ok(first);
            }
            if crate::str_eq(name.as_str(), "def") {
                match check_args("def", &head_loc, &args, 2, 2) {
                    Ok(_) => {},
                    Err(err) => {
                        return Err(err);
                    },
                }
                return eval_special_def(env, e, args, depth);
            }
            if crate::str_eq(name.as_str(), "fn") {
                match check_args("fn", &head_loc, &args, 2, 2) {
                    Ok(_) => {},
                    Err(err) => {
                        return Err(err);
                    },
                }
                return eval_special_fn(e, head_loc, args);
            }
            if crate::str_eq(name.as_str(), "update!") {
                match check_args("update!", &head_loc, &args, 2, 2) {
                    Ok(_) => {},
                    Err(err) => {
                        return Err(err);
                    },
                }
                return eval_special_update(env, e, args, depth);
            }
            if crate::str_eq(name.as_str(), "update-element!") {
                match check_args("update-element!", &head_loc, &args, 3, 3) {
                    Ok(_) => {},
                    Err(err) => {
                        return Err(err);
                    },
                }
                return eval_special_update_element(env, e, args, depth);
            }
            if crate::str_eq(name.as_str(), "if") {
                match check_args("if", &head_loc, &args, 3, 3) {
                    Ok(_) => {},
                    Err(err) => {
                        return Err(err);
                    },
                }
                return eval_special_if(env, e, args, depth);
            }
            if crate::str_eq(name.as_str(), "let") {
                match check_args("let", &head_loc, &args, 2, -1) {
                    Ok(_) => {},
                    Err(err) => {
                        return Err(err);
                    },
                }
                return eval_special_let(env, e, head_loc, args, depth);
            }
        },
        _ => {},
    }
    let evaled_head = match eval_node(env, e, Node { val: head_val, loc: head_loc.clone() }, depth)
    {
        Ok(n) => n,
        Err(err) => {
            return Err(err);
        },
    };
    let Node { val: evaled_val, loc: evaled_loc } = evaled_head;
    match evaled_val {
        Val::Routine(rt) => eval_invoke_proc(
            env,
            e,
            Node { val: Val::Routine(rt), loc: evaled_loc },
            args,
            depth,
        ),
        Val::Primitive(obj) => eval_invoke_primitive(obj, env, e, args, head_loc, depth),
        v => Err(RuntimeError::UnableToEvalListStartingWith(v.display(), head_loc)),
    }
}

} // verus!
