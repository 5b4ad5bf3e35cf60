//! A small evaluator for a Lisp-family dialect: a closed value model, a
//! lexically scoped environment chain held in an arena, and a recursive
//! dispatch core with fixed-arity special forms, first-class closures, and
//! shared mutable cells.  Parsing and the native primitive library are the
//! driver's business; the core takes parsed nodes and a pre-populated root
//! scope, and answers a value or a positioned error.

pub mod ast;
pub mod back;
pub mod loc;

use crate::ast::{dec_str, int_str, val_display, Node, Val};
use crate::back::env::Env;
use crate::back::eval::{all_literals, env_extends, eval_node};
use crate::back::runtime_error::{err_msg, RuntimeError};
use crate::loc::Loc;
use vstd::prelude::*;

verus! {

/// Compares two string slices by their characters.
pub fn str_eq(a: &str, b: &str) -> (r: bool)
    ensures
        r == (a@ == b@),
{
    let n = a.unicode_len();
    if n != b.unicode_len() {
        proof {
            assert(a@ != b@);
        }
        return false;
    }
    let mut i: usize = 0;
    while i < n
        invariant
            n == a@.len(),
            n == b@.len(),
            i <= n,
            forall|j: int| 0 <= j < i ==> a@[j] == b@[j],
        decreases n - i,
    {
        if a.get_char(i) != b.get_char(i) {
            return false;
        }
        i += 1;
    }
    proof {
        assert(a@ =~= b@);
    }
    true
}

/// The evaluation depth after which an evaluation is abandoned, standing in
/// for the host call stack that unbounded recursion would exhaust.
pub const MAX_EVAL_DEPTH: u64 = 1000000;

/// How the driver shows a failed run: the failure's position, when known,
/// then its message.
pub open spec fn run_error_display(err: RuntimeError) -> Seq<char> {
    match err.loc_spec() {
        Loc::File { filename, line } => "Runtime error ("@ + filename@ + ":"@ + dec_str(
            line as int,
        ) + "): "@ + err_msg(err) + "\n\n"@,
        Loc::Unknown => "Runtime error: "@ + err_msg(err) + "\n\n"@,
    }
}

/// Renders a failed run for display.
fn render_runtime_error(err: RuntimeError) -> (out: String)
    ensures
        out@ == run_error_display(err),
{
    let err_loc = err.loc();
    let msg = err.display();
    match err_loc {
        Loc::File { filename, line } => {
            let mut out = String::from_str("Runtime error (");
            out.append(filename.as_str());
            out.append(":");
            let line_text = crate::ast::dec_string(line as u64);
            out.append(line_text.as_str());
            out.append("): ");
            out.append(msg.as_str());
            out.append("\n\n");
            proof {
                assert(out@ =~= run_error_display(err));
            }
            out
        },
        Loc::Unknown => {
            let mut out = String::from_str("Runtime error: ");
            out.append(msg.as_str());
            out.append("\n\n");
            proof {
                assert(out@ =~= run_error_display(err));
            }
            out
        },
    }
}

/// Evaluates the program's top-level nodes one after another in the given
/// root scope, and renders the last node's result - or the first failure -
/// for display.  An empty program shows as absence.
#[verifier::loop_isolation(false)]
pub fn interpret(env: &mut Env, e: usize, nodes: Vec<Node>) -> (out: String)
    requires
        old(env).wf(),
        e < old(env).scopes@.len(),
    ensures
        env_extends(*old(env), *final(env)),
        nodes@.len() == 0 ==> out@ == "nil"@ && *final(env) == *old(env),
        (nodes@.len() > 0 && all_literals(nodes@)) ==> out@ == val_display(
            nodes@[nodes@.len() - 1].val,
        ) && *final(env) == *old(env),
        (nodes@.len() == 2 && nodes@[0].val is List && nodes@[0].val->List_0@.len() == 3
            && nodes@[0].val->List_0@[0].val is Symbol
            && nodes@[0].val->List_0@[0].val->Symbol_0@ == "def"@
            && nodes@[0].val->List_0@[1].val is Symbol && nodes@[0].val->List_0@[2].val is Number
            && nodes@[1].val is Symbol && nodes@[1].val->Symbol_0@
            == nodes@[0].val->List_0@[1].val->Symbol_0@) ==> out@ == int_str(
            nodes@[0].val->List_0@[2].val->Number_0 as int,
        ),
        (nodes@.len() == 1 && nodes@[0].val is List && nodes@[0].val->List_0@.len() == 3
            && nodes@[0].val->List_0@[0].val is Symbol
            && nodes@[0].val->List_0@[0].val->Symbol_0@ == "update!"@
            && nodes@[0].val->List_0@[1].val is Symbol && nodes@[0].val->List_0@[2].val is Number
            && old(env).owner(e as int, nodes@[0].val->List_0@[1].val->Symbol_0@) is None) ==> out@
            == run_error_display(
            RuntimeError::CannotUpdateUndefinedName(
                nodes@[0].val->List_0@[1].val->Symbol_0,
                nodes@[0].val->List_0@[2].loc,
            ),
        ) && *final(env) == *old(env),
        (nodes@.len() == 1 && nodes@[0].val is Symbol && old(env).lookup(
            e as int,
            nodes@[0].val->Symbol_0@,
        ) is None) ==> out@ == run_error_display(
            RuntimeError::UndefinedName(nodes@[0].val->Symbol_0, nodes@[0].loc),
        ) && *final(env) == *old(env),
{
    let ghost nodes0 = nodes@;
    let ghost def_prog = nodes0.len() == 2 && nodes0[0].val is List
        && nodes0[0].val->List_0@.len() == 3 && nodes0[0].val->List_0@[0].val is Symbol
        && nodes0[0].val->List_0@[0].val->Symbol_0@ == "def"@
        && nodes0[0].val->List_0@[1].val is Symbol && nodes0[0].val->List_0@[2].val is Number
        && nodes0[1].val is Symbol && nodes0[1].val->Symbol_0@
        == nodes0[0].val->List_0@[1].val->Symbol_0@;
    let ghost upd_prog = nodes0.len() == 1 && nodes0[0].val is List
        && nodes0[0].val->List_0@.len() == 3 && nodes0[0].val->List_0@[0].val is Symbol
        && nodes0[0].val->List_0@[0].val->Symbol_0@ == "update!"@
        && nodes0[0].val->List_0@[1].val is Symbol && nodes0[0].val->List_0@[2].val is Number
        && old(env).owner(e as int, nodes0[0].val->List_0@[1].val->Symbol_0@) is None;
    let ghost sym_prog = nodes0.len() == 1 && nodes0[0].val is Symbol && old(env).lookup(
        e as int,
        nodes0[0].val->Symbol_0@,
    ) is None;
    let mut nodes = nodes;
    let mut result = Node { val: Val::Nil, loc: Loc::Unknown };
    while nodes.len() > 0
        invariant
            env.wf(),
            e < env.scopes@.len(),
            env_extends(*old(env), *env),
            nodes@.len() <= nodes0.len(),
            nodes@ == nodes0.skip((nodes0.len() - nodes@.len()) as int),
            all_literals(nodes0) ==> *env == *old(env) && (nodes@.len() < nodes0.len()
                ==> result == nodes0[(nodes0.len() - nodes@.len() - 1) as int]) && (nodes@.len()
                == nodes0.len() ==> result == (Node { val: Val::Nil, loc: Loc::Unknown })),
            def_prog ==> (nodes@.len() == 2 ==> *env == *old(env)),
            def_prog ==> (nodes@.len() == 1 ==> env.binding(
                e as int,
                nodes0[0].val->List_0@[1].val->Symbol_0@,
            ) == Some(nodes0[0].val->List_0@[2]) && env.scopes@.len() == old(env).scopes@.len()),
            def_prog ==> (nodes@.len() == 0 ==> crate::ast::node_eq(
                result,
                nodes0[0].val->List_0@[2],
            )),
            upd_prog ==> nodes@.len() == nodes0.len() && *env == *old(env),
            sym_prog ==> nodes@.len() == nodes0.len() && *env == *old(env),
        decreases nodes@.len(),
    {
        proof {
            assert(nodes@[0] == nodes0[(nodes0.len() - nodes@.len()) as int]);
        }
        let node = nodes.remove(0);
        proof {
            if def_prog && nodes@.len() == 0 {
                assert(env.lookup(e as int, node.val->Symbol_0@) == Some(
                    nodes0[0].val->List_0@[2],
                ));
            }
        }
        match eval_node(env, e, node, MAX_EVAL_DEPTH) {
            Ok(n) => {
                result = n;
            },
            Err(err) => {
                let rendered = render_runtime_error(err);
                proof {
                    if upd_prog {
                        assert(rendered@ =~= run_error_display(
                            RuntimeError::CannotUpdateUndefinedName(
                                nodes0[0].val->List_0@[1].val->Symbol_0,
                                nodes0[0].val->List_0@[2].loc,
                            ),
                        ));
                    }
                    if sym_prog {
                        assert(rendered@ =~= run_error_display(
                            RuntimeError::UndefinedName(nodes0[0].val->Symbol_0, nodes0[0].loc),
                        ));
                    }
                }
                return rendered;
            },
        }
        proof {
            assert(nodes@ =~= nodes0.skip((nodes0.len() - nodes@.len()) as int));
        }
    }
    proof {
        if nodes0.len() == 0 {
            reveal_strlit("nil");
            assert(val_display(result.val) =~= "nil"@);
        }
    }
    result.val.display()
}

} // verus!
