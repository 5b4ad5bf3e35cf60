use macaroon::ast::{CellObj, Node, PrimitiveObj, PrimitiveOp, Val};
use macaroon::back::env::Env;
use macaroon::back::eval::{eval_invoke_proc, eval_node};
use macaroon::back::runtime_error::{check_args, RuntimeError};
use macaroon::interpret;
use macaroon::loc::Loc;

fn n(v: Val) -> Node {
    Node::new(v, Loc::Unknown)
}

fn num(i: i32) -> Node {
    n(Val::Number(i))
}

fn strv(s: &str) -> Node {
    n(Val::StringVal(s.to_string()))
}

fn sym(s: &str) -> Node {
    n(Val::Symbol(s.to_string()))
}

fn list(children: Vec<Node>) -> Node {
    n(Val::List(children))
}

fn run(nodes: Vec<Node>) -> String {
    let mut env = Env::default();
    let root = env.new(None);
    interpret(&mut env, root, nodes)
}

fn eval_one(node: Node) -> Result<Node, RuntimeError> {
    let mut env = Env::default();
    let root = env.new(None);
    eval_node(&mut env, root, node, 1000)
}

#[test]
fn test_check_args() {
    // Arrange
    let args = Vec::<Node>::new();

    // Act
    let r = check_args("list", &Loc::Unknown, &args, 1, -1);

    // Assert
    assert_eq!(
        r,
        Err(RuntimeError::NotEnoughArgs(
            "list".to_string(),
            1,
            0,
            Loc::Unknown
        ))
    );
}

#[test]
fn numbers_self_evaluate() {
    let r = eval_one(num(42)).unwrap();
    assert_eq!(r, num(42));
}

#[test]
fn quote_returns_argument_verbatim() {
    let program = list(vec![sym("quote"), list(vec![num(1), num(2), num(3)])]);
    let r = eval_one(program).unwrap();
    assert_eq!(r, list(vec![num(1), num(2), num(3)]));
}

#[test]
fn symbols_resolve_or_fail() {
    let mut env = Env::default();
    let root = env.new(None);
    env.define(root, "x", num(5)).unwrap();
    assert_eq!(eval_node(&mut env, root, sym("x"), 1000), Ok(num(5)));
    assert_eq!(
        eval_node(&mut env, root, sym("nope"), 1000),
        Err(RuntimeError::UndefinedName("nope".to_string(), Loc::Unknown))
    );
}

#[test]
fn other_literals_do_not_self_evaluate() {
    assert_eq!(
        eval_one(n(Val::Boolean(true))),
        Err(RuntimeError::UnableToEvalValue(Val::Boolean(true), Loc::Unknown))
    );
    assert_eq!(
        eval_one(strv("a")),
        Err(RuntimeError::UnableToEvalValue(Val::StringVal("a".to_string()), Loc::Unknown))
    );
    assert_eq!(
        eval_one(n(Val::Character("c".to_string()))),
        Err(RuntimeError::UnableToEvalValue(Val::Character("c".to_string()), Loc::Unknown))
    );
}

#[test]
fn empty_call_form_fails() {
    assert_eq!(
        eval_one(list(vec![])),
        Err(RuntimeError::CannotEvalEmptyList(Loc::Unknown))
    );
}

#[test]
fn if_arity_error_names_form_bound_and_actual() {
    let program = list(vec![sym("if"), num(1), num(2)]);
    assert_eq!(
        eval_one(program),
        Err(RuntimeError::NotEnoughArgs("if".to_string(), 3, 2, Loc::Unknown))
    );
}

#[test]
fn def_arity_errors() {
    assert_eq!(
        eval_one(list(vec![sym("def"), sym("a")])),
        Err(RuntimeError::NotEnoughArgs("def".to_string(), 2, 1, Loc::Unknown))
    );
    assert_eq!(
        eval_one(list(vec![sym("def"), sym("a"), num(1), num(2)])),
        Err(RuntimeError::TooManyArgs("def".to_string(), 2, 3, Loc::Unknown))
    );
}

#[test]
fn quote_needs_an_argument() {
    assert_eq!(
        eval_one(list(vec![sym("quote")])),
        Err(RuntimeError::NotEnoughArgs("quote".to_string(), 1, 0, Loc::Unknown))
    );
}

#[test]
fn if_zero_is_truthy() {
    let program = list(vec![sym("if"), num(0), num(1), num(2)]);
    assert_eq!(eval_one(program).unwrap(), num(1));
}

#[test]
fn if_zero_selects_the_consequent_branch() {
    // String literals do not self-evaluate at the dispatch layer, so the
    // chosen branch shows through which branch's error surfaces: a truthy
    // numeric zero reaches "a", never "b".
    let program = list(vec![sym("if"), num(0), strv("a"), strv("b")]);
    assert_eq!(
        eval_one(program),
        Err(RuntimeError::UnableToEvalValue(Val::StringVal("a".to_string()), Loc::Unknown))
    );
}

#[test]
fn if_quoted_false_takes_alternate() {
    let cond = list(vec![sym("quote"), n(Val::Boolean(false))]);
    let program = list(vec![sym("if"), cond, num(1), num(2)]);
    assert_eq!(eval_one(program).unwrap(), num(2));
    let cond = list(vec![sym("quote"), n(Val::Boolean(false))]);
    let program = list(vec![sym("if"), cond, strv("a"), strv("b")]);
    assert_eq!(
        eval_one(program),
        Err(RuntimeError::UnableToEvalValue(Val::StringVal("b".to_string()), Loc::Unknown))
    );
}

#[test]
fn def_then_reference() {
    let program = vec![list(vec![sym("def"), sym("x"), num(10)]), sym("x")];
    assert_eq!(run(program), "10");
}

#[test]
fn def_answers_absence() {
    let program = vec![list(vec![sym("def"), sym("x"), num(10)])];
    assert_eq!(run(program), "nil");
}

#[test]
fn let_binds_pairs_and_returns_last_body_form() {
    let bindings = list(vec![sym("x"), num(1), sym("y"), num(2)]);
    let body = list(vec![sym("list"), sym("x"), sym("y")]);
    let program = vec![list(vec![sym("let"), bindings, body])];
    assert_eq!(run(program), "(1 2)");
}

#[test]
fn let_later_bindings_see_earlier_ones() {
    let bindings = list(vec![sym("x"), num(1), sym("y"), sym("x")]);
    let program = vec![list(vec![sym("let"), bindings, sym("y")])];
    assert_eq!(run(program), "1");
}

#[test]
fn let_shadowing_leaves_outer_binding() {
    let programs = vec![
        list(vec![sym("def"), sym("x"), num(1)]),
        list(vec![sym("let"), list(vec![sym("x"), num(2)]), sym("x")]),
        sym("x"),
    ];
    assert_eq!(run(programs), "1");
}

#[test]
fn update_of_never_defined_name_reports_location() {
    let five = Node::new(
        Val::Number(5),
        Loc::File { filename: "main.mac".to_string(), line: 3 },
    );
    let program = vec![list(vec![sym("update!"), sym("z"), five])];
    assert_eq!(
        run(program),
        "Runtime error (main.mac:3): cannot update undefined name: z\n\n"
    );
}

#[test]
fn update_mutates_ancestor_binding() {
    let program = vec![
        list(vec![sym("def"), sym("y"), num(1)]),
        list(vec![
            sym("let"),
            list(vec![sym("dummy"), num(0)]),
            list(vec![sym("update!"), sym("y"), num(5)]),
        ]),
        sym("y"),
    ];
    assert_eq!(run(program), "5");
}

#[test]
fn closure_captures_defining_environment() {
    let make_f = list(vec![
        sym("def"),
        sym("f"),
        list(vec![sym("fn"), list(vec![]), sym("x")]),
    ]);
    let program = vec![
        list(vec![sym("def"), sym("x"), num(10)]),
        make_f,
        list(vec![
            sym("let"),
            list(vec![sym("x"), num(99)]),
            list(vec![sym("f")]),
        ]),
    ];
    assert_eq!(run(program), "10");
}

#[test]
fn closure_with_parameters_still_captures_lexically() {
    let make_f = list(vec![
        sym("def"),
        sym("f"),
        list(vec![sym("fn"), list(vec![sym("a")]), sym("x")]),
    ]);
    let program = vec![
        list(vec![sym("def"), sym("x"), num(10)]),
        make_f,
        list(vec![
            sym("let"),
            list(vec![sym("x"), num(99)]),
            list(vec![sym("f"), num(1)]),
        ]),
    ];
    assert_eq!(run(program), "10");
}

#[test]
fn closure_binds_arguments_left_to_right() {
    let f = list(vec![
        sym("fn"),
        list(vec![sym("a"), sym("b")]),
        list(vec![sym("list"), sym("a"), sym("b")]),
    ]);
    let program = vec![list(vec![f, num(1), num(2)])];
    assert_eq!(run(program), "(1 2)");
}

#[test]
fn closure_arity_mismatch_fails() {
    let f = list(vec![sym("fn"), list(vec![]), num(5)]);
    let program = list(vec![f, num(9)]);
    assert_eq!(
        eval_one(program),
        Err(RuntimeError::ProcArgsDoNotMatchParams(String::new(), Loc::Unknown))
    );
}

#[test]
fn arguments_evaluate_in_callers_environment() {
    let f = list(vec![sym("fn"), list(vec![sym("a")]), sym("a")]);
    let program = vec![
        list(vec![sym("def"), sym("x"), num(3)]),
        list(vec![f, sym("x")]),
    ];
    assert_eq!(run(program), "3");
}

#[test]
fn calling_a_number_fails() {
    let program = list(vec![num(1), num(2)]);
    assert_eq!(
        eval_one(program),
        Err(RuntimeError::UnableToEvalListStartingWith("1".to_string(), Loc::Unknown))
    );
}

#[test]
fn invoking_a_non_routine_is_a_reportable_error() {
    let mut env = Env::default();
    let root = env.new(None);
    let r = eval_invoke_proc(&mut env, root, num(3), vec![], 1000);
    assert!(matches!(r, Err(RuntimeError::InvalidInternalState(_, Loc::Unknown))));
}

#[test]
fn exhausted_depth_is_an_error() {
    assert_eq!(
        eval_one(list(vec![sym("quote"), num(1)])).unwrap(),
        num(1)
    );
    let mut env = Env::default();
    let root = env.new(None);
    assert_eq!(
        eval_node(&mut env, root, num(1), 0),
        Err(RuntimeError::RecursionDepthExceeded(Loc::Unknown))
    );
}

#[test]
fn list_form_evaluates_arguments() {
    let program = vec![
        list(vec![sym("def"), sym("x"), num(4)]),
        list(vec![sym("list"), num(1), sym("x")]),
    ];
    assert_eq!(run(program), "(1 4)");
}

#[test]
fn primitives_invoke_collection_operations() {
    let mut env = Env::default();
    let root = env.new(None);
    let prim = |name: &str, op: PrimitiveOp, min: isize, max: isize| {
        n(Val::Primitive(PrimitiveObj {
            name: name.to_string(),
            op,
            min_arity: min,
            max_arity: max,
        }))
    };
    env.define(root, "len", prim("len", PrimitiveOp::Len, 1, 1)).unwrap();
    env.define(root, "cons", prim("cons", PrimitiveOp::Cons, 2, 2)).unwrap();
    env.define(root, "append", prim("append", PrimitiveOp::Append, 2, 2)).unwrap();
    let quoted = |items: Vec<Node>| list(vec![sym("quote"), list(items)]);
    let r = eval_node(
        &mut env,
        root,
        list(vec![sym("len"), quoted(vec![num(1), num(2), num(3)])]),
        1000,
    )
    .unwrap();
    assert_eq!(r.val, Val::Number(3));
    let r = eval_node(
        &mut env,
        root,
        list(vec![sym("cons"), num(1), quoted(vec![num(2)])]),
        1000,
    )
    .unwrap();
    assert_eq!(r.val, Val::List(vec![num(1), num(2)]));
    let r = eval_node(
        &mut env,
        root,
        list(vec![sym("append"), quoted(vec![num(1)]), quoted(vec![num(2)])]),
        1000,
    )
    .unwrap();
    assert_eq!(r.val, Val::List(vec![num(1), num(2)]));
}

#[test]
fn primitive_arity_is_checked_after_evaluation() {
    let mut env = Env::default();
    let root = env.new(None);
    env.define(
        root,
        "len",
        n(Val::Primitive(PrimitiveObj {
            name: "len".to_string(),
            op: PrimitiveOp::Len,
            min_arity: 1,
            max_arity: 1,
        })),
    )
    .unwrap();
    assert_eq!(
        eval_node(&mut env, root, list(vec![sym("len")]), 1000),
        Err(RuntimeError::NotEnoughArgs("len".to_string(), 1, 0, Loc::Unknown))
    );
}

#[test]
fn update_element_replaces_cell_contents() {
    let mut env = Env::default();
    let root = env.new(None);
    let cell = CellObj::new(&mut env, num(7));
    env.define(root, "c", n(Val::Cell(cell))).unwrap();
    let program = list(vec![sym("update-element!"), sym("c"), num(0), num(42)]);
    let r = eval_node(&mut env, root, program, 1000).unwrap();
    assert_eq!(r.val, Val::Nil);
    assert_eq!(env.cells[cell.index], num(42));
}

#[test]
fn update_element_replaces_list_element_in_cell() {
    let mut env = Env::default();
    let root = env.new(None);
    let cell = CellObj::new(&mut env, list(vec![num(1), num(2), num(3)]));
    env.define(root, "c", n(Val::Cell(cell))).unwrap();
    let program = list(vec![sym("update-element!"), sym("c"), num(1), num(9)]);
    let r = eval_node(&mut env, root, program, 1000).unwrap();
    assert_eq!(r.val, Val::Nil);
    assert_eq!(env.cells[cell.index].val, Val::List(vec![num(1), num(9), num(3)]));
}

#[test]
fn update_element_rejects_out_of_range_index() {
    let mut env = Env::default();
    let root = env.new(None);
    let cell = CellObj::new(&mut env, list(vec![num(1)]));
    env.define(root, "c", n(Val::Cell(cell))).unwrap();
    let program = list(vec![sym("update-element!"), sym("c"), num(5), num(9)]);
    assert_eq!(
        eval_node(&mut env, root, program, 1000),
        Err(RuntimeError::UnexpectedValue(
            "an index within the collection".to_string(),
            Val::Number(5),
            Loc::Unknown
        ))
    );
    assert_eq!(env.cells[cell.index].val, Val::List(vec![num(1)]));
}

#[test]
fn update_element_index_must_be_a_number() {
    let mut env = Env::default();
    let root = env.new(None);
    let cell = CellObj::new(&mut env, list(vec![num(1)]));
    env.define(root, "c", n(Val::Cell(cell))).unwrap();
    let idx = list(vec![sym("quote"), sym("w")]);
    let program = list(vec![sym("update-element!"), sym("c"), idx, num(9)]);
    assert_eq!(
        eval_node(&mut env, root, program, 1000),
        Err(RuntimeError::UnexpectedValue(
            "number".to_string(),
            Val::Symbol("w".to_string()),
            Loc::Unknown
        ))
    );
}

#[test]
fn update_element_needs_a_cell() {
    let program = list(vec![sym("update-element!"), num(1), num(0), num(42)]);
    assert_eq!(
        eval_one(program),
        Err(RuntimeError::UnexpectedValue("cell".to_string(), Val::Number(1), Loc::Unknown))
    );
}

#[test]
fn def_name_must_be_a_symbol() {
    let program = list(vec![sym("def"), num(5), num(6)]);
    assert_eq!(
        eval_one(program),
        Err(RuntimeError::UnexpectedValue("symbol".to_string(), Val::Number(5), Loc::Unknown))
    );
}

#[test]
fn empty_program_shows_absence() {
    assert_eq!(run(vec![]), "nil");
}

#[test]
fn literal_program_shows_last_value() {
    assert_eq!(run(vec![num(1), num(2), num(30)]), "30");
}

#[test]
fn runtime_error_rendering_without_location() {
    assert_eq!(
        run(vec![sym("ghost")]),
        "Runtime error: undefined name: ghost\n\n"
    );
}

#[test]
fn error_messages_render_exactly() {
    let e = RuntimeError::TooManyArgs("def".to_string(), 2, 3, Loc::Unknown);
    assert_eq!(e.display(), "too many arguments to def: expected at most 2, got 3");
    let e = RuntimeError::UnableToEvalValue(Val::Boolean(true), Loc::Unknown);
    assert_eq!(e.display(), "cannot evaluate value: true");
    let e = RuntimeError::UnexpectedValue("symbol".to_string(), Val::Number(5), Loc::Unknown);
    assert_eq!(e.display(), "expected symbol, got: 5");
}

#[test]
fn quote_with_extra_arguments_returns_the_first() {
    let program = list(vec![sym("quote"), num(1), num(2)]);
    assert_eq!(eval_one(program).unwrap(), num(1));
}

#[test]
fn let_single_binding_resolves_in_child_scope() {
    let program = vec![list(vec![
        sym("let"),
        list(vec![sym("x"), num(1)]),
        sym("x"),
    ])];
    assert_eq!(run(program), "1");
}

#[test]
fn identity_closure_returns_its_argument() {
    let f = list(vec![sym("fn"), list(vec![sym("a")]), sym("a")]);
    let program = vec![list(vec![f, num(5)])];
    assert_eq!(run(program), "5");
}
