use macaroon::ast::{CellObj, Node, PrimitiveObj, PrimitiveOp, ReaderObj, RoutineObj, RoutineType, Val, WriterObj};
use macaroon::back::runtime_error::RuntimeError;
use macaroon::loc::Loc;

fn n(v: Val) -> Node {
    Node::new(v, Loc::Unknown)
}

fn num(i: i32) -> Node {
    n(Val::Number(i))
}

fn strv(s: &str) -> Node {
    n(Val::StringVal(s.to_string()))
}

fn list(children: Vec<Node>) -> Node {
    n(Val::List(children))
}

#[test]
fn display_numbers() {
    assert_eq!(num(0).val.display(), "0");
    assert_eq!(num(42).val.display(), "42");
    assert_eq!(num(-5).val.display(), "-5");
    assert_eq!(num(i32::MAX).val.display(), "2147483647");
    assert_eq!(num(i32::MIN).val.display(), "-2147483648");
}

#[test]
fn display_atoms() {
    assert_eq!(Val::Nil.display(), "nil");
    assert_eq!(Val::Boolean(true).display(), "true");
    assert_eq!(Val::Boolean(false).display(), "false");
    assert_eq!(Val::Symbol("abc".to_string()).display(), "abc");
    assert_eq!(Val::StringVal("hi".to_string()).display(), "\"hi\"");
    assert_eq!(Val::Error("boom".to_string()).display(), "#error<boom>");
    assert_eq!(Val::Character("a".to_string()).display(), "\\a");
    assert_eq!(Val::Character("\n".to_string()).display(), "\\newline");
}

#[test]
fn display_lists() {
    assert_eq!(list(vec![]).val.display(), "()");
    assert_eq!(list(vec![num(1)]).val.display(), "(1)");
    assert_eq!(list(vec![num(1), num(2), num(3)]).val.display(), "(1 2 3)");
    let nested = list(vec![num(1), list(vec![num(2), num(3)]), strv("x")]);
    assert_eq!(nested.val.display(), "(1 (2 3) \"x\")");
}

#[test]
fn display_callables_and_handles() {
    let rt = |name: Option<String>, t: RoutineType| {
        Val::Routine(RoutineObj {
            name,
            params: vec![],
            body: Box::new(num(1)),
            lexical_env: 0,
            routine_type: t,
        })
    };
    assert_eq!(rt(None, RoutineType::Function).display(), "#function");
    assert_eq!(rt(Some("f".to_string()), RoutineType::Function).display(), "#function<f>");
    assert_eq!(rt(None, RoutineType::Macro).display(), "#macro");
    assert_eq!(rt(Some("m".to_string()), RoutineType::Macro).display(), "#macro[m]");
    let p = Val::Primitive(PrimitiveObj {
        name: "len".to_string(),
        op: PrimitiveOp::Len,
        min_arity: 1,
        max_arity: 1,
    });
    assert_eq!(p.display(), "#primitive<len>");
    assert_eq!(Val::Writer(WriterObj::Sink).display(), "#writer");
    assert_eq!(Val::Reader(ReaderObj { handle: 0 }).display(), "#reader");
    assert_eq!(Val::Environment(0).display(), "#environment");
    assert_eq!(Val::Cell(CellObj { index: 0 }).display(), "#cell");
}

#[test]
fn print_friendly_strings_bare() {
    assert_eq!(strv("hi").as_print_friendly_string(), "hi");
    assert_eq!(n(Val::Character("x".to_string())).as_print_friendly_string(), "x");
    assert_eq!(num(7).as_print_friendly_string(), "7");
    assert_eq!(list(vec![num(1), num(2)]).as_print_friendly_string(), "(1 2)");
}

#[test]
fn kind_names() {
    assert_eq!(Val::Nil.kind_name(), Ok("nil".to_string()));
    assert_eq!(Val::Number(1).kind_name(), Ok("number".to_string()));
    assert_eq!(Val::StringVal(String::new()).kind_name(), Ok("string".to_string()));
    assert_eq!(Val::Symbol("s".to_string()).kind_name(), Ok("symbol".to_string()));
    assert_eq!(Val::Boolean(true).kind_name(), Ok("boolean".to_string()));
    assert_eq!(Val::List(vec![]).kind_name(), Ok("list".to_string()));
    assert_eq!(Val::Cell(CellObj { index: 0 }).kind_name(), Ok("cell".to_string()));
}

#[test]
fn truthiness_only_nil_and_false_are_falsy() {
    assert_eq!(n(Val::Nil).as_host_boolean(), Ok(false));
    assert_eq!(n(Val::Boolean(false)).as_host_boolean(), Ok(false));
    assert_eq!(n(Val::Boolean(true)).as_host_boolean(), Ok(true));
    assert_eq!(num(0).as_host_boolean(), Ok(true));
    assert_eq!(strv("").as_host_boolean(), Ok(true));
    assert_eq!(list(vec![]).as_host_boolean(), Ok(true));
}

#[test]
fn host_number_extraction() {
    assert_eq!(num(9).as_host_number(), Ok(9));
    assert_eq!(
        strv("x").as_host_number(),
        Err(RuntimeError::UnexpectedValue(
            "number".to_string(),
            Val::StringVal("x".to_string()),
            Loc::Unknown
        ))
    );
}

#[test]
fn coll_len_counts_elements() {
    assert_eq!(n(Val::Nil).coll_len(), Ok(0));
    assert_eq!(strv("abc").coll_len(), Ok(3));
    assert_eq!(list(vec![num(1), num(2)]).coll_len(), Ok(2));
    assert_eq!(
        num(5).coll_len(),
        Err(RuntimeError::CannotGetLengthOfNonCollection(Val::Number(5), Loc::Unknown))
    );
}

#[test]
fn coll_cons_prepends() {
    let r = n(Val::Nil).coll_cons(num(1)).unwrap();
    assert_eq!(r.val, Val::List(vec![num(1)]));
    let r = list(vec![num(2), num(3)]).coll_cons(num(1)).unwrap();
    assert_eq!(r.val, Val::List(vec![num(1), num(2), num(3)]));
    let r = strv("bc").coll_cons(n(Val::Character("a".to_string()))).unwrap();
    assert_eq!(r.val, Val::StringVal("abc".to_string()));
    assert_eq!(
        strv("bc").coll_cons(num(1)),
        Err(RuntimeError::CannotConsNonCharacterOntoString(Val::Number(1), Loc::Unknown))
    );
    assert_eq!(
        num(1).coll_cons(num(2)),
        Err(RuntimeError::CannotConsOntoNonCollection(Val::Number(1), Loc::Unknown))
    );
}

#[test]
fn coll_append_joins() {
    let r = n(Val::Nil).coll_append(list(vec![num(1)])).unwrap();
    assert_eq!(r.val, Val::List(vec![num(1)]));
    let r = list(vec![num(1)]).coll_append(list(vec![num(2), num(3)])).unwrap();
    assert_eq!(r.val, Val::List(vec![num(1), num(2), num(3)]));
    let r = strv("ab").coll_append(num(3)).unwrap();
    assert_eq!(r.val, Val::StringVal("ab3".to_string()));
    let r = list(vec![num(1)]).coll_append(strv("ab")).unwrap();
    assert_eq!(
        r.val,
        Val::List(vec![
            num(1),
            n(Val::Character("a".to_string())),
            n(Val::Character("b".to_string()))
        ])
    );
    assert_eq!(
        num(1).coll_append(num(2)),
        Err(RuntimeError::CannotAppendOnto(Val::Number(1), Loc::Unknown))
    );
    assert_eq!(
        list(vec![]).coll_append(num(2)),
        Err(RuntimeError::CannotGetChildrenOfNonCollection(
            "append".to_string(),
            Val::Number(2),
            Loc::Unknown
        ))
    );
}

#[test]
fn node_clone_is_deep() {
    let original = list(vec![num(1), strv("x"), list(vec![num(2)])]);
    let copy = original.clone();
    assert_eq!(copy, original);
}
