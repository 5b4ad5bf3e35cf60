use crate::back::env::Env;
use crate::back::runtime_error::RuntimeError;
use crate::loc::Loc;
use vstd::prelude::*;

verus! {

/// The closed set of runtime value kinds.  Environments and cells live in an
/// arena (see `back::env::Env`) and are referred to by stable indices, so a
/// value that holds one of them holds its index.
#[derive(Debug)]
pub enum Val {
    Nil,
    Error(String),
    Number(i32),
    Character(String),
    StringVal(String),
    Symbol(String),
    Boolean(bool),
    Routine(RoutineObj),
    Primitive(PrimitiveObj),
    List(Vec<Node>),
    Writer(WriterObj),
    Reader(ReaderObj),
    Environment(usize),
    Cell(CellObj),
}

/// A value paired with the source position it came from.
#[derive(Debug)]
pub struct Node {
    pub val: Val,
    pub loc: Loc,
}

/// Marks a routine as an ordinary procedure or as a macro.  Both are invoked
/// the same way by the evaluator; the discriminator is carried for display.
#[derive(Debug, PartialEq, Clone, Copy)]
pub enum RoutineType {
    Function,
    Macro,
}

/// A closure: parameter symbols, one body node, and the index of the
/// environment that was current when the closure was created.
#[derive(Debug, PartialEq)]
pub struct RoutineObj {
    pub name: Option<String>,
    pub params: Vec<Node>,
    pub body: Box<Node>,
    pub lexical_env: usize,
    pub routine_type: RoutineType,
}

/// The native operations a primitive can stand for, as a closed set: a bare
/// code pointer can carry no contract, so the dispatch is by tag, each tag
/// standing for a verified collection operation of the value model.  None
/// of these reads the dynamic environment, so the invocation hands them
/// only the call position and the evaluated arguments; a driver needing
/// further native operations widens this set rather than injecting code.
#[derive(Debug, PartialEq, Clone, Copy)]
pub enum PrimitiveOp {
    Len,
    Cons,
    Append,
}

/// A named native operation with inclusive arity bounds; a negative bound
/// means unbounded.
#[derive(Debug, PartialEq)]
pub struct PrimitiveObj {
    pub name: String,
    pub op: PrimitiveOp,
    pub min_arity: isize,
    pub max_arity: isize,
}

/// An output sink handle.  The core never writes; the driver owns the real
/// sinks and tells them apart by the buffer index.
#[derive(Debug, PartialEq, Clone, Copy)]
pub enum WriterObj {
    Sink,
    Standard,
    Buffer(usize),
}

/// An input source handle, owned by the driver.
#[derive(Debug, PartialEq, Clone, Copy)]
pub struct ReaderObj {
    pub handle: usize,
}

/// A shared mutable box around a single node: the index of a cell slot in the
/// arena.  Every holder of the same index sees the same contents.
#[derive(Debug, PartialEq, Clone, Copy)]
pub struct CellObj {
    pub index: usize,
}

/// Equality of optional names, by the characters.
pub open spec fn opt_name_eq(a: Option<String>, b: Option<String>) -> bool {
    match (a, b) {
        (Option::None, Option::None) => true,
        (Option::Some(x), Option::Some(y)) => x@ == y@,
        _ => false,
    }
}

/// Structural equality of values: strings by their characters, lists
/// pointwise, environments and cells by the identity of their arena slot.
/// Locations never take part (`node_eq` below).
pub open spec fn val_eq(a: Val, b: Val) -> bool
    decreases a,
{
    match (a, b) {
        (Val::Nil, Val::Nil) => true,
        (Val::Error(x), Val::Error(y)) => x@ == y@,
        (Val::Number(x), Val::Number(y)) => x == y,
        (Val::Character(x), Val::Character(y)) => x@ == y@,
        (Val::StringVal(x), Val::StringVal(y)) => x@ == y@,
        (Val::Symbol(x), Val::Symbol(y)) => x@ == y@,
        (Val::Boolean(x), Val::Boolean(y)) => x == y,
        (Val::Routine(x), Val::Routine(y)) => {
            &&& opt_name_eq(x.name, y.name)
            &&& x.params@.len() == y.params@.len()
            &&& forall|i: int|
                0 <= i < x.params@.len() ==> val_eq(
                    (#[trigger] x.params@[i]).val,
                    y.params@[i].val,
                )
            &&& val_eq(x.body.val, y.body.val)
            &&& x.lexical_env == y.lexical_env
            &&& x.routine_type == y.routine_type
        },
        (Val::Primitive(x), Val::Primitive(y)) => {
            &&& x.name@ == y.name@
            &&& x.op == y.op
            &&& x.min_arity == y.min_arity
            &&& x.max_arity == y.max_arity
        },
        (Val::List(x), Val::List(y)) => {
            &&& x@.len() == y@.len()
            &&& forall|i: int| 0 <= i < x@.len() ==> val_eq((#[trigger] x@[i]).val, y@[i].val)
        },
        (Val::Writer(x), Val::Writer(y)) => x == y,
        (Val::Reader(x), Val::Reader(y)) => x == y,
        (Val::Environment(x), Val::Environment(y)) => x == y,
        (Val::Cell(x), Val::Cell(y)) => x == y,
        _ => false,
    }
}

/// Equality of nodes: their values must be equal; locations are ignored.
pub open spec fn node_eq(a: Node, b: Node) -> bool {
    val_eq(a.val, b.val)
}

impl Clone for Val {
    /// A deep copy: equal to the original under the value model's equality,
    /// and child locations are kept as well.
    #[verifier::loop_isolation(false)]
    fn clone(&self) -> (r: Self)
        ensures
            val_eq(r, *self),
        decreases self,
    {
        match self {
            Val::Nil => Val::Nil,
            Val::Error(s) => Val::Error(s.clone()),
            Val::Number(n) => Val::Number(*n),
            Val::Character(s) => Val::Character(s.clone()),
            Val::StringVal(s) => Val::StringVal(s.clone()),
            Val::Symbol(s) => Val::Symbol(s.clone()),
            Val::Boolean(b) => Val::Boolean(*b),
            Val::Routine(rt) => {
                let name = match &rt.name {
                    Option::Some(s) => Option::Some(s.clone()),
                    Option::None => Option::None,
                };
                let mut params: Vec<Node> = Vec::new();
                let mut i: usize = 0;
                while i < rt.params.len()
                    invariant
                        i <= rt.params.len(),
                        params@.len() == i,
                        forall|j: int|
                            0 <= j < i ==> node_eq(#[trigger] params@[j], rt.params@[j])
                                && params@[j].loc == rt.params@[j].loc,
                    decreases rt.params.len() - i,
                {
                    proof {
                        assert(decreases_to!(*self => self->Routine_0));
                        assert(decreases_to!(rt.params => rt.params@[i as int]));
                    }
                    let p = &rt.params[i];
                    params.push(Node { val: p.val.clone(), loc: p.loc.clone() });
                    i += 1;
                }
                proof {
                    assert(decreases_to!(*self => self->Routine_0));
                }
                let body_val = rt.body.val.clone();
                let body_loc = rt.body.loc.clone();
                Val::Routine(
                    RoutineObj {
                        name,
                        params,
                        body: Box::new(Node { val: body_val, loc: body_loc }),
                        lexical_env: rt.lexical_env,
                        routine_type: rt.routine_type,
                    },
                )
            },
            Val::Primitive(p) => Val::Primitive(
                PrimitiveObj {
                    name: p.name.clone(),
                    op: p.op,
                    min_arity: p.min_arity,
                    max_arity: p.max_arity,
                },
            ),
            Val::List(children) => {
                let mut out: Vec<Node> = Vec::new();
                let mut i: usize = 0;
                while i < children.len()
                    invariant
                        i <= children.len(),
                        out@.len() == i,
                        forall|j: int|
                            0 <= j < i ==> node_eq(#[trigger] out@[j], children@[j])
                                && out@[j].loc == children@[j].loc,
                    decreases children.len() - i,
                {
                    proof {
                        assert(decreases_to!(*self => self->List_0));
                        assert(decreases_to!(*children => children@[i as int]));
                    }
                    let c = &children[i];
                    out.push(Node { val: c.val.clone(), loc: c.loc.clone() });
                    i += 1;
                }
                Val::List(out)
            },
            Val::Writer(w) => Val::Writer(*w),
            Val::Reader(r) => Val::Reader(*r),
            Val::Environment(e) => Val::Environment(*e),
            Val::Cell(c) => Val::Cell(*c),
        }
    }
}

impl Clone for Node {
    /// A deep copy: same location, and a value equal under `val_eq`.
    fn clone(&self) -> (r: Self)
        ensures
            node_eq(r, *self),
            r.loc == self.loc,
    {
        Node { val: self.val.clone(), loc: self.loc.clone() }
    }
}

impl Node {
    pub fn new(val: Val, loc: Loc) -> (r: Self)
        ensures
            r == (Node { val, loc }),
    {
        Node { val, loc }
    }

    /// The truthiness rule: only absence and boolean false are falsy; every
    /// other value, numeric zero included, is truthy.
    pub fn as_host_boolean(&self) -> (r: Result<bool, RuntimeError>)
        ensures
            r == Ok::<bool, RuntimeError>(
                match self.val {
                    Val::Nil => false,
                    Val::Boolean(b) => b,
                    _ => true,
                },
            ),
    {
        match self.val {
            Val::Nil => Ok(false),
            Val::Boolean(b) => Ok(b),
            _ => Ok(true),
        }
    }

    /// Extracts the host integer of a number node; any other kind is an
    /// unexpected-value error carrying this node's value and position.
    pub fn as_host_number(&self) -> (r: Result<i32, RuntimeError>)
        ensures
            match self.val {
                Val::Number(n) => r == Ok::<i32, RuntimeError>(n),
                _ => (match r {
                    Result::Err(RuntimeError::UnexpectedValue(ex, v, l)) => {
                        &&& ex@ == "number"@
                        &&& val_eq(v, self.val)
                        &&& l == self.loc
                    },
                    _ => false,
                }),
            },
    {
        match self.val {
            Val::Number(i) => Ok(i),
            _ => Err(
                RuntimeError::UnexpectedValue(
                    String::from_str("number"),
                    self.val.clone(),
                    self.loc.clone(),
                ),
            ),
        }
    }
}

impl Val {
    /// The name of a value's kind, as programs see it.
    pub fn kind_name(&self) -> (r: Result<String, RuntimeError>)
        ensures
            match r {
                Result::Ok(s) => s@ == kind_name_spec(*self),
                Result::Err(_) => false,
            },
    {
        let out = match self {
            Val::Nil => "nil",
            Val::Error(..) => "error",
            Val::Number(..) => "number",
            Val::StringVal(..) => "string",
            Val::Character(..) => "char",
            Val::Symbol(..) => "symbol",
            Val::List(..) => "list",
            Val::Boolean(..) => "boolean",
            Val::Routine(..) => "function",
            Val::Primitive(..) => "primitive",
            Val::Writer(..) => "writer",
            Val::Reader(..) => "reader",
            Val::Environment(..) => "environment",
            Val::Cell(..) => "cell",
        };
        Ok(String::from_str(out))
    }
}

/// What `kind_name` answers for each kind of value.
pub open spec fn kind_name_spec(v: Val) -> Seq<char> {
    match v {
        Val::Nil => "nil"@,
        Val::Error(..) => "error"@,
        Val::Number(..) => "number"@,
        Val::StringVal(..) => "string"@,
        Val::Character(..) => "char"@,
        Val::Symbol(..) => "symbol"@,
        Val::List(..) => "list"@,
        Val::Boolean(..) => "boolean"@,
        Val::Routine(..) => "function"@,
        Val::Primitive(..) => "primitive"@,
        Val::Writer(..) => "writer"@,
        Val::Reader(..) => "reader"@,
        Val::Environment(..) => "environment"@,
        Val::Cell(..) => "cell"@,
    }
}


/// The character of one decimal digit.
pub open spec fn digit_char(d: int) -> char {
    if d == 0 {
        '0'
    } else if d == 1 {
        '1'
    } else if d == 2 {
        '2'
    } else if d == 3 {
        '3'
    } else if d == 4 {
        '4'
    } else if d == 5 {
        '5'
    } else if d == 6 {
        '6'
    } else if d == 7 {
        '7'
    } else if d == 8 {
        '8'
    } else {
        '9'
    }
}

/// The decimal digits of a non-negative integer, most significant first.
pub open spec fn dec_str(n: int) -> Seq<char>
    decreases n,
{
    if n < 10 {
        seq![digit_char(n)]
    } else {
        dec_str(n / 10).push(digit_char(n % 10))
    }
}

/// The decimal rendering of an integer, with a leading minus when negative.
pub open spec fn int_str(n: int) -> Seq<char> {
    if n < 0 {
        seq!['-'] + dec_str(-n)
    } else {
        dec_str(n)
    }
}

/// The space-separated rendering of the first `i` nodes of a list.
pub open spec fn nodes_display(cs: Seq<Node>, i: int) -> Seq<char>
    decreases cs, i,
        when i <= cs.len()
        via nodes_display_decreases
{
    if i <= 0 {
        Seq::<char>::empty()
    } else if i == 1 {
        val_display(cs[0].val)
    } else {
        nodes_display(cs, i - 1) + seq![' '] + val_display(cs[i - 1].val)
    }
}

#[via_fn]
proof fn nodes_display_decreases(cs: Seq<Node>, i: int) {
    if 0 < i <= cs.len() {
        let j: int = if i == 1 {
            0
        } else {
            i - 1
        };
        assert(decreases_to!(cs => cs[j]));
        assert(decreases_to!(cs[j] => cs[j].val));
    }
}

/// The source-like rendering of a value: numbers as digits, strings quoted,
/// lists parenthesized and space-separated, the opaque kinds by their tags.
pub open spec fn val_display(v: Val) -> Seq<char>
    decreases v, 0int,
    via val_display_decreases
{
    match v {
        Val::Nil => "nil"@,
        Val::Error(s) => "#error<"@ + s@ + ">"@,
        Val::Number(n) => int_str(n as int),
        Val::StringVal(s) => seq!['"'] + s@ + seq!['"'],
        Val::Character(s) => if s@ == "\n"@ {
            "\\newline"@
        } else {
            "\\"@ + s@
        },
        Val::Symbol(s) => s@,
        Val::Boolean(b) => if b {
            "true"@
        } else {
            "false"@
        },
        Val::Routine(rt) => match rt.routine_type {
            RoutineType::Function => match rt.name {
                Option::None => "#function"@,
                Option::Some(s) => "#function<"@ + s@ + ">"@,
            },
            RoutineType::Macro => match rt.name {
                Option::None => "#macro"@,
                Option::Some(s) => "#macro["@ + s@ + "]"@,
            },
        },
        Val::Primitive(p) => "#primitive<"@ + p.name@ + ">"@,
        Val::List(children) => "("@ + nodes_display(children@, children@.len() as int) + ")"@,
        Val::Writer(..) => "#writer"@,
        Val::Reader(..) => "#reader"@,
        Val::Environment(..) => "#environment"@,
        Val::Cell(..) => "#cell"@,
    }
}

#[via_fn]
proof fn val_display_decreases(v: Val) {
    match v {
        Val::List(children) => {
            assert(decreases_to!(v => v->List_0));
            assert(decreases_to!(v->List_0 => children@));
        },
        _ => {},
    }
}

/// What a value shows as plain output: strings and characters bare, every
/// other kind as its source-like rendering.
pub open spec fn print_friendly(v: Val) -> Seq<char> {
    match v {
        Val::StringVal(s) => s@,
        Val::Character(s) => s@,
        _ => val_display(v),
    }
}

/// The string of one decimal digit.
pub(crate) fn digit_string(d: u64) -> (s: String)
    requires
        d < 10,
    ensures
        s@ == seq![digit_char(d as int)],
{
    let s = match d {
        0 => {
            proof {
                reveal_strlit("0");
            }
            String::from_str("0")
        },
        1 => {
            proof {
                reveal_strlit("1");
            }
            String::from_str("1")
        },
        2 => {
            proof {
                reveal_strlit("2");
            }
            String::from_str("2")
        },
        3 => {
            proof {
                reveal_strlit("3");
            }
            String::from_str("3")
        },
        4 => {
            proof {
                reveal_strlit("4");
            }
            String::from_str("4")
        },
        5 => {
            proof {
                reveal_strlit("5");
            }
            String::from_str("5")
        },
        6 => {
            proof {
                reveal_strlit("6");
            }
            String::from_str("6")
        },
        7 => {
            proof {
                reveal_strlit("7");
            }
            String::from_str("7")
        },
        8 => {
            proof {
                reveal_strlit("8");
            }
            String::from_str("8")
        },
        _ => {
            proof {
                reveal_strlit("9");
            }
            String::from_str("9")
        },
    };
    proof {
        assert(s@ =~= seq![digit_char(d as int)]);
    }
    s
}

/// The decimal digits of a non-negative integer.
pub(crate) fn dec_string(m: u64) -> (s: String)
    ensures
        s@ == dec_str(m as int),
    decreases m,
{
    if m < 10 {
        digit_string(m)
    } else {
        let mut s = dec_string(m / 10);
        let d = digit_string(m % 10);
        s.append(d.as_str());
        proof {
            assert(s@ =~= dec_str((m / 10) as int).push(digit_char((m % 10) as int)));
        }
        s
    }
}

/// The decimal rendering of an integer.
pub(crate) fn int_string(n: i64) -> (s: String)
    ensures
        s@ == int_str(n as int),
{
    if n >= 0 {
        dec_string(n as u64)
    } else {
        let m: u64 = ((-(n + 1)) as u64) + 1;
        proof {
            assert(m as int == -(n as int));
        }
        let mut s = String::from_str("-");
        let d = dec_string(m);
        s.append(d.as_str());
        proof {
            assert("-"@ =~= seq!['-']) by {
                reveal_strlit("-");
            }
            assert(s@ =~= seq!['-'] + dec_str(m as int));
        }
        s
    }
}

impl Val {
    /// Renders this value as source-like text, as the driver shows it.
    #[verifier::loop_isolation(false)]
    pub fn display(&self) -> (r: String)
        ensures
            r@ == val_display(*self),
        decreases self,
    {
        match self {
            Val::Nil => String::from_str("nil"),
            Val::Error(s) => {
                let mut out = String::from_str("#error<");
                out.append(s.as_str());
                out.append(">");
                proof {
                    assert(out@ =~= "#error<"@ + s@ + ">"@);
                }
                out
            },
            Val::Number(n) => int_string(*n as i64),
            Val::StringVal(s) => {
                let mut out = String::from_str("\"");
                out.append(s.as_str());
                out.append("\"");
                proof {
                    assert("\""@ =~= seq!['"']) by {
                        reveal_strlit("\"");
                    }
                    assert(out@ =~= seq!['"'] + s@ + seq!['"']);
                }
                out
            },
            Val::Character(s) => {
                if crate::str_eq(s.as_str(), "\n") {
                    String::from_str("\\newline")
                } else {
                    let mut out = String::from_str("\\");
                    out.append(s.as_str());
                    proof {
                        assert(out@ =~= "\\"@ + s@);
                    }
                    out
                }
            },
            Val::Symbol(s) => s.clone(),
            Val::Boolean(b) => {
                if *b {
                    String::from_str("true")
                } else {
                    String::from_str("false")
                }
            },
            Val::Routine(rt) => {
                let (open_tag, close_tag): (&str, &str) = match (&rt.routine_type, &rt.name) {
                    (RoutineType::Function, Option::None) => ("#function", ""),
                    (RoutineType::Function, Option::Some(..)) => ("#function<", ">"),
                    (RoutineType::Macro, Option::None) => ("#macro", ""),
                    (RoutineType::Macro, Option::Some(..)) => ("#macro[", "]"),
                };
                let mut out = String::from_str(open_tag);
                match &rt.name {
                    Option::Some(s) => {
                        out.append(s.as_str());
                        out.append(close_tag);
                    },
                    Option::None => {},
                }
                proof {
                    assert(out@ =~= val_display(*self));
                }
                out
            },
            Val::Primitive(p) => {
                let mut out = String::from_str("#primitive<");
                out.append(p.name.as_str());
                out.append(">");
                proof {
                    assert(out@ =~= "#primitive<"@ + p.name@ + ">"@);
                }
                out
            },
            Val::List(children) => {
                let mut out = String::from_str("(");
                let mut i: usize = 0;
                while i < children.len()
                    invariant
                        i <= children.len(),
                        out@ == "("@ + nodes_display(children@, i as int),
                    decreases children.len() - i,
                {
                    proof {
                        assert(decreases_to!(*self => self->List_0));
                        assert(decreases_to!(*children => children@[i as int]));
                    }
                    if i > 0 {
                        out.append(" ");
                        proof {
                            assert(" "@ =~= seq![' ']) by {
                                reveal_strlit(" ");
                            }
                        }
                    }
                    let child = children[i].val.display();
                    out.append(child.as_str());
                    proof {
                        assert(out@ =~= "("@ + nodes_display(children@, i as int + 1));
                    }
                    i += 1;
                }
                out.append(")");
                proof {
                    assert(out@ =~= "("@ + nodes_display(children@, children@.len() as int)
                        + ")"@);
                }
                out
            },
            Val::Writer(..) => String::from_str("#writer"),
            Val::Reader(..) => String::from_str("#reader"),
            Val::Environment(..) => String::from_str("#environment"),
            Val::Cell(..) => String::from_str("#cell"),
        }
    }
}


/// Relies on `String::push`: appends exactly the one given character to the
/// end of the string.
#[verifier::external_body]
fn push_char(s: &mut String, c: char)
    ensures
        final(s)@ == old(s)@.push(c),
{
    s.push(c);
}

impl Node {
    /// Renders this node for plain output: strings and characters appear
    /// bare, everything else as its source-like rendering.
    pub fn as_print_friendly_string(&self) -> (r: String)
        ensures
            r@ == print_friendly(self.val),
    {
        match &self.val {
            Val::StringVal(s) => s.clone(),
            Val::Character(s) => s.clone(),
            _ => self.val.display(),
        }
    }

    /// The number of elements of a collection: characters of a string, nodes
    /// of a list; absence counts as empty.  Any other kind is an error
    /// carrying the value and this node's position.
    pub fn coll_len(self) -> (r: Result<usize, RuntimeError>)
        ensures
            match self.val {
                Val::Nil => r == Ok::<usize, RuntimeError>(0usize),
                Val::StringVal(s) => (r matches Ok(n) && n == s@.len()),
                Val::List(c) => (r matches Ok(n) && n == c@.len()),
                _ => (r matches Err(RuntimeError::CannotGetLengthOfNonCollection(v, l)) && v
                    == self.val && l == self.loc),
            },
    {
        match self.val {
            Val::Nil => Ok(0),
            Val::StringVal(s) => Ok(s.as_str().unicode_len()),
            Val::List(children) => Ok(children.len()),
            v => Err(RuntimeError::CannotGetLengthOfNonCollection(v, self.loc)),
        }
    }

    /// Prepends an element: onto absence, a one-element list; onto a string,
    /// a character in front of it; onto a list, a new head.  Anything else -
    /// a non-collection target, a non-character onto a string - is an error.
    pub fn coll_cons(self, elem: Node) -> (r: Result<Node, RuntimeError>)
        ensures
            match self.val {
                Val::Nil => {
                    &&& r matches Ok(n)
                    &&& n.loc == self.loc
                    &&& n.val matches Val::List(c)
                    &&& c@ == seq![elem]
                },
                Val::StringVal(s) => (match elem.val {
                    Val::Character(c) => {
                        &&& r matches Ok(n)
                        &&& n.loc == elem.loc
                        &&& n.val matches Val::StringVal(o)
                        &&& o@ == c@ + s@
                    },
                    _ => (r matches Err(RuntimeError::CannotConsNonCharacterOntoString(v, l)) && v
                        == elem.val && l == elem.loc),
                }),
                Val::List(c) => {
                    &&& r matches Ok(n)
                    &&& n.loc == self.loc
                    &&& n.val matches Val::List(c2)
                    &&& c2@ == seq![elem] + c@
                },
                _ => (r matches Err(RuntimeError::CannotConsOntoNonCollection(v, l)) && v
                    == self.val && l == self.loc),
            },
    {
        let loc = self.loc;
        match self.val {
            Val::Nil => {
                let mut children: Vec<Node> = Vec::new();
                children.push(elem);
                proof {
                    assert(children@ =~= seq![children@[0]]);
                }
                Ok(Node::new(Val::List(children), loc))
            },
            Val::StringVal(s) => {
                let elem_loc = elem.loc;
                match elem.val {
                    Val::Character(c) => {
                        let mut out = c;
                        out.append(s.as_str());
                        Ok(Node::new(Val::StringVal(out), elem_loc))
                    },
                    v => Err(RuntimeError::CannotConsNonCharacterOntoString(v, elem_loc)),
                }
            },
            Val::List(mut children) => {
                let ghost pre = children@;
                children.insert(0, elem);
                proof {
                    assert(children@ =~= seq![children@[0]] + pre);
                }
                Ok(Node::new(Val::List(children), loc))
            },
            v => Err(RuntimeError::CannotConsOntoNonCollection(v, loc)),
        }
    }

    /// The elements of a collection, as nodes: absence has none, a string
    /// has one character node per character (each at this node's position),
    /// a list has its children.
    fn coll_children(self) -> (r: Result<Vec<Node>, RuntimeError>)
        ensures
            match self.val {
                Val::Nil => (r matches Ok(c) && c@.len() == 0),
                Val::StringVal(s) => (r matches Ok(c) && c@.len() == s@.len() && forall|i: int|
                    0 <= i < s@.len() ==> (#[trigger] c@[i]).loc == self.loc && (c@[i].val matches
                        Val::Character(ch) && ch@ == seq![s@[i]])),
                Val::List(cs) => r == Ok::<Vec<Node>, RuntimeError>(cs),
                _ => (r matches Err(RuntimeError::CannotGetChildrenOfNonCollection(op, v, l))
                    && op@ == "append"@ && v == self.val && l == self.loc),
            },
    {
        let loc = self.loc;
        match self.val {
            Val::Nil => Ok(Vec::new()),
            Val::StringVal(s) => {
                let n = s.as_str().unicode_len();
                let mut out: Vec<Node> = Vec::new();
                let mut i: usize = 0;
                while i < n
                    invariant
                        i <= n,
                        n == s@.len(),
                        out@.len() == i,
                        forall|j: int|
                            0 <= j < i ==> (#[trigger] out@[j]).loc == loc && (out@[j].val matches
                                Val::Character(ch) && ch@ == seq![s@[j]]),
                    decreases n - i,
                {
                    let ch = s.as_str().get_char(i);
                    let mut cs = String::new();
                    push_char(&mut cs, ch);
                    proof {
                        assert(cs@ =~= seq![s@[i as int]]);
                    }
                    out.push(Node::new(Val::Character(cs), loc.clone()));
                    i += 1;
                }
                Ok(out)
            },
            Val::List(children) => Ok(children),
            v => Err(
                RuntimeError::CannotGetChildrenOfNonCollection(
                    String::from_str("append"),
                    v,
                    loc,
                ),
            ),
        }
    }

    /// Appends a collection onto this one: absence takes the other value
    /// whole; a string takes the other's plain rendering; a list takes the
    /// other's elements.  A non-collection on the left is an error; on the
    /// right of a list, the children error.
    pub fn coll_append(self, other: Node) -> (r: Result<Node, RuntimeError>)
        ensures
            match self.val {
                Val::Nil => r == Ok::<Node, RuntimeError>(other),
                Val::StringVal(s) => {
                    &&& r matches Ok(n)
                    &&& n.loc == self.loc
                    &&& n.val matches Val::StringVal(o)
                    &&& o@ == s@ + print_friendly(other.val)
                },
                Val::List(c) => (match other.val {
                    Val::Nil => {
                        &&& r matches Ok(n)
                        &&& n.loc == self.loc
                        &&& n.val matches Val::List(c2)
                        &&& c2@ == c@
                    },
                    Val::StringVal(s) => {
                        &&& r matches Ok(n)
                        &&& n.loc == self.loc
                        &&& n.val matches Val::List(c2)
                        &&& c2@.len() == c@.len() + s@.len()
                        &&& forall|i: int| 0 <= i < c@.len() ==> #[trigger] c2@[i] == c@[i]
                        &&& forall|i: int|
                            c@.len() <= i < c2@.len() ==> (#[trigger] c2@[i]).loc == other.loc
                                && (c2@[i].val matches Val::Character(ch) && ch@ == seq![
                                s@[i - c@.len()],
                            ])
                    },
                    Val::List(cs) => {
                        &&& r matches Ok(n)
                        &&& n.loc == self.loc
                        &&& n.val matches Val::List(c2)
                        &&& c2@ == c@ + cs@
                    },
                    _ => (r matches Err(RuntimeError::CannotGetChildrenOfNonCollection(op, v, l))
                        && op@ == "append"@ && v == other.val && l == other.loc),
                }),
                _ => (r matches Err(RuntimeError::CannotAppendOnto(v, l)) && v == self.val && l
                    == self.loc),
            },
    {
        match self.val {
            Val::Nil => Ok(other),
            Val::StringVal(s) => {
                let mut out = s;
                let tail = other.as_print_friendly_string();
                out.append(tail.as_str());
                Ok(Node::new(Val::StringVal(out), self.loc))
            },
            Val::List(mut children) => {
                let ghost pre = children@;
                let mut other_children = match other.coll_children() {
                    Ok(c) => c,
                    Err(e) => {
                        return Err(e);
                    },
                };
                let ghost oc = other_children@;
                children.append(&mut other_children);
                proof {
                    assert(children@ =~= pre + oc);
                }
                Ok(Node::new(Val::List(children), self.loc))
            },
            v => Err(RuntimeError::CannotAppendOnto(v, self.loc)),
        }
    }
}

impl CellObj {
    /// Allocates a fresh cell slot holding `n` and answers the handle that
    /// every holder shares.
    pub fn new(env: &mut Env, n: Node) -> (c: CellObj)
        ensures
            final(env).cells@ == old(env).cells@.push(n),
            final(env).scopes@ == old(env).scopes@,
            c.index == old(env).cells@.len(),
    {
        let idx = env.cells.len();
        env.cells.push(n);
        CellObj { index: idx }
    }
}


impl PartialEq for Val {
    /// The value model's equality: structural, strings by their characters,
    /// environments and cells by the identity of their arena slot.
    #[verifier::loop_isolation(false)]
    fn eq(&self, other: &Val) -> (r: bool)
        decreases self,
    {
        match (self, other) {
            (Val::Nil, Val::Nil) => true,
            (Val::Error(x), Val::Error(y)) => crate::str_eq(x.as_str(), y.as_str()),
            (Val::Number(x), Val::Number(y)) => x == y,
            (Val::Character(x), Val::Character(y)) => crate::str_eq(x.as_str(), y.as_str()),
            (Val::StringVal(x), Val::StringVal(y)) => crate::str_eq(x.as_str(), y.as_str()),
            (Val::Symbol(x), Val::Symbol(y)) => crate::str_eq(x.as_str(), y.as_str()),
            (Val::Boolean(x), Val::Boolean(y)) => x == y,
            (Val::Routine(x), Val::Routine(y)) => {
                let names_equal = match (&x.name, &y.name) {
                    (Option::None, Option::None) => true,
                    (Option::Some(a), Option::Some(b)) => crate::str_eq(a.as_str(), b.as_str()),
                    _ => false,
                };
                let types_equal = match (&x.routine_type, &y.routine_type) {
                    (RoutineType::Function, RoutineType::Function) => true,
                    (RoutineType::Macro, RoutineType::Macro) => true,
                    _ => false,
                };
                if !names_equal || !types_equal || x.lexical_env != y.lexical_env
                    || x.params.len() != y.params.len() {
                    return false;
                }
                let mut i: usize = 0;
                while i < x.params.len()
                    invariant
                        i <= x.params.len(),
                        forall|j: int|
                            0 <= j < i ==> val_eq((#[trigger] x.params@[j]).val, y.params@[j].val),
                    decreases x.params.len() - i,
                {
                    proof {
                        assert(decreases_to!(*self => self->Routine_0));
                        assert(decreases_to!(x.params => x.params@[i as int]));
                    }
                    if !x.params[i].val.eq(&y.params[i].val) {
                        return false;
                    }
                    i += 1;
                }
                proof {
                    assert(decreases_to!(*self => self->Routine_0));
                }
                x.body.val.eq(&y.body.val)
            },
            (Val::Primitive(x), Val::Primitive(y)) => {
                let ops_equal = match (&x.op, &y.op) {
                    (PrimitiveOp::Len, PrimitiveOp::Len) => true,
                    (PrimitiveOp::Cons, PrimitiveOp::Cons) => true,
                    (PrimitiveOp::Append, PrimitiveOp::Append) => true,
                    _ => false,
                };
                crate::str_eq(x.name.as_str(), y.name.as_str()) && ops_equal && x.min_arity
                    == y.min_arity && x.max_arity == y.max_arity
            },
            (Val::List(x), Val::List(y)) => {
                if x.len() != y.len() {
                    return false;
                }
                let mut i: usize = 0;
                while i < x.len()
                    invariant
                        i <= x.len(),
                        forall|j: int| 0 <= j < i ==> val_eq((#[trigger] x@[j]).val, y@[j].val),
                    decreases x.len() - i,
                {
                    proof {
                        assert(decreases_to!(*self => self->List_0));
                        assert(decreases_to!(*x => x@[i as int]));
                    }
                    if !x[i].val.eq(&y[i].val) {
                        return false;
                    }
                    i += 1;
                }
                true
            },
            (Val::Writer(x), Val::Writer(y)) => match (x, y) {
                (WriterObj::Sink, WriterObj::Sink) => true,
                (WriterObj::Standard, WriterObj::Standard) => true,
                (WriterObj::Buffer(a), WriterObj::Buffer(b)) => a == b,
                _ => false,
            },
            (Val::Reader(x), Val::Reader(y)) => x.handle == y.handle,
            (Val::Environment(x), Val::Environment(y)) => x == y,
            (Val::Cell(x), Val::Cell(y)) => x.index == y.index,
            _ => false,
        }
    }
}

impl vstd::std_specs::cmp::PartialEqSpecImpl for Val {
    open spec fn obeys_eq_spec() -> bool {
        true
    }

    open spec fn eq_spec(&self, other: &Val) -> bool {
        val_eq(*self, *other)
    }
}

impl PartialEq for Node {
    /// Two nodes are equal exactly when their values are: the position is
    /// metadata and never takes part.
    fn eq(&self, other: &Node) -> (r: bool) {
        self.val.eq(&other.val)
    }
}

impl vstd::std_specs::cmp::PartialEqSpecImpl for Node {
    open spec fn obeys_eq_spec() -> bool {
        true
    }

    open spec fn eq_spec(&self, other: &Node) -> bool {
        node_eq(*self, *other)
    }
}

impl PartialOrd for Val {
    /// Only numbers are ordered; any other pairing has no order.
    fn partial_cmp(&self, other: &Val) -> (r: Option<core::cmp::Ordering>) {
        match (self, other) {
            (Val::Number(a), Val::Number(b)) => {
                if a < b {
                    Some(core::cmp::Ordering::Less)
                } else if a == b {
                    Some(core::cmp::Ordering::Equal)
                } else {
                    Some(core::cmp::Ordering::Greater)
                }
            },
            _ => None,
        }
    }
}

impl vstd::std_specs::cmp::PartialOrdSpecImpl for Val {
    open spec fn obeys_partial_cmp_spec() -> bool {
        true
    }

    open spec fn partial_cmp_spec(&self, other: &Val) -> Option<core::cmp::Ordering> {
        match (*self, *other) {
            (Val::Number(a), Val::Number(b)) => if a < b {
                Some(core::cmp::Ordering::Less)
            } else if a == b {
                Some(core::cmp::Ordering::Equal)
            } else {
                Some(core::cmp::Ordering::Greater)
            },
            _ => None,
        }
    }
}

} // verus!
