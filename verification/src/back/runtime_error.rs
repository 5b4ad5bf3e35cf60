use crate::ast::{int_str, val_display, Val};
use crate::loc::Loc;
use crate::ast::Node;
use vstd::prelude::*;

verus! {

/// The closed set of failure kinds.  Every failure is an ordinary value
/// carrying a source position; nothing in the core aborts the process.
/// The depth kind stands in for the host call stack that unbounded
/// recursion would otherwise exhaust: the evaluator carries an explicit
/// depth bound and reports its exhaustion instead of overflowing.
#[derive(Debug, PartialEq)]
pub enum RuntimeError {
    UndefinedName(String, Loc),
    CannotUpdateUndefinedName(String, Loc),
    CannotEvalEmptyList(Loc),
    UnableToEvalValue(Val, Loc),
    UnableToEvalListStartingWith(String, Loc),
    ProcArgsDoNotMatchParams(String, Loc),
    NotEnoughArgs(String, isize, usize, Loc),
    TooManyArgs(String, isize, usize, Loc),
    UnexpectedValue(String, Val, Loc),
    CannotGetLengthOfNonCollection(Val, Loc),
    CannotConsOntoNonCollection(Val, Loc),
    CannotConsNonCharacterOntoString(Val, Loc),
    CannotGetChildrenOfNonCollection(String, Val, Loc),
    CannotAppendOnto(Val, Loc),
    InvalidInternalState(String, Loc),
    RecursionDepthExceeded(Loc),
}

impl RuntimeError {
    /// The source position the failure carries.
    pub open spec fn loc_spec(self) -> Loc {
        match self {
            RuntimeError::UndefinedName(_, l) => l,
            RuntimeError::CannotUpdateUndefinedName(_, l) => l,
            RuntimeError::CannotEvalEmptyList(l) => l,
            RuntimeError::UnableToEvalValue(_, l) => l,
            RuntimeError::UnableToEvalListStartingWith(_, l) => l,
            RuntimeError::ProcArgsDoNotMatchParams(_, l) => l,
            RuntimeError::NotEnoughArgs(_, _, _, l) => l,
            RuntimeError::TooManyArgs(_, _, _, l) => l,
            RuntimeError::UnexpectedValue(_, _, l) => l,
            RuntimeError::CannotGetLengthOfNonCollection(_, l) => l,
            RuntimeError::CannotConsOntoNonCollection(_, l) => l,
            RuntimeError::CannotConsNonCharacterOntoString(_, l) => l,
            RuntimeError::CannotGetChildrenOfNonCollection(_, _, l) => l,
            RuntimeError::CannotAppendOnto(_, l) => l,
            RuntimeError::InvalidInternalState(_, l) => l,
            RuntimeError::RecursionDepthExceeded(l) => l,
        }
    }

    pub fn loc(&self) -> (r: Loc)
        ensures
            r == self.loc_spec(),
    {
        match self {
            RuntimeError::UndefinedName(_, l) => l.clone(),
            RuntimeError::CannotUpdateUndefinedName(_, l) => l.clone(),
            RuntimeError::CannotEvalEmptyList(l) => l.clone(),
            RuntimeError::UnableToEvalValue(_, l) => l.clone(),
            RuntimeError::UnableToEvalListStartingWith(_, l) => l.clone(),
            RuntimeError::ProcArgsDoNotMatchParams(_, l) => l.clone(),
            RuntimeError::NotEnoughArgs(_, _, _, l) => l.clone(),
            RuntimeError::TooManyArgs(_, _, _, l) => l.clone(),
            RuntimeError::UnexpectedValue(_, _, l) => l.clone(),
            RuntimeError::CannotGetLengthOfNonCollection(_, l) => l.clone(),
            RuntimeError::CannotConsOntoNonCollection(_, l) => l.clone(),
            RuntimeError::CannotConsNonCharacterOntoString(_, l) => l.clone(),
            RuntimeError::CannotGetChildrenOfNonCollection(_, _, l) => l.clone(),
            RuntimeError::CannotAppendOnto(_, l) => l.clone(),
            RuntimeError::InvalidInternalState(_, l) => l.clone(),
            RuntimeError::RecursionDepthExceeded(l) => l.clone(),
        }
    }
}

/// Validates an argument count against a form's inclusive arity bounds,
/// checked before any argument is evaluated.  A negative `max_args` means
/// unbounded.  The error names the form, the violated bound, and the actual
/// count.
pub fn check_args(
    name: &str,
    loc: &Loc,
    args: &Vec<Node>,
    min_args: isize,
    max_args: isize,
) -> (r: Result<(), RuntimeError>)
    ensures
        match r {
            Result::Ok(_) => {
                &&& min_args <= args@.len() as int
                &&& (max_args >= 0 ==> args@.len() as int <= max_args)
            },
            Result::Err(e) => match e {
                RuntimeError::NotEnoughArgs(nm, mn, act, l) => {
                    &&& (args@.len() as int) < min_args
                    &&& nm@ == name@
                    &&& mn == min_args
                    &&& act == args@.len()
                    &&& l == *loc
                },
                RuntimeError::TooManyArgs(nm, mx, act, l) => {
                    &&& min_args <= args@.len() as int
                    &&& 0 <= max_args
                    &&& (args@.len() as int) > max_args
                    &&& nm@ == name@
                    &&& mx == max_args
                    &&& act == args@.len()
                    &&& l == *loc
                },
                _ => false,
            },
        },
{
    let n = args.len();
    if min_args > 0 && n < min_args as usize {
        return Err(
            RuntimeError::NotEnoughArgs(String::from_str(name), min_args, n, loc.clone()),
        );
    }
    if max_args >= 0 && n > max_args as usize {
        return Err(
            RuntimeError::TooManyArgs(String::from_str(name), max_args, n, loc.clone()),
        );
    }
    Ok(())
}


/// The human-readable message of each failure kind.
pub open spec fn err_msg(e: RuntimeError) -> Seq<char> {
    match e {
        RuntimeError::UndefinedName(n, _) => "undefined name: "@ + n@,
        RuntimeError::CannotUpdateUndefinedName(n, _) => "cannot update undefined name: "@ + n@,
        RuntimeError::CannotEvalEmptyList(_) => "cannot evaluate an empty list"@,
        RuntimeError::UnableToEvalValue(v, _) => "cannot evaluate value: "@ + val_display(v),
        RuntimeError::UnableToEvalListStartingWith(s, _) => "cannot call value: "@ + s@,
        RuntimeError::ProcArgsDoNotMatchParams(s, _) => "arguments do not match parameters: "@
            + s@,
        RuntimeError::NotEnoughArgs(n, mn, act, _) => "not enough arguments to "@ + n@
            + ": expected at least "@ + int_str(mn as int) + ", got "@ + int_str(act as int),
        RuntimeError::TooManyArgs(n, mx, act, _) => "too many arguments to "@ + n@
            + ": expected at most "@ + int_str(mx as int) + ", got "@ + int_str(act as int),
        RuntimeError::UnexpectedValue(ex, v, _) => "expected "@ + ex@ + ", got: "@ + val_display(
            v,
        ),
        RuntimeError::CannotGetLengthOfNonCollection(v, _) => "cannot get length of: "@
            + val_display(v),
        RuntimeError::CannotConsOntoNonCollection(v, _) => "cannot cons onto: "@ + val_display(v),
        RuntimeError::CannotConsNonCharacterOntoString(v, _) => (
        "cannot cons a non-character onto a string: "@ + val_display(v)),
        RuntimeError::CannotGetChildrenOfNonCollection(op, v, _) => "cannot get children in "@
            + op@ + " of: "@ + val_display(v),
        RuntimeError::CannotAppendOnto(v, _) => "cannot append onto: "@ + val_display(v),
        RuntimeError::InvalidInternalState(s, _) => "invalid internal state: "@ + s@,
        RuntimeError::RecursionDepthExceeded(_) => "maximum evaluation depth exceeded"@,
    }
}

impl RuntimeError {
    /// Renders this failure's message, without its position.
    pub fn display(&self) -> (r: String)
        ensures
            r@ == err_msg(*self),
    {
        let mut out: String;
        match self {
            RuntimeError::UndefinedName(n, _) => {
                out = String::from_str("undefined name: ");
                out.append(n.as_str());
            },
            RuntimeError::CannotUpdateUndefinedName(n, _) => {
                out = String::from_str("cannot update undefined name: ");
                out.append(n.as_str());
            },
            RuntimeError::CannotEvalEmptyList(_) => {
                out = String::from_str("cannot evaluate an empty list");
            },
            RuntimeError::UnableToEvalValue(v, _) => {
                out = String::from_str("cannot evaluate value: ");
                let d = v.display();
                out.append(d.as_str());
            },
            RuntimeError::UnableToEvalListStartingWith(s, _) => {
                out = String::from_str("cannot call value: ");
                out.append(s.as_str());
            },
            RuntimeError::ProcArgsDoNotMatchParams(s, _) => {
                out = String::from_str("arguments do not match parameters: ");
                out.append(s.as_str());
            },
            RuntimeError::NotEnoughArgs(n, mn, act, _) => {
                out = String::from_str("not enough arguments to ");
                out.append(n.as_str());
                out.append(": expected at least ");
                let m = crate::ast::int_string(*mn as i64);
                out.append(m.as_str());
                out.append(", got ");
                let a = crate::ast::dec_string(*act as u64);
                out.append(a.as_str());
            },
            RuntimeError::TooManyArgs(n, mx, act, _) => {
                out = String::from_str("too many arguments to ");
                out.append(n.as_str());
                out.append(": expected at most ");
                let m = crate::ast::int_string(*mx as i64);
                out.append(m.as_str());
                out.append(", got ");
                let a = crate::ast::dec_string(*act as u64);
                out.append(a.as_str());
            },
            RuntimeError::UnexpectedValue(ex, v, _) => {
                out = String::from_str("expected ");
                out.append(ex.as_str());
                out.append(", got: ");
                let d = v.display();
                out.append(d.as_str());
            },
            RuntimeError::CannotGetLengthOfNonCollection(v, _) => {
                out = String::from_str("cannot get length of: ");
                let d = v.display();
                out.append(d.as_str());
            },
            RuntimeError::CannotConsOntoNonCollection(v, _) => {
                out = String::from_str("cannot cons onto: ");
                let d = v.display();
                out.append(d.as_str());
            },
            RuntimeError::CannotConsNonCharacterOntoString(v, _) => {
                out = String::from_str("cannot cons a non-character onto a string: ");
                let d = v.display();
                out.append(d.as_str());
            },
            RuntimeError::CannotGetChildrenOfNonCollection(op, v, _) => {
                out = String::from_str("cannot get children in ");
                out.append(op.as_str());
                out.append(" of: ");
                let d = v.display();
                out.append(d.as_str());
            },
            RuntimeError::CannotAppendOnto(v, _) => {
                out = String::from_str("cannot append onto: ");
                let d = v.display();
                out.append(d.as_str());
            },
            RuntimeError::InvalidInternalState(s, _) => {
                out = String::from_str("invalid internal state: ");
                out.append(s.as_str());
            },
            RuntimeError::RecursionDepthExceeded(_) => {
                out = String::from_str("maximum evaluation depth exceeded");
            },
        }
        proof {
            match self {
                RuntimeError::UndefinedName(..) => assert(out@ =~= err_msg(*self)),
                RuntimeError::CannotUpdateUndefinedName(..) => assert(out@ =~= err_msg(*self)),
                RuntimeError::CannotEvalEmptyList(..) => assert(out@ =~= err_msg(*self)),
                RuntimeError::UnableToEvalValue(..) => assert(out@ =~= err_msg(*self)),
                RuntimeError::UnableToEvalListStartingWith(..) => assert(out@ =~= err_msg(*self)),
                RuntimeError::ProcArgsDoNotMatchParams(..) => assert(out@ =~= err_msg(*self)),
                RuntimeError::NotEnoughArgs(..) => assert(out@ =~= err_msg(*self)),
                RuntimeError::TooManyArgs(..) => assert(out@ =~= err_msg(*self)),
                RuntimeError::UnexpectedValue(..) => assert(out@ =~= err_msg(*self)),
                RuntimeError::CannotGetLengthOfNonCollection(..) => assert(out@ =~= err_msg(*self)),
                RuntimeError::CannotConsOntoNonCollection(..) => assert(out@ =~= err_msg(*self)),
                RuntimeError::CannotConsNonCharacterOntoString(..) => assert(out@ =~= err_msg(*self)),
                RuntimeError::CannotGetChildrenOfNonCollection(..) => assert(out@ =~= err_msg(*self)),
                RuntimeError::CannotAppendOnto(..) => assert(out@ =~= err_msg(*self)),
                RuntimeError::InvalidInternalState(..) => assert(out@ =~= err_msg(*self)),
                RuntimeError::RecursionDepthExceeded(..) => assert(out@ =~= err_msg(*self)),
            }
        }
        out
    }
}

} // verus!
