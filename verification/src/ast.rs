//! The typed expression tree and the builder that checks a generic symbolic
//! value against the grammar.
use crate::sval::{in_i32_range, is_unary_op, wf_sval, SVal};
use vstd::prelude::*;

verus! {

/// A typed expression: an integer literal or one of the two unary operators
/// applied to a single child expression.
#[derive(Debug)]
pub enum Expr {
    /// An integer literal.
    Num(i32),
    /// Increment of the child expression.
    Add1(Box<Expr>),
    /// Decrement of the child expression.
    Sub1(Box<Expr>),
}

/// Why a compilation failed.
#[derive(Debug, Clone, Copy, PartialEq, Eq, Structural)]
pub enum CompileError {
    /// The symbolic value does not match the grammar: wrong list length, an
    /// unknown operator name, or an atom of the wrong kind.
    Syntax,
    /// An integer literal does not fit in a signed 32-bit integer.
    Range,
    /// The program text is not a well-formed symbolic expression.
    Read,
}

/// The mathematical value of an expression: its literal, plus one for each
/// enclosing increment, minus one for each enclosing decrement.
pub open spec fn eval(e: Expr) -> int
    decreases e,
{
    match e {
        Expr::Num(n) => n as int,
        Expr::Add1(inner) => eval(*inner) + 1,
        Expr::Sub1(inner) => eval(*inner) - 1,
    }
}

/// The expression that a well-formed symbolic value denotes. Only cited for
/// values that satisfy `wf_sval`; elsewhere it falls back to a literal.
pub open spec fn expr_of(s: SVal) -> Expr
    decreases s,
{
    match s {
        SVal::Int(n) => Expr::Num(#[verifier::truncate] (n as i32)),
        SVal::List(items) => {
            if items@.len() == 2 {
                if items@[0] matches SVal::Sym(op) && op@ == "add1"@ {
                    Expr::Add1(Box::new(expr_of(items@[1])))
                } else {
                    Expr::Sub1(Box::new(expr_of(items@[1])))
                }
            } else {
                Expr::Num(0)
            }
        },
        _ => Expr::Num(0),
    }
}

/// The error that a malformed symbolic value is rejected with: a range error
/// exactly where an integer atom overflows 32 bits, a syntax error for every
/// other departure from the grammar. Only cited for values that violate
/// `wf_sval`.
pub open spec fn err_of(s: SVal) -> CompileError
    decreases s,
{
    match s {
        SVal::Int(n) => if in_i32_range(n as int) {
            CompileError::Syntax
        } else {
            CompileError::Range
        },
        SVal::List(items) => {
            if items@.len() == 2 && is_unary_op(items@[0]) {
                err_of(items@[1])
            } else {
                CompileError::Syntax
            }
        },
        _ => CompileError::Syntax,
    }
}

/// Build the typed expression denoted by a generic symbolic value, or reject
/// the value with the error the grammar assigns to it.
pub fn parse_expr(s: &SVal) -> (r: Result<Expr, CompileError>)
    ensures
        wf_sval(*s) ==> r == Ok::<Expr, CompileError>(expr_of(*s)),
        !wf_sval(*s) ==> r == Err::<Expr, CompileError>(err_of(*s)),
    decreases *s,
{
    match s {
        SVal::Int(n) => {
            if i32::MIN as i64 <= *n && *n <= i32::MAX as i64 {
                Ok(Expr::Num(*n as i32))
            } else {
                Err(CompileError::Range)
            }
        },
        SVal::List(items) => {
            if items.len() == 2 {
                match &items[0] {
                    SVal::Sym(op) => {
                        let add1 = String::from_str("add1");
                        let sub1 = String::from_str("sub1");
                        if *op == add1 {
                            match parse_expr(&items[1]) {
                                Ok(e) => Ok(Expr::Add1(Box::new(e))),
                                Err(err) => Err(err),
                            }
                        } else if *op == sub1 {
                            match parse_expr(&items[1]) {
                                Ok(e) => Ok(Expr::Sub1(Box::new(e))),
                                Err(err) => Err(err),
                            }
                        } else {
                            Err(CompileError::Syntax)
                        }
                    },
                    _ => Err(CompileError::Syntax),
                }
            } else {
                Err(CompileError::Syntax)
            }
        },
        _ => Err(CompileError::Syntax),
    }
}

} // verus!
