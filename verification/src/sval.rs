//! Generic symbolic values: the atom-or-list trees that the reader produces
//! and the abstract-syntax builder consumes.
use vstd::prelude::*;

verus! {

/// A generic symbolic value. A value is either an atom — an integer, a
/// symbolic name, or a non-integer numeric atom that the grammar never
/// accepts — or an ordered list of symbolic values.
#[derive(Debug)]
pub enum SVal {
    /// An integer atom.
    Int(i64),
    /// A symbolic-name atom.
    Sym(String),
    /// A numeric atom that is not an integer. The grammar rejects it, so the
    /// value itself is not kept.
    Real,
    /// An ordered list of symbolic values.
    List(Vec<SVal>),
}

/// Does `n` fit in a signed 32-bit integer?
pub open spec fn in_i32_range(n: int) -> bool {
    i32::MIN <= n <= i32::MAX
}

/// Is `s` the symbolic name of one of the two unary operators?
pub open spec fn is_unary_op(s: SVal) -> bool {
    s matches SVal::Sym(op) && (op@ == "add1"@ || op@ == "sub1"@)
}

/// Membership in the source grammar: an expression is an in-range integer
/// atom, or a two-element list of a unary-operator name and an expression.
pub open spec fn wf_sval(s: SVal) -> bool
    decreases s,
{
    match s {
        SVal::Int(n) => in_i32_range(n as int),
        SVal::Sym(_) => false,
        SVal::Real => false,
        SVal::List(items) => items@.len() == 2 && is_unary_op(items@[0]) && wf_sval(items@[1]),
    }
}

} // verus!
