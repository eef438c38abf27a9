//! The trusted bridge to the external s-expression reader.
use crate::sval::SVal;
use vstd::prelude::*;

verus! {

/// `sexp::Sexp`, the reader's own tree type, declared so the bridge below may
/// appear in source here. Opaque to verification.
#[verifier::external_type_specification]
#[verifier::external_body]
pub struct ExSexp(sexp::Sexp);

/// What the reader yields on a given program text: the symbolic value it
/// denotes, or nothing where the text is not one well-formed s-expression.
/// The result depends on the text alone.
pub uninterp spec fn read_of(text: Seq<char>) -> Option<SVal>;

/// The conversion half of `read_sval`: carries the reader's tree over into
/// the crate's own symbolic values, one variant for one variant. Trusted
/// together with `read_sval`, whose contract covers the pair; this half
/// carries no contract of its own and is called nowhere else.
#[verifier::external_body]
fn sval_from(s: sexp::Sexp) -> SVal {
    match s {
        sexp::Sexp::Atom(sexp::Atom::I(n)) => SVal::Int(n),
        sexp::Sexp::Atom(sexp::Atom::S(t)) => SVal::Sym(t),
        sexp::Sexp::Atom(sexp::Atom::F(_)) => SVal::Real,
        sexp::Sexp::List(items) => SVal::List(items.into_iter().map(sval_from).collect()),
    }
}

/// Relies on `sexp::parse`: reads exactly one s-expression out of the whole
/// text — a pure function of the text — and fails on anything else.
#[verifier::external_body]
pub(crate) fn read_sval(text: &str) -> (r: Option<SVal>)
    ensures
        r matches Some(v) ==> read_of(text@) == Some(v),
        r is None ==> read_of(text@) is None,
{
    match sexp::parse(text) {
        Ok(s) => Some(sval_from(s)),
        Err(_) => None,
    }
}

} // verus!
