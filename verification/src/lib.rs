//! A compiler for a tiny expression language — integer literals and the unary
//! operators `add1` and `sub1` — down to straight-line x86-64 assembly text
//! that computes the expression's value in the accumulator register `rax`.
mod ast;
mod codegen;
mod numfmt;
mod reader;
mod sval;

pub use ast::{eval, expr_of, err_of, parse_expr, CompileError, Expr};
pub use codegen::{
    asm_of, compile_expr, compile_instrs, instr_line, instrs_of, is_load, lemma_asm_push,
    lemma_codegen_computes, lemma_literal_load, lemma_nested_add1, lemma_nested_sub1,
    lemma_postorder_append, lemma_run_append, lemma_single_load, line_of, lit_of, run_from, step,
    wrap_add1, wrap_sub1, Instr,
};
pub use numfmt::{dec_i32, dec_int, dec_nat, digit_char};
pub use reader::read_of;
use reader::read_sval;
pub use sval::{in_i32_range, is_unary_op, wf_sval, SVal};

use vstd::prelude::*;

verus! {

/// Compile one program text end to end: read it as a symbolic expression,
/// build the typed expression it denotes, and emit the assembly text that
/// computes its value.
pub fn compile_program(text: &str) -> (r: Result<String, CompileError>)
    ensures
        read_of(text@) is None ==> r == Err::<String, CompileError>(CompileError::Read),
        read_of(text@) matches Some(v) ==> {
            &&& wf_sval(v) ==> (r matches Ok(out) && out@ == asm_of(instrs_of(expr_of(v))))
            &&& !wf_sval(v) ==> r == Err::<String, CompileError>(err_of(v))
        },
{
    match read_sval(text) {
        None => Err(CompileError::Read),
        Some(v) => match parse_expr(&v) {
            Ok(e) => Ok(compile_expr(&e)),
            Err(err) => Err(err),
        },
    }
}

} // verus!
