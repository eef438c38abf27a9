//! Lowering of a typed expression into a flat sequence of accumulator
//! instructions, and a small machine model that says what the sequence
//! computes.
use crate::ast::{eval, Expr};
use crate::numfmt::{dec_i32, dec_int};
use vstd::prelude::*;

verus! {

/// One assembly instruction over the accumulator register.
#[derive(Debug, Clone, Copy, PartialEq, Eq, Structural)]
pub enum Instr {
    /// Load an immediate into the accumulator: `mov rax, n`.
    Mov(i32),
    /// Increment the accumulator by one: `add rax, 1`.
    Inc,
    /// Decrement the accumulator by one: `sub rax, 1`.
    Dec,
}

/// The instruction sequence an expression compiles to: the child's sequence
/// first, then the node's own adjustment instruction (postorder emission).
pub open spec fn instrs_of(e: Expr) -> Seq<Instr>
    decreases e,
{
    match e {
        Expr::Num(n) => seq![Instr::Mov(n)],
        Expr::Add1(inner) => instrs_of(*inner).push(Instr::Inc),
        Expr::Sub1(inner) => instrs_of(*inner).push(Instr::Dec),
    }
}

/// What one instruction leaves in the accumulator, given the value `acc`
/// already there.
pub open spec fn step(acc: int, i: Instr) -> int {
    match i {
        Instr::Mov(n) => n as int,
        Instr::Inc => acc + 1,
        Instr::Dec => acc - 1,
    }
}

/// The accumulator after running `instrs` in order, starting from `acc`.
pub open spec fn run_from(acc: int, instrs: Seq<Instr>) -> int
    decreases instrs.len(),
{
    if instrs.len() == 0 {
        acc
    } else {
        run_from(step(acc, instrs[0]), instrs.drop_first())
    }
}

/// Running a concatenation runs the first part, then the second from where
/// the first left off.
pub proof fn lemma_run_append(acc: int, a: Seq<Instr>, b: Seq<Instr>)
    ensures
        run_from(acc, a + b) == run_from(run_from(acc, a), b),
    decreases a.len(),
{
    if a.len() == 0 {
        assert(a + b =~= b);
    } else {
        assert((a + b).drop_first() =~= a.drop_first() + b);
        lemma_run_append(step(acc, a[0]), a.drop_first(), b);
    }
}

/// Law: whatever the accumulator held before, running the compiled sequence
/// of an expression leaves exactly the expression's mathematical value.
pub proof fn lemma_codegen_computes(e: Expr, acc: int)
    ensures
        run_from(acc, instrs_of(e)) == eval(e),
    decreases e,
{
    reveal_with_fuel(run_from, 3);
    match e {
        Expr::Num(n) => {
            assert(seq![Instr::Mov(n)].drop_first() =~= Seq::<Instr>::empty());
        },
        Expr::Add1(inner) => {
            lemma_codegen_computes(*inner, acc);
            assert(instrs_of(*inner).push(Instr::Inc) =~= instrs_of(*inner) + seq![Instr::Inc]);
            lemma_run_append(acc, instrs_of(*inner), seq![Instr::Inc]);
            assert(seq![Instr::Inc].drop_first() =~= Seq::<Instr>::empty());
        },
        Expr::Sub1(inner) => {
            lemma_codegen_computes(*inner, acc);
            assert(instrs_of(*inner).push(Instr::Dec) =~= instrs_of(*inner) + seq![Instr::Dec]);
            lemma_run_append(acc, instrs_of(*inner), seq![Instr::Dec]);
            assert(seq![Instr::Dec].drop_first() =~= Seq::<Instr>::empty());
        },
    }
}

/// Lower an expression to its instruction sequence.
pub fn compile_instrs(e: &Expr) -> (r: Vec<Instr>)
    ensures
        r@ == instrs_of(*e),
    decreases *e,
{
    match e {
        Expr::Num(n) => {
            let mut v: Vec<Instr> = Vec::new();
            v.push(Instr::Mov(*n));
            proof {
                assert(v@ =~= seq![Instr::Mov(*n)]);
            }
            v
        },
        Expr::Add1(inner) => {
            let mut v = compile_instrs(&**inner);
            v.push(Instr::Inc);
            v
        },
        Expr::Sub1(inner) => {
            let mut v = compile_instrs(&**inner);
            v.push(Instr::Dec);
            v
        },
    }
}

/// The innermost literal of an expression: the operand of its one load.
pub open spec fn lit_of(e: Expr) -> i32
    decreases e,
{
    match e {
        Expr::Num(n) => n,
        Expr::Add1(inner) => lit_of(*inner),
        Expr::Sub1(inner) => lit_of(*inner),
    }
}

/// Is the instruction a load of an immediate?
pub open spec fn is_load(i: Instr) -> bool {
    i matches Instr::Mov(_)
}

/// Law: every compiled sequence begins with a load of the expression's
/// innermost literal, and that load is the only one in the sequence.
pub proof fn lemma_single_load(e: Expr)
    ensures
        instrs_of(e).len() >= 1,
        instrs_of(e)[0] == Instr::Mov(lit_of(e)),
        forall|k: int| 1 <= k < instrs_of(e).len() ==> !is_load(#[trigger] instrs_of(e)[k]),
    decreases e,
{
    match e {
        Expr::Num(n) => {
        },
        Expr::Add1(inner) => {
            lemma_single_load(*inner);
        },
        Expr::Sub1(inner) => {
            lemma_single_load(*inner);
        },
    }
}

/// Law: a literal compiles to exactly one instruction — the load carrying it.
pub proof fn lemma_literal_load(n: i32)
    ensures
        instrs_of(Expr::Num(n)) == seq![Instr::Mov(n)],
{
}

/// Law: a unary node emits its child's whole sequence first and exactly one
/// adjustment instruction after it (postorder emission).
pub proof fn lemma_postorder_append(e: Expr)
    ensures
        instrs_of(Expr::Add1(Box::new(e))) == instrs_of(e).push(Instr::Inc),
        instrs_of(Expr::Sub1(Box::new(e))) == instrs_of(e).push(Instr::Dec),
{
}

/// The expression wrapped in `k` nested increments.
pub open spec fn wrap_add1(e: Expr, k: nat) -> Expr
    decreases k,
{
    if k == 0 {
        e
    } else {
        Expr::Add1(Box::new(wrap_add1(e, (k - 1) as nat)))
    }
}

/// The expression wrapped in `k` nested decrements.
pub open spec fn wrap_sub1(e: Expr, k: nat) -> Expr
    decreases k,
{
    if k == 0 {
        e
    } else {
        Expr::Sub1(Box::new(wrap_sub1(e, (k - 1) as nat)))
    }
}

/// Law: wrapping an expression in `k` nested increments compiles to the
/// expression's own sequence followed by exactly `k` increment instructions.
pub proof fn lemma_nested_add1(e: Expr, k: nat)
    ensures
        instrs_of(wrap_add1(e, k)) == instrs_of(e) + Seq::new(k, (|j: int| Instr::Inc)),
    decreases k,
{
    if k == 0 {
        assert(instrs_of(e) + Seq::new(0, (|j: int| Instr::Inc)) =~= instrs_of(e));
    } else {
        lemma_nested_add1(e, (k - 1) as nat);
        assert(instrs_of(e) + Seq::new(k, (|j: int| Instr::Inc)) =~= (instrs_of(e) + Seq::new(
            (k - 1) as nat,
            (|j: int| Instr::Inc),
        )).push(Instr::Inc));
    }
}

/// Law: wrapping an expression in `k` nested decrements compiles to the
/// expression's own sequence followed by exactly `k` decrement instructions.
pub proof fn lemma_nested_sub1(e: Expr, k: nat)
    ensures
        instrs_of(wrap_sub1(e, k)) == instrs_of(e) + Seq::new(k, (|j: int| Instr::Dec)),
    decreases k,
{
    if k == 0 {
        assert(instrs_of(e) + Seq::new(0, (|j: int| Instr::Dec)) =~= instrs_of(e));
    } else {
        lemma_nested_sub1(e, (k - 1) as nat);
        assert(instrs_of(e) + Seq::new(k, (|j: int| Instr::Dec)) =~= (instrs_of(e) + Seq::new(
            (k - 1) as nat,
            (|j: int| Instr::Dec),
        )).push(Instr::Dec));
    }
}

/// The text of one instruction line.
pub open spec fn line_of(i: Instr) -> Seq<char> {
    match i {
        Instr::Mov(n) => "mov rax, "@ + dec_int(n as int),
        Instr::Inc => "add rax, 1"@,
        Instr::Dec => "sub rax, 1"@,
    }
}

/// Instruction lines joined by single newlines, with no trailing newline.
pub open spec fn asm_of(instrs: Seq<Instr>) -> Seq<char>
    decreases instrs.len(),
{
    if instrs.len() == 0 {
        Seq::empty()
    } else if instrs.len() == 1 {
        line_of(instrs[0])
    } else {
        line_of(instrs[0]) + seq!['\n'] + asm_of(instrs.drop_first())
    }
}

/// Appending an instruction to a nonempty sequence appends a newline and its
/// line to the joined text.
pub proof fn lemma_asm_push(s: Seq<Instr>, i: Instr)
    requires
        s.len() >= 1,
    ensures
        asm_of(s.push(i)) == asm_of(s) + seq!['\n'] + line_of(i),
    decreases s.len(),
{
    reveal_with_fuel(asm_of, 3);
    if s.len() == 1 {
        assert(s.push(i).drop_first() =~= seq![i]);
        assert(asm_of(seq![i]) == line_of(i));
        assert(asm_of(s.push(i)) =~= asm_of(s) + seq!['\n'] + line_of(i));
    } else {
        lemma_asm_push(s.drop_first(), i);
        assert(s.push(i).drop_first() =~= s.drop_first().push(i));
        assert(asm_of(s.push(i)) =~= asm_of(s) + seq!['\n'] + line_of(i));
    }
}

/// Render one instruction as its assembly line.
pub fn instr_line(i: &Instr) -> (r: String)
    ensures
        r@ == line_of(*i),
{
    match i {
        Instr::Mov(n) => {
            let mut s = String::from_str("mov rax, ");
            let operand = dec_i32(*n);
            s.append(operand.as_str());
            s
        },
        Instr::Inc => String::from_str("add rax, 1"),
        Instr::Dec => String::from_str("sub rax, 1"),
    }
}

/// Compile an expression to assembly text: the lines of its instruction
/// sequence, joined by newlines.
pub fn compile_expr(e: &Expr) -> (r: String)
    ensures
        r@ == asm_of(instrs_of(*e)),
    decreases *e,
{
    match e {
        Expr::Num(n) => instr_line(&Instr::Mov(*n)),
        Expr::Add1(inner) => {
            let mut s = compile_expr(&**inner);
            s.append("\nadd rax, 1");
            proof {
                lemma_single_load(**inner);
                lemma_asm_push(instrs_of(**inner), Instr::Inc);
                reveal_strlit("\nadd rax, 1");
                reveal_strlit("add rax, 1");
                assert("\nadd rax, 1"@ =~= seq!['\n'] + "add rax, 1"@);
                assert(s@ =~= asm_of(instrs_of(*e)));
            }
            s
        },
        Expr::Sub1(inner) => {
            let mut s = compile_expr(&**inner);
            s.append("\nsub rax, 1");
            proof {
                lemma_single_load(**inner);
                lemma_asm_push(instrs_of(**inner), Instr::Dec);
                reveal_strlit("\nsub rax, 1");
                reveal_strlit("sub rax, 1");
                assert("\nsub rax, 1"@ =~= seq!['\n'] + "sub rax, 1"@);
                assert(s@ =~= asm_of(instrs_of(*e)));
            }
            s
        },
    }
}

} // verus!
