use adder::{
    compile_expr, compile_instrs, compile_program, dec_i32, instr_line, parse_expr, CompileError,
    Expr, Instr, SVal,
};

#[test]
fn literal_compiles_to_one_load() {
    assert_eq!(compile_instrs(&Expr::Num(37)), vec![Instr::Mov(37)]);
    assert_eq!(compile_instrs(&Expr::Num(0)), vec![Instr::Mov(0)]);
    assert_eq!(compile_instrs(&Expr::Num(-1)), vec![Instr::Mov(-1)]);
    assert_eq!(compile_instrs(&Expr::Num(i32::MIN)), vec![Instr::Mov(i32::MIN)]);
    assert_eq!(compile_instrs(&Expr::Num(i32::MAX)), vec![Instr::Mov(i32::MAX)]);
}

#[test]
fn nested_add1_appends_increments() {
    let e = Expr::Add1(Box::new(Expr::Add1(Box::new(Expr::Add1(Box::new(Expr::Num(9)))))));
    assert_eq!(
        compile_instrs(&e),
        vec![Instr::Mov(9), Instr::Inc, Instr::Inc, Instr::Inc]
    );
}

#[test]
fn nested_sub1_appends_decrements() {
    let e = Expr::Sub1(Box::new(Expr::Sub1(Box::new(Expr::Num(4)))));
    assert_eq!(compile_instrs(&e), vec![Instr::Mov(4), Instr::Dec, Instr::Dec]);
}

#[test]
fn mixed_nesting_emits_innermost_first() {
    let e = Expr::Add1(Box::new(Expr::Sub1(Box::new(Expr::Add1(Box::new(Expr::Num(5)))))));
    assert_eq!(
        compile_instrs(&e),
        vec![Instr::Mov(5), Instr::Inc, Instr::Dec, Instr::Inc]
    );
    let text = compile_expr(&e);
    let lines: Vec<&str> = text.split('\n').collect();
    assert_eq!(lines, vec!["mov rax, 5", "add rax, 1", "sub rax, 1", "add rax, 1"]);
}

#[test]
fn instruction_lines_render_exactly() {
    assert_eq!(instr_line(&Instr::Mov(5)), "mov rax, 5");
    assert_eq!(instr_line(&Instr::Mov(-12)), "mov rax, -12");
    assert_eq!(instr_line(&Instr::Inc), "add rax, 1");
    assert_eq!(instr_line(&Instr::Dec), "sub rax, 1");
}

#[test]
fn decimal_rendering() {
    assert_eq!(dec_i32(0), "0");
    assert_eq!(dec_i32(7), "7");
    assert_eq!(dec_i32(10), "10");
    assert_eq!(dec_i32(-1), "-1");
    assert_eq!(dec_i32(1234567890), "1234567890");
    assert_eq!(dec_i32(i32::MAX), "2147483647");
    assert_eq!(dec_i32(i32::MIN), "-2147483648");
}

#[test]
fn parse_expr_accepts_the_grammar() {
    let v = SVal::List(vec![SVal::Sym("add1".to_string()), SVal::Int(7)]);
    match parse_expr(&v) {
        Ok(Expr::Add1(inner)) => match *inner {
            Expr::Num(n) => assert_eq!(n, 7),
            _ => panic!("wrong child"),
        },
        _ => panic!("expected add1 of 7"),
    }
    let v = SVal::List(vec![SVal::Sym("sub1".to_string()), SVal::Int(-3)]);
    match parse_expr(&v) {
        Ok(Expr::Sub1(inner)) => match *inner {
            Expr::Num(n) => assert_eq!(n, -3),
            _ => panic!("wrong child"),
        },
        _ => panic!("expected sub1 of -3"),
    }
}

#[test]
fn parse_expr_rejects_out_of_range_literals() {
    assert_eq!(parse_expr(&SVal::Int(2147483648)).unwrap_err(), CompileError::Range);
    assert_eq!(parse_expr(&SVal::Int(-2147483649)).unwrap_err(), CompileError::Range);
    assert!(parse_expr(&SVal::Int(2147483647)).is_ok());
    assert!(parse_expr(&SVal::Int(-2147483648)).is_ok());
    let v = SVal::List(vec![SVal::Sym("add1".to_string()), SVal::Int(1 << 40)]);
    assert_eq!(parse_expr(&v).unwrap_err(), CompileError::Range);
}

#[test]
fn parse_expr_rejects_bad_shapes() {
    let unknown_op = SVal::List(vec![SVal::Sym("mul1".to_string()), SVal::Int(5)]);
    assert_eq!(parse_expr(&unknown_op).unwrap_err(), CompileError::Syntax);
    let too_long = SVal::List(vec![
        SVal::Sym("add1".to_string()),
        SVal::Int(5),
        SVal::Int(6),
    ]);
    assert_eq!(parse_expr(&too_long).unwrap_err(), CompileError::Syntax);
    let too_short = SVal::List(vec![SVal::Sym("add1".to_string())]);
    assert_eq!(parse_expr(&too_short).unwrap_err(), CompileError::Syntax);
    let bare_symbol = SVal::Sym("add1".to_string());
    assert_eq!(parse_expr(&bare_symbol).unwrap_err(), CompileError::Syntax);
    let wrong_atom = SVal::Real;
    assert_eq!(parse_expr(&wrong_atom).unwrap_err(), CompileError::Syntax);
    let non_symbol_head = SVal::List(vec![SVal::Int(1), SVal::Int(2)]);
    assert_eq!(parse_expr(&non_symbol_head).unwrap_err(), CompileError::Syntax);
}

#[test]
fn end_to_end_nested_add1() {
    let out = compile_program("(add1 (add1 5))").unwrap();
    let lines: Vec<&str> = out.split('\n').collect();
    assert_eq!(lines, vec!["mov rax, 5", "add rax, 1", "add rax, 1"]);
}

#[test]
fn end_to_end_bare_literal() {
    let out = compile_program("37").unwrap();
    let lines: Vec<&str> = out.split('\n').collect();
    assert_eq!(lines, vec!["mov rax, 37"]);
}

#[test]
fn end_to_end_nested_sub1() {
    let out = compile_program("(sub1 (sub1 (sub1 0)))").unwrap();
    let lines: Vec<&str> = out.split('\n').collect();
    assert_eq!(lines, vec!["mov rax, 0", "sub rax, 1", "sub rax, 1", "sub rax, 1"]);
}

#[test]
fn end_to_end_errors() {
    assert_eq!(compile_program("2147483648").unwrap_err(), CompileError::Range);
    assert_eq!(compile_program("(mul1 5)").unwrap_err(), CompileError::Syntax);
    assert_eq!(compile_program("(add1 5 6)").unwrap_err(), CompileError::Syntax);
    assert_eq!(compile_program("add1").unwrap_err(), CompileError::Syntax);
    assert_eq!(compile_program("3.5").unwrap_err(), CompileError::Syntax);
    assert_eq!(compile_program("(((").unwrap_err(), CompileError::Read);
    assert_eq!(compile_program("").unwrap_err(), CompileError::Read);
}

#[test]
fn end_to_end_negative_literal() {
    let out = compile_program("(add1 -42)").unwrap();
    let lines: Vec<&str> = out.split('\n').collect();
    assert_eq!(lines, vec!["mov rax, -42", "add rax, 1"]);
}
