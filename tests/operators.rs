use lir_backend::assembly::{AssemblyProgram, CoreProgram, Error, StandardProgram};
use lir_backend::interpreter::{match_blocks, Machine};
use lir_backend::ops::{AssignOp, BinaryOp, ConstExpr, Expr, TernaryOp, Type, UnaryOp};
use lir_backend::vm::CoreOp;

fn num(n: i64) -> Expr {
    Expr::ConstExpr(ConstExpr::Int(n))
}

fn boolean(b: bool) -> Expr {
    Expr::ConstExpr(ConstExpr::Bool(b))
}

fn bin(op: BinaryOp, l: Expr, r: Expr) -> Expr {
    Expr::Binary(op, Box::new(l), Box::new(r))
}

fn un(op: UnaryOp, e: Expr) -> Expr {
    Expr::Unary(op, Box::new(e))
}

fn select(a: Expr, b: Expr, c: Expr) -> Expr {
    Expr::Ternary(TernaryOp::Select, Box::new(a), Box::new(b), Box::new(c))
}

/// Compile an expression, run it on a fresh machine, and read the value it leaves.
fn run_on_machine(e: &Expr) -> i64 {
    let mut out = CoreProgram::new();
    e.compile_expr(&mut out).unwrap();
    let code = out.instructions();
    let mut m = Machine::new(64, vec![]);
    m.run(code, 10_000).unwrap();
    assert_eq!(m.pointer(), 1);
    m.tape()[1]
}

fn cell(c: ConstExpr) -> i64 {
    match c {
        ConstExpr::Unit => 0,
        ConstExpr::Int(n) => n,
        ConstExpr::Bool(b) => b as i64,
    }
}

#[test]
fn two_plus_three_folds_and_runs_to_five() {
    let e = bin(BinaryOp::Add, num(2), num(3));
    assert_eq!(e.eval().unwrap(), ConstExpr::Int(5));
    assert_eq!(run_on_machine(&e), 5);
}

#[test]
fn folding_agrees_with_the_machine_on_many_expressions() {
    let cases = vec![
        bin(BinaryOp::Multiply, bin(BinaryOp::Subtract, num(7), num(10)), un(UnaryOp::Negate, num(3))),
        bin(BinaryOp::Equal, num(4), num(4)),
        bin(BinaryOp::Equal, num(-4), num(4)),
        bin(BinaryOp::Equal, num(i64::MIN), num(i64::MAX)),
        bin(BinaryOp::Equal, boolean(true), boolean(false)),
        bin(BinaryOp::Or, boolean(false), boolean(false)),
        bin(BinaryOp::Or, boolean(true), boolean(true)),
        bin(BinaryOp::And, boolean(true), un(UnaryOp::Not, boolean(false))),
        select(boolean(true), num(11), num(-22)),
        select(bin(BinaryOp::Equal, num(1), num(2)), num(11), num(-22)),
        bin(BinaryOp::Add, num(i64::MAX), num(1)),
        un(UnaryOp::Negate, num(i64::MIN)),
        bin(BinaryOp::Multiply, num(1 << 40), num(1 << 40)),
        bin(BinaryOp::LessThan, num(-1), num(0)),
        bin(BinaryOp::LessThan, num(0), num(-1)),
        bin(BinaryOp::LessThan, num(5), num(5)),
        bin(BinaryOp::LessThan, num(i64::MIN), num(i64::MAX)),
        bin(BinaryOp::LessThan, num(i64::MAX), num(i64::MIN)),
        bin(BinaryOp::LessThan, num(i64::MAX - 1), num(i64::MAX)),
        select(bin(BinaryOp::LessThan, num(3), num(9)), num(3), num(9)),
    ];
    for e in cases.iter() {
        let folded = e.eval().unwrap();
        assert_eq!(run_on_machine(e), cell(folded), "on {:?}", e);
    }
}

#[test]
fn folded_values_are_exact() {
    let e = bin(BinaryOp::Multiply, bin(BinaryOp::Subtract, num(7), num(10)), un(UnaryOp::Negate, num(3)));
    assert_eq!(e.eval().unwrap(), ConstExpr::Int(9));
    assert_eq!(bin(BinaryOp::Add, num(i64::MAX), num(1)).eval().unwrap(), ConstExpr::Int(i64::MIN));
    assert_eq!(bin(BinaryOp::Equal, num(3), num(3)).eval().unwrap(), ConstExpr::Bool(true));
    assert_eq!(bin(BinaryOp::Or, boolean(false), boolean(true)).eval().unwrap(), ConstExpr::Bool(true));
    assert_eq!(select(boolean(false), num(1), num(2)).eval().unwrap(), ConstExpr::Int(2));
    assert_eq!(bin(BinaryOp::LessThan, num(i64::MIN), num(1)).eval().unwrap(), ConstExpr::Bool(true));
    assert_eq!(bin(BinaryOp::LessThan, num(2), num(1)).eval().unwrap(), ConstExpr::Bool(false));
    assert_eq!(BinaryOp::LessThan.return_type(&num(1), &num(2)).unwrap(), Type::Bool);
}

#[test]
fn arithmetic_on_pointer_and_boolean_is_rejected() {
    let lhs = Expr::Address(12);
    let rhs = boolean(true);
    match BinaryOp::Add.type_check(&lhs, &rhs) {
        Err(Error::InvalidBinaryOp(op, Expr::Address(12), Expr::ConstExpr(ConstExpr::Bool(true)))) => {
            assert_eq!(op, BinaryOp::Add)
        }
        other => panic!("expected an invalid binary operation, got {:?}", other),
    }
}

#[test]
fn type_check_agrees_with_can_apply() {
    let samples = vec![num(1), boolean(true), Expr::Address(3), Expr::ConstExpr(ConstExpr::Unit)];
    let binary = [
        BinaryOp::Add,
        BinaryOp::Subtract,
        BinaryOp::Multiply,
        BinaryOp::Equal,
        BinaryOp::LessThan,
        BinaryOp::And,
        BinaryOp::Or,
    ];
    for op in binary.iter() {
        for l in samples.iter() {
            for r in samples.iter() {
                let can = op.can_apply(&l.get_type().unwrap(), &r.get_type().unwrap());
                assert_eq!(op.type_check(l, r).is_ok(), can);
                assert_eq!(op.can_apply_exprs(l, r).unwrap(), can);
            }
        }
    }
    for op in [UnaryOp::Negate, UnaryOp::Not, UnaryOp::Deref].iter() {
        for e in samples.iter() {
            let can = op.can_apply(&e.get_type().unwrap());
            assert_eq!(op.type_check(e).is_ok(), can);
        }
    }
    for op in [AssignOp::Assign, AssignOp::AddAssign].iter() {
        for l in samples.iter() {
            for r in samples.iter() {
                let can = op.can_apply(&l.get_type().unwrap(), &r.get_type().unwrap());
                assert_eq!(op.type_check(l, r).is_ok(), can);
            }
        }
    }
    for a in samples.iter() {
        for b in samples.iter() {
            for c in samples.iter() {
                let can = TernaryOp::Select.can_apply(
                    &a.get_type().unwrap(),
                    &b.get_type().unwrap(),
                    &c.get_type().unwrap(),
                );
                assert_eq!(TernaryOp::Select.type_check(a, b, c).is_ok(), can);
            }
        }
    }
}

#[test]
fn result_types_follow_the_operation() {
    assert_eq!(BinaryOp::Equal.return_type(&num(1), &num(2)).unwrap(), Type::Bool);
    assert_eq!(BinaryOp::Add.return_type(&num(1), &num(2)).unwrap(), Type::Int);
    assert_eq!(UnaryOp::Deref.return_type(&Expr::Address(4)).unwrap(), Type::Int);
    assert_eq!(AssignOp::Assign.return_type(&Expr::Address(4), &num(2)).unwrap(), Type::Pointer);
    assert_eq!(TernaryOp::Select.return_type(&boolean(true), &boolean(false), &boolean(true)).unwrap(), Type::Bool);
}

#[test]
fn type_errors_come_from_the_innermost_operand() {
    let bad = bin(BinaryOp::And, num(1), boolean(true));
    let e = un(UnaryOp::Not, bad);
    match e.type_check() {
        Err(Error::InvalidBinaryOp(BinaryOp::And, _, _)) => {}
        other => panic!("unexpected {:?}", other),
    }
}

#[test]
fn invalid_operations_of_each_arity() {
    assert!(matches!(
        AssignOp::AddAssign.type_check(&num(1), &num(2)),
        Err(Error::InvalidAssignOp(AssignOp::AddAssign, _, _))
    ));
    assert!(matches!(
        UnaryOp::Not.type_check(&num(1)),
        Err(Error::InvalidUnaryOp(UnaryOp::Not, _))
    ));
    assert!(matches!(
        TernaryOp::Select.type_check(&num(1), &num(2), &num(3)),
        Err(Error::InvalidTernaryOp(TernaryOp::Select, _, _, _))
    ));
    assert!(matches!(
        UnaryOp::Negate.eval(&ConstExpr::Bool(true)),
        Err(Error::InvalidUnaryOp(UnaryOp::Negate, _))
    ));
    assert!(matches!(
        AssignOp::Assign.eval(&ConstExpr::Int(1), &ConstExpr::Int(2)),
        Err(Error::InvalidAssignOp(AssignOp::Assign, _, _))
    ));
    assert!(matches!(
        BinaryOp::Or.eval(&ConstExpr::Int(1), &ConstExpr::Bool(true)),
        Err(Error::InvalidBinaryOp(BinaryOp::Or, _, _))
    ));
    assert!(matches!(Expr::Address(3).eval(), Err(Error::Unexpected(CoreOp::Where, 3))));
}

#[test]
fn failed_compile_emits_nothing() {
    let mut out = StandardProgram::new();
    let e = bin(BinaryOp::Add, num(1), boolean(false));
    assert!(matches!(e.compile_expr(&mut out), Err(Error::InvalidBinaryOp(..))));
    assert_eq!(out.current_instruction(), 0);
}

#[test]
fn compile_emits_operands_before_the_operation() {
    let mut out = CoreProgram::new();
    BinaryOp::Subtract.compile(&num(9), &num(4), &mut out).unwrap();
    let expected = vec![
        CoreOp::Move(1),
        CoreOp::Constant(9),
        CoreOp::Save,
        CoreOp::Move(1),
        CoreOp::Constant(4),
        CoreOp::Save,
        CoreOp::Move(-1),
        CoreOp::Restore,
        CoreOp::Move(1),
        CoreOp::Subtract,
        CoreOp::Move(-1),
        CoreOp::Save,
    ];
    assert_eq!(out.instructions(), &expected);
}

#[test]
fn assignment_writes_through_the_pointer() {
    let store = Expr::Assign(AssignOp::Assign, Box::new(Expr::Address(40)), Box::new(num(17)));
    let bump = Expr::Assign(AssignOp::AddAssign, Box::new(Expr::Address(40)), Box::new(num(5)));
    let mut out = CoreProgram::new();
    store.compile_expr(&mut out).unwrap();
    bump.compile_expr(&mut out).unwrap();
    un(UnaryOp::Deref, Expr::Address(40)).compile_expr(&mut out).unwrap();
    let code = out.instructions();
    let mut m = Machine::new(64, vec![]);
    m.run(code, 1000).unwrap();
    assert_eq!(m.tape()[40], 22);
    assert_eq!(m.pointer(), 3);
    assert_eq!(m.tape()[3], 22);
}

#[test]
fn unary_and_ternary_compile_directly() {
    let mut out = CoreProgram::new();
    UnaryOp::Negate.compile(&num(6), &mut out).unwrap();
    TernaryOp::Select.compile(&boolean(false), &num(1), &num(2), &mut out).unwrap();
    AssignOp::Assign.compile(&Expr::Address(50), &num(8), &mut out).unwrap();
    let code = out.instructions();
    let mut m = Machine::new(64, vec![]);
    m.run(code, 1000).unwrap();
    assert_eq!(m.tape()[1], -6);
    assert_eq!(m.tape()[2], 2);
    assert_eq!(m.tape()[50], 8);
}
