use vstd::prelude::*;

use crate::assembly::{AssemblyProgram, Error};
use crate::vm::{CoreOp, StandardOp};

verus! {

/// The type of an LIR value.
#[derive(Clone, Copy, Debug, PartialEq, Eq)]
pub enum Type {
    Unit,
    Int,
    Bool,
    Pointer,
}

/// A value known at compile time.
#[derive(Clone, Copy, Debug, PartialEq, Eq)]
pub enum ConstExpr {
    Unit,
    Int(i64),
    Bool(bool),
}

/// Assignment through a pointer: `*dst = src`, `*dst += src`.
#[derive(Clone, Copy, Debug, PartialEq, Eq)]
pub enum AssignOp {
    Assign,
    AddAssign,
}

/// Operations of one operand.
#[derive(Clone, Copy, Debug, PartialEq, Eq)]
pub enum UnaryOp {
    /// Integer negation.
    Negate,
    /// Logical negation.
    Not,
    /// Read the integer a pointer points to.
    Deref,
}

/// Operations of two operands.
#[derive(Clone, Copy, Debug, PartialEq, Eq)]
pub enum BinaryOp {
    Add,
    Subtract,
    Multiply,
    Equal,
    LessThan,
    And,
    Or,
}

/// Operations of three operands.
#[derive(Clone, Copy, Debug, PartialEq, Eq)]
pub enum TernaryOp {
    /// `a ? b : c`.
    Select,
}

/// An LIR expression; each node owns its operands.
#[derive(Debug)]
pub enum Expr {
    ConstExpr(ConstExpr),
    /// A pointer to a fixed tape cell.
    Address(usize),
    Assign(AssignOp, Box<Expr>, Box<Expr>),
    Unary(UnaryOp, Box<Expr>),
    Binary(BinaryOp, Box<Expr>, Box<Expr>),
    Ternary(TernaryOp, Box<Expr>, Box<Expr>, Box<Expr>),
}

/// The machine cell that holds a boolean.
pub open spec fn bool_cell(b: bool) -> i64 {
    if b {
        1
    } else {
        0
    }
}

impl ConstExpr {
    pub open spec fn typ(self) -> Type {
        match self {
            ConstExpr::Unit => Type::Unit,
            ConstExpr::Int(_) => Type::Int,
            ConstExpr::Bool(_) => Type::Bool,
        }
    }

    /// The machine cell that holds this value.
    pub open spec fn cell(self) -> i64 {
        match self {
            ConstExpr::Unit => 0,
            ConstExpr::Int(n) => n,
            ConstExpr::Bool(b) => bool_cell(b),
        }
    }

    pub fn get_type(&self) -> (r: Type)
        ensures
            r == self.typ(),
    {
        match self {
            ConstExpr::Unit => Type::Unit,
            ConstExpr::Int(_) => Type::Int,
            ConstExpr::Bool(_) => Type::Bool,
        }
    }

    fn to_cell(&self) -> (r: i64)
        ensures
            r == self.cell(),
    {
        match self {
            ConstExpr::Unit => 0,
            ConstExpr::Int(n) => *n,
            ConstExpr::Bool(b) => if *b {
                1
            } else {
                0
            },
        }
    }
}

/// Code that pushes one cell onto the value stack.
pub open spec fn push_code(v: i64) -> Seq<CoreOp> {
    seq![CoreOp::Move(1isize), CoreOp::Constant(v), CoreOp::Save]
}

impl AssignOp {
    pub open spec fn spec_can_apply(self, dst: Type, src: Type) -> bool {
        dst == Type::Pointer && match self {
            AssignOp::Assign => src == Type::Int || src == Type::Bool,
            AssignOp::AddAssign => src == Type::Int,
        }
    }

    /// The type of the operation on its operands, or the first error.
    pub open spec fn typed(self, dst: Expr, src: Expr) -> Result<Type, Error> {
        Expr::Assign(self, Box::new(dst), Box::new(src)).check()
    }

    /// Code that stores the top cell through the pointer below it, leaving the pointer.
    pub open spec fn op_code(self) -> Seq<CoreOp> {
        match self {
            AssignOp::Assign => seq![
                CoreOp::Restore,
                CoreOp::Move(-1isize),
                CoreOp::Deref,
                CoreOp::Save,
                CoreOp::Refer,
            ],
            AssignOp::AddAssign => seq![
                CoreOp::Restore,
                CoreOp::Move(-1isize),
                CoreOp::Deref,
                CoreOp::Add,
                CoreOp::Save,
                CoreOp::Refer,
            ],
        }
    }

    pub fn can_apply(&self, dst: &Type, src: &Type) -> (r: bool)
        ensures
            r == self.spec_can_apply(*dst, *src),
    {
        match (dst, src) {
            (Type::Pointer, Type::Int) => true,
            (Type::Pointer, Type::Bool) => match self {
                AssignOp::Assign => true,
                AssignOp::AddAssign => false,
            },
            _ => false,
        }
    }

    pub fn can_apply_exprs(&self, dst: &Expr, src: &Expr) -> (r: Result<bool, Error>)
        ensures
            match (dst.check(), src.check()) {
                (Ok(d), Ok(s)) => r == Ok::<bool, Error>(self.spec_can_apply(d, s)),
                (Err(e), _) => r == Err::<bool, Error>(e),
                (Ok(_), Err(e)) => r == Err::<bool, Error>(e),
            },
    {
        let d = dst.get_type()?;
        let s = src.get_type()?;
        Ok(self.can_apply(&d, &s))
    }

    pub fn return_type(&self, dst: &Expr, src: &Expr) -> (r: Result<Type, Error>)
        ensures
            r == self.typed(*dst, *src),
    {
        let d = dst.get_type()?;
        let s = src.get_type()?;
        if self.can_apply(&d, &s) {
            Ok(d)
        } else {
            Err(Error::InvalidAssignOp(*self, dst.duplicate(), src.duplicate()))
        }
    }

    pub fn type_check(&self, dst: &Expr, src: &Expr) -> (r: Result<(), Error>)
        ensures
            r is Ok <==> self.typed(*dst, *src) is Ok,
            r is Err ==> r == Err::<(), Error>(self.typed(*dst, *src)->Err_0),
    {
        self.return_type(dst, src)?;
        Ok(())
    }

    /// Assignments need a pointer, which no constant is, so they never fold.
    pub fn eval(&self, dst: &ConstExpr, src: &ConstExpr) -> (r: Result<ConstExpr, Error>)
        ensures
            r == Err::<ConstExpr, Error>(
                Error::InvalidAssignOp(*self, Expr::ConstExpr(*dst), Expr::ConstExpr(*src)),
            ),
    {
        Err(Error::InvalidAssignOp(*self, Expr::ConstExpr(*dst), Expr::ConstExpr(*src)))
    }

    pub fn compile_types<P: AssemblyProgram>(&self, dst: &Type, src: &Type, output: &mut P)
        requires
            self.spec_can_apply(*dst, *src),
        ensures
            final(output).code() == old(output).code() + ok_ops(self.op_code()),
            final(output).function_labels() == old(output).function_labels(),
            final(output).supports_standard() == old(output).supports_standard(),
    {
        match self {
            AssignOp::Assign => emit(
                output,
                &vec![
                    CoreOp::Restore,
                    CoreOp::Move(-1isize),
                    CoreOp::Deref,
                    CoreOp::Save,
                    CoreOp::Refer,
                ],
            ),
            AssignOp::AddAssign => emit(
                output,
                &vec![
                    CoreOp::Restore,
                    CoreOp::Move(-1isize),
                    CoreOp::Deref,
                    CoreOp::Add,
                    CoreOp::Save,
                    CoreOp::Refer,
                ],
            ),
        }
    }

    pub fn compile<P: AssemblyProgram>(&self, dst: &Expr, src: &Expr, output: &mut P) -> (r:
        Result<(), Error>)
        ensures
            r is Ok <==> self.typed(*dst, *src) is Ok,
            r is Err ==> r == Err::<(), Error>(self.typed(*dst, *src)->Err_0) && final(output).code() == old(output).code(),
            r is Ok ==> final(output).code() == old(output).code() + ok_ops(
                Expr::Assign(*self, Box::new(*dst), Box::new(*src)).code(),
            ),
            final(output).function_labels() == old(output).function_labels(),
            final(output).supports_standard() == old(output).supports_standard(),
    {
        let d = dst.get_type()?;
        let s = src.get_type()?;
        if !self.can_apply(&d, &s) {
            return Err(Error::InvalidAssignOp(*self, dst.duplicate(), src.duplicate()));
        }
        dst.emit_code(output);
        src.emit_code(output);
        self.compile_types(&d, &s, output);
        proof {
            lemma_ok_ops_add(dst.code(), src.code());
            lemma_ok_ops_add(dst.code() + src.code(), self.op_code());
        }
        Ok(())
    }
}

/// Core instructions as they stand in a program.
pub open spec fn ok_ops(ops: Seq<CoreOp>) -> Seq<Result<CoreOp, StandardOp>> {
    ops.map_values(|o: CoreOp| Ok::<CoreOp, StandardOp>(o))
}

pub proof fn lemma_ok_ops_add(a: Seq<CoreOp>, b: Seq<CoreOp>)
    ensures
        ok_ops(a + b) == ok_ops(a) + ok_ops(b),
{
    assert(ok_ops(a + b) =~= ok_ops(a) + ok_ops(b));
}

/// Append core instructions to a program, in order.
fn emit<P: AssemblyProgram>(output: &mut P, ops: &Vec<CoreOp>)
    ensures
        final(output).code() == old(output).code() + ok_ops(ops@),
        final(output).function_labels() == old(output).function_labels(),
        final(output).supports_standard() == old(output).supports_standard(),
{
    let mut i: usize = 0;
    while i < ops.len()
        invariant
            i <= ops@.len(),
            output.code() == old(output).code() + ok_ops(ops@.take(i as int)),
            output.function_labels() == old(output).function_labels(),
            output.supports_standard() == old(output).supports_standard(),
        decreases ops@.len() - i,
    {
        output.op(ops[i].duplicate());
        assert(ok_ops(ops@.take(i + 1)) =~= ok_ops(ops@.take(i as int)).push(Ok(ops@[i as int])));
        i = i + 1;
    }
    assert(ops@.take(i as int) =~= ops@);
}


impl UnaryOp {
    pub open spec fn spec_can_apply(self, t: Type) -> bool {
        match self {
            UnaryOp::Negate => t == Type::Int,
            UnaryOp::Not => t == Type::Bool,
            UnaryOp::Deref => t == Type::Pointer,
        }
    }

    pub open spec fn result_type(self, t: Type) -> Type {
        match self {
            UnaryOp::Deref => Type::Int,
            _ => t,
        }
    }

    pub open spec fn typed(self, e: Expr) -> Result<Type, Error> {
        Expr::Unary(self, Box::new(e)).check()
    }

    /// The folded value, where the operand's type admits the operation.
    pub open spec fn fold(self, c: ConstExpr) -> ConstExpr {
        match (self, c) {
            (UnaryOp::Negate, ConstExpr::Int(n)) => ConstExpr::Int(0i64.wrapping_sub(n)),
            (UnaryOp::Not, ConstExpr::Bool(b)) => ConstExpr::Bool(!b),
            _ => c,
        }
    }

    /// Code that replaces the top cell by the result.
    pub open spec fn op_code(self) -> Seq<CoreOp> {
        match self {
            UnaryOp::Negate => seq![CoreOp::Constant(0i64), CoreOp::Subtract, CoreOp::Save],
            UnaryOp::Not => seq![CoreOp::Constant(1i64), CoreOp::Subtract, CoreOp::Save],
            UnaryOp::Deref => seq![CoreOp::Deref, CoreOp::Restore, CoreOp::Refer, CoreOp::Save],
        }
    }

    pub fn can_apply(&self, t: &Type) -> (r: bool)
        ensures
            r == self.spec_can_apply(*t),
    {
        match (self, t) {
            (UnaryOp::Negate, Type::Int) => true,
            (UnaryOp::Not, Type::Bool) => true,
            (UnaryOp::Deref, Type::Pointer) => true,
            _ => false,
        }
    }

    pub fn can_apply_exprs(&self, e: &Expr) -> (r: Result<bool, Error>)
        ensures
            match e.check() {
                Ok(t) => r == Ok::<bool, Error>(self.spec_can_apply(t)),
                Err(err) => r == Err::<bool, Error>(err),
            },
    {
        let t = e.get_type()?;
        Ok(self.can_apply(&t))
    }

    pub fn return_type(&self, e: &Expr) -> (r: Result<Type, Error>)
        ensures
            r == self.typed(*e),
    {
        let t = e.get_type()?;
        if self.can_apply(&t) {
            match self {
                UnaryOp::Deref => Ok(Type::Int),
                _ => Ok(t),
            }
        } else {
            Err(Error::InvalidUnaryOp(*self, e.duplicate()))
        }
    }

    pub fn type_check(&self, e: &Expr) -> (r: Result<(), Error>)
        ensures
            r is Ok <==> self.typed(*e) is Ok,
            r is Err ==> r == Err::<(), Error>(self.typed(*e)->Err_0),
    {
        self.return_type(e)?;
        Ok(())
    }

    pub fn eval(&self, c: &ConstExpr) -> (r: Result<ConstExpr, Error>)
        ensures
            self.spec_can_apply(c.typ()) ==> r == Ok::<ConstExpr, Error>(self.fold(*c)),
            !self.spec_can_apply(c.typ()) ==> r == Err::<ConstExpr, Error>(
                Error::InvalidUnaryOp(*self, Expr::ConstExpr(*c)),
            ),
    {
        match (self, c) {
            (UnaryOp::Negate, ConstExpr::Int(n)) => Ok(ConstExpr::Int(0i64.wrapping_sub(*n))),
            (UnaryOp::Not, ConstExpr::Bool(b)) => Ok(ConstExpr::Bool(!*b)),
            _ => Err(Error::InvalidUnaryOp(*self, Expr::ConstExpr(*c))),
        }
    }

    pub fn compile_types<P: AssemblyProgram>(&self, t: &Type, output: &mut P)
        requires
            self.spec_can_apply(*t),
        ensures
            final(output).code() == old(output).code() + ok_ops(self.op_code()),
            final(output).function_labels() == old(output).function_labels(),
            final(output).supports_standard() == old(output).supports_standard(),
    {
        match self {
            UnaryOp::Negate => emit(
                output,
                &vec![CoreOp::Constant(0i64), CoreOp::Subtract, CoreOp::Save],
            ),
            UnaryOp::Not => emit(output, &vec![CoreOp::Constant(1i64), CoreOp::Subtract, CoreOp::Save]),
            UnaryOp::Deref => emit(
                output,
                &vec![CoreOp::Deref, CoreOp::Restore, CoreOp::Refer, CoreOp::Save],
            ),
        }
    }

    pub fn compile<P: AssemblyProgram>(&self, e: &Expr, output: &mut P) -> (r: Result<(), Error>)
        ensures
            r is Ok <==> self.typed(*e) is Ok,
            r is Err ==> r == Err::<(), Error>(self.typed(*e)->Err_0) && final(output).code()
                == old(output).code(),
            r is Ok ==> final(output).code() == old(output).code() + ok_ops(
                Expr::Unary(*self, Box::new(*e)).code(),
            ),
            final(output).function_labels() == old(output).function_labels(),
            final(output).supports_standard() == old(output).supports_standard(),
    {
        let t = e.get_type()?;
        if !self.can_apply(&t) {
            return Err(Error::InvalidUnaryOp(*self, e.duplicate()));
        }
        e.emit_code(output);
        self.compile_types(&t, output);
        proof {
            lemma_ok_ops_add(e.code(), self.op_code());
        }
        Ok(())
    }
}

impl BinaryOp {
    pub open spec fn spec_can_apply(self, lhs: Type, rhs: Type) -> bool {
        match self {
            BinaryOp::Add | BinaryOp::Subtract | BinaryOp::Multiply => lhs == Type::Int && rhs
                == Type::Int,
            BinaryOp::Equal => lhs == rhs && (lhs == Type::Int || lhs == Type::Bool),
            BinaryOp::LessThan => lhs == Type::Int && rhs == Type::Int,
            BinaryOp::And | BinaryOp::Or => lhs == Type::Bool && rhs == Type::Bool,
        }
    }

    pub open spec fn result_type(self, lhs: Type) -> Type {
        match self {
            BinaryOp::Equal | BinaryOp::LessThan => Type::Bool,
            _ => lhs,
        }
    }

    pub open spec fn typed(self, lhs: Expr, rhs: Expr) -> Result<Type, Error> {
        Expr::Binary(self, Box::new(lhs), Box::new(rhs)).check()
    }

    /// The folded value, where the operands' types admit the operation.
    pub open spec fn fold(self, lhs: ConstExpr, rhs: ConstExpr) -> ConstExpr {
        match (self, lhs, rhs) {
            (BinaryOp::Add, ConstExpr::Int(a), ConstExpr::Int(b)) => ConstExpr::Int(
                a.wrapping_add(b),
            ),
            (BinaryOp::Subtract, ConstExpr::Int(a), ConstExpr::Int(b)) => ConstExpr::Int(
                a.wrapping_sub(b),
            ),
            (BinaryOp::Multiply, ConstExpr::Int(a), ConstExpr::Int(b)) => ConstExpr::Int(
                a.wrapping_mul(b),
            ),
            (BinaryOp::Equal, _, _) => ConstExpr::Bool(lhs == rhs),
            (BinaryOp::LessThan, ConstExpr::Int(a), ConstExpr::Int(b)) => ConstExpr::Bool(a < b),
            (BinaryOp::And, ConstExpr::Bool(a), ConstExpr::Bool(b)) => ConstExpr::Bool(a && b),
            (BinaryOp::Or, ConstExpr::Bool(a), ConstExpr::Bool(b)) => ConstExpr::Bool(a || b),
            _ => lhs,
        }
    }

    /// Code that replaces the two top cells by the result.
    pub open spec fn op_code(self) -> Seq<CoreOp> {
        match self {
            BinaryOp::Add => seq![CoreOp::Move(-1isize), CoreOp::Restore, CoreOp::Move(1isize), CoreOp::Add, CoreOp::Move(-1isize), CoreOp::Save],
            BinaryOp::Subtract => seq![CoreOp::Move(-1isize), CoreOp::Restore, CoreOp::Move(1isize), CoreOp::Subtract, CoreOp::Move(-1isize), CoreOp::Save],
            BinaryOp::Multiply | BinaryOp::And => seq![
                CoreOp::Move(-1isize),
                CoreOp::Restore,
                CoreOp::Move(1isize),
                CoreOp::Multiply,
                CoreOp::Move(-1isize),
                CoreOp::Save,
            ],
            BinaryOp::Equal => seq![
                CoreOp::Move(-1isize),
                CoreOp::Restore,
                CoreOp::Move(1isize),
                CoreOp::Subtract,
                CoreOp::Save,
                CoreOp::Constant(0i64),
                CoreOp::Subtract,
                CoreOp::IsNonNegative,
                CoreOp::Move(-1isize),
                CoreOp::Save,
                CoreOp::Move(1isize),
                CoreOp::Restore,
                CoreOp::IsNonNegative,
                CoreOp::Move(-1isize),
                CoreOp::Multiply,
                CoreOp::Save,
            ],
            BinaryOp::LessThan => seq![
                CoreOp::Move(-1isize),
                CoreOp::Restore,
                CoreOp::Move(1isize),
                CoreOp::Subtract,
                CoreOp::IsNonNegative,
                CoreOp::Move(1isize),
                CoreOp::Save,
                CoreOp::Move(-2isize),
                CoreOp::Restore,
                CoreOp::IsNonNegative,
                CoreOp::Save,
                CoreOp::Move(1isize),
                CoreOp::Restore,
                CoreOp::IsNonNegative,
                CoreOp::Save,
                CoreOp::Move(-1isize),
                CoreOp::Restore,
                CoreOp::Move(1isize),
                CoreOp::Subtract,
                CoreOp::Save,
                CoreOp::Add,
                CoreOp::Move(1isize),
                CoreOp::Add,
                CoreOp::Dec,
                CoreOp::IsNonNegative,
                CoreOp::Save,
                CoreOp::Constant(1i64),
                CoreOp::Subtract,
                CoreOp::Move(-2isize),
                CoreOp::Save,
            ],
            BinaryOp::Or => seq![
                CoreOp::Move(-1isize),
                CoreOp::Restore,
                CoreOp::Move(1isize),
                CoreOp::Add,
                CoreOp::Save,
                CoreOp::Constant(0i64),
                CoreOp::Subtract,
                CoreOp::IsNonNegative,
                CoreOp::Save,
                CoreOp::Constant(1i64),
                CoreOp::Subtract,
                CoreOp::Move(-1isize),
                CoreOp::Save,
            ],
        }
    }

    pub fn can_apply(&self, lhs: &Type, rhs: &Type) -> (r: bool)
        ensures
            r == self.spec_can_apply(*lhs, *rhs),
    {
        match (self, lhs, rhs) {
            (BinaryOp::Add, Type::Int, Type::Int) => true,
            (BinaryOp::Subtract, Type::Int, Type::Int) => true,
            (BinaryOp::Multiply, Type::Int, Type::Int) => true,
            (BinaryOp::Equal, Type::Int, Type::Int) => true,
            (BinaryOp::Equal, Type::Bool, Type::Bool) => true,
            (BinaryOp::LessThan, Type::Int, Type::Int) => true,
            (BinaryOp::And, Type::Bool, Type::Bool) => true,
            (BinaryOp::Or, Type::Bool, Type::Bool) => true,
            _ => false,
        }
    }

    pub fn can_apply_exprs(&self, lhs: &Expr, rhs: &Expr) -> (r: Result<bool, Error>)
        ensures
            match (lhs.check(), rhs.check()) {
                (Ok(a), Ok(b)) => r == Ok::<bool, Error>(self.spec_can_apply(a, b)),
                (Err(e), _) => r == Err::<bool, Error>(e),
                (Ok(_), Err(e)) => r == Err::<bool, Error>(e),
            },
    {
        let a = lhs.get_type()?;
        let b = rhs.get_type()?;
        Ok(self.can_apply(&a, &b))
    }

    pub fn return_type(&self, lhs: &Expr, rhs: &Expr) -> (r: Result<Type, Error>)
        ensures
            r == self.typed(*lhs, *rhs),
    {
        let a = lhs.get_type()?;
        let b = rhs.get_type()?;
        if self.can_apply(&a, &b) {
            match self {
                BinaryOp::Equal | BinaryOp::LessThan => Ok(Type::Bool),
                _ => Ok(a),
            }
        } else {
            Err(Error::InvalidBinaryOp(*self, lhs.duplicate(), rhs.duplicate()))
        }
    }

    pub fn type_check(&self, lhs: &Expr, rhs: &Expr) -> (r: Result<(), Error>)
        ensures
            r is Ok <==> self.typed(*lhs, *rhs) is Ok,
            r is Err ==> r == Err::<(), Error>(self.typed(*lhs, *rhs)->Err_0),
    {
        self.return_type(lhs, rhs)?;
        Ok(())
    }

    pub fn eval(&self, lhs: &ConstExpr, rhs: &ConstExpr) -> (r: Result<ConstExpr, Error>)
        ensures
            self.spec_can_apply(lhs.typ(), rhs.typ()) ==> r == Ok::<ConstExpr, Error>(
                self.fold(*lhs, *rhs),
            ),
            !self.spec_can_apply(lhs.typ(), rhs.typ()) ==> r == Err::<ConstExpr, Error>(
                Error::InvalidBinaryOp(*self, Expr::ConstExpr(*lhs), Expr::ConstExpr(*rhs)),
            ),
    {
        match (self, lhs, rhs) {
            (BinaryOp::Add, ConstExpr::Int(a), ConstExpr::Int(b)) => Ok(
                ConstExpr::Int(a.wrapping_add(*b)),
            ),
            (BinaryOp::Subtract, ConstExpr::Int(a), ConstExpr::Int(b)) => Ok(
                ConstExpr::Int(a.wrapping_sub(*b)),
            ),
            (BinaryOp::Multiply, ConstExpr::Int(a), ConstExpr::Int(b)) => Ok(
                ConstExpr::Int(a.wrapping_mul(*b)),
            ),
            (BinaryOp::Equal, ConstExpr::Int(a), ConstExpr::Int(b)) => Ok(
                ConstExpr::Bool(*a == *b),
            ),
            (BinaryOp::Equal, ConstExpr::Bool(a), ConstExpr::Bool(b)) => Ok(
                ConstExpr::Bool(*a == *b),
            ),
            (BinaryOp::LessThan, ConstExpr::Int(a), ConstExpr::Int(b)) => Ok(
                ConstExpr::Bool(*a < *b),
            ),
            (BinaryOp::And, ConstExpr::Bool(a), ConstExpr::Bool(b)) => Ok(
                ConstExpr::Bool(*a && *b),
            ),
            (BinaryOp::Or, ConstExpr::Bool(a), ConstExpr::Bool(b)) => Ok(
                ConstExpr::Bool(*a || *b),
            ),
            _ => Err(Error::InvalidBinaryOp(*self, Expr::ConstExpr(*lhs), Expr::ConstExpr(*rhs))),
        }
    }

    pub fn compile_types<P: AssemblyProgram>(&self, lhs: &Type, rhs: &Type, output: &mut P)
        requires
            self.spec_can_apply(*lhs, *rhs),
        ensures
            final(output).code() == old(output).code() + ok_ops(self.op_code()),
            final(output).function_labels() == old(output).function_labels(),
            final(output).supports_standard() == old(output).supports_standard(),
    {
        let mut ops = vec![CoreOp::Move(-1isize), CoreOp::Restore, CoreOp::Move(1isize)];
        match self {
            BinaryOp::Add => {
                ops.push(CoreOp::Add);
                ops.push(CoreOp::Move(-1isize));
                ops.push(CoreOp::Save);
            },
            BinaryOp::Subtract => {
                ops.push(CoreOp::Subtract);
                ops.push(CoreOp::Move(-1isize));
                ops.push(CoreOp::Save);
            },
            BinaryOp::Multiply | BinaryOp::And => {
                ops.push(CoreOp::Multiply);
                ops.push(CoreOp::Move(-1isize));
                ops.push(CoreOp::Save);
            },
            BinaryOp::Equal => {
                ops.push(CoreOp::Subtract);
                ops.push(CoreOp::Save);
                ops.push(CoreOp::Constant(0i64));
                ops.push(CoreOp::Subtract);
                ops.push(CoreOp::IsNonNegative);
                ops.push(CoreOp::Move(-1isize));
                ops.push(CoreOp::Save);
                ops.push(CoreOp::Move(1isize));
                ops.push(CoreOp::Restore);
                ops.push(CoreOp::IsNonNegative);
                ops.push(CoreOp::Move(-1isize));
                ops.push(CoreOp::Multiply);
                ops.push(CoreOp::Save);
            },
            BinaryOp::LessThan => {
                ops.push(CoreOp::Subtract);
                ops.push(CoreOp::IsNonNegative);
                ops.push(CoreOp::Move(1isize));
                ops.push(CoreOp::Save);
                ops.push(CoreOp::Move(-2isize));
                ops.push(CoreOp::Restore);
                ops.push(CoreOp::IsNonNegative);
                ops.push(CoreOp::Save);
                ops.push(CoreOp::Move(1isize));
                ops.push(CoreOp::Restore);
                ops.push(CoreOp::IsNonNegative);
                ops.push(CoreOp::Save);
                ops.push(CoreOp::Move(-1isize));
                ops.push(CoreOp::Restore);
                ops.push(CoreOp::Move(1isize));
                ops.push(CoreOp::Subtract);
                ops.push(CoreOp::Save);
                ops.push(CoreOp::Add);
                ops.push(CoreOp::Move(1isize));
                ops.push(CoreOp::Add);
                ops.push(CoreOp::Dec);
                ops.push(CoreOp::IsNonNegative);
                ops.push(CoreOp::Save);
                ops.push(CoreOp::Constant(1i64));
                ops.push(CoreOp::Subtract);
                ops.push(CoreOp::Move(-2isize));
                ops.push(CoreOp::Save);
            },
            BinaryOp::Or => {
                ops.push(CoreOp::Add);
                ops.push(CoreOp::Save);
                ops.push(CoreOp::Constant(0i64));
                ops.push(CoreOp::Subtract);
                ops.push(CoreOp::IsNonNegative);
                ops.push(CoreOp::Save);
                ops.push(CoreOp::Constant(1i64));
                ops.push(CoreOp::Subtract);
                ops.push(CoreOp::Move(-1isize));
                ops.push(CoreOp::Save);
            },
        }
        assert(ops@ =~= self.op_code());
        emit(output, &ops);
    }

    pub fn compile<P: AssemblyProgram>(&self, lhs: &Expr, rhs: &Expr, output: &mut P) -> (r:
        Result<(), Error>)
        ensures
            r is Ok <==> self.typed(*lhs, *rhs) is Ok,
            r is Err ==> r == Err::<(), Error>(self.typed(*lhs, *rhs)->Err_0) && final(output).code() == old(output).code(),
            r is Ok ==> final(output).code() == old(output).code() + ok_ops(
                Expr::Binary(*self, Box::new(*lhs), Box::new(*rhs)).code(),
            ),
            final(output).function_labels() == old(output).function_labels(),
            final(output).supports_standard() == old(output).supports_standard(),
    {
        let a = lhs.get_type()?;
        let b = rhs.get_type()?;
        if !self.can_apply(&a, &b) {
            return Err(Error::InvalidBinaryOp(*self, lhs.duplicate(), rhs.duplicate()));
        }
        lhs.emit_code(output);
        rhs.emit_code(output);
        self.compile_types(&a, &b, output);
        proof {
            lemma_ok_ops_add(lhs.code(), rhs.code());
            lemma_ok_ops_add(lhs.code() + rhs.code(), self.op_code());
        }
        Ok(())
    }
}

impl TernaryOp {
    pub open spec fn spec_can_apply(self, a: Type, b: Type, c: Type) -> bool {
        a == Type::Bool && b == c && b != Type::Unit
    }

    pub open spec fn typed(self, a: Expr, b: Expr, c: Expr) -> Result<Type, Error> {
        Expr::Ternary(self, Box::new(a), Box::new(b), Box::new(c)).check()
    }

    /// The folded value, where the operands' types admit the operation.
    pub open spec fn fold(self, a: ConstExpr, b: ConstExpr, c: ConstExpr) -> ConstExpr {
        if a == ConstExpr::Bool(true) {
            b
        } else {
            c
        }
    }

    /// Code that replaces the three top cells by the result.
    pub open spec fn op_code(self) -> Seq<CoreOp> {
        seq![
            CoreOp::Move(-2isize),
            CoreOp::Constant(1i64),
            CoreOp::Subtract,
            CoreOp::Move(2isize),
            CoreOp::Multiply,
            CoreOp::Save,
            CoreOp::Move(-2isize),
            CoreOp::Restore,
            CoreOp::Move(1isize),
            CoreOp::Multiply,
            CoreOp::Move(1isize),
            CoreOp::Add,
            CoreOp::Move(-2isize),
            CoreOp::Save,
        ]
    }

    pub fn can_apply(&self, a: &Type, b: &Type, c: &Type) -> (r: bool)
        ensures
            r == self.spec_can_apply(*a, *b, *c),
    {
        match (a, b, c) {
            (Type::Bool, Type::Int, Type::Int) => true,
            (Type::Bool, Type::Bool, Type::Bool) => true,
            (Type::Bool, Type::Pointer, Type::Pointer) => true,
            _ => false,
        }
    }

    pub fn can_apply_exprs(&self, a: &Expr, b: &Expr, c: &Expr) -> (r: Result<bool, Error>)
        ensures
            match (a.check(), b.check(), c.check()) {
                (Ok(ta), Ok(tb), Ok(tc)) => r == Ok::<bool, Error>(self.spec_can_apply(ta, tb, tc)),
                (Err(e), _, _) => r == Err::<bool, Error>(e),
                (Ok(_), Err(e), _) => r == Err::<bool, Error>(e),
                (Ok(_), Ok(_), Err(e)) => r == Err::<bool, Error>(e),
            },
    {
        let ta = a.get_type()?;
        let tb = b.get_type()?;
        let tc = c.get_type()?;
        Ok(self.can_apply(&ta, &tb, &tc))
    }

    pub fn return_type(&self, a: &Expr, b: &Expr, c: &Expr) -> (r: Result<Type, Error>)
        ensures
            r == self.typed(*a, *b, *c),
    {
        let ta = a.get_type()?;
        let tb = b.get_type()?;
        let tc = c.get_type()?;
        if self.can_apply(&ta, &tb, &tc) {
            Ok(tc)
        } else {
            Err(Error::InvalidTernaryOp(*self, a.duplicate(), b.duplicate(), c.duplicate()))
        }
    }

    pub fn type_check(&self, a: &Expr, b: &Expr, c: &Expr) -> (r: Result<(), Error>)
        ensures
            r is Ok <==> self.typed(*a, *b, *c) is Ok,
            r is Err ==> r == Err::<(), Error>(self.typed(*a, *b, *c)->Err_0),
    {
        self.return_type(a, b, c)?;
        Ok(())
    }

    pub fn eval(&self, a: &ConstExpr, b: &ConstExpr, c: &ConstExpr) -> (r: Result<
        ConstExpr,
        Error,
    >)
        ensures
            self.spec_can_apply(a.typ(), b.typ(), c.typ()) ==> r == Ok::<ConstExpr, Error>(
                self.fold(*a, *b, *c),
            ),
            !self.spec_can_apply(a.typ(), b.typ(), c.typ()) ==> r == Err::<ConstExpr, Error>(
                Error::InvalidTernaryOp(
                    *self,
                    Expr::ConstExpr(*a),
                    Expr::ConstExpr(*b),
                    Expr::ConstExpr(*c),
                ),
            ),
    {
        if self.can_apply(&a.get_type(), &b.get_type(), &c.get_type()) {
            match a {
                ConstExpr::Bool(true) => Ok(*b),
                _ => Ok(*c),
            }
        } else {
            Err(
                Error::InvalidTernaryOp(
                    *self,
                    Expr::ConstExpr(*a),
                    Expr::ConstExpr(*b),
                    Expr::ConstExpr(*c),
                ),
            )
        }
    }

    pub fn compile_types<P: AssemblyProgram>(&self, a: &Type, b: &Type, c: &Type, output: &mut P)
        requires
            self.spec_can_apply(*a, *b, *c),
        ensures
            final(output).code() == old(output).code() + ok_ops(self.op_code()),
            final(output).function_labels() == old(output).function_labels(),
            final(output).supports_standard() == old(output).supports_standard(),
    {
        let ops = vec![
            CoreOp::Move(-2isize),
            CoreOp::Constant(1i64),
            CoreOp::Subtract,
            CoreOp::Move(2isize),
            CoreOp::Multiply,
            CoreOp::Save,
            CoreOp::Move(-2isize),
            CoreOp::Restore,
            CoreOp::Move(1isize),
            CoreOp::Multiply,
            CoreOp::Move(1isize),
            CoreOp::Add,
            CoreOp::Move(-2isize),
            CoreOp::Save,
        ];
        emit(output, &ops);
    }

    pub fn compile<P: AssemblyProgram>(&self, a: &Expr, b: &Expr, c: &Expr, output: &mut P) -> (r:
        Result<(), Error>)
        ensures
            r is Ok <==> self.typed(*a, *b, *c) is Ok,
            r is Err ==> r == Err::<(), Error>(self.typed(*a, *b, *c)->Err_0) && final(output).code() == old(output).code(),
            r is Ok ==> final(output).code() == old(output).code() + ok_ops(
                Expr::Ternary(*self, Box::new(*a), Box::new(*b), Box::new(*c)).code(),
            ),
            final(output).function_labels() == old(output).function_labels(),
            final(output).supports_standard() == old(output).supports_standard(),
    {
        let ta = a.get_type()?;
        let tb = b.get_type()?;
        let tc = c.get_type()?;
        if !self.can_apply(&ta, &tb, &tc) {
            return Err(
                Error::InvalidTernaryOp(*self, a.duplicate(), b.duplicate(), c.duplicate()),
            );
        }
        a.emit_code(output);
        b.emit_code(output);
        c.emit_code(output);
        self.compile_types(&ta, &tb, &tc, output);
        proof {
            lemma_ok_ops_add(a.code(), b.code());
            lemma_ok_ops_add(a.code() + b.code(), c.code());
            lemma_ok_ops_add(a.code() + b.code() + c.code(), self.op_code());
        }
        Ok(())
    }
}

impl Expr {
    /// The type of the expression, or the first type error found, operands first.
    pub open spec fn check(self) -> Result<Type, Error>
        decreases self,
    {
        match self {
            Expr::ConstExpr(c) => Ok(c.typ()),
            Expr::Address(_) => Ok(Type::Pointer),
            Expr::Assign(op, dst, src) => {
                match (*dst).check() {
                    Err(e) => Err(e),
                    Ok(d) => match (*src).check() {
                        Err(e) => Err(e),
                        Ok(s) => if op.spec_can_apply(d, s) {
                            Ok(d)
                        } else {
                            Err(Error::InvalidAssignOp(op, *dst, *src))
                        },
                    },
                }
            },
            Expr::Unary(op, e) => {
                match (*e).check() {
                    Err(err) => Err(err),
                    Ok(t) => if op.spec_can_apply(t) {
                        Ok(op.result_type(t))
                    } else {
                        Err(Error::InvalidUnaryOp(op, *e))
                    },
                }
            },
            Expr::Binary(op, lhs, rhs) => {
                match (*lhs).check() {
                    Err(e) => Err(e),
                    Ok(l) => match (*rhs).check() {
                        Err(e) => Err(e),
                        Ok(r) => if op.spec_can_apply(l, r) {
                            Ok(op.result_type(l))
                        } else {
                            Err(Error::InvalidBinaryOp(op, *lhs, *rhs))
                        },
                    },
                }
            },
            Expr::Ternary(op, a, b, c) => {
                match (*a).check() {
                    Err(e) => Err(e),
                    Ok(ta) => match (*b).check() {
                        Err(e) => Err(e),
                        Ok(tb) => match (*c).check() {
                            Err(e) => Err(e),
                            Ok(tc) => if op.spec_can_apply(ta, tb, tc) {
                                Ok(tc)
                            } else {
                                Err(Error::InvalidTernaryOp(op, *a, *b, *c))
                            },
                        },
                    },
                }
            },
        }
    }

    /// The value of an expression made of constants, or the first error.
    pub open spec fn value(self) -> Result<ConstExpr, Error>
        decreases self,
    {
        match self {
            Expr::ConstExpr(c) => Ok(c),
            Expr::Address(a) => Err(Error::Unexpected(CoreOp::Where, a)),
            Expr::Assign(op, d, s) => match d.value() {
                Err(e) => Err(e),
                Ok(dc) => match s.value() {
                    Err(e) => Err(e),
                    Ok(sc) => Err(
                        Error::InvalidAssignOp(op, Expr::ConstExpr(dc), Expr::ConstExpr(sc)),
                    ),
                },
            },
            Expr::Unary(op, e) => match e.value() {
                Err(err) => Err(err),
                Ok(c) => if op.spec_can_apply(c.typ()) {
                    Ok(op.fold(c))
                } else {
                    Err(Error::InvalidUnaryOp(op, Expr::ConstExpr(c)))
                },
            },
            Expr::Binary(op, l, r) => match l.value() {
                Err(e) => Err(e),
                Ok(lc) => match r.value() {
                    Err(e) => Err(e),
                    Ok(rc) => if op.spec_can_apply(lc.typ(), rc.typ()) {
                        Ok(op.fold(lc, rc))
                    } else {
                        Err(Error::InvalidBinaryOp(op, Expr::ConstExpr(lc), Expr::ConstExpr(rc)))
                    },
                },
            },
            Expr::Ternary(op, a, b, c) => match a.value() {
                Err(e) => Err(e),
                Ok(ac) => match b.value() {
                    Err(e) => Err(e),
                    Ok(bc) => match c.value() {
                        Err(e) => Err(e),
                        Ok(cc) => if op.spec_can_apply(ac.typ(), bc.typ(), cc.typ()) {
                            Ok(op.fold(ac, bc, cc))
                        } else {
                            Err(
                                Error::InvalidTernaryOp(
                                    op,
                                    Expr::ConstExpr(ac),
                                    Expr::ConstExpr(bc),
                                    Expr::ConstExpr(cc),
                                ),
                            )
                        },
                    },
                },
            },
        }
    }

    /// The code of an expression: operands first, each leaving its value on the
    /// stack, then the operation.
    pub open spec fn code(self) -> Seq<CoreOp>
        decreases self,
    {
        match self {
            Expr::ConstExpr(c) => push_code(c.cell()),
            Expr::Address(a) => push_code(a as i64),
            Expr::Assign(op, d, s) => d.code() + s.code() + op.op_code(),
            Expr::Unary(op, e) => e.code() + op.op_code(),
            Expr::Binary(op, l, r) => l.code() + r.code() + op.op_code(),
            Expr::Ternary(op, a, b, c) => a.code() + b.code() + c.code() + op.op_code(),
        }
    }

    /// A copy of this expression.
    pub fn duplicate(&self) -> (r: Expr)
        ensures
            r == *self,
        decreases self,
    {
        match self {
            Expr::ConstExpr(c) => Expr::ConstExpr(*c),
            Expr::Address(a) => Expr::Address(*a),
            Expr::Assign(op, d, s) => Expr::Assign(*op, Box::new(d.duplicate()), Box::new(s.duplicate())),
            Expr::Unary(op, e) => Expr::Unary(*op, Box::new(e.duplicate())),
            Expr::Binary(op, l, r) => Expr::Binary(
                *op,
                Box::new(l.duplicate()),
                Box::new(r.duplicate()),
            ),
            Expr::Ternary(op, a, b, c) => Expr::Ternary(
                *op,
                Box::new(a.duplicate()),
                Box::new(b.duplicate()),
                Box::new(c.duplicate()),
            ),
        }
    }

    /// The type of the expression, checking every node.
    pub fn get_type(&self) -> (r: Result<Type, Error>)
        ensures
            r == self.check(),
        decreases self,
    {
        match self {
            Expr::ConstExpr(c) => Ok(c.get_type()),
            Expr::Address(_) => Ok(Type::Pointer),
            Expr::Assign(op, d, s) => {
                let x = d.get_type()?;
                let y = s.get_type()?;
                if op.can_apply(&x, &y) {
                    Ok(x)
                } else {
                    Err(Error::InvalidAssignOp(*op, d.duplicate(), s.duplicate()))
                }
            },
            Expr::Unary(op, e) => {
                let t = e.get_type()?;
                if op.can_apply(&t) {
                    match op {
                        UnaryOp::Deref => Ok(Type::Int),
                        _ => Ok(t),
                    }
                } else {
                    Err(Error::InvalidUnaryOp(*op, e.duplicate()))
                }
            },
            Expr::Binary(op, l, r) => {
                let x = l.get_type()?;
                let y = r.get_type()?;
                if op.can_apply(&x, &y) {
                    match op {
                        BinaryOp::Equal | BinaryOp::LessThan => Ok(Type::Bool),
                        _ => Ok(x),
                    }
                } else {
                    Err(Error::InvalidBinaryOp(*op, l.duplicate(), r.duplicate()))
                }
            },
            Expr::Ternary(op, a, b, c) => {
                let x = a.get_type()?;
                let y = b.get_type()?;
                let z = c.get_type()?;
                if op.can_apply(&x, &y, &z) {
                    Ok(z)
                } else {
                    Err(Error::InvalidTernaryOp(*op, a.duplicate(), b.duplicate(), c.duplicate()))
                }
            },
        }
    }

    /// Check the types of every node.
    pub fn type_check(&self) -> (r: Result<(), Error>)
        ensures
            r is Ok <==> self.check() is Ok,
            r is Err ==> r == Err::<(), Error>(self.check()->Err_0),
    {
        self.get_type()?;
        Ok(())
    }

    /// Fold an expression made of constants into its value.
    pub fn eval(&self) -> (r: Result<ConstExpr, Error>)
        ensures
            r == self.value(),
        decreases self,
    {
        match self {
            Expr::ConstExpr(c) => Ok(*c),
            Expr::Address(a) => Err(Error::Unexpected(CoreOp::Where, *a)),
            Expr::Assign(op, d, s) => {
                let dc = d.eval()?;
                let sc = s.eval()?;
                op.eval(&dc, &sc)
            },
            Expr::Unary(op, e) => {
                let c = e.eval()?;
                op.eval(&c)
            },
            Expr::Binary(op, l, r) => {
                let lc = l.eval()?;
                let rc = r.eval()?;
                op.eval(&lc, &rc)
            },
            Expr::Ternary(op, a, b, c) => {
                let ac = a.eval()?;
                let bc = b.eval()?;
                let cc = c.eval()?;
                op.eval(&ac, &bc, &cc)
            },
        }
    }

    /// Emit the code of a well-typed expression.
    fn emit_code<P: AssemblyProgram>(&self, output: &mut P)
        requires
            self.check() is Ok,
        ensures
            final(output).code() == old(output).code() + ok_ops(self.code()),
            final(output).function_labels() == old(output).function_labels(),
            final(output).supports_standard() == old(output).supports_standard(),
        decreases self,
    {
        match self {
            Expr::ConstExpr(c) => {
                emit(output, &vec![CoreOp::Move(1isize), CoreOp::Constant(c.to_cell()), CoreOp::Save]);
            },
            Expr::Address(a) => {
                emit(output, &vec![CoreOp::Move(1isize), CoreOp::Constant(*a as i64), CoreOp::Save]);
            },
            Expr::Assign(op, d, s) => {
                let td = d.get_type();
                let ts = s.get_type();
                match (td, ts) {
                    (Ok(x), Ok(y)) => {
                        d.emit_code(output);
                        s.emit_code(output);
                        op.compile_types(&x, &y, output);
                        proof {
                            lemma_ok_ops_add(d.code(), s.code());
                            lemma_ok_ops_add(d.code() + s.code(), op.op_code());
                        }
                    },
                    _ => {},
                }
            },
            Expr::Unary(op, e) => {
                match e.get_type() {
                    Ok(t) => {
                        e.emit_code(output);
                        op.compile_types(&t, output);
                        proof {
                            lemma_ok_ops_add(e.code(), op.op_code());
                        }
                    },
                    _ => {},
                }
            },
            Expr::Binary(op, l, r) => {
                match (l.get_type(), r.get_type()) {
                    (Ok(x), Ok(y)) => {
                        l.emit_code(output);
                        r.emit_code(output);
                        op.compile_types(&x, &y, output);
                        proof {
                            lemma_ok_ops_add(l.code(), r.code());
                            lemma_ok_ops_add(l.code() + r.code(), op.op_code());
                        }
                    },
                    _ => {},
                }
            },
            Expr::Ternary(op, a, b, c) => {
                match (a.get_type(), b.get_type(), c.get_type()) {
                    (Ok(x), Ok(y), Ok(z)) => {
                        a.emit_code(output);
                        b.emit_code(output);
                        c.emit_code(output);
                        op.compile_types(&x, &y, &z, output);
                        proof {
                            lemma_ok_ops_add(a.code(), b.code());
                            lemma_ok_ops_add(a.code() + b.code(), c.code());
                            lemma_ok_ops_add(a.code() + b.code() + c.code(), op.op_code());
                        }
                    },
                    _ => {},
                }
            },
        }
    }

    /// Type-check the expression, then append its code.
    pub fn compile_expr<P: AssemblyProgram>(&self, output: &mut P) -> (r: Result<(), Error>)
        ensures
            r is Ok <==> self.check() is Ok,
            r is Err ==> r == Err::<(), Error>(self.check()->Err_0) && final(output).code()
                == old(output).code(),
            r is Ok ==> final(output).code() == old(output).code() + ok_ops(self.code()),
            final(output).function_labels() == old(output).function_labels(),
            final(output).supports_standard() == old(output).supports_standard(),
    {
        self.get_type()?;
        self.emit_code(output);
        Ok(())
    }
}

} // verus!
