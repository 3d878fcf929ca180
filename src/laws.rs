use vstd::prelude::*;

use crate::globals::{last_index_of, prefix_size, Globals};
use crate::interpreter::{exec, exec_from, is_control, step, Frame, State};
use crate::ops::{bool_cell, push_code, AssignOp, BinaryOp, ConstExpr, Expr, TernaryOp, UnaryOp};
use crate::assembly::Error;
use crate::vm::CoreOp;

verus! {

/// Right after a label is declared, it resolves to the ID of that declaration
/// (the number of declarations before it), even if it was declared before;
/// every other name keeps its ID.
pub proof fn label_resolves_to_latest_declaration(
    labels: Seq<Seq<char>>,
    name: Seq<char>,
    other: Seq<char>,
)
    ensures
        last_index_of(labels.push(name), name) == labels.len(),
        other != name ==> last_index_of(labels.push(name), other) == last_index_of(labels, other),
{
    assert(labels.push(name).drop_last() =~= labels);
}

proof fn lemma_last_index_unique(names: Seq<Seq<char>>, i: int)
    requires
        0 <= i < names.len(),
        forall|j: int| i < j < names.len() ==> names[j] != names[i],
    ensures
        last_index_of(names, names[i]) == i,
    decreases names.len(),
{
    if names.len() - 1 != i {
        let shorter = names.drop_last();
        assert(shorter[i] == names[i]);
        lemma_last_index_unique(shorter, i);
    }
}

/// A global that is not declared again later lies right after the globals
/// declared before it: its offset is the sum of their sizes. The total is the
/// sum of all sizes.
pub proof fn global_offset_is_sum_of_earlier_sizes(g: Globals, i: int)
    requires
        0 <= i < g.names().len(),
        forall|j: int| i < j < g.names().len() ==> g.names()[j] != g.names()[i],
    ensures
        g.offset_of(g.names()[i]) == prefix_size(g.sizes(), i),
        g.is_declared(g.names()[i]),
        g.total() == prefix_size(g.sizes(), g.sizes().len() as int),
{
    lemma_last_index_unique(g.names(), i);
}

/// Entries pushed on the matching stack come back in reverse order: after
/// `k` pops the top is the `k`-th latest push, and popping all of them leaves
/// the stack as it was.
pub proof fn matching_stack_is_last_in_first_out(
    stack: Seq<(CoreOp, usize)>,
    pushed: Seq<(CoreOp, usize)>,
    k: int,
)
    requires
        0 <= k < pushed.len(),
    ensures
        (stack + pushed).take(stack.len() + pushed.len() - k).last() == pushed[pushed.len() - 1 - k],
        (stack + pushed).take(stack.len() as int) == stack,
{
    assert((stack + pushed).take(stack.len() as int) =~= stack);
}

/// Type-checking an assignment succeeds exactly when the operation applies to
/// the operands' types.
pub proof fn assign_check_agrees_with_can_apply(op: AssignOp, dst: Expr, src: Expr)
    requires
        dst.check() is Ok,
        src.check() is Ok,
    ensures
        op.typed(dst, src) is Ok <==> op.spec_can_apply(dst.check()->Ok_0, src.check()->Ok_0),
{
}

/// Type-checking a unary operation succeeds exactly when it applies to the
/// operand's type.
pub proof fn unary_check_agrees_with_can_apply(op: UnaryOp, e: Expr)
    requires
        e.check() is Ok,
    ensures
        op.typed(e) is Ok <==> op.spec_can_apply(e.check()->Ok_0),
{
}

/// Type-checking a binary operation succeeds exactly when it applies to the
/// operands' types.
pub proof fn binary_check_agrees_with_can_apply(op: BinaryOp, lhs: Expr, rhs: Expr)
    requires
        lhs.check() is Ok,
        rhs.check() is Ok,
    ensures
        op.typed(lhs, rhs) is Ok <==> op.spec_can_apply(lhs.check()->Ok_0, rhs.check()->Ok_0),
{
}

/// Type-checking a ternary operation succeeds exactly when it applies to the
/// operands' types.
pub proof fn ternary_check_agrees_with_can_apply(op: TernaryOp, a: Expr, b: Expr, c: Expr)
    requires
        a.check() is Ok,
        b.check() is Ok,
        c.check() is Ok,
    ensures
        op.typed(a, b, c) is Ok <==> op.spec_can_apply(
            a.check()->Ok_0,
            b.check()->Ok_0,
            c.check()->Ok_0,
        ),
{
}


/// Stack cells that the code of an expression uses above the current one.
pub open spec fn depth(e: Expr) -> int
    decreases e,
{
    match e {
        Expr::ConstExpr(_) => 1,
        Expr::Address(_) => 1,
        Expr::Assign(_, d, s) => max(depth(*d), 1 + depth(*s)),
        Expr::Unary(_, x) => depth(*x),
        Expr::Binary(op, l, r) => max(max(depth(*l), 1 + depth(*r)), 2 + scratch_cells(op)),
        Expr::Ternary(_, a, b, c) => max(max(depth(*a), 1 + depth(*b)), 2 + depth(*c)),
    }
}

/// Cells above its operands that the code of a binary operation uses.
pub open spec fn scratch_cells(op: BinaryOp) -> int {
    match op {
        BinaryOp::LessThan => 1,
        _ => 0,
    }
}

pub open spec fn max(a: int, b: int) -> int {
    if a >= b {
        a
    } else {
        b
    }
}

/// `after` is `before` with one more cell, holding `v`, on the value stack.
pub open spec fn leaves_on_top(before: State, after: State, v: i64) -> bool {
    &&& after.ptr == before.ptr + 1
    &&& after.tape.len() == before.tape.len()
    &&& after.tape[before.ptr + 1] == v
    &&& forall|j: int| 0 <= j <= before.ptr ==> after.tape[j] == before.tape[j]
    &&& after.refs == before.refs
    &&& after.input == before.input
    &&& after.output == before.output
}

proof fn lemma_exec_from_step(ops: Seq<CoreOp>, i: int, s: State)
    requires
        0 <= i < ops.len(),
        step(s, ops[i]) is Ok,
    ensures
        exec_from(ops, i, s) == exec_from(ops, i + 1, step(s, ops[i])->Ok_0),
{
}

proof fn lemma_exec_from_end(ops: Seq<CoreOp>, s: State)
    ensures
        exec_from(ops, ops.len() as int, s) == Ok::<State, crate::vm::Error>(s),
{
}

proof fn lemma_exec_from_shift(a: Seq<CoreOp>, b: Seq<CoreOp>, j: int, s: State)
    requires
        0 <= j <= b.len(),
    ensures
        exec_from(a + b, a.len() + j, s) == exec_from(b, j, s),
    decreases b.len() - j,
{
    if j < b.len() {
        assert((a + b)[a.len() + j] == b[j]);
        match step(s, b[j]) {
            Ok(s2) => lemma_exec_from_shift(a, b, j + 1, s2),
            Err(_) => {},
        }
    }
}

proof fn lemma_exec_from_concat(a: Seq<CoreOp>, b: Seq<CoreOp>, i: int, s: State)
    requires
        0 <= i <= a.len(),
    ensures
        exec_from(a + b, i, s) == match exec_from(a, i, s) {
            Ok(s2) => exec_from(b, 0, s2),
            Err(e) => Err(e),
        },
    decreases a.len() - i,
{
    if i == a.len() {
        lemma_exec_from_shift(a, b, 0, s);
    } else {
        assert((a + b)[i] == a[i]);
        match step(s, a[i]) {
            Ok(s2) => lemma_exec_from_concat(a, b, i + 1, s2),
            Err(_) => {},
        }
    }
}

proof fn lemma_mul_small(x: i64)
    ensures
        1i64.wrapping_mul(x) == x,
        0i64.wrapping_mul(x) == 0,
        x.wrapping_mul(1i64) == x,
        x.wrapping_mul(0i64) == 0,
{
    assert(1i64 * x == x);
    assert(0i64 * x == 0);
    assert(x * 1i64 == x);
    assert(x * 0i64 == 0);
}

proof fn lemma_unary_code(op: UnaryOp, c: ConstExpr, s: State)
    requires
        0 <= s.ptr < s.tape.len(),
        s.tape[s.ptr] == c.cell(),
        op.spec_can_apply(c.typ()),
    ensures
        exec_from(op.op_code(), 0, s) is Ok,
        leaves_on_top(
            State { ptr: s.ptr - 1, ..s },
            exec_from(op.op_code(), 0, s)->Ok_0,
            op.fold(c).cell(),
        ),
{
    match op {
        UnaryOp::Deref => {},
        UnaryOp::Negate => {
            let c = UnaryOp::Negate.op_code();
            let s1 = step(s, c[0])->Ok_0;
            lemma_exec_from_step(c, 0, s);
            let s2 = step(s1, c[1])->Ok_0;
            lemma_exec_from_step(c, 1, s1);
            let s3 = step(s2, c[2])->Ok_0;
            lemma_exec_from_step(c, 2, s2);
            lemma_exec_from_end(c, s3);
        },
        UnaryOp::Not => {
            let c = UnaryOp::Not.op_code();
            let s1 = step(s, c[0])->Ok_0;
            lemma_exec_from_step(c, 0, s);
            let s2 = step(s1, c[1])->Ok_0;
            lemma_exec_from_step(c, 1, s1);
            let s3 = step(s2, c[2])->Ok_0;
            lemma_exec_from_step(c, 2, s2);
            lemma_exec_from_end(c, s3);
        },
    }
}

/// Add, subtract, multiply and `and` share one shape: load the left operand,
/// combine it with the right one, store the result in the left one's cell.
proof fn lemma_binary_code_combine(op: BinaryOp, l: ConstExpr, r: ConstExpr, s: State)
    requires
        op is Add || op is Subtract || op is Multiply || op is And,
        1 <= s.ptr < s.tape.len(),
        s.tape[s.ptr - 1] == l.cell(),
        s.tape[s.ptr] == r.cell(),
        op.spec_can_apply(l.typ(), r.typ()),
    ensures
        exec_from(op.op_code(), 0, s) is Ok,
        leaves_on_top(
            State { ptr: s.ptr - 2, ..s },
            exec_from(op.op_code(), 0, s)->Ok_0,
            op.fold(l, r).cell(),
        ),
{
    lemma_mul_small(r.cell());
    let c = op.op_code();
    let s1 = step(s, c[0])->Ok_0;
    lemma_exec_from_step(c, 0, s);
    let s2 = step(s1, c[1])->Ok_0;
    lemma_exec_from_step(c, 1, s1);
    let s3 = step(s2, c[2])->Ok_0;
    lemma_exec_from_step(c, 2, s2);
    let s4 = step(s3, c[3])->Ok_0;
    lemma_exec_from_step(c, 3, s3);
    let s5 = step(s4, c[4])->Ok_0;
    lemma_exec_from_step(c, 4, s4);
    let s6 = step(s5, c[5])->Ok_0;
    lemma_exec_from_step(c, 5, s5);
    lemma_exec_from_end(c, s6);
}

proof fn lemma_equal_cells(x: i64, y: i64)
    ensures
        bool_cell(x.wrapping_sub(y) >= 0).wrapping_mul(
            bool_cell(0i64.wrapping_sub(x.wrapping_sub(y)) >= 0),
        ) == bool_cell(x == y),
{
    let d = x.wrapping_sub(y);
    lemma_mul_small(bool_cell(0i64.wrapping_sub(d) >= 0));
    assert(d == 0 <==> x == y);
}

#[verifier::rlimit(50)]
proof fn lemma_binary_code_equal(l: ConstExpr, r: ConstExpr, s: State)
    requires
        1 <= s.ptr < s.tape.len(),
        s.tape[s.ptr - 1] == l.cell(),
        s.tape[s.ptr] == r.cell(),
        BinaryOp::Equal.spec_can_apply(l.typ(), r.typ()),
    ensures
        exec_from(BinaryOp::Equal.op_code(), 0, s) is Ok,
        leaves_on_top(
            State { ptr: s.ptr - 2, ..s },
            exec_from(BinaryOp::Equal.op_code(), 0, s)->Ok_0,
            BinaryOp::Equal.fold(l, r).cell(),
        ),
{
    lemma_equal_cells(l.cell(), r.cell());
    assert((l == r) == (l.cell() == r.cell()));
    let c = BinaryOp::Equal.op_code();
    let s1 = step(s, c[0])->Ok_0;
    lemma_exec_from_step(c, 0, s);
    let s2 = step(s1, c[1])->Ok_0;
    lemma_exec_from_step(c, 1, s1);
    let s3 = step(s2, c[2])->Ok_0;
    lemma_exec_from_step(c, 2, s2);
    let s4 = step(s3, c[3])->Ok_0;
    lemma_exec_from_step(c, 3, s3);
    let s5 = step(s4, c[4])->Ok_0;
    lemma_exec_from_step(c, 4, s4);
    let s6 = step(s5, c[5])->Ok_0;
    lemma_exec_from_step(c, 5, s5);
    let s7 = step(s6, c[6])->Ok_0;
    lemma_exec_from_step(c, 6, s6);
    let s8 = step(s7, c[7])->Ok_0;
    lemma_exec_from_step(c, 7, s7);
    let s9 = step(s8, c[8])->Ok_0;
    lemma_exec_from_step(c, 8, s8);
    let s10 = step(s9, c[9])->Ok_0;
    lemma_exec_from_step(c, 9, s9);
    let s11 = step(s10, c[10])->Ok_0;
    lemma_exec_from_step(c, 10, s10);
    let s12 = step(s11, c[11])->Ok_0;
    lemma_exec_from_step(c, 11, s11);
    let s13 = step(s12, c[12])->Ok_0;
    lemma_exec_from_step(c, 12, s12);
    let s14 = step(s13, c[13])->Ok_0;
    lemma_exec_from_step(c, 13, s13);
    let s15 = step(s14, c[14])->Ok_0;
    lemma_exec_from_step(c, 14, s14);
    let s16 = step(s15, c[15])->Ok_0;
    lemma_exec_from_step(c, 15, s15);
    lemma_exec_from_end(c, s16);
}

proof fn lemma_binary_code_or(l: ConstExpr, r: ConstExpr, s: State)
    requires
        1 <= s.ptr < s.tape.len(),
        s.tape[s.ptr - 1] == l.cell(),
        s.tape[s.ptr] == r.cell(),
        BinaryOp::Or.spec_can_apply(l.typ(), r.typ()),
    ensures
        exec_from(BinaryOp::Or.op_code(), 0, s) is Ok,
        leaves_on_top(
            State { ptr: s.ptr - 2, ..s },
            exec_from(BinaryOp::Or.op_code(), 0, s)->Ok_0,
            BinaryOp::Or.fold(l, r).cell(),
        ),
{
    lemma_mul_small(r.cell());
    lemma_mul_small(l.cell());
    let c = BinaryOp::Or.op_code();
    let s1 = step(s, c[0])->Ok_0;
    lemma_exec_from_step(c, 0, s);
    let s2 = step(s1, c[1])->Ok_0;
    lemma_exec_from_step(c, 1, s1);
    let s3 = step(s2, c[2])->Ok_0;
    lemma_exec_from_step(c, 2, s2);
    let s4 = step(s3, c[3])->Ok_0;
    lemma_exec_from_step(c, 3, s3);
    let s5 = step(s4, c[4])->Ok_0;
    lemma_exec_from_step(c, 4, s4);
    let s6 = step(s5, c[5])->Ok_0;
    lemma_exec_from_step(c, 5, s5);
    let s7 = step(s6, c[6])->Ok_0;
    lemma_exec_from_step(c, 6, s6);
    let s8 = step(s7, c[7])->Ok_0;
    lemma_exec_from_step(c, 7, s7);
    let s9 = step(s8, c[8])->Ok_0;
    lemma_exec_from_step(c, 8, s8);
    let s10 = step(s9, c[9])->Ok_0;
    lemma_exec_from_step(c, 9, s9);
    let s11 = step(s10, c[10])->Ok_0;
    lemma_exec_from_step(c, 10, s10);
    let s12 = step(s11, c[11])->Ok_0;
    lemma_exec_from_step(c, 11, s11);
    let s13 = step(s12, c[12])->Ok_0;
    lemma_exec_from_step(c, 12, s12);
    lemma_exec_from_end(c, s13);
}

proof fn lemma_less_than_cells(a: i64, b: i64)
    ensures
        ({
            let nd = bool_cell(a.wrapping_sub(b) >= 0);
            let na = bool_cell(a >= 0);
            let nb = bool_cell(b >= 0);
            let x = na.wrapping_sub(nb);
            let ge = bool_cell(x.wrapping_add(x).wrapping_add(nd).wrapping_sub(1) >= 0);
            1i64.wrapping_sub(ge) == bool_cell(a < b)
        }),
{
}

#[verifier::rlimit(50)]
proof fn lemma_binary_code_less_than(l: ConstExpr, r: ConstExpr, s: State)
    requires
        1 <= s.ptr,
        s.ptr + 1 < s.tape.len(),
        s.tape[s.ptr - 1] == l.cell(),
        s.tape[s.ptr] == r.cell(),
        BinaryOp::LessThan.spec_can_apply(l.typ(), r.typ()),
    ensures
        exec_from(BinaryOp::LessThan.op_code(), 0, s) is Ok,
        leaves_on_top(
            State { ptr: s.ptr - 2, ..s },
            exec_from(BinaryOp::LessThan.op_code(), 0, s)->Ok_0,
            BinaryOp::LessThan.fold(l, r).cell(),
        ),
{
    lemma_less_than_cells(l.cell(), r.cell());
    let c = BinaryOp::LessThan.op_code();
    let s1 = step(s, c[0])->Ok_0;
    lemma_exec_from_step(c, 0, s);
    let s2 = step(s1, c[1])->Ok_0;
    lemma_exec_from_step(c, 1, s1);
    let s3 = step(s2, c[2])->Ok_0;
    lemma_exec_from_step(c, 2, s2);
    let s4 = step(s3, c[3])->Ok_0;
    lemma_exec_from_step(c, 3, s3);
    let s5 = step(s4, c[4])->Ok_0;
    lemma_exec_from_step(c, 4, s4);
    let s6 = step(s5, c[5])->Ok_0;
    lemma_exec_from_step(c, 5, s5);
    let s7 = step(s6, c[6])->Ok_0;
    lemma_exec_from_step(c, 6, s6);
    let s8 = step(s7, c[7])->Ok_0;
    lemma_exec_from_step(c, 7, s7);
    let s9 = step(s8, c[8])->Ok_0;
    lemma_exec_from_step(c, 8, s8);
    let s10 = step(s9, c[9])->Ok_0;
    lemma_exec_from_step(c, 9, s9);
    let s11 = step(s10, c[10])->Ok_0;
    lemma_exec_from_step(c, 10, s10);
    let s12 = step(s11, c[11])->Ok_0;
    lemma_exec_from_step(c, 11, s11);
    let s13 = step(s12, c[12])->Ok_0;
    lemma_exec_from_step(c, 12, s12);
    let s14 = step(s13, c[13])->Ok_0;
    lemma_exec_from_step(c, 13, s13);
    let s15 = step(s14, c[14])->Ok_0;
    lemma_exec_from_step(c, 14, s14);
    let s16 = step(s15, c[15])->Ok_0;
    lemma_exec_from_step(c, 15, s15);
    let s17 = step(s16, c[16])->Ok_0;
    lemma_exec_from_step(c, 16, s16);
    let s18 = step(s17, c[17])->Ok_0;
    lemma_exec_from_step(c, 17, s17);
    let s19 = step(s18, c[18])->Ok_0;
    lemma_exec_from_step(c, 18, s18);
    let s20 = step(s19, c[19])->Ok_0;
    lemma_exec_from_step(c, 19, s19);
    let s21 = step(s20, c[20])->Ok_0;
    lemma_exec_from_step(c, 20, s20);
    let s22 = step(s21, c[21])->Ok_0;
    lemma_exec_from_step(c, 21, s21);
    let s23 = step(s22, c[22])->Ok_0;
    lemma_exec_from_step(c, 22, s22);
    let s24 = step(s23, c[23])->Ok_0;
    lemma_exec_from_step(c, 23, s23);
    let s25 = step(s24, c[24])->Ok_0;
    lemma_exec_from_step(c, 24, s24);
    let s26 = step(s25, c[25])->Ok_0;
    lemma_exec_from_step(c, 25, s25);
    let s27 = step(s26, c[26])->Ok_0;
    lemma_exec_from_step(c, 26, s26);
    let s28 = step(s27, c[27])->Ok_0;
    lemma_exec_from_step(c, 27, s27);
    let s29 = step(s28, c[28])->Ok_0;
    lemma_exec_from_step(c, 28, s28);
    let s30 = step(s29, c[29])->Ok_0;
    lemma_exec_from_step(c, 29, s29);
    lemma_exec_from_end(c, s30);
}

proof fn lemma_binary_code(op: BinaryOp, l: ConstExpr, r: ConstExpr, s: State)
    requires
        1 <= s.ptr < s.tape.len(),
        s.ptr + scratch_cells(op) < s.tape.len(),
        s.tape[s.ptr - 1] == l.cell(),
        s.tape[s.ptr] == r.cell(),
        op.spec_can_apply(l.typ(), r.typ()),
    ensures
        exec_from(op.op_code(), 0, s) is Ok,
        leaves_on_top(
            State { ptr: s.ptr - 2, ..s },
            exec_from(op.op_code(), 0, s)->Ok_0,
            op.fold(l, r).cell(),
        ),
{
    match op {
        BinaryOp::Add | BinaryOp::Subtract | BinaryOp::Multiply | BinaryOp::And => {
            lemma_binary_code_combine(op, l, r, s)
        },
        BinaryOp::Equal => lemma_binary_code_equal(l, r, s),
        BinaryOp::LessThan => lemma_binary_code_less_than(l, r, s),
        BinaryOp::Or => lemma_binary_code_or(l, r, s),
    }
}

proof fn lemma_ternary_code(op: TernaryOp, a: ConstExpr, b: ConstExpr, c: ConstExpr, s: State)
    requires
        2 <= s.ptr < s.tape.len(),
        s.tape[s.ptr - 2] == a.cell(),
        s.tape[s.ptr - 1] == b.cell(),
        s.tape[s.ptr] == c.cell(),
        op.spec_can_apply(a.typ(), b.typ(), c.typ()),
    ensures
        exec_from(op.op_code(), 0, s) is Ok,
        leaves_on_top(
            State { ptr: s.ptr - 3, ..s },
            exec_from(op.op_code(), 0, s)->Ok_0,
            op.fold(a, b, c).cell(),
        ),
{
    lemma_mul_small(b.cell());
    lemma_mul_small(c.cell());
    let code = op.op_code();
    let s1 = step(s, code[0])->Ok_0;
    lemma_exec_from_step(code, 0, s);
    let s2 = step(s1, code[1])->Ok_0;
    lemma_exec_from_step(code, 1, s1);
    let s3 = step(s2, code[2])->Ok_0;
    lemma_exec_from_step(code, 2, s2);
    let s4 = step(s3, code[3])->Ok_0;
    lemma_exec_from_step(code, 3, s3);
    let s5 = step(s4, code[4])->Ok_0;
    lemma_exec_from_step(code, 4, s4);
    let s6 = step(s5, code[5])->Ok_0;
    lemma_exec_from_step(code, 5, s5);
    let s7 = step(s6, code[6])->Ok_0;
    lemma_exec_from_step(code, 6, s6);
    let s8 = step(s7, code[7])->Ok_0;
    lemma_exec_from_step(code, 7, s7);
    let s9 = step(s8, code[8])->Ok_0;
    lemma_exec_from_step(code, 8, s8);
    let s10 = step(s9, code[9])->Ok_0;
    lemma_exec_from_step(code, 9, s9);
    let s11 = step(s10, code[10])->Ok_0;
    lemma_exec_from_step(code, 10, s10);
    let s12 = step(s11, code[11])->Ok_0;
    lemma_exec_from_step(code, 11, s11);
    let s13 = step(s12, code[12])->Ok_0;
    lemma_exec_from_step(code, 12, s12);
    let s14 = step(s13, code[13])->Ok_0;
    lemma_exec_from_step(code, 13, s13);
    lemma_exec_from_end(code, s14);
}

proof fn lemma_code_has_no_control(e: Expr)
    ensures
        forall|i: int| 0 <= i < e.code().len() ==> !is_control(#[trigger] e.code()[i]),
    decreases e,
{
    match e {
        Expr::ConstExpr(_) => {},
        Expr::Address(_) => {},
        Expr::Assign(op, d, x) => {
            lemma_code_has_no_control(*d);
            lemma_code_has_no_control(*x);
            assert forall|i: int| 0 <= i < e.code().len() implies !is_control(#[trigger] e.code()[i]) by {
                if i >= d.code().len() + x.code().len() {
                    assert(e.code()[i] == op.op_code()[i - d.code().len() - x.code().len()]);
                } else if i >= d.code().len() {
                    assert(e.code()[i] == x.code()[i - d.code().len()]);
                } else {
                    assert(e.code()[i] == d.code()[i]);
                }
            }
        },
        Expr::Unary(op, x) => {
            lemma_code_has_no_control(*x);
            assert forall|i: int| 0 <= i < e.code().len() implies !is_control(#[trigger] e.code()[i]) by {
                if i >= x.code().len() {
                    assert(e.code()[i] == op.op_code()[i - x.code().len()]);
                } else {
                    assert(e.code()[i] == x.code()[i]);
                }
            }
        },
        Expr::Binary(op, l, r) => {
            lemma_code_has_no_control(*l);
            lemma_code_has_no_control(*r);
            assert forall|i: int| 0 <= i < e.code().len() implies !is_control(#[trigger] e.code()[i]) by {
                if i >= l.code().len() + r.code().len() {
                    assert(e.code()[i] == op.op_code()[i - l.code().len() - r.code().len()]);
                } else if i >= l.code().len() {
                    assert(e.code()[i] == r.code()[i - l.code().len()]);
                } else {
                    assert(e.code()[i] == l.code()[i]);
                }
            }
        },
        Expr::Ternary(op, a, b, c) => {
            lemma_code_has_no_control(*a);
            lemma_code_has_no_control(*b);
            lemma_code_has_no_control(*c);
            let n = a.code().len() + b.code().len() + c.code().len();
            assert forall|i: int| 0 <= i < e.code().len() implies !is_control(#[trigger] e.code()[i]) by {
                if i >= n {
                    assert(e.code()[i] == op.op_code()[i - n]);
                } else if i >= a.code().len() + b.code().len() {
                    assert(e.code()[i] == c.code()[i - a.code().len() - b.code().len()]);
                } else if i >= a.code().len() {
                    assert(e.code()[i] == b.code()[i - a.code().len()]);
                } else {
                    assert(e.code()[i] == a.code()[i]);
                }
            }
        },
    }
}

proof fn lemma_depth_positive(e: Expr)
    ensures
        depth(e) >= 1,
    decreases e,
{
    match e {
        Expr::Unary(_, x) => {
            lemma_depth_positive(*x);
            assert(depth(e) == depth(*x));
        },
        Expr::Assign(_, d, _) => lemma_depth_positive(*d),
        Expr::Binary(_, l, _) => lemma_depth_positive(*l),
        Expr::Ternary(_, a, _, _) => lemma_depth_positive(*a),
        _ => {},
    }
}

#[verifier::rlimit(40)]
proof fn lemma_code_leaves_value(e: Expr, s: State)
    requires
        e.value() is Ok,
        0 <= s.ptr,
        s.ptr + depth(e) < s.tape.len(),
    ensures
        exec_from(e.code(), 0, s) is Ok,
        leaves_on_top(s, exec_from(e.code(), 0, s)->Ok_0, e.value()->Ok_0.cell()),
    decreases e,
{
    match e {
        Expr::ConstExpr(k) => {
            let c = push_code(k.cell());
            let s1 = step(s, c[0])->Ok_0;
            lemma_exec_from_step(c, 0, s);
            let s2 = step(s1, c[1])->Ok_0;
            lemma_exec_from_step(c, 1, s1);
            let s3 = step(s2, c[2])->Ok_0;
            lemma_exec_from_step(c, 2, s2);
            lemma_exec_from_end(c, s3);
        },
        Expr::Address(_) => {},
        Expr::Assign(_, _, _) => {},
        Expr::Unary(op, x) => {
            lemma_depth_positive(*x);
            lemma_code_leaves_value(*x, s);
            let s1 = exec_from(x.code(), 0, s)->Ok_0;
            lemma_exec_from_concat(x.code(), op.op_code(), 0, s);
            lemma_unary_code(op, x.value()->Ok_0, s1);
        },
        Expr::Binary(op, l, r) => {
            lemma_depth_positive(*r);
            lemma_code_leaves_value(*l, s);
            let s1 = exec_from(l.code(), 0, s)->Ok_0;
            lemma_code_leaves_value(*r, s1);
            let s2 = exec_from(r.code(), 0, s1)->Ok_0;
            lemma_exec_from_concat(l.code(), r.code(), 0, s);
            lemma_exec_from_concat(l.code() + r.code(), op.op_code(), 0, s);
            lemma_binary_code(op, l.value()->Ok_0, r.value()->Ok_0, s2);
        },
        Expr::Ternary(op, a, b, c) => {
            lemma_depth_positive(*c);
            lemma_code_leaves_value(*a, s);
            let s1 = exec_from(a.code(), 0, s)->Ok_0;
            lemma_code_leaves_value(*b, s1);
            let s2 = exec_from(b.code(), 0, s1)->Ok_0;
            lemma_code_leaves_value(*c, s2);
            let s3 = exec_from(c.code(), 0, s2)->Ok_0;
            lemma_exec_from_concat(a.code(), b.code(), 0, s);
            lemma_exec_from_concat(a.code() + b.code(), c.code(), 0, s);
            lemma_exec_from_concat(a.code() + b.code() + c.code(), op.op_code(), 0, s);
            lemma_ternary_code(op, a.value()->Ok_0, b.value()->Ok_0, c.value()->Ok_0, s3);
        },
    }
}

proof fn lemma_exec_straight_code(code: Seq<CoreOp>, t: Seq<usize>, f: Frame, fuel: nat)
    requires
        forall|i: int| 0 <= i < code.len() ==> !is_control(#[trigger] code[i]),
        0 <= f.pc <= code.len(),
        fuel >= code.len() - f.pc,
    ensures
        exec(code, t, f, fuel) == match exec_from(code, f.pc, f.state) {
            Ok(s) => Ok(Frame { state: s, pc: code.len() as int, ..f }),
            Err(e) => Err(e),
        },
    decreases code.len() - f.pc,
{
    if f.pc < code.len() {
        assert(!is_control(code[f.pc]));
        match step(f.state, code[f.pc]) {
            Ok(s2) => {
                lemma_exec_straight_code(
                    code,
                    t,
                    Frame { state: s2, pc: f.pc + 1, ..f },
                    (fuel - 1) as nat,
                );
            },
            Err(_) => {},
        }
    }
}

/// Folding agrees with the machine: for an expression made of constants whose
/// folding succeeds, running its code on the machine (with room on the tape
/// for its stack) ends without error and leaves the folded value on top of
/// the value stack.
pub proof fn folding_agrees_with_machine(e: Expr, s: State, t: Seq<usize>, fuel: nat)
    requires
        e.value() is Ok,
        0 <= s.ptr,
        s.ptr + depth(e) < s.tape.len(),
        fuel >= e.code().len(),
    ensures
        exec(e.code(), t, Frame { state: s, pc: 0, calls: Seq::empty(), functions: Seq::empty() }, fuel) is Ok,
        exec(e.code(), t, Frame { state: s, pc: 0, calls: Seq::empty(), functions: Seq::empty() }, fuel)->Ok_0.state.ptr
            == s.ptr + 1,
        exec(e.code(), t, Frame { state: s, pc: 0, calls: Seq::empty(), functions: Seq::empty() }, fuel)->Ok_0.state.tape[s.ptr
            + 1] == e.value()->Ok_0.cell(),
{
    lemma_code_has_no_control(e);
    lemma_code_leaves_value(e, s);
    lemma_exec_straight_code(
        e.code(),
        t,
        Frame { state: s, pc: 0, calls: Seq::empty(), functions: Seq::empty() },
        fuel,
    );
}


/// A unary operation compiled on a constant operand leaves, when run, the
/// value that folding the operation gives.
pub proof fn unary_on_constant_agrees_with_machine(
    op: UnaryOp,
    c: ConstExpr,
    s: State,
    t: Seq<usize>,
    fuel: nat,
)
    requires
        op.spec_can_apply(c.typ()),
        0 <= s.ptr,
        s.ptr + 1 < s.tape.len(),
        fuel >= Expr::Unary(op, Box::new(Expr::ConstExpr(c))).code().len(),
    ensures
        ({
            let e = Expr::Unary(op, Box::new(Expr::ConstExpr(c)));
            let r = exec(e.code(), t, Frame { state: s, pc: 0, calls: Seq::empty(), functions: Seq::empty() }, fuel);
            r is Ok && r->Ok_0.state.ptr == s.ptr + 1 && r->Ok_0.state.tape[s.ptr + 1] == op.fold(c).cell()
        }),
{
    let e = Expr::Unary(op, Box::new(Expr::ConstExpr(c)));
    assert(Expr::ConstExpr(c).value() == Ok::<ConstExpr, Error>(c));
    assert(depth(Expr::ConstExpr(c)) == 1);
    assert(e.value() == Ok::<ConstExpr, Error>(op.fold(c)));
    assert(depth(e) == 1);
    folding_agrees_with_machine(e, s, t, fuel);
}

/// A binary operation compiled on constant operands leaves, when run, the
/// value that folding the operation gives.
pub proof fn binary_on_constants_agrees_with_machine(
    op: BinaryOp,
    l: ConstExpr,
    r: ConstExpr,
    s: State,
    t: Seq<usize>,
    fuel: nat,
)
    requires
        op.spec_can_apply(l.typ(), r.typ()),
        0 <= s.ptr,
        s.ptr + 2 + scratch_cells(op) < s.tape.len(),
        fuel >= Expr::Binary(op, Box::new(Expr::ConstExpr(l)), Box::new(Expr::ConstExpr(r))).code().len(),
    ensures
        ({
            let e = Expr::Binary(op, Box::new(Expr::ConstExpr(l)), Box::new(Expr::ConstExpr(r)));
            let x = exec(e.code(), t, Frame { state: s, pc: 0, calls: Seq::empty(), functions: Seq::empty() }, fuel);
            x is Ok && x->Ok_0.state.ptr == s.ptr + 1 && x->Ok_0.state.tape[s.ptr + 1] == op.fold(l, r).cell()
        }),
{
    let e = Expr::Binary(op, Box::new(Expr::ConstExpr(l)), Box::new(Expr::ConstExpr(r)));
    assert(Expr::ConstExpr(l).value() == Ok::<ConstExpr, Error>(l));
    assert(depth(Expr::ConstExpr(l)) == 1);
    assert(Expr::ConstExpr(r).value() == Ok::<ConstExpr, Error>(r));
    assert(depth(Expr::ConstExpr(r)) == 1);
    assert(e.value() == Ok::<ConstExpr, Error>(op.fold(l, r)));
    assert(depth(e) == 2 + scratch_cells(op));
    folding_agrees_with_machine(e, s, t, fuel);
}

/// A ternary operation compiled on constant operands leaves, when run, the
/// value that folding the operation gives.
pub proof fn ternary_on_constants_agrees_with_machine(
    op: TernaryOp,
    a: ConstExpr,
    b: ConstExpr,
    c: ConstExpr,
    s: State,
    t: Seq<usize>,
    fuel: nat,
)
    requires
        op.spec_can_apply(a.typ(), b.typ(), c.typ()),
        0 <= s.ptr,
        s.ptr + 3 < s.tape.len(),
        fuel >= Expr::Ternary(
            op,
            Box::new(Expr::ConstExpr(a)),
            Box::new(Expr::ConstExpr(b)),
            Box::new(Expr::ConstExpr(c)),
        ).code().len(),
    ensures
        ({
            let e = Expr::Ternary(
                op,
                Box::new(Expr::ConstExpr(a)),
                Box::new(Expr::ConstExpr(b)),
                Box::new(Expr::ConstExpr(c)),
            );
            let x = exec(e.code(), t, Frame { state: s, pc: 0, calls: Seq::empty(), functions: Seq::empty() }, fuel);
            x is Ok && x->Ok_0.state.ptr == s.ptr + 1 && x->Ok_0.state.tape[s.ptr + 1] == op.fold(a, b, c).cell()
        }),
{
    let e = Expr::Ternary(
        op,
        Box::new(Expr::ConstExpr(a)),
        Box::new(Expr::ConstExpr(b)),
        Box::new(Expr::ConstExpr(c)),
    );
    assert(Expr::ConstExpr(a).value() == Ok::<ConstExpr, Error>(a));
    assert(depth(Expr::ConstExpr(a)) == 1);
    assert(Expr::ConstExpr(b).value() == Ok::<ConstExpr, Error>(b));
    assert(depth(Expr::ConstExpr(b)) == 1);
    assert(Expr::ConstExpr(c).value() == Ok::<ConstExpr, Error>(c));
    assert(depth(Expr::ConstExpr(c)) == 1);
    assert(e.value() == Ok::<ConstExpr, Error>(op.fold(a, b, c)));
    assert(depth(e) == 3);
    folding_agrees_with_machine(e, s, t, fuel);
}

} // verus!
