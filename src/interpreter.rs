use vstd::prelude::*;

use crate::ops::bool_cell;
use crate::vm::{CoreOp, Error};

verus! {

/// What the machine holds between two instructions.
pub struct State {
    pub tape: Seq<i64>,
    pub ptr: int,
    pub reg: i64,
    /// Pointers remembered by `Deref`, latest last.
    pub refs: Seq<int>,
    /// Input not read yet.
    pub input: Seq<i64>,
    pub output: Seq<i64>,
}

/// A running program: the machine, the next instruction, the return
/// addresses, and where each defined function starts.
pub struct Frame {
    pub state: State,
    pub pc: int,
    pub calls: Seq<int>,
    pub functions: Seq<int>,
}

/// Does this instruction open a block that an `End` closes?
pub open spec fn is_opener(op: CoreOp) -> bool {
    op is If || op is Else || op is While || op is Function
}

/// Does this instruction change the order of execution?
pub open spec fn is_control(op: CoreOp) -> bool {
    is_opener(op) || op is End || op is Call || op is Return
}

/// The effect of an instruction that does not change the order of execution.
pub open spec fn step(s: State, op: CoreOp) -> Result<State, Error> {
    match op {
        CoreOp::Move(n) => if 0 <= s.ptr + n < s.tape.len() {
            Ok(State { ptr: s.ptr + n, ..s })
        } else {
            Err(Error::PointerOutOfBounds)
        },
        CoreOp::Where => Ok(State { reg: s.ptr as i64, ..s }),
        CoreOp::Deref => {
            let t = s.tape[s.ptr];
            if 0 <= t < s.tape.len() {
                Ok(State { ptr: t as int, refs: s.refs.push(s.ptr), ..s })
            } else {
                Err(Error::PointerOutOfBounds)
            }
        },
        CoreOp::Refer => if s.refs.len() > 0 {
            Ok(State { ptr: s.refs.last(), refs: s.refs.drop_last(), ..s })
        } else {
            Err(Error::StackUnderflow)
        },
        CoreOp::Save => Ok(State { tape: s.tape.update(s.ptr, s.reg), ..s }),
        CoreOp::Restore => Ok(State { reg: s.tape[s.ptr], ..s }),
        CoreOp::Constant(n) => Ok(State { reg: n, ..s }),
        CoreOp::Inc => Ok(State { reg: s.reg.wrapping_add(1), ..s }),
        CoreOp::Dec => Ok(State { reg: s.reg.wrapping_sub(1), ..s }),
        CoreOp::Add => Ok(State { reg: s.reg.wrapping_add(s.tape[s.ptr]), ..s }),
        CoreOp::Subtract => Ok(State { reg: s.reg.wrapping_sub(s.tape[s.ptr]), ..s }),
        CoreOp::Multiply => Ok(State { reg: s.reg.wrapping_mul(s.tape[s.ptr]), ..s }),
        CoreOp::IsNonNegative => Ok(State { reg: bool_cell(s.reg >= 0), ..s }),
        CoreOp::Get => if s.input.len() > 0 {
            Ok(State { reg: s.input[0], input: s.input.drop_first(), ..s })
        } else {
            Err(Error::EndOfInput)
        },
        CoreOp::Put => Ok(State { output: s.output.push(s.reg), ..s }),
        _ => Ok(s),
    }
}

/// A table that pairs each block opener with its closer: an `If` with its
/// `Else` or `End`, an `Else`, `While` or `Function` with its `End`, and each
/// `End` with the opener it closes.
pub open spec fn valid_table(code: Seq<CoreOp>, t: Seq<usize>) -> bool {
    &&& t.len() == code.len()
    &&& forall|i: int| 0 <= i < code.len() ==> t[i] < code.len()
    &&& forall|i: int|
        0 <= i < code.len() && is_opener(#[trigger] code[i]) ==> i < t[i] && (code[t[i] as int] is End
            || (code[i] is If && code[t[i] as int] is Else))
    &&& forall|i: int|
        0 <= i < code.len() && #[trigger] code[i] is End ==> t[i] < i && is_opener(
            code[t[i] as int],
        )
}

/// Pair blocks over the first `n` instructions, last opened first closed:
/// the openers still waiting for their `End` (innermost last) and the table
/// so far, or the index of the first closer without a fitting opener.
pub open spec fn scan(code: Seq<CoreOp>, n: int) -> Result<(Seq<usize>, Seq<usize>), usize>
    decreases n,
{
    if n <= 0 {
        Ok((Seq::empty(), Seq::new(code.len(), |j: int| 0usize)))
    } else {
        match scan(code, n - 1) {
            Err(k) => Err(k),
            Ok((stack, t)) => {
                let i = (n - 1) as usize;
                match code[n - 1] {
                    CoreOp::If | CoreOp::While | CoreOp::Function => Ok((stack.push(i), t)),
                    CoreOp::Else => if stack.len() > 0 && code[stack.last() as int] is If {
                        Ok((stack.drop_last().push(i), t.update(stack.last() as int, i)))
                    } else {
                        Err(i)
                    },
                    CoreOp::End => if stack.len() > 0 {
                        Ok(
                            (
                                stack.drop_last(),
                                t.update(stack.last() as int, i).update(n - 1, stack.last()),
                            ),
                        )
                    } else {
                        Err(i)
                    },
                    _ => Ok((stack, t)),
                }
            },
        }
    }
}

/// The block table of a program, or the index at fault: the first closer
/// without a fitting opener, else the innermost opener left open.
pub open spec fn block_result(code: Seq<CoreOp>) -> Result<Seq<usize>, usize> {
    match scan(code, code.len() as int) {
        Err(k) => Err(k),
        Ok((stack, t)) => if stack.len() > 0 {
            Err(stack.last())
        } else {
            Ok(t)
        },
    }
}

/// Every block is closed, every closer has its opener, and every `Else`
/// follows an open `If`.
pub open spec fn well_nested(code: Seq<CoreOp>) -> bool {
    block_result(code) is Ok
}

/// The pairing of a well-nested program's openers and closers.
pub open spec fn block_table(code: Seq<CoreOp>) -> Seq<usize> {
    block_result(code)->Ok_0
}

/// One instruction of a running program.
pub open spec fn step_frame(code: Seq<CoreOp>, t: Seq<usize>, f: Frame) -> Result<Frame, Error> {
    let op = code[f.pc];
    let next = Frame { pc: f.pc + 1, ..f };
    let past = Frame { pc: t[f.pc] + 1, ..f };
    match op {
        CoreOp::If => if f.state.reg != 0 {
            Ok(next)
        } else {
            Ok(past)
        },
        CoreOp::While => if f.state.reg != 0 {
            Ok(next)
        } else {
            Ok(past)
        },
        CoreOp::Else => Ok(past),
        CoreOp::Function => Ok(Frame { functions: f.functions.push(f.pc + 1), ..past }),
        CoreOp::Call => if 0 <= f.state.reg < f.functions.len() {
            Ok(Frame { pc: f.functions[f.state.reg as int], calls: f.calls.push(f.pc + 1), ..f })
        } else {
            Err(Error::UndefinedFunction(f.state.reg))
        },
        CoreOp::Return => return_from(f),
        CoreOp::End => match code[t[f.pc] as int] {
            CoreOp::While => Ok(Frame { pc: t[f.pc] as int, ..f }),
            CoreOp::Function => return_from(f),
            _ => Ok(next),
        },
        _ => match step(f.state, op) {
            Ok(s) => Ok(Frame { state: s, ..next }),
            Err(e) => Err(e),
        },
    }
}

pub open spec fn return_from(f: Frame) -> Result<Frame, Error> {
    if f.calls.len() > 0 {
        Ok(Frame { pc: f.calls.last(), calls: f.calls.drop_last(), ..f })
    } else {
        Err(Error::StackUnderflow)
    }
}

/// Run until the end of the code, an error, or `fuel` instructions.
pub open spec fn exec(code: Seq<CoreOp>, t: Seq<usize>, f: Frame, fuel: nat) -> Result<Frame, Error>
    decreases fuel,
{
    if f.pc < 0 || f.pc >= code.len() {
        Ok(f)
    } else if fuel == 0 {
        Err(Error::OutOfSteps)
    } else {
        match step_frame(code, t, f) {
            Ok(g) => exec(code, t, g, (fuel - 1) as nat),
            Err(e) => Err(e),
        }
    }
}

/// Run instructions that do not change the order of execution, one after
/// another, from index `i` to the end.
pub open spec fn exec_from(ops: Seq<CoreOp>, i: int, s: State) -> Result<State, Error>
    decreases ops.len() - i,
{
    if i < 0 || i >= ops.len() {
        Ok(s)
    } else {
        match step(s, ops[i]) {
            Ok(s2) => exec_from(ops, i + 1, s2),
            Err(e) => Err(e),
        }
    }
}

proof fn lemma_scan_fault_stays(code: Seq<CoreOp>, n: int, m: int)
    requires
        0 <= n <= m,
        scan(code, n) is Err,
    ensures
        scan(code, m) == scan(code, n),
    decreases m - n,
{
    if m > n {
        lemma_scan_fault_stays(code, n, m - 1);
    }
}

/// Pair each block opener with its closer; fails on a closer without an
/// opener, an `Else` outside an `If`, or an opener left open.
#[verifier::rlimit(60)]
pub fn match_blocks(code: &Vec<CoreOp>) -> (r: Result<Vec<usize>, Error>)
    ensures
        r is Ok <==> well_nested(code@),
        r is Ok ==> r->Ok_0@ == block_table(code@) && valid_table(code@, r->Ok_0@),
        r is Err ==> r == Err::<Vec<usize>, Error>(Error::UnmatchedBlock(block_result(code@)->Err_0)),
        (forall|i: int| 0 <= i < code@.len() ==> !is_control(#[trigger] code@[i])) ==> r is Ok,
{
    let mut t: Vec<usize> = Vec::new();
    let mut i: usize = 0;
    while i < code.len()
        invariant
            i <= code@.len(),
            t@.len() == i,
            forall|j: int| 0 <= j < i ==> t@[j] == 0,
        decreases code@.len() - i,
    {
        t.push(0);
        i = i + 1;
    }
    assert(t@ =~= Seq::new(code@.len(), |j: int| 0usize));
    let mut stack: Vec<usize> = Vec::new();
    let mut i: usize = 0;
    while i < code.len()
        invariant
            i <= code@.len(),
            t@.len() == code@.len(),
            forall|j: int| 0 <= j < code@.len() ==> t@[j] < code@.len(),
            forall|k: int| 0 <= k < stack@.len() ==> stack@[k] < i && is_opener(code@[stack@[k] as int]),
            forall|k: int, l: int| 0 <= k < l < stack@.len() ==> stack@[k] < stack@[l],
            forall|j: int|
                0 <= j < i && is_opener(#[trigger] code@[j]) && !stack@.contains(j as usize) ==> j
                    < t@[j] && (code@[t@[j] as int] is End || (code@[j] is If && code@[t@[j] as int] is Else)),
            forall|j: int|
                0 <= j < i && #[trigger] code@[j] is End ==> t@[j] < j && is_opener(code@[t@[j] as int]),
            (forall|j: int| 0 <= j < code@.len() ==> !is_control(#[trigger] code@[j])) ==> stack@.len() == 0,
            scan(code@, i as int) == Ok::<(Seq<usize>, Seq<usize>), usize>((stack@, t@)),
        decreases code@.len() - i,
    {
        let ghost old_stack = stack@;
        match &code[i] {
            CoreOp::If | CoreOp::While | CoreOp::Function => {
                stack.push(i);
                proof {
                    assert forall|j: int|
                        0 <= j < i + 1 && is_opener(#[trigger] code@[j]) && !stack@.contains(j as usize) implies j
                            < t@[j] && (code@[t@[j] as int] is End || (code@[j] is If && code@[t@[j] as int] is Else)) by {
                        assert(stack@[stack@.len() - 1] == i);
                        if j < i {
                            if old_stack.contains(j as usize) {
                                let k = choose|k: int| 0 <= k < old_stack.len() && old_stack[k] == j as usize;
                                assert(stack@[k] == j as usize);
                            }
                        }
                    }
                }
            },
            CoreOp::Else => {
                match stack.pop() {
                    Some(o) => {
                        if !matches!(code[o], CoreOp::If) {
                            proof {
                                lemma_scan_fault_stays(code@, i + 1, code@.len() as int);
                            }
                            return Err(Error::UnmatchedBlock(i));
                        }
                        t.set(o, i);
                        stack.push(i);
                        proof {
                            assert forall|j: int|
                                0 <= j < i + 1 && is_opener(#[trigger] code@[j]) && !stack@.contains(j as usize) implies j
                                    < t@[j] && (code@[t@[j] as int] is End || (code@[j] is If && code@[t@[j] as int] is Else)) by {
                                assert(stack@[stack@.len() - 1] == i);
                                if j < i && j != o {
                                    if old_stack.contains(j as usize) {
                                        let k = choose|k: int| 0 <= k < old_stack.len() && old_stack[k] == j as usize;
                                        assert(k < old_stack.len() - 1);
                                        assert(stack@[k] == j as usize);
                                    }
                                }
                            }
                        }
                    },
                    None => {
                        proof {
                            lemma_scan_fault_stays(code@, i + 1, code@.len() as int);
                        }
                        return Err(Error::UnmatchedBlock(i));
                    },
                }
            },
            CoreOp::End => {
                match stack.pop() {
                    Some(o) => {
                        t.set(o, i);
                        t.set(i, o);
                        proof {
                            assert forall|j: int|
                                0 <= j < i + 1 && is_opener(#[trigger] code@[j]) && !stack@.contains(j as usize) implies j
                                    < t@[j] && (code@[t@[j] as int] is End || (code@[j] is If && code@[t@[j] as int] is Else)) by {
                                if j < i && j != o {
                                    if old_stack.contains(j as usize) {
                                        let k = choose|k: int| 0 <= k < old_stack.len() && old_stack[k] == j as usize;
                                        assert(k < old_stack.len() - 1);
                                        assert(stack@[k] == j as usize);
                                    }
                                }
                            }
                        }
                    },
                    None => {
                        proof {
                            lemma_scan_fault_stays(code@, i + 1, code@.len() as int);
                        }
                        return Err(Error::UnmatchedBlock(i));
                    },
                }
            },
            _ => {},
        }
        i = i + 1;
    }
    if stack.len() > 0 {
        return Err(Error::UnmatchedBlock(stack[stack.len() - 1]));
    }
    proof {
        assert forall|j: int| 0 <= j < code@.len() && is_opener(#[trigger] code@[j]) implies j
            < t@[j] && (code@[t@[j] as int] is End || (code@[j] is If && code@[t@[j] as int] is Else)) by {
            assert(!stack@.contains(j as usize));
        }
    }
    Ok(t)
}


/// The machine: a tape of cells, a pointer into it, one register, and the
/// input and output streams.
pub struct Machine {
    tape: Vec<i64>,
    ptr: usize,
    reg: i64,
    refs: Vec<usize>,
    input: Vec<i64>,
    input_pos: usize,
    output: Vec<i64>,
}

impl Machine {
    pub closed spec fn view(&self) -> State {
        State {
            tape: self.tape@,
            ptr: self.ptr as int,
            reg: self.reg,
            refs: self.refs@.map_values(|p: usize| p as int),
            input: self.input@.skip(self.input_pos as int),
            output: self.output@,
        }
    }

    pub closed spec fn wf(&self) -> bool {
        &&& self.ptr < self.tape@.len()
        &&& forall|k: int| 0 <= k < self.refs@.len() ==> self.refs@[k] < self.tape@.len()
        &&& self.input_pos <= self.input@.len()
    }

    /// A machine with `cells` zeroed cells, the pointer on the first, and the given input.
    pub fn new(cells: usize, input: Vec<i64>) -> (r: Machine)
        requires
            cells > 0,
        ensures
            r.wf(),
            r.view().tape == Seq::new(cells as nat, |i: int| 0i64),
            r.view().ptr == 0,
            r.view().reg == 0,
            r.view().refs == Seq::<int>::empty(),
            r.view().input == input@,
            r.view().output == Seq::<i64>::empty(),
    {
        let mut tape: Vec<i64> = Vec::new();
        let mut i: usize = 0;
        while i < cells
            invariant
                i <= cells,
                tape@ == Seq::new(i as nat, |k: int| 0i64),
            decreases cells - i,
        {
            tape.push(0);
            i = i + 1;
            assert(tape@ =~= Seq::new(i as nat, |k: int| 0i64));
        }
        let r = Machine {
            tape,
            ptr: 0,
            reg: 0,
            refs: Vec::new(),
            input,
            input_pos: 0,
            output: Vec::new(),
        };
        assert(r.view().refs =~= Seq::<int>::empty());
        assert(r.view().input =~= input@);
        r
    }

    pub fn register(&self) -> (r: i64)
        ensures
            r == self.view().reg,
    {
        self.reg
    }

    pub fn pointer(&self) -> (r: usize)
        ensures
            r == self.view().ptr,
    {
        self.ptr
    }

    pub fn tape(&self) -> (r: &Vec<i64>)
        ensures
            r@ == self.view().tape,
    {
        &self.tape
    }

    pub fn output(&self) -> (r: &Vec<i64>)
        ensures
            r@ == self.view().output,
    {
        &self.output
    }

    /// Carry out one instruction that does not change the order of execution;
    /// others leave the machine as it is.
    pub fn step(&mut self, op: &CoreOp) -> (r: Result<(), Error>)
        requires
            old(self).wf(),
        ensures
            match step(old(self).view(), *op) {
                Ok(s) => r is Ok && final(self).view() == s && final(self).wf(),
                Err(e) => r == Err::<(), Error>(e),
            },
    {
        let ghost s = self.view();
        match op {
            CoreOp::Move(n) => {
                let p = self.ptr as i128 + *n as i128;
                if 0 <= p && p < self.tape.len() as i128 {
                    self.ptr = p as usize;
                } else {
                    return Err(Error::PointerOutOfBounds);
                }
            },
            CoreOp::Where => {
                self.reg = self.ptr as i64;
            },
            CoreOp::Deref => {
                let t = self.tape[self.ptr];
                if 0 <= t && (t as i128) < self.tape.len() as i128 {
                    self.refs.push(self.ptr);
                    self.ptr = t as usize;
                    assert(self.view().refs =~= s.refs.push(s.ptr));
                } else {
                    return Err(Error::PointerOutOfBounds);
                }
            },
            CoreOp::Refer => {
                match self.refs.pop() {
                    Some(p) => {
                        self.ptr = p;
                        assert(self.view().refs =~= s.refs.drop_last());
                    },
                    None => {
                        return Err(Error::StackUnderflow);
                    },
                }
            },
            CoreOp::Save => {
                self.tape.set(self.ptr, self.reg);
            },
            CoreOp::Restore => {
                self.reg = self.tape[self.ptr];
            },
            CoreOp::Constant(n) => {
                self.reg = *n;
            },
            CoreOp::Inc => {
                self.reg = self.reg.wrapping_add(1);
            },
            CoreOp::Dec => {
                self.reg = self.reg.wrapping_sub(1);
            },
            CoreOp::Add => {
                self.reg = self.reg.wrapping_add(self.tape[self.ptr]);
            },
            CoreOp::Subtract => {
                self.reg = self.reg.wrapping_sub(self.tape[self.ptr]);
            },
            CoreOp::Multiply => {
                self.reg = self.reg.wrapping_mul(self.tape[self.ptr]);
            },
            CoreOp::IsNonNegative => {
                self.reg = if self.reg >= 0 {
                    1
                } else {
                    0
                };
            },
            CoreOp::Get => {
                if self.input_pos < self.input.len() {
                    self.reg = self.input[self.input_pos];
                    self.input_pos = self.input_pos + 1;
                    assert(self.view().input =~= s.input.drop_first());
                } else {
                    return Err(Error::EndOfInput);
                }
            },
            CoreOp::Put => {
                self.output.push(self.reg);
            },
            _ => {},
        }
        Ok(())
    }

    /// Pair the program's blocks, then run it from its first instruction for
    /// at most `fuel` instructions.
    pub fn run(&mut self, code: &Vec<CoreOp>, fuel: usize) -> (r: Result<(), Error>)
        requires
            old(self).wf(),
        ensures
            !well_nested(code@) ==> r == Err::<(), Error>(
                Error::UnmatchedBlock(block_result(code@)->Err_0),
            ),
            well_nested(code@) ==> match exec(
                code@,
                block_table(code@),
                Frame {
                    state: old(self).view(),
                    pc: 0,
                    calls: Seq::empty(),
                    functions: Seq::empty(),
                },
                fuel as nat,
            ) {
                Ok(f) => r is Ok && final(self).view() == f.state && final(self).wf(),
                Err(e) => r == Err::<(), Error>(e),
            },
    {
        let table = match_blocks(code)?;
        let ghost start = Frame {
            state: self.view(),
            pc: 0,
            calls: Seq::empty(),
            functions: Seq::empty(),
        };
        let mut pc: usize = 0;
        let mut calls: Vec<usize> = Vec::new();
        let mut functions: Vec<usize> = Vec::new();
        let mut left: usize = fuel;
        assert(calls@.map_values(|p: usize| p as int) =~= Seq::<int>::empty());
        assert(functions@.map_values(|p: usize| p as int) =~= Seq::<int>::empty());
        while pc < code.len()
            invariant
                self.wf(),
                valid_table(code@, table@),
                well_nested(code@),
                table@ == block_table(code@),
                start == (Frame {
                    state: old(self).view(),
                    pc: 0,
                    calls: Seq::empty(),
                    functions: Seq::empty(),
                }),
                pc <= code@.len(),
                forall|k: int| 0 <= k < calls@.len() ==> calls@[k] <= code@.len(),
                forall|k: int| 0 <= k < functions@.len() ==> functions@[k] <= code@.len(),
                exec(code@, table@, start, fuel as nat) == exec(
                    code@,
                    table@,
                    Frame {
                        state: self.view(),
                        pc: pc as int,
                        calls: calls@.map_values(|p: usize| p as int),
                        functions: functions@.map_values(|p: usize| p as int),
                    },
                    left as nat,
                ),
            decreases left,
        {
            let ghost f = Frame {
                state: self.view(),
                pc: pc as int,
                calls: calls@.map_values(|p: usize| p as int),
                functions: functions@.map_values(|p: usize| p as int),
            };
            assert(exec(code@, table@, start, fuel as nat) == exec(code@, table@, f, left as nat));
            if left == 0 {
                return Err(Error::OutOfSteps);
            }
            left = left - 1;
            match &code[pc] {
                CoreOp::If | CoreOp::While => {
                    if self.reg != 0 {
                        pc = pc + 1;
                    } else {
                        pc = table[pc] + 1;
                    }
                },
                CoreOp::Else => {
                    pc = table[pc] + 1;
                },
                CoreOp::Function => {
                    functions.push(pc + 1);
                    assert(functions@.map_values(|p: usize| p as int) =~= f.functions.push(pc + 1));
                    pc = table[pc] + 1;
                },
                CoreOp::Call => {
                    if 0 <= self.reg && (self.reg as i128) < functions.len() as i128 {
                        calls.push(pc + 1);
                        assert(calls@.map_values(|p: usize| p as int) =~= f.calls.push(pc + 1));
                        pc = functions[self.reg as usize];
                    } else {
                        assert(step_frame(code@, table@, f) == Err::<Frame, Error>(
                            Error::UndefinedFunction(self.reg),
                        ));
                        return Err(Error::UndefinedFunction(self.reg));
                    }
                },
                CoreOp::Return => {
                    match calls.pop() {
                        Some(p) => {
                            assert(calls@.map_values(|p: usize| p as int) =~= f.calls.drop_last());
                            pc = p;
                        },
                        None => {
                            return Err(Error::StackUnderflow);
                        },
                    }
                },
                CoreOp::End => {
                    let o = table[pc];
                    match &code[o] {
                        CoreOp::While => {
                            pc = o;
                        },
                        CoreOp::Function => {
                            match calls.pop() {
                                Some(p) => {
                                    assert(calls@.map_values(|p: usize| p as int)
                                        =~= f.calls.drop_last());
                                    pc = p;
                                },
                                None => {
                                    return Err(Error::StackUnderflow);
                                },
                            }
                        },
                        _ => {
                            pc = pc + 1;
                        },
                    }
                },
                op => {
                    self.step(op)?;
                    pc = pc + 1;
                },
            }
        }
        Ok(())
    }
}

} // verus!
