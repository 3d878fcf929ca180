use vstd::prelude::*;

verus! {

/// An instruction of the core tier, which every backend supports.
#[derive(Clone, Debug, PartialEq, Eq)]
pub enum CoreOp {
    /// A note for readers; does nothing.
    Comment(String),
    /// Begin a function body, skipped until called; functions are numbered in
    /// the order they are defined.
    Function,
    /// Call the function whose number is in the register.
    Call,
    /// Return from the current function.
    Return,
    /// Repeat the block up to the matching `End` while the register is not zero.
    While,
    /// Run the block up to the matching `Else` or `End` if the register is not zero.
    If,
    /// Begin the alternative of an `If`.
    Else,
    /// Close the innermost open block.
    End,
    /// Store the register in the cell under the pointer.
    Save,
    /// Load the register from the cell under the pointer.
    Restore,
    /// Move the pointer by a number of cells.
    Move(isize),
    /// Load the current pointer into the register.
    Where,
    /// Remember the pointer and follow the pointer stored in the current cell.
    Deref,
    /// Go back to the pointer remembered by the latest `Deref`.
    Refer,
    /// Load a constant into the register.
    Constant(i64),
    /// Add one to the register.
    Inc,
    /// Subtract one from the register.
    Dec,
    /// Add the current cell to the register.
    Add,
    /// Subtract the current cell from the register.
    Subtract,
    /// Multiply the register by the current cell.
    Multiply,
    /// Set the register to 1 if it is at least zero, else to 0.
    IsNonNegative,
    /// Read an integer from the input into the register.
    Get,
    /// Write the register to the output.
    Put,
}

/// An instruction of the standard tier: floats, dynamic memory and formatted I/O.
#[derive(Clone, Copy, Debug, PartialEq, Eq)]
pub enum StandardOp {
    ToInt,
    ToFloat,
    AddFloat,
    SubtractFloat,
    MultiplyFloat,
    DivideFloat,
    RemainderFloat,
    IsNonNegativeFloat,
    /// Allocate as many cells as the register holds; the register gets a pointer to them.
    Alloc,
    /// Free the cells that the pointer in the register points to.
    Free,
    GetChar,
    PutChar,
    GetInt,
    PutInt,
    GetFloat,
    PutFloat,
}

/// An error raised while running a program on the machine.
#[derive(Clone, Debug, PartialEq, Eq)]
pub enum Error {
    /// The pointer left the tape.
    PointerOutOfBounds,
    /// A block opener without its `End`, or an `End` or `Else` without its opener.
    UnmatchedBlock(usize),
    /// `Call` of a function number that was never defined.
    UndefinedFunction(i64),
    /// `Return` or `Refer` with nothing to go back to.
    StackUnderflow,
    /// `Get` with the input used up.
    EndOfInput,
    /// The step budget ran out.
    OutOfSteps,
}

impl CoreOp {
    /// A copy of this instruction.
    pub fn duplicate(&self) -> (r: CoreOp)
        ensures
            r == *self,
    {
        match self {
            CoreOp::Comment(s) => CoreOp::Comment(s.clone()),
            CoreOp::Function => CoreOp::Function,
            CoreOp::Call => CoreOp::Call,
            CoreOp::Return => CoreOp::Return,
            CoreOp::While => CoreOp::While,
            CoreOp::If => CoreOp::If,
            CoreOp::Else => CoreOp::Else,
            CoreOp::End => CoreOp::End,
            CoreOp::Save => CoreOp::Save,
            CoreOp::Restore => CoreOp::Restore,
            CoreOp::Move(n) => CoreOp::Move(*n),
            CoreOp::Where => CoreOp::Where,
            CoreOp::Deref => CoreOp::Deref,
            CoreOp::Refer => CoreOp::Refer,
            CoreOp::Constant(n) => CoreOp::Constant(*n),
            CoreOp::Inc => CoreOp::Inc,
            CoreOp::Dec => CoreOp::Dec,
            CoreOp::Add => CoreOp::Add,
            CoreOp::Subtract => CoreOp::Subtract,
            CoreOp::Multiply => CoreOp::Multiply,
            CoreOp::IsNonNegative => CoreOp::IsNonNegative,
            CoreOp::Get => CoreOp::Get,
            CoreOp::Put => CoreOp::Put,
        }
    }
}

/// A program for the machine, which instructions are appended to.
pub trait VirtualMachineProgram {
    /// The instructions so far: core ones as `Ok`, standard ones as `Err`.
    spec fn code(&self) -> Seq<Result<CoreOp, StandardOp>>;

    fn append_core_op(&mut self, op: CoreOp)
        ensures
            final(self).code() == old(self).code().push(Ok(op)),
    ;

    fn append_standard_op(&mut self, op: StandardOp)
        ensures
            final(self).code() == old(self).code().push(Err(op)),
    ;

    fn comment(&mut self, comment: &str)
        ensures
            exists|s: String|
                s@ == comment@ && final(self).code() == old(self).code().push(
                    Ok(CoreOp::Comment(s)),
                ),
    {
        self.append_core_op(CoreOp::Comment(comment.to_owned()));
    }

    fn restore(&mut self)
        ensures
            final(self).code() == old(self).code().push(Ok(CoreOp::Restore)),
    {
        self.append_core_op(CoreOp::Restore);
    }

    fn save(&mut self)
        ensures
            final(self).code() == old(self).code().push(Ok(CoreOp::Save)),
    {
        self.append_core_op(CoreOp::Save);
    }

    fn ret(&mut self)
        ensures
            final(self).code() == old(self).code().push(Ok(CoreOp::Return)),
    {
        self.append_core_op(CoreOp::Return);
    }

    fn where_is_pointer(&mut self)
        ensures
            final(self).code() == old(self).code().push(Ok(CoreOp::Where)),
    {
        self.append_core_op(CoreOp::Where);
    }

    fn deref(&mut self)
        ensures
            final(self).code() == old(self).code().push(Ok(CoreOp::Deref)),
    {
        self.append_core_op(CoreOp::Deref);
    }

    fn refer(&mut self)
        ensures
            final(self).code() == old(self).code().push(Ok(CoreOp::Refer)),
    {
        self.append_core_op(CoreOp::Refer);
    }

    /// Move the pointer; a move by zero cells emits nothing.
    fn move_pointer(&mut self, cells: isize)
        ensures
            cells == 0 ==> final(self).code() == old(self).code(),
            cells != 0 ==> final(self).code() == old(self).code().push(Ok(CoreOp::Move(cells))),
    {
        if cells != 0 {
            self.append_core_op(CoreOp::Move(cells));
        }
    }

    fn set_register(&mut self, val: i64)
        ensures
            final(self).code() == old(self).code().push(Ok(CoreOp::Constant(val))),
    {
        self.append_core_op(CoreOp::Constant(val));
    }

    fn begin_while(&mut self)
        ensures
            final(self).code() == old(self).code().push(Ok(CoreOp::While)),
    {
        self.append_core_op(CoreOp::While);
    }

    fn begin_if(&mut self)
        ensures
            final(self).code() == old(self).code().push(Ok(CoreOp::If)),
    {
        self.append_core_op(CoreOp::If);
    }

    fn begin_else(&mut self)
        ensures
            final(self).code() == old(self).code().push(Ok(CoreOp::Else)),
    {
        self.append_core_op(CoreOp::Else);
    }

    fn begin_function(&mut self)
        ensures
            final(self).code() == old(self).code().push(Ok(CoreOp::Function)),
    {
        self.append_core_op(CoreOp::Function);
    }

    fn end(&mut self)
        ensures
            final(self).code() == old(self).code().push(Ok(CoreOp::End)),
    {
        self.append_core_op(CoreOp::End);
    }

    fn call(&mut self)
        ensures
            final(self).code() == old(self).code().push(Ok(CoreOp::Call)),
    {
        self.append_core_op(CoreOp::Call);
    }

    fn inc(&mut self)
        ensures
            final(self).code() == old(self).code().push(Ok(CoreOp::Inc)),
    {
        self.append_core_op(CoreOp::Inc);
    }

    fn dec(&mut self)
        ensures
            final(self).code() == old(self).code().push(Ok(CoreOp::Dec)),
    {
        self.append_core_op(CoreOp::Dec);
    }

    fn get(&mut self)
        ensures
            final(self).code() == old(self).code().push(Ok(CoreOp::Get)),
    {
        self.append_core_op(CoreOp::Get);
    }

    fn put(&mut self)
        ensures
            final(self).code() == old(self).code().push(Ok(CoreOp::Put)),
    {
        self.append_core_op(CoreOp::Put);
    }

    fn is_non_negative(&mut self)
        ensures
            final(self).code() == old(self).code().push(Ok(CoreOp::IsNonNegative)),
    {
        self.append_core_op(CoreOp::IsNonNegative);
    }
}

} // verus!
