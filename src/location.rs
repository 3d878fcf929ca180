use vstd::prelude::*;

verus! {

/// Tape cell holding the stack pointer.
pub const SP: usize = 0;
/// Tape cell holding the frame pointer.
pub const FP: usize = 1;
/// Tape cell holding the pointer to the base of global storage.
pub const GP: usize = 2;
/// Scratch cell used by generated code.
pub const TMP: usize = 3;
/// General purpose cells.
pub const A: usize = 4;
pub const B: usize = 5;
pub const C: usize = 6;
pub const D: usize = 7;
pub const E: usize = 8;
pub const F: usize = 9;
/// Cell holding the pointer to the top of the frame-pointer stack.
pub const FP_STACK: usize = 10;
/// First cell of the frame-pointer stack.
pub const START_OF_FP_STACK: usize = 11;
/// First cell of the value stack.
pub const STACK_START: usize = 267;

/// A symbolic address on the tape.
#[derive(Debug)]
pub enum Location {
    /// A fixed cell: a register, the stack pointer, the frame pointer, ...
    Address(usize),
    /// The cell that the value stored at a location points to.
    Indirect(Box<Location>),
    /// A location moved by a number of cells.
    Offset(Box<Location>, isize),
    /// A global variable, by name; replaced by an offset from `GP` during assembly.
    Global(String),
}

impl Location {
    /// Does this location still name a global symbolically?
    pub open spec fn mentions_global(self) -> bool
        decreases self,
    {
        match self {
            Location::Address(_) => false,
            Location::Indirect(inner) => inner.mentions_global(),
            Location::Offset(inner, _) => inner.mentions_global(),
            Location::Global(_) => true,
        }
    }
}

/// The location of the global that starts `offset` cells after the global base.
pub open spec fn global_slot(offset: isize) -> Location {
    Location::Offset(Box::new(Location::Indirect(Box::new(Location::Address(GP)))), offset)
}

} // verus!
