//! The backend of a small compiler: typed LIR expressions are checked, folded
//! and lowered to instructions for a tape machine, whose interpreter is part
//! of the library. The assembly layer resolves labels and globals and matches
//! structured blocks while code is emitted.
pub mod assembly;
pub mod globals;
pub mod interpreter;
pub mod laws;
pub mod location;
pub mod ops;
pub mod vm;
