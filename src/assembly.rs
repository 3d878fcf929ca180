use vstd::prelude::*;

use crate::globals::{find_last, last_index_of, views, Globals};
use crate::location::Location;
use crate::ops::{AssignOp, BinaryOp, Expr, TernaryOp, UnaryOp};
use crate::vm::{CoreOp, StandardOp, VirtualMachineProgram};

verus! {

/// A failure of assembly, type checking or constant folding.
#[derive(Debug)]
pub enum Error {
    /// A failure raised by the machine layer.
    VirtualMachineError(crate::vm::Error),
    /// The target cannot express this standard instruction.
    UnsupportedInstruction(StandardOp),
    /// A label was used without being declared, at the given instruction.
    UndefinedLabel(String, usize),
    /// A global was used without being declared.
    UndefinedGlobal(String),
    /// A closing instruction without an open block, at the given instruction.
    Unmatched(CoreOp, usize),
    /// An instruction that cannot stand where it stands.
    Unexpected(CoreOp, usize),
    /// An assignment operation applied to operands of the wrong types.
    InvalidAssignOp(AssignOp, Expr, Expr),
    /// A unary operation applied to an operand of the wrong type.
    InvalidUnaryOp(UnaryOp, Expr),
    /// A binary operation applied to operands of the wrong types.
    InvalidBinaryOp(BinaryOp, Expr, Expr),
    /// A ternary operation applied to operands of the wrong types.
    InvalidTernaryOp(TernaryOp, Expr, Expr, Expr),
}

impl From<crate::vm::Error> for Error {
    fn from(e: crate::vm::Error) -> (r: Self) {
        Error::VirtualMachineError(e)
    }
}

impl vstd::std_specs::convert::FromSpecImpl<crate::vm::Error> for Error {
    open spec fn obeys_from_spec() -> bool {
        true
    }

    open spec fn from_spec(e: crate::vm::Error) -> Self {
        Error::VirtualMachineError(e)
    }
}

/// A target that instructions are appended to. Core instructions are always
/// accepted; standard ones only by targets that can express them.
pub trait AssemblyProgram {
    /// The instructions so far: core ones as `Ok`, standard ones as `Err`.
    spec fn code(&self) -> Seq<Result<CoreOp, StandardOp>>;

    /// Labels of the functions defined so far, in order.
    spec fn function_labels(&self) -> Seq<Seq<char>>;

    /// Does this target accept standard instructions?
    spec fn supports_standard(&self) -> bool;

    /// Append a core instruction.
    fn op(&mut self, op: CoreOp)
        ensures
            final(self).code() == old(self).code().push(Ok(op)),
            final(self).function_labels() == old(self).function_labels(),
            final(self).supports_standard() == old(self).supports_standard(),
    ;

    /// Append a standard instruction, if the target can express it.
    fn std_op(&mut self, op: StandardOp) -> (r: Result<(), Error>)
        ensures
            old(self).supports_standard() ==> r is Ok && final(self).code() == old(self).code().push(Err(op)),
            !old(self).supports_standard() ==> r == Err::<(), Error>(
                Error::UnsupportedInstruction(op),
            ) && final(self).code() == old(self).code(),
            final(self).function_labels() == old(self).function_labels(),
            final(self).supports_standard() == old(self).supports_standard(),
    ;

    /// Begin the body of a function under a label.
    fn define_function(&mut self, label: &str)
        ensures
            final(self).code() == old(self).code().push(Ok(CoreOp::Function)),
            final(self).function_labels() == old(self).function_labels().push(label@),
            final(self).supports_standard() == old(self).supports_standard(),
    ;

    /// Append a comment.
    fn comment(&mut self, comment: String)
        ensures
            final(self).code() == old(self).code().push(Ok(CoreOp::Comment(comment))),
            final(self).function_labels() == old(self).function_labels(),
            final(self).supports_standard() == old(self).supports_standard(),
    {
        self.op(CoreOp::Comment(comment));
    }

    /// Has a function been defined under this label?
    fn is_defined(&self, label: &str) -> (r: bool)
        ensures
            r == self.function_labels().contains(label@),
    ;

    /// The number of instructions so far.
    fn current_instruction(&self) -> (r: usize)
        ensures
            r == self.code().len(),
    ;

    /// The instruction at an index, if there is one.
    fn get_op(&self, i: usize) -> (r: Option<Result<CoreOp, StandardOp>>)
        ensures
            i < self.code().len() ==> r == Some(self.code()[i as int]),
            i >= self.code().len() ==> r is None,
    ;

    /// Every instruction from index `start` to the end, each with its index,
    /// for replaying a stretch of the program in diagnostics.
    fn instructions_after(&self, start: usize) -> (r: Vec<(usize, Result<CoreOp, StandardOp>)>)
        ensures
            r@.len() == if start < self.code().len() {
                self.code().len() - start
            } else {
                0
            },
            forall|k: int|
                0 <= k < r@.len() ==> #[trigger] r@[k] == (
                    (start + k) as usize,
                    self.code()[start + k],
                ),
    {
        let mut r: Vec<(usize, Result<CoreOp, StandardOp>)> = Vec::new();
        let n = self.current_instruction();
        let mut i = start;
        while i < n
            invariant
                n == self.code().len(),
                i >= start,
                start < n ==> i <= n,
                start >= n ==> i == start,
                r@.len() == i - start,
                forall|k: int|
                    0 <= k < r@.len() ==> #[trigger] r@[k] == (
                        (start + k) as usize,
                        self.code()[start + k],
                    ),
            decreases n - i,
        {
            match self.get_op(i) {
                Some(op) => r.push((i, op)),
                None => {},
            }
            i = i + 1;
        }
        r
    }
}

/// The context of assembling one program: globals, label IDs, and the blocks
/// that are open and wait for their `End`.
pub struct Env {
    globals: Globals,
    labels: Vec<String>,
    matching: Vec<(CoreOp, usize)>,
    warnings: Vec<String>,
}

impl Env {
    /// Every label declaration so far, oldest first; the one at index `i` got ID `i`.
    pub closed spec fn labels(&self) -> Seq<Seq<char>> {
        views(self.labels@)
    }

    /// The open blocks, innermost last.
    pub closed spec fn matching(&self) -> Seq<(CoreOp, usize)> {
        self.matching@
    }

    /// Warnings recorded so far: the names of redeclared labels.
    pub closed spec fn warnings(&self) -> Seq<Seq<char>> {
        views(self.warnings@)
    }

    pub closed spec fn globals(&self) -> Globals {
        self.globals
    }

    pub open spec fn wf(&self) -> bool {
        self.globals().wf()
    }

    /// The ID a label resolves to: that of its latest declaration.
    pub open spec fn label_id(&self, name: Seq<char>) -> int {
        last_index_of(self.labels(), name)
    }

    pub fn new() -> (r: Env)
        ensures
            r.wf(),
            r.labels() == Seq::<Seq<char>>::empty(),
            r.matching() == Seq::<(CoreOp, usize)>::empty(),
            r.warnings() == Seq::<Seq<char>>::empty(),
            r.globals().names() == Seq::<Seq<char>>::empty(),
            r.globals().sizes() == Seq::<usize>::empty(),
    {
        let r = Env {
            globals: Globals::new(),
            labels: Vec::new(),
            matching: Vec::new(),
            warnings: Vec::new(),
        };
        assert(r.labels() =~= Seq::<Seq<char>>::empty());
        assert(r.warnings() =~= Seq::<Seq<char>>::empty());
        r
    }

    /// Declare a label under the next ID. Declaring a name again gives it the
    /// new ID and records a warning.
    pub fn declare_label(&mut self, name: &str)
        ensures
            final(self).labels() == old(self).labels().push(name@),
            old(self).labels().contains(name@) ==> final(self).warnings() == old(self).warnings().push(name@),
            !old(self).labels().contains(name@) ==> final(self).warnings() == old(self).warnings(),
            final(self).matching() == old(self).matching(),
            final(self).globals() == old(self).globals(),
    {
        if labels_contain(&self.labels, name) {
            self.warnings.push(name.to_owned());
            assert(self.warnings() =~= old(self).warnings().push(name@));
        }
        self.labels.push(name.to_owned());
        assert(self.labels() =~= old(self).labels().push(name@));
    }

    /// The warnings recorded so far: the names of redeclared labels, in order.
    pub fn get_warnings(&self) -> (r: &Vec<String>)
        ensures
            views(r@) == self.warnings(),
    {
        &self.warnings
    }

    /// Declare a global variable of `size` cells.
    pub fn declare_global(&mut self, name: &str, size: usize)
        requires
            old(self).wf(),
            old(self).globals().total() + size <= isize::MAX,
        ensures
            final(self).wf(),
            final(self).globals().names() == old(self).globals().names().push(name@),
            final(self).globals().sizes() == old(self).globals().sizes().push(size),
            final(self).globals().total() == old(self).globals().total() + size,
            final(self).globals().offset_of(name@) == old(self).globals().total(),
            final(self).labels() == old(self).labels(),
            final(self).matching() == old(self).matching(),
            final(self).warnings() == old(self).warnings(),
    {
        self.globals.add_global(name.to_owned(), size);
    }

    /// Replace the globals named in a location by their offsets from the global base.
    pub fn resolve(&mut self, loc: &Location) -> (r: Result<Location, Error>)
        requires
            old(self).wf(),
        ensures
            *final(self) == *old(self),
            match r {
                Ok(l) => old(self).globals().first_undefined(*loc) is None && l == old(self).globals().resolved(*loc),
                Err(Error::UndefinedGlobal(name)) => old(self).globals().first_undefined(*loc)
                    == Some(name@),
                Err(_) => false,
            },
    {
        match self.globals.resolve(loc) {
            Ok(l) => Ok(l),
            Err(name) => Err(Error::UndefinedGlobal(name)),
        }
    }

    /// Cells to set aside for the globals.
    pub fn get_size_of_globals(&self) -> (r: usize)
        requires
            self.wf(),
        ensures
            r == self.globals().total(),
    {
        self.globals.get_size()
    }

    /// The ID of a label; fails for a label never declared.
    pub fn get_label(&self, name: &str, current_instruction: usize) -> (r: Result<usize, Error>)
        ensures
            match r {
                Ok(id) => self.label_id(name@) >= 0 && id == self.label_id(name@),
                Err(Error::UndefinedLabel(s, i)) => self.label_id(name@) < 0 && s@ == name@ && i
                    == current_instruction,
                Err(_) => false,
            },
    {
        match find_last(&self.labels, name) {
            Some(id) => Ok(id),
            None => Err(Error::UndefinedLabel(name.to_owned(), current_instruction)),
        }
    }

    /// Open a block that waits for its `End`.
    pub fn push_matching(&mut self, op: &CoreOp, current_instruction: usize)
        ensures
            final(self).matching() == old(self).matching().push((*op, current_instruction)),
            final(self).labels() == old(self).labels(),
            final(self).warnings() == old(self).warnings(),
            final(self).globals() == old(self).globals(),
    {
        self.matching.push((op.duplicate(), current_instruction));
    }

    /// Close the innermost open block, handing back its opener and where it stood.
    pub fn pop_matching(&mut self, current_instruction: usize) -> (r: Result<(CoreOp, usize), Error>)
        ensures
            old(self).matching().len() == 0 ==> r == Err::<(CoreOp, usize), Error>(
                Error::Unmatched(CoreOp::End, current_instruction),
            ) && final(self).matching() == old(self).matching(),
            old(self).matching().len() > 0 ==> r == Ok::<(CoreOp, usize), Error>(
                old(self).matching().last(),
            ) && final(self).matching() == old(self).matching().drop_last(),
            final(self).labels() == old(self).labels(),
            final(self).warnings() == old(self).warnings(),
            final(self).globals() == old(self).globals(),
    {
        match self.matching.pop() {
            Some(entry) => Ok(entry),
            None => Err(Error::Unmatched(CoreOp::End, current_instruction)),
        }
    }
}

proof fn lemma_contains_iff_index(names: Seq<Seq<char>>, name: Seq<char>)
    ensures
        names.contains(name) <==> last_index_of(names, name) >= 0,
    decreases names.len(),
{
    if names.len() > 0 {
        lemma_contains_iff_index(names.drop_last(), name);
        if names.last() != name {
            if names.contains(name) {
                let k = choose|k: int| 0 <= k < names.len() && names[k] == name;
                assert(names.drop_last()[k] == name);
            }
            if names.drop_last().contains(name) {
                let k = choose|k: int| 0 <= k < names.len() - 1 && names.drop_last()[k] == name;
                assert(names[k] == name);
            }
        } else {
            assert(names[names.len() - 1] == name);
        }
    }
}

fn labels_contain(labels: &Vec<String>, label: &str) -> (r: bool)
    ensures
        r == views(labels@).contains(label@),
{
    proof {
        lemma_contains_iff_index(views(labels@), label@);
    }
    find_last(labels, label).is_some()
}

/// A target that supports the core tier only.
pub struct CoreProgram {
    ops: Vec<CoreOp>,
    labels: Vec<String>,
}

impl CoreProgram {
    pub fn new() -> (r: CoreProgram)
        ensures
            r.code() == Seq::<Result<CoreOp, StandardOp>>::empty(),
            r.function_labels() == Seq::<Seq<char>>::empty(),
            !r.supports_standard(),
    {
        let r = CoreProgram { ops: Vec::new(), labels: Vec::new() };
        assert(r.code() =~= Seq::<Result<CoreOp, StandardOp>>::empty());
        assert(r.function_labels() =~= Seq::<Seq<char>>::empty());
        r
    }

    /// The instructions, all of the core tier.
    pub closed spec fn core_code(&self) -> Seq<CoreOp> {
        self.ops@
    }

    /// The instructions, for the machine.
    pub fn instructions(&self) -> (r: &Vec<CoreOp>)
        ensures
            r@ == self.core_code(),
            self.code() == r@.map_values(|o: CoreOp| Ok::<CoreOp, StandardOp>(o)),
    {
        &self.ops
    }
}

impl AssemblyProgram for CoreProgram {
    closed spec fn code(&self) -> Seq<Result<CoreOp, StandardOp>> {
        self.ops@.map_values(|o: CoreOp| Ok::<CoreOp, StandardOp>(o))
    }

    closed spec fn function_labels(&self) -> Seq<Seq<char>> {
        views(self.labels@)
    }

    closed spec fn supports_standard(&self) -> bool {
        false
    }

    fn op(&mut self, op: CoreOp) {
        self.ops.push(op);
        assert(self.code() =~= old(self).code().push(Ok(op)));
    }

    fn std_op(&mut self, op: StandardOp) -> (r: Result<(), Error>) {
        Err(Error::UnsupportedInstruction(op))
    }

    fn define_function(&mut self, label: &str) {
        self.ops.push(CoreOp::Function);
        self.labels.push(label.to_owned());
        assert(self.code() =~= old(self).code().push(Ok(CoreOp::Function)));
        assert(self.function_labels() =~= old(self).function_labels().push(label@));
    }

    fn is_defined(&self, label: &str) -> (r: bool) {
        labels_contain(&self.labels, label)
    }

    fn current_instruction(&self) -> (r: usize) {
        self.ops.len()
    }

    fn get_op(&self, i: usize) -> (r: Option<Result<CoreOp, StandardOp>>) {
        if i < self.ops.len() {
            Some(Ok(self.ops[i].duplicate()))
        } else {
            None
        }
    }
}

/// A target that supports the standard tier.
pub struct StandardProgram {
    ops: Vec<Result<CoreOp, StandardOp>>,
    labels: Vec<String>,
}

impl StandardProgram {
    pub fn new() -> (r: StandardProgram)
        ensures
            AssemblyProgram::code(&r) == Seq::<Result<CoreOp, StandardOp>>::empty(),
            r.function_labels() == Seq::<Seq<char>>::empty(),
            r.supports_standard(),
    {
        let r = StandardProgram { ops: Vec::new(), labels: Vec::new() };
        assert(r.function_labels() =~= Seq::<Seq<char>>::empty());
        r
    }
}

impl AssemblyProgram for StandardProgram {
    closed spec fn code(&self) -> Seq<Result<CoreOp, StandardOp>> {
        self.ops@
    }

    closed spec fn function_labels(&self) -> Seq<Seq<char>> {
        views(self.labels@)
    }

    closed spec fn supports_standard(&self) -> bool {
        true
    }

    fn op(&mut self, op: CoreOp) {
        self.ops.push(Ok(op));
    }

    fn std_op(&mut self, op: StandardOp) -> (r: Result<(), Error>) {
        self.ops.push(Err(op));
        Ok(())
    }

    fn define_function(&mut self, label: &str) {
        self.ops.push(Ok(CoreOp::Function));
        self.labels.push(label.to_owned());
        assert(self.function_labels() =~= old(self).function_labels().push(label@));
    }

    fn is_defined(&self, label: &str) -> (r: bool) {
        labels_contain(&self.labels, label)
    }

    fn current_instruction(&self) -> (r: usize) {
        self.ops.len()
    }

    fn get_op(&self, i: usize) -> (r: Option<Result<CoreOp, StandardOp>>) {
        if i < self.ops.len() {
            match &self.ops[i] {
                Ok(op) => Some(Ok(op.duplicate())),
                Err(op) => Some(Err(*op)),
            }
        } else {
            None
        }
    }
}

impl VirtualMachineProgram for StandardProgram {
    closed spec fn code(&self) -> Seq<Result<CoreOp, StandardOp>> {
        self.ops@
    }

    fn append_core_op(&mut self, op: CoreOp) {
        self.ops.push(Ok(op));
    }

    fn append_standard_op(&mut self, op: StandardOp) {
        self.ops.push(Err(op));
    }
}

} // verus!
