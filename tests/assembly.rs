use lir_backend::assembly::{AssemblyProgram, CoreProgram, Env, Error, StandardProgram};
use lir_backend::location::{Location, GP};
use lir_backend::vm::{self, CoreOp, StandardOp, VirtualMachineProgram};

fn global_slot_offset(loc: &Location) -> Option<isize> {
    match loc {
        Location::Offset(base, k) => match base.as_ref() {
            Location::Indirect(inner) => match inner.as_ref() {
                Location::Address(a) if *a == GP => Some(*k),
                _ => None,
            },
            _ => None,
        },
        _ => None,
    }
}

#[test]
fn globals_are_laid_out_in_declaration_order() {
    let mut env = Env::new();
    env.declare_global("x", 8);
    env.declare_global("y", 4);
    assert_eq!(env.get_size_of_globals(), 12);
    let x = env.resolve(&Location::Global("x".to_string())).unwrap();
    assert_eq!(global_slot_offset(&x), Some(0));
    let y = env.resolve(&Location::Global("y".to_string())).unwrap();
    assert_eq!(global_slot_offset(&y), Some(8));
    match env.resolve(&Location::Global("z".to_string())) {
        Err(Error::UndefinedGlobal(name)) => assert_eq!(name, "z"),
        other => panic!("expected an undefined global, got {:?}", other),
    }
}

#[test]
fn global_offsets_are_sums_of_earlier_sizes() {
    let mut env = Env::new();
    let sizes = [3usize, 1, 5, 2];
    let names = ["a", "b", "c", "d"];
    for (n, s) in names.iter().zip(sizes.iter()) {
        env.declare_global(n, *s);
    }
    assert_eq!(env.get_size_of_globals(), 11);
    let expected = [0isize, 3, 4, 9];
    for (n, e) in names.iter().zip(expected.iter()) {
        let loc = env.resolve(&Location::Global(n.to_string())).unwrap();
        assert_eq!(global_slot_offset(&loc), Some(*e));
    }
}

#[test]
fn empty_globals_take_no_room() {
    let env = Env::new();
    assert_eq!(env.get_size_of_globals(), 0);
}

#[test]
fn resolve_rewrites_globals_inside_offsets() {
    let mut env = Env::new();
    env.declare_global("a", 2);
    env.declare_global("b", 6);
    let loc = Location::Offset(Box::new(Location::Global("b".to_string())), 3);
    match env.resolve(&loc).unwrap() {
        Location::Offset(inner, 3) => assert_eq!(global_slot_offset(&inner), Some(2)),
        other => panic!("unexpected {:?}", other),
    }
    let fixed = env.resolve(&Location::Address(7)).unwrap();
    assert!(matches!(fixed, Location::Address(7)));
    let missing = Location::Indirect(Box::new(Location::Global("q".to_string())));
    assert!(matches!(env.resolve(&missing), Err(Error::UndefinedGlobal(ref n)) if n == "q"));
}

#[test]
fn redeclared_global_takes_its_new_place() {
    let mut env = Env::new();
    env.declare_global("g", 4);
    env.declare_global("g", 2);
    assert_eq!(env.get_size_of_globals(), 6);
    let loc = env.resolve(&Location::Global("g".to_string())).unwrap();
    assert_eq!(global_slot_offset(&loc), Some(4));
}

#[test]
fn redeclared_label_takes_the_latest_id() {
    let mut env = Env::new();
    env.declare_label("loop");
    assert_eq!(env.get_label("loop", 0).unwrap(), 0);
    assert!(env.get_warnings().is_empty());
    env.declare_label("loop");
    assert_eq!(env.get_label("loop", 0).unwrap(), 1);
    assert_eq!(env.get_warnings(), &vec!["loop".to_string()]);
}

#[test]
fn labels_get_sequential_ids() {
    let mut env = Env::new();
    for (i, name) in ["main", "f", "g"].iter().enumerate() {
        env.declare_label(name);
        assert_eq!(env.get_label(name, 0).unwrap(), i);
    }
    assert_eq!(env.get_label("main", 9).unwrap(), 0);
    env.declare_label("f");
    assert_eq!(env.get_label("f", 0).unwrap(), 3);
    assert_eq!(env.get_label("g", 0).unwrap(), 2);
}

#[test]
fn undeclared_label_reports_where_it_was_used() {
    let env = Env::new();
    match env.get_label("nowhere", 42) {
        Err(Error::UndefinedLabel(name, at)) => {
            assert_eq!(name, "nowhere");
            assert_eq!(at, 42);
        }
        other => panic!("expected an undefined label, got {:?}", other),
    }
}

#[test]
fn matching_stack_pops_in_reverse_order() {
    let mut env = Env::new();
    env.push_matching(&CoreOp::While, 3);
    env.push_matching(&CoreOp::If, 5);
    assert!(matches!(env.pop_matching(9), Ok((CoreOp::If, 5))));
    assert!(matches!(env.pop_matching(9), Ok((CoreOp::While, 3))));
    assert!(matches!(env.pop_matching(9), Err(Error::Unmatched(CoreOp::End, 9))));
}

#[test]
fn matching_stack_keeps_comments_intact() {
    let mut env = Env::new();
    env.push_matching(&CoreOp::Function, 0);
    env.push_matching(&CoreOp::Comment("body".to_string()), 1);
    env.push_matching(&CoreOp::Else, 2);
    assert!(matches!(env.pop_matching(3), Ok((CoreOp::Else, 2))));
    match env.pop_matching(4) {
        Ok((CoreOp::Comment(c), 1)) => assert_eq!(c, "body"),
        other => panic!("unexpected {:?}", other),
    }
    assert!(matches!(env.pop_matching(5), Ok((CoreOp::Function, 0))));
}

#[test]
fn core_target_refuses_standard_instructions() {
    let mut out = CoreProgram::new();
    out.op(CoreOp::Inc);
    match out.std_op(StandardOp::Alloc) {
        Err(Error::UnsupportedInstruction(op)) => assert_eq!(op, StandardOp::Alloc),
        other => panic!("expected an unsupported instruction, got {:?}", other),
    }
    assert_eq!(out.current_instruction(), 1);
}

#[test]
fn standard_target_accepts_standard_instructions() {
    let mut out = StandardProgram::new();
    out.op(CoreOp::Constant(4));
    assert!(out.std_op(StandardOp::Alloc).is_ok());
    AssemblyProgram::comment(&mut out, "done".to_string());
    assert_eq!(out.current_instruction(), 3);
    assert_eq!(out.get_op(0), Some(Ok(CoreOp::Constant(4))));
    assert_eq!(out.get_op(1), Some(Err(StandardOp::Alloc)));
    assert_eq!(out.get_op(2), Some(Ok(CoreOp::Comment("done".to_string()))));
    assert_eq!(out.get_op(3), None);
}

#[test]
fn function_labels_are_known_once_defined() {
    let mut out = CoreProgram::new();
    assert!(!out.is_defined("main"));
    out.define_function("main");
    out.op(CoreOp::End);
    assert!(out.is_defined("main"));
    assert!(!out.is_defined("other"));
    assert_eq!(out.get_op(0), Some(Ok(CoreOp::Function)));
    assert_eq!(out.instructions(), &vec![CoreOp::Function, CoreOp::End]);
}

#[test]
fn machine_program_helpers_append_their_instruction() {
    let mut p = StandardProgram::new();
    p.set_register(7);
    p.move_pointer(0);
    p.move_pointer(-2);
    p.begin_while();
    p.dec();
    p.end();
    p.append_standard_op(StandardOp::PutInt);
    VirtualMachineProgram::comment(&mut p, "note");
    assert_eq!(p.current_instruction(), 7);
    assert_eq!(p.get_op(0), Some(Ok(CoreOp::Constant(7))));
    assert_eq!(p.get_op(1), Some(Ok(CoreOp::Move(-2))));
    assert_eq!(p.get_op(2), Some(Ok(CoreOp::While)));
    assert_eq!(p.get_op(4), Some(Ok(CoreOp::End)));
    assert_eq!(p.get_op(5), Some(Err(StandardOp::PutInt)));
    assert_eq!(p.get_op(6), Some(Ok(CoreOp::Comment("note".to_string()))));
}

#[test]
fn machine_errors_convert_unchanged() {
    let e = Error::from(vm::Error::OutOfSteps);
    assert!(matches!(e, Error::VirtualMachineError(vm::Error::OutOfSteps)));
}

#[test]
fn instructions_after_replays_the_tail_with_indices() {
    let mut out = StandardProgram::new();
    out.op(CoreOp::Inc);
    out.op(CoreOp::Dec);
    out.std_op(StandardOp::PutInt).unwrap();
    let tail = out.instructions_after(1);
    assert_eq!(tail, vec![(1, Ok(CoreOp::Dec)), (2, Err(StandardOp::PutInt))]);
    assert!(out.instructions_after(3).is_empty());
    assert!(out.instructions_after(10).is_empty());
}
