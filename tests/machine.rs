use lir_backend::interpreter::{match_blocks, Machine};
use lir_backend::vm::{CoreOp, Error};

fn run(code: Vec<CoreOp>, input: Vec<i64>, fuel: usize) -> (Result<(), Error>, Machine) {
    let mut m = Machine::new(32, input);
    let r = m.run(&code, fuel);
    (r, m)
}

#[test]
fn while_loop_counts_down() {
    let code = vec![CoreOp::Constant(3), CoreOp::While, CoreOp::Put, CoreOp::Dec, CoreOp::End, CoreOp::Constant(9), CoreOp::Put];
    let (r, m) = run(code, vec![], 1000);
    assert!(r.is_ok());
    assert_eq!(m.output(), &vec![3, 2, 1, 9]);
}

#[test]
fn if_else_takes_one_branch() {
    let code = vec![CoreOp::Constant(0), CoreOp::If, CoreOp::Constant(1), CoreOp::Put, CoreOp::Else, CoreOp::Constant(2), CoreOp::Put, CoreOp::End];
    let (r, m) = run(code, vec![], 100);
    assert!(r.is_ok());
    assert_eq!(m.output(), &vec![2]);
    let code = vec![CoreOp::Constant(5), CoreOp::If, CoreOp::Constant(1), CoreOp::Put, CoreOp::Else, CoreOp::Constant(2), CoreOp::Put, CoreOp::End];
    let (_, m) = run(code, vec![], 100);
    assert_eq!(m.output(), &vec![1]);
}

#[test]
fn functions_are_called_by_number() {
    let code = vec![CoreOp::Function, CoreOp::Inc, CoreOp::Put, CoreOp::End, CoreOp::Function, CoreOp::Dec, CoreOp::Put, CoreOp::Return, CoreOp::End, CoreOp::Constant(0), CoreOp::Call, CoreOp::Constant(1), CoreOp::Call];
    let (r, m) = run(code, vec![], 100);
    assert!(r.is_ok());
    assert_eq!(m.output(), &vec![1, 0]);
}

#[test]
fn input_is_read_in_order() {
    let code = vec![CoreOp::Get, CoreOp::Put, CoreOp::Get, CoreOp::IsNonNegative, CoreOp::Put, CoreOp::Get];
    let (r, m) = run(code, vec![7, -1], 100);
    assert_eq!(r, Err(Error::EndOfInput));
    assert_eq!(m.output(), &vec![7, 0]);
}

#[test]
fn pointers_follow_and_return() {
    let code = vec![CoreOp::Constant(5), CoreOp::Save, CoreOp::Deref, CoreOp::Where, CoreOp::Put, CoreOp::Constant(8), CoreOp::Save, CoreOp::Refer, CoreOp::Where, CoreOp::Put, CoreOp::Move(5), CoreOp::Restore, CoreOp::Put];
    let (r, m) = run(code, vec![], 100);
    assert!(r.is_ok());
    assert_eq!(m.output(), &vec![5, 0, 8]);
}

#[test]
fn machine_faults_are_reported() {
    assert_eq!(run(vec![CoreOp::Move(-1)], vec![], 10).0, Err(Error::PointerOutOfBounds));
    assert_eq!(run(vec![CoreOp::Move(32)], vec![], 10).0, Err(Error::PointerOutOfBounds));
    assert_eq!(run(vec![CoreOp::Constant(99), CoreOp::Save, CoreOp::Deref], vec![], 10).0, Err(Error::PointerOutOfBounds));
    assert_eq!(run(vec![CoreOp::Refer], vec![], 10).0, Err(Error::StackUnderflow));
    assert_eq!(run(vec![CoreOp::Return], vec![], 10).0, Err(Error::StackUnderflow));
    assert_eq!(run(vec![CoreOp::Constant(4), CoreOp::Call], vec![], 10).0, Err(Error::UndefinedFunction(4)));
    assert_eq!(run(vec![CoreOp::Constant(1), CoreOp::While, CoreOp::End], vec![], 50).0, Err(Error::OutOfSteps));
}

#[test]
fn unbalanced_blocks_are_refused() {
    assert_eq!(match_blocks(&vec![CoreOp::End]), Err(Error::UnmatchedBlock(0)));
    assert_eq!(match_blocks(&vec![CoreOp::If, CoreOp::Inc]), Err(Error::UnmatchedBlock(0)));
    assert_eq!(match_blocks(&vec![CoreOp::While, CoreOp::Else, CoreOp::End]), Err(Error::UnmatchedBlock(1)));
    assert_eq!(match_blocks(&vec![CoreOp::Else]), Err(Error::UnmatchedBlock(0)));
    assert_eq!(match_blocks(&vec![CoreOp::If, CoreOp::Else, CoreOp::End]), Ok(vec![1, 2, 1]));
}

#[test]
fn single_steps_change_the_register() {
    let mut m = Machine::new(4, vec![]);
    m.step(&CoreOp::Constant(i64::MAX)).unwrap();
    m.step(&CoreOp::Inc).unwrap();
    assert_eq!(m.register(), i64::MIN);
    m.step(&CoreOp::Dec).unwrap();
    assert_eq!(m.register(), i64::MAX);
    m.step(&CoreOp::Save).unwrap();
    m.step(&CoreOp::Add).unwrap();
    assert_eq!(m.register(), -2);
}

#[test]
fn nested_blocks_pair_last_in_first_out() {
    assert_eq!(
        match_blocks(&vec![CoreOp::If, CoreOp::If, CoreOp::End, CoreOp::End]),
        Ok(vec![3, 2, 1, 0])
    );
    assert_eq!(
        match_blocks(&vec![
            CoreOp::Function,
            CoreOp::While,
            CoreOp::If,
            CoreOp::Else,
            CoreOp::End,
            CoreOp::End,
            CoreOp::End,
        ]),
        Ok(vec![6, 5, 3, 4, 3, 1, 0])
    );
    assert_eq!(match_blocks(&vec![CoreOp::Inc, CoreOp::Put]), Ok(vec![0, 0]));
}

#[test]
fn unbalanced_programs_do_not_run() {
    assert_eq!(run(vec![CoreOp::Inc, CoreOp::End], vec![], 10).0, Err(Error::UnmatchedBlock(1)));
    assert_eq!(
        run(vec![CoreOp::While, CoreOp::If, CoreOp::End], vec![], 10).0,
        Err(Error::UnmatchedBlock(0))
    );
    assert_eq!(
        run(vec![CoreOp::End, CoreOp::If], vec![], 10).0,
        Err(Error::UnmatchedBlock(0))
    );
}
