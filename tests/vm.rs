use stack_vm::builder::BytecodeBuilder;
use stack_vm::error::VMError;
use stack_vm::opcode::OpCode;
use stack_vm::value::Value;
use stack_vm::vm::VM;

fn emit(code: &mut Vec<u8>, op: OpCode) {
    code.push(op.convert_to_u8());
}

fn emit_push(code: &mut Vec<u8>, v: i64) {
    code.push(OpCode::Push.convert_to_u8());
    code.extend_from_slice(&v.to_le_bytes());
}

fn emit_name(code: &mut Vec<u8>, op: OpCode, name: &str) {
    code.push(op.convert_to_u8());
    code.push(name.len() as u8);
    code.extend_from_slice(name.as_bytes());
}

fn emit_addr(code: &mut Vec<u8>, op: OpCode, addr: u64) {
    code.push(op.convert_to_u8());
    code.extend_from_slice(&addr.to_le_bytes());
}

fn run(code: Vec<u8>) -> (VM, Result<(), VMError>) {
    let mut vm = VM::new();
    vm.load_bytecode_solution(code);
    let r = vm.run_solution();
    (vm, r)
}

#[test]
fn test_simple_addition() {
    let mut vm = VM::new();

    // PUSH 10, PUSH 5, ADD, HALT
    let bytecode = BytecodeBuilder::new()
        .push_solution(10)
        .push_solution(5)
        .add_solution()
        .halt_solution()
        .build();

    vm.load_bytecode_solution(bytecode);
    vm.run_solution().unwrap();

    assert_eq!(vm.peek_stack(), Some(Value::Integer(15)));
}

#[test]
fn test_complex_calculation() {
    let mut vm = VM::new();

    // PUSH 20, PUSH 4, DIV, PUSH 3, MUL, HALT: (20 / 4) * 3 = 15
    let bytecode = BytecodeBuilder::new()
        .push_solution(20)
        .push_solution(4)
        .div_solution()
        .push_solution(3)
        .mul_solution()
        .halt_solution()
        .build();

    vm.load_bytecode_solution(bytecode);
    vm.run_solution().unwrap();

    assert_eq!(vm.peek_stack(), Some(Value::Integer(15)));
}

#[test]
fn test_stack_underflow() {
    let mut vm = VM::new();

    let bytecode = vec![1, 5];

    vm.load_bytecode_solution(bytecode);
    let result = vm.run_solution();

    assert_eq!(result, Err(VMError::StackUnderflow));
}

#[test]
fn test_division_by_zero() {
    let mut vm = VM::new();

    // PUSH 10, PUSH 0, DIV, HALT
    let bytecode = BytecodeBuilder::new()
        .push_solution(10)
        .push_solution(0)
        .div_solution()
        .halt_solution()
        .build();

    vm.load_bytecode_solution(bytecode);
    let result = vm.run_solution();

    assert_eq!(result, Err(VMError::DivisionByZero));
}

#[test]
fn division_truncates_in_a_program() {
    let code = BytecodeBuilder::new().push_solution(20).push_solution(4).div_solution().halt_solution().build();
    let (vm, r) = run(code);
    assert_eq!(r, Ok(()));
    assert_eq!(vm.get_stack(), &[Value::Integer(5)]);
    let code = BytecodeBuilder::new().push_solution(-7).push_solution(2).div_solution().halt_solution().build();
    let (vm, r) = run(code);
    assert_eq!(r, Ok(()));
    assert_eq!(vm.get_stack(), &[Value::Integer(-3)]);
}

#[test]
fn division_by_zero_pops_both_operands() {
    let code = BytecodeBuilder::new().push_solution(10).push_solution(0).div_solution().halt_solution().build();
    let (vm, r) = run(code);
    assert_eq!(r, Err(VMError::DivisionByZero));
    assert!(vm.get_stack().is_empty());
    assert_eq!(vm.peek_stack(), None);
}

#[test]
fn add_on_empty_stack_pushes_nothing() {
    let code = BytecodeBuilder::new().add_solution().halt_solution().build();
    let (vm, r) = run(code);
    assert_eq!(r, Err(VMError::StackUnderflow));
    assert!(vm.get_stack().is_empty());
    assert_eq!(vm.current_ip(), 1);
}

#[test]
fn add_with_one_operand_pops_it() {
    let code = BytecodeBuilder::new().push_solution(3).add_solution().halt_solution().build();
    let (vm, r) = run(code);
    assert_eq!(r, Err(VMError::StackUnderflow));
    assert!(vm.get_stack().is_empty());
}

#[test]
fn invalid_opcode_carries_the_byte() {
    let (vm, r) = run(vec![200]);
    assert_eq!(r, Err(VMError::InvalidOpCode(200)));
    assert_eq!(vm.current_ip(), 1);
    let mut code = Vec::new();
    emit_push(&mut code, 1);
    code.push(23);
    assert_eq!(run(code).1, Err(VMError::InvalidOpCode(23)));
}

#[test]
fn jump_out_of_bounds() {
    let mut code = Vec::new();
    emit_addr(&mut code, OpCode::Jump, 9);
    assert_eq!(run(code).1, Err(VMError::OutOfBounds));
}

#[test]
fn call_out_of_bounds() {
    let mut code = Vec::new();
    emit_addr(&mut code, OpCode::Call, 1000);
    let (vm, r) = run(code);
    assert_eq!(r, Err(VMError::OutOfBounds));
    assert_eq!(vm.call_stack_depth(), 2);
}

#[test]
fn jump_if_false_out_of_bounds_only_when_taken() {
    let mut code = Vec::new();
    emit_push(&mut code, 0);
    emit_addr(&mut code, OpCode::JumpIfFalse, 500);
    emit(&mut code, OpCode::Halt);
    assert_eq!(run(code).1, Err(VMError::OutOfBounds));

    let mut code = Vec::new();
    emit_push(&mut code, 1);
    emit_addr(&mut code, OpCode::JumpIfFalse, 500);
    emit(&mut code, OpCode::Halt);
    let (vm, r) = run(code);
    assert_eq!(r, Ok(()));
    assert!(vm.get_stack().is_empty());
}

#[test]
fn running_off_the_end_is_out_of_bounds() {
    let code = BytecodeBuilder::new().push_solution(1).build();
    let (vm, r) = run(code);
    assert_eq!(r, Err(VMError::OutOfBounds));
    assert_eq!(vm.peek_stack(), Some(Value::Integer(1)));
    assert_eq!(run(Vec::new()).1, Err(VMError::OutOfBounds));
}

#[test]
fn truncated_operand_is_out_of_bounds() {
    let (vm, r) = run(vec![OpCode::Push.convert_to_u8(), 1, 2, 3]);
    assert_eq!(r, Err(VMError::OutOfBounds));
    assert_eq!(vm.current_ip(), 4);
    let (_, r) = run(vec![OpCode::StoreVar.convert_to_u8(), 5, b'a']);
    assert_eq!(r, Err(VMError::OutOfBounds));
}

#[test]
fn invalid_utf8_name() {
    let code = vec![OpCode::LoadVar.convert_to_u8(), 2, 0xC3, 0x28, OpCode::Halt.convert_to_u8()];
    let (vm, r) = run(code);
    assert_eq!(r, Err(VMError::InvalidString));
    assert_eq!(vm.current_ip(), 4);
}

#[test]
fn globals_store_and_load() {
    let mut code = Vec::new();
    emit_push(&mut code, 42);
    emit_name(&mut code, OpCode::StoreVar, "x");
    emit_name(&mut code, OpCode::LoadVar, "x");
    emit_push(&mut code, 8);
    emit(&mut code, OpCode::Add);
    emit_name(&mut code, OpCode::StoreVar, "x");
    emit(&mut code, OpCode::Halt);
    let (vm, r) = run(code);
    assert_eq!(r, Ok(()));
    assert_eq!(vm.get_variable("x"), Ok(Value::Integer(50)));
    assert_eq!(vm.get_variable("y"), Err(VMError::UndefinedVariable("y".to_string())));
}

#[test]
fn loading_an_unset_global_fails() {
    let mut code = Vec::new();
    emit_name(&mut code, OpCode::LoadVar, "missing");
    let (_, r) = run(code);
    assert_eq!(r, Err(VMError::UndefinedVariable("missing".to_string())));
}

#[test]
fn comparisons_and_mixed_kinds() {
    let mut code = Vec::new();
    emit_push(&mut code, 10);
    emit_push(&mut code, 5);
    emit(&mut code, OpCode::Gt);
    emit(&mut code, OpCode::Halt);
    let (vm, r) = run(code);
    assert_eq!(r, Ok(()));
    assert_eq!(vm.peek_stack(), Some(Value::Boolean(true)));

    let mut code = Vec::new();
    emit_push(&mut code, 1);
    emit_push(&mut code, 1);
    emit(&mut code, OpCode::Eq);
    emit_push(&mut code, 1);
    emit(&mut code, OpCode::Eq);
    emit(&mut code, OpCode::Halt);
    assert_eq!(run(code).1, Err(VMError::InvalidOperand));

    let mut code = Vec::new();
    emit_push(&mut code, 1);
    emit_push(&mut code, 1);
    emit(&mut code, OpCode::Eq);
    emit_push(&mut code, 0);
    emit(&mut code, OpCode::Div);
    assert_eq!(run(code).1, Err(VMError::InvalidOperand));
}

#[test]
fn call_then_return_resumes_after_the_call() {
    // 0: CALL 19   9: PUSH 7   18: HALT   19: PUSH 1   28: RETURN
    let mut code = Vec::new();
    emit_addr(&mut code, OpCode::Call, 19);
    emit_push(&mut code, 7);
    emit(&mut code, OpCode::Halt);
    emit_push(&mut code, 1);
    emit(&mut code, OpCode::Return);
    let (vm, r) = run(code);
    assert_eq!(r, Ok(()));
    assert_eq!(vm.get_stack(), &[Value::Integer(1), Value::Integer(7)]);
    assert_eq!(vm.call_stack_depth(), 1);
    assert_eq!(vm.current_ip(), 19);
}

#[test]
fn call_depth_counts_nesting() {
    // 0: CALL 10   9: HALT   10: CALL 20   19: RETURN   20: HALT
    let mut code = Vec::new();
    emit_addr(&mut code, OpCode::Call, 10);
    emit(&mut code, OpCode::Halt);
    emit_addr(&mut code, OpCode::Call, 20);
    emit(&mut code, OpCode::Return);
    emit(&mut code, OpCode::Halt);
    let (vm, r) = run(code);
    assert_eq!(r, Ok(()));
    assert_eq!(vm.call_stack_depth(), 3);
    assert_eq!(vm.current_ip(), 21);
}

#[test]
fn return_at_base_frame_halts() {
    let mut code = Vec::new();
    emit_push(&mut code, 4);
    emit(&mut code, OpCode::Return);
    emit(&mut code, OpCode::Add);
    let (vm, r) = run(code);
    assert_eq!(r, Ok(()));
    assert_eq!(vm.peek_stack(), Some(Value::Integer(4)));
    assert_eq!(vm.call_stack_depth(), 1);
}

#[test]
fn local_is_gone_after_return() {
    // 0: CALL 19   9: LOAD_LOCAL "v"   12: HALT ...   19: PUSH 5   28: STORE_LOCAL "v"
    // 31: LOAD_LOCAL "v"   34: RETURN
    let mut code = Vec::new();
    emit_addr(&mut code, OpCode::Call, 19);
    emit_name(&mut code, OpCode::LoadLocal, "v");
    while code.len() < 19 {
        emit(&mut code, OpCode::Halt);
    }
    emit_push(&mut code, 5);
    emit_name(&mut code, OpCode::StoreLocal, "v");
    emit_name(&mut code, OpCode::LoadLocal, "v");
    emit(&mut code, OpCode::Return);
    let (vm, r) = run(code);
    assert_eq!(r, Err(VMError::UndefinedVariable("v".to_string())));
    assert_eq!(vm.get_stack(), &[Value::Integer(5)]);
    assert_eq!(vm.call_stack_depth(), 1);
}

#[test]
fn self_jump_hits_the_step_ceiling() {
    let mut code = Vec::new();
    emit_addr(&mut code, OpCode::Jump, 0);
    let (vm, r) = run(code);
    assert_eq!(r, Err(VMError::InfiniteLoopDetected));
    assert_eq!(vm.current_ip(), 0);
}

#[test]
fn backward_jump_loop_hits_the_step_ceiling() {
    let mut code = Vec::new();
    emit_push(&mut code, 1);
    emit_name(&mut code, OpCode::StoreVar, "i");
    emit_addr(&mut code, OpCode::Jump, 0);
    assert_eq!(run(code).1, Err(VMError::InfiniteLoopDetected));
}

#[test]
fn step_ceiling_allows_ten_thousand_instructions() {
    // 9999 PRINTLN then HALT: exactly ten thousand instructions.
    let mut code = vec![OpCode::PrintLn.convert_to_u8(); 9999];
    emit(&mut code, OpCode::Halt);
    let (vm, r) = run(code);
    assert_eq!(r, Ok(()));
    assert_eq!(vm.output().len(), 9999);
    let mut code = vec![OpCode::PrintLn.convert_to_u8(); 10000];
    emit(&mut code, OpCode::Halt);
    assert_eq!(run(code).1, Err(VMError::InfiniteLoopDetected));
}

#[test]
fn print_instructions_write_output() {
    let mut code = Vec::new();
    emit_name(&mut code, OpCode::Print, "Hello, ");
    emit_name(&mut code, OpCode::Print, "World!");
    emit(&mut code, OpCode::PrintLn);
    emit_push(&mut code, -120);
    emit(&mut code, OpCode::PrintVal);
    emit_push(&mut code, 2);
    emit_push(&mut code, 1);
    emit(&mut code, OpCode::Lt);
    emit(&mut code, OpCode::PrintVal);
    emit(&mut code, OpCode::Halt);
    let (vm, r) = run(code);
    assert_eq!(r, Ok(()));
    assert_eq!(vm.output(), "Hello, World!\n-120false");
}

#[test]
fn countdown_loop_with_conditional_jump() {
    // n = 3; while n > 0 { PRINT_VAL n; n = n - 1 }
    let mut code = Vec::new();
    emit_push(&mut code, 3);
    emit_name(&mut code, OpCode::StoreVar, "n");
    let loop_start = code.len() as u64;
    emit_name(&mut code, OpCode::LoadVar, "n");
    emit_push(&mut code, 0);
    emit(&mut code, OpCode::Gt);
    let exit_patch = code.len() + 1;
    emit_addr(&mut code, OpCode::JumpIfFalse, 0);
    emit_name(&mut code, OpCode::LoadVar, "n");
    emit(&mut code, OpCode::PrintVal);
    emit_name(&mut code, OpCode::LoadVar, "n");
    emit_push(&mut code, 1);
    emit(&mut code, OpCode::Sub);
    emit_name(&mut code, OpCode::StoreVar, "n");
    emit_addr(&mut code, OpCode::Jump, loop_start);
    let exit = code.len() as u64;
    emit(&mut code, OpCode::Halt);
    code[exit_patch..exit_patch + 8].copy_from_slice(&exit.to_le_bytes());
    let (vm, r) = run(code);
    assert_eq!(r, Ok(()));
    assert_eq!(vm.output(), "321");
    assert_eq!(vm.get_variable("n"), Ok(Value::Integer(0)));
}

#[test]
fn loading_resets_the_machine() {
    let mut vm = VM::new();
    let mut code = Vec::new();
    emit_push(&mut code, 1);
    emit_name(&mut code, OpCode::StoreVar, "x");
    emit_addr(&mut code, OpCode::Call, 0);
    vm.load_bytecode_solution(code);
    assert_eq!(vm.run_solution(), Err(VMError::InfiniteLoopDetected));
    assert!(vm.call_stack_depth() > 1);
    vm.load_bytecode_solution(vec![OpCode::Halt.convert_to_u8()]);
    assert_eq!(vm.call_stack_depth(), 1);
    assert_eq!(vm.current_ip(), 0);
    assert!(vm.get_stack().is_empty());
    assert_eq!(vm.get_variable("x"), Err(VMError::UndefinedVariable("x".to_string())));
    assert_eq!(vm.run_solution(), Ok(()));
}

#[test]
fn stack_trace_lists_frames_innermost_first() {
    let mut code = Vec::new();
    emit_addr(&mut code, OpCode::Call, 9);
    emit(&mut code, OpCode::Add);
    let (vm, r) = run(code);
    assert_eq!(r, Err(VMError::StackUnderflow));
    assert_eq!(
        vm.stack_trace(),
        "\n=== Call Stack Trace ===\n  #1 at IP 9\n  #0 at IP 0\n  Current IP: 10\n"
    );
}
