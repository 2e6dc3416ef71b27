use stack_vm::error::VMError;

#[test]
fn test_error_display() {
    let err1 = VMError::StackUnderflow;
    let display = err1.display_solution();
    assert!(display.contains("Stack underflow"));

    let err2 = VMError::InvalidOpCode(42);
    let display = err2.display_solution();
    assert!(display.contains("42"));

    let err3 = VMError::DivisionByZero;
    let display = err3.display_solution();
    assert!(display.contains("zero"));
}

#[test]
fn test_error_equality() {
    assert_eq!(VMError::StackUnderflow, VMError::StackUnderflow);
    assert_ne!(VMError::StackUnderflow, VMError::DivisionByZero);

    assert_eq!(VMError::InvalidOpCode(5), VMError::InvalidOpCode(5));
    assert_ne!(VMError::InvalidOpCode(5), VMError::InvalidOpCode(6));
}

#[test]
fn test_error_debug() {
    let err = VMError::OutOfBounds;
    let debug = format!("{:?}", err);
    assert_eq!(debug, "OutOfBounds");
}

#[test]
fn invalid_opcode_message_shows_hex_and_decimal() {
    assert_eq!(VMError::InvalidOpCode(255).display_solution(), "Invalid opcode: 0xFF (255)");
    assert_eq!(VMError::InvalidOpCode(10).display_solution(), "Invalid opcode: 0x0A (10)");
}

#[test]
fn every_error_has_its_message() {
    assert_eq!(
        VMError::StackUnderflow.display_solution(),
        "Stack underflow: tried to pop from empty stack"
    );
    assert_eq!(VMError::DivisionByZero.display_solution(), "Division by zero");
    assert_eq!(VMError::InvalidOperand.display_solution(), "Invalid operand type for operation");
    assert_eq!(VMError::OutOfBounds.display_solution(), "Instruction pointer out of bounds");
    assert_eq!(
        VMError::UndefinedVariable("count".to_string()).display_solution(),
        "Undefined variable: count"
    );
    assert_eq!(VMError::InvalidString.display_solution(), "Invalid UTF-8 string operand");
    assert_eq!(
        VMError::InfiniteLoopDetected.display_solution(),
        "Infinite loop detected: instruction limit exceeded"
    );
}

#[test]
fn undefined_variable_errors_compare_by_name() {
    assert_eq!(
        VMError::UndefinedVariable("x".to_string()),
        VMError::UndefinedVariable("x".to_string())
    );
    assert_ne!(
        VMError::UndefinedVariable("x".to_string()),
        VMError::UndefinedVariable("y".to_string())
    );
    assert_ne!(VMError::UndefinedVariable("x".to_string()), VMError::InvalidString);
}
