use vstd::prelude::*;
use vstd::string::*;
use crate::text::{hex2, decimal, write_hex2, write_decimal};

verus! {

/// The ways in which running or decoding a program fails.
#[derive(Debug, Clone)]
pub enum VMError {
    /// A value was popped from an empty operand stack.
    StackUnderflow,
    /// An integer was divided by zero.
    DivisionByZero,
    /// A byte at an opcode position tags no opcode; carries the byte.
    InvalidOpCode(u8),
    /// An operator was applied to values of kinds it does not accept.
    InvalidOperand,
    /// The instruction pointer, or a jump or call target, left the program.
    OutOfBounds,
    /// A variable was loaded before any value was stored under its name.
    UndefinedVariable(String),
    /// A name operand is not valid UTF-8.
    InvalidString,
    /// A run exceeded the ceiling on executed instructions.
    InfiniteLoopDetected,
}

/// The abstract value of a `VMError`: the variable name as characters.
pub enum Fault {
    StackUnderflow,
    DivisionByZero,
    InvalidOpCode(u8),
    InvalidOperand,
    OutOfBounds,
    UndefinedVariable(Seq<char>),
    InvalidString,
    InfiniteLoopDetected,
}

impl View for VMError {
    type V = Fault;

    open spec fn view(&self) -> Fault {
        match self {
            VMError::StackUnderflow => Fault::StackUnderflow,
            VMError::DivisionByZero => Fault::DivisionByZero,
            VMError::InvalidOpCode(b) => Fault::InvalidOpCode(*b),
            VMError::InvalidOperand => Fault::InvalidOperand,
            VMError::OutOfBounds => Fault::OutOfBounds,
            VMError::UndefinedVariable(name) => Fault::UndefinedVariable(name@),
            VMError::InvalidString => Fault::InvalidString,
            VMError::InfiniteLoopDetected => Fault::InfiniteLoopDetected,
        }
    }
}

/// The abstract value of a result whose error is a `VMError`.
pub open spec fn result_view<T>(r: Result<T, VMError>) -> Result<T, Fault> {
    match r {
        Ok(v) => Ok(v),
        Err(e) => Err(e@),
    }
}

/// The message that describes each error.
pub open spec fn fault_text(f: Fault) -> Seq<char> {
    match f {
        Fault::StackUnderflow => "Stack underflow: tried to pop from empty stack"@,
        Fault::DivisionByZero => "Division by zero"@,
        Fault::InvalidOpCode(b) => "Invalid opcode: 0x"@ + hex2(b) + " ("@ + decimal(b as nat)
            + ")"@,
        Fault::InvalidOperand => "Invalid operand type for operation"@,
        Fault::OutOfBounds => "Instruction pointer out of bounds"@,
        Fault::UndefinedVariable(name) => "Undefined variable: "@ + name,
        Fault::InvalidString => "Invalid UTF-8 string operand"@,
        Fault::InfiniteLoopDetected => "Infinite loop detected: instruction limit exceeded"@,
    }
}

impl PartialEq for VMError {
    fn eq(&self, other: &VMError) -> (r: bool) {
        match (self, other) {
            (VMError::StackUnderflow, VMError::StackUnderflow) => true,
            (VMError::DivisionByZero, VMError::DivisionByZero) => true,
            (VMError::InvalidOpCode(a), VMError::InvalidOpCode(b)) => *a == *b,
            (VMError::InvalidOperand, VMError::InvalidOperand) => true,
            (VMError::OutOfBounds, VMError::OutOfBounds) => true,
            (VMError::UndefinedVariable(a), VMError::UndefinedVariable(b)) => *a == *b,
            (VMError::InvalidString, VMError::InvalidString) => true,
            (VMError::InfiniteLoopDetected, VMError::InfiniteLoopDetected) => true,
            _ => false,
        }
    }
}

impl vstd::std_specs::cmp::PartialEqSpecImpl for VMError {
    open spec fn obeys_eq_spec() -> bool {
        true
    }

    open spec fn eq_spec(&self, other: &VMError) -> bool {
        self@ == other@
    }
}

impl VMError {
    /// The message that describes the error.
    pub fn display_solution(&self) -> (r: String)
        ensures
            r@ == fault_text(self@),
    {
        match self {
            VMError::StackUnderflow => String::from_str(
                "Stack underflow: tried to pop from empty stack",
            ),
            VMError::DivisionByZero => String::from_str("Division by zero"),
            VMError::InvalidOpCode(b) => {
                let mut s = String::from_str("Invalid opcode: 0x");
                write_hex2(&mut s, *b);
                s.append(" (");
                write_decimal(&mut s, *b as u64);
                s.append(")");
                s
            },
            VMError::InvalidOperand => String::from_str("Invalid operand type for operation"),
            VMError::OutOfBounds => String::from_str("Instruction pointer out of bounds"),
            VMError::UndefinedVariable(name) => {
                let mut s = String::from_str("Undefined variable: ");
                s.append(name.as_str());
                s
            },
            VMError::InvalidString => String::from_str("Invalid UTF-8 string operand"),
            VMError::InfiniteLoopDetected => String::from_str(
                "Infinite loop detected: instruction limit exceeded",
            ),
        }
    }
}

} // verus!
