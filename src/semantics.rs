use vstd::prelude::*;
use crate::value::{Value, truthy, spec_add, spec_sub, spec_mul, spec_div, spec_gt, spec_lt, spec_gte, spec_lte, spec_eq, spec_neq};
use crate::opcode::OpCode;
use crate::callframe::FrameView;
use crate::decode::{InstructionView, OperandView, fetch};
use crate::error::Fault;
use crate::text::{decimal, signed_decimal};

verus! {

/// The most instructions that one run executes.
pub const MAX_STEPS: u64 = 10000;

/// The abstract state of a virtual machine.
pub struct VmState {
    /// The operand stack, top last.
    pub stack: Seq<Value>,
    /// The call stack, innermost frame last; the base frame first.
    pub frames: Seq<FrameView>,
    /// The program.
    pub code: Seq<u8>,
    /// The instruction pointer: the offset of the next opcode.
    pub ip: int,
    /// Whether the run goes on.
    pub running: bool,
    /// The global variables.
    pub globals: Map<Seq<char>, Value>,
    /// What the program has printed so far.
    pub output: Seq<char>,
}

/// The invariant of every reachable state: the base frame is there, and the
/// instruction pointer and every return address lie within the program.
pub open spec fn state_wf(s: VmState) -> bool {
    &&& s.frames.len() >= 1
    &&& 0 <= s.ip <= s.code.len() <= usize::MAX
    &&& forall|i: int| 0 <= i < s.frames.len() ==> #[trigger] s.frames[i].return_address <= s.code.len()
}

/// The text that `PRINT_VAL` writes for a value.
pub open spec fn value_text(v: Value) -> Seq<char> {
    match v {
        Value::Integer(n) => signed_decimal(n as int),
        Value::Boolean(b) => if b {
            "true"@
        } else {
            "false"@
        },
    }
}

/// The name in an operand (empty for other operands).
pub open spec fn name_of(o: OperandView) -> Seq<char> {
    match o {
        OperandView::Name(s) => s,
        _ => Seq::empty(),
    }
}

/// The address in an operand (zero for other operands).
pub open spec fn address_of(o: OperandView) -> u64 {
    match o {
        OperandView::Address(a) => a,
        _ => 0,
    }
}

/// The literal in an operand (zero for other operands).
pub open spec fn literal_of(o: OperandView) -> i64 {
    match o {
        OperandView::Literal(v) => v,
        _ => 0,
    }
}

/// Whether an opcode pops two operands and pushes one result.
pub open spec fn is_binary(op: OpCode) -> bool {
    match op {
        OpCode::Add | OpCode::Sub | OpCode::Mul | OpCode::Div | OpCode::Gt | OpCode::Lt
        | OpCode::Gte | OpCode::Lte | OpCode::Eq | OpCode::Neq => true,
        _ => false,
    }
}

/// What a binary opcode computes from its left and right operand.
pub open spec fn binary_result(op: OpCode, a: Value, b: Value) -> Result<Value, Fault> {
    let r = match op {
        OpCode::Add => spec_add(a, b),
        OpCode::Sub => spec_sub(a, b),
        OpCode::Mul => spec_mul(a, b),
        OpCode::Div => spec_div(a, b),
        OpCode::Gt => spec_gt(a, b),
        OpCode::Lt => spec_lt(a, b),
        OpCode::Gte => spec_gte(a, b),
        OpCode::Lte => spec_lte(a, b),
        OpCode::Eq => spec_eq(a, b),
        _ => spec_neq(a, b),
    };
    match r {
        Some(v) => Ok(v),
        None => if op == OpCode::Div && a is Integer && b is Integer {
            Err(Fault::DivisionByZero)
        } else {
            Err(Fault::InvalidOperand)
        },
    }
}

/// Pops the right operand, then the left one, and pushes what the binary
/// opcode computes from them.
pub open spec fn binary_step(s: VmState, op: OpCode) -> (VmState, Result<(), Fault>) {
    let top = s.stack.len() - 1;
    if s.stack.len() == 0 {
        (s, Err(Fault::StackUnderflow))
    } else if s.stack.len() == 1 {
        (VmState { stack: s.stack.drop_last(), ..s }, Err(Fault::StackUnderflow))
    } else {
        let rest = s.stack.drop_last().drop_last();
        match binary_result(op, s.stack[top - 1], s.stack[top]) {
            Ok(v) => (VmState { stack: rest.push(v), ..s }, Ok(())),
            Err(e) => (VmState { stack: rest, ..s }, Err(e)),
        }
    }
}

/// The state of a machine into which `code` has just been loaded.
pub open spec fn loaded_state(code: Seq<u8>) -> VmState {
    VmState {
        stack: Seq::empty(),
        frames: seq![FrameView { return_address: 0, locals: Map::empty() }],
        code,
        ip: 0,
        running: false,
        globals: Map::empty(),
        output: Seq::empty(),
    }
}

/// Executes a decoded instruction whose operand has been read (so `s.ip`
/// is already past it). On a fault, the effects applied before it stay.
pub open spec fn execute(s: VmState, i: InstructionView) -> (VmState, Result<(), Fault>) {
    let op = i.opcode;
    let top = s.stack.len() - 1;
    if is_binary(op) {
        binary_step(s, op)
    } else {
        match op {
            OpCode::Push => (
                VmState { stack: s.stack.push(Value::Integer(literal_of(i.operand))), ..s },
                Ok(()),
            ),
            OpCode::StoreVar => if s.stack.len() == 0 {
                (s, Err(Fault::StackUnderflow))
            } else {
                (
                    VmState {
                        stack: s.stack.drop_last(),
                        globals: s.globals.insert(name_of(i.operand), s.stack[top]),
                        ..s
                    },
                    Ok(()),
                )
            },
            OpCode::LoadVar => if s.globals.contains_key(name_of(i.operand)) {
                (
                    VmState { stack: s.stack.push(s.globals[name_of(i.operand)]), ..s },
                    Ok(()),
                )
            } else {
                (s, Err(Fault::UndefinedVariable(name_of(i.operand))))
            },
            OpCode::StoreLocal => if s.stack.len() == 0 {
                (s, Err(Fault::StackUnderflow))
            } else if s.frames.len() == 0 {
                (VmState { stack: s.stack.drop_last(), ..s }, Err(Fault::StackUnderflow))
            } else {
                let f = s.frames.last();
                (
                    VmState {
                        stack: s.stack.drop_last(),
                        frames: s.frames.drop_last().push(
                            FrameView {
                                locals: f.locals.insert(name_of(i.operand), s.stack[top]),
                                ..f
                            },
                        ),
                        ..s
                    },
                    Ok(()),
                )
            },
            OpCode::LoadLocal => if s.frames.len() == 0 {
                (s, Err(Fault::StackUnderflow))
            } else if s.frames.last().locals.contains_key(name_of(i.operand)) {
                (
                    VmState {
                        stack: s.stack.push(s.frames.last().locals[name_of(i.operand)]),
                        ..s
                    },
                    Ok(()),
                )
            } else {
                (s, Err(Fault::UndefinedVariable(name_of(i.operand))))
            },
            OpCode::Jump => if address_of(i.operand) >= s.code.len() {
                (s, Err(Fault::OutOfBounds))
            } else {
                (VmState { ip: address_of(i.operand) as int, ..s }, Ok(()))
            },
            OpCode::JumpIfFalse => if s.stack.len() == 0 {
                (s, Err(Fault::StackUnderflow))
            } else {
                let popped = VmState { stack: s.stack.drop_last(), ..s };
                if truthy(s.stack[top]) {
                    (popped, Ok(()))
                } else if address_of(i.operand) >= s.code.len() {
                    (popped, Err(Fault::OutOfBounds))
                } else {
                    (VmState { ip: address_of(i.operand) as int, ..popped }, Ok(()))
                }
            },
            OpCode::Call => {
                let called = VmState {
                    frames: s.frames.push(
                        FrameView { return_address: s.ip as usize, locals: Map::empty() },
                    ),
                    ..s
                };
                if address_of(i.operand) >= s.code.len() {
                    (called, Err(Fault::OutOfBounds))
                } else {
                    (VmState { ip: address_of(i.operand) as int, ..called }, Ok(()))
                }
            },
            OpCode::Return => if s.frames.len() <= 1 {
                (VmState { running: false, ..s }, Ok(()))
            } else {
                (
                    VmState {
                        frames: s.frames.drop_last(),
                        ip: s.frames.last().return_address as int,
                        ..s
                    },
                    Ok(()),
                )
            },
            OpCode::Print => (VmState { output: s.output + name_of(i.operand), ..s }, Ok(())),
            OpCode::PrintVal => if s.stack.len() == 0 {
                (s, Err(Fault::StackUnderflow))
            } else {
                (
                    VmState {
                        stack: s.stack.drop_last(),
                        output: s.output + value_text(s.stack[top]),
                        ..s
                    },
                    Ok(()),
                )
            },
            OpCode::PrintLn => (VmState { output: s.output + "\n"@, ..s }, Ok(())),
            _ => (VmState { running: false, ..s }, Ok(())),
        }
    }
}

/// One fetch-decode-execute cycle.
pub open spec fn step(s: VmState) -> (VmState, Result<(), Fault>) {
    let (f, next) = fetch(s.code, s.ip);
    let advanced = VmState { ip: next, ..s };
    match f {
        Err(e) => (advanced, Err(e)),
        Ok(i) => execute(advanced, i),
    }
}

/// Steps while the machine runs, at most `fuel` times: the state where it
/// stops, and how. A fault ends the run at once; running out of fuel while
/// the machine still runs is `InfiniteLoopDetected`.
pub open spec fn run_from(s: VmState, fuel: nat) -> (VmState, Result<(), Fault>)
    decreases fuel,
{
    if !s.running {
        (s, Ok(()))
    } else if fuel == 0 {
        (s, Err(Fault::InfiniteLoopDetected))
    } else {
        let (next, r) = step(s);
        if r is Err {
            (next, r)
        } else {
            run_from(next, (fuel - 1) as nat)
        }
    }
}

/// What a whole run from a state does: it starts running and stops within
/// `MAX_STEPS` instructions.
pub open spec fn run(s: VmState) -> (VmState, Result<(), Fault>) {
    run_from(VmState { running: true, ..s }, MAX_STEPS as nat)
}

/// The lines of the call-stack trace for the frames below `n`, innermost
/// first: each frame's index and return address.
pub open spec fn trace_lines(frames: Seq<FrameView>, n: int) -> Seq<char>
    decreases n,
{
    if n <= 0 {
        Seq::empty()
    } else {
        "  #"@ + decimal((n - 1) as nat) + " at IP "@ + decimal(
            frames[n - 1].return_address as nat,
        ) + "\n"@ + trace_lines(frames, n - 1)
    }
}

/// The diagnostic trace of a state: every frame, innermost first, and the
/// instruction pointer.
pub open spec fn trace_text(s: VmState) -> Seq<char> {
    "\n=== Call Stack Trace ===\n"@ + trace_lines(s.frames, s.frames.len() as int)
        + "  Current IP: "@ + decimal(s.ip as nat) + "\n"@
}

/// Every step keeps a well-formed state well-formed.
pub proof fn lemma_step_wf(s: VmState)
    requires
        state_wf(s),
    ensures
        state_wf(step(s).0),
{
    let (f, next) = fetch(s.code, s.ip);
    let advanced = VmState { ip: next, ..s };
    assert(state_wf(advanced));
    match f {
        Err(e) => {},
        Ok(i) => {
            let r = execute(advanced, i).0;
            if i.opcode == OpCode::StoreLocal && s.stack.len() > 0 {
                assert forall|k: int| 0 <= k < r.frames.len() implies #[trigger] r.frames[k].return_address
                    <= r.code.len() by {
                    if k < s.frames.len() - 1 {
                        assert(r.frames[k] == s.frames[k]);
                    }
                }
            } else if i.opcode == OpCode::Call {
                assert forall|k: int| 0 <= k < r.frames.len() implies #[trigger] r.frames[k].return_address
                    <= r.code.len() by {
                    if k < s.frames.len() {
                        assert(r.frames[k] == s.frames[k]);
                    }
                }
            } else if i.opcode == OpCode::Return && s.frames.len() > 1 {
                assert(s.frames[s.frames.len() - 1].return_address <= s.code.len());
                assert forall|k: int| 0 <= k < r.frames.len() implies #[trigger] r.frames[k].return_address
                    <= r.code.len() by {
                    assert(r.frames[k] == s.frames[k]);
                }
            }
        },
    }
}

} // verus!
