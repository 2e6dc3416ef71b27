use vstd::prelude::*;
use vstd::string::*;
use crate::value::Value;
use crate::opcode::OpCode;
use crate::callframe::CallFrame;
use crate::memory::Memory;
use crate::error::{VMError, Fault, result_view};
use crate::decode::{Instruction, Operand, decode_instruction};
use crate::semantics::{
    VmState, MAX_STEPS, state_wf, loaded_state, binary_step, execute, step, run, run_from,
    value_text, trace_lines, trace_text,
};
use crate::text::{write_decimal, write_signed};

verus! {

/// A stack-based virtual machine: operand stack, call stack, global
/// variables, the loaded program and its instruction pointer.
pub struct VM {
    stack: Vec<Value>,
    call_stack: Vec<CallFrame>,
    bytecode: Vec<u8>,
    ip: usize,
    running: bool,
    memory: Memory,
    output: String,
}

impl View for VM {
    type V = VmState;

    closed spec fn view(&self) -> VmState {
        VmState {
            stack: self.stack@,
            frames: self.call_stack@.map_values(|f: CallFrame| f@),
            code: self.bytecode@,
            ip: self.ip as int,
            running: self.running,
            globals: self.memory@,
            output: self.output@,
        }
    }
}

/// Appends the text of a value: an integer in decimal, a boolean as
/// `true` or `false`.
fn write_value(out: &mut String, v: Value)
    ensures
        final(out)@ == old(out)@ + value_text(v),
{
    match v {
        Value::Integer(n) => write_signed(out, n),
        Value::Boolean(b) => {
            if b {
                out.append("true");
            } else {
                out.append("false");
            }
        },
    }
}

impl VM {
    pub closed spec fn wf(&self) -> bool {
        &&& state_wf(self@)
        &&& self.memory.wf()
        &&& forall|i: int| 0 <= i < self.call_stack@.len() ==> #[trigger] self.call_stack@[i].wf()
    }

    /// A machine with no program loaded.
    pub fn new() -> (r: VM)
        ensures
            r.wf(),
            r@ == loaded_state(Seq::empty()),
    {
        let r = VM {
            stack: Vec::new(),
            call_stack: vec![CallFrame::new_solution(0)],
            bytecode: Vec::new(),
            ip: 0,
            running: false,
            memory: Memory::new_solution(),
            output: String::new(),
        };
        assert(r@.frames =~= loaded_state(Seq::empty()).frames);
        r
    }

    /// Loads a program and resets everything else: empty operand stack, the
    /// base frame alone, no globals, no output, instruction pointer at 0.
    pub fn load_bytecode_solution(&mut self, code: Vec<u8>)
        ensures
            final(self).wf(),
            final(self)@ == loaded_state(code@),
    {
        let _ = code.len();
        self.stack = Vec::new();
        self.call_stack = vec![CallFrame::new_solution(0)];
        self.bytecode = code;
        self.ip = 0;
        self.running = false;
        self.memory = Memory::new_solution();
        self.output = String::new();
        assert(self@.frames =~= loaded_state(code@).frames);
    }

    /// Pops the operand stack; `StackUnderflow` when it is empty.
    fn pop(&mut self) -> (r: Result<Value, VMError>)
        requires
            old(self).wf(),
        ensures
            final(self).wf(),
            old(self)@.stack.len() == 0 ==> final(self)@ == old(self)@ && result_view(r) == Err::<
                Value,
                Fault,
            >(Fault::StackUnderflow),
            old(self)@.stack.len() > 0 ==> final(self)@ == (VmState {
                stack: old(self)@.stack.drop_last(),
                ..old(self)@
            }) && r == Ok::<Value, VMError>(old(self)@.stack.last()),
    {
        match self.stack.pop() {
            Some(v) => Ok(v),
            None => Err(VMError::StackUnderflow),
        }
    }

    /// Executes a binary opcode.
    fn binary(&mut self, op: OpCode) -> (r: Result<(), VMError>)
        requires
            old(self).wf(),
        ensures
            final(self).wf(),
            (final(self)@, result_view(r)) == binary_step(old(self)@, op),
    {
        let b = match self.pop() {
            Ok(v) => v,
            Err(e) => return Err(e),
        };
        let a = match self.pop() {
            Ok(v) => v,
            Err(e) => return Err(e),
        };
        let result = match op {
            OpCode::Add => a.add_solution(b),
            OpCode::Sub => a.sub_solution(b),
            OpCode::Mul => a.mul_solution(b),
            OpCode::Div => a.div_solution(b),
            OpCode::Gt => a.gt_solution(b),
            OpCode::Lt => a.lt_solution(b),
            OpCode::Gte => a.gte_solution(b),
            OpCode::Lte => a.lte_solution(b),
            OpCode::Eq => a.eq_solution(b),
            _ => a.neq_solution(b),
        };
        match result {
            Some(v) => {
                self.stack.push(v);
                Ok(())
            },
            None => {
                let both_integers = match (a, b) {
                    (Value::Integer(_), Value::Integer(_)) => true,
                    _ => false,
                };
                if op == OpCode::Div && both_integers {
                    Err(VMError::DivisionByZero)
                } else {
                    Err(VMError::InvalidOperand)
                }
            },
        }
    }

    /// Executes a decoded instruction whose operand has been read.
    fn execute(&mut self, instruction: Instruction) -> (r: Result<(), VMError>)
        requires
            old(self).wf(),
        ensures
            final(self).wf(),
            (final(self)@, result_view(r)) == execute(old(self)@, instruction@),
    {
        let op = instruction.opcode;
        let ghost operand = instruction@.operand;
        let (name, address, literal) = match instruction.operand {
            Operand::Name(s) => (s, 0u64, 0i64),
            Operand::Address(a) => (String::new(), a, 0i64),
            Operand::Literal(v) => (String::new(), 0u64, v),
            Operand::NoOperand => (String::new(), 0u64, 0i64),
        };
        assert(name@ == crate::semantics::name_of(operand));
        assert(address == crate::semantics::address_of(operand));
        assert(literal == crate::semantics::literal_of(operand));
        let code_len = self.bytecode.len() as u64;
        match op {
            OpCode::Add | OpCode::Sub | OpCode::Mul | OpCode::Div | OpCode::Gt | OpCode::Lt
            | OpCode::Gte | OpCode::Lte | OpCode::Eq | OpCode::Neq => self.binary(op),
            OpCode::Push => {
                self.stack.push(Value::Integer(literal));
                Ok(())
            },
            OpCode::StoreVar => {
                let value = match self.pop() {
                    Ok(v) => v,
                    Err(e) => return Err(e),
                };
                self.memory.store_solution(name, value);
                Ok(())
            },
            OpCode::LoadVar => {
                match self.memory.load_solution(name.as_str()) {
                    Ok(v) => {
                        self.stack.push(v);
                        Ok(())
                    },
                    Err(e) => Err(e),
                }
            },
            OpCode::StoreLocal => {
                let value = match self.pop() {
                    Ok(v) => v,
                    Err(e) => return Err(e),
                };
                let ghost before = self.call_stack@;
                match self.call_stack.pop() {
                    Some(frame) => {
                        let mut frame = frame;
                        assert(frame == before[before.len() - 1]);
                        frame.store_local_solution(name, value);
                        self.call_stack.push(frame);
                        assert(self@.frames =~= old(self)@.frames.drop_last().push(frame@));
                        Ok(())
                    },
                    None => Err(VMError::StackUnderflow),
                }
            },
            OpCode::LoadLocal => {
                let depth = self.call_stack.len();
                if depth == 0 {
                    return Err(VMError::StackUnderflow);
                }
                match self.call_stack[depth - 1].load_local_solution(name.as_str()) {
                    Some(v) => {
                        self.stack.push(v);
                        Ok(())
                    },
                    None => Err(VMError::UndefinedVariable(name)),
                }
            },
            OpCode::Jump => {
                if address >= code_len {
                    Err(VMError::OutOfBounds)
                } else {
                    self.ip = address as usize;
                    Ok(())
                }
            },
            OpCode::JumpIfFalse => {
                let condition = match self.pop() {
                    Ok(v) => v,
                    Err(e) => return Err(e),
                };
                if !condition.is_truthy_solution() {
                    if address >= code_len {
                        return Err(VMError::OutOfBounds);
                    }
                    self.ip = address as usize;
                }
                Ok(())
            },
            OpCode::Call => {
                let frame = CallFrame::new_solution(self.ip);
                self.call_stack.push(frame);
                assert(self@.frames =~= old(self)@.frames.push(frame@));
                if address >= code_len {
                    return Err(VMError::OutOfBounds);
                }
                self.ip = address as usize;
                Ok(())
            },
            OpCode::Return => {
                if self.call_stack.len() <= 1 {
                    self.running = false;
                    return Ok(());
                }
                let ghost before = self.call_stack@;
                match self.call_stack.pop() {
                    Some(frame) => {
                        assert(frame == before[before.len() - 1]);
                        assert(self@.frames =~= old(self)@.frames.drop_last());
                        self.ip = frame.return_address();
                        Ok(())
                    },
                    None => Err(VMError::StackUnderflow),
                }
            },
            OpCode::Print => {
                self.output.append(name.as_str());
                Ok(())
            },
            OpCode::PrintVal => {
                let value = match self.pop() {
                    Ok(v) => v,
                    Err(e) => return Err(e),
                };
                write_value(&mut self.output, value);
                Ok(())
            },
            OpCode::PrintLn => {
                self.output.append("\n");
                Ok(())
            },
            OpCode::Halt => {
                self.running = false;
                Ok(())
            },
        }
    }

    /// One fetch-decode-execute cycle.
    fn execute_instruction(&mut self) -> (r: Result<(), VMError>)
        requires
            old(self).wf(),
        ensures
            final(self).wf(),
            (final(self)@, result_view(r)) == step(old(self)@),
    {
        let (decoded, next) = decode_instruction(&self.bytecode, self.ip);
        self.ip = next;
        match decoded {
            Ok(instruction) => self.execute(instruction),
            Err(e) => Err(e),
        }
    }

    /// Runs the loaded program from the instruction pointer until it halts,
    /// faults, or has executed `MAX_STEPS` instructions and would go on
    /// (`InfiniteLoopDetected`). A fault leaves the machine where it
    /// stopped, with the effects applied before it.
    pub fn run_solution(&mut self) -> (r: Result<(), VMError>)
        requires
            old(self).wf(),
        ensures
            final(self).wf(),
            (final(self)@, result_view(r)) == run(old(self)@),
    {
        self.running = true;
        let ghost start = self@;
        let mut count: u64 = 0;
        while self.running
            invariant
                self.wf(),
                count <= MAX_STEPS,
                run_from(self@, (MAX_STEPS - count) as nat) == run_from(start, MAX_STEPS as nat),
                start == (VmState { running: true, ..old(self)@ }),
            decreases MAX_STEPS - count,
        {
            count = count + 1;
            if count > MAX_STEPS {
                return Err(VMError::InfiniteLoopDetected);
            }
            match self.execute_instruction() {
                Ok(()) => {},
                Err(e) => return Err(e),
            }
        }
        Ok(())
    }

    /// The value on top of the operand stack, if any.
    pub fn peek_stack(&self) -> (r: Option<Value>)
        ensures
            r == (if self@.stack.len() == 0 {
                None
            } else {
                Some(self@.stack.last())
            }),
    {
        let n = self.stack.len();
        if n == 0 {
            None
        } else {
            Some(self.stack[n - 1])
        }
    }

    /// The operand stack, bottom first.
    pub fn get_stack(&self) -> (r: &[Value])
        ensures
            r@ == self@.stack,
    {
        self.stack.as_slice()
    }

    /// The global variable `name`; `UndefinedVariable(name)` if it is unset.
    pub fn get_variable(&self, name: &str) -> (r: Result<Value, VMError>)
        requires
            self.wf(),
        ensures
            result_view(r) == (if self@.globals.contains_key(name@) {
                Ok(self@.globals[name@])
            } else {
                Err(Fault::UndefinedVariable(name@))
            }),
    {
        self.memory.load_solution(name)
    }

    /// The instruction pointer.
    pub fn current_ip(&self) -> (r: usize)
        ensures
            r == self@.ip,
    {
        self.ip
    }

    /// The number of frames on the call stack, the base frame included.
    pub fn call_stack_depth(&self) -> (r: usize)
        ensures
            r == self@.frames.len(),
    {
        self.call_stack.len()
    }

    /// What the program has printed so far.
    pub fn output(&self) -> (r: &str)
        ensures
            r@ == self@.output,
    {
        self.output.as_str()
    }

    /// The diagnostic trace of the machine's state: each frame's index and
    /// return address, innermost first, then the instruction pointer.
    pub fn stack_trace(&self) -> (r: String)
        ensures
            r@ == trace_text(self@),
    {
        let frames = self.call_stack.len();
        let mut s = String::from_str("\n=== Call Stack Trace ===\n");
        let mut i: usize = frames;
        while i > 0
            invariant
                i <= frames,
                frames == self@.frames.len(),
                s@ + trace_lines(self@.frames, i as int) == "\n=== Call Stack Trace ===\n"@
                    + trace_lines(self@.frames, frames as int),
            decreases i,
        {
            let ghost before = s@;
            s.append("  #");
            write_decimal(&mut s, (i - 1) as u64);
            s.append(" at IP ");
            write_decimal(&mut s, self.call_stack[i - 1].return_address() as u64);
            s.append("\n");
            assert(s@ + trace_lines(self@.frames, i - 1) =~= before + trace_lines(
                self@.frames,
                i as int,
            ));
            i = i - 1;
        }
        s.append("  Current IP: ");
        write_decimal(&mut s, self.ip as u64);
        s.append("\n");
        assert(s@ =~= trace_text(self@));
        s
    }
}

} // verus!
