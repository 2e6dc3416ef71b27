use vstd::prelude::*;
use crate::value::{Value, truthy, trunc_div, lemma_div_truncates};
use crate::opcode::{OpCode, opcode_of};
use crate::decode::{InstructionView, OperandView, fetch};
use crate::error::Fault;
use crate::builder::{encode_instruction, encode_program, lemma_fetch_encoded};
use crate::semantics::{
    VmState, MAX_STEPS, state_wf, loaded_state, is_binary, binary_result, step, run, run_from,
    address_of,
};

verus! {

/// `PUSH v`.
pub open spec fn push_of(v: i64) -> InstructionView {
    InstructionView { opcode: OpCode::Push, operand: OperandView::Literal(v) }
}

/// An instruction without an operand.
pub open spec fn plain(op: OpCode) -> InstructionView {
    InstructionView { opcode: op, operand: OperandView::NoOperand }
}

/// `PUSH a, PUSH b, op, HALT`.
pub open spec fn binary_program(a: i64, b: i64, op: OpCode) -> Seq<u8> {
    encode_program(seq![push_of(a), push_of(b), plain(op), plain(OpCode::Halt)])
}

/// Runs the first three instructions of `binary_program`: after the two
/// pushes, the binary opcode executes on `a` and `b`.
proof fn lemma_binary_program_steps(a: i64, b: i64, op: OpCode)
    requires
        is_binary(op),
    ensures
        ({
            let code = binary_program(a, b, op);
            let s0 = VmState { running: true, ..loaded_state(code) };
            let s2 = VmState {
                stack: seq![Value::Integer(a), Value::Integer(b)],
                ip: 18,
                ..s0
            };
            &&& code.len() == 20
            &&& run(loaded_state(code)) == run_from(s2, (MAX_STEPS - 2) as nat)
            &&& fetch(code, 18) == (
                Ok::<InstructionView, Fault>(plain(op)),
                19int,
            )
            &&& fetch(code, 19) == (
                Ok::<InstructionView, Fault>(plain(OpCode::Halt)),
                20int,
            )
        }),
{
    let e0 = encode_instruction(push_of(a));
    let e1 = encode_instruction(push_of(b));
    let e2 = encode_instruction(plain(op));
    let e3 = encode_instruction(plain(OpCode::Halt));
    let code = binary_program(a, b, op);
    reveal_with_fuel(encode_program, 5);
    vstd::bytes::lemma_auto_spec_u64_to_from_le_bytes();
    assert(e0.len() == 9 && e1.len() == 9 && e2.len() == 1 && e3.len() == 1);
    assert(code =~= e0 + e1 + e2 + e3);
    lemma_fetch_encoded(Seq::empty(), push_of(a), e1 + e2 + e3);
    assert(Seq::<u8>::empty() + e0 + (e1 + e2 + e3) =~= code);
    lemma_fetch_encoded(e0, push_of(b), e2 + e3);
    assert(e0 + e1 + (e2 + e3) =~= code);
    lemma_fetch_encoded(e0 + e1, plain(op), e3);
    lemma_fetch_encoded(e0 + e1 + e2, plain(OpCode::Halt), Seq::empty());
    assert(e0 + e1 + e2 + e3 + Seq::<u8>::empty() =~= code);
    let s0 = VmState { running: true, ..loaded_state(code) };
    let s1 = step(s0).0;
    assert(s1.stack =~= seq![Value::Integer(a)]);
    let s2 = step(s1).0;
    assert(s2.stack =~= seq![Value::Integer(a), Value::Integer(b)]);
    assert(s2 == VmState { stack: seq![Value::Integer(a), Value::Integer(b)], ip: 18, ..s0 });
    assert(run_from(s0, MAX_STEPS as nat) == run_from(s1, (MAX_STEPS - 1) as nat));
    assert(run_from(s1, (MAX_STEPS - 1) as nat) == run_from(s2, (MAX_STEPS - 2) as nat));
}

/// A program that pushes two integers, applies a binary opcode that
/// succeeds on them, and halts, runs to completion and leaves exactly the
/// opcode's result on the operand stack.
pub proof fn lemma_binary_program_runs(a: i64, b: i64, op: OpCode)
    requires
        is_binary(op),
        binary_result(op, Value::Integer(a), Value::Integer(b)) is Ok,
    ensures
        run(loaded_state(binary_program(a, b, op))).1 == Ok::<(), Fault>(()),
        run(loaded_state(binary_program(a, b, op))).0.stack == seq![
            binary_result(op, Value::Integer(a), Value::Integer(b))->Ok_0,
        ],
{
    lemma_binary_program_steps(a, b, op);
    let code = binary_program(a, b, op);
    let s0 = VmState { running: true, ..loaded_state(code) };
    let s2 = VmState { stack: seq![Value::Integer(a), Value::Integer(b)], ip: 18, ..s0 };
    let s3 = step(s2).0;
    assert(s3.stack =~= seq![binary_result(op, Value::Integer(a), Value::Integer(b))->Ok_0]);
    let s4 = step(s3).0;
    assert(run_from(s2, (MAX_STEPS - 2) as nat) == run_from(s3, (MAX_STEPS - 3) as nat));
    assert(run_from(s3, (MAX_STEPS - 3) as nat) == run_from(s4, (MAX_STEPS - 4) as nat));
    assert(!s4.running);
}

/// `PUSH a, PUSH b, DIV, HALT` leaves `a / b` rounded toward zero.
pub proof fn lemma_div_program_truncates(a: i64, b: i64)
    requires
        b != 0,
        !(a == i64::MIN && b == -1),
    ensures
        run(loaded_state(binary_program(a, b, OpCode::Div))).1 == Ok::<(), Fault>(()),
        run(loaded_state(binary_program(a, b, OpCode::Div))).0.stack == seq![
            Value::Integer(trunc_div(a as int, b as int) as i64),
        ],
{
    lemma_div_truncates(a, b);
    lemma_binary_program_runs(a, b, OpCode::Div);
}

/// `PUSH a, PUSH 0, DIV, HALT` fails with `DivisionByZero`, and both
/// operands have been popped: the operand stack is empty.
pub proof fn lemma_div_by_zero_program(a: i64)
    ensures
        run(loaded_state(binary_program(a, 0, OpCode::Div))).1 == Err::<(), Fault>(
            Fault::DivisionByZero,
        ),
        run(loaded_state(binary_program(a, 0, OpCode::Div))).0.stack == Seq::<Value>::empty(),
{
    lemma_binary_program_steps(a, 0, OpCode::Div);
    let code = binary_program(a, 0, OpCode::Div);
    let s0 = VmState { running: true, ..loaded_state(code) };
    let s2 = VmState { stack: seq![Value::Integer(a), Value::Integer(0)], ip: 18, ..s0 };
    assert(step(s2).0.stack =~= Seq::<Value>::empty());
}

/// `ADD` on an empty operand stack fails with `StackUnderflow` and pushes
/// nothing.
pub proof fn lemma_add_on_empty_stack(s: VmState)
    requires
        fetch(s.code, s.ip).0 == Ok::<InstructionView, Fault>(plain(OpCode::Add)),
        s.stack.len() == 0,
    ensures
        step(s).1 == Err::<(), Fault>(Fault::StackUnderflow),
        step(s).0.stack.len() == 0,
{
}

/// A byte that tags no opcode, where an opcode is due, fails with
/// `InvalidOpCode` carrying that byte.
pub proof fn lemma_invalid_opcode(s: VmState)
    requires
        0 <= s.ip < s.code.len(),
        opcode_of(s.code[s.ip]) is None,
    ensures
        step(s).1 == Err::<(), Fault>(Fault::InvalidOpCode(s.code[s.ip])),
{
}

/// A `JUMP` or `CALL` to an address at or past the end of the program, or a
/// `JUMP_IF_FALSE` to one whose condition is false, fails with
/// `OutOfBounds`.
pub proof fn lemma_target_out_of_bounds(s: VmState, i: InstructionView)
    requires
        fetch(s.code, s.ip).0 == Ok::<InstructionView, Fault>(i),
        address_of(i.operand) >= s.code.len(),
        i.opcode == OpCode::Jump || i.opcode == OpCode::Call || (i.opcode == OpCode::JumpIfFalse
            && s.stack.len() > 0 && !truthy(s.stack.last())),
    ensures
        step(s).1 == Err::<(), Fault>(Fault::OutOfBounds),
{
}

/// The call stack grows by one frame on a `CALL`, shrinks by one on a
/// `RETURN` from a called frame, and keeps its depth on any other
/// instruction that succeeds; so inside nested calls its depth is the
/// nesting depth plus the base frame.
pub proof fn lemma_call_depth(s: VmState)
    requires
        state_wf(s),
        step(s).1 is Ok,
    ensures
        step(s).0.frames.len() == s.frames.len() + match fetch(s.code, s.ip).0 {
            Ok(i) => if i.opcode == OpCode::Call {
                1int
            } else if i.opcode == OpCode::Return && s.frames.len() > 1 {
                -1int
            } else {
                0int
            },
            Err(_) => 0int,
        },
{
}

/// A `CALL` pushes a frame that returns right after the `CALL`'s operand;
/// a later `RETURN` from that frame resumes exactly there, with the
/// caller's frames as they were.
pub proof fn lemma_call_then_return(s: VmState, t: VmState)
    requires
        state_wf(s),
        fetch(s.code, s.ip).0 matches Ok(i) && i.opcode == OpCode::Call && address_of(i.operand)
            < s.code.len(),
        t.frames.len() == s.frames.len() + 1,
        t.frames.drop_last() == s.frames,
        t.frames.last().return_address == step(s).0.frames.last().return_address,
        fetch(t.code, t.ip).0 matches Ok(i) && i.opcode == OpCode::Return,
    ensures
        step(s).1 == Ok::<(), Fault>(()),
        step(s).0.frames.len() == s.frames.len() + 1,
        step(s).0.ip == address_of(fetch(s.code, s.ip).0->Ok_0.operand),
        step(t).1 == Ok::<(), Fault>(()),
        step(t).0.ip == fetch(s.code, s.ip).1,
        step(t).0.frames == s.frames,
{
    assert(s.ip <= s.code.len() <= usize::MAX);
    assert(fetch(s.code, s.ip).1 <= s.code.len());
}

/// A local stored in a called frame is gone once that frame returns: the
/// caller's `LOAD_LOCAL` of the name fails unless the caller had set it.
pub proof fn lemma_local_dies_with_frame(s: VmState, name: Seq<char>)
    requires
        state_wf(s),
        s.frames.len() >= 2,
        s.stack.len() >= 1,
        fetch(s.code, s.ip).0 == Ok::<InstructionView, Fault>(
            InstructionView { opcode: OpCode::StoreLocal, operand: OperandView::Name(name) },
        ),
        fetch(step(s).0.code, step(s).0.ip).0 matches Ok(i) && i.opcode == OpCode::Return,
        fetch(step(step(s).0).0.code, step(step(s).0).0.ip).0 == Ok::<InstructionView, Fault>(
            InstructionView { opcode: OpCode::LoadLocal, operand: OperandView::Name(name) },
        ),
        !s.frames[s.frames.len() - 2].locals.contains_key(name),
    ensures
        step(s).0.frames.last().locals.contains_key(name),
        step(step(step(s).0).0).1 == Err::<(), Fault>(Fault::UndefinedVariable(name)),
{
    let s1 = step(s).0;
    let s2 = step(s1).0;
    assert(s2.frames =~= s.frames.drop_last());
}

/// Where the next instruction jumps to itself, the machine runs out of
/// steps: the run fails with `InfiniteLoopDetected` and does not go on.
pub proof fn lemma_self_jump_runs_out(s: VmState, fuel: nat)
    requires
        s.running,
        0 <= s.ip < s.code.len(),
        fetch(s.code, s.ip).0 matches Ok(i) && i.opcode == OpCode::Jump && address_of(i.operand)
            == s.ip,
    ensures
        run_from(s, fuel) == (s, Err::<(), Fault>(Fault::InfiniteLoopDetected)),
    decreases fuel,
{
    if fuel > 0 {
        assert(step(s) == (s, Ok::<(), Fault>(())));
        lemma_self_jump_runs_out(s, (fuel - 1) as nat);
    }
}

/// The program made of a single `JUMP 0` fails with
/// `InfiniteLoopDetected`.
pub proof fn lemma_jump_to_start_runs_out()
    ensures
        run(loaded_state(encode_program(seq![
            InstructionView { opcode: OpCode::Jump, operand: OperandView::Address(0) },
        ]))).1 == Err::<(), Fault>(Fault::InfiniteLoopDetected),
{
    let i = InstructionView { opcode: OpCode::Jump, operand: OperandView::Address(0) };
    let code = encode_program(seq![i]);
    reveal_with_fuel(encode_program, 2);
    assert(seq![i].drop_first() =~= Seq::<InstructionView>::empty());
    assert(code =~= Seq::<u8>::empty() + encode_instruction(i) + Seq::<u8>::empty());
    lemma_fetch_encoded(Seq::empty(), i, Seq::empty());
    let s = VmState { running: true, ..loaded_state(code) };
    lemma_self_jump_runs_out(s, MAX_STEPS as nat);
}

} // verus!
