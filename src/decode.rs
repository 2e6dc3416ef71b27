use vstd::prelude::*;
use vstd::bytes::{spec_u64_from_le_bytes, u64_from_le_bytes};
use vstd::utf8::{valid_utf8, decode_utf8};
use crate::opcode::{OpCode, OperandKind, opcode_of, operand_kind_of};
use crate::error::{VMError, Fault};

verus! {

/// The operand of a decoded instruction.
pub enum Operand {
    NoOperand,
    Literal(i64),
    Name(String),
    Address(u64),
}

/// One decoded instruction: its opcode and the operand that followed it.
pub struct Instruction {
    pub opcode: OpCode,
    pub operand: Operand,
}

/// The abstract value of an operand: a name as its characters.
pub enum OperandView {
    NoOperand,
    Literal(i64),
    Name(Seq<char>),
    Address(u64),
}

/// The abstract value of an instruction.
pub struct InstructionView {
    pub opcode: OpCode,
    pub operand: OperandView,
}

impl View for Operand {
    type V = OperandView;

    open spec fn view(&self) -> OperandView {
        match self {
            Operand::NoOperand => OperandView::NoOperand,
            Operand::Literal(v) => OperandView::Literal(*v),
            Operand::Name(s) => OperandView::Name(s@),
            Operand::Address(a) => OperandView::Address(*a),
        }
    }
}

impl View for Instruction {
    type V = InstructionView;

    open spec fn view(&self) -> InstructionView {
        InstructionView { opcode: self.opcode, operand: self.operand@ }
    }
}

/// The unsigned integer that 8 bytes encode, least significant first.
pub open spec fn le_u64(bytes: Seq<u8>) -> u64 {
    spec_u64_from_le_bytes(bytes)
}

/// The result of decoding the instruction at `off`, and where the cursor
/// stands afterwards: past the instruction, past the bytes read before a
/// fault, or at the end of the code for a truncated operand.
pub open spec fn fetch(code: Seq<u8>, off: int) -> (Result<InstructionView, Fault>, int) {
    if off < 0 || off >= code.len() {
        (Err(Fault::OutOfBounds), off)
    } else {
        let b = code[off];
        match opcode_of(b) {
            None => (Err(Fault::InvalidOpCode(b)), off + 1),
            Some(op) => match operand_kind_of(op) {
                OperandKind::NoOperand => (
                    Ok(InstructionView { opcode: op, operand: OperandView::NoOperand }),
                    off + 1,
                ),
                OperandKind::Literal => if off + 9 <= code.len() {
                    (
                        Ok(
                            InstructionView {
                                opcode: op,
                                operand: OperandView::Literal(
                                    le_u64(code.subrange(off + 1, off + 9)) as i64,
                                ),
                            },
                        ),
                        off + 9,
                    )
                } else {
                    (Err(Fault::OutOfBounds), code.len() as int)
                },
                OperandKind::Address => if off + 9 <= code.len() {
                    (
                        Ok(
                            InstructionView {
                                opcode: op,
                                operand: OperandView::Address(
                                    le_u64(code.subrange(off + 1, off + 9)),
                                ),
                            },
                        ),
                        off + 9,
                    )
                } else {
                    (Err(Fault::OutOfBounds), code.len() as int)
                },
                OperandKind::Name => if off + 2 > code.len() {
                    (Err(Fault::OutOfBounds), code.len() as int)
                } else if off + 2 + code[off + 1] > code.len() {
                    (Err(Fault::OutOfBounds), code.len() as int)
                } else {
                    let end = off + 2 + code[off + 1];
                    let bytes = code.subrange(off + 2, end);
                    if valid_utf8(bytes) {
                        (
                            Ok(
                                InstructionView {
                                    opcode: op,
                                    operand: OperandView::Name(decode_utf8(bytes)),
                                },
                            ),
                            end,
                        )
                    } else {
                        (Err(Fault::InvalidString), end)
                    }
                },
            },
        }
    }
}

/// The abstract value of a decoding result.
pub open spec fn decoded_view(r: Result<Instruction, VMError>) -> Result<
    InstructionView,
    Fault,
> {
    match r {
        Ok(i) => Ok(i@),
        Err(e) => Err(e@),
    }
}

/// Relies on `String::from_utf8`: it returns the string that the bytes
/// encode when they are valid UTF-8, and an error otherwise.
#[verifier::external_body]
fn string_from_utf8(bytes: Vec<u8>) -> (r: Option<String>)
    ensures
        r is Some <==> valid_utf8(bytes@),
        r matches Some(s) ==> s@ == decode_utf8(bytes@),
{
    String::from_utf8(bytes).ok()
}

/// A copy of `len` bytes of `code` from `start`.
fn copy_bytes(code: &Vec<u8>, start: usize, len: usize) -> (r: Vec<u8>)
    requires
        start + len <= code@.len(),
    ensures
        r@ == code@.subrange(start as int, start + len),
{
    let mut r: Vec<u8> = Vec::new();
    let mut k: usize = 0;
    let total = code.len();
    while k < len
        invariant
            start + len <= code@.len(),
            total == code@.len(),
            k <= len,
            r@ == code@.subrange(start as int, start + k),
        decreases len - k,
    {
        r.push(code[start + k]);
        k = k + 1;
        assert(r@ =~= code@.subrange(start as int, start + k));
    }
    r
}

/// The unsigned integer in the 8 bytes of `code` from `start`.
fn read_u64_at(code: &Vec<u8>, start: usize) -> (r: u64)
    requires
        start + 8 <= code@.len(),
    ensures
        r == le_u64(code@.subrange(start as int, start + 8)),
{
    let bytes = copy_bytes(code, start, 8);
    u64_from_le_bytes(bytes.as_slice())
}

/// Decodes the instruction at `offset`; returns the instruction or the
/// fault, and where the cursor stands afterwards (see `fetch`).
pub fn decode_instruction(code: &Vec<u8>, offset: usize) -> (r: (Result<Instruction, VMError>, usize))
    ensures
        (decoded_view(r.0), r.1 as int) == fetch(code@, offset as int),
{
    let len = code.len();
    if offset >= len {
        return (Err(VMError::OutOfBounds), offset);
    }
    let b = code[offset];
    let op = match OpCode::convert_from_u8(b) {
        Some(op) => op,
        None => {
            return (Err(VMError::InvalidOpCode(b)), offset + 1);
        },
    };
    match op.operand_kind() {
        OperandKind::NoOperand => (Ok(Instruction { opcode: op, operand: Operand::NoOperand }), offset + 1),
        OperandKind::Literal => {
            if len - offset < 9 {
                (Err(VMError::OutOfBounds), len)
            } else {
                let v = read_u64_at(code, offset + 1);
                (Ok(Instruction { opcode: op, operand: Operand::Literal(v as i64) }), offset + 9)
            }
        },
        OperandKind::Address => {
            if len - offset < 9 {
                (Err(VMError::OutOfBounds), len)
            } else {
                let a = read_u64_at(code, offset + 1);
                (Ok(Instruction { opcode: op, operand: Operand::Address(a) }), offset + 9)
            }
        },
        OperandKind::Name => {
            if len - offset < 2 {
                return (Err(VMError::OutOfBounds), len);
            }
            let n = code[offset + 1] as usize;
            if len - offset - 2 < n {
                return (Err(VMError::OutOfBounds), len);
            }
            let bytes = copy_bytes(code, offset + 2, n);
            match string_from_utf8(bytes) {
                Some(s) => (Ok(Instruction { opcode: op, operand: Operand::Name(s) }), offset + 2 + n),
                None => (Err(VMError::InvalidString), offset + 2 + n),
            }
        },
    }
}

} // verus!
