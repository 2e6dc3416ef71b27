use vstd::prelude::*;
use vstd::bytes::{spec_u64_to_le_bytes, lemma_auto_spec_u64_to_from_le_bytes, u64_to_le_bytes};
use vstd::utf8::{encode_utf8, encode_utf8_valid_utf8, encode_utf8_decode_utf8};
use crate::opcode::{OpCode, OperandKind, tag_of, operand_kind_of, lemma_tag_round_trip};
use crate::decode::{InstructionView, OperandView, fetch, le_u64};
use crate::disassembler::{instruction_text, listing, listing_from, listing_header};

verus! {

/// Whether an instruction can be encoded: its operand has the shape that
/// its opcode takes, and a name fits in 255 bytes of UTF-8.
pub open spec fn encodable(i: InstructionView) -> bool {
    match i.operand {
        OperandView::NoOperand => operand_kind_of(i.opcode) == OperandKind::NoOperand,
        OperandView::Literal(_) => operand_kind_of(i.opcode) == OperandKind::Literal,
        OperandView::Address(_) => operand_kind_of(i.opcode) == OperandKind::Address,
        OperandView::Name(s) => operand_kind_of(i.opcode) == OperandKind::Name && encode_utf8(s).len()
            <= 255,
    }
}

/// The bytes of one instruction: its tag, then its operand.
pub open spec fn encode_instruction(i: InstructionView) -> Seq<u8> {
    seq![tag_of(i.opcode)] + match i.operand {
        OperandView::NoOperand => Seq::<u8>::empty(),
        OperandView::Literal(v) => spec_u64_to_le_bytes(v as u64),
        OperandView::Address(a) => spec_u64_to_le_bytes(a),
        OperandView::Name(s) => seq![encode_utf8(s).len() as u8] + encode_utf8(s),
    }
}

/// The bytes of a program: its instructions one after another.
pub open spec fn encode_program(p: Seq<InstructionView>) -> Seq<u8>
    decreases p.len(),
{
    if p.len() == 0 {
        Seq::empty()
    } else {
        encode_instruction(p[0]) + encode_program(p.drop_first())
    }
}

/// The listing lines of a program whose first instruction starts at `off`.
pub open spec fn program_text(p: Seq<InstructionView>, off: nat) -> Seq<char>
    decreases p.len(),
{
    if p.len() == 0 {
        Seq::empty()
    } else {
        instruction_text(off, p[0]) + "\n"@ + program_text(
            p.drop_first(),
            off + encode_instruction(p[0]).len(),
        )
    }
}

/// Decoding an encoded instruction, wherever it stands in the code, gives
/// back the instruction, and the cursor ends right after its bytes.
pub proof fn lemma_fetch_encoded(prefix: Seq<u8>, i: InstructionView, suffix: Seq<u8>)
    requires
        encodable(i),
    ensures
        fetch(prefix + encode_instruction(i) + suffix, prefix.len() as int) == (
            Ok::<InstructionView, crate::error::Fault>(i),
            (prefix.len() + encode_instruction(i).len()) as int,
        ),
{
    let e = encode_instruction(i);
    let code = prefix + e + suffix;
    let off = prefix.len() as int;
    lemma_tag_round_trip(i.opcode, 0);
    lemma_auto_spec_u64_to_from_le_bytes();
    assert(code[off] == tag_of(i.opcode));
    assert(code.subrange(off, off + e.len()) =~= e);
    match i.operand {
        OperandView::NoOperand => {},
        OperandView::Literal(v) => {
            let bytes = spec_u64_to_le_bytes(v as u64);
            assert(code.subrange(off + 1, off + 9) =~= bytes);
            assert(le_u64(bytes) == v as u64);
            assert(((v as u64) as i64) == v) by (bit_vector);
        },
        OperandView::Address(a) => {
            let bytes = spec_u64_to_le_bytes(a);
            assert(code.subrange(off + 1, off + 9) =~= bytes);
        },
        OperandView::Name(s) => {
            let bytes = encode_utf8(s);
            encode_utf8_valid_utf8(s);
            encode_utf8_decode_utf8(s);
            assert(code[off + 1] == bytes.len());
            assert(code.subrange(off + 2, off + 2 + bytes.len()) =~= bytes);
        },
    }
}

/// The listing from the start of an encoded program that follows `prefix`
/// is the program's own listing lines.
proof fn lemma_listing_encoded(prefix: Seq<u8>, p: Seq<InstructionView>)
    requires
        forall|k: int| 0 <= k < p.len() ==> encodable(#[trigger] p[k]),
    ensures
        listing_from(prefix + encode_program(p), prefix.len() as int) == program_text(
            p,
            prefix.len(),
        ),
    decreases p.len(),
{
    let code = prefix + encode_program(p);
    if p.len() == 0 {
        assert(code =~= prefix);
    } else {
        let e = encode_instruction(p[0]);
        let rest = encode_program(p.drop_first());
        assert(code =~= prefix + e + rest);
        assert(encodable(p[0]));
        lemma_fetch_encoded(prefix, p[0], rest);
        assert forall|k: int| 0 <= k < p.drop_first().len() implies encodable(
            #[trigger] p.drop_first()[k],
        ) by {
            assert(p.drop_first()[k] == p[k + 1]);
        }
        lemma_listing_encoded(prefix + e, p.drop_first());
        assert(prefix + e + rest =~= (prefix + e) + encode_program(p.drop_first()));
    }
}

/// Disassembling an assembled program is lossless: the listing shows each
/// instruction that was encoded, its opcode and its operand, at the offset
/// where its bytes start.
pub proof fn lemma_disassemble_assembled(p: Seq<InstructionView>)
    requires
        forall|k: int| 0 <= k < p.len() ==> encodable(#[trigger] p[k]),
    ensures
        listing(encode_program(p)) == listing_header() + program_text(p, 0),
{
    lemma_listing_encoded(Seq::empty(), p);
    assert(Seq::<u8>::empty() + encode_program(p) =~= encode_program(p));
}

/// Builds a program of arithmetic instructions, one call per instruction.
pub struct BytecodeBuilder {
    code: Vec<u8>,
}

impl BytecodeBuilder {
    /// The bytes built so far.
    pub closed spec fn bytes(&self) -> Seq<u8> {
        self.code@
    }

    /// A builder with no instructions.
    pub fn new() -> (r: BytecodeBuilder)
        ensures
            r.bytes() == Seq::<u8>::empty(),
    {
        BytecodeBuilder { code: Vec::new() }
    }

    /// Appends an instruction without an operand.
    fn simple(self, op: OpCode) -> (r: BytecodeBuilder)
        requires
            operand_kind_of(op) == OperandKind::NoOperand,
        ensures
            r.bytes() == self.bytes() + encode_instruction(
                InstructionView { opcode: op, operand: OperandView::NoOperand },
            ),
    {
        let mut code = self.code;
        let ghost before = code@;
        code.push(op.convert_to_u8());
        assert(code@ =~= before + encode_instruction(
            InstructionView { opcode: op, operand: OperandView::NoOperand },
        ));
        BytecodeBuilder { code }
    }

    /// Appends `PUSH value`.
    pub fn push_solution(self, value: i64) -> (r: BytecodeBuilder)
        ensures
            r.bytes() == self.bytes() + encode_instruction(
                InstructionView { opcode: OpCode::Push, operand: OperandView::Literal(value) },
            ),
    {
        let mut code = self.code;
        let ghost before = code@;
        code.push(OpCode::Push.convert_to_u8());
        let bytes = u64_to_le_bytes(value as u64);
        let mut k: usize = 0;
        while k < bytes.len()
            invariant
                bytes@.len() == 8,
                k <= 8,
                code@ == before + seq![tag_of(OpCode::Push)] + bytes@.subrange(0, k as int),
            decreases 8 - k,
        {
            code.push(bytes[k]);
            k = k + 1;
            assert(code@ =~= before + seq![tag_of(OpCode::Push)] + bytes@.subrange(
                0,
                k as int,
            ));
        }
        assert(bytes@.subrange(0, 8) =~= bytes@);
        assert(code@ =~= before + encode_instruction(
            InstructionView { opcode: OpCode::Push, operand: OperandView::Literal(value) },
        ));
        BytecodeBuilder { code }
    }

    /// Appends `ADD`.
    pub fn add_solution(self) -> (r: BytecodeBuilder)
        ensures
            r.bytes() == self.bytes() + encode_instruction(
                InstructionView { opcode: OpCode::Add, operand: OperandView::NoOperand },
            ),
    {
        self.simple(OpCode::Add)
    }

    /// Appends `SUB`.
    pub fn sub_solution(self) -> (r: BytecodeBuilder)
        ensures
            r.bytes() == self.bytes() + encode_instruction(
                InstructionView { opcode: OpCode::Sub, operand: OperandView::NoOperand },
            ),
    {
        self.simple(OpCode::Sub)
    }

    /// Appends `MUL`.
    pub fn mul_solution(self) -> (r: BytecodeBuilder)
        ensures
            r.bytes() == self.bytes() + encode_instruction(
                InstructionView { opcode: OpCode::Mul, operand: OperandView::NoOperand },
            ),
    {
        self.simple(OpCode::Mul)
    }

    /// Appends `DIV`.
    pub fn div_solution(self) -> (r: BytecodeBuilder)
        ensures
            r.bytes() == self.bytes() + encode_instruction(
                InstructionView { opcode: OpCode::Div, operand: OperandView::NoOperand },
            ),
    {
        self.simple(OpCode::Div)
    }

    /// Appends `HALT`.
    pub fn halt_solution(self) -> (r: BytecodeBuilder)
        ensures
            r.bytes() == self.bytes() + encode_instruction(
                InstructionView { opcode: OpCode::Halt, operand: OperandView::NoOperand },
            ),
    {
        self.simple(OpCode::Halt)
    }

    /// The program built.
    pub fn build(self) -> (r: Vec<u8>)
        ensures
            r@ == self.bytes(),
    {
        self.code
    }
}

} // verus!
