use vstd::prelude::*;
use vstd::string::*;
use crate::opcode::mnemonic;
use crate::decode::{Instruction, InstructionView, Operand, OperandView, fetch, decode_instruction};
use crate::text::{decimal, signed_decimal, padded4, write_decimal, write_signed, write_padded4};

verus! {

/// The three lines that open every listing.
pub open spec fn listing_header() -> Seq<char> {
    "Bytecode Disassembly:\n"@ + "ADDR INSTRUCTION\n"@ + "---- -----------\n"@
}

/// The line (without its newline) for an instruction that starts at `off`:
/// the zero-padded offset, the mnemonic, and the operand, a name in quotes.
pub open spec fn instruction_text(off: nat, i: InstructionView) -> Seq<char> {
    padded4(off) + " "@ + mnemonic(i.opcode) + match i.operand {
        OperandView::NoOperand => Seq::<char>::empty(),
        OperandView::Literal(v) => " "@ + signed_decimal(v as int),
        OperandView::Name(s) => " \""@ + s + "\""@,
        OperandView::Address(a) => " "@ + decimal(a as nat),
    }
}

/// The listing of the instructions from `off` on: one line each, up to the
/// end of the code or up to the first instruction that does not decode,
/// which gets an `<invalid>` line at its offset and ends the listing.
pub open spec fn listing_from(code: Seq<u8>, off: int) -> Seq<char>
    decreases code.len() - off,
{
    if off < 0 || off >= code.len() {
        Seq::empty()
    } else {
        match fetch(code, off) {
            (Ok(i), next) => instruction_text(off as nat, i) + "\n"@ + listing_from(code, next),
            (Err(_), _) => padded4(off as nat) + " <invalid>\n"@,
        }
    }
}

/// The full text that `disassemble` returns for a program.
pub open spec fn listing(code: Seq<u8>) -> Seq<char> {
    listing_header() + listing_from(code, 0)
}

/// Renders a program as a listing, with a cursor of its own.
pub struct Disassembler {
    bytecode: Vec<u8>,
    offset: usize,
}

impl Disassembler {
    /// The program being rendered.
    pub closed spec fn code(&self) -> Seq<u8> {
        self.bytecode@
    }

    /// Where the next instruction to render starts.
    pub closed spec fn cursor(&self) -> int {
        self.offset as int
    }

    /// A disassembler at the start of `bytecode`.
    pub fn new(bytecode: Vec<u8>) -> (r: Disassembler)
        ensures
            r.code() == bytecode@,
            r.cursor() == 0,
    {
        Disassembler { bytecode, offset: 0 }
    }

    /// Renders the instruction at the cursor and moves past it; `None` where
    /// it does not decode.
    fn disassemble_instruction(&mut self) -> (r: Option<String>)
        ensures
            final(self).code() == old(self).code(),
            match fetch(old(self).code(), old(self).cursor()) {
                (Ok(i), next) => r matches Some(s) && s@ == instruction_text(
                    old(self).cursor() as nat,
                    i,
                ) && final(self).cursor() == next,
                (Err(_), _) => r is None,
            },
    {
        let start_offset = self.offset;
        let (decoded, next) = decode_instruction(&self.bytecode, self.offset);
        self.offset = next;
        match decoded {
            Ok(instruction) => Some(instruction_line(start_offset, &instruction)),
            Err(_) => None,
        }
    }

    /// The listing of the program from the cursor on, after the header.
    pub fn disassemble(&mut self) -> (r: String)
        ensures
            r@ == listing_header() + listing_from(old(self).code(), old(self).cursor()),
            final(self).code() == old(self).code(),
    {
        let ghost code = self.bytecode@;
        let ghost start = self.offset as int;
        let mut output = String::from_str("Bytecode Disassembly:\n");
        output.append("ADDR INSTRUCTION\n");
        output.append("---- -----------\n");
        proof {
            assert(output@ =~= listing_header());
        }
        while self.offset < self.bytecode.len()
            invariant_except_break
                self.bytecode@ == code,
                output@ + listing_from(code, self.offset as int) == listing_header()
                    + listing_from(code, start),
            ensures
                self.bytecode@ == code,
                output@ == listing_header() + listing_from(code, start),
            decreases code.len() - self.offset,
        {
            let start_offset = self.offset;
            match self.disassemble_instruction() {
                Some(line) => {
                    let ghost before = output@;
                    output.append(line.as_str());
                    output.append("\n");
                    assert(output@ + listing_from(code, self.offset as int) =~= before
                        + listing_from(code, start_offset as int));
                },
                None => {
                    let ghost before = output@;
                    write_padded4(&mut output, start_offset);
                    output.append(" <invalid>\n");
                    assert(output@ =~= before + listing_from(code, start_offset as int));
                    break ;
                },
            }
        }
        proof {
            if self.offset >= code.len() {
                assert(output@ =~= output@ + listing_from(code, self.offset as int));
            }
        }
        output
    }
}

/// The listing line of an instruction that starts at `offset`.
fn instruction_line(offset: usize, instruction: &Instruction) -> (r: String)
    ensures
        r@ == instruction_text(offset as nat, instruction@),
{
    let mut s = String::new();
    write_padded4(&mut s, offset);
    s.append(" ");
    s.append(instruction.opcode.name());
    match &instruction.operand {
        Operand::NoOperand => {},
        Operand::Literal(v) => {
            s.append(" ");
            write_signed(&mut s, *v);
        },
        Operand::Name(name) => {
            s.append(" \"");
            s.append(name.as_str());
            s.append("\"");
        },
        Operand::Address(a) => {
            s.append(" ");
            write_decimal(&mut s, *a);
        },
    }
    assert(s@ =~= instruction_text(offset as nat, instruction@));
    s
}

/// The listing of a whole program.
pub fn disassemble(bytecode: Vec<u8>) -> (r: String)
    ensures
        r@ == listing(bytecode@),
{
    let mut disassembler = Disassembler::new(bytecode);
    disassembler.disassemble()
}

} // verus!
