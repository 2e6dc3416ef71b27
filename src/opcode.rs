use vstd::prelude::*;

verus! {

/// The operation codes of the instruction set.
#[derive(Debug, Clone, Copy, PartialEq, Eq, Structural)]
pub enum OpCode {
    Add,
    Sub,
    Mul,
    Div,
    Push,
    Halt,
    StoreVar,
    LoadVar,
    Gt,
    Lt,
    Gte,
    Lte,
    Eq,
    Neq,
    Jump,
    JumpIfFalse,
    Call,
    Return,
    StoreLocal,
    LoadLocal,
    Print,
    PrintVal,
    PrintLn,
}

/// What follows an opcode byte in the instruction stream.
#[derive(Debug, Clone, Copy, PartialEq, Eq, Structural)]
pub enum OperandKind {
    /// Nothing.
    NoOperand,
    /// An 8-byte little-endian signed integer.
    Literal,
    /// A one-byte length followed by that many UTF-8 bytes.
    Name,
    /// An 8-byte little-endian unsigned byte offset.
    Address,
}

/// The byte tag of each opcode.
pub open spec fn tag_of(op: OpCode) -> u8 {
    match op {
        OpCode::Add => 0,
        OpCode::Sub => 1,
        OpCode::Mul => 2,
        OpCode::Div => 3,
        OpCode::Push => 4,
        OpCode::Halt => 5,
        OpCode::StoreVar => 6,
        OpCode::LoadVar => 7,
        OpCode::Gt => 8,
        OpCode::Lt => 9,
        OpCode::Gte => 10,
        OpCode::Lte => 11,
        OpCode::Eq => 12,
        OpCode::Neq => 13,
        OpCode::Jump => 14,
        OpCode::JumpIfFalse => 15,
        OpCode::Call => 16,
        OpCode::Return => 17,
        OpCode::StoreLocal => 18,
        OpCode::LoadLocal => 19,
        OpCode::Print => 20,
        OpCode::PrintVal => 21,
        OpCode::PrintLn => 22,
    }
}

/// The opcode that a byte tags, if any: the inverse of `tag_of`.
pub open spec fn opcode_of(byte: u8) -> Option<OpCode> {
    if byte == 0 { Some(OpCode::Add) }
    else if byte == 1 { Some(OpCode::Sub) }
    else if byte == 2 { Some(OpCode::Mul) }
    else if byte == 3 { Some(OpCode::Div) }
    else if byte == 4 { Some(OpCode::Push) }
    else if byte == 5 { Some(OpCode::Halt) }
    else if byte == 6 { Some(OpCode::StoreVar) }
    else if byte == 7 { Some(OpCode::LoadVar) }
    else if byte == 8 { Some(OpCode::Gt) }
    else if byte == 9 { Some(OpCode::Lt) }
    else if byte == 10 { Some(OpCode::Gte) }
    else if byte == 11 { Some(OpCode::Lte) }
    else if byte == 12 { Some(OpCode::Eq) }
    else if byte == 13 { Some(OpCode::Neq) }
    else if byte == 14 { Some(OpCode::Jump) }
    else if byte == 15 { Some(OpCode::JumpIfFalse) }
    else if byte == 16 { Some(OpCode::Call) }
    else if byte == 17 { Some(OpCode::Return) }
    else if byte == 18 { Some(OpCode::StoreLocal) }
    else if byte == 19 { Some(OpCode::LoadLocal) }
    else if byte == 20 { Some(OpCode::Print) }
    else if byte == 21 { Some(OpCode::PrintVal) }
    else if byte == 22 { Some(OpCode::PrintLn) }
    else { None }
}

/// The mnemonic of each opcode, as the disassembler prints it.
pub open spec fn mnemonic(op: OpCode) -> Seq<char> {
    match op {
        OpCode::Add => "ADD"@,
        OpCode::Sub => "SUB"@,
        OpCode::Mul => "MUL"@,
        OpCode::Div => "DIV"@,
        OpCode::Push => "PUSH"@,
        OpCode::Halt => "HALT"@,
        OpCode::StoreVar => "STORE_VAR"@,
        OpCode::LoadVar => "LOAD_VAR"@,
        OpCode::Gt => "GT"@,
        OpCode::Lt => "LT"@,
        OpCode::Gte => "GTE"@,
        OpCode::Lte => "LTE"@,
        OpCode::Eq => "EQ"@,
        OpCode::Neq => "NEQ"@,
        OpCode::Jump => "JUMP"@,
        OpCode::JumpIfFalse => "JUMP_IF_FALSE"@,
        OpCode::Call => "CALL"@,
        OpCode::Return => "RETURN"@,
        OpCode::StoreLocal => "STORE_LOCAL"@,
        OpCode::LoadLocal => "LOAD_LOCAL"@,
        OpCode::Print => "PRINT"@,
        OpCode::PrintVal => "PRINT_VAL"@,
        OpCode::PrintLn => "PRINTLN"@,
    }
}

/// The operand that follows each opcode.
pub open spec fn operand_kind_of(op: OpCode) -> OperandKind {
    match op {
        OpCode::Push => OperandKind::Literal,
        OpCode::StoreVar | OpCode::LoadVar | OpCode::StoreLocal | OpCode::LoadLocal
        | OpCode::Print => OperandKind::Name,
        OpCode::Jump | OpCode::JumpIfFalse | OpCode::Call => OperandKind::Address,
        _ => OperandKind::NoOperand,
    }
}

/// Decoding a tag gives back the opcode, and a byte decodes only to the
/// opcode that it tags.
pub proof fn lemma_tag_round_trip(op: OpCode, byte: u8)
    ensures
        opcode_of(tag_of(op)) == Some(op),
        opcode_of(byte) == Some(op) ==> tag_of(op) == byte,
{
}

impl OpCode {
    /// Decodes a byte tag; `None` for a byte that tags no opcode.
    pub fn convert_from_u8(byte: u8) -> (r: Option<OpCode>)
        ensures
            r == opcode_of(byte),
            r is None <==> byte > 22,
            r matches Some(op) ==> tag_of(op) == byte,
    {
        match byte {
            0 => Some(OpCode::Add),
            1 => Some(OpCode::Sub),
            2 => Some(OpCode::Mul),
            3 => Some(OpCode::Div),
            4 => Some(OpCode::Push),
            5 => Some(OpCode::Halt),
            6 => Some(OpCode::StoreVar),
            7 => Some(OpCode::LoadVar),
            8 => Some(OpCode::Gt),
            9 => Some(OpCode::Lt),
            10 => Some(OpCode::Gte),
            11 => Some(OpCode::Lte),
            12 => Some(OpCode::Eq),
            13 => Some(OpCode::Neq),
            14 => Some(OpCode::Jump),
            15 => Some(OpCode::JumpIfFalse),
            16 => Some(OpCode::Call),
            17 => Some(OpCode::Return),
            18 => Some(OpCode::StoreLocal),
            19 => Some(OpCode::LoadLocal),
            20 => Some(OpCode::Print),
            21 => Some(OpCode::PrintVal),
            22 => Some(OpCode::PrintLn),
            _ => None,
        }
    }

    /// Encodes the opcode as its byte tag.
    pub fn convert_to_u8(self) -> (r: u8)
        ensures
            r == tag_of(self),
            opcode_of(r) == Some(self),
    {
        match self {
            OpCode::Add => 0,
            OpCode::Sub => 1,
            OpCode::Mul => 2,
            OpCode::Div => 3,
            OpCode::Push => 4,
            OpCode::Halt => 5,
            OpCode::StoreVar => 6,
            OpCode::LoadVar => 7,
            OpCode::Gt => 8,
            OpCode::Lt => 9,
            OpCode::Gte => 10,
            OpCode::Lte => 11,
            OpCode::Eq => 12,
            OpCode::Neq => 13,
            OpCode::Jump => 14,
            OpCode::JumpIfFalse => 15,
            OpCode::Call => 16,
            OpCode::Return => 17,
            OpCode::StoreLocal => 18,
            OpCode::LoadLocal => 19,
            OpCode::Print => 20,
            OpCode::PrintVal => 21,
            OpCode::PrintLn => 22,
        }
    }

    /// The mnemonic of the opcode.
    pub fn name(&self) -> (r: &'static str)
        ensures
            r@ == mnemonic(*self),
    {
        match self {
            OpCode::Add => "ADD",
            OpCode::Sub => "SUB",
            OpCode::Mul => "MUL",
            OpCode::Div => "DIV",
            OpCode::Push => "PUSH",
            OpCode::Halt => "HALT",
            OpCode::StoreVar => "STORE_VAR",
            OpCode::LoadVar => "LOAD_VAR",
            OpCode::Gt => "GT",
            OpCode::Lt => "LT",
            OpCode::Gte => "GTE",
            OpCode::Lte => "LTE",
            OpCode::Eq => "EQ",
            OpCode::Neq => "NEQ",
            OpCode::Jump => "JUMP",
            OpCode::JumpIfFalse => "JUMP_IF_FALSE",
            OpCode::Call => "CALL",
            OpCode::Return => "RETURN",
            OpCode::StoreLocal => "STORE_LOCAL",
            OpCode::LoadLocal => "LOAD_LOCAL",
            OpCode::Print => "PRINT",
            OpCode::PrintVal => "PRINT_VAL",
            OpCode::PrintLn => "PRINTLN",
        }
    }

    /// The shape of the operand that follows this opcode.
    pub fn operand_kind(&self) -> (r: OperandKind)
        ensures
            r == operand_kind_of(*self),
    {
        match self {
            OpCode::Push => OperandKind::Literal,
            OpCode::StoreVar | OpCode::LoadVar | OpCode::StoreLocal | OpCode::LoadLocal
            | OpCode::Print => OperandKind::Name,
            OpCode::Jump | OpCode::JumpIfFalse | OpCode::Call => OperandKind::Address,
            _ => OperandKind::NoOperand,
        }
    }
}

} // verus!
