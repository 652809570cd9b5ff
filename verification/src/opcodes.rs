//! The closed opcode set and its stable byte encoding.
//!
//! Every instruction tag maps 1:1 to a positive byte, consecutive from 1;
//! byte 0 stays unused. `Wide` is not a standalone instruction but a
//! prefix that widens the operand of the single instruction that follows.
use vstd::prelude::*;

verus! {

/// An instruction tag.
#[derive(Clone, Copy, PartialEq, Eq, Structural, Debug)]
pub enum OpCode {
    /// Push `constants[index]`; 1-byte index, or 3-byte after `Wide`.
    Constant,
    /// Prefix: widen the next instruction's operand.
    Wide,
    /// Discard the top of the stack.
    Pop,
    Add,
    Sub,
    Mul,
    Div,
    /// Divide, then truncate the result back to an integer.
    IDiv,
    Mod,
    Pow,
    /// Unconditional relative jump; signed 16-bit operand.
    Jmp,
    /// Pop a condition; jump only when it is false.
    Jmpf,
    /// End of program.
    Return,
    /// Pop and render the top of the stack.
    Print,
}

/// The byte that encodes an opcode.
pub open spec fn opcode_byte(op: OpCode) -> u8 {
    match op {
        OpCode::Constant => 1,
        OpCode::Wide => 2,
        OpCode::Pop => 3,
        OpCode::Add => 4,
        OpCode::Sub => 5,
        OpCode::Mul => 6,
        OpCode::Div => 7,
        OpCode::IDiv => 8,
        OpCode::Mod => 9,
        OpCode::Pow => 10,
        OpCode::Jmp => 11,
        OpCode::Jmpf => 12,
        OpCode::Return => 13,
        OpCode::Print => 14,
    }
}

/// The opcode a byte decodes to, if any.
pub open spec fn byte_opcode(b: u8) -> Option<OpCode> {
    if b == 1 {
        Some(OpCode::Constant)
    } else if b == 2 {
        Some(OpCode::Wide)
    } else if b == 3 {
        Some(OpCode::Pop)
    } else if b == 4 {
        Some(OpCode::Add)
    } else if b == 5 {
        Some(OpCode::Sub)
    } else if b == 6 {
        Some(OpCode::Mul)
    } else if b == 7 {
        Some(OpCode::Div)
    } else if b == 8 {
        Some(OpCode::IDiv)
    } else if b == 9 {
        Some(OpCode::Mod)
    } else if b == 10 {
        Some(OpCode::Pow)
    } else if b == 11 {
        Some(OpCode::Jmp)
    } else if b == 12 {
        Some(OpCode::Jmpf)
    } else if b == 13 {
        Some(OpCode::Return)
    } else if b == 14 {
        Some(OpCode::Print)
    } else {
        None
    }
}

/// The mnemonic of an opcode.
pub open spec fn opcode_name(op: OpCode) -> Seq<char> {
    match op {
        OpCode::Constant => "Constant"@,
        OpCode::Wide => "Wide"@,
        OpCode::Pop => "Pop"@,
        OpCode::Add => "Add"@,
        OpCode::Sub => "Sub"@,
        OpCode::Mul => "Mul"@,
        OpCode::Div => "Div"@,
        OpCode::IDiv => "IDiv"@,
        OpCode::Mod => "Mod"@,
        OpCode::Pow => "Pow"@,
        OpCode::Jmp => "Jmp"@,
        OpCode::Jmpf => "Jmpf"@,
        OpCode::Return => "Return"@,
        OpCode::Print => "Print"@,
    }
}

/// Encoding then decoding an opcode byte gives the opcode back.
pub proof fn lemma_opcode_round_trip(op: OpCode)
    ensures
        byte_opcode(opcode_byte(op)) == Some(op),
{
}

impl OpCode {
    /// The byte this opcode is encoded as.
    pub fn as_byte(self) -> (r: u8)
        ensures
            r == opcode_byte(self),
    {
        match self {
            OpCode::Constant => 1,
            OpCode::Wide => 2,
            OpCode::Pop => 3,
            OpCode::Add => 4,
            OpCode::Sub => 5,
            OpCode::Mul => 6,
            OpCode::Div => 7,
            OpCode::IDiv => 8,
            OpCode::Mod => 9,
            OpCode::Pow => 10,
            OpCode::Jmp => 11,
            OpCode::Jmpf => 12,
            OpCode::Return => 13,
            OpCode::Print => 14,
        }
    }

    /// Decodes a byte into its opcode; bytes with no mapping give `None`.
    pub fn from_byte(b: u8) -> (r: Option<OpCode>)
        ensures
            r == byte_opcode(b),
    {
        if b == 1 {
            Some(OpCode::Constant)
        } else if b == 2 {
            Some(OpCode::Wide)
        } else if b == 3 {
            Some(OpCode::Pop)
        } else if b == 4 {
            Some(OpCode::Add)
        } else if b == 5 {
            Some(OpCode::Sub)
        } else if b == 6 {
            Some(OpCode::Mul)
        } else if b == 7 {
            Some(OpCode::Div)
        } else if b == 8 {
            Some(OpCode::IDiv)
        } else if b == 9 {
            Some(OpCode::Mod)
        } else if b == 10 {
            Some(OpCode::Pow)
        } else if b == 11 {
            Some(OpCode::Jmp)
        } else if b == 12 {
            Some(OpCode::Jmpf)
        } else if b == 13 {
            Some(OpCode::Return)
        } else if b == 14 {
            Some(OpCode::Print)
        } else {
            None
        }
    }

    /// The mnemonic of this opcode.
    pub fn name(self) -> (r: &'static str)
        ensures
            r@ == opcode_name(self),
    {
        match self {
            OpCode::Constant => "Constant",
            OpCode::Wide => "Wide",
            OpCode::Pop => "Pop",
            OpCode::Add => "Add",
            OpCode::Sub => "Sub",
            OpCode::Mul => "Mul",
            OpCode::Div => "Div",
            OpCode::IDiv => "IDiv",
            OpCode::Mod => "Mod",
            OpCode::Pow => "Pow",
            OpCode::Jmp => "Jmp",
            OpCode::Jmpf => "Jmpf",
            OpCode::Return => "Return",
            OpCode::Print => "Print",
        }
    }
}

} // verus!
