//! The disassembler: a pure, read-only forward pass over a chunk's code
//! producing one descriptive line per decoded instruction.
//!
//! A transient wide flag is set right after a `Wide` prefix, consumed by
//! the single following instruction to pick the 1-byte or 3-byte
//! constant-index width, and cleared after any other instruction. A byte
//! with no opcode mapping, or an instruction whose operand bytes run past
//! the end of the code, renders a placeholder line and the pass advances
//! by exactly one byte, so the offset always strictly increases and the
//! traversal terminates; this placeholder policy is deliberate. A
//! constant load whose pool index is out of bounds aborts the pass with
//! `UnkownConstant`.
use vstd::prelude::*;
use vstd::string::StringExecFns;

use crate::chunk::Chunk;
use crate::chunk::sext16;
use crate::chunk::u16_le;
use crate::chunk::u24_le;
use crate::error::DisasmError;
use crate::error::DisasmResult;
use crate::opcodes::OpCode;
use crate::opcodes::byte_opcode;
use crate::opcodes::opcode_name;
use crate::text::dec_int;
use crate::text::dec_nat;
use crate::text::pad4;
use crate::text::push_dec_int;
use crate::text::push_dec_uint;
use crate::text::push_offset;
use crate::text::render_value;
use crate::text::value_text;
use crate::value::Value;

verus! {

/// The placeholder line for a byte that does not decode.
pub open spec fn line_unknown(off: int) -> Seq<char> {
    pad4(dec_nat(off as nat)) + " UNKNOWN"@
}

/// The line for an instruction with no operand.
pub open spec fn line_simple(off: int, op: OpCode) -> Seq<char> {
    pad4(dec_nat(off as nat)) + " "@ + opcode_name(op)
}

/// The line for a jump: its mnemonic and its resolved target offset.
pub open spec fn line_jump(off: int, op: OpCode, target: int) -> Seq<char> {
    pad4(dec_nat(off as nat)) + " "@ + opcode_name(op) + " "@ + dec_int(target)
}

/// The line for a constant load: the pool index and the value it holds.
pub open spec fn line_constant(off: int, idx: int, v: Value) -> Seq<char> {
    pad4(dec_nat(off as nat)) + " "@ + opcode_name(OpCode::Constant) + " "@ + dec_nat(idx as nat)
        + " ("@ + value_text(v) + ")"@
}

/// One decode step at `off` (which must be below `code.len()`): the line
/// produced, the next offset, and the wide flag handed to the next
/// instruction — or the error that aborts the pass.
pub open spec fn decode_line(code: Seq<u8>, consts: Seq<Value>, off: int, wide: bool) -> Result<
    (Seq<char>, int, bool),
    DisasmError,
> {
    match byte_opcode(code[off]) {
        None => Ok((line_unknown(off), off + 1, false)),
        Some(op) => match op {
            OpCode::Constant => if wide {
                if off + 4 > code.len() {
                    Ok((line_unknown(off), off + 1, false))
                } else {
                    let idx = u24_le(code[off + 1], code[off + 2], code[off + 3]) as int;
                    if idx >= consts.len() {
                        Err(DisasmError::UnkownConstant(idx as usize))
                    } else {
                        Ok((line_constant(off, idx, consts[idx]), off + 4, false))
                    }
                }
            } else {
                if off + 2 > code.len() {
                    Ok((line_unknown(off), off + 1, false))
                } else {
                    let idx = code[off + 1] as int;
                    if idx >= consts.len() {
                        Err(DisasmError::UnkownConstant(idx as usize))
                    } else {
                        Ok((line_constant(off, idx, consts[idx]), off + 2, false))
                    }
                }
            },
            OpCode::Wide => Ok((line_simple(off, op), off + 1, true)),
            OpCode::Jmp | OpCode::Jmpf => if off + 3 > code.len() {
                Ok((line_unknown(off), off + 1, false))
            } else {
                let target = off + 3 + sext16(u16_le(code[off + 1], code[off + 2]));
                Ok((line_jump(off, op, target), off + 3, false))
            },
            _ => Ok((line_simple(off, op), off + 1, false)),
        },
    }
}

/// The whole listing from `off` on, or the first error.
pub open spec fn listing(code: Seq<u8>, consts: Seq<Value>, off: int, wide: bool) -> Result<
    Seq<Seq<char>>,
    DisasmError,
>
    decreases code.len() - off,
{
    if off < 0 || off >= code.len() {
        Ok(Seq::empty())
    } else {
        match decode_line(code, consts, off, wide) {
            Err(e) => Err(e),
            Ok((line, next, w)) => match listing(code, consts, next, w) {
                Err(e) => Err(e),
                Ok(rest) => Ok(seq![line] + rest),
            },
        }
    }
}

impl Chunk {
    /// Decodes the one instruction at `*offset`, appends its line, moves
    /// `*offset` past it, and hands back the wide flag for the next
    /// instruction.
    pub fn instruction(&self, offset: &mut usize, is_wide: bool, lines: &mut Vec<String>) -> (r:
        DisasmResult<bool>)
        requires
            *old(offset) < self.code@.len(),
        ensures
            ({
                let d = decode_line(self.code@, self.constants@, *old(offset) as int, is_wide);
                match r {
                    Ok(w) => d matches Ok((line, next, w2)) && w == w2 && *final(offset) == next
                        && final(lines)@.map_values(|s: String| s@) == old(lines)@.map_values(
                        |s: String| s@,
                    ).push(line),
                    Err(e) => d == Err::<(Seq<char>, int, bool), DisasmError>(e) && *final(offset)
                        == *old(offset) && final(lines)@ == old(lines)@,
                }
            }),
    {
        let byte = self.code[*offset];
        match OpCode::from_byte(byte) {
            None => {
                self.unknown_instruction(offset, lines);
                Ok(false)
            },
            Some(op) => match op {
                OpCode::Constant => match self.constant_instruction(offset, is_wide, lines) {
                    Ok(()) => Ok(false),
                    Err(e) => Err(e),
                },
                OpCode::Wide => {
                    self.simple_instruction(offset, lines);
                    Ok(true)
                },
                OpCode::Jmp | OpCode::Jmpf => {
                    self.i16_arg_instruction(offset, lines);
                    Ok(false)
                },
                _ => {
                    self.simple_instruction(offset, lines);
                    Ok(false)
                },
            },
        }
    }

    /// Renders the placeholder line and advances one byte.
    fn unknown_instruction(&self, offset: &mut usize, lines: &mut Vec<String>)
        requires
            *old(offset) < self.code@.len(),
        ensures
            *final(offset) == *old(offset) + 1,
            final(lines)@.map_values(|s: String| s@) == old(lines)@.map_values(
                |s: String| s@,
            ).push(line_unknown(*old(offset) as int)),
    {
        let n = self.code.len();
        assert(*offset < n);
        let mut s = String::new();
        push_offset(&mut s, *offset);
        s.append(" UNKNOWN");
        proof {
            assert(s@ =~= line_unknown(*old(offset) as int));
        }
        lines.push(s);
        *offset = *offset + 1;
        proof {
            assert(final(lines)@.map_values(|t: String| t@) =~= old(lines)@.map_values(
                |t: String| t@,
            ).push(line_unknown(*old(offset) as int)));
        }
    }

    /// Renders an operand-free instruction's line and advances one byte.
    fn simple_instruction(&self, offset: &mut usize, lines: &mut Vec<String>)
        requires
            *old(offset) < self.code@.len(),
            byte_opcode(self.code@[*old(offset) as int]) is Some,
        ensures
            *final(offset) == *old(offset) + 1,
            final(lines)@.map_values(|s: String| s@) == old(lines)@.map_values(
                |s: String| s@,
            ).push(
                line_simple(
                    *old(offset) as int,
                    byte_opcode(self.code@[*old(offset) as int]).unwrap(),
                ),
            ),
    {
        let n = self.code.len();
        assert(*offset < n);
        let byte = self.code[*offset];
        let op = OpCode::from_byte(byte).unwrap();
        let mut s = String::new();
        push_offset(&mut s, *offset);
        s.append(" ");
        s.append(op.name());
        proof {
            assert(s@ =~= line_simple(
                *old(offset) as int,
                byte_opcode(self.code@[*old(offset) as int]).unwrap(),
            ));
        }
        lines.push(s);
        *offset = *offset + 1;
        proof {
            assert(final(lines)@.map_values(|t: String| t@) =~= old(lines)@.map_values(
                |t: String| t@,
            ).push(
                line_simple(
                    *old(offset) as int,
                    byte_opcode(self.code@[*old(offset) as int]).unwrap(),
                ),
            ));
        }
    }

    /// Renders a jump's line with its resolved target and advances past
    /// the 2-byte operand; a truncated operand renders the placeholder.
    fn i16_arg_instruction(&self, offset: &mut usize, lines: &mut Vec<String>)
        requires
            *old(offset) < self.code@.len(),
            byte_opcode(self.code@[*old(offset) as int]) matches Some(op) && (op == OpCode::Jmp
                || op == OpCode::Jmpf),
        ensures
            ({
                let off = *old(offset) as int;
                let code = self.code@;
                let op = byte_opcode(code[off]).unwrap();
                if off + 3 > code.len() {
                    *final(offset) == off + 1 && final(lines)@.map_values(|s: String| s@) == old(
                        lines,
                    )@.map_values(|s: String| s@).push(line_unknown(off))
                } else {
                    *final(offset) == off + 3 && final(lines)@.map_values(|s: String| s@) == old(
                        lines,
                    )@.map_values(|s: String| s@).push(
                        line_jump(off, op, off + 3 + sext16(u16_le(code[off + 1], code[off + 2]))),
                    )
                }
            }),
    {
        let n = self.code.len();
        let off = *offset;
        if n - off < 3 {
            self.unknown_instruction(offset, lines);
            return ;
        }
        let byte = self.code[off];
        let op = OpCode::from_byte(byte).unwrap();
        let lo = self.code[off + 1];
        let hi = self.code[off + 2];
        let operand: u16 = (lo as u16) | ((hi as u16) << 8);
        proof {
            assert((lo as u16) | ((hi as u16) << 8) == (lo + hi * 0x100) as u16) by (bit_vector);
        }
        let signed: i128 = if operand >= 0x8000 {
            (operand as i128) - 0x10000
        } else {
            operand as i128
        };
        let target: i128 = (off as i128) + 3 + signed;
        let mut s = String::new();
        push_offset(&mut s, off);
        s.append(" ");
        s.append(op.name());
        s.append(" ");
        push_dec_int(&mut s, target);
        proof {
            assert(s@ =~= line_jump(
                off as int,
                op,
                off + 3 + sext16(u16_le(self.code@[off + 1], self.code@[off + 2])),
            ));
        }
        lines.push(s);
        *offset = off + 3;
        proof {
            assert(final(lines)@.map_values(|t: String| t@) =~= old(lines)@.map_values(
                |t: String| t@,
            ).push(
                line_jump(
                    off as int,
                    op,
                    off + 3 + sext16(u16_le(self.code@[off + 1], self.code@[off + 2])),
                ),
            ));
        }
    }

    /// Renders a constant load's line — pool index and stored value —
    /// and advances past the 1- or 3-byte index; an out-of-bounds index
    /// aborts with `UnkownConstant`, a truncated operand renders the
    /// placeholder.
    fn constant_instruction(&self, offset: &mut usize, is_wide: bool, lines: &mut Vec<String>) -> (r:
        DisasmResult<()>)
        requires
            *old(offset) < self.code@.len(),
            byte_opcode(self.code@[*old(offset) as int]) == Some(OpCode::Constant),
        ensures
            ({
                let d = decode_line(self.code@, self.constants@, *old(offset) as int, is_wide);
                match r {
                    Ok(()) => d matches Ok((line, next, w2)) && *final(offset) == next
                        && final(lines)@.map_values(|s: String| s@) == old(lines)@.map_values(
                        |s: String| s@,
                    ).push(line),
                    Err(e) => d == Err::<(Seq<char>, int, bool), DisasmError>(e) && *final(offset)
                        == *old(offset) && final(lines)@ == old(lines)@,
                }
            }),
    {
        let n = self.code.len();
        let off = *offset;
        let jump: usize;
        let index: usize;

        if is_wide {
            if n - off < 4 {
                self.unknown_instruction(offset, lines);
                return Ok(());
            }
            jump = 4;
            let b0 = self.code[off + 1];
            let b1 = self.code[off + 2];
            let b2 = self.code[off + 3];
            let v: u32 = (b0 as u32) | ((b1 as u32) << 8) | ((b2 as u32) << 16);
            proof {
                assert((b0 as u32) | ((b1 as u32) << 8) | ((b2 as u32) << 16) == (b0 + b1 * 0x100
                    + b2 * 0x10000) as u32) by (bit_vector);
            }
            index = v as usize;
        } else {
            if n - off < 2 {
                self.unknown_instruction(offset, lines);
                return Ok(());
            }
            jump = 2;
            index = self.code[off + 1] as usize;
        }

        if index >= self.constants.len() {
            return Err(DisasmError::UnkownConstant(index));
        }

        let mut s = String::new();
        push_offset(&mut s, off);
        s.append(" ");
        s.append(OpCode::Constant.name());
        s.append(" ");
        push_dec_uint(&mut s, index as u128);
        s.append(" (");
        let rendered = render_value(self.constants[index]);
        s.append(rendered.as_str());
        s.append(")");
        proof {
            assert(s@ =~= line_constant(off as int, index as int, self.constants@[index as int]));
        }
        lines.push(s);
        *offset = off + jump;
        proof {
            assert(final(lines)@.map_values(|t: String| t@) =~= old(lines)@.map_values(
                |t: String| t@,
            ).push(line_constant(off as int, index as int, self.constants@[index as int])));
        }
        Ok(())
    }

    /// Disassembles the whole chunk into one line per instruction, or
    /// the first decode error.
    pub fn disassemble(&self) -> (r: DisasmResult<Vec<String>>)
        ensures
            ({
                let l = listing(self.code@, self.constants@, 0, false);
                match r {
                    Ok(v) => l == Ok::<Seq<Seq<char>>, DisasmError>(
                        v@.map_values(|s: String| s@),
                    ),
                    Err(e) => l == Err::<Seq<Seq<char>>, DisasmError>(e),
                }
            }),
    {
        let mut lines: Vec<String> = Vec::new();
        let mut offset: usize = 0;
        let mut is_wide: bool = false;

        proof {
            assert(lines@.map_values(|s: String| s@) =~= Seq::<Seq<char>>::empty());
        }
        while offset < self.code.len()
            invariant
                offset <= self.code@.len(),
                ({
                    let whole = listing(self.code@, self.constants@, 0, false);
                    let rest = listing(self.code@, self.constants@, offset as int, is_wide);
                    match rest {
                        Ok(tail) => whole == Ok::<Seq<Seq<char>>, DisasmError>(
                            lines@.map_values(|s: String| s@) + tail,
                        ),
                        Err(e) => whole == Err::<Seq<Seq<char>>, DisasmError>(e),
                    }
                }),
            decreases self.code@.len() - offset,
        {
            let ghost prev_off = offset as int;
            let ghost prev_wide = is_wide;
            let ghost prev_lines = lines@.map_values(|s: String| s@);
            is_wide =
            match self.instruction(&mut offset, is_wide, &mut lines) {
                Ok(w) => w,
                Err(e) => {
                    return Err(e);
                },
            };
            proof {
                let d = decode_line(self.code@, self.constants@, prev_off, prev_wide);
                let (line, next, w2) = d.unwrap();
                let rest_new = listing(self.code@, self.constants@, next, w2);
                match rest_new {
                    Ok(tail) => {
                        assert(prev_lines + (seq![line] + tail) =~= (prev_lines.push(line)) + tail);
                    },
                    Err(e) => {},
                }
            }
        }
        Ok(lines)
    }
}

} // verus!
