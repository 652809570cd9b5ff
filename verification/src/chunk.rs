//! The instruction container: an append-only code buffer, an append-only
//! constant pool, and a parallel line table, with the encoding API and
//! the backpatching protocol for forward jumps.
//!
//! Operand encodings are little-endian on both the encode and decode
//! side: a constant load is `Constant` plus one index byte, or, when the
//! pool index no longer fits a byte, `Wide` + `Constant` plus three index
//! bytes; a jump operand is a signed 16-bit offset in two bytes, relative
//! to the position right after the operand.
use vstd::prelude::*;

use crate::error::ChunkError;
use crate::error::ChunkResult;
use crate::opcodes::OpCode;
use crate::opcodes::opcode_byte;
use crate::value::Value;

verus! {

/// A source line number.
pub type Line = usize;

/// The 16-bit value two little-endian bytes decode to.
pub open spec fn u16_le(lo: u8, hi: u8) -> u16 {
    (lo + hi * 0x100) as u16
}

/// The signed value of a 16-bit pattern.
pub open spec fn sext16(v: u16) -> int {
    if v < 0x8000 {
        v as int
    } else {
        v - 0x10000
    }
}

/// The 24-bit value three little-endian bytes decode to.
pub open spec fn u24_le(b0: u8, b1: u8, b2: u8) -> u32 {
    (b0 + b1 * 0x100 + b2 * 0x10000) as u32
}

/// The bytes `write_constant` emits for a load of pool index `index`:
/// the compact 2-byte form while the index fits a byte, else the wide
/// 5-byte form covering indices up to 2^24 - 1.
pub open spec fn load_encoding(index: usize) -> Seq<u8> {
    if index <= 255 {
        seq![opcode_byte(OpCode::Constant), index as u8]
    } else {
        seq![
            opcode_byte(OpCode::Wide),
            opcode_byte(OpCode::Constant),
            (index & 0xFF) as u8,
            ((index >> 8) & 0xFF) as u8,
            ((index >> 16) & 0xFF) as u8,
        ]
    }
}

/// An instruction container under construction.
#[derive(Clone)]
pub struct Chunk {
    /// The encoded program.
    pub code: Vec<u8>,
    /// The constant pool, append-only and index-addressed.
    pub constants: Vec<Value>,
    /// Line numbers alongside the code; kept for error diagnostics.
    pub lines: Vec<Line>,
}

impl Chunk {
    /// A fresh, empty chunk.
    pub fn new() -> (r: Self)
        ensures
            r.code@ == Seq::<u8>::empty(),
            r.constants@ == Seq::<Value>::empty(),
            r.lines@ == seq![0usize],
    {
        let mut lines: Vec<Line> = Vec::new();
        lines.push(0);
        Self { code: Vec::new(), constants: Vec::new(), lines }
    }

    /// Appends one opcode byte.
    pub fn emit_byte(&mut self, opcode: OpCode)
        ensures
            final(self).code@ == old(self).code@.push(opcode_byte(opcode)),
            final(self).constants@ == old(self).constants@,
            final(self).lines@ == old(self).lines@,
    {
        self.code.push(opcode.as_byte());
    }

    /// Appends a value to the constant pool and hands back its index.
    fn add_constant(&mut self, value: Value) -> (r: usize)
        ensures
            final(self).constants@ == old(self).constants@.push(value),
            final(self).code@ == old(self).code@,
            final(self).lines@ == old(self).lines@,
            r == old(self).constants@.len(),
    {
        self.constants.push(value);
        self.constants.len() - 1
    }

    /// Appends raw bytes, used for operands.
    pub fn emit_bytes(&mut self, bytes: &[u8])
        ensures
            final(self).code@ == old(self).code@ + bytes@,
            final(self).constants@ == old(self).constants@,
            final(self).lines@ == old(self).lines@,
    {
        let mut i: usize = 0;
        while i < bytes.len()
            invariant
                i <= bytes@.len(),
                self.code@ == old(self).code@ + bytes@.subrange(0, i as int),
                self.constants@ == old(self).constants@,
                self.lines@ == old(self).lines@,
            decreases bytes@.len() - i,
        {
            self.code.push(bytes[i]);
            proof {
                assert(bytes@.subrange(0, i + 1) =~= bytes@.subrange(0, i as int).push(bytes@[i as int]));
                assert(self.code@ =~= old(self).code@ + bytes@.subrange(0, i + 1));
            }
            i = i + 1;
        }
        proof {
            assert(bytes@.subrange(0, bytes@.len() as int) =~= bytes@);
        }
    }

    /// Appends `value` to the pool, then emits the load instruction for
    /// it: 2 bytes while the new index fits a byte, else the wide 5-byte
    /// form.
    pub fn write_constant(&mut self, value: Value)
        requires
            old(self).constants@.len() < 0x100_0000,
        ensures
            final(self).constants@ == old(self).constants@.push(value),
            final(self).code@ == old(self).code@ + load_encoding(old(self).constants@.len() as usize),
            final(self).lines@ == old(self).lines@,
    {
        let index = self.add_constant(value);

        if index > 255 {
            let minor = (index & 0xFF) as u8;
            let mid = ((index >> 8) & 0xFF) as u8;
            let major = ((index >> 16) & 0xFF) as u8;

            self.emit_bytes(&[OpCode::Wide.as_byte(), OpCode::Constant.as_byte(), minor, mid, major]);
            proof {
                assert(final(self).code@ =~= old(self).code@ + load_encoding(
                    old(self).constants@.len() as usize,
                ));
            }
        } else {
            self.emit_bytes(&[OpCode::Constant.as_byte(), index as u8]);
            proof {
                assert(final(self).code@ =~= old(self).code@ + load_encoding(
                    old(self).constants@.len() as usize,
                ));
            }
        }
    }

    /// Overwrites a single previously emitted byte; used exclusively for
    /// backpatching jump placeholders.
    pub fn patch_code(&mut self, index: usize, value: u8)
        requires
            index < old(self).code@.len(),
        ensures
            final(self).code@ == old(self).code@.update(index as int, value),
            final(self).constants@ == old(self).constants@,
            final(self).lines@ == old(self).lines@,
    {
        self.code.set(index, value);
    }

    /// Whether the last emitted byte is the `Wide` prefix.
    pub fn is_wide(&self) -> (r: bool)
        requires
            self.code@.len() > 0,
        ensures
            r == (self.code@.last() == opcode_byte(OpCode::Wide)),
    {
        self.code[self.code.len() - 1] == OpCode::Wide.as_byte()
    }

    /// Emits a `Pop` instruction.
    pub fn emit_pop(&mut self)
        ensures
            final(self).code@ == old(self).code@.push(opcode_byte(OpCode::Pop)),
            final(self).constants@ == old(self).constants@,
            final(self).lines@ == old(self).lines@,
    {
        self.emit_byte(OpCode::Pop);
    }

    /// Emits a `Return` instruction.
    pub fn emit_return(&mut self)
        ensures
            final(self).code@ == old(self).code@.push(opcode_byte(OpCode::Return)),
            final(self).constants@ == old(self).constants@,
            final(self).lines@ == old(self).lines@,
    {
        self.emit_byte(OpCode::Return);
    }

    /// Starts a forward jump: emits the jump opcode and two placeholder
    /// bytes, and hands back the handle that `end_jump` takes — the
    /// position of the second placeholder byte.
    pub fn start_jump(&mut self, jmp: OpCode) -> (r: usize)
        ensures
            final(self).code@ == old(self).code@ + seq![opcode_byte(jmp), 0xFFu8, 0xFFu8],
            final(self).constants@ == old(self).constants@,
            final(self).lines@ == old(self).lines@,
            r == old(self).code@.len() + 2,
            r == final(self).code@.len() - 1,
    {
        self.emit_bytes(&[jmp.as_byte(), 0xFF, 0xFF]);
        self.code.len() - 1
    }

    /// Ends a forward jump: computes the byte distance from just after
    /// the placeholder to the current end of the buffer, fails with
    /// `TooManyCodeToJump` if it exceeds the signed 16-bit range, and
    /// otherwise backpatches the two placeholder bytes with the offset,
    /// little-endian.
    pub fn end_jump(&mut self, jmp_idx: usize) -> (r: ChunkResult<()>)
        requires
            1 <= jmp_idx,
            jmp_idx < old(self).code@.len(),
        ensures
            final(self).constants@ == old(self).constants@,
            final(self).lines@ == old(self).lines@,
            ({
                let off = (old(self).code@.len() - jmp_idx - 1) as usize;
                if off > 32767 {
                    r == ChunkResult::<()>::Err(ChunkError::TooManyCodeToJump) && final(self).code@
                        == old(self).code@
                } else {
                    r == ChunkResult::<()>::Ok(()) && final(self).code@ == old(self).code@.update(
                        jmp_idx - 1,
                        (off & 0xFF) as u8,
                    ).update(jmp_idx as int, (off >> 8) as u8)
                }
            }),
    {
        let len = self.code.len();
        let next_instruction = jmp_idx + 1;

        let offset = len - next_instruction;

        if offset > 32767 {
            return Err(ChunkError::TooManyCodeToJump);
        }

        let val = offset as u16;
        let minor = ((val >> 8) & 0xFF) as u8;
        let major = (val & 0xFF) as u8;

        proof {
            let off = (old(self).code@.len() - jmp_idx - 1) as usize;
            assert(off < 0x8000);
            assert((((off as u16) >> 8) & 0xFF) == (off >> 8) as u8) by (bit_vector)
                requires
                    off < 0x8000,
            ;
            assert(((off as u16) & 0xFF) == (off & 0xFF) as u8) by (bit_vector)
                requires
                    off < 0x8000,
            ;
        }
        self.patch_code(jmp_idx - 1, major);
        self.patch_code(jmp_idx, minor);

        Ok(())
    }
}

/// A pool index below 2^24 survives the round trip through its load
/// encoding: the compact form carries the index in its one operand byte,
/// and the wide form's three little-endian operand bytes decode to it.
pub proof fn lemma_constant_encoding_round_trip(index: usize)
    requires
        index < 0x100_0000,
    ensures
        index <= 255 ==> load_encoding(index).len() == 2 && load_encoding(index)[1] == index as u8
            && (index as u8) as usize == index,
        index > 255 ==> load_encoding(index).len() == 5 && u24_le(
            load_encoding(index)[2],
            load_encoding(index)[3],
            load_encoding(index)[4],
        ) == index,
{
    if index > 255 {
        let i = index as u64;
        assert(((i & 0xFF) as u8) + (((i >> 8) & 0xFF) as u8) * 0x100 + (((i >> 16) & 0xFF) as u8)
            * 0x10000 == i) by (bit_vector)
            requires
                i < 0x100_0000,
        ;
    }
}

/// A jump offset within the signed 16-bit range survives the round trip
/// through its two little-endian operand bytes.
pub proof fn lemma_jump_offset_round_trip(off: usize)
    requires
        off <= 32767,
    ensures
        sext16(u16_le((off & 0xFF) as u8, (off >> 8) as u8)) == off,
{
    let o = off as u64;
    assert(((o & 0xFF) as u8) + ((o >> 8) as u8) * 0x100 == o) by (bit_vector)
        requires
            o <= 32767,
    ;
    assert(u16_le((off & 0xFF) as u8, (off >> 8) as u8) < 0x8000);
}

/// The forward-jump protocol round-trips: after `start_jump` hands back
/// handle `h`, any further emission, and a successful `end_jump` on code
/// `c` patching it into `c2`, the decoder's jump target — the position
/// just after the operand plus the signed decoded offset — is exactly
/// the end of `c` where `end_jump` was called.
pub proof fn lemma_jump_round_trip(c: Seq<u8>, c2: Seq<u8>, h: usize)
    requires
        1 <= h,
        h < c.len(),
        c.len() - h - 1 <= 32767,
        c2 == c.update(h - 1, ((c.len() - h - 1) as usize & 0xFF) as u8).update(
            h as int,
            (((c.len() - h - 1) as usize) >> 8) as u8,
        ),
    ensures
        h + 1 + sext16(u16_le(c2[h - 1], c2[h as int])) == c.len(),
{
    let off = (c.len() - h - 1) as usize;
    lemma_jump_offset_round_trip(off);
    assert(c2[h - 1] == (off & 0xFF) as u8);
    assert(c2[h as int] == (off >> 8) as u8);
}

} // verus!
