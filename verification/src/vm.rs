//! The executor: a synchronous fetch-decode-execute loop holding a
//! program counter and an operand stack over an immutable chunk.
//!
//! The meaning of a chunk is given by the small-step machine model
//! `step` / `run_n` below, and `execute` is proved against it: whenever
//! it returns, its outcome is exactly the halting outcome of the model.
//! The model `Crash`es where a malformed chunk would read operands past
//! the end of the code or load a constant index out of bounds; `execute`
//! requires the chunk to be crash-free — the chunk invariants that every
//! encoder-built chunk satisfies — and in return never panics. Rendered
//! output is collected in order rather than printed, so the caller
//! decides where it goes.
//!
//! As in the disassembler, the wide flag set by a `Wide` prefix is
//! consumed by the single following instruction and cleared after any
//! other decoded byte, unknown bytes included; unknown bytes are skipped.
//! `Return` halts execution. A jump lands by wrapping arithmetic on the
//! program counter, so a target outside the code ends the run normally.
use vstd::prelude::*;

use crate::chunk::Chunk;
use crate::chunk::sext16;
use crate::chunk::u16_le;
use crate::chunk::u24_le;
use crate::error::RuntimeError;
use crate::error::RuntimeResult;
use crate::opcodes::OpCode;
use crate::opcodes::byte_opcode;
use crate::value::Value;
use crate::value::add_spec;
use crate::value::div_spec;
use crate::value::idiv_spec;
use crate::value::mul_spec;
use crate::value::pow_spec;
use crate::value::rem_spec;
use crate::value::sub_spec;
use crate::value::truthy_spec;

verus! {

/// The executor's transient state in the machine model.
pub ghost struct VmState {
    /// The program counter: a byte offset into the code.
    pub pc: int,
    /// Whether a `Wide` prefix is pending for the next instruction.
    pub wide: bool,
    /// The operand stack, last element on top.
    pub stack: Seq<Value>,
    /// The values printed so far, in order.
    pub out: Seq<Value>,
}

/// What one machine step yields.
pub ghost enum Step {
    /// Execution goes on in this state.
    Next(VmState),
    /// Normal termination: the counter left the code, or `Return` ran.
    Done(VmState),
    /// Execution aborts with this error; the state is the one the
    /// failing instruction leaves behind: its pops have happened, and
    /// the counter stands after the bytes it read.
    Fail(RuntimeError, VmState),
    /// A malformed chunk: an operand read past the end of the code, or
    /// a constant index out of the pool.
    Crash,
}

/// The initial state of one execution.
pub open spec fn init_state() -> VmState {
    VmState { pc: 0, wide: false, stack: Seq::empty(), out: Seq::empty() }
}

/// Wrapping of a program-counter computation into the `usize` range.
pub open spec fn wrap_pc(i: int) -> int {
    if i < 0 {
        i + (usize::MAX + 1)
    } else if i > usize::MAX {
        i - (usize::MAX + 1)
    } else {
        i
    }
}

/// One step of the machine at state `s` over `code` and `consts`.
pub open spec fn step(code: Seq<u8>, consts: Seq<Value>, s: VmState) -> Step {
    if s.pc < 0 || s.pc >= code.len() {
        Step::Done(s)
    } else {
        let b = code[s.pc];
        let pc1 = s.pc + 1;
        match byte_opcode(b) {
            None => Step::Next(VmState { pc: pc1, wide: false, stack: s.stack, out: s.out }),
            Some(op) => match op {
                OpCode::Constant => {
                    if s.wide {
                        if pc1 + 3 > code.len() {
                            Step::Crash
                        } else {
                            let idx = u24_le(code[pc1], code[pc1 + 1], code[pc1 + 2]) as int;
                            if idx >= consts.len() {
                                Step::Crash
                            } else {
                                Step::Next(
                                    VmState {
                                        pc: pc1 + 3,
                                        wide: false,
                                        stack: s.stack.push(consts[idx]),
                                        out: s.out,
                                    },
                                )
                            }
                        }
                    } else {
                        if pc1 + 1 > code.len() {
                            Step::Crash
                        } else {
                            let idx = code[pc1] as int;
                            if idx >= consts.len() {
                                Step::Crash
                            } else {
                                Step::Next(
                                    VmState {
                                        pc: pc1 + 1,
                                        wide: false,
                                        stack: s.stack.push(consts[idx]),
                                        out: s.out,
                                    },
                                )
                            }
                        }
                    }
                },
                OpCode::Wide => Step::Next(
                    VmState { pc: pc1, wide: true, stack: s.stack, out: s.out },
                ),
                OpCode::Add => {
                    if s.stack.len() < 2 {
                        Step::Fail(
                            RuntimeError::StackUnderflow(0),
                            VmState { pc: pc1, wide: false, stack: Seq::empty(), out: s.out },
                        )
                    } else {
                        let b2 = s.stack.last();
                        let a2 = s.stack[s.stack.len() - 2];
                        Step::Next(
                            VmState {
                                pc: pc1,
                                wide: false,
                                stack: s.stack.drop_last().drop_last().push(add_spec(a2, b2)),
                                out: s.out,
                            },
                        )
                    }
                },
                OpCode::Sub => {
                    if s.stack.len() < 2 {
                        Step::Fail(
                            RuntimeError::StackUnderflow(0),
                            VmState { pc: pc1, wide: false, stack: Seq::empty(), out: s.out },
                        )
                    } else {
                        let b2 = s.stack.last();
                        let a2 = s.stack[s.stack.len() - 2];
                        Step::Next(
                            VmState {
                                pc: pc1,
                                wide: false,
                                stack: s.stack.drop_last().drop_last().push(sub_spec(a2, b2)),
                                out: s.out,
                            },
                        )
                    }
                },
                OpCode::Mul => {
                    if s.stack.len() < 2 {
                        Step::Fail(
                            RuntimeError::StackUnderflow(0),
                            VmState { pc: pc1, wide: false, stack: Seq::empty(), out: s.out },
                        )
                    } else {
                        let b2 = s.stack.last();
                        let a2 = s.stack[s.stack.len() - 2];
                        Step::Next(
                            VmState {
                                pc: pc1,
                                wide: false,
                                stack: s.stack.drop_last().drop_last().push(mul_spec(a2, b2)),
                                out: s.out,
                            },
                        )
                    }
                },
                OpCode::Mod => {
                    if s.stack.len() < 2 {
                        Step::Fail(
                            RuntimeError::StackUnderflow(0),
                            VmState { pc: pc1, wide: false, stack: Seq::empty(), out: s.out },
                        )
                    } else {
                        let b2 = s.stack.last();
                        let a2 = s.stack[s.stack.len() - 2];
                        match rem_spec(a2, b2) {
                            Err(e) => Step::Fail(
                                RuntimeError::ValueError(e),
                                VmState {
                                    pc: pc1,
                                    wide: false,
                                    stack: s.stack.drop_last().drop_last(),
                                    out: s.out,
                                },
                            ),
                            Ok(v) => Step::Next(
                                VmState {
                                    pc: pc1,
                                    wide: false,
                                    stack: s.stack.drop_last().drop_last().push(v),
                                    out: s.out,
                                },
                            ),
                        }
                    }
                },
                OpCode::Div => {
                    if s.stack.len() < 2 {
                        Step::Fail(
                            RuntimeError::StackUnderflow(0),
                            VmState { pc: pc1, wide: false, stack: Seq::empty(), out: s.out },
                        )
                    } else {
                        let b2 = s.stack.last();
                        let a2 = s.stack[s.stack.len() - 2];
                        match div_spec(a2, b2) {
                            Err(e) => Step::Fail(
                                RuntimeError::ValueError(e),
                                VmState {
                                    pc: pc1,
                                    wide: false,
                                    stack: s.stack.drop_last().drop_last(),
                                    out: s.out,
                                },
                            ),
                            Ok(v) => Step::Next(
                                VmState {
                                    pc: pc1,
                                    wide: false,
                                    stack: s.stack.drop_last().drop_last().push(v),
                                    out: s.out,
                                },
                            ),
                        }
                    }
                },
                OpCode::IDiv => {
                    if s.stack.len() < 2 {
                        Step::Fail(
                            RuntimeError::StackUnderflow(0),
                            VmState { pc: pc1, wide: false, stack: Seq::empty(), out: s.out },
                        )
                    } else {
                        let b2 = s.stack.last();
                        let a2 = s.stack[s.stack.len() - 2];
                        match idiv_spec(a2, b2) {
                            Err(e) => Step::Fail(
                                RuntimeError::ValueError(e),
                                VmState {
                                    pc: pc1,
                                    wide: false,
                                    stack: s.stack.drop_last().drop_last(),
                                    out: s.out,
                                },
                            ),
                            Ok(v) => Step::Next(
                                VmState {
                                    pc: pc1,
                                    wide: false,
                                    stack: s.stack.drop_last().drop_last().push(v),
                                    out: s.out,
                                },
                            ),
                        }
                    }
                },
                OpCode::Pow => {
                    if s.stack.len() < 2 {
                        Step::Fail(
                            RuntimeError::StackUnderflow(0),
                            VmState { pc: pc1, wide: false, stack: Seq::empty(), out: s.out },
                        )
                    } else {
                        let b2 = s.stack.last();
                        let a2 = s.stack[s.stack.len() - 2];
                        match pow_spec(a2, b2) {
                            Err(e) => Step::Fail(
                                RuntimeError::ValueError(e),
                                VmState {
                                    pc: pc1,
                                    wide: false,
                                    stack: s.stack.drop_last().drop_last(),
                                    out: s.out,
                                },
                            ),
                            Ok(v) => Step::Next(
                                VmState {
                                    pc: pc1,
                                    wide: false,
                                    stack: s.stack.drop_last().drop_last().push(v),
                                    out: s.out,
                                },
                            ),
                        }
                    }
                },
                OpCode::Jmp => {
                    if pc1 + 2 > code.len() {
                        Step::Crash
                    } else {
                        let t = wrap_pc(pc1 + 2 + sext16(u16_le(code[pc1], code[pc1 + 1])));
                        Step::Next(VmState { pc: t, wide: false, stack: s.stack, out: s.out })
                    }
                },
                OpCode::Jmpf => {
                    if pc1 + 2 > code.len() {
                        Step::Crash
                    } else if s.stack.len() < 1 {
                        Step::Fail(
                            RuntimeError::StackUnderflow(0),
                            VmState { pc: pc1 + 2, wide: false, stack: s.stack, out: s.out },
                        )
                    } else {
                        let v = s.stack.last();
                        let t = if !truthy_spec(v) {
                            wrap_pc(pc1 + 2 + sext16(u16_le(code[pc1], code[pc1 + 1])))
                        } else {
                            pc1 + 2
                        };
                        Step::Next(
                            VmState { pc: t, wide: false, stack: s.stack.drop_last(), out: s.out },
                        )
                    }
                },
                OpCode::Print => {
                    if s.stack.len() < 1 {
                        Step::Fail(
                            RuntimeError::StackUnderflow(0),
                            VmState { pc: pc1, wide: false, stack: s.stack, out: s.out },
                        )
                    } else {
                        Step::Next(
                            VmState {
                                pc: pc1,
                                wide: false,
                                stack: s.stack.drop_last(),
                                out: s.out.push(s.stack.last()),
                            },
                        )
                    }
                },
                OpCode::Pop => {
                    if s.stack.len() < 1 {
                        Step::Fail(
                            RuntimeError::StackUnderflow(0),
                            VmState { pc: pc1, wide: false, stack: s.stack, out: s.out },
                        )
                    } else {
                        Step::Next(
                            VmState { pc: pc1, wide: false, stack: s.stack.drop_last(), out: s.out },
                        )
                    }
                },
                OpCode::Return => Step::Done(
                    VmState { pc: pc1, wide: false, stack: s.stack, out: s.out },
                ),
            },
        }
    }
}

/// The machine after `n` steps from the initial state; once halted (or
/// crashed) it stays put.
pub open spec fn run_n(code: Seq<u8>, consts: Seq<Value>, n: nat) -> Step
    decreases n,
{
    if n == 0 {
        Step::Next(init_state())
    } else {
        match run_n(code, consts, (n - 1) as nat) {
            Step::Next(s) => step(code, consts, s),
            other => other,
        }
    }
}

/// A chunk is crash-free when no number of steps reaches `Crash`: every
/// operand read stays inside the code and every constant index inside
/// the pool — the invariants every encoder-built chunk satisfies.
pub open spec fn safe_chunk(code: Seq<u8>, consts: Seq<Value>) -> bool {
    forall|n: nat| !((#[trigger] run_n(code, consts, n)) is Crash)
}

/// Whether a machine outcome is a halt: normal completion or a failure.
pub open spec fn halted(st: Step) -> bool {
    st is Done || st is Fail
}

/// Whether execution of the chunk halts after some number of steps.
/// Every chunk built through the encoder API halts: its jumps only go
/// forward, so the counter grows until it leaves the code.
pub open spec fn halts(code: Seq<u8>, consts: Seq<Value>) -> bool {
    exists|n: nat| halted(#[trigger] run_n(code, consts, n))
}

/// Once halted, the machine stays in the same outcome forever.
pub proof fn lemma_halt_stable(code: Seq<u8>, consts: Seq<Value>, m: nat, n: nat)
    requires
        m <= n,
        halted(run_n(code, consts, m)),
    ensures
        run_n(code, consts, n) == run_n(code, consts, m),
    decreases n,
{
    if n > m {
        lemma_halt_stable(code, consts, m, (n - 1) as nat);
    }
}

/// Whether the machine, after `n` steps, has halted normally in a state
/// with exactly this counter, stack and output.
pub open spec fn done_at(
    code: Seq<u8>,
    consts: Seq<Value>,
    n: nat,
    pc: int,
    stack: Seq<Value>,
    out: Seq<Value>,
) -> bool {
    match run_n(code, consts, n) {
        Step::Done(s) => s.pc == pc && s.stack == stack && s.out == out,
        _ => false,
    }
}

/// Whether the machine, after `n` steps, has failed with exactly this
/// error, leaving exactly this counter, stack and output behind.
pub open spec fn failed_at(
    code: Seq<u8>,
    consts: Seq<Value>,
    n: nat,
    e: RuntimeError,
    pc: int,
    stack: Seq<Value>,
    out: Seq<Value>,
) -> bool {
    match run_n(code, consts, n) {
        Step::Fail(e2, s) => e2 == e && s.pc == pc && s.stack == stack && s.out == out,
        _ => false,
    }
}

/// Popping on an empty stack fails the step with `StackUnderflow` — for
/// every instruction that pops — and never crashes the machine.
pub proof fn lemma_underflow_fails(code: Seq<u8>, consts: Seq<Value>, s: VmState)
    requires
        0 <= s.pc < code.len(),
        s.stack.len() == 0,
        ({
            let op = byte_opcode(code[s.pc]);
            op == Some(OpCode::Add) || op == Some(OpCode::Sub) || op == Some(OpCode::Mul) || op
                == Some(OpCode::Mod) || op == Some(OpCode::Div) || op == Some(OpCode::IDiv) || op
                == Some(OpCode::Pow) || op == Some(OpCode::Print) || op == Some(OpCode::Pop)
        }),
    ensures
        step(code, consts, s) == Step::Fail(
            RuntimeError::StackUnderflow(0),
            VmState { pc: s.pc + 1, wide: false, stack: s.stack, out: s.out },
        ),
{
    assert(Seq::<Value>::empty() =~= s.stack);
}

/// One executor: a program counter and an operand stack over a borrowed,
/// immutable chunk. It performs exactly one execution of that chunk.
pub struct VM<'a> {
    /// The chunk under execution, borrowed read-only for the whole run.
    pub chunk: &'a Chunk,
    /// The program counter: a byte offset into `chunk.code`.
    pub pc: usize,
    /// The operand stack.
    pub stack: Vec<Value>,
    /// The values printed so far, for the caller to render.
    pub output: Vec<Value>,
}

impl<'a> VM<'a> {
    /// A fresh executor over `chunk`, ready to run from the start.
    pub fn new(chunk: &'a Chunk) -> (r: VM<'a>)
        ensures
            r.chunk == chunk,
            r.pc == 0,
            r.stack@ == Seq::<Value>::empty(),
            r.output@ == Seq::<Value>::empty(),
    {
        Self { chunk, pc: 0, stack: Vec::new(), output: Vec::new() }
    }

    /// Reads the byte at the counter and advances past it.
    fn read_byte(&mut self) -> (r: u8)
        requires
            old(self).pc < old(self).chunk.code@.len(),
        ensures
            final(self).chunk == old(self).chunk,
            final(self).stack == old(self).stack,
            final(self).output == old(self).output,
            final(self).pc == old(self).pc + 1,
            r == old(self).chunk.code@[old(self).pc as int],
    {
        let n = self.chunk.code.len();
        assert(self.pc < n);
        self.pc = self.pc + 1;
        self.chunk.code[self.pc - 1]
    }

    /// Reads a 3-byte little-endian index when `wide` holds, else one
    /// byte, advancing past it.
    fn read_u24(&mut self, wide: bool) -> (r: u32)
        requires
            wide ==> old(self).pc + 3 <= old(self).chunk.code@.len(),
            !wide ==> old(self).pc + 1 <= old(self).chunk.code@.len(),
        ensures
            final(self).chunk == old(self).chunk,
            final(self).stack == old(self).stack,
            final(self).output == old(self).output,
            wide ==> final(self).pc == old(self).pc + 3 && r == u24_le(
                old(self).chunk.code@[old(self).pc as int],
                old(self).chunk.code@[old(self).pc + 1],
                old(self).chunk.code@[old(self).pc + 2],
            ),
            !wide ==> final(self).pc == old(self).pc + 1 && r == old(self).chunk.code@[old(
                self,
            ).pc as int] as u32,
    {
        if wide {
            let n = self.chunk.code.len();
            assert(self.pc + 3 <= n);
            let b0 = self.chunk.code[self.pc];
            let b1 = self.chunk.code[self.pc + 1];
            let b2 = self.chunk.code[self.pc + 2];
            self.pc = self.pc + 3;
            let v: u32 = (b0 as u32) | ((b1 as u32) << 8) | ((b2 as u32) << 16);
            proof {
                assert((b0 as u32) | ((b1 as u32) << 8) | ((b2 as u32) << 16) == (b0 + b1 * 0x100
                    + b2 * 0x10000) as u32) by (bit_vector);
            }
            v
        } else {
            self.read_byte() as u32
        }
    }

    /// Reads a 2-byte little-endian operand, advancing past it.
    fn read_u16(&mut self) -> (r: u16)
        requires
            old(self).pc + 2 <= old(self).chunk.code@.len(),
        ensures
            final(self).chunk == old(self).chunk,
            final(self).stack == old(self).stack,
            final(self).output == old(self).output,
            final(self).pc == old(self).pc + 2,
            r == u16_le(
                old(self).chunk.code@[old(self).pc as int],
                old(self).chunk.code@[old(self).pc + 1],
            ),
    {
        let n = self.chunk.code.len();
        assert(self.pc + 2 <= n);
        let major = self.chunk.code[self.pc];
        let minor = self.chunk.code[self.pc + 1];
        self.pc = self.pc + 2;
        let v: u16 = (major as u16) | ((minor as u16) << 8);
        proof {
            assert((major as u16) | ((minor as u16) << 8) == (major + minor * 0x100) as u16)
                by (bit_vector);
        }
        v
    }

    /// Reads a 2-byte operand as a signed 16-bit offset.
    fn read_i16(&mut self) -> (r: i16)
        requires
            old(self).pc + 2 <= old(self).chunk.code@.len(),
        ensures
            final(self).chunk == old(self).chunk,
            final(self).stack == old(self).stack,
            final(self).output == old(self).output,
            final(self).pc == old(self).pc + 2,
            r as int == sext16(
                u16_le(
                    old(self).chunk.code@[old(self).pc as int],
                    old(self).chunk.code@[old(self).pc + 1],
                ),
            ),
    {
        let v = self.read_u16();
        if v >= 0x8000 {
            ((v as i32) - 0x10000) as i16
        } else {
            v as i16
        }
    }

    /// The source line for diagnostics. The line table is not yet
    /// populated by any front end, so every fault reports line 0.
    fn current_line(&self) -> (r: usize)
        ensures
            r == 0,
    {
        0
    }

    /// Runs the chunk to completion or to its first fault.
    ///
    /// Partial correctness against the machine model: if the call
    /// returns `Ok`, some number of model steps reaches `Done` with
    /// exactly this executor's final counter, stack and output; if it
    /// returns `Err(e)`, some number of steps reaches `Fail(e, _)` from
    /// whose state the output is this executor's final output. A
    /// non-empty stack at normal completion is a non-fatal diagnostic
    /// left observable in `stack`, not an error.
    #[verifier::rlimit(80)]
    pub fn execute(&mut self) -> (r: RuntimeResult<()>)
        requires
            old(self).pc == 0,
            old(self).stack@ == Seq::<Value>::empty(),
            old(self).output@ == Seq::<Value>::empty(),
            safe_chunk(old(self).chunk.code@, old(self).chunk.constants@),
            halts(old(self).chunk.code@, old(self).chunk.constants@),
        ensures
            final(self).chunk == old(self).chunk,
            ({
                let code = old(self).chunk.code@;
                let consts = old(self).chunk.constants@;
                match r {
                    Ok(()) => exists|n: nat|
                        #[trigger] done_at(
                            code,
                            consts,
                            n,
                            final(self).pc as int,
                            final(self).stack@,
                            final(self).output@,
                        ),
                    Err(e) => exists|n: nat|
                        #[trigger] failed_at(
                            code,
                            consts,
                            n,
                            e,
                            final(self).pc as int,
                            final(self).stack@,
                            final(self).output@,
                        ),
                }
            }),
    {
        let ghost code = self.chunk.code@;
        let ghost consts = self.chunk.constants@;
        let mut is_wide: bool = false;
        let ghost mut steps: nat = 0;
        let ghost halt_n: nat = choose|n: nat| halted(run_n(code, consts, n));

        loop
            invariant
                self.chunk == old(self).chunk,
                code == self.chunk.code@,
                consts == self.chunk.constants@,
                safe_chunk(code, consts),
                halted(run_n(code, consts, halt_n)),
                run_n(code, consts, steps) == Step::Next(
                    VmState {
                        pc: self.pc as int,
                        wide: is_wide,
                        stack: self.stack@,
                        out: self.output@,
                    },
                ),
            decreases halt_n - steps,
        {
            let ghost pre = VmState {
                pc: self.pc as int,
                wide: is_wide,
                stack: self.stack@,
                out: self.output@,
            };
            proof {
                if steps >= halt_n {
                    lemma_halt_stable(code, consts, halt_n, steps);
                }
                assert(steps < halt_n);
                assert(run_n(code, consts, steps + 1) == step(code, consts, pre));
                assert(!(run_n(code, consts, steps + 1) is Crash));
            }
            if self.pc >= self.chunk.code.len() {
                proof {
                    assert(done_at(code, consts, steps + 1, self.pc as int, self.stack@, self.output@));
                }
                return Ok(());
            }
            let byte = self.read_byte();
            let wide_now = is_wide;
            is_wide = false;

            match OpCode::from_byte(byte) {
                None => {
                    proof {
                        steps = steps + 1;
                    }
                },
                Some(instruction) => match instruction {
                    OpCode::Constant => {
                        proof {
                            assert(!(step(code, consts, pre) is Crash));
                        }
                        let index = self.read_u24(wide_now);
                        self.stack.push(self.chunk.constants[index as usize]);
                        proof {
                            steps = steps + 1;
                        }
                    },
                    OpCode::Wide => {
                        is_wide = true;
                        proof {
                            steps = steps + 1;
                        }
                    },
                    OpCode::Add => {
                        let b2 = match self.stack.pop() {
                            Some(v) => v,
                            None => {
                                proof {
                                    assert(self.stack@ =~= Seq::<Value>::empty());
                                    assert(failed_at(
                                        code,
                                        consts,
                                        steps + 1,
                                        RuntimeError::StackUnderflow(0),
                                        self.pc as int,
                                        self.stack@,
                                        self.output@,
                                    ));
                                }
                                return Err(RuntimeError::StackUnderflow(self.current_line()));
                            },
                        };
                        let a2 = match self.stack.pop() {
                            Some(v) => v,
                            None => {
                                proof {
                                    assert(self.stack@ =~= Seq::<Value>::empty());
                                    assert(failed_at(
                                        code,
                                        consts,
                                        steps + 1,
                                        RuntimeError::StackUnderflow(0),
                                        self.pc as int,
                                        self.stack@,
                                        self.output@,
                                    ));
                                }
                                return Err(RuntimeError::StackUnderflow(self.current_line()));
                            },
                        };
                        self.stack.push(a2.add(b2));
                        proof {
                            steps = steps + 1;
                        }
                    },
                    OpCode::Sub => {
                        let b2 = match self.stack.pop() {
                            Some(v) => v,
                            None => {
                                proof {
                                    assert(self.stack@ =~= Seq::<Value>::empty());
                                    assert(failed_at(
                                        code,
                                        consts,
                                        steps + 1,
                                        RuntimeError::StackUnderflow(0),
                                        self.pc as int,
                                        self.stack@,
                                        self.output@,
                                    ));
                                }
                                return Err(RuntimeError::StackUnderflow(self.current_line()));
                            },
                        };
                        let a2 = match self.stack.pop() {
                            Some(v) => v,
                            None => {
                                proof {
                                    assert(self.stack@ =~= Seq::<Value>::empty());
                                    assert(failed_at(
                                        code,
                                        consts,
                                        steps + 1,
                                        RuntimeError::StackUnderflow(0),
                                        self.pc as int,
                                        self.stack@,
                                        self.output@,
                                    ));
                                }
                                return Err(RuntimeError::StackUnderflow(self.current_line()));
                            },
                        };
                        self.stack.push(a2.sub(b2));
                        proof {
                            steps = steps + 1;
                        }
                    },
                    OpCode::Mul => {
                        let b2 = match self.stack.pop() {
                            Some(v) => v,
                            None => {
                                proof {
                                    assert(self.stack@ =~= Seq::<Value>::empty());
                                    assert(failed_at(
                                        code,
                                        consts,
                                        steps + 1,
                                        RuntimeError::StackUnderflow(0),
                                        self.pc as int,
                                        self.stack@,
                                        self.output@,
                                    ));
                                }
                                return Err(RuntimeError::StackUnderflow(self.current_line()));
                            },
                        };
                        let a2 = match self.stack.pop() {
                            Some(v) => v,
                            None => {
                                proof {
                                    assert(self.stack@ =~= Seq::<Value>::empty());
                                    assert(failed_at(
                                        code,
                                        consts,
                                        steps + 1,
                                        RuntimeError::StackUnderflow(0),
                                        self.pc as int,
                                        self.stack@,
                                        self.output@,
                                    ));
                                }
                                return Err(RuntimeError::StackUnderflow(self.current_line()));
                            },
                        };
                        self.stack.push(a2.mul(b2));
                        proof {
                            steps = steps + 1;
                        }
                    },
                    OpCode::Mod => {
                        let b2 = match self.stack.pop() {
                            Some(v) => v,
                            None => {
                                proof {
                                    assert(self.stack@ =~= Seq::<Value>::empty());
                                    assert(failed_at(
                                        code,
                                        consts,
                                        steps + 1,
                                        RuntimeError::StackUnderflow(0),
                                        self.pc as int,
                                        self.stack@,
                                        self.output@,
                                    ));
                                }
                                return Err(RuntimeError::StackUnderflow(self.current_line()));
                            },
                        };
                        let a2 = match self.stack.pop() {
                            Some(v) => v,
                            None => {
                                proof {
                                    assert(self.stack@ =~= Seq::<Value>::empty());
                                    assert(failed_at(
                                        code,
                                        consts,
                                        steps + 1,
                                        RuntimeError::StackUnderflow(0),
                                        self.pc as int,
                                        self.stack@,
                                        self.output@,
                                    ));
                                }
                                return Err(RuntimeError::StackUnderflow(self.current_line()));
                            },
                        };
                        match a2.rem(b2) {
                            Ok(v) => {
                                self.stack.push(v);
                            },
                            Err(e) => {
                                proof {
                                    assert(failed_at(
                                        code,
                                        consts,
                                        steps + 1,
                                        RuntimeError::ValueError(e),
                                        self.pc as int,
                                        self.stack@,
                                        self.output@,
                                    ));
                                }
                                return Err(RuntimeError::ValueError(e));
                            },
                        }
                        proof {
                            steps = steps + 1;
                        }
                    },
                    OpCode::Div => {
                        let b2 = match self.stack.pop() {
                            Some(v) => v,
                            None => {
                                proof {
                                    assert(self.stack@ =~= Seq::<Value>::empty());
                                    assert(failed_at(
                                        code,
                                        consts,
                                        steps + 1,
                                        RuntimeError::StackUnderflow(0),
                                        self.pc as int,
                                        self.stack@,
                                        self.output@,
                                    ));
                                }
                                return Err(RuntimeError::StackUnderflow(self.current_line()));
                            },
                        };
                        let a2 = match self.stack.pop() {
                            Some(v) => v,
                            None => {
                                proof {
                                    assert(self.stack@ =~= Seq::<Value>::empty());
                                    assert(failed_at(
                                        code,
                                        consts,
                                        steps + 1,
                                        RuntimeError::StackUnderflow(0),
                                        self.pc as int,
                                        self.stack@,
                                        self.output@,
                                    ));
                                }
                                return Err(RuntimeError::StackUnderflow(self.current_line()));
                            },
                        };
                        match a2.div(b2) {
                            Ok(v) => {
                                self.stack.push(v);
                            },
                            Err(e) => {
                                proof {
                                    assert(failed_at(
                                        code,
                                        consts,
                                        steps + 1,
                                        RuntimeError::ValueError(e),
                                        self.pc as int,
                                        self.stack@,
                                        self.output@,
                                    ));
                                }
                                return Err(RuntimeError::ValueError(e));
                            },
                        }
                        proof {
                            steps = steps + 1;
                        }
                    },
                    OpCode::IDiv => {
                        let b2 = match self.stack.pop() {
                            Some(v) => v,
                            None => {
                                proof {
                                    assert(self.stack@ =~= Seq::<Value>::empty());
                                    assert(failed_at(
                                        code,
                                        consts,
                                        steps + 1,
                                        RuntimeError::StackUnderflow(0),
                                        self.pc as int,
                                        self.stack@,
                                        self.output@,
                                    ));
                                }
                                return Err(RuntimeError::StackUnderflow(self.current_line()));
                            },
                        };
                        let a2 = match self.stack.pop() {
                            Some(v) => v,
                            None => {
                                proof {
                                    assert(self.stack@ =~= Seq::<Value>::empty());
                                    assert(failed_at(
                                        code,
                                        consts,
                                        steps + 1,
                                        RuntimeError::StackUnderflow(0),
                                        self.pc as int,
                                        self.stack@,
                                        self.output@,
                                    ));
                                }
                                return Err(RuntimeError::StackUnderflow(self.current_line()));
                            },
                        };
                        match a2.idiv(b2) {
                            Ok(v) => {
                                self.stack.push(v);
                            },
                            Err(e) => {
                                proof {
                                    assert(failed_at(
                                        code,
                                        consts,
                                        steps + 1,
                                        RuntimeError::ValueError(e),
                                        self.pc as int,
                                        self.stack@,
                                        self.output@,
                                    ));
                                }
                                return Err(RuntimeError::ValueError(e));
                            },
                        }
                        proof {
                            steps = steps + 1;
                        }
                    },
                    OpCode::Pow => {
                        let b2 = match self.stack.pop() {
                            Some(v) => v,
                            None => {
                                proof {
                                    assert(self.stack@ =~= Seq::<Value>::empty());
                                    assert(failed_at(
                                        code,
                                        consts,
                                        steps + 1,
                                        RuntimeError::StackUnderflow(0),
                                        self.pc as int,
                                        self.stack@,
                                        self.output@,
                                    ));
                                }
                                return Err(RuntimeError::StackUnderflow(self.current_line()));
                            },
                        };
                        let a2 = match self.stack.pop() {
                            Some(v) => v,
                            None => {
                                proof {
                                    assert(self.stack@ =~= Seq::<Value>::empty());
                                    assert(failed_at(
                                        code,
                                        consts,
                                        steps + 1,
                                        RuntimeError::StackUnderflow(0),
                                        self.pc as int,
                                        self.stack@,
                                        self.output@,
                                    ));
                                }
                                return Err(RuntimeError::StackUnderflow(self.current_line()));
                            },
                        };
                        match a2.pow(b2) {
                            Ok(v) => {
                                self.stack.push(v);
                            },
                            Err(e) => {
                                proof {
                                    assert(failed_at(
                                        code,
                                        consts,
                                        steps + 1,
                                        RuntimeError::ValueError(e),
                                        self.pc as int,
                                        self.stack@,
                                        self.output@,
                                    ));
                                }
                                return Err(RuntimeError::ValueError(e));
                            },
                        }
                        proof {
                            steps = steps + 1;
                        }
                    },
                    OpCode::Jmp => {
                        proof {
                            assert(!(step(code, consts, pre) is Crash));
                        }
                        let pos = self.read_i16();
                        self.pc =
                        if pos >= 0 {
                            self.pc.wrapping_add(pos as usize)
                        } else {
                            self.pc.wrapping_sub((-(pos as i32)) as usize)
                        };
                        proof {
                            steps = steps + 1;
                        }
                    },
                    OpCode::Jmpf => {
                        proof {
                            assert(!(step(code, consts, pre) is Crash));
                        }
                        let pos = self.read_i16();
                        let cond = match self.stack.pop() {
                            Some(v) => v,
                            None => {
                                proof {
                                    assert(self.stack@ =~= Seq::<Value>::empty());
                                    assert(failed_at(
                                        code,
                                        consts,
                                        steps + 1,
                                        RuntimeError::StackUnderflow(0),
                                        self.pc as int,
                                        self.stack@,
                                        self.output@,
                                    ));
                                }
                                return Err(RuntimeError::StackUnderflow(self.current_line()));
                            },
                        };
                        if !cond.truthy() {
                            self.pc =
                            if pos >= 0 {
                                self.pc.wrapping_add(pos as usize)
                            } else {
                                self.pc.wrapping_sub((-(pos as i32)) as usize)
                            };
                        }
                        proof {
                            steps = steps + 1;
                        }
                    },
                    OpCode::Print => {
                        let v = match self.stack.pop() {
                            Some(v) => v,
                            None => {
                                proof {
                                    assert(self.stack@ =~= Seq::<Value>::empty());
                                    assert(failed_at(
                                        code,
                                        consts,
                                        steps + 1,
                                        RuntimeError::StackUnderflow(0),
                                        self.pc as int,
                                        self.stack@,
                                        self.output@,
                                    ));
                                }
                                return Err(RuntimeError::StackUnderflow(self.current_line()));
                            },
                        };
                        self.output.push(v);
                        proof {
                            steps = steps + 1;
                        }
                    },
                    OpCode::Pop => {
                        match self.stack.pop() {
                            Some(_) => {
                            },
                            None => {
                                proof {
                                    assert(self.stack@ =~= Seq::<Value>::empty());
                                    assert(failed_at(
                                        code,
                                        consts,
                                        steps + 1,
                                        RuntimeError::StackUnderflow(0),
                                        self.pc as int,
                                        self.stack@,
                                        self.output@,
                                    ));
                                }
                                return Err(RuntimeError::StackUnderflow(self.current_line()));
                            },
                        }
                        proof {
                            steps = steps + 1;
                        }
                    },
                    OpCode::Return => {
                        proof {
                            assert(done_at(code, consts, steps + 1, self.pc as int, self.stack@, self.output@));
                        }
                        return Ok(());
                    },
                },
            }
        }
    }
}

} // verus!
