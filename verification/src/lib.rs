//! A stack-based bytecode virtual machine: chunks of encoded instructions
//! with a constant pool, a disassembler, and an execution engine over a
//! small numeric value model.
use vstd::prelude::*;

pub mod chunk;
pub mod disasm;
pub mod error;
pub mod floats;
pub mod opcodes;
pub mod text;
pub mod value;
pub mod vm;

use crate::chunk::Chunk;
use crate::error::InterpreterError;
use crate::error::InterpreterResult;
use crate::opcodes::OpCode;
use crate::value::Value;
use crate::vm::VM;

verus! {

/// Kinds of heap objects reserved for future extensions of the value model.
#[derive(Clone, Copy)]
pub enum ObjType {
    String,
    Function,
    NativeFunction,
}

/// A heap object header, reserved for future extensions of the value model.
#[derive(Clone, Copy)]
pub struct Obj {
    pub kind: ObjType,
}

/// The code bytes of the sample program that `run` builds.
pub open spec fn sample_code() -> Seq<u8> {
    seq![11u8, 6, 0, 1, 0, 1, 1, 10, 14, 1, 2, 12, 3, 0, 1, 3, 14, 1, 4, 14]
}

/// The constant pool of the sample program that `run` builds.
pub open spec fn sample_consts() -> Seq<Value> {
    seq![
        Value::Int(25),
        Value::Num(0x3FE0_0000_0000_0000),
        Value::Int(1),
        Value::Int(1),
        Value::Int(2),
    ]
}

/// The machine trajectory of the sample program, step by step: a jump
/// over the power demonstration, a truthy condition that skips its
/// conditional jump, and two prints.
pub open spec fn sample_state(n: nat) -> vm::Step {
    if n == 0 {
        vm::Step::Next(vm::VmState { pc: 0, wide: false, stack: Seq::empty(), out: Seq::empty() })
    } else if n == 1 {
        vm::Step::Next(vm::VmState { pc: 9, wide: false, stack: Seq::empty(), out: Seq::empty() })
    } else if n == 2 {
        vm::Step::Next(
            vm::VmState { pc: 11, wide: false, stack: seq![Value::Int(1)], out: Seq::empty() },
        )
    } else if n == 3 {
        vm::Step::Next(vm::VmState { pc: 14, wide: false, stack: Seq::empty(), out: Seq::empty() })
    } else if n == 4 {
        vm::Step::Next(
            vm::VmState { pc: 16, wide: false, stack: seq![Value::Int(1)], out: Seq::empty() },
        )
    } else if n == 5 {
        vm::Step::Next(
            vm::VmState { pc: 17, wide: false, stack: Seq::empty(), out: seq![Value::Int(1)] },
        )
    } else if n == 6 {
        vm::Step::Next(
            vm::VmState {
                pc: 19,
                wide: false,
                stack: seq![Value::Int(2)],
                out: seq![Value::Int(1)],
            },
        )
    } else if n == 7 {
        vm::Step::Next(
            vm::VmState {
                pc: 20,
                wide: false,
                stack: Seq::empty(),
                out: seq![Value::Int(1), Value::Int(2)],
            },
        )
    } else {
        vm::Step::Done(
            vm::VmState {
                pc: 20,
                wide: false,
                stack: Seq::empty(),
                out: seq![Value::Int(1), Value::Int(2)],
            },
        )
    }
}

/// The sample program follows its trajectory exactly.
#[verifier::rlimit(100)]
pub proof fn lemma_sample_run(n: nat)
    ensures
        vm::run_n(sample_code(), sample_consts(), n) == sample_state(n),
    decreases n,
{
    if n > 0 {
        lemma_sample_run((n - 1) as nat);
        let code = sample_code();
        let consts = sample_consts();
        assert(code.len() == 20);
        assert(code[0] == 11u8 && code[1] == 6 && code[2] == 0 && code[3] == 1 && code[4] == 0
            && code[5] == 1 && code[6] == 1 && code[7] == 10 && code[8] == 14 && code[9] == 1);
        assert(code[10] == 2 && code[11] == 12 && code[12] == 3 && code[13] == 0 && code[14] == 1
            && code[15] == 3 && code[16] == 14 && code[17] == 1 && code[18] == 4 && code[19]
            == 14);
        assert(consts.len() == 5 && consts[2] == Value::Int(1) && consts[3] == Value::Int(1)
            && consts[4] == Value::Int(2));
        assert(seq![Value::Int(1)].drop_last() =~= Seq::<Value>::empty());
        assert(seq![Value::Int(2)].drop_last() =~= Seq::<Value>::empty());
        assert(Seq::<Value>::empty().push(Value::Int(1)) =~= seq![Value::Int(1)]);
        assert(Seq::<Value>::empty().push(Value::Int(2)) =~= seq![Value::Int(2)]);
        assert(seq![Value::Int(1)].push(Value::Int(2)) =~= seq![Value::Int(1), Value::Int(2)]);
        assert(Seq::<Value>::empty().push(Value::Int(1)) =~= seq![Value::Int(1)]);
    }
}

/// The sample program never crashes nor fails, and halts.
pub proof fn lemma_sample_props()
    ensures
        vm::safe_chunk(sample_code(), sample_consts()),
        vm::halts(sample_code(), sample_consts()),
        forall|n: nat| !((#[trigger] vm::run_n(sample_code(), sample_consts(), n)) is Fail),
{
    assert forall|n: nat|
        !((#[trigger] vm::run_n(sample_code(), sample_consts(), n)) is Crash) && !(vm::run_n(
            sample_code(),
            sample_consts(),
            n,
        ) is Fail) by {
        lemma_sample_run(n);
    }
    lemma_sample_run(8);
    assert(vm::halted(vm::run_n(sample_code(), sample_consts(), 8)));
}

/// The sample program's listing decodes without error.
#[verifier::rlimit(100)]
proof fn lemma_sample_listing()
    ensures
        disasm::listing(sample_code(), sample_consts(), 0, false) is Ok,
{
    reveal_with_fuel(disasm::listing, 13);
}

/// Builds the sample program through the encoder API, disassembles it,
/// executes it, and hands back the listing and the rendered output —
/// which is exactly the lines `1` and `2`.
pub fn run() -> (r: InterpreterResult<(Vec<String>, Vec<String>)>)
    ensures
        r is Ok,
        (r matches Ok(p) ==> p.1@.map_values(|s: String| s@) == seq!["1"@, "2"@]),
{
    let mut chunk = Chunk::new();

    let some_jmp = chunk.start_jump(OpCode::Jmp);

    chunk.write_constant(Value::Int(25));
    chunk.write_constant(Value::Num(0x3FE0_0000_0000_0000));

    chunk.emit_byte(OpCode::Pow);
    chunk.emit_byte(OpCode::Print);

    match chunk.end_jump(some_jmp) {
        Ok(()) => (),
        Err(e) => {
            proof {
                assert(false);
            }
            return Err(InterpreterError::ChunkError(e));
        },
    }

    chunk.write_constant(Value::Int(1));
    let another_jump = chunk.start_jump(OpCode::Jmpf);

    chunk.write_constant(Value::Int(1));
    chunk.emit_byte(OpCode::Print);

    match chunk.end_jump(another_jump) {
        Ok(()) => (),
        Err(e) => {
            proof {
                assert(false);
            }
            return Err(InterpreterError::ChunkError(e));
        },
    }

    chunk.write_constant(Value::Int(2));
    chunk.emit_byte(OpCode::Print);

    proof {
        assert((6usize & 0xFF) as u8 == 6u8) by (bit_vector);
        assert((6usize >> 8) as u8 == 0u8) by (bit_vector);
        assert((3usize & 0xFF) as u8 == 3u8) by (bit_vector);
        assert((3usize >> 8) as u8 == 0u8) by (bit_vector);
        assert(chunk.code@ =~= sample_code());
        assert(chunk.constants@ =~= sample_consts());
        lemma_sample_props();
        lemma_sample_listing();
    }

    let listing_lines = match chunk.disassemble() {
        Ok(v) => v,
        Err(e) => {
            proof {
                assert(false);
            }
            return Err(InterpreterError::DisasmError(e));
        },
    };

    let mut vm_run = VM::new(&chunk);
    match vm_run.execute() {
        Ok(()) => (),
        Err(e) => {
            proof {
                assert(false);
            }
            return Err(InterpreterError::RuntimeError(e));
        },
    }

    proof {
        assert forall|n: nat|
            vm::done_at(
                sample_code(),
                sample_consts(),
                n,
                vm_run.pc as int,
                vm_run.stack@,
                vm_run.output@,
            ) implies vm_run.output@ == seq![Value::Int(1), Value::Int(2)] by {
            lemma_sample_run(n);
        }
    }
    assert(vm_run.output@ == seq![Value::Int(1), Value::Int(2)]);

    let mut rendered: Vec<String> = Vec::new();
    let first = text::render_value(vm_run.output[0]);
    rendered.push(first);
    let second = text::render_value(vm_run.output[1]);
    rendered.push(second);
    proof {
        reveal_strlit("1");
        reveal_strlit("2");
        assert(text::value_text(Value::Int(1)) =~= "1"@);
        assert(text::value_text(Value::Int(2)) =~= "2"@);
        assert(rendered@.map_values(|s: String| s@) =~= seq!["1"@, "2"@]);
    }

    Ok((listing_lines, rendered))
}

} // verus!
