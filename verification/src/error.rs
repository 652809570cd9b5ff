//! The error taxonomy: value-level domain errors, runtime faults of the
//! executor, decode errors of the disassembler, encoder failures, and the
//! top-level error that wraps them all.
use vstd::prelude::*;

verus! {

/// A domain error raised while applying an arithmetic operator to values.
#[derive(Clone, Copy, PartialEq, Eq, Structural, Debug)]
pub enum ValueError {
    /// Division (or modulo) by an operand that is exactly zero.
    FloatPointException(),
    /// An integer power whose exponent is negative.
    NegativeExponent(),
}

/// A fault raised by the executor while running a chunk.
#[derive(Clone, Copy, PartialEq, Eq, Structural, Debug)]
pub enum RuntimeError {
    /// An arithmetic instruction failed on its operands.
    ValueError(ValueError),
    /// A pop was attempted on an empty operand stack, at the given line.
    StackUnderflow(usize),
    /// Reserved: a stack depth bound was exceeded. Never raised today.
    StackOverflow(usize),
}

/// A decode error raised by the disassembler.
#[derive(Clone, Copy, PartialEq, Eq, Structural, Debug)]
pub enum DisasmError {
    /// A constant-load instruction named a pool index that is out of bounds.
    UnkownConstant(usize),
    /// A byte with no opcode mapping stood where one was required.
    UnknownOpCode(usize),
}

/// A failure of the chunk encoder.
#[derive(Clone, Copy, PartialEq, Eq, Structural, Debug)]
pub enum ChunkError {
    /// A forward jump spans more bytes than a signed 16-bit offset holds.
    TooManyCodeToJump,
}

/// Any error of the interpreter: one of the component errors, wrapped.
#[derive(Clone, Copy, PartialEq, Eq, Structural, Debug)]
pub enum InterpreterError {
    RuntimeError(RuntimeError),
    DisasmError(DisasmError),
    ChunkError(ChunkError),
}

impl From<RuntimeError> for InterpreterError {
    fn from(e: RuntimeError) -> (r: InterpreterError) {
        InterpreterError::RuntimeError(e)
    }
}

impl vstd::std_specs::convert::FromSpecImpl<RuntimeError> for InterpreterError {
    open spec fn obeys_from_spec() -> bool {
        true
    }

    open spec fn from_spec(e: RuntimeError) -> InterpreterError {
        InterpreterError::RuntimeError(e)
    }
}

impl From<DisasmError> for InterpreterError {
    fn from(e: DisasmError) -> (r: InterpreterError) {
        InterpreterError::DisasmError(e)
    }
}

impl vstd::std_specs::convert::FromSpecImpl<DisasmError> for InterpreterError {
    open spec fn obeys_from_spec() -> bool {
        true
    }

    open spec fn from_spec(e: DisasmError) -> InterpreterError {
        InterpreterError::DisasmError(e)
    }
}

impl From<ChunkError> for InterpreterError {
    fn from(e: ChunkError) -> (r: InterpreterError) {
        InterpreterError::ChunkError(e)
    }
}

impl vstd::std_specs::convert::FromSpecImpl<ChunkError> for InterpreterError {
    open spec fn obeys_from_spec() -> bool {
        true
    }

    open spec fn from_spec(e: ChunkError) -> InterpreterError {
        InterpreterError::ChunkError(e)
    }
}

pub type InterpreterResult<T> = Result<T, InterpreterError>;

pub type DisasmResult<T> = Result<T, DisasmError>;

pub type RuntimeResult<T> = Result<T, RuntimeError>;

pub type ValueResult<T> = Result<T, ValueError>;

pub type ChunkResult<T> = Result<T, ChunkError>;

} // verus!
