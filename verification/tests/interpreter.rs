use plum::chunk::Chunk;
use plum::error::DisasmError;
use plum::error::RuntimeError;
use plum::error::ValueError;
use plum::opcodes::OpCode;
use plum::text::render_value;
use plum::value::Value;
use plum::vm::VM;

#[test]
fn scenario_division_by_zero() {
    // load 10, load 0, Div, Print: fails before any output is produced
    let mut c = Chunk::new();
    c.write_constant(Value::Int(10));
    c.write_constant(Value::Int(0));
    c.emit_byte(OpCode::Div);
    c.emit_byte(OpCode::Print);

    let mut vm = VM::new(&c);
    assert_eq!(
        vm.execute(),
        Err(RuntimeError::ValueError(ValueError::FloatPointException()))
    );
    assert!(vm.output.is_empty());
}

#[test]
fn scenario_add_prints_30() {
    let mut c = Chunk::new();
    c.write_constant(Value::Int(10));
    c.write_constant(Value::Int(20));
    c.emit_byte(OpCode::Add);
    c.emit_byte(OpCode::Print);

    let mut vm = VM::new(&c);
    assert_eq!(vm.execute(), Ok(()));
    assert_eq!(vm.output, vec![Value::Int(30)]);
    assert_eq!(render_value(vm.output[0]), "30");
}

#[test]
fn scenario_integer_division_prints_float() {
    let mut c = Chunk::new();
    c.write_constant(Value::Int(10));
    c.write_constant(Value::Int(4));
    c.emit_byte(OpCode::Div);
    c.emit_byte(OpCode::Print);

    let mut vm = VM::new(&c);
    assert_eq!(vm.execute(), Ok(()));
    assert_eq!(vm.output, vec![Value::Num(2.5f64.to_bits())]);
    assert_eq!(render_value(vm.output[0]), "2.5");
}

#[test]
fn stack_underflow_on_empty_pop() {
    for op in [OpCode::Add, OpCode::Sub, OpCode::Div, OpCode::Print, OpCode::Pop] {
        let mut c = Chunk::new();
        c.emit_byte(op);
        let mut vm = VM::new(&c);
        assert_eq!(vm.execute(), Err(RuntimeError::StackUnderflow(0)));
    }
}

#[test]
fn jmpf_underflow_on_empty_stack() {
    let mut c = Chunk::new();
    c.emit_bytes(&[12, 0, 0]);
    let mut vm = VM::new(&c);
    assert_eq!(vm.execute(), Err(RuntimeError::StackUnderflow(0)));
}

#[test]
fn stack_underflow_with_one_operand() {
    let mut c = Chunk::new();
    c.write_constant(Value::Int(1));
    c.emit_byte(OpCode::Add);
    let mut vm = VM::new(&c);
    assert_eq!(vm.execute(), Err(RuntimeError::StackUnderflow(0)));
}

#[test]
fn jmpf_jumps_on_false() {
    // load 0; Jmpf over (load 111, Print); load 222, Print
    let mut c = Chunk::new();
    c.write_constant(Value::Int(0));
    let h = c.start_jump(OpCode::Jmpf);
    c.write_constant(Value::Int(111));
    c.emit_byte(OpCode::Print);
    assert_eq!(c.end_jump(h), Ok(()));
    c.write_constant(Value::Int(222));
    c.emit_byte(OpCode::Print);

    let mut vm = VM::new(&c);
    assert_eq!(vm.execute(), Ok(()));
    assert_eq!(vm.output, vec![Value::Int(222)]);
}

#[test]
fn jmpf_falls_through_on_true() {
    let mut c = Chunk::new();
    c.write_constant(Value::Int(1));
    let h = c.start_jump(OpCode::Jmpf);
    c.write_constant(Value::Int(111));
    c.emit_byte(OpCode::Print);
    assert_eq!(c.end_jump(h), Ok(()));
    c.write_constant(Value::Int(222));
    c.emit_byte(OpCode::Print);

    let mut vm = VM::new(&c);
    assert_eq!(vm.execute(), Ok(()));
    assert_eq!(vm.output, vec![Value::Int(111), Value::Int(222)]);
}

#[test]
fn jmpf_condition_zero_float_is_false() {
    let mut c = Chunk::new();
    c.write_constant(Value::Num(0.0f64.to_bits()));
    let h = c.start_jump(OpCode::Jmpf);
    c.write_constant(Value::Int(111));
    c.emit_byte(OpCode::Print);
    assert_eq!(c.end_jump(h), Ok(()));

    let mut vm = VM::new(&c);
    assert_eq!(vm.execute(), Ok(()));
    assert!(vm.output.is_empty());
}

#[test]
fn return_halts_execution() {
    let mut c = Chunk::new();
    c.write_constant(Value::Int(1));
    c.emit_return();
    c.write_constant(Value::Int(2));
    c.emit_byte(OpCode::Print);

    let mut vm = VM::new(&c);
    assert_eq!(vm.execute(), Ok(()));
    assert!(vm.output.is_empty());
    // the leftover operand stays observable: a non-fatal diagnostic
    assert_eq!(vm.stack, vec![Value::Int(1)]);
}

#[test]
fn unknown_byte_is_skipped() {
    let mut c = Chunk::new();
    c.emit_bytes(&[99]);
    let mut vm = VM::new(&c);
    assert_eq!(vm.execute(), Ok(()));
}

#[test]
fn pow_and_modulo_through_vm() {
    let mut c = Chunk::new();
    c.write_constant(Value::Int(2));
    c.write_constant(Value::Int(10));
    c.emit_byte(OpCode::Pow);
    c.write_constant(Value::Int(1000));
    c.emit_byte(OpCode::Mod);
    c.emit_byte(OpCode::Print);

    let mut vm = VM::new(&c);
    assert_eq!(vm.execute(), Ok(()));
    assert_eq!(vm.output, vec![Value::Int(24)]);
}

#[test]
fn idiv_through_vm() {
    let mut c = Chunk::new();
    c.write_constant(Value::Int(7));
    c.write_constant(Value::Int(2));
    c.emit_byte(OpCode::IDiv);
    c.emit_byte(OpCode::Print);

    let mut vm = VM::new(&c);
    assert_eq!(vm.execute(), Ok(()));
    assert_eq!(vm.output, vec![Value::Int(3)]);
}

#[test]
fn disassemble_simple_listing() {
    let mut c = Chunk::new();
    c.write_constant(Value::Int(10));
    c.write_constant(Value::Int(20));
    c.emit_byte(OpCode::Add);
    c.emit_byte(OpCode::Print);

    let listing = c.disassemble().expect("listing");
    assert_eq!(
        listing,
        vec![
            "   0 Constant 0 (10)",
            "   2 Constant 1 (20)",
            "   4 Add",
            "   5 Print",
        ]
    );
}

#[test]
fn disassemble_unknown_constant_errors() {
    let mut c = Chunk::new();
    c.emit_bytes(&[1, 5]);
    assert_eq!(c.disassemble(), Err(DisasmError::UnkownConstant(5)));
}

#[test]
fn disassemble_unknown_byte_placeholder() {
    let mut c = Chunk::new();
    c.emit_bytes(&[99]);
    assert_eq!(c.disassemble(), Ok(vec!["   0 UNKNOWN".to_string()]));
}

#[test]
fn disassemble_truncated_operand_placeholder() {
    let mut c = Chunk::new();
    c.emit_bytes(&[1]);
    assert_eq!(c.disassemble(), Ok(vec!["   0 UNKNOWN".to_string()]));
}

#[test]
fn modulo_by_zero_through_vm() {
    let mut c = Chunk::new();
    c.write_constant(Value::Int(10));
    c.write_constant(Value::Int(0));
    c.emit_byte(OpCode::Mod);
    let mut vm = VM::new(&c);
    assert_eq!(
        vm.execute(),
        Err(RuntimeError::ValueError(ValueError::FloatPointException()))
    );
}

#[test]
fn run_demo_program() {
    let (listing, output) = plum::run().expect("run");
    assert_eq!(output, vec!["1", "2"]);
    assert_eq!(listing.len(), 11);
    assert_eq!(listing[0], "   0 Jmp 9");
    assert_eq!(listing[2], "   5 Constant 1 (0.5)");
    assert_eq!(listing[6], "  11 Jmpf 17");
    assert_eq!(listing[3], "   7 Pow");
}
