use plum::chunk::Chunk;
use plum::error::ChunkError;
use plum::opcodes::OpCode;
use plum::value::Value;
use plum::vm::VM;

#[test]
fn write_constant_compact_form() {
    let mut c = Chunk::new();
    c.write_constant(Value::Int(7));
    assert_eq!(c.code, vec![1, 0]);
    c.write_constant(Value::Int(8));
    assert_eq!(c.code, vec![1, 0, 1, 1]);
    assert_eq!(c.constants, vec![Value::Int(7), Value::Int(8)]);
}

#[test]
fn write_constant_compact_up_to_index_255() {
    let mut c = Chunk::new();
    for i in 0..256 {
        c.write_constant(Value::Int(i));
    }
    // every load so far is the 2-byte form
    assert_eq!(c.code.len(), 512);
    let before = c.code.len();
    c.write_constant(Value::Int(256));
    // pool size 256 before the call: the new load is the wide 5-byte form
    assert_eq!(c.code.len(), before + 5);
    assert_eq!(&c.code[before..], &[2, 1, 0, 1, 0]);
}

#[test]
fn emit_helpers() {
    let mut c = Chunk::new();
    c.emit_byte(OpCode::Add);
    c.emit_pop();
    c.emit_return();
    c.emit_bytes(&[9, 9]);
    assert_eq!(c.code, vec![4, 3, 13, 9, 9]);
    c.patch_code(3, 7);
    assert_eq!(c.code, vec![4, 3, 13, 7, 9]);
    c.emit_byte(OpCode::Wide);
    assert!(c.is_wide());
    c.emit_byte(OpCode::Pop);
    assert!(!c.is_wide());
}

#[test]
fn jump_backpatching_little_endian() {
    let mut c = Chunk::new();
    let h = c.start_jump(OpCode::Jmp);
    assert_eq!(h, 2);
    assert_eq!(c.code, vec![11, 0xFF, 0xFF]);
    for _ in 0..300 {
        c.emit_byte(OpCode::Pop);
    }
    assert_eq!(c.end_jump(h), Ok(()));
    // 300 = 0x012C, low byte first
    assert_eq!(c.code[1], 0x2C);
    assert_eq!(c.code[2], 0x01);
}

#[test]
fn jump_lands_after_patched_region() {
    // Jmp over a load+print of 111; then load+print of 222.
    let mut c = Chunk::new();
    let h = c.start_jump(OpCode::Jmp);
    c.write_constant(Value::Int(111));
    c.emit_byte(OpCode::Print);
    assert_eq!(c.end_jump(h), Ok(()));
    c.write_constant(Value::Int(222));
    c.emit_byte(OpCode::Print);

    let mut vm = VM::new(&c);
    assert_eq!(vm.execute(), Ok(()));
    assert_eq!(vm.output, vec![Value::Int(222)]);
    assert!(vm.stack.is_empty());
}

#[test]
fn jump_offset_at_limit_is_fine() {
    let mut c = Chunk::new();
    let h = c.start_jump(OpCode::Jmp);
    let filler = vec![3u8; 32767];
    c.emit_bytes(&filler);
    assert_eq!(c.end_jump(h), Ok(()));
}

#[test]
fn jump_too_far_fails_at_end_jump_time() {
    let mut c = Chunk::new();
    let h = c.start_jump(OpCode::Jmp);
    let filler = vec![3u8; 32768];
    c.emit_bytes(&filler);
    assert_eq!(c.end_jump(h), Err(ChunkError::TooManyCodeToJump));
    // the placeholder bytes are untouched
    assert_eq!(c.code[1], 0xFF);
    assert_eq!(c.code[2], 0xFF);
}

#[test]
fn wide_load_round_trip() {
    // Scenario: 300 constants, then one more write_constant; the 301st
    // load uses the wide form, disassembles to the stored value, and
    // executing pushes it.
    let mut c = Chunk::new();
    for i in 0..300 {
        c.write_constant(Value::Int(i));
    }
    // 256 compact loads of 2 bytes, then 44 wide loads of 5 bytes
    let before = c.code.len();
    assert_eq!(before, 256 * 2 + 44 * 5);
    c.write_constant(Value::Int(12345));
    assert_eq!(c.code.len(), before + 5);
    assert_eq!(&c.code[before..], &[2, 1, 44, 1, 0]);

    let listing = c.disassemble().expect("listing");
    // one line per compact load, two (Wide + Constant) per wide load
    assert_eq!(listing.len(), 256 + 45 * 2);
    assert_eq!(listing[344], " 732 Wide");
    assert_eq!(listing[345], " 733 Constant 300 (12345)");

    let mut vm = VM::new(&c);
    assert_eq!(vm.execute(), Ok(()));
    assert_eq!(vm.stack.len(), 301);
    assert_eq!(vm.stack[300], Value::Int(12345));
    assert!(vm.output.is_empty());
}
