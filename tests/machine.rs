use synacor_vm::vm::{Event, Stop, VmError, VM};

fn image(words: &[u16]) -> Vec<u8> {
    let mut bytes = Vec::new();
    for w in words {
        bytes.push((*w & 0xff) as u8);
        bytes.push((*w >> 8) as u8);
    }
    bytes
}

fn load(words: &[u16]) -> VM {
    VM::from_data(&image(words)).unwrap()
}

const R0: u16 = 32768;
const R1: u16 = 32769;
const R2: u16 = 32770;
const R3: u16 = 32771;

#[test]
fn halt_image_halts_with_no_output() {
    let mut vm = load(&[0, 0]);
    let mut out = Vec::new();
    assert_eq!(vm.run(&mut out, 100), Ok(Stop::Halted));
    assert!(out.is_empty());
    assert_eq!(vm.pc(), 0);
}

#[test]
fn set_then_out_emits_one_byte() {
    let mut vm = load(&[1, R0, 5, 19, R0, 0]);
    let mut out = Vec::new();
    assert_eq!(vm.run(&mut out, 100), Ok(Stop::Halted));
    assert_eq!(out, vec![5u8]);
}

#[test]
fn add_mixes_raw_target_and_values() {
    let mut vm = load(&[2, 1, 2, 2, 9, R0, 2, 3, 0]);
    let mut out = Vec::new();
    assert_eq!(vm.run(&mut out, 100), Ok(Stop::Halted));
    assert_eq!(vm.register(0), 5);
    assert_eq!(vm.stack_depth(), 2);
}

#[test]
fn add_wraps_at_fifteen_bits() {
    let mut vm = load(&[9, R0, 32767, 1, 10, R1, 32767, 32767, 0]);
    let mut out = Vec::new();
    assert_eq!(vm.run(&mut out, 100), Ok(Stop::Halted));
    assert_eq!(vm.register(0), 0);
    assert_eq!(vm.register(1), 1);
}

#[test]
fn comparisons_and_bitwise() {
    let mut vm = load(&[
        4, 0, 7, 7, 5, 1, 3, 7, 12, 2, 12, 10, 13, 3, 12, 3, 11, 4, 17, 5, 0,
    ]);
    let mut out = Vec::new();
    assert_eq!(vm.run(&mut out, 100), Ok(Stop::Halted));
    assert_eq!(vm.register(0), 1);
    assert_eq!(vm.register(1), 0);
    assert_eq!(vm.register(2), 8);
    assert_eq!(vm.register(3), 15);
    assert_eq!(vm.register(4), 2);
}

#[test]
fn not_twice_restores() {
    let mut vm = load(&[14, R0, 5, 14, R1, R0, 14, R2, 0, 0]);
    let mut out = Vec::new();
    assert_eq!(vm.run(&mut out, 100), Ok(Stop::Halted));
    assert_eq!(vm.register(0), 32762);
    assert_eq!(vm.register(1), 5);
    assert_eq!(vm.register(2), 32767);
}

#[test]
fn push_then_pop_restores() {
    let mut vm = load(&[1, R1, 1234, 2, R1, 3, R2, 0]);
    let mut out = Vec::new();
    assert_eq!(vm.run(&mut out, 100), Ok(Stop::Halted));
    assert_eq!(vm.register(2), 1234);
    assert_eq!(vm.stack_depth(), 0);
}

#[test]
fn call_then_ret_returns_after_call() {
    let mut vm = load(&[17, 10, 0, 0, 0, 0, 0, 0, 0, 0, 18]);
    assert_eq!(vm.step(), Ok(Event::Continue));
    assert_eq!(vm.pc(), 10);
    assert_eq!(vm.stack_depth(), 1);
    assert_eq!(vm.step(), Ok(Event::Continue));
    assert_eq!(vm.pc(), 2);
    assert_eq!(vm.stack_depth(), 0);
}

#[test]
fn jumps() {
    let mut vm = load(&[6, 4, 19, 65, 7, 1, 9, 19, 66, 8, 0, 12, 19, 67, 0]);
    let mut out = Vec::new();
    assert_eq!(vm.run(&mut out, 100), Ok(Stop::Halted));
    assert_eq!(out, vec![67u8]);
}

#[test]
fn memory_read_and_write() {
    let mut vm = load(&[16, 100, 42, 15, R0, 100, 0]);
    let mut out = Vec::new();
    assert_eq!(vm.run(&mut out, 100), Ok(Stop::Halted));
    assert_eq!(vm.read_mem(100), 42);
    assert_eq!(vm.register(0), 42);
}

#[test]
fn input_line_feeds_three_inputs() {
    let mut vm = load(&[20, R0, 20, R1, 20, R2, 20, R3, 0]);
    let mut out = Vec::new();
    assert_eq!(vm.run(&mut out, 100), Ok(Stop::NeedsInput));
    assert_eq!(vm.pc(), 0);
    vm.feed_line(b"ab\n");
    assert_eq!(vm.pending_input(), 3);
    assert_eq!(vm.run(&mut out, 100), Ok(Stop::NeedsInput));
    assert_eq!(vm.register(0), 'a' as u16);
    assert_eq!(vm.register(1), 'b' as u16);
    assert_eq!(vm.register(2), '\n' as u16);
    assert_eq!(vm.pc(), 6);
    assert_eq!(vm.pending_input(), 0);
}

#[test]
fn input_is_lower_cased() {
    let mut vm = load(&[20, R0, 20, R1, 0]);
    vm.feed_line(b"Z?");
    let mut out = Vec::new();
    assert_eq!(vm.run(&mut out, 100), Ok(Stop::Halted));
    assert_eq!(vm.register(0), 'z' as u16);
    assert_eq!(vm.register(1), '?' as u16);
}

#[test]
fn register_operands_resolve_to_contents() {
    let mut vm = load(&[1, R3, 77, 0]);
    assert_eq!(vm.load_val(5), Ok(5));
    assert_eq!(vm.load_val(32767), Ok(32767));
    assert_eq!(vm.load_val(R3), Ok(0));
    assert_eq!(vm.step(), Ok(Event::Continue));
    assert_eq!(vm.load_val(R3), Ok(77));
    assert_eq!(vm.load_val(32776), Err(VmError::InvalidAddress));
}

#[test]
fn store_register_targets() {
    let mut vm = VM::new();
    assert_eq!(vm.store_register(3, 9), Ok(()));
    assert_eq!(vm.register(3), 9);
    assert_eq!(vm.store_register(32775, 11), Ok(()));
    assert_eq!(vm.register(7), 11);
    assert_eq!(vm.store_register(R0, R3), Ok(()));
    assert_eq!(vm.register(0), 9);
    assert_eq!(vm.store_register(8, 1), Err(VmError::InvalidAddress));
    assert_eq!(vm.store_register(32776, 1), Err(VmError::InvalidAddress));
}

#[test]
fn out_emits_low_byte() {
    let mut vm = load(&[1, R0, 1, 9, R0, R0, 32767, 19, R0, 0]);
    let mut out = Vec::new();
    assert_eq!(vm.run(&mut out, 100), Ok(Stop::Halted));
    assert_eq!(vm.register(0), 0);
    assert_eq!(out, vec![0u8]);
    let mut vm = load(&[19, 321, 0]);
    let mut out = Vec::new();
    assert_eq!(vm.run(&mut out, 100), Ok(Stop::Halted));
    assert_eq!(out, vec![65u8]);
}

#[test]
fn fuel_runs_out() {
    let mut vm = load(&[6, 0]);
    let mut out = Vec::new();
    assert_eq!(vm.run(&mut out, 10), Ok(Stop::OutOfFuel));
    assert_eq!(vm.pc(), 0);
}

#[test]
fn malformed_images() {
    assert!(matches!(VM::from_data(&[0, 0, 0]), Err(VmError::MalformedImage)));
    let big = vec![0u8; 65538];
    assert!(matches!(VM::from_data(&big), Err(VmError::MalformedImage)));
    let full = vec![0u8; 65536];
    assert!(VM::from_data(&full).is_ok());
    let vm = VM::from_data(&[0x34, 0x12, 0xff, 0xff]).unwrap();
    assert_eq!(vm.read_mem(0), 0x1234);
    assert_eq!(vm.read_mem(1), 0xffff);
    assert_eq!(vm.read_mem(2), 0);
}

#[test]
fn invalid_opcode_faults_without_change() {
    let mut vm = load(&[21, 22]);
    let mut out = Vec::new();
    assert_eq!(vm.run(&mut out, 10), Err(VmError::InvalidOpcode));
    assert_eq!(vm.pc(), 1);
}

#[test]
fn invalid_operand_faults() {
    let mut vm = load(&[19, 32776]);
    assert_eq!(vm.step(), Err(VmError::InvalidAddress));
    assert_eq!(vm.pc(), 0);
}

#[test]
fn memory_target_faults() {
    let mut vm = load(&[1, 100, 5]);
    assert_eq!(vm.step(), Err(VmError::InvalidAddress));
}

#[test]
fn stack_underflow_faults() {
    let mut vm = load(&[3, R0]);
    assert_eq!(vm.step(), Err(VmError::StackUnderflow));
    let mut vm = load(&[18]);
    assert_eq!(vm.step(), Err(VmError::StackUnderflow));
}

#[test]
fn modulo_by_zero_faults() {
    let mut vm = load(&[11, R0, 7, 0]);
    assert_eq!(vm.step(), Err(VmError::DivideByZero));
    let mut vm = load(&[11, R0, 7, 3, 0]);
    assert_eq!(vm.step(), Ok(Event::Continue));
    assert_eq!(vm.register(0), 1);
}

#[test]
fn running_off_memory_faults() {
    let mut vm = load(&[16, 32767, 21, 6, 32767]);
    let mut out = Vec::new();
    assert_eq!(vm.run(&mut out, 10), Err(VmError::InvalidAddress));
    assert_eq!(vm.pc(), 32768);
}

#[test]
fn read_past_memory_faults() {
    let mut vm = load(&[1, R0, 65535, 0]);
    assert_eq!(vm.step(), Err(VmError::InvalidAddress));
    let mut vm = load(&[15, R0, 6, 15, R1, R0, 40000]);
    assert_eq!(vm.step(), Ok(Event::Continue));
    assert_eq!(vm.register(0), 40000);
    assert_eq!(vm.step(), Err(VmError::InvalidAddress));
    assert_eq!(vm.pc(), 3);
}
