use std::io::{Cursor, Read};

use lc_3_vm::constants::{FL_POS, FL_ZRO, MR_KBDR, MR_KBSR};
use lc_3_vm::operations::trap::{high_byte, low_byte, write_prompt};
use lc_3_vm::vm::Vm;

fn create_vm() -> Vm {
    Vm::new()
}

/// Reads one byte as a driver does: `None` when the input has ended.
fn read_key(input: &mut dyn Read) -> Option<u8> {
    let mut buffer = [0; 1];
    match input.read_exact(&mut buffer) {
        Ok(_) => Some(buffer[0]),
        Err(e) => {
            println!("Error reading from input: {}", e);
            None
        }
    }
}

// TRAP GETC
#[test]
fn trap_getc_valid_input() {
    let mut vm = create_vm();
    let mut input = Cursor::new(vec![b'A']);

    vm.trap_getc(read_key(&mut input)).unwrap();
    assert_eq!(vm.registers.r0, b'A' as u16);
}

#[test]
fn trap_getc_invalid_input() {
    let mut vm = create_vm();
    let mut input = Cursor::new(vec![]);

    vm.trap_getc(read_key(&mut input)).unwrap();
    assert_eq!(vm.registers.r0, 0);
}

#[test]
fn trap_getc_updates_flags() {
    let mut vm = create_vm();
    vm.trap_getc(Some(b'x')).unwrap();
    assert_eq!(vm.registers.cond, FL_POS);
    vm.trap_getc(None).unwrap();
    assert_eq!(vm.registers.cond, FL_ZRO);
    vm.trap_getc(Some(0xFF)).unwrap();
    assert_eq!(vm.registers.r0, 0x00FF);
    assert_eq!(vm.registers.cond, FL_POS);
}

// TRAP OUT
#[test]
fn trap_out_prints_a() {
    let mut vm = create_vm();
    vm.registers.r0 = 'A' as u16;

    let mut out = Vec::new();
    vm.trap_out(&mut out).unwrap();
    assert_eq!(out, b"A".to_vec());
}

#[test]
fn trap_out_prints_low_byte_only() {
    let mut vm = create_vm();
    vm.registers.r0 = 0x4142;

    let mut out = vec![b'>'];
    vm.trap_out(&mut out).unwrap();
    assert_eq!(out, b">B".to_vec());
    assert_eq!(vm.registers.r0, 0x4142);
}

// TRAP PUTS
#[test]
fn trap_puts_prints_string() {
    let mut vm = create_vm();

    let message = "Hello";
    for (i, &byte) in message.as_bytes().iter().enumerate() {
        vm.memory.write(i as u16, byte as u16);
    }
    vm.memory.write(message.len() as u16, 0);

    vm.registers.r0 = 0;

    let mut out = Vec::new();
    vm.trap_puts(None, &mut out).unwrap();
    assert_eq!(out, b"Hello".to_vec());
}

#[test]
fn trap_puts_prints_low_bytes_and_stops_at_zero() {
    let mut vm = create_vm();
    vm.memory.write(0x4000, 0x4148);
    vm.memory.write(0x4001, 0x0069);
    vm.memory.write(0x4002, 0x0000);
    vm.memory.write(0x4003, 0x0021);
    vm.registers.r0 = 0x4000;

    let mut out = vec![b'#'];
    vm.trap_puts(None, &mut out).unwrap();
    assert_eq!(out, b"#Hi".to_vec());
    assert_eq!(vm.registers.r0, 0x4000);
}

#[test]
fn trap_puts_of_empty_string_prints_nothing() {
    let mut vm = create_vm();
    vm.registers.r0 = 0x5000;
    let mut out = Vec::new();
    vm.trap_puts(None, &mut out).unwrap();
    assert_eq!(out.len(), 0);
}

#[test]
fn trap_puts_wraps_at_the_end_of_memory() {
    let mut vm = create_vm();
    vm.memory.write(0xFFFF, b'a' as u16);
    vm.memory.write(0x0000, b'b' as u16);
    vm.registers.r0 = 0xFFFF;
    let mut out = Vec::new();
    vm.trap_puts(None, &mut out).unwrap();
    assert_eq!(out, b"ab".to_vec());
}

#[test]
fn trap_puts_polls_keyboard_on_its_way() {
    let mut vm = create_vm();
    vm.memory.write(0xFDFF, b'a' as u16);
    vm.memory.write(0xFE01, b'c' as u16);
    vm.registers.r0 = 0xFDFF;

    // Without a key the status register reads as zero and ends the string.
    let mut out = Vec::new();
    vm.trap_puts(None, &mut out).unwrap();
    assert_eq!(out, b"a".to_vec());
    assert_eq!(vm.memory.read(MR_KBDR, None), 0);

    // With a key it reads as 0x8000, whose low byte is zero.
    let mut out = Vec::new();
    vm.trap_puts(Some(b'k'), &mut out).unwrap();
    assert_eq!(out, vec![b'a', 0, b'c', b'k']);
    assert_eq!(vm.memory.memory[MR_KBSR as usize], 0x8000);
    assert_eq!(vm.memory.memory[MR_KBDR as usize], b'k' as u16);
}

#[test]
fn trap_puts_without_terminator_prints_each_word_once() {
    let mut vm = create_vm();
    for address in 0..=0xFFFFu16 {
        vm.memory.write(address, b'z' as u16);
    }
    vm.registers.r0 = 0x1234;
    let mut out = Vec::new();
    vm.trap_puts(Some(b'z'), &mut out).unwrap();
    assert_eq!(out.len(), 65536);
}

// TRAP IN
#[test]
fn trap_in() {
    let mut vm = create_vm();
    let mut input = Cursor::new(vec![b'F']);

    let mut out = Vec::new();
    vm.trap_in(read_key(&mut input), &mut out).unwrap();
    assert_eq!(vm.registers.r0, b'F' as u16);
    // And prints correctly
    assert_eq!(out, b"Enter a character: F".to_vec());
    assert_eq!(vm.registers.cond, FL_POS);
}

#[test]
fn trap_in_at_end_of_input() {
    let mut vm = create_vm();
    vm.registers.r0 = 7;
    let mut out = Vec::new();
    vm.trap_in(None, &mut out).unwrap();
    assert_eq!(vm.registers.r0, 0);
    assert_eq!(vm.registers.cond, FL_ZRO);
    assert_eq!(out, b"Enter a character: \0".to_vec());
}

#[test]
fn write_prompt_appends_the_prompt() {
    let mut out = b"> ".to_vec();
    write_prompt(&mut out);
    assert_eq!(out, b"> Enter a character: ".to_vec());
}

// TRAP PUTSP
#[test]
fn trap_putsp_prints_ab() {
    let mut vm = create_vm();

    vm.memory.write(0x3000, 0x4241); // "AB" -> 0x4241
    vm.memory.write(0x3001, 0x0000); // null terminator

    vm.registers.r0 = 0x3000;

    let mut out = Vec::new();
    vm.trap_putsp(None, &mut out).unwrap();
    // output: "AB"
    assert_eq!(out, b"AB".to_vec());
}

#[test]
fn trap_putsp_leaves_out_a_zero_high_byte() {
    let mut vm = create_vm();
    vm.memory.write(0x3000, 0x4241);
    vm.memory.write(0x3001, 0x0043);
    vm.memory.write(0x3002, 0x0000);
    vm.memory.write(0x3003, 0x4544);
    vm.registers.r0 = 0x3000;

    let mut out = Vec::new();
    vm.trap_putsp(None, &mut out).unwrap();
    assert_eq!(out, b"ABC".to_vec());
}

#[test]
fn trap_putsp_prints_a_zero_low_byte_of_a_nonzero_word() {
    let mut vm = create_vm();
    vm.memory.write(0x3000, 0x4100);
    vm.memory.write(0x3001, 0x0000);
    vm.registers.r0 = 0x3000;

    let mut out = Vec::new();
    vm.trap_putsp(None, &mut out).unwrap();
    assert_eq!(out, vec![0u8, b'A']);
}

// TRAP HALT
#[test]
fn trap_halt_prints_and_stops() {
    let vm = create_vm();
    let mut out = Vec::new();
    let mut running = true;
    vm.trap_halt(&mut out, &mut running).unwrap();
    assert!(!running);
    assert_eq!(out, b"HALT\n".to_vec());
}

// TRAP dispatch
#[test]
fn handle_trap_links_and_dispatches() {
    let mut vm = create_vm();
    vm.registers.pc = 0x3001;
    vm.registers.r0 = b'x' as u16;
    let mut out = Vec::new();
    let mut running = true;

    vm.handle_trap(0xF021, None, &mut out, &mut running).unwrap();
    assert_eq!(vm.registers.r7, 0x3001);
    assert_eq!(out, b"x".to_vec());
    assert!(running);

    vm.handle_trap(0xF020, Some(b'q'), &mut out, &mut running).unwrap();
    assert_eq!(vm.registers.r0, b'q' as u16);
    assert_eq!(out, b"x".to_vec());
    assert!(running);

    vm.handle_trap(0xF023, Some(b'w'), &mut out, &mut running).unwrap();
    assert_eq!(vm.registers.r0, b'w' as u16);
    assert_eq!(out, b"xEnter a character: w".to_vec());
    assert!(running);

    vm.handle_trap(0xF025, None, &mut out, &mut running).unwrap();
    assert_eq!(out, b"xEnter a character: wHALT\n".to_vec());
    assert!(!running);
}

#[test]
fn handle_trap_prints_both_kinds_of_string() {
    let mut vm = create_vm();
    vm.memory.write(0x4000, 0x6962);
    vm.memory.write(0x4001, 0x0000);
    vm.registers.r0 = 0x4000;
    let mut out = Vec::new();
    let mut running = true;
    vm.handle_trap(0xF022, None, &mut out, &mut running).unwrap();
    assert_eq!(out, b"b".to_vec());
    vm.handle_trap(0xF024, None, &mut out, &mut running).unwrap();
    assert_eq!(out, b"bbi".to_vec());
    assert!(running);
}

#[test]
fn handle_trap_with_unknown_vector_halts() {
    let mut vm = create_vm();
    vm.registers.pc = 0x3456;
    let mut out = Vec::new();
    let mut running = true;
    vm.handle_trap(0xF0FF, Some(b'k'), &mut out, &mut running).unwrap();
    assert!(!running);
    assert_eq!(out, b"HALT\n".to_vec());
    assert_eq!(vm.registers.r7, 0x3456);
    assert_eq!(vm.registers.r0, 0);
}

#[test]
fn handle_trap_never_restarts_a_halted_machine() {
    let mut vm = create_vm();
    let mut out = Vec::new();
    let mut running = false;
    vm.handle_trap(0xF021, None, &mut out, &mut running).unwrap();
    assert!(!running);
}

#[test]
fn bytes_of_a_word() {
    assert_eq!(low_byte(0x4241), 0x41);
    assert_eq!(high_byte(0x4241), 0x42);
    assert_eq!(low_byte(0xFF00), 0x00);
    assert_eq!(high_byte(0xFF00), 0xFF);
    assert_eq!(low_byte(0x00FF), 0xFF);
    assert_eq!(high_byte(0x00FF), 0x00);
}
