use lc_3_vm::constants::{FL_NEG, FL_POS, FL_ZRO};
use lc_3_vm::operations::op_and::OpAnd;
use lc_3_vm::vm::Vm;

fn create_vm() -> Vm {
    Vm::new()
}

#[test]
fn op_and_with_registers() {
    let mut vm = create_vm();
    vm.registers.set(1, 0b1100).unwrap();
    vm.registers.set(2, 0b1010).unwrap();

    let instr: u16 = 0b0101_0000_0100_0010;
    vm.op_and(instr).unwrap();

    assert_eq!(vm.registers.get(0).unwrap(), 0b1000);
}

#[test]
fn op_and_with_immediate() {
    let mut vm = create_vm();
    vm.registers.set(1, 0b1100).unwrap();

    let instr: u16 = 0b0101_0000_0110_0101;
    vm.op_and(instr).unwrap();

    assert_eq!(vm.registers.get(0).unwrap(), 0b0100);
}

#[test]
fn op_and_with_zero_result() {
    let mut vm = create_vm();
    vm.registers.set(1, 0b1100).unwrap();

    let instr: u16 = 0b0101_0000_0110_0110;
    vm.op_and(instr).unwrap();

    assert_eq!(vm.registers.get(0).unwrap(), 0b0100);
    assert_eq!(vm.registers.cond, FL_POS);
}

#[test]
fn op_and_with_negative_result() {
    let mut vm = create_vm();
    vm.registers.set(1, 0xFFFF).unwrap();

    let instr: u16 = 0b0101_0000_0111_1111;
    vm.op_and(instr).unwrap();

    assert_eq!(vm.registers.get(0).unwrap(), 0xFFFF);
    assert_eq!(vm.registers.cond, FL_NEG);
}

#[test]
fn op_and_with_positive_result() {
    let mut vm = create_vm();
    vm.registers.set(1, 0b0111).unwrap();
    vm.registers.set(2, 0b0011).unwrap();

    let instr: u16 = 0b0101_0000_0100_0010;
    vm.op_and(instr).unwrap();

    assert_eq!(vm.registers.get(0).unwrap(), 0b0011);
    assert_eq!(vm.registers.cond, FL_POS);
}

#[test]
fn op_and_with_zero_cond_flag() {
    let mut vm = create_vm();
    vm.registers.set(1, 0b0101).unwrap();
    vm.registers.set(2, 0b1010).unwrap();

    let instr: u16 = 0b0101_0000_0100_0010;
    vm.op_and(instr).unwrap();

    assert_eq!(vm.registers.get(0).unwrap(), 0b0000);
    assert_eq!(vm.registers.cond, FL_ZRO);
}
