use lc_3_vm::operations::op_st::OpSt;
use lc_3_vm::vm::Vm;

fn create_vm() -> Vm {
    Vm::new()
}

#[test]
fn op_st_basic() {
    let mut vm = create_vm();

    vm.registers.set(0, 0x1234).unwrap();

    let instr: u16 = 0b0011_0000_0000_0010; // ST R0, #2
    vm.op_st(instr).unwrap();

    assert_eq!(vm.memory.read(vm.registers.pc + 2, None), 0x1234);
}

#[test]
fn op_st_negative_offset() {
    let mut vm = create_vm();

    vm.registers.pc = 0x3000;
    vm.registers.set(0, 0x5678).unwrap();

    let instr: u16 = 0b0011_0001_1111_1110; // ST R0, #-2
    vm.op_st(instr).unwrap();

    assert_eq!(vm.memory.read(0x2FFE, None), 0x5678);
}

#[test]
fn op_st_zero_offset() {
    let mut vm = create_vm();

    vm.registers.pc = 0x3000;
    vm.registers.set(0, 0xABCD).unwrap();

    let instr: u16 = 0b0011_0000_0000_0000; // ST R0, #0
    vm.op_st(instr).unwrap();

    assert_eq!(vm.memory.read(0x3000, None), 0xABCD);
}

#[test]
fn op_st_overflow_offset() {
    let mut vm = create_vm();

    vm.registers.pc = 0xFFFF;
    vm.registers.set(0, 0x4321).unwrap();

    let instr: u16 = 0b0011_0000_0000_0001; // ST R0, #1
    vm.op_st(instr).unwrap();

    assert_eq!(vm.memory.read(0x0000, None), 0x4321);
}

#[test]
fn op_st_preserves_registers() {
    let mut vm = create_vm();

    vm.registers.pc = 0x3000;
    vm.registers.set(0, 0x7777).unwrap();
    vm.registers.set(1, 0x8888).unwrap();

    let instr: u16 = 0b0011_0000_0000_0010; // ST R0, #2
    vm.op_st(instr).unwrap();

    assert_eq!(vm.registers.get(1).unwrap(), 0x8888);
}
