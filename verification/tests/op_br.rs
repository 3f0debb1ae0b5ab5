use lc_3_vm::constants::FL_POS;
use lc_3_vm::operations::op_br::OpBr;
use lc_3_vm::vm::Vm;

fn create_vm() -> Vm {
    Vm::new()
}

#[test]
fn op_br_br_branch_taken_positive_offset() {
    let mut vm = create_vm();
    vm.registers.cond = FL_POS;

    let instr: u16 = 0b0000_0010_0000_0101;
    vm.op_br(instr);

    assert_eq!(vm.registers.pc, 0x3005);
}

#[test]
fn op_br_br_branch_not_taken() {
    let mut vm = create_vm();
    vm.registers.cond = FL_POS;

    let instr: u16 = 0b0000_0100_0000_0101;
    vm.op_br(instr);

    assert_eq!(vm.registers.pc, 0x3000);
}

#[test]
fn op_br_br_branch_taken_negative_offset() {
    let mut vm = create_vm();
    vm.registers.cond = FL_POS;

    let instr: u16 = 0b0000_0011_1111_1011;
    vm.op_br(instr);

    assert_eq!(vm.registers.pc, 0x2FFB);
}

#[test]
fn op_br_br_branch_zero_offset() {
    let mut vm = create_vm();
    vm.registers.cond = FL_POS;

    let instr: u16 = 0b0000_0010_0000_0000;
    vm.op_br(instr);

    println!("PC: {}", vm.registers.pc);

    assert_eq!(vm.registers.pc, 0x3000);
}
