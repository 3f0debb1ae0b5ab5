use vstd::prelude::*;

use crate::operations::{dest, dest_of, offset9, pc_relative};
use crate::registers::with_flags;
use crate::utils::add_offset;
use crate::vm::Vm;
use crate::vm_error::VmError;

verus! {

/// The register file after an LEA: the destination register holds the
/// address that the instruction names, and the condition register
/// describes that address.
pub open spec fn lea_result(regs: Seq<u16>, instr: u16) -> Seq<u16> {
    with_flags(
        regs.update(dest_of(instr) as int, pc_relative(regs, instr)),
        dest_of(instr) as int,
    )
}

impl Vm {
    /// Executes the LEA operation.
    ///
    /// Computes an address by adding a sign-extended offset to the current value
    /// of the program counter (PC). This computed address is then stored in the destination
    /// register. The condition flags are updated based on the computed address.
    /// The operation never fails.
    pub fn op_lea(&mut self, instr: u16) -> (res: Result<(), VmError>)
        ensures
            res is Ok,
            final(self).registers@ == lea_result(old(self).registers@, instr),
            final(self).memory == old(self).memory,
    {
        let r0 = dest(instr);
        let pc_offset = offset9(instr);
        let address = add_offset(self.registers.pc, pc_offset);
        self.registers.set(r0, address)?;
        self.registers.update_flags(r0)
    }
}

} // verus!
