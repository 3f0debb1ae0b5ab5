use vstd::prelude::*;

use crate::constants::R_PC;
use crate::operations::{base, base_of};
use crate::vm::Vm;
use crate::vm_error::VmError;

verus! {

/// The register file after a JMP: the program counter holds what the base
/// register holds.
pub open spec fn jmp_result(regs: Seq<u16>, instr: u16) -> Seq<u16> {
    regs.update(R_PC as int, regs[base_of(instr) as int])
}

pub trait OpJmp {
    fn op_jmp(&mut self, instr: u16) -> Result<(), VmError>;
}

impl OpJmp for Vm {
    /// Executes the JUMP operation.
    ///
    /// This opcode updates the program counter to the address stored in the specified
    /// register, allowing for an unconditional jump to a new location in the program.
    /// With register 7 as the base it returns from a subroutine. The
    /// operation never fails.
    fn op_jmp(&mut self, instr: u16) -> (res: Result<(), VmError>)
        ensures
            res is Ok,
            final(self).registers@ == jmp_result(old(self).registers@, instr),
            final(self).memory == old(self).memory,
    {
        let r1 = base(instr);
        self.registers.pc = self.registers.get(r1)?;
        Ok(())
    }
}

} // verus!
