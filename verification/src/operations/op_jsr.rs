use vstd::prelude::*;

use crate::constants::{R_PC, R_R7};
use crate::operations::{base, base_of, is_long, long_mode, offset11, offset11_of};
use crate::utils::{add_offset, wrap16};
use crate::vm::Vm;
use crate::vm_error::VmError;

verus! {

/// The register file after a JSR or JSRR: register 7 holds the program
/// counter as it was, and the program counter holds the target. In long
/// mode the target is the old program counter moved by the long offset,
/// wrapping at 16 bits; else it is what the base register holds once
/// register 7 has been written.
pub open spec fn jsr_result(regs: Seq<u16>, instr: u16) -> Seq<u16> {
    let linked = regs.update(R_R7 as int, regs[R_PC as int]);
    let target = if long_mode(instr) {
        wrap16(regs[R_PC as int] + offset11_of(instr))
    } else {
        linked[base_of(instr) as int]
    };
    linked.update(R_PC as int, target)
}

pub trait OpJsr {
    fn op_jsr(&mut self, instr: u16) -> Result<(), VmError>;
}

impl OpJsr for Vm {
    /// Executes the JSR operation.
    ///
    /// Performs a jump to a subroutine. It saves the current program counter
    /// in the R7 register and then updates the PC to the target address, which can be provided
    /// either by a direct offset (JSR) or by a register (JSRR). The
    /// operation never fails.
    fn op_jsr(&mut self, instr: u16) -> (res: Result<(), VmError>)
        ensures
            res is Ok,
            final(self).registers@ == jsr_result(old(self).registers@, instr),
            final(self).memory == old(self).memory,
    {
        self.registers.r7 = self.registers.pc;
        if is_long(instr) {
            let long_pc_offset = offset11(instr);
            self.registers.pc = add_offset(self.registers.pc, long_pc_offset);
        } else {
            let r1 = base(instr);
            self.registers.pc = self.registers.get(r1)?;
        }
        Ok(())
    }
}

} // verus!
