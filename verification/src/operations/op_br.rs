use vstd::prelude::*;

use crate::constants::{R_COND, R_PC};
use crate::operations::{dest, dest_of, offset9, pc_relative};
use crate::utils::add_offset;
use crate::vm::Vm;

verus! {

/// Whether a branch is taken: whether one of the condition flags that the
/// instruction names in its bits 11 to 9 is set in the condition register.
pub open spec fn br_taken(regs: Seq<u16>, instr: u16) -> bool {
    dest_of(instr) & regs[R_COND as int] != 0
}

/// The register file after a BR: if the branch is taken, the program
/// counter has moved by the offset of the instruction, wrapping at 16 bits;
/// if not, nothing has changed.
pub open spec fn br_result(regs: Seq<u16>, instr: u16) -> Seq<u16> {
    if br_taken(regs, instr) {
        regs.update(R_PC as int, pc_relative(regs, instr))
    } else {
        regs
    }
}

pub trait OpBr {
    fn op_br(&mut self, instr: u16);
}

impl OpBr for Vm {
    /// Executes the BRANCH operation.
    ///
    /// Conditionally updates the program counter based on the
    /// specified condition flags. If the condition is met, the program counter
    /// is adjusted by the sign-extended offset to branch to a new location.
    fn op_br(&mut self, instr: u16)
        ensures
            final(self).registers@ == br_result(old(self).registers@, instr),
            final(self).memory == old(self).memory,
    {
        let pc_offset = offset9(instr);
        let cond_flag = dest(instr);
        if cond_flag & self.registers.cond != 0 {
            self.registers.pc = add_offset(self.registers.pc, pc_offset);
        }
    }
}

} // verus!
