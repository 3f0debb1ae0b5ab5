use vstd::prelude::*;

use crate::operations::{base, base_of, dest, dest_of, imm5, imm5_of, imm_mode, is_imm, src2, src2_of};
use crate::registers::with_flags;
use crate::utils::{add_offset, wrap16};
use crate::vm::Vm;
use crate::vm_error::VmError;

verus! {

/// The register file after an ADD: the destination register holds the sum
/// of the first source register and of the second operand, wrapped to 16
/// bits, and the condition register describes that sum. The second operand
/// is the immediate if the instruction holds one, else the second source
/// register.
pub open spec fn add_result(regs: Seq<u16>, instr: u16) -> Seq<u16> {
    let operand = if imm_mode(instr) {
        imm5_of(instr)
    } else {
        regs[src2_of(instr) as int] as int
    };
    let sum = wrap16(regs[base_of(instr) as int] + operand);
    with_flags(regs.update(dest_of(instr) as int, sum), dest_of(instr) as int)
}

pub trait OpAdd {
    fn op_add(&mut self, instr: u16) -> Result<(), VmError>;
}

impl OpAdd for Vm {
    /// Executes the ADD operation.
    ///
    /// The add can be between two registers or between a register and an immediate value.
    /// The result is stored in a dest register, and the condition flags are updated
    /// to reflect the result of the operation. The sum wraps at 16 bits, and
    /// the operation never fails.
    fn op_add(&mut self, instr: u16) -> (res: Result<(), VmError>)
        ensures
            res is Ok,
            final(self).registers@ == add_result(old(self).registers@, instr),
            final(self).memory == old(self).memory,
    {
        let r0 = dest(instr);
        let r1 = base(instr);

        if is_imm(instr) {
            let imm5 = imm5(instr);
            let sum = add_offset(self.registers.get(r1)?, imm5);
            self.registers.set(r0, sum)?;
        } else {
            let r2 = src2(instr);
            let sum = self.registers.get(r1)?.wrapping_add(self.registers.get(r2)?);
            self.registers.set(r0, sum)?;
        }

        self.registers.update_flags(r0)
    }
}

} // verus!
