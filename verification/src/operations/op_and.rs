use vstd::prelude::*;

use crate::operations::{base, base_of, dest, dest_of, imm5, imm5_of, imm_mode, is_imm, src2, src2_of};
use crate::registers::with_flags;
use crate::utils::{to_word, wrap16};
use crate::vm::Vm;
use crate::vm_error::VmError;

verus! {

/// The register file after an AND: the destination register holds the
/// bitwise AND of the first source register and of the second operand, and
/// the condition register describes it. The second operand is the
/// immediate, sign-extended to 16 bits, if the instruction holds one, else
/// the second source register.
pub open spec fn and_result(regs: Seq<u16>, instr: u16) -> Seq<u16> {
    let operand = if imm_mode(instr) {
        wrap16(imm5_of(instr))
    } else {
        regs[src2_of(instr) as int]
    };
    let value = regs[base_of(instr) as int] & operand;
    with_flags(regs.update(dest_of(instr) as int, value), dest_of(instr) as int)
}

pub trait OpAnd {
    fn op_and(&mut self, instr: u16) -> Result<(), VmError>;
}

impl OpAnd for Vm {
    /// Performs a bitwise AND operation between two operands.
    ///
    /// The first operand is always a register, and the second
    /// operand can be another register or an immediate value. The result of the AND
    /// operation is stored in the dest register, and the condition
    /// flags are updated based on the result. The operation never fails.
    fn op_and(&mut self, instr: u16) -> (res: Result<(), VmError>)
        ensures
            res is Ok,
            final(self).registers@ == and_result(old(self).registers@, instr),
            final(self).memory == old(self).memory,
    {
        let r0 = dest(instr);
        let r1 = base(instr);

        if is_imm(instr) {
            let imm5 = imm5(instr);
            let value = self.registers.get(r1)? & to_word(imm5);
            self.registers.set(r0, value)?;
        } else {
            let r2 = src2(instr);
            let value = self.registers.get(r1)? & self.registers.get(r2)?;
            self.registers.set(r0, value)?;
        }
        self.registers.update_flags(r0)
    }
}

} // verus!
