use vstd::prelude::*;

use crate::operations::{base, base_of, dest, dest_of};
use crate::registers::with_flags;
use crate::vm::Vm;
use crate::vm_error::VmError;

verus! {

/// The register file after a NOT: the destination register holds the
/// bitwise complement of the source register, and the condition register
/// describes it.
pub open spec fn not_result(regs: Seq<u16>, instr: u16) -> Seq<u16> {
    let value = !regs[base_of(instr) as int];
    with_flags(regs.update(dest_of(instr) as int, value), dest_of(instr) as int)
}

impl Vm {
    /// Executes the NOT operation.
    ///
    /// Performs a bitwise NOT operation on the value in the source register,
    /// storing the result in the destination register. The condition flags are then updated
    /// based on the result. The operation never fails.
    pub fn op_not(&mut self, instr: u16) -> (res: Result<(), VmError>)
        ensures
            res is Ok,
            final(self).registers@ == not_result(old(self).registers@, instr),
            final(self).memory == old(self).memory,
    {
        let r0 = dest(instr);
        let r1 = base(instr);
        let value = !self.registers.get(r1)?;
        self.registers.set(r0, value)?;
        self.registers.update_flags(r0)
    }
}

} // verus!
