use vstd::prelude::*;

use crate::operations::{dest, dest_of, offset9, pc_relative};
use crate::utils::add_offset;
use crate::vm::Vm;
use crate::vm_error::VmError;

verus! {

/// The memory after an ST: the word that the instruction names holds what
/// the source register holds.
pub open spec fn st_result(regs: Seq<u16>, mem: Seq<u16>, instr: u16) -> Seq<u16> {
    mem.update(pc_relative(regs, instr) as int, regs[dest_of(instr) as int])
}

pub trait OpSt {
    fn op_st(&mut self, instr: u16) -> Result<(), VmError>;
}

impl OpSt for Vm {
    /// Executes the ST operation.
    ///
    /// Stores the value from the specified register into memory
    /// at the address computed by adding a PC-relative offset to the current program counter.
    /// The address wraps at 16 bits, and the operation never fails.
    fn op_st(&mut self, instr: u16) -> (res: Result<(), VmError>)
        ensures
            res is Ok,
            final(self).memory@ == st_result(old(self).registers@, old(self).memory@, instr),
            final(self).registers == old(self).registers,
    {
        let r0 = dest(instr);
        let pc_offset = offset9(instr);
        let address = add_offset(self.registers.pc, pc_offset);
        let value = self.registers.get(r0)?;
        self.memory.write(address, value);
        Ok(())
    }
}

} // verus!
