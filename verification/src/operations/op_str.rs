use vstd::prelude::*;

use crate::operations::{base, base_relative, dest, dest_of, offset6};
use crate::utils::add_offset;
use crate::vm::Vm;
use crate::vm_error::VmError;

verus! {

/// The memory after an STR: the word that the instruction names holds what
/// the source register holds.
pub open spec fn str_result(regs: Seq<u16>, mem: Seq<u16>, instr: u16) -> Seq<u16> {
    mem.update(base_relative(regs, instr) as int, regs[dest_of(instr) as int])
}

pub trait OpStr {
    fn op_str(&mut self, instr: u16) -> Result<(), VmError>;
}

impl OpStr for Vm {
    /// Executes the STR operation.
    ///
    /// Stores the value from a specified register into memory.
    /// The target memory address is calculated by adding a signed offset to the value from another register.
    /// The address wraps at 16 bits, and the operation never fails.
    fn op_str(&mut self, instr: u16) -> (res: Result<(), VmError>)
        ensures
            res is Ok,
            final(self).memory@ == str_result(old(self).registers@, old(self).memory@, instr),
            final(self).registers == old(self).registers,
    {
        let r0 = dest(instr);
        let r1 = base(instr);
        let offset = offset6(instr);
        let address = add_offset(self.registers.get(r1)?, offset);
        let value = self.registers.get(r0)?;
        self.memory.write(address, value);
        Ok(())
    }
}

} // verus!
