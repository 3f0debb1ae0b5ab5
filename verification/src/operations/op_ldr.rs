use vstd::prelude::*;

use crate::memory::after_read;
use crate::operations::{base, base_relative, dest, dest_of, offset6};
use crate::registers::with_flags;
use crate::utils::add_offset;
use crate::vm::Vm;
use crate::vm_error::VmError;

verus! {

/// The memory after an LDR while the keyboard answers `key`: the word that
/// the instruction names has been read.
pub open spec fn ldr_memory(regs: Seq<u16>, mem: Seq<u16>, instr: u16, key: Option<u8>) -> Seq<u16> {
    after_read(mem, base_relative(regs, instr), key)
}

/// The register file after an LDR while the keyboard answers `key`: the
/// destination register holds the word read, and the condition register
/// describes it.
pub open spec fn ldr_result(regs: Seq<u16>, mem: Seq<u16>, instr: u16, key: Option<u8>) -> Seq<
    u16,
> {
    let value = ldr_memory(regs, mem, instr, key)[base_relative(regs, instr) as int];
    with_flags(regs.update(dest_of(instr) as int, value), dest_of(instr) as int)
}

pub trait OpLdr {
    fn op_ldr(&mut self, instr: u16, key: Option<u8>) -> Result<(), VmError>;
}

impl OpLdr for Vm {
    /// Executes the LDR operation.
    ///
    /// Performs a load operation using a base register and an offset. The final
    /// address is computed by adding a sign-extended offset to the value in the base register.
    /// The value at this computed address is loaded into the destination register. The condition
    /// flags are updated based on the loaded value.
    /// `key` is what the keyboard answers if the address read is that of
    /// its status register. The operation never fails.
    fn op_ldr(&mut self, instr: u16, key: Option<u8>) -> (res: Result<(), VmError>)
        ensures
            res is Ok,
            final(self).memory@ == ldr_memory(old(self).registers@, old(self).memory@, instr, key),
            final(self).registers@ == ldr_result(
                old(self).registers@,
                old(self).memory@,
                instr,
                key,
            ),
    {
        let r0 = dest(instr);
        let r1 = base(instr);
        let offset = offset6(instr);
        let addr = add_offset(self.registers.get(r1)?, offset);
        let value = self.memory.read(addr, key);
        self.registers.set(r0, value)?;
        self.registers.update_flags(r0)
    }
}

} // verus!
