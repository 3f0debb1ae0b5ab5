use vstd::prelude::*;

use crate::memory::after_read;
use crate::operations::op_ldi::indirect_address;
use crate::operations::{dest, dest_of, offset9, pc_relative};
use crate::utils::add_offset;
use crate::vm::Vm;
use crate::vm_error::VmError;

verus! {

/// The memory after an STI while the keyboard answers `key`: the word that
/// the instruction names has been read, and the word at the address found
/// there holds what the source register holds.
pub open spec fn sti_result(regs: Seq<u16>, mem: Seq<u16>, instr: u16, key: Option<u8>) -> Seq<u16> {
    after_read(mem, pc_relative(regs, instr), key).update(
        indirect_address(regs, mem, instr, key) as int,
        regs[dest_of(instr) as int],
    )
}

impl Vm {
    /// Executes the STI operation.
    ///
    /// Stores the value from the specified register into memory at an address determined indirectly.
    /// The address is first calculated using a PC-relative offset, and the value from the register is stored at the memory address retrieved from that location.
    /// `key` is what the keyboard answers if the address read is that of
    /// its status register. The operation never fails.
    pub fn op_sti(&mut self, instr: u16, key: Option<u8>) -> (res: Result<(), VmError>)
        ensures
            res is Ok,
            final(self).memory@ == sti_result(old(self).registers@, old(self).memory@, instr, key),
            final(self).registers == old(self).registers,
    {
        let r0 = dest(instr);
        let pc_offset = offset9(instr);
        let pointer = add_offset(self.registers.pc, pc_offset);
        let addr = self.memory.read(pointer, key);
        let value = self.registers.get(r0)?;
        self.memory.write(addr, value);
        Ok(())
    }
}

} // verus!
