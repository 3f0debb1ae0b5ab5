use vstd::prelude::*;

use crate::memory::after_read;
use crate::operations::{dest, dest_of, offset9, pc_relative};
use crate::registers::with_flags;
use crate::utils::add_offset;
use crate::vm::Vm;
use crate::vm_error::VmError;

verus! {

/// The address that an LDI or an STI finds in memory while the keyboard
/// answers `key`: the word at the address that the instruction names.
pub open spec fn indirect_address(regs: Seq<u16>, mem: Seq<u16>, instr: u16, key: Option<u8>) -> u16 {
    after_read(mem, pc_relative(regs, instr), key)[pc_relative(regs, instr) as int]
}

/// The memory after an LDI while the keyboard answers `key`: the word that
/// the instruction names has been read, then the word at the address found
/// there.
pub open spec fn ldi_memory(regs: Seq<u16>, mem: Seq<u16>, instr: u16, key: Option<u8>) -> Seq<u16> {
    after_read(
        after_read(mem, pc_relative(regs, instr), key),
        indirect_address(regs, mem, instr, key),
        key,
    )
}

/// The register file after an LDI while the keyboard answers `key`: the
/// destination register holds the second word read, and the condition
/// register describes it.
pub open spec fn ldi_result(regs: Seq<u16>, mem: Seq<u16>, instr: u16, key: Option<u8>) -> Seq<
    u16,
> {
    let value = ldi_memory(regs, mem, instr, key)[indirect_address(regs, mem, instr, key) as int];
    with_flags(regs.update(dest_of(instr) as int, value), dest_of(instr) as int)
}

pub trait OpLdi {
    fn op_ldi(&mut self, instr: u16, key: Option<u8>) -> Result<(), VmError>;
}

impl OpLdi for Vm {
    /// Executes the LDI operation.
    ///
    /// Performs an indirect load. It first retrieves an address from memory using
    /// a sign-extended offset added to the program counter. Then, it uses that address to load
    /// the final value from memory into the destination register. The condition flags are updated
    /// based on the loaded value.
    /// `key` is what the keyboard answers if one of the two addresses read
    /// is that of its status register. The operation never fails.
    fn op_ldi(&mut self, instr: u16, key: Option<u8>) -> (res: Result<(), VmError>)
        ensures
            res is Ok,
            final(self).memory@ == ldi_memory(old(self).registers@, old(self).memory@, instr, key),
            final(self).registers@ == ldi_result(
                old(self).registers@,
                old(self).memory@,
                instr,
                key,
            ),
    {
        let r0 = dest(instr);
        let pc_offset = offset9(instr);
        let addr = add_offset(self.registers.pc, pc_offset);
        let indirect_addr = self.memory.read(addr, key);
        let value = self.memory.read(indirect_addr, key);
        self.registers.set(r0, value)?;
        self.registers.update_flags(r0)
    }
}

} // verus!
