use vstd::prelude::*;

use crate::constants::{MEMORY_SIZE, MR_KBSR, R_COUNT};
use crate::memory::after_read;
use crate::operations::op_st::st_result;
use crate::operations::{dest, dest_of, offset9, pc_relative};
use crate::registers::with_flags;
use crate::utils::add_offset;
use crate::vm::Vm;
use crate::vm_error::VmError;

verus! {

/// The memory after an LD while the keyboard answers `key`: the word that
/// the instruction names has been read.
pub open spec fn ld_memory(regs: Seq<u16>, mem: Seq<u16>, instr: u16, key: Option<u8>) -> Seq<u16> {
    after_read(mem, pc_relative(regs, instr), key)
}

/// The register file after an LD while the keyboard answers `key`: the
/// destination register holds the word read, and the condition register
/// describes it.
pub open spec fn ld_result(regs: Seq<u16>, mem: Seq<u16>, instr: u16, key: Option<u8>) -> Seq<
    u16,
> {
    let value = ld_memory(regs, mem, instr, key)[pc_relative(regs, instr) as int];
    with_flags(regs.update(dest_of(instr) as int, value), dest_of(instr) as int)
}

/// A store followed by a load from the same place gives back what was
/// stored: after an ST, an LD that names the same address leaves in its
/// destination register what the source register of the ST held, whatever
/// the keyboard answers. The one place of which this does not hold is the
/// status register of the keyboard, which a load overwrites before it
/// reads it.
pub proof fn lemma_store_then_load(
    regs: Seq<u16>,
    mem: Seq<u16>,
    store: u16,
    load: u16,
    key: Option<u8>,
)
    requires
        regs.len() == R_COUNT,
        mem.len() == MEMORY_SIZE,
        pc_relative(regs, store) == pc_relative(regs, load),
        pc_relative(regs, store) != MR_KBSR,
    ensures
        ld_result(regs, st_result(regs, mem, store), load, key)[dest_of(load) as int]
            == regs[dest_of(store) as int],
{
}

impl Vm {
    /// Executes the LD operation.
    ///
    /// Loads a value from memory into a register. The address is computed by
    /// adding a sign-extended offset to the current program counter, and the result is stored in the destination register. The condition flags are then updated based on the loaded value.
    /// `key` is what the keyboard answers if the address read is that of
    /// its status register. The operation never fails.
    pub fn op_ld(&mut self, instr: u16, key: Option<u8>) -> (res: Result<(), VmError>)
        ensures
            res is Ok,
            final(self).memory@ == ld_memory(old(self).registers@, old(self).memory@, instr, key),
            final(self).registers@ == ld_result(
                old(self).registers@,
                old(self).memory@,
                instr,
                key,
            ),
    {
        let r0 = dest(instr);
        let pc_offset = offset9(instr);
        let address = add_offset(self.registers.pc, pc_offset);
        let value = self.memory.read(address, key);
        self.registers.set(r0, value)?;
        self.registers.update_flags(r0)
    }
}

} // verus!
