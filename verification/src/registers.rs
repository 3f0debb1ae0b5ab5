//! The register file: eight general-purpose registers, the program counter
//! and the condition register.

use vstd::prelude::*;

use crate::constants::{FL_NEG, FL_POS, FL_ZRO, PC_START, R_COND, R_COUNT};
use crate::vm_error::VmError;

verus! {

/// Represents the registers of the LC-3 virtual machine.
///
/// # Fields
///
/// * `r0`, `r1`, `r2`, `r3`, `r4`, `r5`, `r6`, `r7` - General-purpose registers.
/// * `pc` - The program counter, which holds the address of the next instruction to execute.
/// * `cond` - The condition register, which holds flags indicating the result of the last operation.
///
#[derive(Debug)]
pub struct Registers {
    pub r0: u16,
    pub r1: u16,
    pub r2: u16,
    pub r3: u16,
    pub r4: u16,
    pub r5: u16,
    pub r6: u16,
    pub r7: u16,
    pub pc: u16,
    pub cond: u16,
}

/// The condition flag that describes `value`: zero, negative (bit 15 set)
/// or positive.
pub open spec fn flag_of(value: u16) -> u16 {
    if value == 0 {
        FL_ZRO
    } else if value >= 0x8000 {
        FL_NEG
    } else {
        FL_POS
    }
}

/// The register file `regs` after the condition register has been set from
/// what slot `r` holds.
pub open spec fn with_flags(regs: Seq<u16>, r: int) -> Seq<u16>
    recommends
        regs.len() == R_COUNT,
        0 <= r < R_COUNT,
{
    regs.update(R_COND as int, flag_of(regs[r]))
}

/// Once a value has been written to a register and the condition flags
/// have been updated from that register, exactly one condition flag is
/// set: `FL_ZRO` if the value is zero, `FL_NEG` if its bit 15 is set,
/// `FL_POS` otherwise.
pub proof fn lemma_one_flag_after_write(regs: Seq<u16>, r: int, value: u16)
    requires
        regs.len() == R_COUNT,
        0 <= r < R_COUNT,
    ensures
        ({
            let cond = with_flags(regs.update(r, value), r)[R_COND as int];
            &&& cond == FL_ZRO || cond == FL_NEG || cond == FL_POS
            &&& value == 0 <==> cond == FL_ZRO
            &&& value >= 0x8000 <==> cond == FL_NEG
            &&& 0 < value < 0x8000 <==> cond == FL_POS
        }),
{
}

impl View for Registers {
    type V = Seq<u16>;

    /// The register file as a sequence of ten words: `r0` to `r7` at
    /// indices 0 to 7, the program counter at 8, the condition register at 9.
    open spec fn view(&self) -> Seq<u16> {
        seq![
            self.r0,
            self.r1,
            self.r2,
            self.r3,
            self.r4,
            self.r5,
            self.r6,
            self.r7,
            self.pc,
            self.cond,
        ]
    }
}

impl Default for Registers {
    fn default() -> (res: Self)
        ensures
            res@ == Registers::initial(),
    {
        Self::new()
    }
}

impl Registers {
    /// The register file of a machine that has not run yet.
    pub open spec fn initial() -> Seq<u16> {
        seq![0u16, 0u16, 0u16, 0u16, 0u16, 0u16, 0u16, 0u16, PC_START, FL_ZRO]
    }

    /// Creates a new `Registers` instance with initial values. Sets all general-purpose registers to `0`, the program counter to `PC_START`, the condition register to `FL_ZRO`.
    pub fn new() -> (res: Self)
        ensures
            res@ == Registers::initial(),
    {
        Registers {
            r0: 0,
            r1: 0,
            r2: 0,
            r3: 0,
            r4: 0,
            r5: 0,
            r6: 0,
            r7: 0,
            pc: PC_START,
            cond: FL_ZRO,
        }
    }

    /// Gets the value of the specified register.
    ///
    /// `r` is the register identifier: 0 to 7 for the general-purpose
    /// registers, 8 for the program counter, 9 for the condition register.
    /// Any other identifier is an error.
    pub fn get(&self, r: u16) -> (res: Result<u16, VmError>)
        ensures
            r < R_COUNT ==> res == Ok::<u16, VmError>(self@[r as int]),
            r >= R_COUNT ==> (res matches Err(VmError::InvalidRegister(msg)) && msg@
                == "Invalid registers at get"@),
    {
        let res = match r {
            0 => self.r0,
            1 => self.r1,
            2 => self.r2,
            3 => self.r3,
            4 => self.r4,
            5 => self.r5,
            6 => self.r6,
            7 => self.r7,
            8 => self.pc,
            9 => self.cond,
            _ => {
                return Err(VmError::InvalidRegister("Invalid registers at get".to_string()));
            },
        };
        Ok(res)
    }

    /// Sets the value of the specified register.
    ///
    /// `r` is the register identifier, as for `get`. With any other
    /// identifier nothing is written and an error is returned.
    pub fn set(&mut self, r: u16, val: u16) -> (res: Result<(), VmError>)
        ensures
            r < R_COUNT ==> res is Ok && final(self)@ == old(self)@.update(r as int, val),
            r >= R_COUNT ==> (res matches Err(VmError::InvalidRegister(msg)) && msg@
                == "Invalid registers at set"@) && *final(self) == *old(self),
    {
        match r {
            0 => self.r0 = val,
            1 => self.r1 = val,
            2 => self.r2 = val,
            3 => self.r3 = val,
            4 => self.r4 = val,
            5 => self.r5 = val,
            6 => self.r6 = val,
            7 => self.r7 = val,
            8 => self.pc = val,
            9 => self.cond = val,
            _ => {
                return Err(VmError::InvalidRegister("Invalid registers at set".to_string()));
            },
        }
        Ok(())
    }

    /// Updates the condition flags from the value that register `r` holds:
    /// `FL_ZRO` if it is zero, `FL_NEG` if its bit 15 is set, `FL_POS`
    /// otherwise. With an invalid identifier nothing changes and the error
    /// of `get` is returned.
    pub fn update_flags(&mut self, r: u16) -> (res: Result<(), VmError>)
        ensures
            r < R_COUNT ==> res is Ok && final(self)@ == with_flags(old(self)@, r as int),
            r >= R_COUNT ==> (res matches Err(VmError::InvalidRegister(msg)) && msg@
                == "Invalid registers at get"@) && *final(self) == *old(self),
    {
        let r_value = match self.get(r) {
            Ok(v) => v,
            Err(e) => {
                return Err(e);
            },
        };

        assert((r_value >> 15u16) & 1 == 1 <==> r_value >= 0x8000) by (bit_vector);
        if r_value == 0 {
            self.cond = FL_ZRO;
        } else if (r_value >> 15) & 1 == 1 {
            self.cond = FL_NEG;
        } else {
            self.cond = FL_POS;
        }

        Ok(())
    }
}

} // verus!
