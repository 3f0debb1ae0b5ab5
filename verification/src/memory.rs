//! The memory of the machine, with the keyboard mapped into it.

use vstd::prelude::*;

use crate::constants::{MEMORY_SIZE, MR_KBDR, MR_KBSR};

verus! {

/// Represents the memory of the LC-3 virtual machine.
///
/// Contains an array representing the memory of the virtual machine,
/// allowing for reading and writing operations at specific memory addresses.
/// Two addresses are mapped to the keyboard: `MR_KBSR`, whose bit 15 tells
/// that a key is waiting, and `MR_KBDR`, which holds the last key.
#[derive(Debug)]
pub struct Memory {
    pub memory: [u16; MEMORY_SIZE],
}

/// The memory `mem` after the keyboard has been polled and has answered
/// `key`: with a key, the status register gets its bit 15 alone and the data
/// register gets the key; without one, the status register is cleared and
/// the data register keeps what it held.
pub open spec fn polled(mem: Seq<u16>, key: Option<u8>) -> Seq<u16> {
    match key {
        Some(k) => mem.update(MR_KBSR as int, 0x8000u16).update(MR_KBDR as int, k as u16),
        None => mem.update(MR_KBSR as int, 0u16),
    }
}

/// The memory `mem` after a read of `address` while the keyboard answers
/// `key`: a read of the status register polls the keyboard, any other read
/// leaves the memory as it is.
pub open spec fn after_read(mem: Seq<u16>, address: u16, key: Option<u8>) -> Seq<u16> {
    if address == MR_KBSR {
        polled(mem, key)
    } else {
        mem
    }
}

impl View for Memory {
    type V = Seq<u16>;

    /// The memory as a sequence of `MEMORY_SIZE` words, indexed by address.
    open spec fn view(&self) -> Seq<u16> {
        self.memory@
    }
}

impl Default for Memory {
    fn default() -> (res: Self)
        ensures
            res@ == Memory::zeroed(),
    {
        Self::new()
    }
}

impl Memory {
    /// A memory in which every word is zero.
    pub open spec fn zeroed() -> Seq<u16> {
        Seq::new(MEMORY_SIZE as nat, |i: int| 0u16)
    }

    /// Creates a new `Memory` instance with all memory cells set to `0`.
    pub fn new() -> (res: Memory)
        ensures
            res@ == Memory::zeroed(),
    {
        let res = Memory { memory: [0u16; MEMORY_SIZE] };
        assert(res@ =~= Memory::zeroed());
        res
    }

    /// Reads the value stored at the specified memory address.
    ///
    /// A read of the keyboard status register (`MR_KBSR`) first polls the
    /// keyboard. `key` is what the poll answers: `Some` with the byte that
    /// is waiting, `None` when there is none. With a byte, the status
    /// register gets its bit 15 alone and the byte is stored in the keyboard
    /// data register (`MR_KBDR`); without one the status register is
    /// cleared. A read of any other address ignores `key` and changes
    /// nothing. The value returned is the one stored at `address` after
    /// that.
    pub fn read(&mut self, address: u16, key: Option<u8>) -> (val: u16)
        ensures
            final(self)@ == after_read(old(self)@, address, key),
            val == final(self)@[address as int],
    {
        if address == MR_KBSR {
            match key {
                Some(k) => {
                    self.memory[MR_KBSR as usize] = 0x8000;
                    self.memory[MR_KBDR as usize] = k as u16;
                },
                None => {
                    self.memory[MR_KBSR as usize] = 0;
                },
            }
        }
        self.memory[address as usize]
    }

    /// Writes a value to the specified memory address.
    pub fn write(&mut self, address: u16, val: u16)
        ensures
            final(self)@ == old(self)@.update(address as int, val),
    {
        self.memory[address as usize] = val;
    }
}

} // verus!
