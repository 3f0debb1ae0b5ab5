//! The trap routines: keyboard input, console output and halting.

use vstd::prelude::*;

use crate::constants::{
    MEMORY_SIZE, MR_KBSR, R_PC, R_R7, TRAP_GETC, TRAP_IN, TRAP_OUT, TRAP_PUTS, TRAP_PUTSP,
};
use crate::memory::after_read;
use crate::operations::{trap_vector, trap_vector_of};
use crate::registers::with_flags;
use crate::utils::wrap16;
use crate::vm::{State, Vm};
use crate::vm_error::VmError;

verus! {

/// The low byte of a word.
pub open spec fn low_byte_of(word: u16) -> u8 {
    (word % 256) as u8
}

/// The high byte of a word.
pub open spec fn high_byte_of(word: u16) -> u8 {
    (word / 256) as u8
}

/// The word that a key read from the keyboard leaves in register 0: the
/// byte read, or zero when the input has ended.
pub open spec fn key_word(key: Option<u8>) -> u16 {
    match key {
        Some(k) => k as u16,
        None => 0,
    }
}

/// The bytes that one word of a string prints. A plain string holds one
/// character in each word, its low byte. A packed string holds two: the
/// low byte, then the high byte, which is left out when it is zero.
pub open spec fn word_bytes(word: u16, packed: bool) -> Seq<u8> {
    if packed && high_byte_of(word) != 0 {
        seq![low_byte_of(word), high_byte_of(word)]
    } else {
        seq![low_byte_of(word)]
    }
}

/// What printing a string does, as a pair: the memory once the string has
/// been read, and the bytes printed. The words are read one after the
/// other from `address` on, wrapping at the end of the memory, each
/// through a read that polls the keyboard at its status register, where
/// the keyboard answers `key`. The string ends before the first word that
/// reads as zero, and after `limit` words at the latest.
pub open spec fn string_walk(
    mem: Seq<u16>,
    key: Option<u8>,
    address: u16,
    packed: bool,
    limit: nat,
) -> (Seq<u16>, Seq<u8>)
    decreases limit,
{
    if limit == 0 {
        (mem, Seq::empty())
    } else {
        let read = after_read(mem, address, key);
        let word = read[address as int];
        if word == 0 {
            (read, Seq::empty())
        } else {
            let rest = string_walk(read, key, wrap16(address + 1), packed, (limit - 1) as nat);
            (rest.0, word_bytes(word, packed) + rest.1)
        }
    }
}

/// Printing a string leaves the memory as long as it was.
pub proof fn lemma_walk_keeps_length(
    mem: Seq<u16>,
    key: Option<u8>,
    address: u16,
    packed: bool,
    limit: nat,
)
    requires
        mem.len() == MEMORY_SIZE,
    ensures
        string_walk(mem, key, address, packed, limit).0.len() == MEMORY_SIZE,
    decreases limit,
{
    if limit > 0 {
        let read = after_read(mem, address, key);
        if read[address as int] != 0 {
            lemma_walk_keeps_length(read, key, wrap16(address + 1), packed, (limit - 1) as nat);
        }
    }
}

/// Whether printing the string at `address` polls the keyboard: whether
/// the status register of the keyboard is among the `limit` words at most
/// that are read up to the first zero.
pub open spec fn string_polls(mem: Seq<u16>, address: u16, limit: nat) -> bool
    decreases limit,
{
    if limit == 0 {
        false
    } else if address == MR_KBSR {
        true
    } else if mem[address as int] == 0 {
        false
    } else {
        string_polls(mem, wrap16(address + 1), (limit - 1) as nat)
    }
}

/// Printing a string that does not poll the keyboard does not depend on
/// what the keyboard would answer, and leaves the memory as it is.
pub proof fn lemma_string_ignores_key(
    mem: Seq<u16>,
    key: Option<u8>,
    other: Option<u8>,
    address: u16,
    packed: bool,
    limit: nat,
)
    requires
        !string_polls(mem, address, limit),
    ensures
        string_walk(mem, key, address, packed, limit) == string_walk(
            mem,
            other,
            address,
            packed,
            limit,
        ),
        string_walk(mem, key, address, packed, limit).0 == mem,
    decreases limit,
{
    if limit > 0 && mem[address as int] != 0 {
        lemma_string_ignores_key(
            mem,
            key,
            other,
            wrap16(address + 1),
            packed,
            (limit - 1) as nat,
        );
    }
}

/// The address of word `i` of a string that starts at `address`: strings
/// wrap at the end of the memory.
pub open spec fn word_address(address: u16, i: int) -> u16 {
    wrap16(address + i)
}

/// Whether a string of `len` words lies at `address`, away from the
/// keyboard: `len` words that are not zero, then one that is, none of them
/// the status register of the keyboard.
pub open spec fn holds_string(mem: Seq<u16>, address: u16, len: nat) -> bool {
    &&& forall|i: int| 0 <= i <= len ==> #[trigger] word_address(address, i) != MR_KBSR
    &&& forall|i: int| 0 <= i < len ==> mem[#[trigger] word_address(address, i) as int] != 0
    &&& mem[word_address(address, len as int) as int] == 0
}

/// The bytes that the `len` words at `address` print, each word giving its
/// own, one after the other.
pub open spec fn words_printed(mem: Seq<u16>, address: u16, len: nat, packed: bool) -> Seq<u8> {
    Seq::new(len, |i: int| word_bytes(mem[word_address(address, i) as int], packed)).flatten()
}

/// Reading up to `limit` words of a string of less than `limit` words
/// that lies away from the keyboard prints the bytes of its words and
/// leaves the memory as it is.
proof fn lemma_walk_prints_words(
    mem: Seq<u16>,
    key: Option<u8>,
    address: u16,
    packed: bool,
    len: nat,
    limit: nat,
)
    requires
        holds_string(mem, address, len),
        len < limit,
    ensures
        string_walk(mem, key, address, packed, limit) == (
            mem,
            words_printed(mem, address, len, packed),
        ),
    decreases len,
{
    assert(word_address(address, 0) == address);
    let pieces = Seq::new(
        len,
        |i: int| word_bytes(mem[word_address(address, i) as int], packed),
    );
    if len == 0 {
        assert(pieces.flatten() =~= Seq::<u8>::empty());
    } else {
        let next = wrap16(address + 1);
        let fewer = (len - 1) as nat;
        assert forall|i: int| 0 <= i <= fewer implies #[trigger] word_address(next, i)
            != MR_KBSR by {
            assert(word_address(next, i) == word_address(address, i + 1));
        }
        assert forall|i: int| 0 <= i < fewer implies mem[#[trigger] word_address(next, i) as int]
            != 0 by {
            assert(word_address(next, i) == word_address(address, i + 1));
        }
        assert(word_address(next, fewer as int) == word_address(address, len as int));
        lemma_walk_prints_words(mem, key, next, packed, fewer, (limit - 1) as nat);
        let rest = Seq::new(
            fewer,
            |i: int| word_bytes(mem[word_address(next, i) as int], packed),
        );
        assert forall|i: int| 0 <= i < fewer implies pieces.drop_first()[i] == rest[i] by {
            assert(word_address(next, i) == word_address(address, i + 1));
        }
        assert(pieces.drop_first() =~= rest);
        assert(pieces.first() == word_bytes(mem[address as int], packed));
    }
}

/// The words of a plain string print one byte each, their low byte.
proof fn lemma_plain_words(mem: Seq<u16>, address: u16, len: nat)
    ensures
        words_printed(mem, address, len, false) == Seq::new(
            len,
            |i: int| low_byte_of(mem[word_address(address, i) as int]),
        ),
    decreases len,
{
    let pieces = Seq::new(
        len,
        |i: int| word_bytes(mem[word_address(address, i) as int], false),
    );
    let bytes = Seq::new(len, |i: int| low_byte_of(mem[word_address(address, i) as int]));
    if len == 0 {
        assert(pieces.flatten() =~= bytes);
    } else {
        let next = wrap16(address + 1);
        let fewer = (len - 1) as nat;
        lemma_plain_words(mem, next, fewer);
        let rest = Seq::new(
            fewer,
            |i: int| word_bytes(mem[word_address(next, i) as int], false),
        );
        let tail = Seq::new(fewer, |i: int| low_byte_of(mem[word_address(next, i) as int]));
        assert forall|i: int| 0 <= i < fewer implies pieces.drop_first()[i] == rest[i] by {
            assert(word_address(next, i) == word_address(address, i + 1));
        }
        assert(pieces.drop_first() =~= rest);
        assert(word_address(address, 0) == address);
        assert forall|i: int| 0 <= i < len implies (pieces.first() + tail)[i] == bytes[i] by {
            if i > 0 {
                assert(word_address(next, i - 1) == word_address(address, i));
            }
        }
        assert(pieces.first() + tail =~= bytes);
    }
}

/// Printing a string that lies away from the keyboard prints the bytes of
/// its words, up to the first word that is zero, and leaves the memory as
/// it is, whatever the keyboard would answer. A plain string prints the
/// low byte of each of its words.
pub proof fn lemma_string_prints_words(
    mem: Seq<u16>,
    key: Option<u8>,
    address: u16,
    packed: bool,
    len: nat,
)
    requires
        holds_string(mem, address, len),
        len < MEMORY_SIZE,
    ensures
        string_memory(mem, key, address, packed) == mem,
        string_bytes(mem, key, address, packed) == words_printed(mem, address, len, packed),
        !packed ==> string_bytes(mem, key, address, packed) == Seq::new(
            len,
            |i: int| low_byte_of(mem[word_address(address, i) as int]),
        ),
{
    lemma_walk_prints_words(mem, key, address, packed, len, MEMORY_SIZE as nat);
    if !packed {
        lemma_plain_words(mem, address, len);
    }
}

/// The memory once the string at `address` has been printed. No string is
/// longer than the memory: each word is read once at most.
pub open spec fn string_memory(mem: Seq<u16>, key: Option<u8>, address: u16, packed: bool) -> Seq<
    u16,
> {
    string_walk(mem, key, address, packed, MEMORY_SIZE as nat).0
}

/// The bytes that printing the string at `address` gives.
pub open spec fn string_bytes(mem: Seq<u16>, key: Option<u8>, address: u16, packed: bool) -> Seq<
    u8,
> {
    string_walk(mem, key, address, packed, MEMORY_SIZE as nat).1
}

/// The line that the machine prints when it halts: `HALT` and a line feed.
pub open spec fn halt_message() -> Seq<u8> {
    seq!['H' as u8, 'A' as u8, 'L' as u8, 'T' as u8, '\n' as u8]
}

/// The prompt of the IN trap: `Enter a character: `.
pub open spec fn in_prompt() -> Seq<u8> {
    seq![
        'E' as u8,
        'n' as u8,
        't' as u8,
        'e' as u8,
        'r' as u8,
        ' ' as u8,
        'a' as u8,
        ' ' as u8,
        'c' as u8,
        'h' as u8,
        'a' as u8,
        'r' as u8,
        'a' as u8,
        'c' as u8,
        't' as u8,
        'e' as u8,
        'r' as u8,
        ':' as u8,
        ' ' as u8,
    ]
}

/// The register file after a key has been read into register 0.
pub open spec fn key_result(regs: Seq<u16>, key: Option<u8>) -> Seq<u16> {
    with_flags(regs.update(0, key_word(key)), 0)
}

/// Whether a trap vector halts the machine: every vector does that names
/// no other routine.
pub open spec fn trap_halts(code: u16) -> bool {
    code != TRAP_GETC && code != TRAP_OUT && code != TRAP_PUTS && code != TRAP_IN && code
        != TRAP_PUTSP
}

/// The machine after a TRAP while the keyboard answers `key`: register 7
/// holds the program counter, and the routine that the trap vector names
/// has run.
pub open spec fn trap_state(s: State, instr: u16, key: Option<u8>) -> State {
    let linked = s.registers.update(R_R7 as int, s.registers[R_PC as int]);
    let code = trap_vector_of(instr);
    if code == TRAP_GETC || code == TRAP_IN {
        State { registers: key_result(linked, key), memory: s.memory }
    } else if code == TRAP_PUTS {
        State { registers: linked, memory: string_memory(s.memory, key, s.registers[0], false) }
    } else if code == TRAP_PUTSP {
        State { registers: linked, memory: string_memory(s.memory, key, s.registers[0], true) }
    } else {
        State { registers: linked, memory: s.memory }
    }
}

/// The bytes that a TRAP prints while the keyboard answers `key`.
pub open spec fn trap_output(s: State, instr: u16, key: Option<u8>) -> Seq<u8> {
    let code = trap_vector_of(instr);
    if code == TRAP_GETC {
        Seq::empty()
    } else if code == TRAP_OUT {
        seq![low_byte_of(s.registers[0])]
    } else if code == TRAP_PUTS {
        string_bytes(s.memory, key, s.registers[0], false)
    } else if code == TRAP_IN {
        in_prompt().push(low_byte_of(key_word(key)))
    } else if code == TRAP_PUTSP {
        string_bytes(s.memory, key, s.registers[0], true)
    } else {
        halt_message()
    }
}

/// Extracts the low byte of a word.
pub fn low_byte(word: u16) -> (b: u8)
    ensures
        b == low_byte_of(word),
{
    assert(word & 0xFF == word % 256) by (bit_vector);
    (word & 0xFF) as u8
}

/// Extracts the high byte of a word.
pub fn high_byte(word: u16) -> (b: u8)
    ensures
        b == high_byte_of(word),
{
    assert(word >> 8 == word / 256) by (bit_vector);
    (word >> 8) as u8
}

/// Appends to `out` the prompt of the IN trap.
pub fn write_prompt(out: &mut Vec<u8>)
    ensures
        final(out)@ == old(out)@ + in_prompt(),
{
    let prompt: [u8; 19] = [
        'E' as u8,
        'n' as u8,
        't' as u8,
        'e' as u8,
        'r' as u8,
        ' ' as u8,
        'a' as u8,
        ' ' as u8,
        'c' as u8,
        'h' as u8,
        'a' as u8,
        'r' as u8,
        'a' as u8,
        'c' as u8,
        't' as u8,
        'e' as u8,
        'r' as u8,
        ':' as u8,
        ' ' as u8,
    ];
    let ghost before = out@;
    let mut i: usize = 0;
    while i < 19
        invariant
            i <= 19,
            prompt@ == in_prompt(),
            out@ == before + in_prompt().subrange(0, i as int),
        decreases 19 - i,
    {
        out.push(prompt[i]);
        i += 1;
    }
}

impl Vm {
    /// Handles the `GETC` TRAP instruction.
    ///
    /// Stores in the `R0` register the single character that was read
    /// from the keyboard, without echoing it, and updates the condition
    /// flags from it. `key` is that character, or `None` if the input has
    /// ended, in which case `R0` gets zero. The routine never fails.
    pub fn trap_getc(&mut self, key: Option<u8>) -> (res: Result<(), VmError>)
        ensures
            res is Ok,
            final(self).registers@ == key_result(old(self).registers@, key),
            final(self).memory == old(self).memory,
    {
        self.registers.r0 = match key {
            Some(k) => k as u16,
            None => 0,
        };
        self.registers.update_flags(0)
    }

    /// Handles the `OUT` TRAP instruction.
    ///
    /// This function outputs the single character stored in the low byte
    /// of the `R0` register. The routine never fails.
    pub fn trap_out(&mut self, out: &mut Vec<u8>) -> (res: Result<(), VmError>)
        ensures
            res is Ok,
            *final(self) == *old(self),
            final(out)@ == old(out)@.push(low_byte_of(old(self).registers.r0)),
    {
        out.push(low_byte(self.registers.r0));
        Ok(())
    }

    /// Prints the string that starts at the address in the `R0` register:
    /// plain, one character in each word, or packed, two in each.
    fn print_string(&mut self, packed: bool, key: Option<u8>, out: &mut Vec<u8>)
        ensures
            final(self).registers == old(self).registers,
            final(self).memory@ == string_memory(
                old(self).memory@,
                key,
                old(self).registers.r0,
                packed,
            ),
            final(out)@ == old(out)@ + string_bytes(
                old(self).memory@,
                key,
                old(self).registers.r0,
                packed,
            ),
    {
        let ghost whole = string_walk(
            self.memory@,
            key,
            self.registers.r0,
            packed,
            MEMORY_SIZE as nat,
        );
        let ghost before = out@;
        let ghost mut printed: Seq<u8> = Seq::empty();
        let mut i = self.registers.r0;
        let mut left: usize = MEMORY_SIZE;
        let mut ended = false;
        while left > 0 && !ended
            invariant
                self.registers == old(self).registers,
                out@ == before + printed,
                ended ==> whole == (self.memory@, printed),
                !ended ==> whole.0 == string_walk(self.memory@, key, i, packed, left as nat).0,
                !ended ==> whole.1 == printed + string_walk(
                    self.memory@,
                    key,
                    i,
                    packed,
                    left as nat,
                ).1,
            decreases left + (if ended { 0int } else { 1int }),
        {
            let ghost step = string_walk(self.memory@, key, i, packed, left as nat);
            let ghost read = after_read(self.memory@, i, key);
            let ghost rest = string_walk(read, key, wrap16(i + 1), packed, (left - 1) as nat);
            let word = self.memory.read(i, key);
            if word == 0 {
                ended = true;
            } else {
                out.push(low_byte(word));
                if packed {
                    let high = high_byte(word);
                    if high != 0 {
                        out.push(high);
                    }
                }
                proof {
                    assert(step.1 == word_bytes(word, packed) + rest.1);
                    assert(before + (printed + word_bytes(word, packed)) =~= out@);
                    assert(printed + (word_bytes(word, packed) + rest.1) =~= (printed + word_bytes(
                        word,
                        packed,
                    )) + rest.1);
                    printed = printed + word_bytes(word, packed);
                }
                i = i.wrapping_add(1);
                left -= 1;
            }
        }
        proof {
            assert(printed + Seq::<u8>::empty() =~= printed);
        }
    }

    /// Handles the `PUTS` TRAP instruction.
    ///
    /// This function outputs a null-terminated string stored in memory,
    /// starting from the address in the `R0` register, one character in
    /// the low byte of each word. `key` is what the keyboard answers if
    /// the string runs over its status register. The routine never fails.
    pub fn trap_puts(&mut self, key: Option<u8>, out: &mut Vec<u8>) -> (res: Result<(), VmError>)
        ensures
            res is Ok,
            final(self).registers == old(self).registers,
            final(self).memory@ == string_memory(
                old(self).memory@,
                key,
                old(self).registers.r0,
                false,
            ),
            final(out)@ == old(out)@ + string_bytes(
                old(self).memory@,
                key,
                old(self).registers.r0,
                false,
            ),
    {
        self.print_string(false, key, out);
        Ok(())
    }

    /// Handles the `IN` TRAP instruction.
    ///
    /// This function prompts the user to enter a character and stores it in the `R0` register.
    /// The entered character is also echoed, and the condition flags are
    /// updated from it. `key` is that character, or `None` if the input has
    /// ended, in which case zero stands for it. The routine never fails.
    pub fn trap_in(&mut self, key: Option<u8>, out: &mut Vec<u8>) -> (res: Result<(), VmError>)
        ensures
            res is Ok,
            final(self).registers@ == key_result(old(self).registers@, key),
            final(self).memory == old(self).memory,
            final(out)@ == old(out)@ + in_prompt().push(low_byte_of(key_word(key))),
    {
        write_prompt(out);
        let c: u8 = match key {
            Some(k) => k,
            None => 0,
        };
        out.push(c);
        assert(out@ =~= old(out)@ + in_prompt().push(c));
        self.registers.r0 = c as u16;
        self.registers.update_flags(0)
    }

    /// Handles the `PUTSP` TRAP instruction.
    ///
    /// This function outputs a string stored in memory, starting from the address in the `R0` register.
    /// Each memory location contains two characters packed into one 16-bit word:
    /// the low byte comes first, then the high byte unless it is zero. The
    /// string ends at a word that is zero. `key` is what the keyboard
    /// answers if the string runs over its status register. The routine
    /// never fails.
    pub fn trap_putsp(&mut self, key: Option<u8>, out: &mut Vec<u8>) -> (res: Result<(), VmError>)
        ensures
            res is Ok,
            final(self).registers == old(self).registers,
            final(self).memory@ == string_memory(
                old(self).memory@,
                key,
                old(self).registers.r0,
                true,
            ),
            final(out)@ == old(out)@ + string_bytes(
                old(self).memory@,
                key,
                old(self).registers.r0,
                true,
            ),
    {
        self.print_string(true, key, out);
        Ok(())
    }

    /// Handles the `HALT` TRAP instruction.
    ///
    /// This function prints `HALT` on a line and halts the program by
    /// setting the `running` flag to `false`. The routine never fails.
    pub fn trap_halt(&self, out: &mut Vec<u8>, running: &mut bool) -> (res: Result<(), VmError>)
        ensures
            res is Ok,
            final(out)@ == old(out)@ + halt_message(),
            !*final(running),
    {
        out.push('H' as u8);
        out.push('A' as u8);
        out.push('L' as u8);
        out.push('T' as u8);
        out.push('\n' as u8);
        *running = false;
        assert(out@ =~= old(out)@ + halt_message());
        Ok(())
    }

    /// Handles the correct trap routine based on the instruction.
    ///
    /// Register 7 gets the program counter, then the routine that the low
    /// byte of the instruction names runs; a byte that names none halts
    /// the machine. `key` is what the keyboard answers to the routine, `out`
    /// receives what it prints, and `running` is cleared if it halts the
    /// machine. No routine fails.
    pub fn handle_trap(
        &mut self,
        instr: u16,
        key: Option<u8>,
        out: &mut Vec<u8>,
        running: &mut bool,
    ) -> (res: Result<(), VmError>)
        ensures
            res is Ok,
            final(self)@ == trap_state(old(self)@, instr, key),
            final(out)@ == old(out)@ + trap_output(old(self)@, instr, key),
            *final(running) == (*old(running) && !trap_halts(trap_vector_of(instr))),
    {
        self.registers.r7 = self.registers.pc;
        let trap_instr = trap_vector(instr);
        match trap_instr {
            TRAP_GETC => self.trap_getc(key),
            TRAP_OUT => self.trap_out(out),
            TRAP_PUTS => self.trap_puts(key, out),
            TRAP_IN => self.trap_in(key, out),
            TRAP_PUTSP => self.trap_putsp(key, out),
            _ => self.trap_halt(out, running),
        }
    }
}

} // verus!
