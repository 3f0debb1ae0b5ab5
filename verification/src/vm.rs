//! The machine: the dispatch of operations, the fetch-execute cycle, what a
//! cycle asks of the keyboard, and the run of a program.

use vstd::prelude::*;

use crate::constants::{
    FL_NEG, FL_POS, FL_ZRO, MEMORY_SIZE, MR_KBSR, OP_ADD, OP_AND, OP_BR, OP_JMP, OP_JSR, OP_LD,
    OP_LDI, OP_LDR, OP_LEA, OP_NOT, OP_RES, OP_RTI, OP_ST, OP_STI, OP_STR, OP_TRAP, R_COND,
    R_COUNT, R_PC, TRAP_GETC, TRAP_IN, TRAP_PUTS, TRAP_PUTSP,
};
use crate::memory::{after_read, Memory};
use crate::operations::op_add::{add_result, OpAdd};
use crate::operations::op_and::{and_result, OpAnd};
use crate::operations::op_br::{br_result, OpBr};
use crate::operations::op_jmp::{jmp_result, OpJmp};
use crate::operations::op_jsr::{jsr_result, OpJsr};
use crate::operations::op_ld::{ld_memory, ld_result};
use crate::operations::op_ldi::{ldi_memory, ldi_result, OpLdi};
use crate::operations::op_ldr::{ldr_memory, ldr_result, OpLdr};
use crate::operations::op_lea::lea_result;
use crate::operations::op_not::not_result;
use crate::operations::op_st::{st_result, OpSt};
use crate::operations::op_sti::sti_result;
use crate::operations::op_str::{str_result, OpStr};
use crate::operations::trap::{
    halt_message, in_prompt, key_word, lemma_string_ignores_key, lemma_walk_keeps_length,
    low_byte_of, string_polls, trap_halts, trap_output, trap_state,
};
use crate::operations::{
    base, base_relative, dest_of, lemma_fields_in_range, offset6, offset9, opcode, opcode_of,
    pc_relative, trap_vector, trap_vector_of,
};
use crate::registers::{flag_of, Registers};
use crate::utils::{add_offset, image_fits, loaded, read_image_file, wrap16};
use crate::vm_error::VmError;

verus! {

/// Represents the virtual machine (VM) that emulates the LC-3 computer.
///
/// # Fields
/// * `registers` - Holds the state of the LC-3 registers.
/// * `memory` - Manages the memory of the LC-3 machine.
///
pub struct Vm {
    pub registers: Registers,
    pub memory: Memory,
}

/// The state of a machine as mathematics.
#[verifier::ext_equal]
pub struct State {
    /// The register file: ten words, the general-purpose registers first,
    /// then the program counter and the condition register.
    pub registers: Seq<u16>,
    /// The memory: a word for each address.
    pub memory: Seq<u16>,
}

impl State {
    /// Whether the state is that of a machine: ten registers and a word of
    /// memory for each address.
    pub open spec fn wf(self) -> bool {
        self.registers.len() == R_COUNT && self.memory.len() == MEMORY_SIZE
    }
}

impl View for Vm {
    type V = State;

    open spec fn view(&self) -> State {
        State { registers: self.registers@, memory: self.memory@ }
    }
}

/// The state of any machine is well formed.
pub proof fn lemma_view_wf(vm: &Vm)
    ensures
        vm@.wf(),
{
}

/// Whether an operation code names one of the fourteen operations that the
/// machine implements. The other two, `OP_RTI` and `OP_RES`, and any number
/// that is no operation code at all, halt the machine.
pub open spec fn implemented(op: u16) -> bool {
    op < 16 && op != OP_RTI && op != OP_RES
}

/// The machine after the operation `op` has run on the instruction `instr`
/// while the keyboard answers `key`.
pub open spec fn executed(s: State, instr: u16, op: u16, key: Option<u8>) -> State {
    let regs = s.registers;
    let mem = s.memory;
    if op == OP_ADD {
        State { registers: add_result(regs, instr), memory: mem }
    } else if op == OP_AND {
        State { registers: and_result(regs, instr), memory: mem }
    } else if op == OP_NOT {
        State { registers: not_result(regs, instr), memory: mem }
    } else if op == OP_BR {
        State { registers: br_result(regs, instr), memory: mem }
    } else if op == OP_JMP {
        State { registers: jmp_result(regs, instr), memory: mem }
    } else if op == OP_JSR {
        State { registers: jsr_result(regs, instr), memory: mem }
    } else if op == OP_LD {
        State {
            registers: ld_result(regs, mem, instr, key),
            memory: ld_memory(regs, mem, instr, key),
        }
    } else if op == OP_LDI {
        State {
            registers: ldi_result(regs, mem, instr, key),
            memory: ldi_memory(regs, mem, instr, key),
        }
    } else if op == OP_LDR {
        State {
            registers: ldr_result(regs, mem, instr, key),
            memory: ldr_memory(regs, mem, instr, key),
        }
    } else if op == OP_LEA {
        State { registers: lea_result(regs, instr), memory: mem }
    } else if op == OP_ST {
        State { registers: regs, memory: st_result(regs, mem, instr) }
    } else if op == OP_STI {
        State { registers: regs, memory: sti_result(regs, mem, instr, key) }
    } else if op == OP_STR {
        State { registers: regs, memory: str_result(regs, mem, instr) }
    } else if op == OP_TRAP {
        trap_state(s, instr, key)
    } else {
        s
    }
}

/// The bytes that the operation `op` prints on the instruction `instr`
/// while the keyboard answers `key`: what a trap prints, or the halt
/// message of an operation that is not implemented.
pub open spec fn printed(s: State, instr: u16, op: u16, key: Option<u8>) -> Seq<u8> {
    if op == OP_TRAP {
        trap_output(s, instr, key)
    } else if implemented(op) {
        Seq::empty()
    } else {
        halt_message()
    }
}

/// Whether the operation `op` halts the machine on the instruction `instr`:
/// a trap whose vector halts, or an operation that is not implemented.
pub open spec fn halts(instr: u16, op: u16) -> bool {
    if op == OP_TRAP {
        trap_halts(trap_vector_of(instr))
    } else {
        !implemented(op)
    }
}

/// Whether an operation updates the condition flags from the register that
/// it writes: the operations that compute or load do, those that branch,
/// jump or store do not.
pub open spec fn updates_flags(op: u16) -> bool {
    op == OP_ADD || op == OP_AND || op == OP_NOT || op == OP_LD || op == OP_LDI || op == OP_LDR
        || op == OP_LEA
}

/// The condition register follows the operations. After an operation that
/// updates the flags it holds the one flag that describes the destination
/// register; so it does after the traps GETC and IN, for register 0. After
/// any other operation it holds what it held.
pub proof fn lemma_condition_flags(s: State, instr: u16, op: u16, key: Option<u8>)
    requires
        s.wf(),
    ensures
        ({
            let after = executed(s, instr, op, key).registers;
            let reads_key = op == OP_TRAP && (trap_vector_of(instr) == TRAP_GETC || trap_vector_of(
                instr,
            ) == TRAP_IN);
            let cond = after[R_COND as int];
            &&& updates_flags(op) ==> cond == flag_of(after[dest_of(instr) as int])
            &&& reads_key ==> cond == flag_of(after[0])
            &&& !updates_flags(op) && !reads_key ==> cond == s.registers[R_COND as int]
            &&& updates_flags(op) || reads_key ==> cond == FL_POS || cond == FL_ZRO || cond
                == FL_NEG
        }),
{
}

/// The machine after the fetch of its next instruction while the keyboard
/// answers `key`: the word at the program counter has been read, and the
/// program counter has moved to the next word, wrapping at 16 bits.
pub open spec fn fetched(s: State, key: Option<u8>) -> State {
    State {
        registers: s.registers.update(R_PC as int, wrap16(s.registers[R_PC as int] + 1)),
        memory: after_read(s.memory, s.registers[R_PC as int], key),
    }
}

/// The instruction that the machine fetches next while the keyboard
/// answers `key`.
pub open spec fn next_instr(s: State, key: Option<u8>) -> u16 {
    fetched(s, key).memory[s.registers[R_PC as int] as int]
}

/// The machine after one cycle while the keyboard answers `key`: the next
/// instruction has been fetched and the operation named in its bits 15 to
/// 12 has run on it.
pub open spec fn stepped(s: State, key: Option<u8>) -> State {
    executed(fetched(s, key), next_instr(s, key), opcode_of(next_instr(s, key)), key)
}

/// The bytes that the machine prints in its next cycle while the keyboard
/// answers `key`.
pub open spec fn step_output(s: State, key: Option<u8>) -> Seq<u8> {
    printed(fetched(s, key), next_instr(s, key), opcode_of(next_instr(s, key)), key)
}

/// Whether the machine halts in its next cycle while the keyboard answers
/// `key`.
pub open spec fn step_halts(s: State, key: Option<u8>) -> bool {
    halts(next_instr(s, key), opcode_of(next_instr(s, key)))
}

/// What a cycle of the machine needs from the keyboard before it can run.
#[derive(Debug, Clone, Copy, PartialEq, Eq, Structural)]
pub enum InputRequest {
    /// Nothing: the cycle does not look at the keyboard, and the key that
    /// it is handed makes no difference.
    Nothing,
    /// The keyboard is polled without waiting: the key to hand in is the
    /// byte that is waiting, if there is one.
    Poll,
    /// A key is waited for: the key to hand in is the next byte, and none
    /// only when the input has ended.
    Wait,
    /// A key is waited for, as for `Wait`, by a cycle that prompts for
    /// it. The cycle prints the prompt itself, ahead of the echo of the
    /// key. A driver that is to show the prompt before the key is typed
    /// shows it when it gets this request, and leaves it out of what the
    /// cycle prints.
    Prompt,
}

/// `Poll` if `polls`, else `Nothing`.
pub open spec fn poll_if(polls: bool) -> InputRequest {
    if polls {
        InputRequest::Poll
    } else {
        InputRequest::Nothing
    }
}

/// What the next cycle of the machine needs from the keyboard. A cycle
/// polls the keyboard if it reads the status register: as the instruction
/// itself, as the operand of a load, as the pointer of an indirect load or
/// store, or as a word of a string that it prints. The traps GETC and IN
/// wait for a key.
#[verifier::opaque]
pub open spec fn requested(s: State) -> InputRequest {
    let pc = s.registers[R_PC as int];
    let instr = s.memory[pc as int];
    let regs = fetched(s, None).registers;
    let op = opcode_of(instr);
    if pc == MR_KBSR {
        InputRequest::Poll
    } else if op == OP_LD || op == OP_STI {
        poll_if(pc_relative(regs, instr) == MR_KBSR)
    } else if op == OP_LDI {
        poll_if(
            pc_relative(regs, instr) == MR_KBSR || s.memory[pc_relative(regs, instr) as int]
                == MR_KBSR,
        )
    } else if op == OP_LDR {
        poll_if(base_relative(regs, instr) == MR_KBSR)
    } else if op == OP_TRAP {
        let code = trap_vector_of(instr);
        if code == TRAP_GETC {
            InputRequest::Wait
        } else if code == TRAP_IN {
            InputRequest::Prompt
        } else if code == TRAP_PUTS || code == TRAP_PUTSP {
            poll_if(string_polls(s.memory, s.registers[0], MEMORY_SIZE as nat))
        } else {
            InputRequest::Nothing
        }
    } else {
        InputRequest::Nothing
    }
}

/// The key that a driver hands to a cycle that makes the request
/// `request` when the keys still to come are `input`: the first of them if
/// the cycle looks at the keyboard and there is one.
pub open spec fn answer(request: InputRequest, input: Seq<u8>) -> Option<u8> {
    if request != InputRequest::Nothing && input.len() > 0 {
        Some(input[0])
    } else {
        None
    }
}

/// The keys still to come after the answer to `request` has been taken
/// from `input`.
pub open spec fn unread(request: InputRequest, input: Seq<u8>) -> Seq<u8> {
    if request != InputRequest::Nothing && input.len() > 0 {
        input.skip(1)
    } else {
        input
    }
}

/// What a run of the machine gives.
#[verifier::ext_equal]
pub struct Trace {
    /// The machine at the end of the run.
    pub state: State,
    /// The bytes printed during the run, in order.
    pub output: Seq<u8>,
    /// Whether the run ended because the machine halted.
    pub halted: bool,
}

/// A run of `limit` cycles at most of the machine `s` on the keys `input`:
/// cycle after cycle, each handed the key that it requests, until one
/// halts the machine.
pub open spec fn ran(s: State, input: Seq<u8>, limit: nat) -> Trace
    decreases limit,
{
    if limit == 0 {
        Trace { state: s, output: Seq::empty(), halted: false }
    } else {
        let request = requested(s);
        let key = answer(request, input);
        let output = step_output(s, key);
        if step_halts(s, key) {
            Trace { state: stepped(s, key), output, halted: true }
        } else {
            let rest = ran(stepped(s, key), unread(request, input), (limit - 1) as nat);
            Trace { state: rest.state, output: output + rest.output, halted: rest.halted }
        }
    }
}

/// An operation takes a well-formed state to a well-formed state.
pub proof fn lemma_operation_keeps_wf(s: State, instr: u16, op: u16, key: Option<u8>)
    requires
        s.wf(),
    ensures
        executed(s, instr, op, key).wf(),
{
    lemma_fields_in_range(instr);
    lemma_walk_keeps_length(s.memory, key, s.registers[0], false, MEMORY_SIZE as nat);
    lemma_walk_keeps_length(s.memory, key, s.registers[0], true, MEMORY_SIZE as nat);
}

/// A cycle takes a well-formed state to a well-formed state.
pub proof fn lemma_cycle_keeps_wf(s: State, key: Option<u8>)
    requires
        s.wf(),
    ensures
        stepped(s, key).wf(),
{
    let instr = next_instr(s, key);
    lemma_operation_keeps_wf(fetched(s, key), instr, opcode_of(instr), key);
}

/// A run takes a well-formed state to a well-formed state.
pub proof fn lemma_run_keeps_wf(s: State, input: Seq<u8>, limit: nat)
    requires
        s.wf(),
    ensures
        ran(s, input, limit).state.wf(),
    decreases limit,
{
    if limit > 0 {
        let request = requested(s);
        let key = answer(request, input);
        lemma_cycle_keeps_wf(s, key);
        if !step_halts(s, key) {
            lemma_run_keeps_wf(stepped(s, key), unread(request, input), (limit - 1) as nat);
        }
    }
}

/// A cycle that requests nothing from the keyboard ignores the key that it
/// is handed: the machine after it, what it prints and whether it halts
/// are the same for any two keys.
pub proof fn lemma_unrequested_key_is_ignored(s: State, key: Option<u8>, other: Option<u8>)
    requires
        s.wf(),
        requested(s) == InputRequest::Nothing,
    ensures
        stepped(s, key) == stepped(s, other),
        step_output(s, key) == step_output(s, other),
        step_halts(s, key) == step_halts(s, other),
{
    reveal(requested);
    let pc = s.registers[R_PC as int];
    let instr = s.memory[pc as int];
    let regs = fetched(s, None).registers;
    assert(fetched(s, key) == fetched(s, other));
    assert(fetched(s, key).registers == regs);
    if opcode_of(instr) == OP_TRAP && (trap_vector_of(instr) == TRAP_PUTS || trap_vector_of(instr)
        == TRAP_PUTSP) {
        lemma_string_ignores_key(
            s.memory,
            key,
            other,
            s.registers[0],
            trap_vector_of(instr) == TRAP_PUTSP,
            MEMORY_SIZE as nat,
        );
    }
}

/// A cycle that makes the request `Prompt` prints the prompt of the IN
/// trap first, then the echo of the key, and nothing else.
pub proof fn lemma_prompt_comes_first(s: State, key: Option<u8>)
    requires
        s.wf(),
        requested(s) == InputRequest::Prompt,
    ensures
        step_output(s, key) == in_prompt().push(low_byte_of(key_word(key))),
{
    reveal(requested);
}

/// A run that has halted is final: with more cycles allowed, the run is
/// the same. The machine halts once, and runs no cycle after that.
pub proof fn lemma_halted_run_is_final(s: State, input: Seq<u8>, limit: nat, more: nat)
    requires
        ran(s, input, limit).halted,
        limit <= more,
    ensures
        ran(s, input, more) == ran(s, input, limit),
    decreases limit,
{
    if limit > 0 {
        let request = requested(s);
        let key = answer(request, input);
        if !step_halts(s, key) {
            lemma_halted_run_is_final(
                stepped(s, key),
                unread(request, input),
                (limit - 1) as nat,
                (more - 1) as nat,
            );
        }
    }
}

/// The memory after the first `count` of the images `images` have been
/// loaded into `mem`, one after the other.
pub open spec fn images_loaded(mem: Seq<u16>, images: Seq<Vec<u8>>, count: int) -> Seq<u16>
    decreases count,
{
    if count <= 0 {
        mem
    } else {
        loaded(images_loaded(mem, images, count - 1), images[count - 1]@)
    }
}

/// The number of images at the head of `images` that fit in the memory:
/// the index of the first one that does not, or the number of images if
/// they all fit.
pub open spec fn fitting(images: Seq<Vec<u8>>) -> int
    decreases images.len(),
{
    if images.len() == 0 {
        0
    } else if !image_fits(images[0]@) {
        0
    } else {
        1 + fitting(images.skip(1))
    }
}

/// The message of the error that refuses an image.
pub open spec fn refusal(image: Seq<u8>) -> Seq<char> {
    if image.len() < 2 {
        "failed to fill whole buffer"@
    } else {
        "Address overflow while reading image file"@
    }
}

impl Vm {
    /// Creates a machine with its registers in their initial state and a
    /// memory full of zeros.
    pub fn new() -> (vm: Vm)
        ensures
            vm.registers@ == Registers::initial(),
            vm.memory@ == Memory::zeroed(),
    {
        Vm { registers: Registers::new(), memory: Memory::new() }
    }

    /// Creates a new `Vm` instance from a set of images.
    ///
    /// This method initializes the memory and registers of the LC-3 machine
    /// and loads the images into memory in the order given, each being the
    /// contents of an image file. The first image that does not fit is
    /// refused with its error, and no machine is made.
    pub fn new_from_images(images: &Vec<Vec<u8>>) -> (res: Result<Vm, VmError>)
        ensures
            fitting(images@) == images@.len() <==> res is Ok,
            res matches Ok(vm) ==> vm.registers@ == Registers::initial() && vm.memory@
                == images_loaded(Memory::zeroed(), images@, images@.len() as int),
            res matches Err(e) ==> (e matches VmError::FailedToReadBigEndian(msg) && msg@
                == refusal(images@[fitting(images@)]@)),
    {
        let mut memory = Memory::new();
        let registers = Registers::new();
        let mut i: usize = 0;
        assert(images@.skip(0) =~= images@);
        while i < images.len()
            invariant
                i <= images@.len(),
                memory@ == images_loaded(Memory::zeroed(), images@, i as int),
                fitting(images@) == i + fitting(images@.skip(i as int)),
            decreases images@.len() - i,
        {
            let ghost tail = images@.skip(i as int);
            assert(tail[0] == images@[i as int]);
            assert(tail.skip(1) =~= images@.skip(i + 1));
            match read_image_file(images[i].as_slice(), &mut memory) {
                Ok(()) => {},
                Err(e) => {
                    return Err(e);
                },
            }
            i += 1;
        }
        assert(images@.skip(i as int).len() == 0);
        Ok(Vm { registers, memory })
    }

    /// Handles the execution of operations based on the provided opcode.
    ///
    /// # Parameters
    ///
    /// - `instr`: The instruction to be executed.
    /// - `op`: The operation code extracted from the instruction.
    /// - `key`: What the keyboard answers if the operation reads it.
    /// - `out`: Receives the bytes that the operation prints.
    /// - `running`: Boolean flag that indicates if the program is running.
    ///
    /// An operation code that names no implemented operation halts the
    /// machine as the HALT trap does, but for register 7, which it leaves
    /// alone. The flag `running` is only ever cleared. No operation fails.
    pub fn handle_operations(
        &mut self,
        instr: u16,
        op: u16,
        key: Option<u8>,
        out: &mut Vec<u8>,
        running: &mut bool,
    ) -> (res: Result<(), VmError>)
        ensures
            res is Ok,
            final(self)@ == executed(old(self)@, instr, op, key),
            final(out)@ == old(out)@ + printed(old(self)@, instr, op, key),
            *final(running) == (*old(running) && !halts(instr, op)),
    {
        match op {
            OP_ADD => self.op_add(instr),
            OP_AND => self.op_and(instr),
            OP_NOT => self.op_not(instr),
            OP_BR => {
                self.op_br(instr);
                Ok(())
            },
            OP_JMP => self.op_jmp(instr),
            OP_JSR => self.op_jsr(instr),
            OP_LD => self.op_ld(instr, key),
            OP_LDI => self.op_ldi(instr, key),
            OP_LDR => self.op_ldr(instr, key),
            OP_LEA => self.op_lea(instr),
            OP_ST => self.op_st(instr),
            OP_STI => self.op_sti(instr, key),
            OP_STR => self.op_str(instr),
            OP_TRAP => self.handle_trap(instr, key, out, running),
            _ => self.trap_halt(out, running),
        }
    }

    /// Tells whether printing the string at `address` polls the keyboard.
    fn string_reaches_keyboard(&self, address: u16) -> (polls: bool)
        ensures
            polls == string_polls(self.memory@, address, MEMORY_SIZE as nat),
    {
        let mut i = address;
        let mut left: usize = MEMORY_SIZE;
        while left > 0 && i != MR_KBSR && self.memory.memory[i as usize] != 0
            invariant
                string_polls(self.memory@, address, MEMORY_SIZE as nat) == string_polls(
                    self.memory@,
                    i,
                    left as nat,
                ),
            decreases left,
        {
            i = i.wrapping_add(1);
            left -= 1;
        }
        left > 0 && i == MR_KBSR
    }

    /// Tells what the next cycle needs from the keyboard, without running
    /// it. A driver asks this before each cycle, gets the key accordingly
    /// and hands it to `step`. The question never fails.
    pub fn input_request(&self) -> (res: Result<InputRequest, VmError>)
        ensures
            res == Ok::<InputRequest, VmError>(requested(self@)),
    {
        reveal(requested);
        let pc = self.registers.pc;
        if pc == MR_KBSR {
            return Ok(InputRequest::Poll);
        }
        let instr = self.memory.memory[pc as usize];
        let next = pc.wrapping_add(1);
        let polls = match opcode(instr) {
            OP_LD | OP_STI => add_offset(next, offset9(instr)) == MR_KBSR,
            OP_LDI => {
                let pointer = add_offset(next, offset9(instr));
                pointer == MR_KBSR || self.memory.memory[pointer as usize] == MR_KBSR
            },
            OP_LDR => {
                let value = self.registers.get(base(instr))?;
                add_offset(value, offset6(instr)) == MR_KBSR
            },
            OP_TRAP => match trap_vector(instr) {
                TRAP_GETC => {
                    return Ok(InputRequest::Wait);
                },
                TRAP_IN => {
                    return Ok(InputRequest::Prompt);
                },
                TRAP_PUTS | TRAP_PUTSP => self.string_reaches_keyboard(self.registers.r0),
                _ => false,
            },
            _ => false,
        };
        if polls {
            Ok(InputRequest::Poll)
        } else {
            Ok(InputRequest::Nothing)
        }
    }

    /// Runs one cycle of the machine: fetches the instruction at the
    /// program counter, moves the program counter to the next word and
    /// executes the instruction.
    ///
    /// `key` is what the keyboard answers to the request that
    /// `input_request` made for this cycle, `out` receives what the cycle
    /// prints, and `running` is cleared if the cycle halts the machine. No
    /// cycle fails.
    pub fn step(&mut self, key: Option<u8>, out: &mut Vec<u8>, running: &mut bool) -> (res: Result<
        (),
        VmError,
    >)
        ensures
            res is Ok,
            final(self)@ == stepped(old(self)@, key),
            final(out)@ == old(out)@ + step_output(old(self)@, key),
            *final(running) == (*old(running) && !step_halts(old(self)@, key)),
    {
        let pc = self.registers.pc;
        let instr = self.memory.read(pc, key);
        self.registers.pc = pc.wrapping_add(1);
        assert(self.registers@ =~= old(self).registers@.update(R_PC as int, wrap16(pc + 1)));
        assert(self@ == fetched(old(self)@, key));
        let op = opcode(instr);
        self.handle_operations(instr, op, key, out, running)
    }

    /// Runs the loaded program on the keys in `input`.
    ///
    /// This method enters the main loop of the virtual machine, where it fetches, decodes,
    /// and executes instructions, until the program halts or `cycles`
    /// cycles have run. A cycle that asks for a key gets the next byte of
    /// `input`, and none once they are used up. `out` receives what the
    /// program prints, prompts included. The result tells whether the
    /// program halted. No run fails.
    pub fn run(&mut self, input: &[u8], out: &mut Vec<u8>, cycles: usize) -> (res: Result<
        bool,
        VmError,
    >)
        ensures
            res == Ok::<bool, VmError>(ran(old(self)@, input@, cycles as nat).halted),
            final(self)@ == ran(old(self)@, input@, cycles as nat).state,
            final(out)@ == old(out)@ + ran(old(self)@, input@, cycles as nat).output,
    {
        let ghost whole = ran(self@, input@, cycles as nat);
        let ghost before = out@;
        let ghost mut done: Seq<u8> = Seq::empty();
        let mut running = true;
        let mut left = cycles;
        let mut at: usize = 0;
        assert(input@.skip(0) =~= input@);
        while running && left > 0
            invariant
                at <= input@.len(),
                out@ == before + done,
                !running ==> whole == (Trace { state: self@, output: done, halted: true }),
                running ==> whole.state == ran(self@, input@.skip(at as int), left as nat).state,
                running ==> whole.output == done + ran(
                    self@,
                    input@.skip(at as int),
                    left as nat,
                ).output,
                running ==> whole.halted == ran(
                    self@,
                    input@.skip(at as int),
                    left as nat,
                ).halted,
            decreases left,
        {
            let ghost keys = input@.skip(at as int);
            let ghost start = self@;
            let request = self.input_request()?;
            let key = if request != InputRequest::Nothing && at < input.len() {
                let k = input[at];
                at += 1;
                Some(k)
            } else {
                None
            };
            self.step(key, out, &mut running)?;
            left -= 1;
            proof {
                assert(key == answer(request, keys));
                assert(input@.skip(at as int) =~= unread(request, keys));
                let here = step_output(start, key);
                assert(out@ =~= before + (done + here));
                if running {
                    let rest = ran(self@, input@.skip(at as int), left as nat);
                    assert(done + (here + rest.output) =~= (done + here) + rest.output);
                }
                done = done + here;
            }
        }
        proof {
            assert(done + Seq::<u8>::empty() =~= done);
        }
        Ok(!running)
    }
}

} // verus!
