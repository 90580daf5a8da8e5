//! The step loop: fetch up to three bytes at PC, decode, advance PC by the
//! decoded instruction's length, execute, then tick the interrupt-enable
//! delay. PC is advanced before execution, so relative jumps operate on the
//! post-advance PC.

use vstd::prelude::*;

use crate::cpu::{spec_refresh_interupt_flag, spec_with_pc, Register, CPU};
use crate::decoder::{
    get_instruction, spec_decode_seq, spec_operand_len, spec_size, DisassemblyError, Instruction,
};
use crate::executor::{execute, spec_execute, spec_execute_post, ExecutionError};
use crate::memory::{MemoryMap, MEMORY_SIZE};

verus! {

/// The machine under debugging: the memory map and CPU it steps, and the
/// pause/step flags an interactive front-end toggles.
pub struct EmulatorApp {
    pub mem_map: MemoryMap,
    pub cpu: CPU,
    pub step_flag: bool,
    pub pause_flag: bool,
}

impl EmulatorApp {
    /// A paused machine over the given memory and CPU.
    pub fn new(mem_map: MemoryMap, cpu: CPU) -> (r: EmulatorApp)
        ensures
            r.mem_map == mem_map,
            r.cpu == cpu,
            r.step_flag == false,
            r.pause_flag == false,
    {
        EmulatorApp { mem_map, cpu, step_flag: false, pause_flag: false }
    }

    /// The bytes the next fetch reads: up to three starting at PC, clamped
    /// at the end of memory. Never empty, since PC is a 16-bit address.
    pub open spec fn spec_fetch(self) -> Seq<u8> {
        self.mem_map@.subrange(
            self.cpu.pc as int,
            if self.cpu.pc + 3 <= MEMORY_SIZE {
                self.cpu.pc + 3
            } else {
                MEMORY_SIZE as int
            },
        )
    }

    /// Decodes the instruction at PC. The fetch is never empty, so the only
    /// possible error is a missing operand, when an immediate would run
    /// past the end of memory.
    pub fn next_instruction(&self) -> (r: Result<Instruction, DisassemblyError>)
        requires
            self.mem_map.wf(),
        ensures
            self.spec_fetch().len() >= spec_operand_len(self.spec_fetch()[0]) ==> r == Ok::<
                Instruction,
                DisassemblyError,
            >(spec_decode_seq(self.spec_fetch())),
            self.spec_fetch().len() < spec_operand_len(self.spec_fetch()[0]) ==> r == Err::<
                Instruction,
                DisassemblyError,
            >(DisassemblyError::MissingOperand(self.spec_fetch()[0])),
    {
        let pc = self.cpu.read_word(&Register::PC) as usize;
        let n: usize = if pc + 3 <= MEMORY_SIZE {
            3
        } else {
            MEMORY_SIZE - pc
        };
        let bytes = match self.mem_map.read_bytes(pc, n) {
            Ok(v) => v,
            Err(_) => Vec::new(),
        };
        get_instruction(bytes.as_slice())
    }

    /// Advances PC past the instruction, executes it, and on success ticks
    /// the interrupt-enable delay; the M-cycle cost is handed back for the
    /// caller's scheduling. An execution fault is returned with PC already
    /// advanced and the delay not ticked.
    pub fn step(&mut self, instruction: &Instruction) -> (r: Result<u32, ExecutionError>)
        requires
            old(self).mem_map.wf(),
        ensures
            final(self).mem_map.wf(),
            final(self).step_flag == old(self).step_flag,
            final(self).pause_flag == old(self).pause_flag,
            ({
                let mid = spec_with_pc(
                    old(self).cpu,
                    ((old(self).cpu.pc + spec_size(*instruction)) % 65536) as u16,
                );
                match r {
                    Ok(n) => (match spec_execute(*instruction, mid, old(self).mem_map@) {
                        Some(t) => final(self).cpu == spec_refresh_interupt_flag(t.0)
                            && final(self).mem_map@ == t.1 && n == t.2,
                        None => false,
                    }),
                    Err(e) => spec_execute_post(
                        *instruction,
                        mid,
                        old(self).mem_map@,
                        r,
                        final(self).cpu,
                        final(self).mem_map@,
                    ) && final(self).cpu == mid,
                }
            }),
    {
        let size = instruction.get_size();
        self.cpu.add_word(&Register::PC, size as u16);
        match execute(&mut self.mem_map, &mut self.cpu, instruction) {
            Ok(n) => {
                self.cpu.refresh_interupt_flag();
                Ok(n)
            },
            Err(e) => Err(e),
        }
    }
}

} // verus!
