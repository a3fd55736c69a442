//! Processor state, its 64 KiB memory, and the mathematical model of both.
use vstd::prelude::*;

use crate::instructions::{
    decode, encodes_in, is_opcode_in, run_instruction, Dialect,
    ExecutionError, Instruction,
};
use crate::semantics::step;
use crate::utils::{combine, combine_spec, wrap16, wrap8};

verus! {

/// Number of bytes of memory.
pub const MEMORY_SIZE: usize = 65536;

/// Address at which execution starts.
pub const START_ADDRESS: u16 = 0x0400;

/// The status register packed as a byte: `N V 1 B D I Z C`, bit 7 first.
pub open spec fn pack_status(n: bool, v: bool, b: bool, d: bool, i: bool, z: bool, c: bool) -> u8 {
    (if n { 0x80u8 } else { 0u8 }) | (if v { 0x40u8 } else { 0u8 }) | 0x20u8 | (if b {
        0x10u8
    } else {
        0u8
    }) | (if d { 0x08u8 } else { 0u8 }) | (if i { 0x04u8 } else { 0u8 }) | (if z {
        0x02u8
    } else {
        0u8
    }) | (if c { 0x01u8 } else { 0u8 })
}

/// The model of a processor: memory as a sequence of bytes, the registers,
/// the low byte of the stack pointer, the seven flags, the number of
/// instructions completed, and whether the dialect is the 65C02.
pub struct CpuState {
    pub mem: Seq<u8>,
    pub a: u8,
    pub x: u8,
    pub y: u8,
    pub pc: u16,
    pub sp: u8,
    pub n: bool,
    pub v: bool,
    pub b: bool,
    pub d: bool,
    pub i: bool,
    pub z: bool,
    pub c: bool,
    pub count: u32,
    pub cmos: bool,
}

impl CpuState {
    pub open spec fn read(self, addr: u16) -> u8 {
        self.mem[addr as int]
    }

    pub open spec fn write(self, addr: u16, v: u8) -> CpuState {
        CpuState { mem: self.mem.update(addr as int, v), ..self }
    }

    /// The `k`-th byte from the program counter on.
    pub open spec fn operand(self, k: int) -> u8 {
        self.read(wrap16(self.pc + k))
    }

    /// The state with the program counter moved `k` bytes on.
    pub open spec fn advance(self, k: int) -> CpuState {
        CpuState { pc: wrap16(self.pc + k), ..self }
    }

    /// `N` takes bit 7 of `v`, `Z` whether `v` is zero.
    pub open spec fn with_nz(self, v: u8) -> CpuState {
        CpuState { n: v >= 0x80, z: v == 0, ..self }
    }

    /// The packed status register.
    pub open spec fn status(self) -> u8 {
        pack_status(self.n, self.v, self.b, self.d, self.i, self.z, self.c)
    }

    /// The state with all seven flags taken from a packed status byte.
    pub open spec fn with_status(self, p: u8) -> CpuState {
        CpuState {
            n: p & 0x80 != 0,
            v: p & 0x40 != 0,
            b: p & 0x10 != 0,
            d: p & 0x08 != 0,
            i: p & 0x04 != 0,
            z: p & 0x02 != 0,
            c: p & 0x01 != 0,
            ..self
        }
    }

    /// The address in page 1 that the stack pointer designates.
    pub open spec fn stack_top(self) -> u16 {
        (0x100 + self.sp) as u16
    }

    /// Writes `v` at the stack pointer, then moves the pointer down.
    pub open spec fn push(self, v: u8) -> CpuState {
        CpuState { mem: self.mem.update(self.stack_top() as int, v), sp: wrap8(self.sp - 1), ..self }
    }

    /// The state after a pull: the stack pointer moved up.
    pub open spec fn after_pull(self) -> CpuState {
        CpuState { sp: wrap8(self.sp + 1), ..self }
    }

    /// The byte that a pull returns.
    pub open spec fn pulled(self) -> u8 {
        self.after_pull().read(self.after_pull().stack_top())
    }
}

/// Whether a step reached the instruction count at which to stop.
#[derive(Clone, Copy, Debug, PartialEq, Eq, Structural)]
pub enum ExecutionFinished {
    YES,
    NO,
}

/// A linear store of 65 536 bytes.
#[derive(Debug)]
pub struct Memory {
    data: Vec<u8>,
}

impl View for Memory {
    type V = Seq<u8>;

    closed spec fn view(&self) -> Seq<u8> {
        self.data@
    }
}

impl Memory {
    /// Memory holds exactly one byte per 16-bit address.
    pub open spec fn wf(&self) -> bool {
        self@.len() == MEMORY_SIZE
    }

    /// The byte at `msb:lsb` plus `offset`.
    pub fn get(&self, lsb: u8, msb: u8, offset: u8) -> (r: u8)
        requires
            self.wf(),
        ensures
            r == self@[combine_spec(lsb, msb, offset) as int],
    {
        let address = combine(lsb, msb, offset);
        self.get16(address)
    }

    /// The byte at `address`.
    pub fn get16(&self, address: u16) -> (r: u8)
        requires
            self.wf(),
        ensures
            r == self@[address as int],
    {
        self.data[address as usize]
    }

    /// Stores `value` at `msb:lsb` plus `offset`.
    pub fn set(&mut self, lsb: u8, msb: u8, offset: u8, value: u8)
        requires
            old(self).wf(),
        ensures
            final(self).wf(),
            final(self)@ == old(self)@.update(combine_spec(lsb, msb, offset) as int, value),
    {
        let address = combine(lsb, msb, offset);
        self.set16(address, value);
    }

    /// Stores `value` at `address`.
    pub fn set16(&mut self, address: u16, value: u8)
        requires
            old(self).wf(),
        ensures
            final(self).wf(),
            final(self)@ == old(self)@.update(address as int, value),
    {
        self.data.set(address as usize, value);
    }
}

/// The processor: registers, flags, stack pointer, memory, and the number of
/// instructions completed. Only the low byte of `sp` is in use.
pub struct CPU {
    pub memory: Memory,
    pub a: u8,
    pub x: u8,
    pub y: u8,
    pub pc: u16,
    pub sp: u16,
    pub n: bool,
    pub v: bool,
    pub b: bool,
    pub d: bool,
    pub i: bool,
    pub z: bool,
    pub c: bool,
    pub instruction_count: u32,
    pub dialect: Dialect,
}

impl View for CPU {
    type V = CpuState;

    open spec fn view(&self) -> CpuState {
        CpuState {
            mem: self.memory@,
            a: self.a,
            x: self.x,
            y: self.y,
            pc: self.pc,
            sp: (self.sp % 256) as u8,
            n: self.n,
            v: self.v,
            b: self.b,
            d: self.d,
            i: self.i,
            z: self.z,
            c: self.c,
            count: self.instruction_count,
            cmos: self.dialect == Dialect::Cmos,
        }
    }
}

impl CPU {
    pub open spec fn wf(&self) -> bool {
        self.memory.wf()
    }

    /// A 65C02 with the image `data` loaded at address 0; see
    /// `new_with_dialect`.
    pub fn new(data: Vec<u8>) -> (r: CPU)
        requires
            data@.len() <= MEMORY_SIZE,
        ensures
            r.wf(),
            forall|k: int| 0 <= k < data@.len() ==> r@.mem[k] == data@[k],
            forall|k: int| data@.len() <= k < MEMORY_SIZE ==> r@.mem[k] == 0,
            r.a == 0 && r.x == 0 && r.y == 0,
            r.pc == START_ADDRESS,
            r.sp == 0xFF,
            !r.n && !r.v && !r.b && !r.d && !r.i && !r.z && !r.c,
            r.instruction_count == 0,
            r.dialect == Dialect::Cmos,
    {
        Self::new_with_dialect(data, Dialect::Cmos)
    }

    /// A processor of `dialect` with the image `data` loaded at address 0
    /// (the rest of memory zero), every register and flag zero, the program
    /// counter at `0x0400` and the stack pointer at `0xFF`.
    pub fn new_with_dialect(data: Vec<u8>, dialect: Dialect) -> (r: CPU)
        requires
            data@.len() <= MEMORY_SIZE,
        ensures
            r.wf(),
            forall|k: int| 0 <= k < data@.len() ==> r@.mem[k] == data@[k],
            forall|k: int| data@.len() <= k < MEMORY_SIZE ==> r@.mem[k] == 0,
            r.a == 0 && r.x == 0 && r.y == 0,
            r.pc == START_ADDRESS,
            r.sp == 0xFF,
            !r.n && !r.v && !r.b && !r.d && !r.i && !r.z && !r.c,
            r.instruction_count == 0,
            r.dialect == dialect,
    {
        let mut data = data;
        let ghost image = data@;
        while data.len() < MEMORY_SIZE
            invariant
                image.len() <= data@.len() <= MEMORY_SIZE,
                forall|k: int| 0 <= k < image.len() ==> data@[k] == image[k],
                forall|k: int| image.len() <= k < data@.len() ==> data@[k] == 0,
            decreases MEMORY_SIZE - data.len(),
        {
            data.push(0);
        }
        CPU {
            memory: Memory { data },
            a: 0,
            x: 0,
            y: 0,
            pc: START_ADDRESS,
            sp: 0xFF,
            n: false,
            v: false,
            b: false,
            d: false,
            i: false,
            z: false,
            c: false,
            instruction_count: 0,
            dialect,
        }
    }

    /// Reads the byte at the program counter and moves the counter past it.
    pub fn fetch(&mut self) -> (r: u8)
        requires
            old(self).wf(),
        ensures
            final(self).wf(),
            r == old(self)@.operand(0),
            final(self)@ == old(self)@.advance(1),
    {
        let value = self.memory.get16(self.pc);
        self.pc = self.pc.wrapping_add(1);
        value
    }

    /// The packed status register.
    pub fn get_sr(&self) -> (r: u8)
        ensures
            r == self@.status(),
    {
        let n: u8 = if self.n { 0x80 } else { 0 };
        let v: u8 = if self.v { 0x40 } else { 0 };
        let b: u8 = if self.b { 0x10 } else { 0 };
        let d: u8 = if self.d { 0x08 } else { 0 };
        let i: u8 = if self.i { 0x04 } else { 0 };
        let z: u8 = if self.z { 0x02 } else { 0 };
        let c: u8 = if self.c { 0x01 } else { 0 };
        n | v | 0x20 | b | d | i | z | c
    }

    /// Sets all seven flags from a packed status byte; bit 5 is ignored.
    pub fn set_sr(&mut self, value: u8)
        ensures
            final(self)@ == old(self)@.with_status(value),
            final(self).sp == old(self).sp,
            final(self).memory == old(self).memory,
    {
        self.n = value & 0x80 != 0;
        self.v = value & 0x40 != 0;
        self.b = value & 0x10 != 0;
        self.d = value & 0x08 != 0;
        self.i = value & 0x04 != 0;
        self.z = value & 0x02 != 0;
        self.c = value & 0x01 != 0;
    }

    /// Runs one instruction: fetches the opcode at the program counter,
    /// decodes it in the processor's dialect and carries it out. A successful step counts the
    /// instruction and reports `YES` once the count equals
    /// `success_instruction`. An opcode that decodes to nothing is reported
    /// with the program counter past it and nothing else changed.
    pub fn execute(&mut self, success_instruction: u16) -> (r: Result<ExecutionFinished, ExecutionError>)
        requires
            old(self).wf(),
        ensures
            final(self).wf(),
            forall|i: Instruction| #[trigger]
                encodes_in(old(self).dialect, i, old(self)@.operand(0)) ==> (final(self)@, r) == step(
                    old(self)@,
                    i,
                    success_instruction,
                ),
            !is_opcode_in(old(self).dialect, old(self)@.operand(0)) ==> final(self)@ == old(self)@.advance(1) && r
                == Err::<ExecutionFinished, ExecutionError>(
                ExecutionError::UnknownOpcode(old(self)@.operand(0)),
            ),
    {
        let operation = self.fetch();
        let instruction = match decode(self.dialect, operation) {
            Ok(instruction) => instruction,
            Err(e) => {
                return Err(e);
            },
        };
        match run_instruction(&instruction, self) {
            Ok(()) => {},
            Err(e) => {
                return Err(e);
            },
        }
        self.instruction_count = self.instruction_count.saturating_add(1);
        if self.instruction_count == success_instruction as u32 {
            Ok(ExecutionFinished::YES)
        } else {
            Ok(ExecutionFinished::NO)
        }
    }

    /// Writes `value` at the stack pointer, then moves the pointer down.
    pub fn push(&mut self, value: u8)
        requires
            old(self).wf(),
        ensures
            final(self).wf(),
            final(self)@ == old(self)@.push(value),
    {
        let sp_low = (self.sp % 256) as u8;
        self.memory.set(sp_low, 1, 0, value);
        self.sp = sp_low.wrapping_sub(1) as u16;
    }

    /// Moves the stack pointer up, then reads the byte it designates.
    pub fn pull(&mut self) -> (r: u8)
        requires
            old(self).wf(),
        ensures
            final(self).wf(),
            final(self)@ == old(self)@.after_pull(),
            r == old(self)@.pulled(),
    {
        let sp_low = ((self.sp % 256) as u8).wrapping_add(1);
        self.sp = sp_low as u16;
        self.memory.get(sp_low, 1, 0)
    }
}

} // verus!
