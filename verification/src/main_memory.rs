//! Main memory: the 4 KiB addressable store, the program counter, and the
//! built-in read-only sprite font.
//!
//! Program data lives in memory beginning at address 0x200, and the store is
//! represented shifted by that offset: externally every address is an
//! untransformed 12-bit value, and this module alone performs the
//! translation. Addresses at or above 0x1000 are a bounds violation, as are
//! reads between the end of the font table (0x50) and the program offset.

use vstd::prelude::*;

use crate::VmError;

verus! {

/// The size of the addressable store behind the program offset.
pub const MEMORY_SIZE: usize = 4096;

/// The address at which program data is loaded; the program counter may
/// never be set below it.
pub const PROGRAM_OFFSET: u16 = 0x200;

/// The built-in font: five bytes per hexadecimal digit sprite, eighty bytes
/// in all, served for reads at addresses 0x000..=0x04F.
pub open spec fn font() -> Seq<u8> {
    seq![
        0xF0u8, 0x90, 0x90, 0x90, 0xF0,  // 0
        0x20, 0x60, 0x20, 0x20, 0x70,  // 1
        0xF0, 0x10, 0xF0, 0x80, 0xF0,  // 2
        0xF0, 0x10, 0xF0, 0x10, 0xF0,  // 3
        0x90, 0x90, 0xF0, 0x10, 0x10,  // 4
        0xF0, 0x80, 0xF0, 0x10, 0xF0,  // 5
        0xF0, 0x80, 0xF0, 0x90, 0xF0,  // 6
        0xF0, 0x10, 0x20, 0x40, 0x40,  // 7
        0xF0, 0x90, 0xF0, 0x90, 0xF0,  // 8
        0xF0, 0x90, 0xF0, 0x10, 0xF0,  // 9
        0xF0, 0x90, 0xF0, 0x90, 0x90,  // A
        0xE0, 0x90, 0xE0, 0x90, 0xE0,  // B
        0xF0, 0x80, 0x80, 0x80, 0xF0,  // C
        0xE0, 0x90, 0x90, 0x90, 0xE0,  // D
        0xF0, 0x80, 0xF0, 0x80, 0xF0,  // E
        0xF0, 0x80, 0xF0, 0x80, 0x80,  // F
    ]
}

/// The opcode stored big-endian at internal offset `at` of `mem`.
pub open spec fn spec_opcode_at(mem: Seq<u8>, at: int) -> u16 {
    (mem[at] * 256 + mem[at + 1]) as u16
}

/// The program counter after a conditional skip: advanced by one whole
/// instruction, clamped to the end of the store.
pub open spec fn spec_skip_pc(pc: int) -> int {
    if pc + 2 <= MEMORY_SIZE {
        pc + 2
    } else {
        MEMORY_SIZE as int
    }
}

pub struct MainMemory {
    /// Half the byte length of the program image: the number of whole
    /// opcodes it holds.
    pub program_length: usize,
    /// The shifted store: index 0 holds external address 0x200.
    pub memory: Vec<u8>,
    /// The program counter in the shifted (internal) representation.
    pub program_counter: usize,
}

impl MainMemory {
    /// The shifted store as a sequence.
    pub open spec fn mem(&self) -> Seq<u8> {
        self.memory@
    }

    /// The program counter in the shifted representation; the external
    /// program counter is this plus the program offset.
    pub open spec fn pc(&self) -> int {
        self.program_counter as int
    }

    /// Well-formedness: the store holds exactly `MEMORY_SIZE` bytes, and the
    /// program counter never runs past its end.
    pub open spec fn wf(&self) -> bool {
        self.memory@.len() == MEMORY_SIZE && self.program_counter <= MEMORY_SIZE
    }

    /// Load a program image: it is padded (or truncated) to the store size,
    /// and the program counter starts at the program offset.
    pub fn new(program_data: Vec<u8>) -> (r: MainMemory)
        ensures
            r.wf(),
            r.pc() == 0,
            r.program_length == program_data@.len() / 2,
            forall|i: int| 0 <= i < MEMORY_SIZE ==> r.mem()[i] == (if i < program_data@.len() {
                program_data@[i]
            } else {
                0u8
            }),
    {
        let program_length: usize = program_data.len() / 2;
        let ghost image = program_data@;
        let mut memory = program_data;
        if memory.len() > MEMORY_SIZE {
            memory.truncate(MEMORY_SIZE);
        }
        while memory.len() < MEMORY_SIZE
            invariant
                memory@.len() <= MEMORY_SIZE,
                memory@.len() >= image.len() || memory@.len() == MEMORY_SIZE,
                forall|i: int| 0 <= i < memory@.len() ==> memory@[i] == (if i < image.len() {
                    image[i]
                } else {
                    0u8
                }),
            decreases MEMORY_SIZE - memory@.len(),
        {
            memory.push(0u8);
        }
        MainMemory { program_length, memory, program_counter: 0 }
    }

    /// Read the two bytes at the program counter as a big-endian opcode and
    /// advance the counter by two. Returns `None`, leaving all state
    /// unchanged, when fewer than two bytes remain in the store.
    pub fn fetch_opcode(&mut self) -> (r: Option<u16>)
        requires
            old(self).wf(),
        ensures
            final(self).wf(),
            final(self).mem() == old(self).mem(),
            final(self).program_length == old(self).program_length,
            old(self).pc() + 2 <= MEMORY_SIZE ==> r == Some(spec_opcode_at(old(self).mem(), old(self).pc()))
                && final(self).pc() == old(self).pc() + 2,
            old(self).pc() + 2 > MEMORY_SIZE ==> r is None && final(self).pc() == old(self).pc(),
    {
        if self.program_counter + 2 > MEMORY_SIZE {
            return None;
        }
        let big_end = self.memory[self.program_counter];
        let little_end = self.memory[self.program_counter + 1];
        let ghost b16 = big_end as u16;
        proof {
            assert(b16 <= 255 ==> (b16 << 8) == b16 * 256) by (bit_vector);
        }
        let instr = ((big_end as u16) << 8) + (little_end as u16);
        self.program_counter = self.program_counter + 2;
        Some(instr)
    }

    /// Point the program counter at the external address `address`. The
    /// address must lie in the program region: below the program offset the
    /// translation would underflow, and at or beyond 0x1000 it would leave
    /// the address space.
    pub fn set_program_counter(&mut self, address: u16) -> (r: Result<(), VmError>)
        requires
            old(self).wf(),
        ensures
            final(self).wf(),
            final(self).mem() == old(self).mem(),
            final(self).program_length == old(self).program_length,
            r is Ok <==> PROGRAM_OFFSET <= address < 0x1000,
            r is Ok ==> final(self).pc() == address - PROGRAM_OFFSET,
            r is Err ==> r == Result::<(), VmError>::Err(VmError::MemoryBoundsViolation)
                && final(self).pc() == old(self).pc(),
    {
        if address < PROGRAM_OFFSET || address >= 0x1000 {
            return Err(VmError::MemoryBoundsViolation);
        }
        self.program_counter = (address - PROGRAM_OFFSET) as usize;
        Ok(())
    }

    /// The external address of the next opcode to fetch.
    pub fn peek_program_counter(&self) -> (r: usize)
        requires
            self.wf(),
        ensures
            r == self.pc() + PROGRAM_OFFSET,
    {
        self.program_counter + PROGRAM_OFFSET as usize
    }

    /// Advance the program counter over one whole instruction, as the
    /// conditional-skip instructions do.
    ///
    /// The counter is deliberately clamped at the end of the store: it never
    /// leaves the 4 KiB space, so no sequence of operations can overflow it.
    /// The clamp only acts once the counter already stands at the very end,
    /// where every position reports exhaustion alike and the corresponding
    /// external addresses lie beyond the 12-bit address space.
    pub fn skip_instruction(&mut self)
        requires
            old(self).wf(),
        ensures
            final(self).wf(),
            final(self).mem() == old(self).mem(),
            final(self).program_length == old(self).program_length,
            final(self).pc() == spec_skip_pc(old(self).pc()),
    {
        if self.program_counter + 2 <= MEMORY_SIZE {
            self.program_counter = self.program_counter + 2;
        } else {
            self.program_counter = MEMORY_SIZE;
        }
    }

    /// Read one byte at an external address: the font table serves addresses
    /// below 0x50, the program region addresses from 0x200 up to 0x1000, and
    /// everything else is a bounds violation.
    pub fn load_address(&self, address: u16) -> (r: Result<u8, VmError>)
        requires
            self.wf(),
        ensures
            address < 0x50 ==> r == Result::<u8, VmError>::Ok(font()[address as int]),
            PROGRAM_OFFSET <= address < 0x1000 ==> r == Result::<u8, VmError>::Ok(
                self.mem()[address - PROGRAM_OFFSET],
            ),
            r is Err <==> (0x50 <= address < PROGRAM_OFFSET) || address >= 0x1000,
            r is Err ==> r == Result::<u8, VmError>::Err(VmError::MemoryBoundsViolation),
    {
        if address >= 0x1000 {
            return Err(VmError::MemoryBoundsViolation);
        }
        if address < PROGRAM_OFFSET {
            if address >= 0x50 {
                return Err(VmError::MemoryBoundsViolation);
            }
            let font_bytes = font_table();
            Ok(font_bytes[address as usize])
        } else {
            Ok(self.memory[(address - PROGRAM_OFFSET) as usize])
        }
    }

    /// Write one byte at an external address in the program region; the font
    /// region is read-only and everything outside the address space is a
    /// bounds violation.
    pub fn write_address(&mut self, address: u16, data: u8) -> (r: Result<(), VmError>)
        requires
            old(self).wf(),
        ensures
            final(self).wf(),
            final(self).pc() == old(self).pc(),
            final(self).program_length == old(self).program_length,
            r is Ok <==> PROGRAM_OFFSET <= address < 0x1000,
            r is Ok ==> final(self).mem() == old(self).mem().update(
                address - PROGRAM_OFFSET,
                data,
            ),
            r is Err ==> r == Result::<(), VmError>::Err(VmError::MemoryBoundsViolation)
                && final(self).mem() == old(self).mem(),
    {
        if address < PROGRAM_OFFSET || address >= 0x1000 {
            return Err(VmError::MemoryBoundsViolation);
        }
        self.memory.set((address - PROGRAM_OFFSET) as usize, data);
        Ok(())
    }

    /// Copy the bytes in the external address range `[start, end)`: a sprite
    /// read. The range is served from the font table or from the program
    /// region, never spanning both.
    pub fn slice_program(&self, start: u16, end: u16) -> (r: Result<Vec<u8>, VmError>)
        requires
            self.wf(),
        ensures
            r is Ok <==> (start <= end <= 0x50) || (PROGRAM_OFFSET <= start <= end <= 0x1000),
            r is Ok && end <= 0x50 ==> r->Ok_0@ =~= font().subrange(start as int, end as int),
            r is Ok && end > 0x50 ==> r->Ok_0@ =~= self.mem().subrange(
                start - PROGRAM_OFFSET,
                end - PROGRAM_OFFSET,
            ),
            r is Err ==> r == Result::<Vec<u8>, VmError>::Err(VmError::MemoryBoundsViolation),
    {
        if start <= end && end <= 0x50 {
            let font_bytes = font_table();
            let mut out: Vec<u8> = Vec::new();
            let mut k: usize = start as usize;
            while k < end as usize
                invariant
                    start <= k <= end <= 0x50,
                    font_bytes@ =~= font(),
                    out@ =~= font().subrange(start as int, k as int),
                decreases end as int - k,
            {
                out.push(font_bytes[k]);
                k = k + 1;
            }
            Ok(out)
        } else if PROGRAM_OFFSET <= start && start <= end && end <= 0x1000 {
            let shifted_start = (start - PROGRAM_OFFSET) as usize;
            let shifted_end = (end - PROGRAM_OFFSET) as usize;
            let mut out: Vec<u8> = Vec::new();
            let mut k: usize = shifted_start;
            while k < shifted_end
                invariant
                    shifted_start <= k <= shifted_end <= MEMORY_SIZE,
                    self.wf(),
                    out@ =~= self.mem().subrange(shifted_start as int, k as int),
                decreases shifted_end as int - k,
            {
                out.push(self.memory[k]);
                k = k + 1;
            }
            Ok(out)
        } else {
            Err(VmError::MemoryBoundsViolation)
        }
    }
}

/// The font table as an executable vector, matching `font()` byte for byte.
fn font_table() -> (v: Vec<u8>)
    ensures
        v@ =~= font(),
{
    let mut v: Vec<u8> = Vec::new();
    v.push(0xF0);
    v.push(0x90);
    v.push(0x90);
    v.push(0x90);
    v.push(0xF0);
    v.push(0x20);
    v.push(0x60);
    v.push(0x20);
    v.push(0x20);
    v.push(0x70);
    v.push(0xF0);
    v.push(0x10);
    v.push(0xF0);
    v.push(0x80);
    v.push(0xF0);
    v.push(0xF0);
    v.push(0x10);
    v.push(0xF0);
    v.push(0x10);
    v.push(0xF0);
    v.push(0x90);
    v.push(0x90);
    v.push(0xF0);
    v.push(0x10);
    v.push(0x10);
    v.push(0xF0);
    v.push(0x80);
    v.push(0xF0);
    v.push(0x10);
    v.push(0xF0);
    v.push(0xF0);
    v.push(0x80);
    v.push(0xF0);
    v.push(0x90);
    v.push(0xF0);
    v.push(0xF0);
    v.push(0x10);
    v.push(0x20);
    v.push(0x40);
    v.push(0x40);
    v.push(0xF0);
    v.push(0x90);
    v.push(0xF0);
    v.push(0x90);
    v.push(0xF0);
    v.push(0xF0);
    v.push(0x90);
    v.push(0xF0);
    v.push(0x10);
    v.push(0xF0);
    v.push(0xF0);
    v.push(0x90);
    v.push(0xF0);
    v.push(0x90);
    v.push(0x90);
    v.push(0xE0);
    v.push(0x90);
    v.push(0xE0);
    v.push(0x90);
    v.push(0xE0);
    v.push(0xF0);
    v.push(0x80);
    v.push(0x80);
    v.push(0x80);
    v.push(0xF0);
    v.push(0xE0);
    v.push(0x90);
    v.push(0x90);
    v.push(0x90);
    v.push(0xE0);
    v.push(0xF0);
    v.push(0x80);
    v.push(0xF0);
    v.push(0x80);
    v.push(0xF0);
    v.push(0xF0);
    v.push(0x80);
    v.push(0xF0);
    v.push(0x80);
    v.push(0x80);
    v
}

} // verus!
