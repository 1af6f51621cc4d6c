//! The virtual machine proper: it owns the registers, call stack, main
//! memory, display and key state, and advances them through a timed `cycle`
//! operation with two independent clock domains — the configurable CPU clock
//! and the fixed 60 Hz timer clock.
//!
//! The hex pad is mapped to the upper-left region of the keyboard:
//!
//! ```text
//! keyboard     hexpad input
//! 1 2 3 4   |   1 2 3 C
//! Q W E R   |   4 5 6 D
//! A S D F   |   7 8 9 E
//! Z X C V   |   A 0 B F
//! ```

use vstd::prelude::*;
use vstd::string::StrSliceExecFns;

use crate::VmError;
use crate::display::{Display, DISPLAY_SIZE, draw_result, draw_collision};
use crate::instructions::{Instruction, parse_opcode, spec_parse_opcode, instruction_wf,
    lemma_parsed_instruction_wf};
use crate::main_memory::{MainMemory, MEMORY_SIZE, PROGRAM_OFFSET, font, spec_opcode_at,
    spec_skip_pc};
use crate::registers::Registers;
use crate::stack::Stack;

verus! {

/// Key codes on the hex pad.
pub const NUM_KEYS: u8 = 16;

/// The fixed rate of the delay and sound timers, in Hz.
pub const TIMER_RATE_HZ: u32 = 60;

/// The whole-microsecond period of a clock running at `hz`, rounded to the
/// nearest microsecond.
pub open spec fn spec_period_micros(hz: u32) -> int {
    (1_000_000 + hz / 2) / (hz as int)
}

/// How many whole periods have elapsed once the accumulator exceeds one
/// period; the fractional remainder carries forward.
pub open spec fn whole_periods(acc: int, period: int) -> int {
    if acc > period {
        acc / period
    } else {
        0
    }
}

/// What remains in an accumulator after its whole periods are consumed.
pub open spec fn acc_rem(acc: int, period: int) -> int {
    if acc > period {
        acc % period
    } else {
        acc
    }
}

/// A timer after `ticks` decrements: each tick lowers it by one until it
/// rests at zero.
pub open spec fn timer_step(t: u8, ticks: int) -> u8 {
    if ticks >= t {
        0u8
    } else {
        (t - ticks) as u8
    }
}

/// The byte visible at external address `a`: the font below 0x50, the
/// program region from 0x200.
pub open spec fn ext_byte(mem: Seq<u8>, a: int) -> u8 {
    if a < 0x50 {
        font()[a]
    } else {
        mem[a - PROGRAM_OFFSET]
    }
}

/// A general-register file after a flag-producing instruction: the flag
/// register `VF` takes `flag` first, then the destination takes `value`, so
/// when the destination is `VF` itself the value wins.
pub open spec fn flag_update(regs: Seq<u8>, dest: int, flag: u8, value: u8) -> Seq<u8> {
    regs.update(15, flag).update(dest, value)
}

/// Instruction execution never touches the clock bookkeeping, the key table
/// or the program length.
pub open spec fn exec_frame(pre: Chip8, post: Chip8) -> bool {
    &&& post.cycle_period() == pre.cycle_period()
    &&& post.timer_period() == pre.timer_period()
    &&& post.cycle_acc() == pre.cycle_acc()
    &&& post.timer_acc() == pre.timer_acc()
    &&& post.keys() == pre.keys()
    &&& post.prog_len() == pre.prog_len()
}

/// The machine parts an instruction may not change, named one by one.
pub open spec fn same_regs(pre: Chip8, post: Chip8) -> bool {
    post.regs() == pre.regs()
}

pub open spec fn same_i(pre: Chip8, post: Chip8) -> bool {
    post.i_reg() == pre.i_reg()
}

pub open spec fn same_timers(pre: Chip8, post: Chip8) -> bool {
    post.delay() == pre.delay() && post.sound() == pre.sound()
}

pub open spec fn same_frames(pre: Chip8, post: Chip8) -> bool {
    post.frames() == pre.frames()
}

pub open spec fn same_mem(pre: Chip8, post: Chip8) -> bool {
    post.mem() == pre.mem()
}

pub open spec fn same_pc(pre: Chip8, post: Chip8) -> bool {
    post.pc() == pre.pc()
}

pub open spec fn same_screen(pre: Chip8, post: Chip8) -> bool {
    post.screen() == pre.screen()
}

pub open spec fn same_pending(pre: Chip8, post: Chip8) -> bool {
    post.pending() == pre.pending()
}

/// Only the general registers may differ.
pub open spec fn touches_only_regs(pre: Chip8, post: Chip8) -> bool {
    same_i(pre, post) && same_timers(pre, post) && same_frames(pre, post) && same_mem(pre, post)
        && same_pc(pre, post) && same_screen(pre, post) && same_pending(pre, post)
}

/// Only the program counter may differ.
pub open spec fn touches_only_pc(pre: Chip8, post: Chip8) -> bool {
    same_regs(pre, post) && same_i(pre, post) && same_timers(pre, post) && same_frames(pre, post)
        && same_mem(pre, post) && same_screen(pre, post) && same_pending(pre, post)
}

/// Only the call stack and the program counter may differ.
pub open spec fn touches_only_flow(pre: Chip8, post: Chip8) -> bool {
    same_regs(pre, post) && same_i(pre, post) && same_timers(pre, post) && same_mem(pre, post)
        && same_screen(pre, post) && same_pending(pre, post)
}

/// Only the `I` register may differ.
pub open spec fn touches_only_i(pre: Chip8, post: Chip8) -> bool {
    same_regs(pre, post) && same_timers(pre, post) && same_frames(pre, post) && same_mem(pre, post)
        && same_pc(pre, post) && same_screen(pre, post) && same_pending(pre, post)
}

/// Only the program store may differ.
pub open spec fn touches_only_mem(pre: Chip8, post: Chip8) -> bool {
    same_regs(pre, post) && same_i(pre, post) && same_timers(pre, post) && same_frames(pre, post)
        && same_pc(pre, post) && same_screen(pre, post) && same_pending(pre, post)
}

/// Only the display may differ.
pub open spec fn touches_only_screen(pre: Chip8, post: Chip8) -> bool {
    same_regs(pre, post) && same_i(pre, post) && same_timers(pre, post) && same_frames(pre, post)
        && same_mem(pre, post) && same_pc(pre, post) && same_pending(pre, post)
}

/// Only the display and the general registers may differ: a sprite draw.
pub open spec fn touches_only_drawing(pre: Chip8, post: Chip8) -> bool {
    same_i(pre, post) && same_timers(pre, post) && same_frames(pre, post) && same_mem(pre, post)
        && same_pc(pre, post) && same_pending(pre, post)
}

/// Only the delay timer may differ.
pub open spec fn touches_only_delay(pre: Chip8, post: Chip8) -> bool {
    same_regs(pre, post) && same_i(pre, post) && post.sound() == pre.sound() && same_frames(
        pre,
        post,
    ) && same_mem(pre, post) && same_pc(pre, post) && same_screen(pre, post) && same_pending(
        pre,
        post,
    )
}

/// Only the pending-key marker may differ.
pub open spec fn touches_only_pending(pre: Chip8, post: Chip8) -> bool {
    same_regs(pre, post) && same_i(pre, post) && same_timers(pre, post) && same_frames(pre, post)
        && same_mem(pre, post) && same_pc(pre, post) && same_screen(pre, post)
}

/// Nothing at all may differ.
pub open spec fn touches_nothing(pre: Chip8, post: Chip8) -> bool {
    touches_only_regs(pre, post) && same_regs(pre, post)
}

/// The sprite bytes a draw instruction reads: `n` bytes starting at the `I`
/// register, out of the font table or the program region.
pub open spec fn sprite_bytes(pre: Chip8, n: u8) -> Seq<u8> {
    if pre.i_reg() + n <= 0x50 {
        font().subrange(pre.i_reg() as int, pre.i_reg() + n)
    } else {
        pre.mem().subrange(pre.i_reg() - PROGRAM_OFFSET, pre.i_reg() + n - PROGRAM_OFFSET)
    }
}

/// Whether a draw of `n` rows can read its sprite: entirely inside the font
/// table or entirely inside the program region.
pub open spec fn draw_args_ok(pre: Chip8, n: u8) -> bool {
    pre.i_reg() + n <= 0x50 || (PROGRAM_OFFSET <= pre.i_reg() && pre.i_reg() + n <= 0x1000)
}

/// Whether the three-byte binary-coded-decimal write at `I` stays inside
/// the program region.
pub open spec fn bcd_args_ok(pre: Chip8) -> bool {
    PROGRAM_OFFSET <= pre.i_reg() && pre.i_reg() + 2 < 0x1000
}

/// Whether storing registers `V0..=Vh` at `I` stays inside the program
/// region.
pub open spec fn store_args_ok(pre: Chip8, h: u8) -> bool {
    PROGRAM_OFFSET <= pre.i_reg() && pre.i_reg() + h < 0x1000
}

/// Whether reading registers `V0..=Vh` from `I` stays inside one readable
/// region: the font table or the program region.
pub open spec fn read_args_ok(pre: Chip8, h: u8) -> bool {
    pre.i_reg() + h < 0x50 || (PROGRAM_OFFSET <= pre.i_reg() && pre.i_reg() + h < 0x1000)
}

/// How many registers a store-registers instruction writes to memory before
/// stopping: all of `V0..=Vh` when the whole range lies in the program
/// region, and otherwise the prefix up to the first out-of-range address.
pub open spec fn store_written(base: int, h: u8) -> int {
    if base < PROGRAM_OFFSET || base >= 0x1000 {
        0
    } else if base + h < 0x1000 {
        h + 1
    } else {
        0x1000 - base
    }
}

/// How many registers a read-registers instruction fills before stopping:
/// all of `V0..=Vh` when the whole range is readable, and otherwise the
/// prefix up to the first unreadable address.
pub open spec fn read_loaded(base: int, h: u8) -> int {
    if base < 0x50 {
        if base + h < 0x50 {
            h + 1
        } else {
            0x50 - base
        }
    } else if PROGRAM_OFFSET <= base < 0x1000 {
        if base + h < 0x1000 {
            h + 1
        } else {
            0x1000 - base
        }
    } else {
        0
    }
}

/// One whole CPU period of a running machine: a fetch, then the execution
/// of the decoded instruction. An exhausted store is the fatal stop.
pub open spec fn step_effect(pre: Chip8, post: Chip8, res: Result<(), VmError>) -> bool {
    if pre.pc() + 2 > MEMORY_SIZE {
        res == Result::<(), VmError>::Err(VmError::ProgramExhausted) && touches_nothing(pre, post)
    } else {
        exists|mid: Chip8|
            {
                &&& touches_only_pc(pre, mid)
                &&& mid.pc() == pre.pc() + 2
                &&& #[trigger] execute_effect(
                    mid,
                    post,
                    spec_parse_opcode(spec_opcode_at(pre.mem(), pre.pc())),
                    res,
                )
            }
    }
}

/// A run of whole CPU periods, recorded state by state: each adjacent pair
/// of states is one period, consumed with nothing executed while a key
/// press is awaited, and otherwise one successful fetch-execute step.
pub open spec fn run_trace_ok(states: Seq<Chip8>) -> bool {
    forall|i: int| #![trigger states[i], states[i + 1]]
        0 <= i < states.len() - 1 ==> (if states[i].pending() is Some {
            touches_nothing(states[i], states[i + 1])
        } else {
            step_effect(states[i], states[i + 1], Result::<(), VmError>::Ok(()))
        })
}

/// The exact effect of executing one decoded instruction: the relation
/// between the machine before (`pre`) and after (`post`), variant by
/// variant. `execute` promises exactly this.
pub open spec fn execute_effect(
    pre: Chip8,
    post: Chip8,
    instruction: Instruction,
    res: Result<(), VmError>,
) -> bool {
    &&& (instruction == Instruction::ClearScreen ==> res is Ok && touches_only_screen(
                pre,
                post,
            ) && post.screen().len() == DISPLAY_SIZE && (forall|i: int|
                0 <= i < DISPLAY_SIZE ==> post.screen()[i] == 0))
    &&& (instruction == Instruction::Return ==> ({
                &&& pre.frames().len() == 0 ==> res == Result::<(), VmError>::Err(
                    VmError::StackUnderflow,
                ) && touches_nothing(pre, post)
                &&& pre.frames().len() > 0 ==> ({
                    let a = pre.frames().last();
                    &&& touches_only_flow(pre, post)
                    &&& post.frames() == pre.frames().drop_last()
                    &&& (PROGRAM_OFFSET <= a < 0x1000 ==> res is Ok && post.pc() == a
                        - PROGRAM_OFFSET)
                    &&& (!(PROGRAM_OFFSET <= a < 0x1000) ==> res == Result::<(), VmError>::Err(
                        VmError::MemoryBoundsViolation,
                    ) && post.pc() == pre.pc())
                })
            }))
    &&& (instruction matches Instruction::Jump(a) ==> ({
                &&& PROGRAM_OFFSET <= a < 0x1000 ==> res is Ok && touches_only_pc(
                    pre,
                    post,
                ) && post.pc() == a - PROGRAM_OFFSET
                &&& !(PROGRAM_OFFSET <= a < 0x1000) ==> res == Result::<(), VmError>::Err(
                    VmError::MemoryBoundsViolation,
                ) && touches_nothing(pre, post)
            }))
    &&& (instruction matches Instruction::Call(a) ==> ({
                &&& pre.frames().len() >= 16 ==> res == Result::<(), VmError>::Err(
                    VmError::StackOverflow,
                ) && touches_nothing(pre, post)
                &&& pre.frames().len() < 16 ==> ({
                    &&& touches_only_flow(pre, post)
                    &&& post.frames() == pre.frames().push(
                        (pre.pc() + PROGRAM_OFFSET) as u16,
                    )
                    &&& (PROGRAM_OFFSET <= a < 0x1000 ==> res is Ok && post.pc() == a
                        - PROGRAM_OFFSET)
                    &&& (!(PROGRAM_OFFSET <= a < 0x1000) ==> res == Result::<(), VmError>::Err(
                        VmError::MemoryBoundsViolation,
                    ) && post.pc() == pre.pc())
                })
            }))
    &&& (instruction matches Instruction::SkipIfEQData(x, d) ==> res is Ok && touches_only_pc(
                pre,
                post,
            ) && post.pc() == (if pre.regs()[x as int] == d {
                spec_skip_pc(pre.pc())
            } else {
                pre.pc()
            }))
    &&& (instruction matches Instruction::SkipIfNEData(x, d) ==> res is Ok && touches_only_pc(
                pre,
                post,
            ) && post.pc() == (if pre.regs()[x as int] != d {
                spec_skip_pc(pre.pc())
            } else {
                pre.pc()
            }))
    &&& (instruction matches Instruction::SkipIfEQRegister(x, y) ==> res is Ok
                && touches_only_pc(pre, post) && post.pc() == (
            if pre.regs()[x as int] == pre.regs()[y as int] {
                spec_skip_pc(pre.pc())
            } else {
                pre.pc()
            }))
    &&& (instruction matches Instruction::LoadData(x, d) ==> res is Ok && touches_only_regs(
                pre,
                post,
            ) && post.regs() == pre.regs().update(x as int, d))
    &&& (instruction matches Instruction::AddData(x, d) ==> res is Ok && touches_only_regs(
                pre,
                post,
            ) && post.regs() == pre.regs().update(
                x as int,
                ((pre.regs()[x as int] + d) % 256) as u8,
            ))
    &&& (instruction matches Instruction::LoadRegister(x, y) ==> res is Ok && touches_only_regs(
                pre,
                post,
            ) && post.regs() == pre.regs().update(
                x as int,
                pre.regs()[y as int],
            ))
    &&& (instruction matches Instruction::Or(x, y) ==> res is Ok && touches_only_regs(
                pre,
                post,
            ) && post.regs() == pre.regs().update(
                x as int,
                pre.regs()[x as int] | pre.regs()[y as int],
            ))
    &&& (instruction matches Instruction::And(x, y) ==> res is Ok && touches_only_regs(
                pre,
                post,
            ) && post.regs() == pre.regs().update(
                x as int,
                pre.regs()[x as int] & pre.regs()[y as int],
            ))
    &&& (instruction matches Instruction::Xor(x, y) ==> res is Ok && touches_only_regs(
                pre,
                post,
            ) && post.regs() == pre.regs().update(
                x as int,
                pre.regs()[x as int] ^ pre.regs()[y as int],
            ))
    &&& (instruction matches Instruction::Add(x, y) ==> res is Ok && touches_only_regs(
                pre,
                post,
            ) && ({
                let sum = pre.regs()[x as int] + pre.regs()[y as int];
                post.regs() == flag_update(
                    pre.regs(),
                    x as int,
                    if sum > 255 {
                        1u8
                    } else {
                        0u8
                    },
                    (sum % 256) as u8,
                )
            }))
    &&& (instruction matches Instruction::Sub(x, y) ==> res is Ok && touches_only_regs(
                pre,
                post,
            ) && ({
                let a = pre.regs()[x as int];
                let b = pre.regs()[y as int];
                post.regs() == flag_update(
                    pre.regs(),
                    x as int,
                    if a > b {
                        1u8
                    } else {
                        0u8
                    },
                    ((a + 256 - b) % 256) as u8,
                )
            }))
    &&& (instruction matches Instruction::ShiftRight(x) ==> res is Ok && touches_only_regs(
                pre,
                post,
            ) && ({
                let a = pre.regs()[x as int];
                post.regs() == flag_update(
                    pre.regs(),
                    x as int,
                    (a % 2) as u8,
                    (a / 2) as u8,
                )
            }))
    &&& (instruction matches Instruction::NegatedSub(x, y) ==> res is Ok && touches_only_regs(
                pre,
                post,
            ) && ({
                let a = pre.regs()[x as int];
                let b = pre.regs()[y as int];
                post.regs() == flag_update(
                    pre.regs(),
                    x as int,
                    if b > a {
                        1u8
                    } else {
                        0u8
                    },
                    ((b + 256 - a) % 256) as u8,
                )
            }))
    &&& (instruction matches Instruction::ShiftLeft(x) ==> res is Ok && touches_only_regs(
                pre,
                post,
            ) && ({
                let a = pre.regs()[x as int];
                post.regs() == flag_update(
                    pre.regs(),
                    x as int,
                    (a / 128) as u8,
                    ((a * 2) % 256) as u8,
                )
            }))
    &&& (instruction matches Instruction::SkipIfNERegister(x, y) ==> res is Ok
                && touches_only_pc(pre, post) && post.pc() == (
            if pre.regs()[x as int] != pre.regs()[y as int] {
                spec_skip_pc(pre.pc())
            } else {
                pre.pc()
            }))
    &&& (instruction matches Instruction::SetI(v) ==> res is Ok && touches_only_i(
                pre,
                post,
            ) && post.i_reg() == v)
    &&& (instruction matches Instruction::JumpFromOffset(a) ==> ({
                let target = pre.regs()[0] + a;
                &&& PROGRAM_OFFSET <= target < 0x1000 ==> res is Ok && touches_only_pc(
                    pre,
                    post,
                ) && post.pc() == target - PROGRAM_OFFSET
                &&& !(PROGRAM_OFFSET <= target < 0x1000) ==> res == Result::<(), VmError>::Err(
                    VmError::MemoryBoundsViolation,
                ) && touches_nothing(pre, post)
            }))
    &&& (instruction matches Instruction::Random(x, mask) ==> res is Ok && touches_only_regs(
                pre,
                post,
            ) && (exists|b: u8| post.regs() == pre.regs().update(x as int, b & mask)))
    &&& (instruction matches Instruction::Draw(x, y, n) ==> ({
                &&& draw_args_ok(pre, n) ==> ({
                    let spr = sprite_bytes(pre, n);
                    let coll = draw_collision(
                        pre.screen(),
                        pre.regs()[x as int],
                        pre.regs()[y as int],
                        spr,
                    );
                    &&& res is Ok
                    &&& touches_only_drawing(pre, post)
                    &&& draw_result(
                        pre.screen(),
                        pre.regs()[x as int],
                        pre.regs()[y as int],
                        spr,
                        post.screen(),
                        coll,
                    )
                    &&& post.regs() == pre.regs().update(
                        15,
                        if coll {
                            1u8
                        } else {
                            0u8
                        },
                    )
                })
                &&& !draw_args_ok(pre, n) ==> res == Result::<(), VmError>::Err(
                    VmError::MemoryBoundsViolation,
                ) && touches_nothing(pre, post)
            }))
    &&& (instruction matches Instruction::SkipIfPressed(x) ==> ({
                let key = pre.regs()[x as int];
                &&& key < NUM_KEYS ==> res is Ok && touches_only_pc(pre, post)
                    && post.pc() == (if pre.keys()[key as int] {
                    spec_skip_pc(pre.pc())
                } else {
                    pre.pc()
                })
                &&& key >= NUM_KEYS ==> res == Result::<(), VmError>::Err(
                    VmError::InvalidRegisterIndex,
                ) && touches_nothing(pre, post)
            }))
    &&& (instruction matches Instruction::SkipIfNotPressed(x) ==> ({
                let key = pre.regs()[x as int];
                &&& key < NUM_KEYS ==> res is Ok && touches_only_pc(pre, post)
                    && post.pc() == (if !pre.keys()[key as int] {
                    spec_skip_pc(pre.pc())
                } else {
                    pre.pc()
                })
                &&& key >= NUM_KEYS ==> res == Result::<(), VmError>::Err(
                    VmError::InvalidRegisterIndex,
                ) && touches_nothing(pre, post)
            }))
    &&& (instruction matches Instruction::SetRegisterFromDelay(x) ==> res is Ok
                && touches_only_regs(pre, post) && post.regs() == pre.regs().update(x as int, pre.delay()))
    &&& (instruction matches Instruction::AwaitPress(x) ==> res is Ok && touches_only_pending(
                pre,
                post,
            ) && post.pending() == Some(x))
    &&& (instruction matches Instruction::SetDelayFromRegister(x) ==> res is Ok
                && touches_only_delay(pre, post) && post.delay() == pre.regs()[x as int])
    &&& (instruction matches Instruction::SetSoundFromRegister(x) ==> res is Ok
                && touches_nothing(pre, post))
    &&& (instruction matches Instruction::AddI(x) ==> res is Ok && touches_only_i(
                pre,
                post,
            ) && post.i_reg() == ((pre.i_reg() + pre.regs()[x as int])
                % 0x10000) as u16)
    &&& (instruction matches Instruction::LoadSprite(x) ==> res is Ok && touches_only_i(
                pre,
                post,
            ) && post.i_reg() == 5 * pre.regs()[x as int])
    &&& (instruction matches Instruction::SetBCDRepresentation(x) ==> ({
                let d = pre.regs()[x as int];
                let at = pre.i_reg() - PROGRAM_OFFSET;
                &&& bcd_args_ok(pre) ==> res is Ok && touches_only_mem(
                    pre,
                    post,
                ) && post.mem() == pre.mem().update(at, ((d / 100) % 10) as u8).update(
                    at + 1,
                    ((d / 10) % 10) as u8,
                ).update(at + 2, (d % 10) as u8)
                &&& !bcd_args_ok(pre) ==> res == Result::<(), VmError>::Err(
                    VmError::MemoryBoundsViolation,
                ) && touches_nothing(pre, post)
            }))
    &&& (instruction matches Instruction::StoreRegisters(h) ==> ({
                let at = pre.i_reg() - PROGRAM_OFFSET;
                let w = store_written(pre.i_reg() as int, h);
                &&& (store_args_ok(pre, h) ==> res is Ok)
                &&& (!store_args_ok(pre, h) ==> res == Result::<(), VmError>::Err(
                    VmError::MemoryBoundsViolation,
                ))
                &&& touches_only_mem(pre, post)
                &&& post.mem().len() == MEMORY_SIZE
                &&& forall|a: int|
                    0 <= a < MEMORY_SIZE ==> post.mem()[a] == (if at <= a < at + w {
                        pre.regs()[a - at]
                    } else {
                        pre.mem()[a]
                    })
            }))
    &&& (instruction matches Instruction::ReadRegisters(h) ==> ({
                let base = pre.i_reg() as int;
                let w = read_loaded(base, h);
                &&& (read_args_ok(pre, h) ==> res is Ok)
                &&& (!read_args_ok(pre, h) ==> res == Result::<(), VmError>::Err(
                    VmError::MemoryBoundsViolation,
                ))
                &&& touches_only_regs(pre, post)
                &&& post.regs().len() == 16
                &&& forall|k: int|
                    0 <= k < 16 ==> post.regs()[k] == (if 0 <= k < w {
                        ext_byte(pre.mem(), base + k)
                    } else {
                        pre.regs()[k]
                    })
            }))
    &&& (instruction matches Instruction::NOP(d) ==> res is Ok && touches_nothing(
                pre,
                post,
            ))
    &&& (instruction matches Instruction::UNKNOWN(d) ==> res == Result::<(), VmError>::Err(
                VmError::UnknownOpcode(d),
            ) && touches_nothing(pre, post))
}

pub struct Chip8 {
    /// The display buffer, exposed for the rendering host to read.
    pub display: Display,
    registers: Registers,
    stack: Stack,
    main_memory: MainMemory,
    pending_key: Option<u8>,
    key_pressed: Vec<bool>,
    micros_per_cycle: u32,
    micros_since_cycle: u128,
    micros_per_timer: u32,
    micros_since_timer: u128,
}

impl Chip8 {
    /// The sixteen general registers.
    pub closed spec fn regs(&self) -> Seq<u8> {
        self.registers.regs()
    }

    /// The 16-bit `I` address register.
    pub closed spec fn i_reg(&self) -> u16 {
        self.registers.i_register
    }

    /// The delay timer.
    pub closed spec fn delay(&self) -> u8 {
        self.registers.delay_timer
    }

    /// The sound timer.
    pub closed spec fn sound(&self) -> u8 {
        self.registers.sound_timer
    }

    /// The call stack contents, oldest frame first.
    pub closed spec fn frames(&self) -> Seq<u16> {
        self.stack.frames()
    }

    /// The shifted program store.
    pub closed spec fn mem(&self) -> Seq<u8> {
        self.main_memory.mem()
    }

    /// The program counter in the shifted representation.
    pub closed spec fn pc(&self) -> int {
        self.main_memory.pc()
    }

    /// The number of whole opcodes in the loaded program image.
    pub closed spec fn prog_len(&self) -> int {
        self.main_memory.program_length as int
    }

    /// The display cells.
    pub closed spec fn screen(&self) -> Seq<u8> {
        self.display.cells()
    }

    /// The register awaiting a key press, if the machine is blocked.
    pub closed spec fn pending(&self) -> Option<u8> {
        self.pending_key
    }

    /// The pressed state of the sixteen keys.
    pub closed spec fn keys(&self) -> Seq<bool> {
        self.key_pressed@
    }

    /// Microseconds per CPU cycle.
    pub closed spec fn cycle_period(&self) -> u32 {
        self.micros_per_cycle
    }

    /// Microseconds accumulated towards the next CPU cycle.
    pub closed spec fn cycle_acc(&self) -> u128 {
        self.micros_since_cycle
    }

    /// Microseconds per timer tick.
    pub closed spec fn timer_period(&self) -> u32 {
        self.micros_per_timer
    }

    /// Microseconds accumulated towards the next timer tick.
    pub closed spec fn timer_acc(&self) -> u128 {
        self.micros_since_timer
    }

    /// Well-formedness of the whole machine.
    pub closed spec fn wf(&self) -> bool {
        &&& self.registers.wf()
        &&& self.stack.wf()
        &&& self.main_memory.wf()
        &&& self.display.wf()
        &&& self.key_pressed@.len() == NUM_KEYS
        &&& (self.pending_key matches Some(target) ==> target < 16)
        &&& self.micros_per_cycle >= 1
        &&& self.micros_per_timer >= 1
        &&& self.micros_since_cycle <= self.micros_per_cycle
        &&& self.micros_since_timer <= self.micros_per_timer
    }

    /// Build a machine around a program image, with the CPU clocked at
    /// `clock_speed_hz` and the timers at the fixed 60 Hz.
    pub fn new(program_data: Vec<u8>, clock_speed_hz: u32) -> (r: Chip8)
        requires
            1 <= clock_speed_hz <= 1_000_000,
        ensures
            r.wf(),
            r.regs() =~= Seq::new(16, |i: int| 0u8),
            r.i_reg() == 0,
            r.delay() == 0,
            r.sound() == 0,
            r.frames() =~= Seq::<u16>::empty(),
            r.pc() == 0,
            r.prog_len() == program_data@.len() / 2,
            forall|i: int| 0 <= i < MEMORY_SIZE ==> r.mem()[i] == (if i < program_data@.len() {
                program_data@[i]
            } else {
                0u8
            }),
            forall|i: int| 0 <= i < DISPLAY_SIZE ==> r.screen()[i] == 0,
            r.pending() is None,
            forall|i: int| 0 <= i < NUM_KEYS ==> !r.keys()[i],
            r.cycle_period() == spec_period_micros(clock_speed_hz),
            r.timer_period() == spec_period_micros(TIMER_RATE_HZ),
            r.cycle_acc() == 0,
            r.timer_acc() == 0,
    {
        let micros_per_cycle: u32 = period_micros(clock_speed_hz);
        let micros_per_timer: u32 = period_micros(TIMER_RATE_HZ);
        let mut key_pressed: Vec<bool> = Vec::new();
        let mut k: usize = 0;
        while k < NUM_KEYS as usize
            invariant
                k <= 16,
                key_pressed@.len() == k,
                forall|i: int| 0 <= i < k ==> !key_pressed@[i],
            decreases 16 - k,
        {
            key_pressed.push(false);
            k = k + 1;
        }
        Chip8 {
            registers: Registers::new(),
            stack: Stack::new(),
            main_memory: MainMemory::new(program_data),
            display: Display::new(),
            pending_key: None,
            key_pressed,
            micros_per_cycle,
            micros_since_cycle: 0,
            micros_per_timer,
            micros_since_timer: 0,
        }
    }

    /// Fetch and decode the instructions of the loaded program in order,
    /// without executing anything: the diagnostic scan mode. It stops after
    /// the program's own opcodes, or early when the store runs out; only the
    /// program counter moves.
    pub fn scan_program(&mut self) -> (r: Vec<(u16, Instruction)>)
        requires
            old(self).wf(),
        ensures
            final(self).wf(),
            final(self).mem() == old(self).mem(),
            final(self).regs() == old(self).regs(),
            final(self).screen() == old(self).screen(),
            r@.len() <= old(self).prog_len(),
            forall|k: int| 0 <= k < r@.len() ==> (#[trigger] r@[k]).0 == spec_opcode_at(
                old(self).mem(),
                old(self).pc() + 2 * k,
            ) && r@[k].1 == spec_parse_opcode(r@[k].0) && old(self).pc() + 2 * k + 2
                <= MEMORY_SIZE,
            r@.len() < old(self).prog_len() ==> old(self).pc() + 2 * r@.len() + 2 > MEMORY_SIZE,
            final(self).pc() == old(self).pc() + 2 * r@.len(),
    {
        let count = self.main_memory.program_length;
        let mut out: Vec<(u16, Instruction)> = Vec::new();
        let mut k: usize = 0;
        let mut done = false;
        while k < count && !done
            invariant
                self.wf(),
                count == old(self).prog_len(),
                self.mem() == old(self).mem(),
                self.regs() == old(self).regs(),
                self.screen() == old(self).screen(),
                self.i_reg() == old(self).i_reg(),
                self.delay() == old(self).delay(),
                self.sound() == old(self).sound(),
                self.frames() == old(self).frames(),
                self.pending() == old(self).pending(),
                self.keys() == old(self).keys(),
                self.cycle_period() == old(self).cycle_period(),
                self.timer_period() == old(self).timer_period(),
                self.cycle_acc() == old(self).cycle_acc(),
                self.timer_acc() == old(self).timer_acc(),
                self.prog_len() == old(self).prog_len(),
                k <= count,
                out@.len() <= count,
                !done ==> k == out@.len(),
                done ==> self.pc() + 2 > MEMORY_SIZE,
                self.pc() == old(self).pc() + 2 * out@.len(),
                forall|i: int| 0 <= i < out@.len() ==> (#[trigger] out@[i]).0 == spec_opcode_at(
                    old(self).mem(),
                    old(self).pc() + 2 * i,
                ) && out@[i].1 == spec_parse_opcode(out@[i].0) && old(self).pc() + 2 * i + 2
                    <= MEMORY_SIZE,
            decreases count - k, (if done { 0int } else { 1int }),
        {
            match self.main_memory.fetch_opcode() {
                Some(opcode) => {
                    let instruction = parse_opcode(opcode);
                    out.push((opcode, instruction));
                    k = k + 1;
                },
                None => {
                    done = true;
                },
            }
        }
        out
    }

    /// Fetch the opcode at the program counter and decode it, advancing the
    /// counter past it. An exhausted store is fatal for normal execution.
    pub fn fetch(&mut self) -> (r: Result<Instruction, VmError>)
        requires
            old(self).wf(),
        ensures
            final(self).wf(),
            final(self).mem() == old(self).mem(),
            final(self).regs() == old(self).regs(),
            final(self).i_reg() == old(self).i_reg(),
            final(self).delay() == old(self).delay(),
            final(self).sound() == old(self).sound(),
            final(self).frames() == old(self).frames(),
            final(self).screen() == old(self).screen(),
            final(self).pending() == old(self).pending(),
            final(self).keys() == old(self).keys(),
            final(self).cycle_period() == old(self).cycle_period(),
            final(self).timer_period() == old(self).timer_period(),
            final(self).cycle_acc() == old(self).cycle_acc(),
            final(self).timer_acc() == old(self).timer_acc(),
            final(self).prog_len() == old(self).prog_len(),
            old(self).pc() + 2 <= MEMORY_SIZE ==> r == Result::<Instruction, VmError>::Ok(
                spec_parse_opcode(spec_opcode_at(old(self).mem(), old(self).pc())),
            ) && final(self).pc() == old(self).pc() + 2,
            old(self).pc() + 2 > MEMORY_SIZE ==> r == Result::<Instruction, VmError>::Err(
                VmError::ProgramExhausted,
            ) && final(self).pc() == old(self).pc(),
    {
        match self.main_memory.fetch_opcode() {
            Some(opcode) => Ok(parse_opcode(opcode)),
            None => Err(VmError::ProgramExhausted),
        }
    }

    /// Execute one decoded instruction against the machine state. The
    /// program counter already stands past the instruction; only jumps,
    /// calls, returns and skips move it further.
    ///
    /// The contract pins the exact effect of every variant. Each fatal
    /// condition is reported as an error: out-of-range addresses and key
    /// codes, stack overflow and underflow, and the `UNKNOWN` fallback. The
    /// legacy native-routine form (`NOP`) and the sound-timer write are
    /// deliberate no-ops.
    #[verifier::rlimit(60)]
    pub fn execute(&mut self, instruction: Instruction) -> (res: Result<(), VmError>)
        requires
            old(self).wf(),
            instruction_wf(instruction),
        ensures
            final(self).wf(),
            exec_frame(*old(self), *final(self)),
            execute_effect(*old(self), *final(self), instruction, res),
    {
        match instruction {
            Instruction::ClearScreen => {
                self.display.clear();
                Ok(())
            },
            Instruction::Return => {
                let address = match self.stack.pop() {
                    Ok(a) => a,
                    Err(e) => {
                        return Err(e);
                    },
                };
                self.main_memory.set_program_counter(address)
            },
            Instruction::Jump(address) => { self.main_memory.set_program_counter(address) },
            Instruction::Call(address) => {
                let pc = self.main_memory.peek_program_counter();
                match self.stack.push(pc as u16) {
                    Ok(()) => {},
                    Err(e) => {
                        return Err(e);
                    },
                }
                self.main_memory.set_program_counter(address)
            },
            Instruction::SkipIfEQData(register, data) => {
                if self.registers.read_data_register(register) == data {
                    self.main_memory.skip_instruction();
                }
                Ok(())
            },
            Instruction::SkipIfNEData(register, data) => {
                if self.registers.read_data_register(register) != data {
                    self.main_memory.skip_instruction();
                }
                Ok(())
            },
            Instruction::SkipIfEQRegister(register_1, register_2) => {
                if self.registers.read_data_register(register_1) == self.registers.read_data_register(register_2) {
                    self.main_memory.skip_instruction();
                }
                Ok(())
            },
            Instruction::LoadData(register, data) => {
                self.registers.write_data_register(register, data);
                Ok(())
            },
            Instruction::AddData(register, data) => {
                let register_data = self.registers.read_data_register(register);
                let sum: u16 = register_data as u16 + data as u16;
                self.registers.write_data_register(register, (sum % 256) as u8);
                Ok(())
            },
            Instruction::LoadRegister(register_1, register_2) => {
                let data = self.registers.read_data_register(register_2);
                self.registers.write_data_register(register_1, data);
                Ok(())
            },
            Instruction::Or(register_1, register_2) => {
                self.registers.write_data_register(
                    register_1,
                    self.registers.read_data_register(register_1) | self.registers.read_data_register(register_2),
                );
                Ok(())
            },
            Instruction::And(register_1, register_2) => {
                self.registers.write_data_register(
                    register_1,
                    self.registers.read_data_register(register_1) & self.registers.read_data_register(register_2),
                );
                Ok(())
            },
            Instruction::Xor(register_1, register_2) => {
                self.registers.write_data_register(
                    register_1,
                    self.registers.read_data_register(register_1) ^ self.registers.read_data_register(register_2),
                );
                Ok(())
            },
            Instruction::Add(register_1, register_2) => {
                let register_1_data = self.registers.read_data_register(register_1) as u16;
                let register_2_data = self.registers.read_data_register(register_2) as u16;
                let sum = register_1_data + register_2_data;
                self.registers.write_data_register(0xF, if sum > 255 { 1 } else { 0 });
                self.registers.write_data_register(register_1, (sum % 256) as u8);
                Ok(())
            },
            Instruction::Sub(register_1, register_2) => {
                let register_1_data = self.registers.read_data_register(register_1);
                let register_2_data = self.registers.read_data_register(register_2);
                self.registers.write_data_register(
                    0xF,
                    if register_1_data > register_2_data { 1 } else { 0 },
                );
                let diff: u16 = (register_1_data as u16 + 256) - register_2_data as u16;
                self.registers.write_data_register(register_1, (diff % 256) as u8);
                Ok(())
            },
            Instruction::ShiftRight(register) => {
                let data = self.registers.read_data_register(register);
                self.registers.write_data_register(0xF, data % 2);
                self.registers.write_data_register(register, data / 2);
                Ok(())
            },
            Instruction::NegatedSub(register_1, register_2) => {
                let register_1_data = self.registers.read_data_register(register_1);
                let register_2_data = self.registers.read_data_register(register_2);
                self.registers.write_data_register(
                    0xF,
                    if register_2_data > register_1_data { 1 } else { 0 },
                );
                let diff: u16 = (register_2_data as u16 + 256) - register_1_data as u16;
                self.registers.write_data_register(register_1, (diff % 256) as u8);
                Ok(())
            },
            Instruction::ShiftLeft(register) => {
                let data = self.registers.read_data_register(register);
                self.registers.write_data_register(0xF, data / 128);
                let doubled: u16 = data as u16 * 2;
                self.registers.write_data_register(register, (doubled % 256) as u8);
                Ok(())
            },
            Instruction::SkipIfNERegister(register_1, register_2) => {
                let register_1_data = self.registers.read_data_register(register_1);
                let register_2_data = self.registers.read_data_register(register_2);
                if register_1_data != register_2_data {
                    self.main_memory.skip_instruction();
                }
                Ok(())
            },
            Instruction::SetI(value) => {
                self.registers.i_register = value;
                Ok(())
            },
            Instruction::JumpFromOffset(address) => {
                let offset = self.registers.read_data_register(0x0);
                let target: u32 = offset as u32 + address as u32;
                if 0x200 <= target && target < 0x1000 {
                    self.main_memory.set_program_counter(target as u16)
                } else {
                    Err(VmError::MemoryBoundsViolation)
                }
            },
            Instruction::Random(register, data) => {
                let n = random_byte();
                self.registers.write_data_register(register, n & data);
                proof {
                    assert(self.regs() == old(self).regs().update(register as int, n & data));
                }
                Ok(())
            },
            Instruction::Draw(x, y, data) => {
                let start_sprite = self.registers.i_register;
                let end32: u32 = start_sprite as u32 + data as u32;
                if end32 <= 0x50 || (start_sprite >= 0x200 && end32 <= 0x1000) {
                    let sprite = match self.main_memory.slice_program(start_sprite, end32 as u16) {
                        Ok(s) => s,
                        Err(e) => {
                            return Err(e);
                        },
                    };
                    let collision = self.display.draw(
                        self.registers.read_data_register(x),
                        self.registers.read_data_register(y),
                        &sprite,
                    );
                    self.registers.write_data_register(0xF, if collision { 1 } else { 0 });
                    Ok(())
                } else {
                    Err(VmError::MemoryBoundsViolation)
                }
            },
            Instruction::SkipIfPressed(register) => {
                let key = self.registers.read_data_register(register);
                if key < NUM_KEYS {
                    if self.key_pressed[key as usize] {
                        self.main_memory.skip_instruction();
                    }
                    Ok(())
                } else {
                    Err(VmError::InvalidRegisterIndex)
                }
            },
            Instruction::SkipIfNotPressed(register) => {
                let key = self.registers.read_data_register(register);
                if key < NUM_KEYS {
                    if !self.key_pressed[key as usize] {
                        self.main_memory.skip_instruction();
                    }
                    Ok(())
                } else {
                    Err(VmError::InvalidRegisterIndex)
                }
            },
            Instruction::SetRegisterFromDelay(register) => {
                let delay = self.registers.delay_timer;
                self.registers.write_data_register(register, delay);
                Ok(())
            },
            Instruction::AwaitPress(register) => {
                self.pending_key = Some(register);
                Ok(())
            },
            Instruction::SetDelayFromRegister(register) => {
                self.registers.delay_timer = self.registers.read_data_register(register);
                Ok(())
            },
            Instruction::SetSoundFromRegister(_) => {
                // Sound is recognized but never rendered: a deliberate no-op.
                Ok(())
            },
            Instruction::AddI(register) => {
                let v = self.registers.read_data_register(register);
                let sum32: u32 = self.registers.i_register as u32 + v as u32;
                self.registers.i_register = (sum32 % 0x10000) as u16;
                Ok(())
            },
            Instruction::LoadSprite(register) => {
                self.registers.i_register = 5 * self.registers.read_data_register(register) as u16;
                Ok(())
            },
            Instruction::SetBCDRepresentation(register) => {
                let data = self.registers.read_data_register(register);
                let i = self.registers.i_register;
                if i < 0x200 || i as u32 + 2 >= 0x1000 {
                    return Err(VmError::MemoryBoundsViolation);
                }
                match self.main_memory.write_address(i, (data / 100) % 10) {
                    Ok(()) => {},
                    Err(e) => {
                        return Err(e);
                    },
                }
                match self.main_memory.write_address(i + 1, (data / 10) % 10) {
                    Ok(()) => {},
                    Err(e) => {
                        return Err(e);
                    },
                }
                match self.main_memory.write_address(i + 2, data % 10) {
                    Ok(()) => {},
                    Err(e) => {
                        return Err(e);
                    },
                }
                Ok(())
            },
            Instruction::StoreRegisters(high_register) => {
                let base = self.registers.i_register;
                let mut register: u8 = 0;
                while register <= high_register
                    invariant
                        self.wf(),
                        instruction == Instruction::StoreRegisters(high_register),
                        high_register < 16,
                        register <= high_register + 1,
                        base == old(self).i_reg(),
                        exec_frame(*old(self), *self),
                        touches_only_mem(*old(self), *self),
                        register > 0 ==> PROGRAM_OFFSET <= base && base + register - 1 < 0x1000,
                        self.mem().len() == MEMORY_SIZE,
                        forall|a: int|
                            0 <= a < MEMORY_SIZE ==> self.mem()[a] == (
                            if base - PROGRAM_OFFSET <= a < base - PROGRAM_OFFSET + register {
                                old(self).regs()[a - (base - PROGRAM_OFFSET)]
                            } else {
                                old(self).mem()[a]
                            }),
                    decreases high_register + 1 - register,
                {
                    let address: u16 = base + register as u16;
                    let value = self.registers.read_data_register(register);
                    match self.main_memory.write_address(address, value) {
                        Ok(()) => {},
                        Err(e) => {
                            return Err(e);
                        },
                    }
                    register = register + 1;
                }
                Ok(())
            },
            Instruction::ReadRegisters(high_register) => {
                let base = self.registers.i_register;
                let mut register: u8 = 0;
                while register <= high_register
                    invariant
                        self.wf(),
                        instruction == Instruction::ReadRegisters(high_register),
                        high_register < 16,
                        register <= high_register + 1,
                        base == old(self).i_reg(),
                        exec_frame(*old(self), *self),
                        touches_only_regs(*old(self), *self),
                        register > 0 ==> (base + register - 1 < 0x50 || (PROGRAM_OFFSET <= base
                            && base + register - 1 < 0x1000)),
                        forall|k: int|
                            0 <= k < 16 ==> self.regs()[k] == (if 0 <= k < register {
                                ext_byte(old(self).mem(), base + k)
                            } else {
                                old(self).regs()[k]
                            }),
                    decreases high_register + 1 - register,
                {
                    let address: u16 = base + register as u16;
                    let value = match self.main_memory.load_address(address) {
                        Ok(v) => v,
                        Err(e) => {
                            return Err(e);
                        },
                    };
                    let ghost prev_regs = self.regs();
                    self.registers.write_data_register(register, value);
                    proof {
                        assert forall|k: int| 0 <= k < 16 implies self.regs()[k] == (
                        if 0 <= k < register + 1 {
                            ext_byte(old(self).mem(), base + k)
                        } else {
                            old(self).regs()[k]
                        }) by {
                            assert(self.regs()[k] == prev_regs.update(register as int, value)[k]);
                        }
                    }
                    register = register + 1;
                }
                Ok(())
            },
            Instruction::NOP(_) => { Ok(()) },
            Instruction::UNKNOWN(data) => { Err(VmError::UnknownOpcode(data)) },
        }
    }

    /// Advance the simulation by `elapsed_micros` of wall-clock time.
    ///
    /// The elapsed time is accumulated separately for the CPU clock and the
    /// 60 Hz timer clock; each accumulator, once it exceeds its period,
    /// yields its whole periods and carries the fractional remainder
    /// forward. One instruction is fetched and executed per whole CPU
    /// period — unless the machine is blocked awaiting a key, in which case
    /// the periods pass without execution and the machine does not fall
    /// behind. Independently, the delay and sound timers go down by one per
    /// whole timer period, resting at zero.
    ///
    /// While the machine is blocked, or when no whole CPU period has
    /// elapsed, the contract pins the entire outcome: nothing changes but
    /// the accumulators and the timers. When instructions do run, their
    /// effect is governed by `execute`; the first fatal condition stops the
    /// cycle and is returned.
    pub fn cycle(&mut self, elapsed_micros: u64) -> (res: Result<(), VmError>)
        requires
            old(self).wf(),
        ensures
            final(self).wf(),
            final(self).cycle_period() == old(self).cycle_period(),
            final(self).timer_period() == old(self).timer_period(),
            final(self).keys() == old(self).keys(),
            final(self).prog_len() == old(self).prog_len(),
            final(self).cycle_acc() == acc_rem(
                old(self).cycle_acc() + elapsed_micros,
                old(self).cycle_period() as int,
            ),
            final(self).timer_acc() == acc_rem(
                old(self).timer_acc() + elapsed_micros,
                old(self).timer_period() as int,
            ),
            (old(self).pending() is Some || whole_periods(
                old(self).cycle_acc() + elapsed_micros,
                old(self).cycle_period() as int,
            ) == 0) ==> ({
                let ticks = whole_periods(
                    old(self).timer_acc() + elapsed_micros,
                    old(self).timer_period() as int,
                );
                &&& res is Ok
                &&& final(self).regs() == old(self).regs()
                &&& final(self).i_reg() == old(self).i_reg()
                &&& final(self).frames() == old(self).frames()
                &&& final(self).mem() == old(self).mem()
                &&& final(self).pc() == old(self).pc()
                &&& final(self).screen() == old(self).screen()
                &&& final(self).pending() == old(self).pending()
                &&& final(self).delay() == timer_step(old(self).delay(), ticks)
                &&& final(self).sound() == timer_step(old(self).sound(), ticks)
            }),
            res is Ok ==> (exists|states: Seq<Chip8>|
                {
                    &&& #[trigger] run_trace_ok(states)
                    &&& states.len() == whole_periods(
                        old(self).cycle_acc() + elapsed_micros,
                        old(self).cycle_period() as int,
                    ) + 1
                    &&& touches_nothing(*old(self), states.first())
                    &&& final(self).regs() == states.last().regs()
                    &&& final(self).i_reg() == states.last().i_reg()
                    &&& final(self).frames() == states.last().frames()
                    &&& final(self).mem() == states.last().mem()
                    &&& final(self).pc() == states.last().pc()
                    &&& final(self).screen() == states.last().screen()
                    &&& final(self).pending() == states.last().pending()
                    &&& final(self).delay() == timer_step(
                        states.last().delay(),
                        whole_periods(
                            old(self).timer_acc() + elapsed_micros,
                            old(self).timer_period() as int,
                        ),
                    )
                    &&& final(self).sound() == timer_step(
                        states.last().sound(),
                        whole_periods(
                            old(self).timer_acc() + elapsed_micros,
                            old(self).timer_period() as int,
                        ),
                    )
                }),
            res matches Err(e) ==> old(self).pending() is None && whole_periods(
                old(self).cycle_acc() + elapsed_micros,
                old(self).cycle_period() as int,
            ) > 0 && (exists|states: Seq<Chip8>|
                {
                    &&& #[trigger] run_trace_ok(states)
                    &&& 1 <= states.len() <= whole_periods(
                        old(self).cycle_acc() + elapsed_micros,
                        old(self).cycle_period() as int,
                    )
                    &&& touches_nothing(*old(self), states.first())
                    &&& states.last().pending() is None
                    &&& step_effect(states.last(), *final(self), Result::<(), VmError>::Err(e))
                }),
    {
        self.micros_since_cycle = self.micros_since_cycle + elapsed_micros as u128;
        self.micros_since_timer = self.micros_since_timer + elapsed_micros as u128;

        let mut cpu_cycles: u128 = 0;
        if self.micros_since_cycle > self.micros_per_cycle as u128 {
            cpu_cycles = self.micros_since_cycle / (self.micros_per_cycle as u128);
            self.micros_since_cycle = self.micros_since_cycle % (self.micros_per_cycle as u128);
        }
        let mut timer_ticks: u128 = 0;
        if self.micros_since_timer > self.micros_per_timer as u128 {
            timer_ticks = self.micros_since_timer / (self.micros_per_timer as u128);
            self.micros_since_timer = self.micros_since_timer % (self.micros_per_timer as u128);
        }

        let mut n: u128 = 0;
        let ghost mut trace: Seq<Chip8> = seq![*self];
        while n < cpu_cycles
            invariant
                self.wf(),
                n <= cpu_cycles,
                cpu_cycles == whole_periods(
                    old(self).cycle_acc() + elapsed_micros,
                    old(self).cycle_period() as int,
                ),
                self.cycle_period() == old(self).cycle_period(),
                self.timer_period() == old(self).timer_period(),
                self.keys() == old(self).keys(),
                self.prog_len() == old(self).prog_len(),
                self.cycle_acc() == acc_rem(
                    old(self).cycle_acc() + elapsed_micros,
                    old(self).cycle_period() as int,
                ),
                self.timer_acc() == acc_rem(
                    old(self).timer_acc() + elapsed_micros,
                    old(self).timer_period() as int,
                ),
                trace.len() == n + 1,
                run_trace_ok(trace),
                touches_nothing(*old(self), trace.first()),
                trace.last() == *self,
                (old(self).pending() is Some || cpu_cycles == 0) ==> (self.regs() == old(
                    self,
                ).regs() && self.i_reg()
                    == old(self).i_reg() && self.delay() == old(self).delay() && self.sound()
                    == old(self).sound() && self.frames() == old(self).frames() && self.mem()
                    == old(self).mem() && self.pc() == old(self).pc() && self.screen() == old(
                    self,
                ).screen() && self.pending() == old(self).pending()),
            decreases cpu_cycles - n,
        {
            let ghost head = *self;
            if self.pending_key.is_none() {
                let instruction = match self.fetch() {
                    Ok(i) => i,
                    Err(e) => {
                        proof {
                            assert(step_effect(head, *self, Result::<(), VmError>::Err(e)));
                            assert(run_trace_ok(trace) && 1 <= trace.len() <= whole_periods(
                                old(self).cycle_acc() + elapsed_micros,
                                old(self).cycle_period() as int,
                            ) && touches_nothing(*old(self), trace.first()) && trace.last()
                                == head && trace.last().pending() is None && step_effect(
                                trace.last(),
                                *self,
                                Result::<(), VmError>::Err(e),
                            ));
                        }
                        return Err(e);
                    },
                };
                let ghost fetched = *self;
                proof {
                    lemma_parsed_instruction_wf(spec_opcode_at(head.mem(), head.pc()));
                }
                match self.execute(instruction) {
                    Ok(()) => {},
                    Err(e) => {
                        proof {
                            assert(touches_only_pc(head, fetched) && fetched.pc() == head.pc()
                                + 2);
                            assert(execute_effect(
                                fetched,
                                *self,
                                spec_parse_opcode(spec_opcode_at(head.mem(), head.pc())),
                                Result::<(), VmError>::Err(e),
                            ));
                            assert(step_effect(head, *self, Result::<(), VmError>::Err(e)));
                            assert(run_trace_ok(trace) && 1 <= trace.len() <= whole_periods(
                                old(self).cycle_acc() + elapsed_micros,
                                old(self).cycle_period() as int,
                            ) && touches_nothing(*old(self), trace.first()) && trace.last()
                                == head && trace.last().pending() is None && step_effect(
                                trace.last(),
                                *self,
                                Result::<(), VmError>::Err(e),
                            ));
                        }
                        return Err(e);
                    },
                }
                proof {
                    assert(touches_only_pc(head, fetched) && fetched.pc() == head.pc() + 2);
                    assert(execute_effect(
                        fetched,
                        *self,
                        spec_parse_opcode(spec_opcode_at(head.mem(), head.pc())),
                        Result::<(), VmError>::Ok(()),
                    ));
                    assert(step_effect(head, *self, Result::<(), VmError>::Ok(())));
                }
            }
            proof {
                trace = trace.push(*self);
            }
            n = n + 1;
        }

        proof {
            assert(run_trace_ok(trace) && trace.len() == whole_periods(
                old(self).cycle_acc() + elapsed_micros,
                old(self).cycle_period() as int,
            ) + 1 && touches_nothing(*old(self), trace.first()) && trace.last() == *self);
        }
        if (self.registers.delay_timer as u128) <= timer_ticks {
            self.registers.delay_timer = 0;
        } else {
            self.registers.delay_timer = self.registers.delay_timer - (timer_ticks as u8);
        }
        if (self.registers.sound_timer as u128) <= timer_ticks {
            self.registers.sound_timer = 0;
        } else {
            self.registers.sound_timer = self.registers.sound_timer - (timer_ticks as u8);
        }
        Ok(())
    }

    /// Record a key going down or up. When the machine is blocked awaiting a
    /// key and this is a press, the key code lands in the awaited register
    /// and the block is resolved; otherwise only the key table changes.
    pub fn update_key(&mut self, keycode: u8, is_pressed: bool)
        requires
            old(self).wf(),
            keycode < NUM_KEYS,
        ensures
            final(self).wf(),
            final(self).keys() == old(self).keys().update(keycode as int, is_pressed),
            old(self).pending() matches Some(target) ==> (is_pressed ==> final(self).regs()
                == old(self).regs().update(target as int, keycode) && final(self).pending() is None),
            old(self).pending() is None || !is_pressed ==> final(self).regs() == old(self).regs()
                && final(self).pending() == old(self).pending(),
            final(self).i_reg() == old(self).i_reg(),
            final(self).delay() == old(self).delay(),
            final(self).sound() == old(self).sound(),
            final(self).frames() == old(self).frames(),
            final(self).mem() == old(self).mem(),
            final(self).pc() == old(self).pc(),
            final(self).screen() == old(self).screen(),
            final(self).prog_len() == old(self).prog_len(),
            final(self).cycle_period() == old(self).cycle_period(),
            final(self).timer_period() == old(self).timer_period(),
            final(self).cycle_acc() == old(self).cycle_acc(),
            final(self).timer_acc() == old(self).timer_acc(),
    {
        self.key_pressed.set(keycode as usize, is_pressed);
        match self.pending_key {
            Some(target) => {
                if is_pressed {
                    self.registers.write_data_register(target, keycode);
                    self.pending_key = None;
                }
            },
            None => {},
        }
    }

    /// General register `register`, for the host and for tests.
    pub fn read_register(&self, register: u8) -> (r: u8)
        requires
            self.wf(),
            register < 16,
        ensures
            r == self.regs()[register as int],
    {
        self.registers.read_data_register(register)
    }

    /// The current value of the `I` address register.
    pub fn i_register(&self) -> (r: u16)
        ensures
            r == self.i_reg(),
    {
        self.registers.i_register
    }

    /// The current delay timer value.
    pub fn delay_timer(&self) -> (r: u8)
        ensures
            r == self.delay(),
    {
        self.registers.delay_timer
    }

    /// The current sound timer value.
    pub fn sound_timer(&self) -> (r: u8)
        ensures
            r == self.sound(),
    {
        self.registers.sound_timer
    }

    /// The register awaiting a key press, if any.
    pub fn pending_key(&self) -> (r: Option<u8>)
        ensures
            r == self.pending(),
    {
        self.pending_key
    }

    /// The external address of the next opcode to fetch.
    pub fn program_counter(&self) -> (r: usize)
        requires
            self.wf(),
        ensures
            r == self.pc() + PROGRAM_OFFSET,
    {
        self.main_memory.peek_program_counter()
    }

    /// Whether key `key` is currently held down.
    pub fn key_state(&self, key: u8) -> (r: bool)
        requires
            self.wf(),
            key < NUM_KEYS,
        ensures
            r == self.keys()[key as int],
    {
        self.key_pressed[key as usize]
    }

    /// Map a physical key name to its hex pad code, per the keyboard layout
    /// above. Names that are not part of the pad map to nothing.
    pub fn match_key(key: String) -> (r: Option<u8>)
        ensures
            r == spec_match_key(key@),
            r matches Some(code) ==> code < NUM_KEYS,
    {
        let s = key.as_str();
        if s.unicode_len() != 1 {
            return None;
        }
        match s.get_char(0) {
            '1' => Some(0x1),
            '2' => Some(0x2),
            '3' => Some(0x3),
            '4' => Some(0xC),
            'Q' => Some(0x4),
            'W' => Some(0x5),
            'E' => Some(0x6),
            'R' => Some(0xD),
            'A' => Some(0x7),
            'S' => Some(0x8),
            'D' => Some(0x9),
            'F' => Some(0xE),
            'Z' => Some(0xA),
            'X' => Some(0x0),
            'C' => Some(0xB),
            'V' => Some(0xF),
            _ => None,
        }
    }
}

/// The hex pad code for a physical key name: defined for the sixteen
/// single-character names of the keyboard layout, nothing for the rest.
pub open spec fn spec_match_key(s: Seq<char>) -> Option<u8> {
    if s.len() != 1 {
        None
    } else if s[0] == '1' {
        Some(0x1u8)
    } else if s[0] == '2' {
        Some(0x2u8)
    } else if s[0] == '3' {
        Some(0x3u8)
    } else if s[0] == '4' {
        Some(0xCu8)
    } else if s[0] == 'Q' {
        Some(0x4u8)
    } else if s[0] == 'W' {
        Some(0x5u8)
    } else if s[0] == 'E' {
        Some(0x6u8)
    } else if s[0] == 'R' {
        Some(0xDu8)
    } else if s[0] == 'A' {
        Some(0x7u8)
    } else if s[0] == 'S' {
        Some(0x8u8)
    } else if s[0] == 'D' {
        Some(0x9u8)
    } else if s[0] == 'F' {
        Some(0xEu8)
    } else if s[0] == 'Z' {
        Some(0xAu8)
    } else if s[0] == 'X' {
        Some(0x0u8)
    } else if s[0] == 'C' {
        Some(0xBu8)
    } else if s[0] == 'V' {
        Some(0xFu8)
    } else {
        None
    }
}

/// What well-formedness guarantees of the visible machine state: the sizes
/// of the register file, key table, display and store, the binary display
/// cells, the bounds on the program counter, clock periods and
/// accumulators, and the shape of the pending-key marker.
pub proof fn lemma_chip8_wf_bounds(m: &Chip8)
    requires
        m.wf(),
    ensures
        m.regs().len() == 16,
        m.keys().len() == NUM_KEYS,
        m.screen().len() == DISPLAY_SIZE,
        forall|i: int|
            0 <= i < DISPLAY_SIZE ==> m.screen()[i] == 0 || #[trigger] m.screen()[i] == 1,
        m.mem().len() == MEMORY_SIZE,
        0 <= m.pc() <= MEMORY_SIZE,
        m.frames().len() <= 16,
        m.pending() matches Some(target) ==> target < 16,
        m.cycle_period() >= 1,
        m.timer_period() >= 1,
        m.cycle_acc() <= m.cycle_period(),
        m.timer_acc() <= m.timer_period(),
{
    crate::stack::lemma_stack_wf_bounds(&m.stack);
}

/// Relies on `rand::random`: a uniformly sampled random byte. Nothing is
/// promised of its value.
#[verifier::external_body]
fn random_byte() -> u8 {
    rand::random()
}

/// The whole-microsecond period of a clock running at `hz` Hz, rounded to
/// the nearest microsecond.
fn period_micros(hz: u32) -> (r: u32)
    requires
        1 <= hz <= 1_000_000,
    ensures
        r == spec_period_micros(hz),
        1 <= r <= 1_500_000,
    {
        proof {
            let num = 1_000_000 + hz / 2;
            vstd::arithmetic::div_mod::lemma_div_non_zero(num as int, hz as int);
            vstd::arithmetic::div_mod::lemma_div_is_ordered_by_denominator(num as int, 1, hz as int);
        }
        (1_000_000u32 + hz / 2) / hz
    }

} // verus!
