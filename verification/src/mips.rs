//! The MIPS core that both the VR4300 and the RSP build on: the program
//! counter with its delay-slot pipeline, the general-purpose registers and
//! HI/LO. What differs between the two processors (the PC mask, whether
//! 64-bit results are kept) is the core's configuration.

pub mod instruction;
pub mod opcode;

use vstd::prelude::*;

verus! {

/// What the processor that the core runs in fixes: the mask applied to
/// every program counter and whether registers keep 64-bit results.
#[derive(Copy, Clone, Debug, PartialEq, Eq, Structural)]
pub struct CoreConfig {
    pub pc_mask: u32,
    pub enable_64_bit: bool,
}

/// Where execution starts.
pub struct InitialState {
    pub pc: u32,
    pub regs: [u64; 32],
}

/// The abstract state of the core.
pub struct CoreView {
    pub config: CoreConfig,
    pub pc: u32,
    pub next: Seq<u32>,
    pub delay: bool,
    pub regs: Seq<u64>,
    pub hi: u64,
    pub lo: u64,
}

pub struct Core {
    config: CoreConfig,
    pc: u32,
    next: [u32; 2],
    delay: bool,
    regs: [u64; 32],
    hi: u64,
    lo: u64,
}

impl View for Core {
    type V = CoreView;

    closed spec fn view(&self) -> CoreView {
        CoreView {
            config: self.config,
            pc: self.pc,
            next: self.next@,
            delay: self.delay,
            regs: self.regs@,
            hi: self.hi,
            lo: self.lo,
        }
    }
}

/// A 32-bit value sign-extended to 64 bits.
pub open spec fn sext32(value: u32) -> u64 {
    value as i32 as u64
}

/// The registers after a 32-bit write: register 0 stays zero-written,
/// the others take the value sign-extended.
pub open spec fn setw_regs(regs: Seq<u64>, reg: int, value: u32) -> Seq<u64> {
    if reg == 0 {
        regs
    } else {
        regs.update(reg, sext32(value))
    }
}

/// The registers after a 64-bit write; a core without 64-bit registers
/// keeps the low half, sign-extended.
pub open spec fn setd_regs(config: CoreConfig, regs: Seq<u64>, reg: int, value: u64) -> Seq<u64> {
    if !config.enable_64_bit {
        setw_regs(regs, reg, value as u32)
    } else if reg == 0 {
        regs
    } else {
        regs.update(reg, value)
    }
}

/// `a + b` modulo 2^32.
pub open spec fn add32(a: u32, b: u32) -> u32 {
    ((a as int + b as int) % 0x1_0000_0000) as u32
}

/// `a - b` modulo 2^32.
pub open spec fn sub32(a: u32, b: u32) -> u32 {
    ((a as int - b as int) % 0x1_0000_0000) as u32
}

/// `a + b` modulo 2^64.
pub open spec fn add64(a: u64, b: u64) -> u64 {
    ((a as int + b as int) % 0x1_0000_0000_0000_0000) as u64
}

/// `a - b` modulo 2^64.
pub open spec fn sub64(a: u64, b: u64) -> u64 {
    ((a as int - b as int) % 0x1_0000_0000_0000_0000) as u64
}

proof fn lemma_wrap(x: int, m: int)
    requires
        m > 0,
        -m < x < 2 * m,
    ensures
        x % m == if x >= m {
            x - m
        } else if x < 0 {
            x + m
        } else {
            x
        },
{
    if x >= m {
        crate::bits::lemma_div_mod(x, m, 1, x - m);
    } else if x < 0 {
        crate::bits::lemma_div_mod(x, m, -1, x + m);
    } else {
        crate::bits::lemma_div_mod(x, m, 0, x);
    }
}

pub fn wrapping_add32(a: u32, b: u32) -> (r: u32)
    ensures
        r == add32(a, b),
{
    proof {
        lemma_wrap(a + b, 0x1_0000_0000);
    }
    a.wrapping_add(b)
}

pub fn wrapping_sub32(a: u32, b: u32) -> (r: u32)
    ensures
        r == sub32(a, b),
{
    proof {
        lemma_wrap(a - b, 0x1_0000_0000);
    }
    a.wrapping_sub(b)
}

pub fn wrapping_add64(a: u64, b: u64) -> (r: u64)
    ensures
        r == add64(a, b),
{
    proof {
        lemma_wrap(a + b, 0x1_0000_0000_0000_0000);
    }
    a.wrapping_add(b)
}

pub fn wrapping_sub64(a: u64, b: u64) -> (r: u64)
    ensures
        r == sub64(a, b),
{
    proof {
        lemma_wrap(a - b, 0x1_0000_0000_0000_0000);
    }
    a.wrapping_sub(b)
}

impl Core {
    /// A core about to execute `pc`, followed by `pc + 4` and `pc + 8`.
    pub fn new(config: CoreConfig, initial_state: InitialState) -> (r: Self)
        ensures
            r@ == (CoreView {
                config,
                pc: initial_state.pc & config.pc_mask,
                next: seq![
                    add32(initial_state.pc, 4) & config.pc_mask,
                    add32(initial_state.pc, 8) & config.pc_mask,
                ],
                delay: false,
                regs: initial_state.regs@,
                hi: 0,
                lo: 0,
            }),
    {
        let InitialState { pc, regs } = initial_state;
        let r = Core {
            config,
            pc: pc & config.pc_mask,
            next: [
                wrapping_add32(pc, 4) & config.pc_mask,
                wrapping_add32(pc, 8) & config.pc_mask,
            ],
            delay: false,
            regs,
            hi: 0,
            lo: 0,
        };
        assert(r@.next =~= seq![add32(pc, 4) & config.pc_mask, add32(pc, 8) & config.pc_mask]);
        r
    }

    pub fn config(&self) -> (r: CoreConfig)
        ensures
            r == self@.config,
    {
        self.config
    }

    pub fn pc(&self) -> (r: u32)
        ensures
            r == self@.pc,
    {
        self.pc
    }

    /// Jumps at once: `pc` and the two addresses after it.
    pub fn set_pc(&mut self, pc: u32)
        ensures
            final(self)@ == (CoreView {
                pc: pc & old(self)@.config.pc_mask,
                next: seq![
                    add32(pc, 4) & old(self)@.config.pc_mask,
                    add32(pc, 8) & old(self)@.config.pc_mask,
                ],
                ..old(self)@
            }),
    {
        self.pc = pc & self.config.pc_mask;
        self.next = [
            wrapping_add32(pc, 4) & self.config.pc_mask,
            wrapping_add32(pc, 8) & self.config.pc_mask,
        ];
        assert(self@.next =~= seq![
            add32(pc, 4) & old(self)@.config.pc_mask,
            add32(pc, 8) & old(self)@.config.pc_mask,
        ]);
    }

    /// The low 32 bits of register `reg`.
    pub fn getw(&self, reg: usize) -> (r: u32)
        requires
            reg < 32,
        ensures
            r == self@.regs[reg as int] as u32,
    {
        self.regs[reg] as u32
    }

    /// Writes `value`, sign-extended, to register `reg`; register 0
    /// ignores writes.
    pub fn setw(&mut self, reg: usize, value: u32)
        requires
            reg < 32,
        ensures
            final(self)@ == (CoreView {
                regs: setw_regs(old(self)@.regs, reg as int, value),
                ..old(self)@
            }),
    {
        if reg == 0 {
            return;
        }
        self.regs[reg] = value as i32 as u64;
    }

    pub fn getd(&self, reg: usize) -> (r: u64)
        requires
            reg < 32,
        ensures
            r == self@.regs[reg as int],
    {
        self.regs[reg]
    }

    /// Writes `value` to register `reg`.
    pub fn setd(&mut self, reg: usize, value: u64)
        requires
            reg < 32,
        ensures
            final(self)@ == (CoreView {
                regs: setd_regs(old(self)@.config, old(self)@.regs, reg as int, value),
                ..old(self)@
            }),
    {
        if !self.config.enable_64_bit {
            self.setw(reg, value as u32);
            return;
        }
        if reg == 0 {
            return;
        }
        self.regs[reg] = value;
    }

    pub fn hi(&self) -> (r: u64)
        ensures
            r == self@.hi,
    {
        self.hi
    }

    pub fn lo(&self) -> (r: u64)
        ensures
            r == self@.lo,
    {
        self.lo
    }

    pub fn setw_hi(&mut self, value: u32)
        ensures
            final(self)@ == (CoreView { hi: sext32(value), ..old(self)@ }),
    {
        self.hi = value as i32 as u64;
    }

    pub fn setw_lo(&mut self, value: u32)
        ensures
            final(self)@ == (CoreView { lo: sext32(value), ..old(self)@ }),
    {
        self.lo = value as i32 as u64;
    }

    pub fn setd_hi(&mut self, value: u64)
        ensures
            final(self)@ == (CoreView { hi: value, ..old(self)@ }),
    {
        self.hi = value;
    }

    pub fn setd_lo(&mut self, value: u64)
        ensures
            final(self)@ == (CoreView { lo: value, ..old(self)@ }),
    {
        self.lo = value;
    }

    /// Takes a branch by `offset` from the delay slot when `condition`
    /// holds; a likely branch not taken skips its delay slot.
    pub fn branch_if(&mut self, likely: bool, condition: bool, offset: i32)
        ensures
            condition ==> final(self)@ == (CoreView {
                next: old(self)@.next.update(
                    1,
                    add32(old(self)@.next[0], offset as u32) & old(self)@.config.pc_mask,
                ),
                delay: true,
                ..old(self)@
            }),
            !condition && likely ==> final(self)@ == (CoreView {
                next: seq![
                    old(self)@.next[1],
                    add32(old(self)@.next[1], 4) & old(self)@.config.pc_mask,
                ],
                ..old(self)@
            }),
            !condition && !likely ==> final(self)@ == old(self)@,
    {
        if condition {
            let target = wrapping_add32(self.next[0], offset as u32);
            self.jump_delayed(target);
        } else if likely {
            self.next[0] = self.next[1];
            self.next[1] = wrapping_add32(self.next[1], 4) & self.config.pc_mask;
            assert(self@.next =~= seq![
                old(self)@.next[1],
                add32(old(self)@.next[1], 4) & old(self)@.config.pc_mask,
            ]);
        }
    }

    /// Raises a trap when `condition` holds; traps are not emulated, so
    /// the condition must not hold.
    pub fn trap_if(&mut self, condition: bool)
        requires
            !condition,
        ensures
            final(self)@ == old(self)@,
    {
    }

    pub fn is_delay(&self) -> (r: bool)
        ensures
            r == self@.delay,
    {
        self.delay
    }

    /// The address at which execution resumes after an exception: the
    /// branch before a delay slot, else the next instruction.
    pub fn restart_location(&self) -> (r: u32)
        ensures
            r == if self@.delay {
                sub32(self@.next[0], 4) & self@.config.pc_mask
            } else {
                self@.next[0]
            },
    {
        if self.delay {
            wrapping_sub32(self.next[0], 4) & self.config.pc_mask
        } else {
            self.next[0]
        }
    }

    /// Jumps to `target` after the delay slot.
    pub fn jump_delayed(&mut self, target: u32)
        ensures
            final(self)@ == (CoreView {
                next: old(self)@.next.update(1, target & old(self)@.config.pc_mask),
                delay: true,
                ..old(self)@
            }),
    {
        self.next[1] = target & self.config.pc_mask;
        self.delay = true;
    }

    /// Jumps to `target` with no delay slot.
    pub fn jump_now(&mut self, target: u32)
        ensures
            final(self)@ == (CoreView {
                next: seq![
                    target & old(self)@.config.pc_mask,
                    add32(target, 4) & old(self)@.config.pc_mask,
                ],
                ..old(self)@
            }),
    {
        self.next[0] = target & self.config.pc_mask;
        self.next[1] = wrapping_add32(target, 4) & self.config.pc_mask;
        assert(self@.next =~= seq![
            target & old(self)@.config.pc_mask,
            add32(target, 4) & old(self)@.config.pc_mask,
        ]);
    }

    /// Moves on to the next instruction once one has executed.
    pub fn advance(&mut self)
        ensures
            final(self)@ == (CoreView {
                pc: old(self)@.next[0],
                next: seq![
                    old(self)@.next[1],
                    add32(old(self)@.next[1], 4) & old(self)@.config.pc_mask,
                ],
                delay: false,
                ..old(self)@
            }),
    {
        self.pc = self.next[0];
        self.next[0] = self.next[1];
        self.next[1] = wrapping_add32(self.next[1], 4) & self.config.pc_mask;
        self.delay = false;
        assert(self@.next =~= seq![
            old(self)@.next[1],
            add32(old(self)@.next[1], 4) & old(self)@.config.pc_mask,
        ]);
    }
}

} // verus!
