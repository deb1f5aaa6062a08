use vstd::prelude::*;

use std::collections::VecDeque;

use crate::alu::{c_of, h_of, n_of, z_of};
use crate::bus::{Bus, IE_ADDR, IF_ADDR};
use crate::tables::{inst_length, inst_length_spec};

verus! {

/// Number of fetched instructions the CPU remembers.
pub const INST_LOG_LEN: usize = 20;

/// An 8-bit operand: a register, a byte addressed by a register pair, or an
/// immediate byte.
#[derive(Clone, Copy, Debug, PartialEq, Eq, Structural)]
pub enum Reg {
    B,
    C,
    D,
    E,
    H,
    L,
    AddrHL,
    A,
    AddrBC,
    AddrDE,
    F,
    Imm8(u8),
}

#[derive(Clone, Copy, Debug, PartialEq, Eq, Structural)]
pub enum Reg16 {
    BC,
    DE,
    HL,
    AF,
    SP,
    PC,
}

#[derive(Clone, Copy, Debug, PartialEq, Eq, Structural)]
pub enum Flag {
    Z,
    N,
    H,
    C,
}

/// Interrupt sources, in priority order; each owns one bit of IF and IE.
#[derive(Clone, Copy, Debug, PartialEq, Eq, Structural)]
pub enum Interrupt {
    VBlank,
    LCD,
    Timer,
    Serial,
    Joypad,
}

impl Interrupt {
    pub open spec fn bit_spec(self) -> u8 {
        match self {
            Interrupt::VBlank => 1,
            Interrupt::LCD => 2,
            Interrupt::Timer => 4,
            Interrupt::Serial => 8,
            Interrupt::Joypad => 16,
        }
    }

    /// The interrupt's bit in IF and IE.
    pub fn bit(self) -> (r: u8)
        ensures
            r == self.bit_spec(),
    {
        match self {
            Interrupt::VBlank => 1,
            Interrupt::LCD => 2,
            Interrupt::Timer => 4,
            Interrupt::Serial => 8,
            Interrupt::Joypad => 16,
        }
    }
}

/// A fetched instruction: its opcode and the operand bytes that follow it.
#[derive(Clone, Copy, Debug, PartialEq, Eq, Structural)]
pub struct Inst {
    pub opcode: u8,
    pub operand: u8,
    pub operand_16: u16,
}

pub open spec fn get_flag_mask_spec(flag: Flag) -> u8 {
    match flag {
        Flag::Z => 0x80,
        Flag::N => 0x40,
        Flag::H => 0x20,
        Flag::C => 0x10,
    }
}

pub fn get_flag_mask(flag: Flag) -> (r: u8)
    ensures
        r == get_flag_mask_spec(flag),
{
    match flag {
        Flag::Z => 0x80,
        Flag::N => 0x40,
        Flag::H => 0x20,
        Flag::C => 0x10,
    }
}

pub open spec fn id_to_reg_spec(id: u8) -> Reg {
    match id {
        0 => Reg::B,
        1 => Reg::C,
        2 => Reg::D,
        3 => Reg::E,
        4 => Reg::H,
        5 => Reg::L,
        6 => Reg::AddrHL,
        _ => Reg::A,
    }
}

/// The operand named by a 3-bit field of an opcode.
pub fn id_to_reg(id: u8) -> (r: Reg)
    requires
        id < 8,
    ensures
        r == id_to_reg_spec(id),
{
    match id {
        0 => Reg::B,
        1 => Reg::C,
        2 => Reg::D,
        3 => Reg::E,
        4 => Reg::H,
        5 => Reg::L,
        6 => Reg::AddrHL,
        _ => Reg::A,
    }
}

pub open spec fn id_to_reg_16_spec(id: u8) -> Reg16 {
    match id {
        0 => Reg16::BC,
        1 => Reg16::DE,
        2 => Reg16::HL,
        _ => Reg16::SP,
    }
}

/// The register pair named by a 2-bit field of an opcode.
pub fn id_to_reg_16(id: u8) -> (r: Reg16)
    requires
        id < 4,
    ensures
        r == id_to_reg_16_spec(id),
{
    match id {
        0 => Reg16::BC,
        1 => Reg16::DE,
        2 => Reg16::HL,
        _ => Reg16::SP,
    }
}

/// The 16-bit value of a register pair.
pub open spec fn pair(hi: u8, lo: u8) -> u16 {
    (hi as int * 256 + lo as int) as u16
}

pub open spec fn hi_byte(v: u16) -> u8 {
    (v / 256) as u8
}

pub open spec fn lo_byte(v: u16) -> u8 {
    (v % 256) as u8
}

/// `v` modulo 2^16.
pub open spec fn wrap16(v: int) -> u16 {
    (v % 0x10000) as u16
}

/// Whether an operand lives in memory.
pub open spec fn is_mem(r: Reg) -> bool {
    r == Reg::AddrHL || r == Reg::AddrBC || r == Reg::AddrDE
}

/// The CPU's registers and control state.
pub struct Cpu {
    pub a: u8,
    pub b: u8,
    pub c: u8,
    pub d: u8,
    pub e: u8,
    pub h: u8,
    pub l: u8,
    pub f: u8,
    pub sp: u16,
    pub pc: u16,
    pub ime: bool,
    pub halting: bool,
    pub next_inst_t_state: u64,
    pub inst_log: VecDeque<(u16, Inst)>,
}

impl Cpu {
    /// The low nibble of F is zero and the instruction log is bounded.
    pub open spec fn wf(&self) -> bool {
        &&& self.f % 16 == 0
        &&& self.inst_log@.len() <= INST_LOG_LEN
    }

    pub open spec fn reg16_spec(&self, r: Reg16) -> u16 {
        match r {
            Reg16::BC => pair(self.b, self.c),
            Reg16::DE => pair(self.d, self.e),
            Reg16::HL => pair(self.h, self.l),
            Reg16::AF => pair(self.a, self.f),
            Reg16::SP => self.sp,
            Reg16::PC => self.pc,
        }
    }

    /// The address of a memory operand.
    pub open spec fn addr_of(&self, r: Reg) -> u16 {
        match r {
            Reg::AddrBC => pair(self.b, self.c),
            Reg::AddrDE => pair(self.d, self.e),
            _ => pair(self.h, self.l),
        }
    }

    pub open spec fn reg_spec(&self, bus: &Bus, r: Reg) -> u8 {
        match r {
            Reg::A => self.a,
            Reg::B => self.b,
            Reg::C => self.c,
            Reg::D => self.d,
            Reg::E => self.e,
            Reg::H => self.h,
            Reg::L => self.l,
            Reg::F => self.f,
            Reg::Imm8(v) => v,
            _ => bus.read(self.addr_of(r)),
        }
    }

    /// The registers with `r` set to `v`; F keeps its low nibble zero.
    pub open spec fn with_reg(self, r: Reg, v: u8) -> Cpu {
        match r {
            Reg::A => Cpu { a: v, ..self },
            Reg::B => Cpu { b: v, ..self },
            Reg::C => Cpu { c: v, ..self },
            Reg::D => Cpu { d: v, ..self },
            Reg::E => Cpu { e: v, ..self },
            Reg::H => Cpu { h: v, ..self },
            Reg::L => Cpu { l: v, ..self },
            Reg::F => Cpu { f: (v / 16 * 16) as u8, ..self },
            _ => self,
        }
    }

    /// `(post, bus_post)` is the state after storing `v` into operand `r`.
    pub open spec fn reg_written(&self, bus: &Bus, r: Reg, v: u8, post: &Cpu, bus_post: &Bus) -> bool {
        if is_mem(r) {
            *post == *self && bus.written(bus_post, self.addr_of(r), v)
        } else {
            *post == self.with_reg(r, v) && *bus_post == *bus
        }
    }

    pub open spec fn with_reg16(self, r: Reg16, v: u16) -> Cpu {
        match r {
            Reg16::BC => Cpu { b: hi_byte(v), c: lo_byte(v), ..self },
            Reg16::DE => Cpu { d: hi_byte(v), e: lo_byte(v), ..self },
            Reg16::HL => Cpu { h: hi_byte(v), l: lo_byte(v), ..self },
            Reg16::AF => Cpu { a: hi_byte(v), f: (lo_byte(v) / 16 * 16) as u8, ..self },
            Reg16::SP => Cpu { sp: v, ..self },
            Reg16::PC => Cpu { pc: v, ..self },
        }
    }

    pub open spec fn flag_spec(&self, flag: Flag) -> bool {
        match flag {
            Flag::Z => z_of(self.f),
            Flag::N => n_of(self.f),
            Flag::H => h_of(self.f),
            Flag::C => c_of(self.f),
        }
    }

    /// `post` is `bus` after pushing `value` below `sp`: high byte at sp-1,
    /// low byte at sp-2.
    pub open spec fn pushed(bus: &Bus, sp: u16, value: u16, post: &Bus) -> bool {
        exists|mid: Bus|
            mid.wf() && bus.written(&mid, wrap16(sp + 0xFFFF), hi_byte(value)) && mid.written(
                post,
                wrap16(sp + 0xFFFE),
                lo_byte(value),
            )
    }

    /// The 16-bit value stored at `sp`, low byte first.
    pub open spec fn stack_top(bus: &Bus, sp: u16) -> u16 {
        pair(bus.read(wrap16(sp + 1)), bus.read(sp))
    }

    /// `inst` is the instruction at PC, and `post` the registers after
    /// fetching it: PC past it, the log ending with it.
    pub open spec fn fetched(&self, bus: &Bus, inst: Inst, post: &Cpu) -> bool {
        let len = inst_length_spec(inst.opcode);
        &&& inst.opcode == bus.read(self.pc)
        &&& len == 2 ==> inst.operand == bus.read(wrap16(self.pc + 1))
        &&& len == 3 ==> inst.operand_16 == pair(
            bus.read(wrap16(self.pc + 2)),
            bus.read(wrap16(self.pc + 1)),
        )
        &&& post.pc == wrap16(self.pc + if len == 0 { 1 } else { len as int })
        &&& post.inst_log@.len() > 0
        &&& post.inst_log@.last() == (self.pc, inst)
        &&& *post == (Cpu { pc: post.pc, inst_log: post.inst_log, ..*self })
    }

    /// The effect of requesting interrupt `kind`: its bit is set in IF, and
    /// HALT ends when IF and IE then share one of the five interrupt bits.
    pub open spec fn requested(&self, bus: &Bus, kind: Interrupt, post: &Cpu, bus_post: &Bus) -> bool {
        &&& bus.written(bus_post, IF_ADDR, bus.read(IF_ADDR) | kind.bit_spec())
        &&& *post == (Cpu {
            halting: self.halting && bus_post.read(IE_ADDR) & bus_post.read(IF_ADDR) & 0x1F == 0,
            ..*self
        })
    }

    /// The register values after reset.
    pub open spec fn reset_state(&self) -> bool {
        &&& self.a == 0x01 && self.f == 0x80
        &&& self.b == 0x00 && self.c == 0x13
        &&& self.d == 0x00 && self.e == 0xD8
        &&& self.h == 0x01 && self.l == 0x4D
        &&& self.sp == 0xFFFE && self.pc == 0x0100
        &&& !self.ime && !self.halting
    }

    pub fn new() -> (r: Self)
        ensures
            r.wf(),
            r.reset_state(),
            r.next_inst_t_state == 0,
            r.inst_log@.len() == 0,
    {
        Cpu {
            a: 0x01,
            b: 0x00,
            c: 0x13,
            d: 0x00,
            e: 0xD8,
            h: 0x01,
            l: 0x4D,
            f: 0x80,
            sp: 0xFFFE,
            pc: 0x0100,
            ime: false,
            halting: false,
            next_inst_t_state: 0,
            inst_log: VecDeque::with_capacity(INST_LOG_LEN),
        }
    }

    fn pair_value(hi: u8, lo: u8) -> (r: u16)
        ensures
            r == pair(hi, lo),
    {
        hi as u16 * 256 + lo as u16
    }

    pub fn get_reg(&self, bus: &Bus, reg: Reg) -> (r: u8)
        requires
            bus.wf(),
        ensures
            r == self.reg_spec(bus, reg),
    {
        match reg {
            Reg::A => self.a,
            Reg::B => self.b,
            Reg::C => self.c,
            Reg::D => self.d,
            Reg::E => self.e,
            Reg::H => self.h,
            Reg::L => self.l,
            Reg::F => self.f,
            Reg::AddrBC => bus.get(Self::pair_value(self.b, self.c)),
            Reg::AddrDE => bus.get(Self::pair_value(self.d, self.e)),
            Reg::AddrHL => bus.get(Self::pair_value(self.h, self.l)),
            Reg::Imm8(value) => value,
        }
    }

    /// Stores into an operand; a store into F clears its low nibble.
    pub fn set_reg(&mut self, bus: &mut Bus, reg: Reg, value: u8)
        requires
            old(bus).wf(),
            !(reg is Imm8),
        ensures
            final(bus).wf(),
            old(self).reg_written(old(bus), reg, value, final(self), final(bus)),
    {
        match reg {
            Reg::A => self.a = value,
            Reg::B => self.b = value,
            Reg::C => self.c = value,
            Reg::D => self.d = value,
            Reg::E => self.e = value,
            Reg::H => self.h = value,
            Reg::L => self.l = value,
            Reg::F => self.f = value / 16 * 16,
            Reg::AddrBC => bus.set(Self::pair_value(self.b, self.c), value),
            Reg::AddrDE => bus.set(Self::pair_value(self.d, self.e), value),
            Reg::AddrHL => bus.set(Self::pair_value(self.h, self.l), value),
            Reg::Imm8(_) => {},
        }
    }

    pub fn get_reg_16(&self, reg: Reg16) -> (r: u16)
        ensures
            r == self.reg16_spec(reg),
    {
        match reg {
            Reg16::AF => Self::pair_value(self.a, self.f),
            Reg16::BC => Self::pair_value(self.b, self.c),
            Reg16::DE => Self::pair_value(self.d, self.e),
            Reg16::HL => Self::pair_value(self.h, self.l),
            Reg16::SP => self.sp,
            Reg16::PC => self.pc,
        }
    }

    /// Stores a register pair; a store into AF clears F's low nibble.
    pub fn set_reg_16(&mut self, reg: Reg16, value: u16)
        ensures
            *final(self) == old(self).with_reg16(reg, value),
    {
        let hi = (value / 256) as u8;
        let lo = (value % 256) as u8;
        match reg {
            Reg16::AF => {
                self.a = hi;
                self.f = lo / 16 * 16;
            },
            Reg16::BC => {
                self.b = hi;
                self.c = lo;
            },
            Reg16::DE => {
                self.d = hi;
                self.e = lo;
            },
            Reg16::HL => {
                self.h = hi;
                self.l = lo;
            },
            Reg16::SP => self.sp = value,
            Reg16::PC => self.pc = value,
        }
    }

    pub fn get_flag(&self, flag: Flag) -> (r: bool)
        ensures
            r == self.flag_spec(flag),
    {
        self.f / get_flag_mask(flag) % 2 == 1
    }

    /// Pushes `value` onto the stack; SP drops by two.
    pub fn push(&mut self, bus: &mut Bus, value: u16)
        requires
            old(bus).wf(),
        ensures
            final(bus).wf(),
            *final(self) == (Cpu { sp: wrap16(old(self).sp + 0xFFFE), ..*old(self) }),
            Self::pushed(old(bus), old(self).sp, value, final(bus)),
    {
        let sp = self.sp;
        bus.set(sp.wrapping_sub(1), (value / 256) as u8);
        let ghost mid = *bus;
        bus.set(sp.wrapping_sub(2), (value % 256) as u8);
        self.sp = sp.wrapping_sub(2);
        assert(mid.wf() && old(bus).written(&mid, wrap16(sp + 0xFFFF), hi_byte(value)));
    }

    /// Pops the 16-bit value at SP; SP rises by two.
    pub fn pop(&mut self, bus: &Bus) -> (r: u16)
        requires
            bus.wf(),
        ensures
            r == Self::stack_top(bus, old(self).sp),
            *final(self) == (Cpu { sp: wrap16(old(self).sp + 2), ..*old(self) }),
    {
        let sp = self.sp;
        self.sp = sp.wrapping_add(2);
        let lo = bus.get(sp);
        let hi = bus.get(sp.wrapping_add(1));
        Self::pair_value(hi, lo)
    }

    /// Reads the byte at PC and advances PC.
    pub fn next_byte(&mut self, bus: &Bus) -> (r: u8)
        requires
            bus.wf(),
        ensures
            r == bus.read(old(self).pc),
            *final(self) == (Cpu { pc: wrap16(old(self).pc + 1), ..*old(self) }),
    {
        let pc = self.pc;
        let byte = bus.get(pc);
        self.pc = pc.wrapping_add(1);
        byte
    }

    /// Fetches the instruction at PC with its operands and logs it with its
    /// address. An undefined opcode is fetched as a single byte.
    pub fn next_inst(&mut self, bus: &Bus) -> (r: Inst)
        requires
            bus.wf(),
            old(self).wf(),
        ensures
            final(self).wf(),
            old(self).fetched(bus, r, final(self)),
    {
        let pc = self.pc;
        let opcode = self.next_byte(bus);
        let len = inst_length(opcode);
        let inst = if len == 2 {
            let operand = self.next_byte(bus);
            Inst { opcode, operand, operand_16: 0 }
        } else if len == 3 {
            let lo = self.next_byte(bus);
            let hi = self.next_byte(bus);
            Inst { opcode, operand: 0, operand_16: Self::pair_value(hi, lo) }
        } else {
            Inst { opcode, operand: 0, operand_16: 0 }
        };
        self.inst_log.push_back((pc, inst));
        if self.inst_log.len() > INST_LOG_LEN {
            self.inst_log.pop_front();
        }
        inst
    }

    /// Requests interrupt `kind`: sets its bit in IF, and leaves HALT when an
    /// enabled interrupt is then pending.
    pub fn int_req(&mut self, bus: &mut Bus, kind: Interrupt)
        requires
            old(bus).wf(),
        ensures
            final(bus).wf(),
            old(self).requested(old(bus), kind, final(self), final(bus)),
    {
        let value = bus.get(IF_ADDR) | kind.bit();
        bus.set(IF_ADDR, value);
        if bus.get(IE_ADDR) & bus.get(IF_ADDR) & 0x1F != 0 {
            self.halting = false;
        }
    }

    pub(crate) fn add_cooldown(&mut self, m_cycle: u8)
        requires
            old(self).next_inst_t_state + 4 * m_cycle <= u64::MAX,
        ensures
            *final(self) == (Cpu {
                next_inst_t_state: (old(self).next_inst_t_state + 4 * m_cycle) as u64,
                ..*old(self)
            }),
    {
        self.next_inst_t_state = self.next_inst_t_state + m_cycle as u64 * 4;
    }
}

/// Whether the two bytes below `sp` lie in work RAM (echo included) or high RAM.
pub open spec fn stack_in_ram(sp: u16) -> bool {
    (0xC002 <= sp <= 0xFE00) || (0xFF82 <= sp <= 0xFFFF)
}

/// Pushing a value and popping it back yields the value, and SP returns to
/// where it was, when the stack lies in RAM.
pub proof fn lemma_push_then_pop(bus: Bus, sp: u16, value: u16, post: Bus)
    requires
        bus.wf(),
        post.wf(),
        Cpu::pushed(&bus, sp, value, &post),
        stack_in_ram(sp),
    ensures
        Cpu::stack_top(&post, wrap16(sp + 0xFFFE)) == value,
        wrap16(wrap16(sp + 0xFFFE) + 2) == sp,
{
    let mid = choose|mid: Bus|
        mid.wf() && bus.written(&mid, wrap16(sp + 0xFFFF), hi_byte(value)) && mid.written(
            &post,
            wrap16(sp + 0xFFFE),
            lo_byte(value),
        );
    assert(wrap16(sp + 0xFFFE) == sp - 2);
    assert(wrap16(sp + 0xFFFF) == sp - 1);
    assert(wrap16(wrap16(sp + 0xFFFE) + 1) == sp - 1);
    assert(mid.read((sp - 1) as u16) == hi_byte(value));
    assert(post.read((sp - 1) as u16) == hi_byte(value));
    assert(post.read((sp - 2) as u16) == lo_byte(value));
}

} // verus!
