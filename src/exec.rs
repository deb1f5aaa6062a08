use vstd::prelude::*;

use crate::alu::{
    add16, add16_spec, add_signed_spec, add_u16_i8, alu, alu_spec, c_of, daa, daa_spec, dec8,
    dec_spec, flags, id_to_alu_op, id_to_alu_op_spec, id_to_shift_op, id_to_shift_op_spec, inc8,
    inc_spec, make_flags, shift, shift_spec, sp_offset, sp_offset_flags, z_of,
};
use crate::bus::{Bus, IE_ADDR, IF_ADDR};
use crate::clock::Clock;
use crate::tables::{inst_base_cycles, inst_base_cycles_spec};
use crate::cpu::{
    Flag, hi_byte, id_to_reg, id_to_reg_16, id_to_reg_16_spec, id_to_reg_spec, lo_byte, pair, wrap16,
    Cpu, Inst, Reg, Reg16,
};

verus! {

/// Condition `k` of a conditional jump, call or return: NZ, Z, NC, C.
pub open spec fn cond_spec(k: int, f: u8) -> bool {
    if k == 0 {
        !z_of(f)
    } else if k == 1 {
        z_of(f)
    } else if k == 2 {
        !c_of(f)
    } else {
        c_of(f)
    }
}

/// The pointer operand of the loads 0x02 to 0x3A: (BC), (DE), (HL+), (HL-).
pub open spec fn indirect_reg(op: u8) -> Reg {
    if op / 16 == 0 {
        Reg::AddrBC
    } else if op / 16 == 1 {
        Reg::AddrDE
    } else {
        Reg::AddrHL
    }
}

/// The register pair of PUSH and POP: BC, DE, HL, AF.
pub open spec fn stack_reg(op: u8) -> Reg16 {
    if op / 16 == 0xC {
        Reg16::BC
    } else if op / 16 == 0xD {
        Reg16::DE
    } else if op / 16 == 0xE {
        Reg16::HL
    } else {
        Reg16::AF
    }
}

/// The address of the high-page and absolute loads 0xE0 to 0xFA.
pub open spec fn high_addr(c: Cpu, inst: Inst) -> u16 {
    if inst.opcode % 16 == 0 {
        (0xFF00 + inst.operand) as u16
    } else if inst.opcode % 16 == 2 {
        (0xFF00 + c.c) as u16
    } else {
        inst.operand_16
    }
}

/// Extra m-cycles of a CB-prefixed instruction on (HL).
pub open spec fn cb_extra_cycles(n: u8) -> int {
    if n % 8 != 6 {
        0
    } else if 0x40 <= n < 0x80 {
        1
    } else {
        2
    }
}

impl Cpu {
    pub open spec fn with_next(self, extra_cycles: int) -> Cpu {
        Cpu { next_inst_t_state: (self.next_inst_t_state + 4 * extra_cycles) as u64, ..self }
    }

    /// The state after storing `v` into operand `r` and then setting F to `f`.
    pub open spec fn reg_and_flags_written(
        &self,
        bus: &Bus,
        r: Reg,
        v: u8,
        f: u8,
        post: &Cpu,
        bus_post: &Bus,
    ) -> bool {
        &&& post.f == f
        &&& self.reg_written(bus, r, v, &Cpu { f: self.f, ..*post }, bus_post)
    }

    /// LD rr, nn.
    pub open spec fn ld_rr_nn_post(&self, bus: &Bus, inst: Inst, post: &Cpu, bus_post: &Bus) -> bool {
        *bus_post == *bus && *post == self.with_reg16(id_to_reg_16_spec(inst.opcode / 16), inst.operand_16)
    }

    /// LD (BC)/(DE)/(HL+)/(HL-) with A, in either direction.
    pub open spec fn ld_indirect_post(&self, bus: &Bus, inst: Inst, post: &Cpu, bus_post: &Bus) -> bool {
        let op = inst.opcode;
        let r = indirect_reg(op);
        let hl = pair(self.h, self.l);
        let hl2 = if op / 16 == 2 {
            wrap16(hl + 1)
        } else {
            wrap16(hl + 0xFFFF)
        };
        let fix = |c: Cpu|
            if op / 16 >= 2 {
                Cpu { h: hi_byte(hl2), l: lo_byte(hl2), ..c }
            } else {
                c
            };
        if op % 16 >= 8 {
            *post == fix(Cpu { a: bus.read(self.addr_of(r)), ..*self }) && *bus_post == *bus
        } else {
            *post == fix(*self) && bus.written(bus_post, self.addr_of(r), self.a)
        }
    }

    /// INC rr (bit 3 of the opcode clear) and DEC rr (set).
    pub open spec fn inc_dec16_post(&self, bus: &Bus, inst: Inst, post: &Cpu, bus_post: &Bus) -> bool {
        let r = id_to_reg_16_spec(inst.opcode / 16);
        let delta = if inst.opcode % 16 >= 8 { 0xFFFFint } else { 1 };
        *bus_post == *bus && *post == self.with_reg16(r, wrap16(self.reg16_spec(r) + delta))
    }

    /// INC r (low bit of the opcode clear) and DEC r (set).
    pub open spec fn inc_dec8_post(&self, bus: &Bus, inst: Inst, post: &Cpu, bus_post: &Bus) -> bool {
        let r = id_to_reg_spec(inst.opcode / 8);
        let (v, f) = if inst.opcode % 2 == 0 {
            inc_spec(self.reg_spec(bus, r), self.f)
        } else {
            dec_spec(self.reg_spec(bus, r), self.f)
        };
        self.reg_and_flags_written(bus, r, v, f, post, bus_post)
    }

    /// LD r, n.
    pub open spec fn ld_r_n_post(&self, bus: &Bus, inst: Inst, post: &Cpu, bus_post: &Bus) -> bool {
        self.reg_written(bus, id_to_reg_spec(inst.opcode / 8), inst.operand, post, bus_post)
    }

    /// LD r, r'.
    pub open spec fn ld_r_r_post(&self, bus: &Bus, inst: Inst, post: &Cpu, bus_post: &Bus) -> bool {
        let op = inst.opcode;
        self.reg_written(
            bus,
            id_to_reg_spec(((op - 0x40) / 8) as u8),
            self.reg_spec(bus, id_to_reg_spec(op % 8)),
            post,
            bus_post,
        )
    }

    /// RLCA, RRCA, RLA, RRA: Z is always cleared.
    pub open spec fn rot_a_post(&self, bus: &Bus, inst: Inst, post: &Cpu, bus_post: &Bus) -> bool {
        let (v, cy) = shift_spec(id_to_shift_op_spec(inst.opcode / 8), self.a, c_of(self.f));
        *bus_post == *bus && *post == (Cpu { a: v, f: flags(false, false, false, cy), ..*self })
    }

    /// LD (nn), SP: low byte at nn, high byte at nn+1.
    pub open spec fn ld_nn_sp_post(&self, bus: &Bus, inst: Inst, post: &Cpu, bus_post: &Bus) -> bool {
        let nn = inst.operand_16;
        *post == *self && exists|mid: Bus|
            mid.wf() && bus.written(&mid, nn, lo_byte(self.sp)) && mid.written(
                bus_post,
                wrap16(nn + 1),
                hi_byte(self.sp),
            )
    }

    /// ADD HL, rr.
    pub open spec fn add16_post(&self, bus: &Bus, inst: Inst, post: &Cpu, bus_post: &Bus) -> bool {
        let (hl, f) = add16_spec(
            pair(self.h, self.l),
            self.reg16_spec(id_to_reg_16_spec(inst.opcode / 16)),
            self.f,
        );
        *bus_post == *bus && *post == (Cpu { h: hi_byte(hl), l: lo_byte(hl), f, ..*self })
    }

    /// DAA, CPL, SCF, CCF.
    pub open spec fn misc_a_post(&self, bus: &Bus, inst: Inst, post: &Cpu, bus_post: &Bus) -> bool {
        let z = z_of(self.f);
        let c = c_of(self.f);
        &&& *bus_post == *bus
        &&& *post == if inst.opcode == 0x27 {
            let (a, f) = daa_spec(self.a, self.f);
            Cpu { a, f, ..*self }
        } else if inst.opcode == 0x2F {
            Cpu { a: !self.a, f: flags(z, true, true, c), ..*self }
        } else if inst.opcode == 0x37 {
            Cpu { f: flags(z, false, false, true), ..*self }
        } else {
            Cpu { f: flags(z, false, false, !c), ..*self }
        }
    }

    /// The ALU operations on A, with a register, (HL) or an immediate operand.
    pub open spec fn alu_post(&self, bus: &Bus, inst: Inst, post: &Cpu, bus_post: &Bus) -> bool {
        let op = inst.opcode;
        let v = if op < 0xC0 {
            self.reg_spec(bus, id_to_reg_spec(op % 8))
        } else {
            inst.operand
        };
        let (a, f) = alu_spec(id_to_alu_op_spec(op / 8 % 8), self.a, v, c_of(self.f));
        *bus_post == *bus && *post == (Cpu { a, f, ..*self })
    }

    /// JR, JP and their conditional forms; a taken jump other than JP HL costs one more m-cycle.
    pub open spec fn jump_post(&self, bus: &Bus, inst: Inst, post: &Cpu, bus_post: &Bus) -> bool {
        let op = inst.opcode;
        let taken = op == 0x18 || op == 0xC3 || op == 0xE9 || cond_spec((op / 8 % 4) as int, self.f);
        let target = if op < 0x40 {
            add_signed_spec(self.pc, inst.operand)
        } else if op == 0xE9 {
            pair(self.h, self.l)
        } else {
            inst.operand_16
        };
        &&& *bus_post == *bus
        &&& *post == if !taken {
            *self
        } else if op == 0xE9 {
            Cpu { pc: target, ..*self }
        } else {
            Cpu { pc: target, ..*self }.with_next(1)
        }
    }

    /// RET, RETI and the conditional returns; a taken conditional return costs three more m-cycles.
    pub open spec fn ret_post(&self, bus: &Bus, inst: Inst, post: &Cpu, bus_post: &Bus) -> bool {
        let op = inst.opcode;
        let conditional = op != 0xC9 && op != 0xD9;
        let popped = Cpu {
            pc: Cpu::stack_top(bus, self.sp),
            sp: wrap16(self.sp + 2),
            ime: if op == 0xD9 { true } else { self.ime },
            ..*self
        };
        &&& *bus_post == *bus
        &&& *post == if !conditional {
            popped
        } else if cond_spec((op / 8 % 4) as int, self.f) {
            popped.with_next(3)
        } else {
            *self
        }
    }

    /// CALL and the conditional calls; a taken call costs three more m-cycles.
    pub open spec fn call_post(&self, bus: &Bus, inst: Inst, post: &Cpu, bus_post: &Bus) -> bool {
        let op = inst.opcode;
        if op == 0xCD || cond_spec((op / 8 % 4) as int, self.f) {
            &&& *post == (Cpu { sp: wrap16(self.sp + 0xFFFE), pc: inst.operand_16, ..*self }).with_next(3)
            &&& Cpu::pushed(bus, self.sp, self.pc, bus_post)
        } else {
            *bus_post == *bus && *post == *self
        }
    }

    /// RST: pushes PC and jumps to the opcode's vector.
    pub open spec fn rst_post(&self, bus: &Bus, inst: Inst, post: &Cpu, bus_post: &Bus) -> bool {
        &&& *post == (Cpu {
            sp: wrap16(self.sp + 0xFFFE),
            pc: (inst.opcode - 0xC7) as u16,
            ..*self
        })
        &&& Cpu::pushed(bus, self.sp, self.pc, bus_post)
    }

    /// PUSH rr (bit 2 of the opcode set) and POP rr (clear).
    pub open spec fn push_pop_post(&self, bus: &Bus, inst: Inst, post: &Cpu, bus_post: &Bus) -> bool {
        let r = stack_reg(inst.opcode);
        if inst.opcode % 8 == 5 {
            &&& *post == (Cpu { sp: wrap16(self.sp + 0xFFFE), ..*self })
            &&& Cpu::pushed(bus, self.sp, self.reg16_spec(r), bus_post)
        } else {
            &&& *bus_post == *bus
            &&& *post == (Cpu { sp: wrap16(self.sp + 2), ..*self }).with_reg16(r, Cpu::stack_top(bus, self.sp))
        }
    }

    /// LDH (n)/(C)/(nn) with A, in either direction.
    pub open spec fn ld_high_post(&self, bus: &Bus, inst: Inst, post: &Cpu, bus_post: &Bus) -> bool {
        let addr = high_addr(*self, inst);
        if inst.opcode >= 0xF0 {
            *bus_post == *bus && *post == (Cpu { a: bus.read(addr), ..*self })
        } else {
            *post == *self && bus.written(bus_post, addr, self.a)
        }
    }

    /// ADD SP, e8; LD HL, SP+e8; LD SP, HL.
    pub open spec fn sp_post(&self, bus: &Bus, inst: Inst, post: &Cpu, bus_post: &Bus) -> bool {
        let n = inst.operand;
        let r = add_signed_spec(self.sp, n);
        &&& *bus_post == *bus
        &&& *post == if inst.opcode == 0xE8 {
            Cpu { sp: r, f: sp_offset_flags(self.sp, n), ..*self }
        } else if inst.opcode == 0xF8 {
            Cpu { h: hi_byte(r), l: lo_byte(r), f: sp_offset_flags(self.sp, n), ..*self }
        } else {
            Cpu { sp: pair(self.h, self.l), ..*self }
        }
    }

    /// The CB-prefixed instruction with second byte `n`.
    pub open spec fn cb_post(&self, bus: &Bus, inst: Inst, post: &Cpu, bus_post: &Bus) -> bool {
        let n = inst.operand;
        let r = id_to_reg_spec(n % 8);
        let v = self.reg_spec(bus, r);
        let bit = n / 8 % 8;
        let base = Cpu { next_inst_t_state: self.next_inst_t_state, ..*post };
        &&& post.next_inst_t_state == self.next_inst_t_state + 4 * cb_extra_cycles(n)
        &&& if n < 0x40 {
            let (res, cy) = shift_spec(id_to_shift_op_spec(n / 8), v, c_of(self.f));
            self.reg_and_flags_written(bus, r, res, flags(res == 0, false, false, cy), &base, bus_post)
        } else if n < 0x80 {
            *bus_post == *bus && base == (Cpu {
                f: flags(v >> bit & 1 == 0, false, true, c_of(self.f)),
                ..*self
            })
        } else if n < 0xC0 {
            self.reg_written(bus, r, v & !(1u8 << bit), &base, bus_post)
        } else {
            self.reg_written(bus, r, v | (1u8 << bit), &base, bus_post)
        }
    }

    /// HALT, DI, EI, and the opcodes that do nothing here: NOP, STOP and the undefined ones.
    pub open spec fn control_post(&self, bus: &Bus, inst: Inst, post: &Cpu, bus_post: &Bus) -> bool {
        &&& *bus_post == *bus
        &&& *post == if inst.opcode == 0x76 {
            Cpu { halting: true, ..*self }
        } else if inst.opcode == 0xF3 {
            Cpu { ime: false, ..*self }
        } else if inst.opcode == 0xFB {
            Cpu { ime: true, ..*self }
        } else {
            *self
        }
    }

    /// The effect of executing `inst`, fetched already, on the registers and the bus.
    pub open spec fn executed(&self, bus: &Bus, inst: Inst, post: &Cpu, bus_post: &Bus) -> bool {
        let op = inst.opcode;
        if 0x40 <= op < 0x80 && op != 0x76 {
            self.ld_r_r_post(bus, inst, post, bus_post)
        } else if 0x80 <= op < 0xC0 {
            self.alu_post(bus, inst, post, bus_post)
        } else {
            match op {
                0x01 | 0x11 | 0x21 | 0x31 => self.ld_rr_nn_post(bus, inst, post, bus_post),
                0x02 | 0x0A | 0x12 | 0x1A | 0x22 | 0x2A | 0x32 | 0x3A => self.ld_indirect_post(
                    bus,
                    inst,
                    post,
                    bus_post,
                ),
                0x03 | 0x13 | 0x23 | 0x33 | 0x0B | 0x1B | 0x2B | 0x3B => self.inc_dec16_post(
                    bus,
                    inst,
                    post,
                    bus_post,
                ),
                0x04 | 0x0C | 0x14 | 0x1C | 0x24 | 0x2C | 0x34 | 0x3C | 0x05 | 0x0D | 0x15 | 0x1D
                | 0x25 | 0x2D | 0x35 | 0x3D => self.inc_dec8_post(bus, inst, post, bus_post),
                0x06 | 0x0E | 0x16 | 0x1E | 0x26 | 0x2E | 0x36 | 0x3E => self.ld_r_n_post(
                    bus,
                    inst,
                    post,
                    bus_post,
                ),
                0x07 | 0x0F | 0x17 | 0x1F => self.rot_a_post(bus, inst, post, bus_post),
                0x08 => self.ld_nn_sp_post(bus, inst, post, bus_post),
                0x09 | 0x19 | 0x29 | 0x39 => self.add16_post(bus, inst, post, bus_post),
                0x18 | 0x20 | 0x28 | 0x30 | 0x38 | 0xC3 | 0xE9 | 0xC2 | 0xCA | 0xD2 | 0xDA => self.jump_post(
                    bus,
                    inst,
                    post,
                    bus_post,
                ),
                0x27 | 0x2F | 0x37 | 0x3F => self.misc_a_post(bus, inst, post, bus_post),
                0xC6 | 0xCE | 0xD6 | 0xDE | 0xE6 | 0xEE | 0xF6 | 0xFE => self.alu_post(
                    bus,
                    inst,
                    post,
                    bus_post,
                ),
                0xC9 | 0xD9 | 0xC0 | 0xC8 | 0xD0 | 0xD8 => self.ret_post(bus, inst, post, bus_post),
                0xC5 | 0xD5 | 0xE5 | 0xF5 | 0xC1 | 0xD1 | 0xE1 | 0xF1 => self.push_pop_post(
                    bus,
                    inst,
                    post,
                    bus_post,
                ),
                0xCD | 0xC4 | 0xCC | 0xD4 | 0xDC => self.call_post(bus, inst, post, bus_post),
                0xC7 | 0xCF | 0xD7 | 0xDF | 0xE7 | 0xEF | 0xF7 | 0xFF => self.rst_post(
                    bus,
                    inst,
                    post,
                    bus_post,
                ),
                0xCB => self.cb_post(bus, inst, post, bus_post),
                0xE0 | 0xE2 | 0xEA | 0xF0 | 0xF2 | 0xFA => self.ld_high_post(bus, inst, post, bus_post),
                0xE8 | 0xF8 | 0xF9 => self.sp_post(bus, inst, post, bus_post),
                _ => self.control_post(bus, inst, post, bus_post),
            }
        }
    }
}

impl Cpu {
    /// Whether condition NZ, Z, NC or C, named by bits 3 and 4 of `op`, holds.
    fn condition(&self, op: u8) -> (r: bool)
        ensures
            r == cond_spec((op / 8 % 4) as int, self.f),
    {
        let z = self.get_flag(Flag::Z);
        let c = self.get_flag(Flag::C);
        match op / 8 % 4 {
            0 => !z,
            1 => z,
            2 => !c,
            _ => c,
        }
    }

    /// LD r, r'.
    fn ld_r_r(&mut self, bus: &mut Bus, inst: Inst)
        requires
            old(bus).wf(),
            old(self).wf(),
            old(self).next_inst_t_state + 16 <= u64::MAX,
            0x40 <= inst.opcode < 0x80,
        ensures
            final(bus).wf(),
            final(self).wf(),
            old(self).ld_r_r_post(old(bus), inst, final(self), final(bus)),
    {
        let op = inst.opcode;
        let v = self.get_reg(bus, id_to_reg(op % 8));
        self.set_reg(bus, id_to_reg((op - 0x40) / 8), v);
    }

    /// LD rr, nn.
    fn ld_rr_nn(&mut self, bus: &mut Bus, inst: Inst)
        requires
            old(bus).wf(),
            old(self).wf(),
            old(self).next_inst_t_state + 16 <= u64::MAX,
            inst.opcode < 0x40 && inst.opcode % 16 == 1,
        ensures
            final(bus).wf(),
            final(self).wf(),
            old(self).ld_rr_nn_post(old(bus), inst, final(self), final(bus)),
    {
        self.set_reg_16(id_to_reg_16(inst.opcode / 16), inst.operand_16);
    }

    /// LD r, n.
    fn ld_r_n(&mut self, bus: &mut Bus, inst: Inst)
        requires
            old(bus).wf(),
            old(self).wf(),
            old(self).next_inst_t_state + 16 <= u64::MAX,
            inst.opcode < 0x40 && inst.opcode % 8 == 6,
        ensures
            final(bus).wf(),
            final(self).wf(),
            old(self).ld_r_n_post(old(bus), inst, final(self), final(bus)),
    {
        self.set_reg(bus, id_to_reg(inst.opcode / 8), inst.operand);
    }

    /// LD between A and (BC), (DE), (HL+), (HL-).
    fn ld_indirect(&mut self, bus: &mut Bus, inst: Inst)
        requires
            old(bus).wf(),
            old(self).wf(),
            old(self).next_inst_t_state + 16 <= u64::MAX,
            inst.opcode < 0x40 && (inst.opcode % 16 == 2 || inst.opcode % 16 == 0xA),
        ensures
            final(bus).wf(),
            final(self).wf(),
            old(self).ld_indirect_post(old(bus), inst, final(self), final(bus)),
    {
        let op = inst.opcode;
        let r = if op / 16 == 0 {
            Reg::AddrBC
        } else if op / 16 == 1 {
            Reg::AddrDE
        } else {
            Reg::AddrHL
        };
        if op % 16 >= 8 {
            let v = self.get_reg(bus, r);
            self.a = v;
        } else {
            let a = self.a;
            self.set_reg(bus, r, a);
        }
        if op / 16 == 2 {
            let hl = self.get_reg_16(Reg16::HL);
            self.set_reg_16(Reg16::HL, hl.wrapping_add(1));
        } else if op / 16 == 3 {
            let hl = self.get_reg_16(Reg16::HL);
            self.set_reg_16(Reg16::HL, hl.wrapping_sub(1));
        }
    }

    /// LD (nn), SP.
    fn ld_nn_sp(&mut self, bus: &mut Bus, inst: Inst)
        requires
            old(bus).wf(),
            old(self).wf(),
            old(self).next_inst_t_state + 16 <= u64::MAX,
            inst.opcode == 0x08,
        ensures
            final(bus).wf(),
            final(self).wf(),
            old(self).ld_nn_sp_post(old(bus), inst, final(self), final(bus)),
    {
        let sp = self.sp;
        bus.set(inst.operand_16, (sp % 256) as u8);
        let ghost mid = *bus;
        bus.set(inst.operand_16.wrapping_add(1), (sp / 256) as u8);
        assert(mid.wf() && old(bus).written(&mid, inst.operand_16, lo_byte(sp)));
    }

    /// LDH and LD with an absolute address, between A and memory.
    fn ld_high(&mut self, bus: &mut Bus, inst: Inst)
        requires
            old(bus).wf(),
            old(self).wf(),
            old(self).next_inst_t_state + 16 <= u64::MAX,
            inst.opcode == 0xE0 || inst.opcode == 0xE2 || inst.opcode == 0xEA || inst.opcode == 0xF0 || inst.opcode == 0xF2 || inst.opcode == 0xFA,
        ensures
            final(bus).wf(),
            final(self).wf(),
            old(self).ld_high_post(old(bus), inst, final(self), final(bus)),
    {
        let op = inst.opcode;
        let addr = if op % 16 == 0 {
            0xFF00 + inst.operand as u16
        } else if op % 16 == 2 {
            0xFF00 + self.c as u16
        } else {
            inst.operand_16
        };
        if op >= 0xF0 {
            self.a = bus.get(addr);
        } else {
            bus.set(addr, self.a);
        }
    }

    /// INC rr and DEC rr.
    fn inc_dec16(&mut self, bus: &mut Bus, inst: Inst)
        requires
            old(bus).wf(),
            old(self).wf(),
            old(self).next_inst_t_state + 16 <= u64::MAX,
            inst.opcode < 0x40 && (inst.opcode % 16 == 3 || inst.opcode % 16 == 0xB),
        ensures
            final(bus).wf(),
            final(self).wf(),
            old(self).inc_dec16_post(old(bus), inst, final(self), final(bus)),
    {
        let r = id_to_reg_16(inst.opcode / 16);
        let v = self.get_reg_16(r);
        if inst.opcode % 16 >= 8 {
            self.set_reg_16(r, v.wrapping_sub(1));
        } else {
            self.set_reg_16(r, v.wrapping_add(1));
        }
    }

    /// INC r and DEC r.
    fn inc_dec8(&mut self, bus: &mut Bus, inst: Inst)
        requires
            old(bus).wf(),
            old(self).wf(),
            old(self).next_inst_t_state + 16 <= u64::MAX,
            inst.opcode < 0x40 && (inst.opcode % 8 == 4 || inst.opcode % 8 == 5),
        ensures
            final(bus).wf(),
            final(self).wf(),
            old(self).inc_dec8_post(old(bus), inst, final(self), final(bus)),
    {
        let r = id_to_reg(inst.opcode / 8);
        let v = self.get_reg(bus, r);
        let (res, f) = if inst.opcode % 2 == 0 {
            inc8(v, self.f)
        } else {
            dec8(v, self.f)
        };
        self.set_reg(bus, r, res);
        proof {
            crate::alu::lemma_flags_low_nibble_zero(
                res == 0,
                inst.opcode % 2 == 1,
                if inst.opcode % 2 == 0 { res % 16 == 0 } else { res % 16 == 15 },
                c_of(old(self).f),
            );
        }
        self.f = f;
    }

    /// RLCA, RRCA, RLA, RRA.
    fn rot_a(&mut self, bus: &mut Bus, inst: Inst)
        requires
            old(bus).wf(),
            old(self).wf(),
            old(self).next_inst_t_state + 16 <= u64::MAX,
            inst.opcode == 0x07 || inst.opcode == 0x0F || inst.opcode == 0x17 || inst.opcode == 0x1F,
        ensures
            final(bus).wf(),
            final(self).wf(),
            old(self).rot_a_post(old(bus), inst, final(self), final(bus)),
    {
        let (v, cy) = shift(id_to_shift_op(inst.opcode / 8), self.a, self.get_flag(Flag::C));
        self.a = v;
        self.f = make_flags(false, false, false, cy);
    }

    /// ADD HL, rr.
    fn add_hl(&mut self, bus: &mut Bus, inst: Inst)
        requires
            old(bus).wf(),
            old(self).wf(),
            old(self).next_inst_t_state + 16 <= u64::MAX,
            inst.opcode < 0x40 && inst.opcode % 16 == 9,
        ensures
            final(bus).wf(),
            final(self).wf(),
            old(self).add16_post(old(bus), inst, final(self), final(bus)),
    {
        let v = self.get_reg_16(id_to_reg_16(inst.opcode / 16));
        let (hl, f) = add16(self.get_reg_16(Reg16::HL), v, self.f);
        self.set_reg_16(Reg16::HL, hl);
        proof {
            crate::alu::lemma_flags_low_nibble_zero(
                z_of(old(self).f),
                false,
                pair(old(self).h, old(self).l) % 0x1000 + v % 0x1000 > 0xFFF,
                pair(old(self).h, old(self).l) + v > 0xFFFF,
            );
        }
        self.f = f;
    }

    /// DAA, CPL, SCF, CCF.
    fn misc_a(&mut self, bus: &mut Bus, inst: Inst)
        requires
            old(bus).wf(),
            old(self).wf(),
            old(self).next_inst_t_state + 16 <= u64::MAX,
            inst.opcode == 0x27 || inst.opcode == 0x2F || inst.opcode == 0x37 || inst.opcode == 0x3F,
        ensures
            final(bus).wf(),
            final(self).wf(),
            old(self).misc_a_post(old(bus), inst, final(self), final(bus)),
    {
        let z = self.get_flag(Flag::Z);
        let c = self.get_flag(Flag::C);
        if inst.opcode == 0x27 {
            let (a, f) = daa(self.a, self.f);
            self.a = a;
            self.f = f;
        } else if inst.opcode == 0x2F {
            self.a = !self.a;
            self.f = make_flags(z, true, true, c);
        } else if inst.opcode == 0x37 {
            self.f = make_flags(z, false, false, true);
        } else {
            self.f = make_flags(z, false, false, !c);
        }
    }

    /// The ALU operations on A.
    fn alu_a(&mut self, bus: &mut Bus, inst: Inst)
        requires
            old(bus).wf(),
            old(self).wf(),
            old(self).next_inst_t_state + 16 <= u64::MAX,
            (0x80 <= inst.opcode < 0xC0) || (inst.opcode >= 0xC0 && inst.opcode % 8 == 6),
        ensures
            final(bus).wf(),
            final(self).wf(),
            old(self).alu_post(old(bus), inst, final(self), final(bus)),
    {
        let op = inst.opcode;
        let v = if op < 0xC0 {
            self.get_reg(bus, id_to_reg(op % 8))
        } else {
            inst.operand
        };
        let (a, f) = alu(id_to_alu_op(op / 8 % 8), self.a, v, self.get_flag(Flag::C));
        self.a = a;
        self.f = f;
    }

    /// JR, JP and their conditional forms.
    fn jump(&mut self, bus: &mut Bus, inst: Inst)
        requires
            old(bus).wf(),
            old(self).wf(),
            old(self).next_inst_t_state + 16 <= u64::MAX,
            inst.opcode == 0x18 || inst.opcode == 0x20 || inst.opcode == 0x28 || inst.opcode == 0x30 || inst.opcode == 0x38 || inst.opcode == 0xC3 || inst.opcode == 0xE9 || inst.opcode == 0xC2 || inst.opcode == 0xCA || inst.opcode == 0xD2 || inst.opcode == 0xDA,
        ensures
            final(bus).wf(),
            final(self).wf(),
            old(self).jump_post(old(bus), inst, final(self), final(bus)),
    {
        let op = inst.opcode;
        let taken = op == 0x18 || op == 0xC3 || op == 0xE9 || self.condition(op);
        if taken {
            if op < 0x40 {
                self.pc = add_u16_i8(self.pc, inst.operand);
            } else if op == 0xE9 {
                self.pc = self.get_reg_16(Reg16::HL);
            } else {
                self.pc = inst.operand_16;
            }
            if op != 0xE9 {
                self.add_cooldown(1);
            }
        }
    }

    /// RET, RETI and the conditional returns.
    fn ret(&mut self, bus: &mut Bus, inst: Inst)
        requires
            old(bus).wf(),
            old(self).wf(),
            old(self).next_inst_t_state + 16 <= u64::MAX,
            inst.opcode == 0xC9 || inst.opcode == 0xD9 || inst.opcode == 0xC0 || inst.opcode == 0xC8 || inst.opcode == 0xD0 || inst.opcode == 0xD8,
        ensures
            final(bus).wf(),
            final(self).wf(),
            old(self).ret_post(old(bus), inst, final(self), final(bus)),
    {
        let op = inst.opcode;
        let conditional = op != 0xC9 && op != 0xD9;
        if !conditional || self.condition(op) {
            if op == 0xD9 {
                self.ime = true;
            }
            let top = self.pop(bus);
            self.pc = top;
            if conditional {
                self.add_cooldown(3);
            }
        }
    }

    /// CALL and the conditional calls.
    fn call(&mut self, bus: &mut Bus, inst: Inst)
        requires
            old(bus).wf(),
            old(self).wf(),
            old(self).next_inst_t_state + 16 <= u64::MAX,
            inst.opcode == 0xCD || inst.opcode == 0xC4 || inst.opcode == 0xCC || inst.opcode == 0xD4 || inst.opcode == 0xDC,
        ensures
            final(bus).wf(),
            final(self).wf(),
            old(self).call_post(old(bus), inst, final(self), final(bus)),
    {
        if inst.opcode == 0xCD || self.condition(inst.opcode) {
            let pc = self.pc;
            self.push(bus, pc);
            self.pc = inst.operand_16;
            self.add_cooldown(3);
        }
    }

    /// RST: a call to a fixed vector.
    fn rst(&mut self, bus: &mut Bus, inst: Inst)
        requires
            old(bus).wf(),
            old(self).wf(),
            old(self).next_inst_t_state + 16 <= u64::MAX,
            inst.opcode >= 0xC0 && inst.opcode % 8 == 7,
        ensures
            final(bus).wf(),
            final(self).wf(),
            old(self).rst_post(old(bus), inst, final(self), final(bus)),
    {
        let pc = self.pc;
        self.push(bus, pc);
        self.pc = (inst.opcode - 0xC7) as u16;
    }

    /// PUSH rr and POP rr.
    fn push_pop(&mut self, bus: &mut Bus, inst: Inst)
        requires
            old(bus).wf(),
            old(self).wf(),
            old(self).next_inst_t_state + 16 <= u64::MAX,
            inst.opcode >= 0xC0 && (inst.opcode % 16 == 1 || inst.opcode % 16 == 5),
        ensures
            final(bus).wf(),
            final(self).wf(),
            old(self).push_pop_post(old(bus), inst, final(self), final(bus)),
    {
        let op = inst.opcode;
        let r = if op / 16 == 0xC {
            Reg16::BC
        } else if op / 16 == 0xD {
            Reg16::DE
        } else if op / 16 == 0xE {
            Reg16::HL
        } else {
            Reg16::AF
        };
        if op % 8 == 5 {
            let v = self.get_reg_16(r);
            self.push(bus, v);
        } else {
            let v = self.pop(bus);
            self.set_reg_16(r, v);
        }
    }

    /// ADD SP, e8; LD HL, SP+e8; LD SP, HL.
    fn sp_arith(&mut self, bus: &mut Bus, inst: Inst)
        requires
            old(bus).wf(),
            old(self).wf(),
            old(self).next_inst_t_state + 16 <= u64::MAX,
            inst.opcode == 0xE8 || inst.opcode == 0xF8 || inst.opcode == 0xF9,
        ensures
            final(bus).wf(),
            final(self).wf(),
            old(self).sp_post(old(bus), inst, final(self), final(bus)),
    {
        let op = inst.opcode;
        if op == 0xF9 {
            self.sp = self.get_reg_16(Reg16::HL);
        } else {
            let (r, f) = sp_offset(self.sp, inst.operand);
            if op == 0xE8 {
                self.sp = r;
            } else {
                self.set_reg_16(Reg16::HL, r);
            }
            self.f = f;
        }
    }

    /// HALT, DI, EI, and the opcodes that do nothing here.
    fn control(&mut self, bus: &mut Bus, inst: Inst)
        requires
            old(bus).wf(),
            old(self).wf(),
            old(self).next_inst_t_state + 16 <= u64::MAX,
            !(0x40 <= inst.opcode < 0x80 && inst.opcode != 0x76),
        ensures
            final(bus).wf(),
            final(self).wf(),
            old(self).control_post(old(bus), inst, final(self), final(bus)),
    {
        if inst.opcode == 0x76 {
            self.halting = true;
        } else if inst.opcode == 0xF3 {
            self.ime = false;
        } else if inst.opcode == 0xFB {
            self.ime = true;
        }
    }

    /// The CB-prefixed rotates, shifts, bit tests, resets and sets.
    fn cb(&mut self, bus: &mut Bus, inst: Inst)
        requires
            old(bus).wf(),
            old(self).wf(),
            old(self).next_inst_t_state + 16 <= u64::MAX,
            inst.opcode == 0xCB,
        ensures
            final(bus).wf(),
            final(self).wf(),
            old(self).cb_post(old(bus), inst, final(self), final(bus)),
    {
        let n = inst.operand;
        let r = id_to_reg(n % 8);
        let v = self.get_reg(bus, r);
        let bit = n / 8 % 8;
        if n < 0x40 {
            let (res, cy) = shift(id_to_shift_op(n / 8), v, self.get_flag(Flag::C));
            self.set_reg(bus, r, res);
            self.f = make_flags(res == 0, false, false, cy);
        } else if n < 0x80 {
            self.f = make_flags(v >> bit & 1 == 0, false, true, self.get_flag(Flag::C));
        } else if n < 0xC0 {
            self.set_reg(bus, r, v & !(1u8 << bit));
        } else {
            self.set_reg(bus, r, v | (1u8 << bit));
        }
        if n % 8 == 6 {
            if 0x40 <= n && n < 0x80 {
                self.add_cooldown(1);
            } else {
                self.add_cooldown(2);
            }
        }
    }

}

/// The index of the lowest of the five interrupt bits set in `p`.
pub open spec fn lowest_pending(p: u8) -> u8 {
    if p % 2 == 1 {
        0
    } else if p / 2 % 2 == 1 {
        1
    } else if p / 4 % 2 == 1 {
        2
    } else if p / 8 % 2 == 1 {
        3
    } else {
        4
    }
}

/// The IF and IE bit of the interrupt with index `id`.
pub open spec fn interrupt_bit(id: u8) -> u8 {
    if id == 0 {
        1
    } else if id == 1 {
        2
    } else if id == 2 {
        4
    } else if id == 3 {
        8
    } else {
        16
    }
}

/// The interrupts that are both requested and enabled.
pub open spec fn pending(bus: &Bus) -> u8 {
    bus.read(IF_ADDR) & bus.read(IE_ADDR) & 0x1F
}

impl Cpu {
    /// The interrupt dispatch step: with IME set and an enabled interrupt
    /// requested, the lowest such one is acknowledged in IF, IME is cleared,
    /// PC is pushed and execution moves to its vector, for five m-cycles.
    pub open spec fn serviced(&self, bus: &Bus, post: &Cpu, bus_post: &Bus) -> bool {
        let p = pending(bus);
        let id = lowest_pending(p);
        if self.ime && p != 0 {
            &&& *post == (Cpu {
                ime: false,
                sp: wrap16(self.sp + 0xFFFE),
                pc: (0x40 + 8 * id) as u16,
                ..*self
            }).with_next(5)
            &&& exists|mid: Bus|
                mid.wf() && bus.written(&mid, IF_ADDR, bus.read(IF_ADDR) & !interrupt_bit(id))
                    && Cpu::pushed(&mid, self.sp, self.pc, bus_post)
        } else {
            *post == *self && *bus_post == *bus
        }
    }

    /// What one call of `tick` at T-state `t` does.
    pub open spec fn ticked(&self, bus: &Bus, t: u64, post: &Cpu, bus_post: &Bus) -> bool {
        if t < self.next_inst_t_state {
            *post == *self && *bus_post == *bus
        } else if self.halting {
            *post == self.with_next(1) && *bus_post == *bus
        } else {
            exists|c1: Cpu, b1: Bus, inst: Inst, c2: Cpu, c3: Cpu|
                #![trigger c1.fetched(&b1, inst, &c2), c2.executed(&b1, inst, &c3, bus_post)]
                self.serviced(bus, &c1, &b1) && c1.fetched(&b1, inst, &c2) && c2.executed(
                    &b1,
                    inst,
                    &c3,
                    bus_post,
                ) && *post == c3.with_next(inst_base_cycles_spec(inst.opcode) as int)
        }
    }

    fn lowest_pending_bit(p: u8) -> (r: u8)
        ensures
            r == lowest_pending(p),
            r < 5,
    {
        if p % 2 == 1 {
            0
        } else if p / 2 % 2 == 1 {
            1
        } else if p / 4 % 2 == 1 {
            2
        } else if p / 8 % 2 == 1 {
            3
        } else {
            4
        }
    }

    fn service_interrupt(&mut self, bus: &mut Bus)
        requires
            old(bus).wf(),
            old(self).wf(),
            old(self).next_inst_t_state + 20 <= u64::MAX,
        ensures
            final(bus).wf(),
            final(self).wf(),
            old(self).serviced(old(bus), final(self), final(bus)),
    {
        let requested = bus.get(IF_ADDR);
        let p = requested & bus.get(IE_ADDR) & 0x1F;
        if self.ime && p != 0 {
            let id = Self::lowest_pending_bit(p);
            let bit: u8 = if id == 0 {
                1
            } else if id == 1 {
                2
            } else if id == 2 {
                4
            } else if id == 3 {
                8
            } else {
                16
            };
            bus.set(IF_ADDR, requested & !bit);
            let ghost mid = *bus;
            self.ime = false;
            let pc = self.pc;
            self.push(bus, pc);
            self.pc = 0x40 + id as u16 * 8;
            self.add_cooldown(5);
            assert(mid.wf() && old(bus).written(&mid, IF_ADDR, requested & !interrupt_bit(id)));
        }
    }

    /// Executes an instruction that has been fetched.
    pub fn execute(&mut self, bus: &mut Bus, inst: Inst)
        requires
            old(bus).wf(),
            old(self).wf(),
            old(self).next_inst_t_state + 16 <= u64::MAX,
        ensures
            final(bus).wf(),
            final(self).wf(),
            final(self).next_inst_t_state <= old(self).next_inst_t_state + 12,
            old(self).executed(old(bus), inst, final(self), final(bus)),
    {
        let op = inst.opcode;
        if 0x40 <= op && op < 0x80 && op != 0x76 {
            self.ld_r_r(bus, inst);
        } else if 0x80 <= op && op < 0xC0 {
            self.alu_a(bus, inst);
        } else {
            match op {
                0x01 | 0x11 | 0x21 | 0x31 => self.ld_rr_nn(bus, inst),
                0x02 | 0x0A | 0x12 | 0x1A | 0x22 | 0x2A | 0x32 | 0x3A => self.ld_indirect(bus, inst),
                0x03 | 0x13 | 0x23 | 0x33 | 0x0B | 0x1B | 0x2B | 0x3B => self.inc_dec16(bus, inst),
                0x04 | 0x0C | 0x14 | 0x1C | 0x24 | 0x2C | 0x34 | 0x3C | 0x05 | 0x0D | 0x15 | 0x1D
                | 0x25 | 0x2D | 0x35 | 0x3D => self.inc_dec8(bus, inst),
                0x06 | 0x0E | 0x16 | 0x1E | 0x26 | 0x2E | 0x36 | 0x3E => self.ld_r_n(bus, inst),
                0x07 | 0x0F | 0x17 | 0x1F => self.rot_a(bus, inst),
                0x08 => self.ld_nn_sp(bus, inst),
                0x09 | 0x19 | 0x29 | 0x39 => self.add_hl(bus, inst),
                0x18 | 0x20 | 0x28 | 0x30 | 0x38 | 0xC3 | 0xE9 | 0xC2 | 0xCA | 0xD2 | 0xDA => self.jump(
                    bus,
                    inst,
                ),
                0x27 | 0x2F | 0x37 | 0x3F => self.misc_a(bus, inst),
                0xC6 | 0xCE | 0xD6 | 0xDE | 0xE6 | 0xEE | 0xF6 | 0xFE => self.alu_a(bus, inst),
                0xC9 | 0xD9 | 0xC0 | 0xC8 | 0xD0 | 0xD8 => self.ret(bus, inst),
                0xC5 | 0xD5 | 0xE5 | 0xF5 | 0xC1 | 0xD1 | 0xE1 | 0xF1 => self.push_pop(bus, inst),
                0xCD | 0xC4 | 0xCC | 0xD4 | 0xDC => self.call(bus, inst),
                0xC7 | 0xCF | 0xD7 | 0xDF | 0xE7 | 0xEF | 0xF7 | 0xFF => self.rst(bus, inst),
                0xCB => self.cb(bus, inst),
                0xE0 | 0xE2 | 0xEA | 0xF0 | 0xF2 | 0xFA => self.ld_high(bus, inst),
                0xE8 | 0xF8 | 0xF9 => self.sp_arith(bus, inst),
                _ => self.control(bus, inst),
            }
        }
    }

    /// Advances the CPU to T-state `clock`: nothing while the cooldown of the
    /// last instruction runs; one m-cycle of waiting while halted; otherwise
    /// an interrupt dispatch if one is due, then one instruction.
    pub fn tick(&mut self, bus: &mut Bus, clock: &Clock)
        requires
            old(bus).wf(),
            old(self).wf(),
            clock.t_state <= u64::MAX - 256,
        ensures
            final(bus).wf(),
            final(self).wf(),
            final(self).next_inst_t_state <= if old(self).next_inst_t_state > clock.t_state {
                old(self).next_inst_t_state as int
            } else {
                clock.t_state + 64
            },
            old(self).ticked(old(bus), clock.t_state, final(self), final(bus)),
    {
        if clock.get_t_state() < self.next_inst_t_state {
            return;
        }
        if self.halting {
            self.add_cooldown(1);
            return;
        }
        let ghost c0 = *self;
        let ghost b0 = *bus;
        self.service_interrupt(bus);
        let ghost c1 = *self;
        let ghost b1 = *bus;
        let inst = self.next_inst(bus);
        let ghost c2 = *self;
        self.execute(bus, inst);
        let ghost c3 = *self;
        self.add_cooldown(inst_base_cycles(inst.opcode));
        assert(c0.serviced(&b0, &c1, &b1) && c1.fetched(&b1, inst, &c2) && c2.executed(&b1, inst, &c3, bus));
    }
}

} // verus!
