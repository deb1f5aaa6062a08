use vstd::prelude::*;

use crate::bus::{cart_type_spec, Bus};
use crate::clock::Clock;
use crate::cpu::{Cpu, Interrupt};
use crate::ppu::Ppu;
use crate::timer::Timer;

verus! {

/// T-states that one call of `Emu::tick` advances.
pub const T_STATES_PER_TICK: u8 = 4;

/// Hardware registers that the core reads or writes by address.
#[derive(Clone, Copy, Debug, PartialEq, Eq, Structural)]
pub enum RegHw {
    IF,
    LCDC,
    STAT,
    SCY,
    SCX,
    LY,
    LYC,
    IE,
}

impl RegHw {
    pub open spec fn addr_spec(self) -> u16 {
        match self {
            RegHw::IF => 0xFF0F,
            RegHw::LCDC => 0xFF40,
            RegHw::STAT => 0xFF41,
            RegHw::SCY => 0xFF42,
            RegHw::SCX => 0xFF43,
            RegHw::LY => 0xFF44,
            RegHw::LYC => 0xFF45,
            RegHw::IE => 0xFFFF,
        }
    }

    /// The register's bus address.
    pub fn addr(self) -> (r: u16)
        ensures
            r == self.addr_spec(),
    {
        match self {
            RegHw::IF => 0xFF0F,
            RegHw::LCDC => 0xFF40,
            RegHw::STAT => 0xFF41,
            RegHw::SCY => 0xFF42,
            RegHw::SCX => 0xFF43,
            RegHw::LY => 0xFF44,
            RegHw::LYC => 0xFF45,
            RegHw::IE => 0xFFFF,
        }
    }
}

/// The timer after `n` T-states, with each overflow taken out of it, and
/// whether any overflow happened.
pub open spec fn timer_steps(t: Timer, n: nat) -> (Timer, bool)
    decreases n,
{
    if n == 0 {
        (t, false)
    } else {
        let (t1, o1) = timer_steps(t, (n - 1) as nat);
        let t2 = t1.stepped();
        (Timer { overflow: false, ..t2 }, o1 || t2.overflow)
    }
}

/// The whole machine: bus, clock, CPU and PPU.
pub struct Emu {
    pub bus: Bus,
    pub clock: Clock,
    pub cpu: Cpu,
    pub ppu: Ppu,
}

impl Emu {
    pub open spec fn wf(&self) -> bool {
        &&& self.bus.wf()
        &&& self.cpu.wf()
        &&& self.ppu.wf()
        &&& self.cpu.next_inst_t_state <= self.clock.t_state + 64
        &&& self.ppu.next_line_t_state <= self.clock.t_state + 456
        &&& !self.bus.timer.overflow
    }

    /// `(post_cpu, post_bus)` is the CPU and bus after requesting `kind` when
    /// `raise` holds, and unchanged otherwise.
    pub open spec fn maybe_requested(
        cpu: &Cpu,
        bus: &Bus,
        raise: bool,
        kind: Interrupt,
        post_cpu: &Cpu,
        post_bus: &Bus,
    ) -> bool {
        if raise {
            cpu.requested(bus, kind, post_cpu, post_bus)
        } else {
            *post_cpu == *cpu && *post_bus == *bus
        }
    }

    /// One call of `tick`: the CPU steps, then the PPU; each PPU request is
    /// handed to the CPU and cleared; the timer runs four T-states and one
    /// Timer interrupt is requested if it overflowed; the clock advances.
    pub open spec fn stepped(&self, post: &Emu) -> bool {
        let t = self.clock.t_state;
        exists|c1: Cpu, b1: Bus, p2: Ppu, b2: Bus, c3: Cpu, b3: Bus, c4: Cpu, b4: Bus, c5: Cpu|
            #![trigger self.cpu.ticked(&self.bus, t, &c1, &b1), self.ppu.ticked(&b1, t, &p2, &b2), Emu::maybe_requested(&c1, &b2, p2.irq_vblank, Interrupt::VBlank, &c3, &b3), Emu::maybe_requested(&c3, &b3, p2.irq_lcd, Interrupt::LCD, &c4, &b4), Emu::maybe_requested(&c4, &Bus { timer: timer_steps(b4.timer, 4).0, ..b4 }, timer_steps(b4.timer, 4).1, Interrupt::Timer, &c5, &post.bus)]
            {
                &&& self.cpu.ticked(&self.bus, t, &c1, &b1)
                &&& self.ppu.ticked(&b1, t, &p2, &b2)
                &&& Emu::maybe_requested(&c1, &b2, p2.irq_vblank, Interrupt::VBlank, &c3, &b3)
                &&& Emu::maybe_requested(&c3, &b3, p2.irq_lcd, Interrupt::LCD, &c4, &b4)
                &&& Emu::maybe_requested(
                    &c4,
                    &Bus { timer: timer_steps(b4.timer, 4).0, ..b4 },
                    timer_steps(b4.timer, 4).1,
                    Interrupt::Timer,
                    &c5,
                    &post.bus,
                )
                &&& post.cpu == c5
                &&& post.ppu == (Ppu { irq_vblank: false, irq_lcd: false, ..p2 })
                &&& post.clock.t_state == t + T_STATES_PER_TICK
            }
    }

    /// A machine at reset over `rom` and the optional cartridge RAM.
    pub fn new(rom: Vec<u8>, sram: Option<Vec<u8>>) -> (r: Self)
        requires
            rom@.len() > 0x147,
            cart_type_spec(rom@[0x147]) is Some,
        ensures
            r.wf(),
            r.bus.rom@ == rom@,
            r.bus.sram == sram,
            r.clock.t_state == 0,
            r.cpu.reset_state(),
    {
        Emu { bus: Bus::new(rom, sram), clock: Clock::new(), cpu: Cpu::new(), ppu: Ppu::new() }
    }

    /// Runs the timer for four T-states, taking each overflow out of it;
    /// returns whether there was one.
    fn tick_timer(bus: &mut Bus) -> (irq: bool)
        requires
            old(bus).wf(),
        ensures
            final(bus).wf(),
            *final(bus) == (Bus { timer: final(bus).timer, ..*old(bus) }),
            (final(bus).timer, irq) == timer_steps(old(bus).timer, T_STATES_PER_TICK as nat),
    {
        let mut timer_irq = false;
        let mut k: u8 = 0;
        while k < T_STATES_PER_TICK
            invariant
                k <= T_STATES_PER_TICK,
                bus.wf(),
                *bus == (Bus { timer: bus.timer, ..*old(bus) }),
                (bus.timer, timer_irq) == timer_steps(old(bus).timer, k as nat),
            decreases T_STATES_PER_TICK - k,
        {
            bus.timer.tick();
            if bus.timer.overflow {
                bus.timer.overflow = false;
                timer_irq = true;
            }
            k = k + 1;
        }
        timer_irq
    }

    /// Advances the whole machine by four T-states.
    pub fn tick(&mut self)
        requires
            old(self).wf(),
            old(self).clock.t_state <= u64::MAX - 2048,
        ensures
            final(self).wf(),
            old(self).stepped(final(self)),
    {
        let ghost e0 = *self;
        self.cpu.tick(&mut self.bus, &self.clock);
        assert(self.cpu.next_inst_t_state <= self.clock.t_state + 64);
        let ghost c1 = self.cpu;
        let ghost b1 = self.bus;
        self.ppu.tick(&mut self.bus, &self.clock);
        assert(self.ppu.next_line_t_state <= self.clock.t_state + 456);
        let ghost p2 = self.ppu;
        let ghost b2 = self.bus;
        if self.ppu.irq_vblank {
            self.ppu.irq_vblank = false;
            self.cpu.int_req(&mut self.bus, Interrupt::VBlank);
        }
        let ghost c3 = self.cpu;
        let ghost b3 = self.bus;
        if self.ppu.irq_lcd {
            self.ppu.irq_lcd = false;
            self.cpu.int_req(&mut self.bus, Interrupt::LCD);
        }
        let ghost c4 = self.cpu;
        let ghost b4 = self.bus;
        let timer_irq = Self::tick_timer(&mut self.bus);
        let ghost b4t = self.bus;
        if timer_irq {
            self.cpu.int_req(&mut self.bus, Interrupt::Timer);
        }
        self.clock.add_t_state(T_STATES_PER_TICK);
        proof {
            let t = e0.clock.t_state;
            let c5 = self.cpu;
            assert(b4t == (Bus { timer: timer_steps(b4.timer, 4).0, ..b4 }));
            assert(e0.cpu.ticked(&e0.bus, t, &c1, &b1));
            assert(e0.ppu.ticked(&b1, t, &p2, &b2));
            assert(Emu::maybe_requested(&c1, &b2, p2.irq_vblank, Interrupt::VBlank, &c3, &b3));
            assert(Emu::maybe_requested(&c3, &b3, p2.irq_lcd, Interrupt::LCD, &c4, &b4));
            assert(Emu::maybe_requested(
                &c4,
                &Bus { timer: timer_steps(b4.timer, 4).0, ..b4 },
                timer_steps(b4.timer, 4).1,
                Interrupt::Timer,
                &c5,
                &self.bus,
            ));
        }
    }
}

} // verus!
