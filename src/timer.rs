use vstd::prelude::*;

verus! {

/// The DIV/TIMA/TMA/TAC hardware timer.
#[derive(Clone, Copy, Debug)]
pub struct Timer {
    pub div: u8,
    pub tima: u8,
    pub tma: u8,
    pub tac: u8,
    pub overflow: bool,
    pub subdiv: u8,
}

impl Timer {
    /// The register at offset `k` (DIV, TIMA, TMA, TAC).
    pub open spec fn reg(&self, k: int) -> u8 {
        if k == 0 {
            self.div
        } else if k == 1 {
            self.tima
        } else if k == 2 {
            self.tma
        } else {
            self.tac
        }
    }

    /// The timer after a write of `value` to the register at offset `k`.
    pub open spec fn written(self, k: int, value: u8) -> Timer {
        if k == 0 {
            Timer { div: 0, subdiv: 0, ..self }
        } else if k == 1 {
            Timer { tima: value, ..self }
        } else if k == 2 {
            Timer { tma: value, ..self }
        } else {
            Timer { tac: value, ..self }
        }
    }

    /// The 16-bit internal counter.
    pub open spec fn counter(&self) -> int {
        self.div as int * 256 + self.subdiv as int
    }

    /// Whether TIMA counts on this T-state, judged on the already advanced divider.
    pub open spec fn fires(&self) -> bool {
        &&& self.tac % 8 >= 4
        &&& match self.tac % 4 {
            0 => self.counter() % 1024 == 0,
            1 => self.subdiv % 16 == 0,
            2 => self.subdiv % 64 == 0,
            _ => self.subdiv == 0,
        }
    }

    /// The divider advanced by one T-state.
    pub open spec fn advanced(self) -> Timer {
        let subdiv = ((self.subdiv + 1) % 256) as u8;
        let div = if subdiv == 0 { ((self.div + 1) % 256) as u8 } else { self.div };
        Timer { div, subdiv, ..self }
    }

    /// The timer after one T-state.
    pub open spec fn stepped(self) -> Timer {
        let t = self.advanced();
        if !t.fires() {
            t
        } else if t.tima == 255 {
            Timer { tima: t.tma, overflow: true, ..t }
        } else {
            Timer { tima: (t.tima + 1) as u8, ..t }
        }
    }

    pub open spec fn new_spec() -> Timer {
        Timer { div: 0, tima: 0, tma: 0, tac: 0, overflow: false, subdiv: 0 }
    }

    pub fn new() -> (r: Self)
        ensures
            r == Self::new_spec(),
    {
        Timer { div: 0, tima: 0, tma: 0, tac: 0, overflow: false, subdiv: 0 }
    }

    pub fn get(&self, addr_offset: u8) -> (r: u8)
        requires
            addr_offset < 4,
        ensures
            r == self.reg(addr_offset as int),
    {
        match addr_offset {
            0 => self.div,
            1 => self.tima,
            2 => self.tma,
            _ => self.tac,
        }
    }

    /// Writing DIV clears the whole divider whatever the value; the others store it.
    pub fn set(&mut self, addr_offset: u8, value: u8)
        requires
            addr_offset < 4,
        ensures
            *final(self) == old(self).written(addr_offset as int, value),
    {
        match addr_offset {
            0 => {
                self.div = 0;
                self.subdiv = 0;
            },
            1 => self.tima = value,
            2 => self.tma = value,
            _ => self.tac = value,
        }
    }

    /// Advances the timer by one T-state.
    pub fn tick(&mut self)
        ensures
            *final(self) == old(self).stepped(),
    {
        self.subdiv = self.subdiv.wrapping_add(1);
        if self.subdiv == 0 {
            self.div = self.div.wrapping_add(1);
        }
        if self.tac % 8 >= 4 {
            let increased = match self.tac % 4 {
                0 => (self.div as u16 * 256 + self.subdiv as u16) % 1024 == 0,
                1 => self.subdiv % 16 == 0,
                2 => self.subdiv % 64 == 0,
                _ => self.subdiv == 0,
            };
            if increased {
                self.tima = self.tima.wrapping_add(1);
                if self.tima == 0 {
                    self.tima = self.tma;
                    self.overflow = true;
                }
            }
        }
    }
}

/// A tick on which TIMA overflows leaves TIMA equal to TMA and raises the overflow flag.
pub proof fn lemma_overflow_reloads(t: Timer)
    requires
        t.advanced().fires(),
        t.tima == 255,
    ensures
        t.stepped().tima == t.tma,
        t.stepped().overflow,
{
}

} // verus!
