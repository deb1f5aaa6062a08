use vstd::prelude::*;

use crate::gamepad::{Gamepad, GamepadRegion};
use crate::oam::{Oam, OAM_SIZE};
use crate::timer::Timer;

verus! {

/// Address of the interrupt flag register.
pub const IF_ADDR: u16 = 0xFF0F;

/// Address of the interrupt enable register.
pub const IE_ADDR: u16 = 0xFFFF;

/// Address whose write starts an OAM DMA transfer.
pub const DMA_ADDR: u16 = 0xFF46;

/// Size in bytes of one switchable ROM bank.
pub const ROM_BANK_SIZE: usize = 0x4000;

/// Size in bytes of one switchable SRAM bank.
pub const SRAM_BANK_SIZE: usize = 0x2000;

pub const VRAM_SIZE: usize = 0x2000;

pub const WRAM_SIZE: usize = 0x2000;

pub const IO_SIZE: usize = 0x80;

pub const HRAM_SIZE: usize = 0x7F;

/// The memory bank controller of the cartridge.
#[derive(Clone, Copy, Debug, PartialEq, Eq, Structural)]
pub enum CartType {
    Rom,
    Mbc1,
    Mbc3,
    Mbc5,
}

/// The cartridge type named by header byte 0x147, if it is supported.
pub open spec fn cart_type_spec(code: u8) -> Option<CartType> {
    if code == 0x00 {
        Some(CartType::Rom)
    } else if 0x01 <= code <= 0x03 {
        Some(CartType::Mbc1)
    } else if 0x0F <= code <= 0x13 {
        Some(CartType::Mbc3)
    } else if 0x19 <= code <= 0x1E {
        Some(CartType::Mbc5)
    } else {
        None
    }
}

/// Reads header byte 0x147.
pub fn cart_type_from_code(code: u8) -> (r: Option<CartType>)
    ensures
        r == cart_type_spec(code),
{
    match code {
        0x00 => Some(CartType::Rom),
        0x01..=0x03 => Some(CartType::Mbc1),
        0x0F..=0x13 => Some(CartType::Mbc3),
        0x19..=0x1E => Some(CartType::Mbc5),
        _ => None,
    }
}

/// Size of the cartridge RAM named by header byte 0x149, if the code is known.
pub open spec fn sram_size_spec(code: u8) -> Option<usize> {
    if code <= 1 {
        Some(0)
    } else if code == 2 {
        Some(0x2000)
    } else if code == 3 {
        Some(0x8000)
    } else if code == 4 {
        Some(0x20000)
    } else if code == 5 {
        Some(0x10000)
    } else {
        None
    }
}

pub fn sram_size(code: u8) -> (r: Option<usize>)
    ensures
        r == sram_size_spec(code),
{
    match code {
        0 | 1 => Some(0),
        2 => Some(0x2000),
        3 => Some(0x8000),
        4 => Some(0x20000),
        5 => Some(0x10000),
        _ => None,
    }
}

/// The value stored by a write: IF and IE keep their top three bits set.
pub open spec fn masked(addr: u16, value: u8) -> u8 {
    if addr == IF_ADDR || addr == IE_ADDR {
        value | 0xE0
    } else {
        value
    }
}

pub fn mask(addr: u16, value: u8) -> (r: u8)
    ensures
        r == masked(addr, value),
{
    if addr == IF_ADDR || addr == IE_ADDR {
        value | 0xE0
    } else {
        value
    }
}

/// The ROM bank selected after writing `v` to `addr` below 0x8000.
pub open spec fn rom_bank_after(cart: CartType, bank: u16, addr: u16, v: u8) -> u16 {
    match cart {
        CartType::Rom => bank,
        CartType::Mbc1 => if 0x2000 <= addr < 0x4000 {
            if v % 32 == 0 { 1 } else { (v % 32) as u16 }
        } else {
            bank
        },
        CartType::Mbc3 => if 0x2000 <= addr < 0x4000 {
            if v % 128 == 0 { 1 } else { (v % 128) as u16 }
        } else {
            bank
        },
        CartType::Mbc5 => if 0x2000 <= addr < 0x3000 {
            (bank / 256 * 256 + v) as u16
        } else if 0x3000 <= addr < 0x4000 {
            (bank % 256 + v % 2 * 256) as u16
        } else {
            bank
        },
    }
}

/// The SRAM bank selected after writing `v` to `addr` below 0x8000.
pub open spec fn sram_bank_after(cart: CartType, bank: u8, addr: u16, v: u8) -> u8 {
    if 0x4000 <= addr < 0x6000 {
        match cart {
            CartType::Rom => bank,
            CartType::Mbc1 | CartType::Mbc3 => v % 4,
            CartType::Mbc5 => v % 16,
        }
    } else {
        bank
    }
}

/// The joypad column selected by a write to 0xFF00: bit 5 clear selects the
/// buttons, bit 4 clear the D-pad, and both clear select both.
pub open spec fn region_for(v: u8) -> GamepadRegion {
    let sel = v / 16 % 4;
    if sel == 0 {
        GamepadRegion::Both
    } else if sel == 1 {
        GamepadRegion::Buttons
    } else if sel == 2 {
        GamepadRegion::DPad
    } else {
        GamepadRegion::Unselected
    }
}

/// `s[i]`, or 0xFF where `i` lies past the end.
pub open spec fn byte_or_ff(s: Seq<u8>, i: int) -> u8 {
    if 0 <= i < s.len() {
        s[i]
    } else {
        0xFF
    }
}

fn get_or_ff(v: &Vec<u8>, i: usize) -> (r: u8)
    ensures
        r == byte_or_ff(v@, i as int),
{
    if i < v.len() {
        v[i]
    } else {
        0xFF
    }
}

/// The memory bus: address decoding, cartridge banking and the memory-mapped devices.
pub struct Bus {
    pub rom: Vec<u8>,
    pub vram: Vec<u8>,
    pub sram: Option<Vec<u8>>,
    pub wram: Vec<u8>,
    pub oam: Oam,
    pub io: Vec<u8>,
    pub hram: Vec<u8>,
    pub ie: u8,
    pub rom_bank: u16,
    pub sram_bank: u8,
    pub vram_lock: bool,
    pub oam_lock: bool,
    pub dma_transferring: bool,
    pub gamepad: Gamepad,
    pub timer: Timer,
    pub cart_type: CartType,
}

impl Bus {
    pub open spec fn wf(&self) -> bool {
        &&& self.vram@.len() == VRAM_SIZE
        &&& self.wram@.len() == WRAM_SIZE
        &&& self.io@.len() == IO_SIZE
        &&& self.hram@.len() == HRAM_SIZE
        &&& self.oam.wf()
    }

    /// Index into SRAM of an address in [0xA000, 0xBFFF].
    pub open spec fn sram_index(&self, addr: u16) -> int {
        self.sram_bank as int * SRAM_BANK_SIZE as int + addr as int - 0xA000
    }

    /// Index into WRAM of an address in [0xC000, 0xFDFF], echo range included.
    pub open spec fn wram_index(addr: u16) -> int {
        if addr < 0xE000 {
            addr as int - 0xC000
        } else {
            addr as int - 0xE000
        }
    }

    /// What a read of `addr` returns.
    pub open spec fn read(&self, addr: u16) -> u8 {
        if addr < 0x4000 {
            byte_or_ff(self.rom@, addr as int)
        } else if addr < 0x8000 {
            byte_or_ff(self.rom@, self.rom_bank as int * ROM_BANK_SIZE as int + addr as int - 0x4000)
        } else if addr < 0xA000 {
            self.vram@[addr as int - 0x8000]
        } else if addr < 0xC000 {
            match self.sram {
                Some(s) => byte_or_ff(s@, self.sram_index(addr)),
                None => 0,
            }
        } else if addr < 0xFE00 {
            self.wram@[Self::wram_index(addr)]
        } else if addr < 0xFEA0 {
            self.oam.byte(addr as int - 0xFE00)
        } else if addr < 0xFF00 {
            0xFF
        } else if addr == 0xFF00 {
            self.gamepad.value()
        } else if addr < 0xFF04 {
            0
        } else if addr < 0xFF08 {
            self.timer.reg(addr as int - 0xFF04)
        } else if addr < 0xFF80 {
            self.io@[addr as int - 0xFF00]
        } else if addr < 0xFFFF {
            self.hram@[addr as int - 0xFF80]
        } else {
            self.ie
        }
    }

    /// Byte `i` that an OAM DMA started by writing `v` to 0xFF46 copies.
    pub open spec fn dma_byte(&self, v: u8, i: int) -> u8 {
        let src = v as int * 256 + i;
        if src == DMA_ADDR as int {
            v
        } else {
            self.read(src as u16)
        }
    }

    /// OAM byte `i` after a write of the stored value `v` to `addr`.
    pub open spec fn oam_byte_after(&self, addr: u16, v: u8, i: int) -> u8 {
        if 0xFE00 <= addr < 0xFEA0 && !self.oam_lock && i == addr as int - 0xFE00 {
            v
        } else if addr == DMA_ADDR {
            self.dma_byte(v, i)
        } else {
            self.oam.byte(i)
        }
    }

    /// SRAM contents after a write of the stored value `v` to `addr`.
    pub open spec fn sram_after(&self, addr: u16, v: u8) -> Option<Seq<u8>> {
        match self.sram {
            Some(s) => if 0xA000 <= addr < 0xC000 && 0 <= self.sram_index(addr) < s@.len() {
                Some(s@.update(self.sram_index(addr), v))
            } else {
                Some(s@)
            },
            None => None,
        }
    }

    /// `post` is this bus after a write of `value` to `addr`.
    pub open spec fn written(&self, post: &Bus, addr: u16, value: u8) -> bool {
        let v = masked(addr, value);
        &&& post.rom@ == self.rom@
        &&& post.cart_type == self.cart_type
        &&& post.vram_lock == self.vram_lock
        &&& post.oam_lock == self.oam_lock
        &&& post.dma_transferring == self.dma_transferring
        &&& post.rom_bank == if addr < 0x8000 {
            rom_bank_after(self.cart_type, self.rom_bank, addr, v)
        } else {
            self.rom_bank
        }
        &&& post.sram_bank == if addr < 0x8000 {
            sram_bank_after(self.cart_type, self.sram_bank, addr, v)
        } else {
            self.sram_bank
        }
        &&& post.vram@ == if 0x8000 <= addr < 0xA000 && !self.vram_lock {
            self.vram@.update(addr as int - 0x8000, v)
        } else {
            self.vram@
        }
        &&& match post.sram {
            Some(s) => self.sram_after(addr, v) == Some(s@),
            None => self.sram is None,
        }
        &&& post.wram@ == if 0xC000 <= addr < 0xFE00 {
            self.wram@.update(Self::wram_index(addr), v)
        } else {
            self.wram@
        }
        &&& forall|i: int| 0 <= i < OAM_SIZE ==> #[trigger] post.oam.byte(i) == self.oam_byte_after(addr, v, i)
        &&& post.gamepad == if addr == 0xFF00 {
            Gamepad { region: region_for(v), ..self.gamepad }
        } else {
            self.gamepad
        }
        &&& post.timer == if 0xFF04 <= addr < 0xFF08 {
            self.timer.written(addr as int - 0xFF04, v)
        } else {
            self.timer
        }
        &&& post.io@ == if 0xFF08 <= addr < 0xFF80 {
            self.io@.update(addr as int - 0xFF00, v)
        } else {
            self.io@
        }
        &&& post.hram@ == if 0xFF80 <= addr < 0xFFFF {
            self.hram@.update(addr as int - 0xFF80, v)
        } else {
            self.hram@
        }
        &&& post.ie == if addr == IE_ADDR { v } else { self.ie }
    }

    /// A bus over `rom` and the optional cartridge RAM, with every RAM zeroed,
    /// ROM bank 1 selected and nothing locked.
    pub fn new(rom: Vec<u8>, sram: Option<Vec<u8>>) -> (r: Self)
        requires
            rom@.len() > 0x147,
            cart_type_spec(rom@[0x147]) is Some,
        ensures
            r.wf(),
            r.rom@ == rom@,
            r.sram == sram,
            r.cart_type == cart_type_spec(rom@[0x147])->0,
            r.rom_bank == 1 && r.sram_bank == 0 && r.ie == 0,
            !r.vram_lock && !r.oam_lock && !r.dma_transferring,
            forall|i: int| 0 <= i < VRAM_SIZE ==> r.vram@[i] == 0,
            forall|i: int| 0 <= i < WRAM_SIZE ==> r.wram@[i] == 0,
            forall|i: int| 0 <= i < IO_SIZE ==> r.io@[i] == 0,
            forall|i: int| 0 <= i < HRAM_SIZE ==> r.hram@[i] == 0,
            forall|i: int| 0 <= i < OAM_SIZE ==> r.oam.byte(i) == 0,
            r.gamepad == Gamepad::new_spec(),
            r.timer == Timer::new_spec(),
    {
        let cart_type = match cart_type_from_code(rom[0x147]) {
            Some(c) => c,
            None => CartType::Rom,
        };
        Bus {
            rom,
            vram: vec![0u8; VRAM_SIZE],
            sram,
            wram: vec![0u8; WRAM_SIZE],
            oam: Oam::new(),
            io: vec![0u8; IO_SIZE],
            hram: vec![0u8; HRAM_SIZE],
            ie: 0,
            rom_bank: 1,
            sram_bank: 0,
            vram_lock: false,
            oam_lock: false,
            dma_transferring: false,
            gamepad: Gamepad::new(),
            timer: Timer::new(),
            cart_type,
        }
    }

    pub fn get(&self, addr: u16) -> (r: u8)
        requires
            self.wf(),
        ensures
            r == self.read(addr),
    {
        let idx = addr as usize;
        if addr < 0x4000 {
            get_or_ff(&self.rom, idx)
        } else if addr < 0x8000 {
            get_or_ff(&self.rom, self.rom_bank as usize * ROM_BANK_SIZE + idx - 0x4000)
        } else if addr < 0xA000 {
            self.vram[idx - 0x8000]
        } else if addr < 0xC000 {
            match &self.sram {
                Some(s) => get_or_ff(s, self.sram_bank as usize * SRAM_BANK_SIZE + idx - 0xA000),
                None => 0,
            }
        } else if addr < 0xE000 {
            self.wram[idx - 0xC000]
        } else if addr < 0xFE00 {
            self.wram[idx - 0xE000]
        } else if addr < 0xFEA0 {
            self.oam.get((idx - 0xFE00) as u8)
        } else if addr < 0xFF00 {
            0xFF
        } else if addr == 0xFF00 {
            self.gamepad.get()
        } else if addr < 0xFF04 {
            0
        } else if addr < 0xFF08 {
            self.timer.get((idx - 0xFF04) as u8)
        } else if addr < 0xFF80 {
            self.io[idx - 0xFF00]
        } else if addr < 0xFFFF {
            self.hram[idx - 0xFF80]
        } else {
            self.ie
        }
    }

    pub fn set(&mut self, addr: u16, value: u8)
        requires
            old(self).wf(),
        ensures
            final(self).wf(),
            old(self).written(final(self), addr, value),
    {
        let value = mask(addr, value);
        let idx = addr as usize;
        if addr < 0x8000 {
            self.write_mbc(addr, value);
        } else if addr < 0xA000 {
            if !self.vram_lock {
                self.vram.set(idx - 0x8000, value);
            }
        } else if addr < 0xC000 {
            let i = self.sram_bank as usize * SRAM_BANK_SIZE + idx - 0xA000;
            match &mut self.sram {
                Some(s) => if i < s.len() {
                    s.set(i, value);
                },
                None => {},
            }
        } else if addr < 0xE000 {
            self.wram.set(idx - 0xC000, value);
        } else if addr < 0xFE00 {
            self.wram.set(idx - 0xE000, value);
        } else if addr < 0xFEA0 {
            if !self.oam_lock {
                self.oam.set((idx - 0xFE00) as u8, value);
            }
        } else if addr < 0xFF00 {
        } else if addr == 0xFF00 {
            self.gamepad.region = match value / 16 % 4 {
                0 => GamepadRegion::Both,
                1 => GamepadRegion::Buttons,
                2 => GamepadRegion::DPad,
                _ => GamepadRegion::Unselected,
            };
        } else if addr < 0xFF04 {
        } else if addr < 0xFF08 {
            self.timer.set((idx - 0xFF04) as u8, value);
        } else if addr < 0xFF80 {
            self.io.set(idx - 0xFF00, value);
            if addr == DMA_ADDR {
                self.dma(value);
            }
        } else if addr < 0xFFFF {
            self.hram.set(idx - 0xFF80, value);
        } else {
            self.ie = value;
        }
    }

    /// Bank selection for a write below 0x8000; the ROM itself never changes.
    fn write_mbc(&mut self, addr: u16, value: u8)
        requires
            addr < 0x8000,
        ensures
            *final(self) == (Bus {
                rom_bank: rom_bank_after(old(self).cart_type, old(self).rom_bank, addr, value),
                sram_bank: sram_bank_after(old(self).cart_type, old(self).sram_bank, addr, value),
                ..*old(self)
            }),
    {
        match self.cart_type {
            CartType::Rom => {},
            CartType::Mbc1 => if 0x2000 <= addr && addr < 0x4000 {
                self.rom_bank = if value % 32 == 0 { 1 } else { (value % 32) as u16 };
            } else if 0x4000 <= addr && addr < 0x6000 {
                self.sram_bank = value % 4;
            },
            CartType::Mbc3 => if 0x2000 <= addr && addr < 0x4000 {
                self.rom_bank = if value % 128 == 0 { 1 } else { (value % 128) as u16 };
            } else if 0x4000 <= addr && addr < 0x6000 {
                self.sram_bank = value % 4;
            },
            CartType::Mbc5 => if 0x2000 <= addr && addr < 0x3000 {
                self.rom_bank = self.rom_bank / 256 * 256 + value as u16;
            } else if 0x3000 <= addr && addr < 0x4000 {
                self.rom_bank = self.rom_bank % 256 + (value % 2) as u16 * 256;
            } else if 0x4000 <= addr && addr < 0x6000 {
                self.sram_bank = value % 16;
            },
        }
    }

    pub fn lock_vram(&mut self)
        ensures
            *final(self) == (Bus { vram_lock: true, ..*old(self) }),
    {
        self.vram_lock = true;
    }

    pub fn unlock_vram(&mut self)
        ensures
            *final(self) == (Bus { vram_lock: false, ..*old(self) }),
    {
        self.vram_lock = false;
    }

    pub fn lock_oam(&mut self)
        ensures
            *final(self) == (Bus { oam_lock: true, ..*old(self) }),
    {
        self.oam_lock = true;
    }

    pub fn unlock_oam(&mut self)
        ensures
            *final(self) == (Bus { oam_lock: false, ..*old(self) }),
    {
        self.oam_lock = false;
    }

    /// Copies 160 bytes from `page * 0x100` into OAM, reading through the bus.
    fn dma(&mut self, page: u8)
        requires
            old(self).wf(),
        ensures
            final(self).wf(),
            *final(self) == (Bus { oam: final(self).oam, ..*old(self) }),
            forall|i: int|
                0 <= i < OAM_SIZE ==> #[trigger] final(self).oam.byte(i) == old(self).read(
                    (page as int * 256 + i) as u16,
                ),
    {
        let base = page as u16 * 256;
        let mut i: u8 = 0;
        while i < OAM_SIZE as u8
            invariant
                self.wf(),
                i <= OAM_SIZE,
                base == page as int * 256,
                *self == (Bus { oam: self.oam, ..*old(self) }),
                forall|j: int|
                    0 <= j < i ==> #[trigger] self.oam.byte(j) == old(self).read(
                        (page as int * 256 + j) as u16,
                    ),
                forall|j: int| i <= j < OAM_SIZE ==> #[trigger] self.oam.byte(j) == old(self).oam.byte(j),
            decreases OAM_SIZE - i,
        {
            let b = self.get(base + i as u16);
            proof {
                let a = (page as int * 256 + i) as u16;
                assert(a == base + i);
                if 0xFE00 <= a < 0xFEA0 {
                    assert(a as int - 0xFE00 == i as int);
                }
            }
            self.oam.set(i, b);
            i = i + 1;
        }
    }
}

/// Echo RAM: every address in [0xC000, 0xDDFF] reads the same byte as its
/// mirror 0x2000 above.
pub proof fn lemma_echo_mirrors_wram(b: Bus, addr: u16)
    requires
        b.wf(),
        0xC000 <= addr <= 0xDDFF,
    ensures
        b.read(addr) == b.read((addr + 0x2000) as u16),
{
}

/// A write to work RAM is seen both at its address and at its echo.
pub proof fn lemma_wram_write_seen_in_echo(pre: Bus, post: Bus, addr: u16, value: u8)
    requires
        pre.wf(),
        post.wf(),
        pre.written(&post, addr, value),
        0xC000 <= addr <= 0xDDFF,
    ensures
        post.read(addr) == value,
        post.read((addr + 0x2000) as u16) == value,
{
}

/// After a write to IF or IE, the stored byte has its top three bits set.
pub proof fn lemma_interrupt_registers_top_bits(pre: Bus, post: Bus, addr: u16, value: u8)
    requires
        pre.wf(),
        post.wf(),
        pre.written(&post, addr, value),
        addr == IF_ADDR || addr == IE_ADDR,
    ensures
        post.read(addr) & 0xE0 == 0xE0,
{
    assert((value | 0xE0) & 0xE0 == 0xE0) by (bit_vector);
}

/// On MBC1 and MBC3 no write can select ROM bank 0 in the switchable window.
pub proof fn lemma_rom_bank_never_zero(pre: Bus, post: Bus, addr: u16, value: u8)
    requires
        pre.wf(),
        pre.written(&post, addr, value),
        pre.cart_type == CartType::Mbc1 || pre.cart_type == CartType::Mbc3,
        pre.rom_bank >= 1,
    ensures
        post.rom_bank >= 1,
{
}

/// On MBC5 a write to [0x2000, 0x2FFF] sets the low byte of the bank number to
/// the value written, zero included, and one to [0x3000, 0x3FFF] sets bit 8
/// from the value's bit 0.
pub proof fn lemma_mbc5_bank_is_value_written(pre: Bus, post: Bus, addr: u16, value: u8)
    requires
        pre.wf(),
        pre.written(&post, addr, value),
        pre.cart_type == CartType::Mbc5,
        0x2000 <= addr < 0x4000,
    ensures
        addr < 0x3000 ==> post.rom_bank == pre.rom_bank / 256 * 256 + value,
        addr >= 0x3000 ==> post.rom_bank == pre.rom_bank % 256 + value % 2 * 256,
{
}

/// A byte written to HRAM, WRAM or unlocked VRAM reads back unchanged.
pub proof fn lemma_ram_write_read_back(pre: Bus, post: Bus, addr: u16, value: u8)
    requires
        pre.wf(),
        post.wf(),
        pre.written(&post, addr, value),
        (0x8000 <= addr < 0xA000 && !pre.vram_lock) || (0xC000 <= addr < 0xFE00) || (0xFF80
            <= addr < 0xFFFF),
    ensures
        post.read(addr) == value,
{
}

/// OAM DMA from a work RAM page copies that page's first 160 bytes.
pub proof fn lemma_dma_from_wram(pre: Bus, post: Bus, page: u8)
    requires
        pre.wf(),
        post.wf(),
        pre.written(&post, DMA_ADDR, page),
        0xC0 <= page <= 0xDD,
    ensures
        forall|i: int|
            0 <= i < OAM_SIZE ==> #[trigger] post.oam.byte(i) == pre.wram@[(page - 0xC0) * 256 + i],
{
    assert forall|i: int| 0 <= i < OAM_SIZE implies #[trigger] post.oam.byte(i) == pre.wram@[(page
        - 0xC0) * 256 + i] by {
        assert(post.oam.byte(i) == pre.oam_byte_after(DMA_ADDR, page, i));
    }
}

} // verus!
