use vstd::prelude::*;

use crate::bus::Bus;
use crate::clock::Clock;
use crate::oam::{Obj, OBJ_COUNT};

verus! {

pub const T_STATES_PER_LINE: u64 = 456;

pub const LINES_PER_FRAME: u8 = 154;

pub const SCRN_X: usize = 160;

pub const SCRN_Y: usize = 144;

/// Number of framebuffer entries.
pub const SCRN_SIZE: usize = 23040;

/// Most sprites drawn on one scanline.
pub const OBJS_PER_LINE: usize = 10;

pub const LCDC_ADDR: u16 = 0xFF40;

pub const SCY_ADDR: u16 = 0xFF42;

pub const SCX_ADDR: u16 = 0xFF43;

pub const LY_ADDR: u16 = 0xFF44;

pub const BGP_ADDR: u16 = 0xFF47;

pub const OBP0_ADDR: u16 = 0xFF48;

pub const OBP1_ADDR: u16 = 0xFF49;

/// Entry `id` (0 to 3) of a palette register: bits 2*id and 2*id+1.
pub open spec fn palette_spec(data: u8, id: int) -> u8 {
    if id == 0 {
        data % 4
    } else if id == 1 {
        data / 4 % 4
    } else if id == 2 {
        data / 16 % 4
    } else {
        data / 64
    }
}

pub fn palette_color(data: u8, id: u8) -> (r: u8)
    requires
        id < 4,
    ensures
        r == palette_spec(data, id as int),
        r <= 3,
{
    if id == 0 {
        data % 4
    } else if id == 1 {
        data / 4 % 4
    } else if id == 2 {
        data / 16 % 4
    } else {
        data / 64
    }
}

/// Color id 0 to 3 of column `tx` (0 is leftmost) of a tile row given by its two bytes.
pub open spec fn tile_color_id(lo: u8, hi: u8, tx: int) -> int {
    (lo >> (7 - tx) as u8 & 1) as int + 2 * (hi >> (7 - tx) as u8 & 1) as int
}

fn color_id(lo: u8, hi: u8, tx: u8) -> (r: u8)
    requires
        tx < 8,
    ensures
        r == tile_color_id(lo, hi, tx as int),
        r < 4,
{
    let sh: u8 = 7 - tx;
    let l = lo >> sh & 1;
    let h = hi >> sh & 1;
    assert(lo >> sh & 1 <= 1) by (bit_vector);
    assert(hi >> sh & 1 <= 1) by (bit_vector);
    l + 2 * h
}

/// Address of row `ty` of tile `tile` in the 0x8000 tile data.
pub open spec fn tile_row_addr(tile: int, ty: int) -> u16 {
    (0x8000 + tile * 16 + ty * 2) as u16
}

/// The background color of pixel (`x`, `y`).
pub open spec fn bg_pixel(bus: &Bus, y: int, x: int) -> u8 {
    let lcdc = bus.read(LCDC_ADDR);
    let alt_tiles = lcdc / 16 % 2 == 0;
    let map: int = if lcdc / 8 % 2 == 1 { 0x9C00 } else { 0x9800 };
    let px = (bus.read(SCX_ADDR) + x) % 256;
    let py = (bus.read(SCY_ADDR) + y) % 256;
    let id = bus.read((map + py / 8 * 32 + px / 8) as u16) as int;
    let tile = if alt_tiles && id < 128 { id + 256 } else { id };
    let addr = tile_row_addr(tile, py % 8);
    let cid = tile_color_id(bus.read(addr), bus.read((addr + 1) as u16), px % 8);
    palette_spec(bus.read(BGP_ADDR), cid)
}

/// Sprite height from LCDC: 8, or 16 with bit 2 set.
pub open spec fn obj_height(bus: &Bus) -> int {
    if bus.read(LCDC_ADDR) / 4 % 2 == 0 { 8 } else { 16 }
}

/// Whether sprite `o` covers scanline `y`.
pub open spec fn obj_on_line(o: Obj, y: int, h: int) -> bool {
    o.y <= y + 16 && o.y > y + 16 - h
}

/// The color sprite `o` gives to column `x` of scanline `y`, if any: none
/// outside the sprite or where its color id is 0.
pub open spec fn obj_pixel(bus: &Bus, y: int, h: int, o: Obj, x: int) -> Option<u8> {
    let i = x - (o.x - 8);
    let ty0 = y + 16 - o.y;
    let ty = if o.attr / 64 % 2 == 1 { h - 1 - ty0 } else { ty0 };
    let tx = if o.attr / 32 % 2 == 1 { 7 - i } else { i };
    let addr = tile_row_addr(o.tile_id as int, ty);
    let cid = tile_color_id(bus.read(addr), bus.read((addr + 1) as u16), tx);
    let pal = if o.attr / 16 % 2 == 0 { bus.read(OBP0_ADDR) } else { bus.read(OBP1_ADDR) };
    if 0 <= i < 8 && cid != 0 {
        Some(palette_spec(pal, cid))
    } else {
        None
    }
}

/// Scanline `row` with sprite `o` drawn over it.
pub open spec fn paint_obj(bus: &Bus, y: int, h: int, o: Obj, row: Seq<u8>) -> Seq<u8> {
    Seq::new(
        row.len(),
        |x: int|
            match obj_pixel(bus, y, h, o, x) {
                Some(c) => c,
                None => row[x],
            },
    )
}

/// Scanline `row` with the sprites of `objs` from index `i` on drawn over it
/// in storage order, while fewer than ten have been drawn (`taken` so far).
pub open spec fn paint_objs(bus: &Bus, y: int, h: int, objs: Seq<Obj>, i: int, taken: int, row: Seq<u8>) -> Seq<u8>
    decreases objs.len() - i,
{
    if i >= objs.len() || i < 0 || taken >= OBJS_PER_LINE {
        row
    } else if obj_on_line(objs[i], y, h) {
        paint_objs(bus, y, h, objs, i + 1, taken + 1, paint_obj(bus, y, h, objs[i], row))
    } else {
        paint_objs(bus, y, h, objs, i + 1, taken, row)
    }
}

/// `post` is the framebuffer `fb` with scanline `y` replaced by `row`.
pub open spec fn row_replaced(fb: Seq<u8>, post: Seq<u8>, y: int, row: Seq<u8>) -> bool {
    &&& post.len() == fb.len()
    &&& forall|i: int|
        0 <= i < fb.len() ==> #[trigger] post[i] == if y * SCRN_X as int <= i < y * SCRN_X as int
            + SCRN_X as int {
            row[i - y * SCRN_X as int]
        } else {
            fb[i]
        }
}

/// Scanline `y` of the background.
pub open spec fn bg_row(bus: &Bus, y: int) -> Seq<u8> {
    Seq::new(SCRN_X as nat, |x: int| bg_pixel(bus, y, x))
}

/// The scanline renderer.
pub struct Ppu {
    pub framebuffer: Vec<u8>,
    pub current_line: u8,
    pub next_line_t_state: u64,
    pub irq_vblank: bool,
    pub irq_lcd: bool,
}

impl Ppu {
    /// The framebuffer after scanline `self.current_line` is drawn from `bus`.
    pub open spec fn line_drawn(&self, bus: &Bus, fb: Seq<u8>) -> bool {
        let y = self.current_line as int;
        let lcdc = bus.read(LCDC_ADDR);
        if y < SCRN_Y && lcdc >= 128 {
            let row1 = if lcdc % 2 == 1 { bg_row(bus, y) } else { self.row(y) };
            let row2 = if lcdc / 2 % 2 == 1 {
                paint_objs(bus, y, obj_height(bus), bus.oam.objects@, 0, 0, row1)
            } else {
                row1
            };
            row_replaced(self.framebuffer@, fb, y, row2)
        } else {
            fb == self.framebuffer@
        }
    }

    /// What one call of `tick` at T-state `t` does.
    pub open spec fn ticked(&self, bus: &Bus, t: u64, post: &Ppu, bus_post: &Bus) -> bool {
        if t < self.next_line_t_state {
            *post == *self && *bus_post == *bus
        } else {
            &&& bus.written(bus_post, LY_ADDR, self.current_line)
            &&& self.line_drawn(bus_post, post.framebuffer@)
            &&& *post == (Ppu {
                framebuffer: post.framebuffer,
                current_line: ((self.current_line + 1) % LINES_PER_FRAME as int) as u8,
                next_line_t_state: (self.next_line_t_state + T_STATES_PER_LINE) as u64,
                irq_vblank: self.irq_vblank || self.current_line == SCRN_Y,
                ..*self
            })
        }
    }

    /// Scanline `y` of the framebuffer.
    pub open spec fn row(&self, y: int) -> Seq<u8> {
        self.framebuffer@.subrange(y * SCRN_X as int, y * SCRN_X as int + SCRN_X as int)
    }

    /// The framebuffer has 160 x 144 entries, each a color 0 to 3, and the
    /// scanline counter is below 154.
    pub open spec fn wf(&self) -> bool {
        &&& self.framebuffer@.len() == SCRN_SIZE
        &&& forall|i: int| 0 <= i < SCRN_SIZE ==> #[trigger] self.framebuffer@[i] <= 3
        &&& self.current_line < LINES_PER_FRAME
    }

    pub fn new() -> (r: Self)
        ensures
            r.wf(),
            forall|i: int| 0 <= i < SCRN_SIZE ==> #[trigger] r.framebuffer@[i] == 0,
            r.current_line == 0,
            r.next_line_t_state == 0,
            !r.irq_vblank && !r.irq_lcd,
    {
        Ppu {
            framebuffer: vec![0u8; SCRN_SIZE],
            current_line: 0,
            next_line_t_state: 0,
            irq_vblank: false,
            irq_lcd: false,
        }
    }
}

/// Background color of pixel (`x`, `y`).
#[verifier::rlimit(40)]
fn bg_color(bus: &Bus, y: u8, x: u8) -> (r: u8)
    requires
        bus.wf(),
    ensures
        r == bg_pixel(bus, y as int, x as int),
        r <= 3,
{
    let lcdc = bus.get(LCDC_ADDR);
    let map: u16 = if lcdc / 8 % 2 == 1 { 0x9C00 } else { 0x9800 };
    let px = bus.get(SCX_ADDR).wrapping_add(x);
    let py = bus.get(SCY_ADDR).wrapping_add(y);
    let id = bus.get(map + (py / 8) as u16 * 32 + (px / 8) as u16) as u16;
    let tile = if lcdc / 16 % 2 == 0 && id < 128 { id + 256 } else { id };
    let addr = 0x8000 + tile * 16 + (py % 8) as u16 * 2;
    let lo = bus.get(addr);
    let hi = bus.get(addr + 1);
    let cid = color_id(lo, hi, px % 8);
    let bgp = bus.get(BGP_ADDR);
    palette_color(bgp, cid)
}

impl Ppu {
    /// Draws the background of the current scanline.
    fn draw_bg(&mut self, bus: &Bus)
        requires
            old(self).wf(),
            bus.wf(),
            old(self).current_line < SCRN_Y,
        ensures
            final(self).wf(),
            row_replaced(
                old(self).framebuffer@,
                final(self).framebuffer@,
                old(self).current_line as int,
                bg_row(bus, old(self).current_line as int),
            ),
            *final(self) == (Ppu { framebuffer: final(self).framebuffer, ..*old(self) }),
    {
        let y = self.current_line;
        let base = y as usize * SCRN_X;
        let mut x: u8 = 0;
        while x < SCRN_X as u8
            invariant
                self.wf(),
                bus.wf(),
                x <= SCRN_X,
                y == old(self).current_line,
                y < SCRN_Y,
                base == y * SCRN_X,
                *self == (Ppu { framebuffer: self.framebuffer, ..*old(self) }),
                row_replaced(
                    old(self).framebuffer@,
                    self.framebuffer@,
                    y as int,
                    Seq::new(
                        SCRN_X as nat,
                        |k: int|
                            if k < x {
                                bg_pixel(bus, y as int, k)
                            } else {
                                old(self).framebuffer@[base + k]
                            },
                    ),
                ),
            decreases SCRN_X - x,
        {
            let c = bg_color(bus, y, x);
            assert(y * SCRN_X + x < SCRN_SIZE) by (nonlinear_arith)
                requires
                    y < SCRN_Y,
                    x < SCRN_X,
            ;
            self.framebuffer.set(base + x as usize, c);
            x = x + 1;
        }
        assert(Seq::new(
            SCRN_X as nat,
            |k: int|
                if k < x {
                    bg_pixel(bus, y as int, k)
                } else {
                    old(self).framebuffer@[base + k]
                },
        ) =~= bg_row(bus, y as int));
    }

    /// Draws sprite `o`, which covers scanline `y`, over that scanline.
    #[verifier::rlimit(40)]
    fn draw_one_obj(&mut self, bus: &Bus, y: u8, h: u8, o: Obj)
        requires
            old(self).wf(),
            bus.wf(),
            y < SCRN_Y,
            h == 8 || h == 16,
            obj_on_line(o, y as int, h as int),
        ensures
            final(self).wf(),
            row_replaced(
                old(self).framebuffer@,
                final(self).framebuffer@,
                y as int,
                paint_obj(bus, y as int, h as int, o, old(self).row(y as int)),
            ),
            *final(self) == (Ppu { framebuffer: final(self).framebuffer, ..*old(self) }),
    {
        let base = y as usize * SCRN_X;
        assert(base + SCRN_X <= SCRN_SIZE) by (nonlinear_arith)
            requires
                y < SCRN_Y,
                base == y * SCRN_X,
        ;
        let ty0 = y + 16 - o.y;
        let ty = if o.attr / 64 % 2 == 1 { h - 1 - ty0 } else { ty0 };
        let addr = 0x8000 + o.tile_id as u16 * 16 + ty as u16 * 2;
        let lo = bus.get(addr);
        let hi = bus.get(addr + 1);
        let pal = if o.attr / 16 % 2 == 0 { bus.get(OBP0_ADDR) } else { bus.get(OBP1_ADDR) };
        let ghost row0 = old(self).row(y as int);
        let mut i: u8 = 0;
        while i < 8
            invariant
                self.wf(),
                bus.wf(),
                i <= 8,
                y < SCRN_Y,
                base == y * SCRN_X,
                base + SCRN_X <= SCRN_SIZE,
                row0 == old(self).row(y as int),
                addr == tile_row_addr(
                    o.tile_id as int,
                    if o.attr / 64 % 2 == 1 { h - 1 - (y + 16 - o.y) } else { y + 16 - o.y },
                ),
                lo == bus.read(addr),
                hi == bus.read((addr + 1) as u16),
                pal == if o.attr / 16 % 2 == 0 { bus.read(OBP0_ADDR) } else { bus.read(OBP1_ADDR) },
                *self == (Ppu { framebuffer: self.framebuffer, ..*old(self) }),
                row_replaced(
                    old(self).framebuffer@,
                    self.framebuffer@,
                    y as int,
                    Seq::new(
                        SCRN_X as nat,
                        |x: int|
                            if x - (o.x - 8) < i {
                                paint_obj(bus, y as int, h as int, o, row0)[x]
                            } else {
                                row0[x]
                            },
                    ),
                ),
            decreases 8 - i,
        {
            if o.x as u16 + i as u16 >= 8 && (o.x as u16 + i as u16) < 168 {
                let x = (o.x as u16 + i as u16 - 8) as usize;
                let tx = if o.attr / 32 % 2 == 1 { 7 - i } else { i };
                let cid = color_id(lo, hi, tx);
                if cid != 0 {
                    let c = palette_color(pal, cid);
                    self.framebuffer.set(base + x, c);
                }
            }
            i = i + 1;
        }
        assert(Seq::new(
            SCRN_X as nat,
            |x: int|
                if x - (o.x - 8) < i {
                    paint_obj(bus, y as int, h as int, o, row0)[x]
                } else {
                    row0[x]
                },
        ) =~= paint_obj(bus, y as int, h as int, o, row0));
    }

    /// Draws the first ten sprites that cover the current scanline, in
    /// storage order, later ones over earlier ones.
    fn draw_obj(&mut self, bus: &Bus)
        requires
            old(self).wf(),
            bus.wf(),
            old(self).current_line < SCRN_Y,
        ensures
            final(self).wf(),
            row_replaced(
                old(self).framebuffer@,
                final(self).framebuffer@,
                old(self).current_line as int,
                paint_objs(
                    bus,
                    old(self).current_line as int,
                    obj_height(bus),
                    bus.oam.objects@,
                    0,
                    0,
                    old(self).row(old(self).current_line as int),
                ),
            ),
            *final(self) == (Ppu { framebuffer: final(self).framebuffer, ..*old(self) }),
    {
        let y = self.current_line;
        let lcdc = bus.get(LCDC_ADDR);
        let h: u8 = if lcdc / 4 % 2 == 0 { 8 } else { 16 };
        let ghost objs = bus.oam.objects@;
        let ghost goal = paint_objs(bus, y as int, h as int, objs, 0, 0, old(self).row(y as int));
        let mut i: usize = 0;
        let mut taken: usize = 0;
        while i < OBJ_COUNT && taken < OBJS_PER_LINE
            invariant
                self.wf(),
                bus.wf(),
                objs == bus.oam.objects@,
                objs.len() == OBJ_COUNT,
                i <= OBJ_COUNT,
                taken <= OBJS_PER_LINE,
                y == old(self).current_line,
                y < SCRN_Y,
                h == obj_height(bus),
                *self == (Ppu { framebuffer: self.framebuffer, ..*old(self) }),
                row_replaced(old(self).framebuffer@, self.framebuffer@, y as int, self.row(y as int)),
                paint_objs(bus, y as int, h as int, objs, i as int, taken as int, self.row(y as int))
                    == goal,
            decreases OBJ_COUNT - i,
        {
            let o = bus.oam.objects[i];
            if o.y <= y + 16 && o.y + h > y + 16 {
                let ghost before = self.framebuffer@;
                self.draw_one_obj(bus, y, h, o);
                proof {
                    assert(self.row(y as int) =~= paint_obj(bus, y as int, h as int, o, Seq::new(
                        SCRN_X as nat,
                        |k: int| before[y * SCRN_X + k],
                    )));
                    assert(Seq::new(SCRN_X as nat, |k: int| before[y * SCRN_X + k]) =~= before.subrange(
                        y * SCRN_X,
                        y * SCRN_X + SCRN_X,
                    ));
                }
                taken = taken + 1;
            }
            i = i + 1;
        }
        assert(self.row(y as int) == goal);
        assert forall|k: int| 0 <= k < self.framebuffer@.len() implies #[trigger] self.framebuffer@[k]
            == if y * SCRN_X as int <= k < y * SCRN_X as int + SCRN_X as int {
            goal[k - y * SCRN_X as int]
        } else {
            old(self).framebuffer@[k]
        } by {}
    }

    /// Advances the renderer to T-state `clock`: once per 456 T-states it
    /// publishes the scanline number in LY, draws a visible line when the LCD
    /// is on, raises the VBlank request on line 144, and moves to the next line.
    pub fn tick(&mut self, bus: &mut Bus, clock: &Clock)
        requires
            old(self).wf(),
            old(bus).wf(),
            clock.t_state <= u64::MAX - 1024,
        ensures
            final(self).wf(),
            final(bus).wf(),
            final(self).next_line_t_state <= if old(self).next_line_t_state > clock.t_state {
                old(self).next_line_t_state as int
            } else {
                clock.t_state + T_STATES_PER_LINE
            },
            old(self).ticked(old(bus), clock.t_state, final(self), final(bus)),
    {
        if clock.get_t_state() < self.next_line_t_state {
            return;
        }
        self.next_line_t_state = self.next_line_t_state + T_STATES_PER_LINE;
        bus.set(LY_ADDR, self.current_line);
        let lcdc = bus.get(LCDC_ADDR);
        let ghost fb0 = self.framebuffer@;
        if (self.current_line as usize) < SCRN_Y {
            if lcdc >= 128 {
                if lcdc % 2 == 1 {
                    self.draw_bg(bus);
                }
                let ghost fb1 = self.framebuffer@;
                if lcdc / 2 % 2 == 1 {
                    self.draw_obj(bus);
                }
                proof {
                    let y = old(self).current_line as int;
                    let row1 = if lcdc % 2 == 1 { bg_row(bus, y) } else { fb0.subrange(y * SCRN_X, y * SCRN_X + SCRN_X) };
                    assert(fb1.subrange(y * SCRN_X, y * SCRN_X + SCRN_X) =~= row1);
                }
            }
        } else if self.current_line as usize == SCRN_Y {
            self.irq_vblank = true;
        }
        self.current_line = if self.current_line + 1 >= LINES_PER_FRAME {
            0
        } else {
            self.current_line + 1
        };
    }
}

/// The VBlank request is raised by the step that leaves scanline 144 and by
/// no other; a raised request stays raised until it is taken out.
pub proof fn lemma_vblank_after_line_144(pre: Ppu, bus: Bus, t: u64, post: Ppu, bus_post: Bus)
    requires
        pre.wf(),
        pre.ticked(&bus, t, &post, &bus_post),
    ensures
        !pre.irq_vblank && post.irq_vblank <==> !pre.irq_vblank && t >= pre.next_line_t_state
            && pre.current_line == SCRN_Y,
        post.irq_vblank && !pre.irq_vblank ==> post.current_line == SCRN_Y + 1,
        pre.irq_vblank ==> post.irq_vblank,
{
}

} // verus!
