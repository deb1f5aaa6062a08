use vstd::prelude::*;

verus! {

/// Number of entries in the sprite attribute table.
pub const OBJ_COUNT: usize = 40;

/// Size in bytes of the sprite attribute table.
pub const OAM_SIZE: usize = 160;

/// One sprite: position, tile and attribute flags, stored in that byte order.
#[derive(Clone, Copy, Debug, PartialEq, Eq, Structural)]
pub struct Obj {
    pub y: u8,
    pub x: u8,
    pub tile_id: u8,
    pub attr: u8,
}

impl Obj {
    pub open spec fn field(self, k: int) -> u8 {
        if k == 0 {
            self.y
        } else if k == 1 {
            self.x
        } else if k == 2 {
            self.tile_id
        } else {
            self.attr
        }
    }

    pub open spec fn with_field(self, k: int, value: u8) -> Obj {
        if k == 0 {
            Obj { y: value, ..self }
        } else if k == 1 {
            Obj { x: value, ..self }
        } else if k == 2 {
            Obj { tile_id: value, ..self }
        } else {
            Obj { attr: value, ..self }
        }
    }
}

/// The sprite attribute table: 40 sprites of four bytes each.
pub struct Oam {
    pub objects: Vec<Obj>,
}

impl Oam {
    pub open spec fn wf(&self) -> bool {
        self.objects@.len() == OBJ_COUNT
    }

    /// Byte `i` of the table as the bus sees it.
    pub open spec fn byte(&self, i: int) -> u8 {
        self.objects@[i / 4].field(i % 4)
    }

    /// The table with byte `i` replaced.
    pub open spec fn with_byte(objects: Seq<Obj>, i: int, value: u8) -> Seq<Obj> {
        objects.update(i / 4, objects[i / 4].with_field(i % 4, value))
    }

    pub fn new() -> (r: Self)
        ensures
            r.wf(),
            forall|i: int| 0 <= i < OAM_SIZE ==> r.byte(i) == 0,
    {
        let zero = Obj { y: 0, x: 0, tile_id: 0, attr: 0 };
        let objects = vec![zero; OBJ_COUNT];
        assert forall|i: int| 0 <= i < OBJ_COUNT implies objects@[i] == zero by {
            assert(vstd::pervasive::cloned(zero, objects@[i]));
        }
        Oam { objects }
    }

    pub fn get(&self, addr: u8) -> (r: u8)
        requires
            self.wf(),
            addr < OAM_SIZE,
        ensures
            r == self.byte(addr as int),
    {
        let obj = self.objects[addr as usize / 4];
        match addr % 4 {
            0 => obj.y,
            1 => obj.x,
            2 => obj.tile_id,
            _ => obj.attr,
        }
    }

    pub fn set(&mut self, addr: u8, value: u8)
        requires
            old(self).wf(),
            addr < OAM_SIZE,
        ensures
            final(self).wf(),
            final(self).objects@ == Self::with_byte(old(self).objects@, addr as int, value),
            forall|j: int|
                0 <= j < OAM_SIZE ==> #[trigger] final(self).byte(j) == if j == addr as int {
                    value
                } else {
                    old(self).byte(j)
                },
    {
        let i = addr as usize / 4;
        let mut obj = self.objects[i];
        match addr % 4 {
            0 => obj.y = value,
            1 => obj.x = value,
            2 => obj.tile_id = value,
            _ => obj.attr = value,
        }
        self.objects.set(i, obj);
    }
}

} // verus!
