use vstd::prelude::*;

verus! {

/// Total length in bytes of the instruction with this opcode; 0 marks an
/// undefined opcode.
pub open spec fn inst_length_spec(op: u8) -> u8 {
    match op {
        0x01 | 0x08 | 0x11 | 0x21 | 0x31 | 0xC2 | 0xC3 | 0xC4 | 0xCA | 0xCC | 0xCD | 0xD2 | 0xD4
        | 0xDA | 0xDC | 0xEA | 0xFA => 3,
        0x06 | 0x0E | 0x10 | 0x16 | 0x18 | 0x1E | 0x20 | 0x26 | 0x28 | 0x2E | 0x30 | 0x36 | 0x38
        | 0x3E | 0xC6 | 0xCB | 0xCE | 0xD6 | 0xDE | 0xE0 | 0xE6 | 0xE8 | 0xEE | 0xF0 | 0xF6 | 0xF8
        | 0xFE => 2,
        0xD3 | 0xDB | 0xDD | 0xE3 | 0xE4 | 0xEB | 0xEC | 0xED | 0xF4 | 0xFC | 0xFD => 0,
        _ => 1,
    }
}

/// Baseline cost in m-cycles of the instruction with this opcode; taken
/// branches, calls and returns add to it.
pub open spec fn inst_base_cycles_spec(op: u8) -> u8 {
    match op {
        0xD3 | 0xDB | 0xDD | 0xE3 | 0xE4 | 0xEB | 0xEC | 0xED | 0xF4 | 0xFC | 0xFD => 0,
        0x08 => 5,
        0xC5 | 0xC7 | 0xC9 | 0xCF | 0xD5 | 0xD7 | 0xD9 | 0xDF | 0xE5 | 0xE7 | 0xE8 | 0xEA | 0xEF
        | 0xF5 | 0xF7 | 0xFA | 0xFF => 4,
        0x01 | 0x11 | 0x21 | 0x31 | 0x34 | 0x35 | 0x36 | 0xC1 | 0xC2 | 0xC3 | 0xC4 | 0xCA | 0xCC
        | 0xCD | 0xD1 | 0xD2 | 0xD4 | 0xDA | 0xDC | 0xE0 | 0xE1 | 0xF0 | 0xF1 | 0xF8 => 3,
        0x02 | 0x03 | 0x06 | 0x09 | 0x0A | 0x0B | 0x0E | 0x12 | 0x13 | 0x16 | 0x18 | 0x19 | 0x1A
        | 0x1B | 0x1E | 0x20 | 0x22 | 0x23 | 0x26 | 0x28 | 0x29 | 0x2A | 0x2B | 0x2E | 0x30 | 0x32
        | 0x33 | 0x38 | 0x39 | 0x3A | 0x3B | 0x3E | 0x46 | 0x4E | 0x56 | 0x5E | 0x66 | 0x6E
        | 0x70 | 0x71 | 0x72 | 0x73 | 0x74 | 0x75 | 0x77 | 0x7E | 0x86 | 0x8E | 0x96 | 0x9E | 0xA6 | 0xAE | 0xB6 | 0xBE | 0xC0
        | 0xC6 | 0xC8 | 0xCB | 0xCE | 0xD0 | 0xD6 | 0xD8 | 0xDE | 0xE2 | 0xE6 | 0xEE | 0xF2 | 0xF6
        | 0xF9 | 0xFE => 2,
        _ => 1,
    }
}

pub fn inst_length(op: u8) -> (r: u8)
    ensures
        r == inst_length_spec(op),
        r <= 3,
{
    match op {
        0x01 | 0x08 | 0x11 | 0x21 | 0x31 | 0xC2 | 0xC3 | 0xC4 | 0xCA | 0xCC | 0xCD | 0xD2 | 0xD4
        | 0xDA | 0xDC | 0xEA | 0xFA => 3,
        0x06 | 0x0E | 0x10 | 0x16 | 0x18 | 0x1E | 0x20 | 0x26 | 0x28 | 0x2E | 0x30 | 0x36 | 0x38
        | 0x3E | 0xC6 | 0xCB | 0xCE | 0xD6 | 0xDE | 0xE0 | 0xE6 | 0xE8 | 0xEE | 0xF0 | 0xF6 | 0xF8
        | 0xFE => 2,
        0xD3 | 0xDB | 0xDD | 0xE3 | 0xE4 | 0xEB | 0xEC | 0xED | 0xF4 | 0xFC | 0xFD => 0,
        _ => 1,
    }
}

pub fn inst_base_cycles(op: u8) -> (r: u8)
    ensures
        r == inst_base_cycles_spec(op),
        r <= 5,
{
    match op {
        0xD3 | 0xDB | 0xDD | 0xE3 | 0xE4 | 0xEB | 0xEC | 0xED | 0xF4 | 0xFC | 0xFD => 0,
        0x08 => 5,
        0xC5 | 0xC7 | 0xC9 | 0xCF | 0xD5 | 0xD7 | 0xD9 | 0xDF | 0xE5 | 0xE7 | 0xE8 | 0xEA | 0xEF
        | 0xF5 | 0xF7 | 0xFA | 0xFF => 4,
        0x01 | 0x11 | 0x21 | 0x31 | 0x34 | 0x35 | 0x36 | 0xC1 | 0xC2 | 0xC3 | 0xC4 | 0xCA | 0xCC
        | 0xCD | 0xD1 | 0xD2 | 0xD4 | 0xDA | 0xDC | 0xE0 | 0xE1 | 0xF0 | 0xF1 | 0xF8 => 3,
        0x02 | 0x03 | 0x06 | 0x09 | 0x0A | 0x0B | 0x0E | 0x12 | 0x13 | 0x16 | 0x18 | 0x19 | 0x1A
        | 0x1B | 0x1E | 0x20 | 0x22 | 0x23 | 0x26 | 0x28 | 0x29 | 0x2A | 0x2B | 0x2E | 0x30 | 0x32
        | 0x33 | 0x38 | 0x39 | 0x3A | 0x3B | 0x3E | 0x46 | 0x4E | 0x56 | 0x5E | 0x66 | 0x6E
        | 0x70 | 0x71 | 0x72 | 0x73 | 0x74 | 0x75 | 0x77 | 0x7E | 0x86 | 0x8E | 0x96 | 0x9E | 0xA6 | 0xAE | 0xB6 | 0xBE | 0xC0
        | 0xC6 | 0xC8 | 0xCB | 0xCE | 0xD0 | 0xD6 | 0xD8 | 0xDE | 0xE2 | 0xE6 | 0xEE | 0xF2 | 0xF6
        | 0xF9 | 0xFE => 2,
        _ => 1,
    }
}

} // verus!
