use vstd::prelude::*;

verus! {

/// The flag register built from its four flags: Z is bit 7, N bit 6, H bit 5,
/// C bit 4, and the low nibble is zero.
pub open spec fn flags(z: bool, n: bool, h: bool, c: bool) -> u8 {
    ((if z { 0x80int } else { 0 }) + (if n { 0x40int } else { 0 }) + (if h { 0x20int } else { 0 })
        + (if c { 0x10int } else { 0 })) as u8
}

pub open spec fn z_of(f: u8) -> bool {
    f / 0x80 % 2 == 1
}

pub open spec fn n_of(f: u8) -> bool {
    f / 0x40 % 2 == 1
}

pub open spec fn h_of(f: u8) -> bool {
    f / 0x20 % 2 == 1
}

pub open spec fn c_of(f: u8) -> bool {
    f / 0x10 % 2 == 1
}

/// A flag register built from four flags has a zero low nibble and reads
/// back each of them.
pub proof fn lemma_flags_low_nibble_zero(z: bool, n: bool, h: bool, c: bool)
    ensures
        flags(z, n, h, c) % 16 == 0,
        z_of(flags(z, n, h, c)) == z,
        n_of(flags(z, n, h, c)) == n,
        h_of(flags(z, n, h, c)) == h,
        c_of(flags(z, n, h, c)) == c,
{
}

pub fn make_flags(z: bool, n: bool, h: bool, c: bool) -> (r: u8)
    ensures
        r == flags(z, n, h, c),
        r % 16 == 0,
        z_of(r) == z && n_of(r) == n && h_of(r) == h && c_of(r) == c,
{
    let mut r: u8 = 0;
    if z {
        r = r + 0x80;
    }
    if n {
        r = r + 0x40;
    }
    if h {
        r = r + 0x20;
    }
    if c {
        r = r + 0x10;
    }
    r
}

/// The eight operations on A of opcodes 0x80 to 0xBF and their immediate forms.
#[derive(Clone, Copy, Debug, PartialEq, Eq, Structural)]
pub enum AluOp {
    Add,
    Adc,
    Sub,
    Sbc,
    And,
    Xor,
    Or,
    Cp,
}

pub open spec fn add_spec(a: u8, v: u8, ci: int) -> (u8, u8) {
    let r = ((a + v + ci) % 256) as u8;
    (r, flags(r == 0, false, a % 16 + v % 16 + ci > 15, a + v + ci > 255))
}

pub open spec fn sub_spec(a: u8, v: u8, ci: int) -> (u8, u8) {
    let r = ((a - v - ci + 512) % 256) as u8;
    (r, flags(r == 0, true, a % 16 < v % 16 + ci, a < v + ci))
}

/// A and F after `op` on A = `a` with operand `v` and carry-in `carry`.
pub open spec fn alu_spec(op: AluOp, a: u8, v: u8, carry: bool) -> (u8, u8) {
    let ci: int = if carry { 1 } else { 0 };
    match op {
        AluOp::Add => add_spec(a, v, 0),
        AluOp::Adc => add_spec(a, v, ci),
        AluOp::Sub => sub_spec(a, v, 0),
        AluOp::Sbc => sub_spec(a, v, ci),
        AluOp::And => (a & v, flags(a & v == 0, false, true, false)),
        AluOp::Xor => (a ^ v, flags(a ^ v == 0, false, false, false)),
        AluOp::Or => (a | v, flags(a | v == 0, false, false, false)),
        AluOp::Cp => (a, flags(a == v, true, a % 16 < v % 16, a < v)),
    }
}

pub open spec fn id_to_alu_op_spec(id: u8) -> AluOp {
    match id {
        0 => AluOp::Add,
        1 => AluOp::Adc,
        2 => AluOp::Sub,
        3 => AluOp::Sbc,
        4 => AluOp::And,
        5 => AluOp::Xor,
        6 => AluOp::Or,
        _ => AluOp::Cp,
    }
}

/// The operation named by a 3-bit field of an opcode.
pub fn id_to_alu_op(id: u8) -> (r: AluOp)
    requires
        id < 8,
    ensures
        r == id_to_alu_op_spec(id),
{
    match id {
        0 => AluOp::Add,
        1 => AluOp::Adc,
        2 => AluOp::Sub,
        3 => AluOp::Sbc,
        4 => AluOp::And,
        5 => AluOp::Xor,
        6 => AluOp::Or,
        _ => AluOp::Cp,
    }
}

/// ADD and ADC: `ci` is the carry-in, 0 or 1.
fn add_with_carry(a: u8, v: u8, ci: u8) -> (r: (u8, u8))
    requires
        ci <= 1,
    ensures
        r == add_spec(a, v, ci as int),
{
    let sum = a as u16 + v as u16 + ci as u16;
    let r = (sum % 256) as u8;
    (r, make_flags(r == 0, false, a % 16 + v % 16 + ci > 15, sum > 255))
}

/// SUB and SBC: `ci` is the borrow-in, 0 or 1.
fn sub_with_carry(a: u8, v: u8, ci: u8) -> (r: (u8, u8))
    requires
        ci <= 1,
    ensures
        r == sub_spec(a, v, ci as int),
{
    let r = ((a as u16 + 512 - v as u16 - ci as u16) % 256) as u8;
    (r, make_flags(r == 0, true, a % 16 < v % 16 + ci, (a as u16) < v as u16 + ci as u16))
}

/// Runs `op` on `a` and `v`; returns the new A and the new F.
pub fn alu(op: AluOp, a: u8, v: u8, carry: bool) -> (r: (u8, u8))
    ensures
        r == alu_spec(op, a, v, carry),
        r.1 % 16 == 0,
{
    let ci: u8 = if carry { 1 } else { 0 };
    match op {
        AluOp::Add => add_with_carry(a, v, 0),
        AluOp::Adc => add_with_carry(a, v, ci),
        AluOp::Sub => sub_with_carry(a, v, 0),
        AluOp::Sbc => sub_with_carry(a, v, ci),
        AluOp::And => (a & v, make_flags(a & v == 0, false, true, false)),
        AluOp::Xor => (a ^ v, make_flags(a ^ v == 0, false, false, false)),
        AluOp::Or => (a | v, make_flags(a | v == 0, false, false, false)),
        AluOp::Cp => (a, make_flags(a == v, true, a % 16 < v % 16, a < v)),
    }
}

/// The rotates, shifts and swap of the CB-prefixed opcodes 0x00 to 0x3F.
#[derive(Clone, Copy, Debug, PartialEq, Eq, Structural)]
pub enum ShiftOp {
    Rlc,
    Rrc,
    Rl,
    Rr,
    Sla,
    Sra,
    Swap,
    Srl,
}

/// The result and carry-out of `op` on `v` with carry-in `carry`.
pub open spec fn shift_spec(op: ShiftOp, v: u8, carry: bool) -> (u8, bool) {
    let ci: int = if carry { 1 } else { 0 };
    match op {
        ShiftOp::Rlc => ((v * 2 % 256 + v / 128) as u8, v >= 128),
        ShiftOp::Rrc => ((v / 2 + v % 2 * 128) as u8, v % 2 == 1),
        ShiftOp::Rl => ((v * 2 % 256 + ci) as u8, v >= 128),
        ShiftOp::Rr => ((v / 2 + ci * 128) as u8, v % 2 == 1),
        ShiftOp::Sla => ((v * 2 % 256) as u8, v >= 128),
        ShiftOp::Sra => ((v / 2 + v / 128 * 128) as u8, v % 2 == 1),
        ShiftOp::Swap => ((v % 16 * 16 + v / 16) as u8, false),
        ShiftOp::Srl => ((v / 2) as u8, v % 2 == 1),
    }
}

pub open spec fn id_to_shift_op_spec(id: u8) -> ShiftOp {
    match id {
        0 => ShiftOp::Rlc,
        1 => ShiftOp::Rrc,
        2 => ShiftOp::Rl,
        3 => ShiftOp::Rr,
        4 => ShiftOp::Sla,
        5 => ShiftOp::Sra,
        6 => ShiftOp::Swap,
        _ => ShiftOp::Srl,
    }
}

/// The operation named by a 3-bit field of a CB-prefixed opcode.
pub fn id_to_shift_op(id: u8) -> (r: ShiftOp)
    requires
        id < 8,
    ensures
        r == id_to_shift_op_spec(id),
{
    match id {
        0 => ShiftOp::Rlc,
        1 => ShiftOp::Rrc,
        2 => ShiftOp::Rl,
        3 => ShiftOp::Rr,
        4 => ShiftOp::Sla,
        5 => ShiftOp::Sra,
        6 => ShiftOp::Swap,
        _ => ShiftOp::Srl,
    }
}

pub fn shift(op: ShiftOp, v: u8, carry: bool) -> (r: (u8, bool))
    ensures
        r == shift_spec(op, v, carry),
{
    let ci: u8 = if carry { 1 } else { 0 };
    match op {
        ShiftOp::Rlc => ((v % 128) * 2 + v / 128, v >= 128),
        ShiftOp::Rrc => (v / 2 + v % 2 * 128, v % 2 == 1),
        ShiftOp::Rl => ((v % 128) * 2 + ci, v >= 128),
        ShiftOp::Rr => (v / 2 + ci * 128, v % 2 == 1),
        ShiftOp::Sla => ((v % 128) * 2, v >= 128),
        ShiftOp::Sra => (v / 2 + v / 128 * 128, v % 2 == 1),
        ShiftOp::Swap => (v % 16 * 16 + v / 16, false),
        ShiftOp::Srl => (v / 2, v % 2 == 1),
    }
}

/// Value and flags of INC on an 8-bit operand; C is kept.
pub open spec fn inc_spec(v: u8, f: u8) -> (u8, u8) {
    let r = ((v + 1) % 256) as u8;
    (r, flags(r == 0, false, r % 16 == 0, c_of(f)))
}

/// Value and flags of DEC on an 8-bit operand; C is kept.
pub open spec fn dec_spec(v: u8, f: u8) -> (u8, u8) {
    let r = ((v + 255) % 256) as u8;
    (r, flags(r == 0, true, r % 16 == 15, c_of(f)))
}

pub fn inc8(v: u8, f: u8) -> (r: (u8, u8))
    ensures
        r == inc_spec(v, f),
{
    let r = v.wrapping_add(1);
    (r, make_flags(r == 0, false, r % 16 == 0, f / 0x10 % 2 == 1))
}

pub fn dec8(v: u8, f: u8) -> (r: (u8, u8))
    ensures
        r == dec_spec(v, f),
{
    let r = v.wrapping_sub(1);
    (r, make_flags(r == 0, true, r % 16 == 15, f / 0x10 % 2 == 1))
}

/// HL and F after ADD HL, rr: Z kept, N clear, H from bit 11, C from bit 15.
pub open spec fn add16_spec(hl: u16, v: u16, f: u8) -> (u16, u8) {
    (
        ((hl + v) % 0x10000) as u16,
        flags(z_of(f), false, hl % 0x1000 + v % 0x1000 > 0xFFF, hl + v > 0xFFFF),
    )
}

pub fn add16(hl: u16, v: u16, f: u8) -> (r: (u16, u8))
    ensures
        r == add16_spec(hl, v, f),
{
    (
        hl.wrapping_add(v),
        make_flags(
            f / 0x80 % 2 == 1,
            false,
            hl % 0x1000 + v % 0x1000 > 0xFFF,
            hl as u32 + v as u32 > 0xFFFF,
        ),
    )
}

/// `lhs` plus the signed byte `e`, modulo 2^16.
pub open spec fn add_signed_spec(lhs: u16, e: u8) -> u16 {
    if e < 128 {
        ((lhs + e) % 0x10000) as u16
    } else {
        ((lhs + e + 0xFF00) % 0x10000) as u16
    }
}

pub fn add_u16_i8(lhs: u16, rhs: u8) -> (r: u16)
    ensures
        r == add_signed_spec(lhs, rhs),
{
    if rhs < 128 {
        lhs.wrapping_add(rhs as u16)
    } else {
        lhs.wrapping_add(rhs as u16 + 0xFF00)
    }
}

/// Flags of ADD SP, e8 and LD HL, SP+e8: Z and N clear, H and C from the low
/// nibble and the low byte of the unsigned sum.
pub open spec fn sp_offset_flags(sp: u16, e: u8) -> u8 {
    flags(false, false, sp % 16 + e % 16 > 15, sp % 256 + e > 255)
}

pub fn sp_offset(sp: u16, e: u8) -> (r: (u16, u8))
    ensures
        r == (add_signed_spec(sp, e), sp_offset_flags(sp, e)),
{
    (
        add_u16_i8(sp, e),
        make_flags(false, false, sp % 16 + e as u16 % 16 > 15, sp % 256 + e as u16 > 255),
    )
}

/// A and F after DAA: A corrected to packed BCD after an addition or a
/// subtraction, N kept, H clear.
pub open spec fn daa_spec(a: u8, f: u8) -> (u8, u8) {
    let hi = c_of(f) || (!n_of(f) && a > 0x99);
    let lo = h_of(f) || (!n_of(f) && a % 16 > 9);
    let adj: int = (if hi { 0x60int } else { 0 }) + (if lo { 0x06int } else { 0 });
    let r = (if n_of(f) { (a - adj + 256) % 256 } else { (a + adj) % 256 }) as u8;
    (r, flags(r == 0, n_of(f), false, hi))
}

pub fn daa(a: u8, f: u8) -> (r: (u8, u8))
    ensures
        r == daa_spec(a, f),
{
    let n = f / 0x40 % 2 == 1;
    let hi = f / 0x10 % 2 == 1 || (!n && a > 0x99);
    let lo = f / 0x20 % 2 == 1 || (!n && a % 16 > 9);
    let adj: u8 = (if hi { 0x60 } else { 0 }) + (if lo { 0x06 } else { 0 });
    let r = if n { a.wrapping_sub(adj) } else { a.wrapping_add(adj) };
    (r, make_flags(r == 0, n, false, hi))
}

/// ADD followed by SUB of the same operand gives A back; the subtraction's
/// flags are Z when A is zero, N set, and H and C exactly where the addition
/// carried.
pub proof fn lemma_add_then_sub(a: u8, b: u8, carry: bool)
    ensures
        ({
            let (s, fs) = alu_spec(AluOp::Add, a, b, carry);
            let (d, fd) = alu_spec(AluOp::Sub, s, b, carry);
            &&& d == a
            &&& fd == flags(a == 0, true, h_of(fs), c_of(fs))
        }),
{
    let s = ((a + b) % 256) as u8;
    let h = a % 16 + b % 16 > 15;
    let c = a + b > 255;
    lemma_flags_low_nibble_zero(s == 0, false, h, c);
    if c {
        assert(s == a + b - 256);
    } else {
        assert(s == a + b);
    }
    assert(s % 16 < b % 16 <==> h);
    assert(s < b <==> c);
    assert((s - b + 512) % 256 == a);
}

} // verus!
