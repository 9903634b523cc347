//! Format views: wrappers around a raw instruction word whose accessors
//! gather the register and immediate fields of one encoding shape.
//!
//! Register fields come in two schemes. A *full* field has 5 bits and names
//! any of the 32 general registers. A *compressed* field has 3 bits and names
//! one of the registers 8 to 15 (the field's value plus 8).

use vstd::arithmetic::power2::{lemma2_to64, pow2};
use vstd::prelude::*;

verus! {

/// The `len` bits of `w` that start at bit position `lo`, as a number.
pub open spec fn field(w: u16, lo: nat, len: nat) -> int {
    (w as int / pow2(lo) as int) % pow2(len) as int
}

/// Reads `u`, a number of `width` bits, as a two's-complement value.
pub open spec fn sign_extend(u: int, width: nat) -> int
    recommends
        width > 0,
{
    if u >= pow2((width - 1) as nat) {
        u - pow2(width)
    } else {
        u
    }
}

/// A register number in the compressed scheme, held in bits `lo + 2 ..= lo`.
pub open spec fn compressed_reg(w: u16, lo: nat) -> int {
    field(w, lo, 3) + 8
}

/// 6-bit immediate: imm[5] in bit 12, imm[4:0] in bits 6..2.
pub open spec fn imm6_bits(w: u16) -> int {
    field(w, 12, 1) * 32 + field(w, 2, 5)
}

/// C.ADDI4SPN: nzuimm[5:4] in bits 12..11, nzuimm[9:6] in bits 10..7,
/// nzuimm[2] in bit 6, nzuimm[3] in bit 5.
pub open spec fn ciw_imm(w: u16) -> int {
    field(w, 11, 2) * 16 + field(w, 7, 4) * 64 + field(w, 6, 1) * 4 + field(w, 5, 1) * 8
}

/// C.LW and C.SW: offset[5:3] in bits 12..10, offset[2] in bit 6,
/// offset[6] in bit 5.
pub open spec fn word_offset(w: u16) -> int {
    field(w, 10, 3) * 8 + field(w, 6, 1) * 4 + field(w, 5, 1) * 64
}

/// C.ADDI16SP, before sign extension from bit 9: nzimm[9] in bit 12,
/// nzimm[4] in bit 6, nzimm[6] in bit 5, nzimm[8:7] in bits 4..3,
/// nzimm[5] in bit 2.
pub open spec fn addi16sp_bits(w: u16) -> int {
    field(w, 12, 1) * 512 + field(w, 6, 1) * 16 + field(w, 5, 1) * 64 + field(w, 3, 2) * 128
        + field(w, 2, 1) * 32
}

/// C.LWSP: offset[5] in bit 12, offset[4:2] in bits 6..4, offset[7:6] in
/// bits 3..2.
pub open spec fn lwsp_offset(w: u16) -> int {
    field(w, 12, 1) * 32 + field(w, 4, 3) * 4 + field(w, 2, 2) * 64
}

/// C.SWSP: offset[5:2] in bits 12..9, offset[7:6] in bits 8..7.
pub open spec fn swsp_offset(w: u16) -> int {
    field(w, 9, 4) * 4 + field(w, 7, 2) * 64
}

/// C.BEQZ and C.BNEZ, before sign extension from bit 8: offset[8] in bit 12,
/// offset[4:3] in bits 11..10, offset[7:6] in bits 6..5, offset[2:1] in
/// bits 4..3, offset[5] in bit 2.
pub open spec fn branch_bits(w: u16) -> int {
    field(w, 12, 1) * 256 + field(w, 10, 2) * 8 + field(w, 5, 2) * 64 + field(w, 3, 2) * 2
        + field(w, 2, 1) * 32
}

/// C.J, before sign extension from bit 11: offset[11] in bit 12, offset[4]
/// in bit 11, offset[9:8] in bits 10..9, offset[10] in bit 8, offset[6] in
/// bit 7, offset[7] in bit 6, offset[3:1] in bits 5..3, offset[5] in bit 2.
pub open spec fn jump_bits(w: u16) -> int {
    field(w, 12, 1) * 2048 + field(w, 11, 1) * 16 + field(w, 9, 2) * 256 + field(w, 8, 1) * 1024
        + field(w, 7, 1) * 64 + field(w, 6, 1) * 128 + field(w, 3, 3) * 2 + field(w, 2, 1) * 32
}

/// Bits 11..7, full scheme.
fn reg_11_7(w: u16) -> (r: u32)
    ensures
        r == field(w, 7, 5),
{
    proof {
        lemma2_to64();
        assert((w >> 7u16) & 0x1f == (w / 128) % 32) by (bit_vector);
    }
    ((w >> 7) & 0x1f) as u32
}

/// Bits 6..2, full scheme.
fn reg_6_2(w: u16) -> (r: u32)
    ensures
        r == field(w, 2, 5),
{
    proof {
        lemma2_to64();
        assert((w >> 2u16) & 0x1f == (w / 4) % 32) by (bit_vector);
    }
    ((w >> 2) & 0x1f) as u32
}

/// Bits 9..7, compressed scheme.
fn creg_9_7(w: u16) -> (r: u32)
    ensures
        r == compressed_reg(w, 7),
        8 <= r < 16,
{
    proof {
        lemma2_to64();
        assert((w >> 7u16) & 0x7 == (w / 128) % 8) by (bit_vector);
    }
    ((w >> 7) & 0x7) as u32 + 8
}

/// Bits 4..2, compressed scheme.
fn creg_4_2(w: u16) -> (r: u32)
    ensures
        r == compressed_reg(w, 2),
        8 <= r < 16,
{
    proof {
        lemma2_to64();
        assert((w >> 2u16) & 0x7 == (w / 4) % 8) by (bit_vector);
    }
    ((w >> 2) & 0x7) as u32 + 8
}

/// The signed 6-bit immediate shared by C.ADDI, C.LI, C.LUI and C.ANDI.
fn imm6(w: u16) -> (r: i32)
    ensures
        r == sign_extend(imm6_bits(w), 6),
        -32 <= r < 32,
{
    let u: u16 = ((w >> 7) & 0x20) | ((w >> 2) & 0x1f);
    proof {
        lemma2_to64();
        assert(((w >> 7u16) & 0x20) | ((w >> 2u16) & 0x1f) == ((w / 4096) % 2) * 32 + (w / 4)
            % 32) by (bit_vector);
    }
    if u >= 32 {
        u as i32 - 64
    } else {
        u as i32
    }
}

/// Wide immediate form (C.ADDI4SPN): a compressed destination register and a
/// zero-extended immediate added to the stack pointer.
#[derive(Clone, Copy, Debug, PartialEq, Eq, Hash, Structural)]
pub struct CIWType(pub u16);

impl CIWType {
    /// Destination register, compressed scheme (bits 4..2).
    pub fn rd(&self) -> (r: u32)
        ensures
            r == compressed_reg(self.0, 2),
    {
        creg_4_2(self.0)
    }

    /// The zero-extended immediate, a multiple of 4 below 1024.
    pub fn imm(&self) -> (r: u32)
        ensures
            r == ciw_imm(self.0),
    {
        let w = self.0;
        proof {
            lemma2_to64();
            assert(((w >> 7u16) & 0x30) | ((w >> 1u16) & 0x3c0) | ((w >> 4u16) & 0x4) | ((w >> 2u16)
                & 0x8) == ((w / 2048) % 4) * 16 + ((w / 128) % 16) * 64 + ((w / 64) % 2) * 4 + ((w
                / 32) % 2) * 8) by (bit_vector);
        }
        (((w >> 7) & 0x30) | ((w >> 1) & 0x3c0) | ((w >> 4) & 0x4) | ((w >> 2) & 0x8)) as u32
    }
}

/// Load form (C.LW): compressed base and destination registers and a
/// zero-extended word offset.
#[derive(Clone, Copy, Debug, PartialEq, Eq, Hash, Structural)]
pub struct CLType(pub u16);

impl CLType {
    /// Destination register, compressed scheme (bits 4..2).
    pub fn rd(&self) -> (r: u32)
        ensures
            r == compressed_reg(self.0, 2),
    {
        creg_4_2(self.0)
    }

    /// Base register, compressed scheme (bits 9..7).
    pub fn rs1(&self) -> (r: u32)
        ensures
            r == compressed_reg(self.0, 7),
    {
        creg_9_7(self.0)
    }

    /// The offset added to the base register.
    pub fn imm(&self) -> (r: u32)
        ensures
            r == word_offset(self.0),
    {
        word_offset_of(self.0)
    }
}

/// Store form (C.SW): compressed base and source registers and a
/// zero-extended word offset.
#[derive(Clone, Copy, Debug, PartialEq, Eq, Hash, Structural)]
pub struct CSType(pub u16);

impl CSType {
    /// Base register, compressed scheme (bits 9..7).
    pub fn rs1(&self) -> (r: u32)
        ensures
            r == compressed_reg(self.0, 7),
    {
        creg_9_7(self.0)
    }

    /// Source register, compressed scheme (bits 4..2).
    pub fn rs2(&self) -> (r: u32)
        ensures
            r == compressed_reg(self.0, 2),
    {
        creg_4_2(self.0)
    }

    /// The offset added to the base register.
    pub fn imm(&self) -> (r: u32)
        ensures
            r == word_offset(self.0),
    {
        word_offset_of(self.0)
    }
}

/// Word offset of C.LW and C.SW.
fn word_offset_of(w: u16) -> (r: u32)
    ensures
        r == word_offset(w),
{
    proof {
        lemma2_to64();
        assert(((w >> 7u16) & 0x38) | ((w >> 4u16) & 0x4) | ((w << 1u16) & 0x40) == ((w / 1024) % 8)
            * 8 + ((w / 64) % 2) * 4 + ((w / 32) % 2) * 64) by (bit_vector);
    }
    (((w >> 7) & 0x38) | ((w >> 4) & 0x4) | ((w << 1) & 0x40)) as u32
}

/// Immediate and destination form (C.ADDI, C.LI, C.LUI, C.ADDI16SP,
/// C.LWSP): a full register and an immediate whose scale depends on the
/// instruction.
#[derive(Clone, Copy, Debug, PartialEq, Eq, Hash, Structural)]
pub struct CIType(pub u16);

impl CIType {
    /// Destination (and for C.ADDI also source) register, full scheme
    /// (bits 11..7).
    pub fn rd(&self) -> (r: u32)
        ensures
            r == field(self.0, 7, 5),
    {
        reg_11_7(self.0)
    }

    /// The sign-extended 6-bit immediate of C.ADDI and C.LI.
    pub fn imm(&self) -> (r: i32)
        ensures
            r == sign_extend(imm6_bits(self.0), 6),
    {
        imm6(self.0)
    }

    /// The value that C.LUI places in the destination: the 6-bit immediate
    /// as bits 17..12, sign-extended.
    pub fn lui_imm(&self) -> (r: i32)
        ensures
            r == sign_extend(imm6_bits(self.0), 6) * 4096,
    {
        imm6(self.0) * 4096
    }

    /// The sign-extended amount, a multiple of 16, that C.ADDI16SP adds to
    /// the stack pointer.
    pub fn addi16sp_imm(&self) -> (r: i32)
        ensures
            r == sign_extend(addi16sp_bits(self.0), 10),
    {
        let w = self.0;
        let u: u16 = ((w >> 3) & 0x200) | ((w >> 2) & 0x10) | ((w << 1) & 0x40) | ((w << 4) & 0x180)
            | ((w << 3) & 0x20);
        proof {
            lemma2_to64();
            assert(((w >> 3u16) & 0x200) | ((w >> 2u16) & 0x10) | ((w << 1u16) & 0x40) | ((w << 4u16)
                & 0x180) | ((w << 3u16) & 0x20) == ((w / 4096) % 2) * 512 + ((w / 64) % 2) * 16 + ((w
                / 32) % 2) * 64 + ((w / 8) % 4) * 128 + ((w / 4) % 2) * 32) by (bit_vector);
        }
        if u >= 512 {
            u as i32 - 1024
        } else {
            u as i32
        }
    }

    /// The zero-extended offset of C.LWSP from the stack pointer.
    pub fn lwsp_imm(&self) -> (r: u32)
        ensures
            r == lwsp_offset(self.0),
    {
        let w = self.0;
        proof {
            lemma2_to64();
            assert(((w >> 7u16) & 0x20) | ((w >> 2u16) & 0x1c) | ((w << 4u16) & 0xc0) == ((w / 4096)
                % 2) * 32 + ((w / 16) % 8) * 4 + ((w / 4) % 4) * 64) by (bit_vector);
        }
        (((w >> 7) & 0x20) | ((w >> 2) & 0x1c) | ((w << 4) & 0xc0)) as u32
    }
}

/// Stack-relative store form (C.SWSP): a full source register and a
/// zero-extended offset from the stack pointer.
#[derive(Clone, Copy, Debug, PartialEq, Eq, Hash, Structural)]
pub struct CSSType(pub u16);

impl CSSType {
    /// Source register, full scheme (bits 6..2).
    pub fn rs2(&self) -> (r: u32)
        ensures
            r == field(self.0, 2, 5),
    {
        reg_6_2(self.0)
    }

    /// The offset from the stack pointer.
    pub fn imm(&self) -> (r: u32)
        ensures
            r == swsp_offset(self.0),
    {
        let w = self.0;
        proof {
            lemma2_to64();
            assert(((w >> 7u16) & 0x3c) | ((w >> 1u16) & 0xc0) == ((w / 512) % 16) * 4 + ((w / 128)
                % 4) * 64) by (bit_vector);
        }
        (((w >> 7) & 0x3c) | ((w >> 1) & 0xc0)) as u32
    }
}

/// Register pair form (C.JR, C.JALR, C.MV, C.ADD): two full registers.
#[derive(Clone, Copy, Debug, PartialEq, Eq, Hash, Structural)]
pub struct CRType(pub u16);

impl CRType {
    /// First register, full scheme (bits 11..7): the destination of C.MV
    /// and C.ADD, the jump target of C.JR and C.JALR.
    pub fn rd(&self) -> (r: u32)
        ensures
            r == field(self.0, 7, 5),
    {
        reg_11_7(self.0)
    }

    /// The same field as `rd`, read as a source register.
    pub fn rs1(&self) -> (r: u32)
        ensures
            r == field(self.0, 7, 5),
    {
        reg_11_7(self.0)
    }

    /// Second register, full scheme (bits 6..2).
    pub fn rs2(&self) -> (r: u32)
        ensures
            r == field(self.0, 2, 5),
    {
        reg_6_2(self.0)
    }
}

/// Arithmetic register form (C.SUB, C.XOR, C.OR, C.AND, C.SUBW, C.ADDW):
/// two compressed registers, the first also the destination.
#[derive(Clone, Copy, Debug, PartialEq, Eq, Hash, Structural)]
pub struct CAType(pub u16);

impl CAType {
    /// Destination and first source, compressed scheme (bits 9..7).
    pub fn rd(&self) -> (r: u32)
        ensures
            r == compressed_reg(self.0, 7),
    {
        creg_9_7(self.0)
    }

    /// Second source, compressed scheme (bits 4..2).
    pub fn rs2(&self) -> (r: u32)
        ensures
            r == compressed_reg(self.0, 2),
    {
        creg_4_2(self.0)
    }
}

/// Branch form (C.BEQZ, C.BNEZ, and C.ANDI): a compressed register with a
/// signed branch offset, or for C.ANDI a signed 6-bit immediate.
#[derive(Clone, Copy, Debug, PartialEq, Eq, Hash, Structural)]
pub struct CBType(pub u16);

impl CBType {
    /// The register tested by a branch, or the destination and source of
    /// C.ANDI, compressed scheme (bits 9..7).
    pub fn rs1(&self) -> (r: u32)
        ensures
            r == compressed_reg(self.0, 7),
    {
        creg_9_7(self.0)
    }

    /// The sign-extended 6-bit immediate of C.ANDI.
    pub fn imm(&self) -> (r: i32)
        ensures
            r == sign_extend(imm6_bits(self.0), 6),
    {
        imm6(self.0)
    }

    /// The sign-extended, even branch offset.
    pub fn offset(&self) -> (r: i32)
        ensures
            r == sign_extend(branch_bits(self.0), 9),
    {
        let w = self.0;
        let u: u16 = ((w >> 4) & 0x100) | ((w >> 7) & 0x18) | ((w << 1) & 0xc0) | ((w >> 2) & 0x6)
            | ((w << 3) & 0x20);
        proof {
            lemma2_to64();
            assert(((w >> 4u16) & 0x100) | ((w >> 7u16) & 0x18) | ((w << 1u16) & 0xc0) | ((w >> 2u16)
                & 0x6) | ((w << 3u16) & 0x20) == ((w / 4096) % 2) * 256 + ((w / 1024) % 4) * 8 + ((w
                / 32) % 4) * 64 + ((w / 8) % 4) * 2 + ((w / 4) % 2) * 32) by (bit_vector);
        }
        if u >= 256 {
            u as i32 - 512
        } else {
            u as i32
        }
    }
}

/// Jump form (C.J): no register, a signed jump offset.
#[derive(Clone, Copy, Debug, PartialEq, Eq, Hash, Structural)]
pub struct CJType(pub u16);

impl CJType {
    /// The sign-extended, even jump offset.
    pub fn offset(&self) -> (r: i32)
        ensures
            r == sign_extend(jump_bits(self.0), 12),
    {
        let w = self.0;
        let u: u16 = ((w >> 1) & 0x800) | ((w >> 7) & 0x10) | ((w >> 1) & 0x300) | ((w << 2) & 0x400)
            | ((w >> 1) & 0x40) | ((w << 1) & 0x80) | ((w >> 2) & 0xe) | ((w << 3) & 0x20);
        proof {
            lemma2_to64();
            assert(((w >> 1u16) & 0x800) | ((w >> 7u16) & 0x10) | ((w >> 1u16) & 0x300) | ((w
                << 2u16) & 0x400) | ((w >> 1u16) & 0x40) | ((w << 1u16) & 0x80) | ((w >> 2u16) & 0xe)
                | ((w << 3u16) & 0x20) == ((w / 4096) % 2) * 2048 + ((w / 2048) % 2) * 16 + ((w
                / 512) % 4) * 256 + ((w / 256) % 2) * 1024 + ((w / 128) % 2) * 64 + ((w / 64) % 2)
                * 128 + ((w / 8) % 8) * 2 + ((w / 4) % 2) * 32) by (bit_vector);
        }
        if u >= 2048 {
            u as i32 - 4096
        } else {
            u as i32
        }
    }
}

/// A word assembled from two full register numbers, `rd` in bits 11..7 and
/// `rs2` in bits 6..2, with any other bits (`hi` above, `q` below), gives both
/// numbers back through the register-pair fields.
pub proof fn lemma_full_register_round_trip(hi: u16, rd: u16, rs2: u16, q: u16)
    requires
        hi < 16,
        rd < 32,
        rs2 < 32,
        q < 4,
    ensures
        field((hi * 4096 + rd * 128 + rs2 * 4 + q) as u16, 7, 5) == rd,
        field((hi * 4096 + rd * 128 + rs2 * 4 + q) as u16, 2, 5) == rs2,
{
    let w = (hi * 4096 + rd * 128 + rs2 * 4 + q) as u16;
    lemma2_to64();
    assert((w / 128) % 32 == rd && (w / 4) % 32 == rs2) by (bit_vector)
        requires
            w == (hi * 4096 + rd * 128 + rs2 * 4 + q) as u16,
            hi < 16,
            rd < 32,
            rs2 < 32,
            q < 4,
    ;
}

/// A word assembled from two compressed register fields, `rs1` in bits 9..7
/// and `rs2` in bits 4..2, with any other bits (`hi` above, `mid` between,
/// `q` below), names registers `rs1 + 8` and `rs2 + 8`.
pub proof fn lemma_compressed_register_round_trip(hi: u16, rs1: u16, mid: u16, rs2: u16, q: u16)
    requires
        hi < 64,
        rs1 < 8,
        mid < 4,
        rs2 < 8,
        q < 4,
    ensures
        compressed_reg((hi * 1024 + rs1 * 128 + mid * 32 + rs2 * 4 + q) as u16, 7) == rs1 + 8,
        compressed_reg((hi * 1024 + rs1 * 128 + mid * 32 + rs2 * 4 + q) as u16, 2) == rs2 + 8,
{
    let w = (hi * 1024 + rs1 * 128 + mid * 32 + rs2 * 4 + q) as u16;
    lemma2_to64();
    assert((w / 128) % 8 == rs1 && (w / 4) % 8 == rs2) by (bit_vector)
        requires
            w == (hi * 1024 + rs1 * 128 + mid * 32 + rs2 * 4 + q) as u16,
            hi < 64,
            rs1 < 8,
            mid < 4,
            rs2 < 8,
            q < 4,
    ;
}

// Views of the 32-bit base encoding. They carry the raw word for the base
// decoder and its users.

/// Upper immediate form (LUI, AUIPC).
#[derive(Clone, Copy, Debug, PartialEq, Eq, Hash, Structural)]
pub struct UType(pub u32);

/// Jump form (JAL).
#[derive(Clone, Copy, Debug, PartialEq, Eq, Hash, Structural)]
pub struct JType(pub u32);

/// Immediate form (loads, JALR, register-immediate arithmetic).
#[derive(Clone, Copy, Debug, PartialEq, Eq, Hash, Structural)]
pub struct IType(pub u32);

/// Conditional branch form.
#[derive(Clone, Copy, Debug, PartialEq, Eq, Hash, Structural)]
pub struct BType(pub u32);

/// Store form.
#[derive(Clone, Copy, Debug, PartialEq, Eq, Hash, Structural)]
pub struct SType(pub u32);

/// Shift-by-immediate form.
#[derive(Clone, Copy, Debug, PartialEq, Eq, Hash, Structural)]
pub struct ShiftType(pub u32);

/// Register-register form.
#[derive(Clone, Copy, Debug, PartialEq, Eq, Hash, Structural)]
pub struct RType(pub u32);

/// Memory ordering form (FENCE).
#[derive(Clone, Copy, Debug, PartialEq, Eq, Hash, Structural)]
pub struct FenceType(pub u32);

/// Control and status register form with a register operand.
#[derive(Clone, Copy, Debug, PartialEq, Eq, Hash, Structural)]
pub struct CsrType(pub u32);

/// Control and status register form with an immediate operand.
#[derive(Clone, Copy, Debug, PartialEq, Eq, Hash, Structural)]
pub struct CsrIType(pub u32);

} // verus!
