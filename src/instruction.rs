//! The instruction model: one variant per mnemonic, each carrying the format
//! view of its encoding, or nothing for a form with fixed operands.

use crate::types::{
    BType, CAType, CBType, CIType, CIWType, CJType, CLType, CRType, CSSType, CSType, CsrIType,
    CsrType, FenceType, IType, JType, RType, SType, ShiftType, UType,
};
use vstd::prelude::*;

verus! {

/// A decoded instruction.
#[derive(Clone, Copy, Debug, PartialEq, Eq, Hash, Structural)]
pub enum Instruction {
    Lui(UType),
    Auipc(UType),
    Jal(JType),
    Jalr(IType),
    Beq(BType),
    Bne(BType),
    Blt(BType),
    Bge(BType),
    Bltu(BType),
    Bgeu(BType),
    Lb(IType),
    Lh(IType),
    Lw(IType),
    Lbu(IType),
    Lhu(IType),
    Lwu(IType),
    Ld(IType),
    Sb(SType),
    Sh(SType),
    Sw(SType),
    Sd(SType),
    Addi(IType),
    Slti(IType),
    Sltiu(IType),
    Xori(IType),
    Ori(IType),
    Andi(IType),
    Slli(ShiftType),
    Srli(ShiftType),
    Srai(ShiftType),
    Add(RType),
    Sub(RType),
    Sll(RType),
    Slt(RType),
    Sltu(RType),
    Xor(RType),
    Srl(RType),
    Sra(RType),
    Or(RType),
    And(RType),
    Mul(RType),
    Mulh(RType),
    Mulhsu(RType),
    Mulhu(RType),
    Div(RType),
    Divu(RType),
    Rem(RType),
    Remu(RType),
    Fence(FenceType),
    FenceI,
    Ecall,
    Ebreak,
    Uret,
    Sret,
    Mret,
    Wfi,
    SfenceVma(RType),
    Csrrw(CsrType),
    Csrrs(CsrType),
    Csrrc(CsrType),
    Csrrwi(CsrIType),
    Csrrsi(CsrIType),
    Csrrci(CsrIType),
    Addiw(IType),
    Slliw(ShiftType),
    Srliw(ShiftType),
    Sraiw(ShiftType),
    Addw(RType),
    Subw(RType),
    Sllw(RType),
    Srlw(RType),
    Sraw(RType),
    Mulw(RType),
    Divw(RType),
    Divuw(RType),
    Remw(RType),
    Remuw(RType),
    /// An instruction of the compressed (16-bit) encoding.
    Compressed(CompressedInstruction),
    /// A base-encoding word that is defined to be illegal. The compressed
    /// dispatchers report the all-zero word as `DecodingError::Illegal`.
    Illegal,
}

/// A decoded instruction of the compressed encoding.
#[derive(Clone, Copy, Debug, PartialEq, Eq, Hash, Structural)]
pub enum CompressedInstruction {
    CAddi4spn(CIWType),
    CLw(CLType),
    CSw(CSType),
    CAddi(CIType),
    CLi(CIType),
    CLui(CIType),
    CAddi16sp(CIType),
    CAndi(CBType),
    CSub(CAType),
    CXor(CAType),
    COr(CAType),
    CAnd(CAType),
    CSubw(CAType),
    CAddw(CAType),
    CJ(CJType),
    CBeqz(CBType),
    CBnez(CBType),
    CSlli(CIType),
    CLwsp(CIType),
    CSwsp(CSSType),
    CJr(CRType),
    CJalr(CRType),
    CMv(CRType),
    CAdd(CRType),
    CEbreak,
    CNop,
}

} // verus!
