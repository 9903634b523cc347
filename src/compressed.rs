//! The three dispatchers of the compressed encoding, one per quadrant (the
//! two low bits of a 16-bit word: `00`, `01` and `10`). Each reads a word
//! already known to lie in its quadrant; none checks the quadrant bits.

use crate::instruction::{CompressedInstruction, Instruction};
use crate::types::{field, CAType, CBType, CIType, CIWType, CJType, CLType, CRType, CSSType, CSType};
use crate::{DecodingError, DecodingResult};
use vstd::arithmetic::power2::lemma2_to64;
use vstd::prelude::*;

verus! {

type CInsn = CompressedInstruction;

/// A successful outcome holding the compressed instruction `i`.
pub open spec fn decoded(i: CInsn) -> DecodingResult {
    Ok(Instruction::Compressed(i))
}

/// The outcome of decoding `w` in quadrant 00, selected on bits 15..13.
pub open spec fn q00_outcome(w: u16) -> DecodingResult {
    let op = field(w, 13, 3);
    if op == 0 {
        if w == 0 {
            Err(DecodingError::Illegal)
        } else {
            decoded(CInsn::CAddi4spn(CIWType(w)))
        }
    } else if op == 2 {
        decoded(CInsn::CLw(CLType(w)))
    } else if op == 4 {
        Err(DecodingError::Reserved)
    } else if op == 6 {
        decoded(CInsn::CSw(CSType(w)))
    } else {
        Err(DecodingError::Unimplemented)
    }
}

/// The outcome of the register-register arithmetic group of quadrant 01,
/// selected on bit 12 and bits 6..5.
pub open spec fn q01_arith_outcome(w: u16) -> DecodingResult {
    let sel = field(w, 12, 1) * 4 + field(w, 5, 2);
    if sel == 0 {
        decoded(CInsn::CSub(CAType(w)))
    } else if sel == 1 {
        decoded(CInsn::CXor(CAType(w)))
    } else if sel == 2 {
        decoded(CInsn::COr(CAType(w)))
    } else if sel == 3 {
        decoded(CInsn::CAnd(CAType(w)))
    } else if sel == 4 {
        decoded(CInsn::CSubw(CAType(w)))
    } else if sel == 5 {
        decoded(CInsn::CAddw(CAType(w)))
    } else {
        Err(DecodingError::Reserved)
    }
}

/// The outcome of decoding `w` in quadrant 01, selected on bits 15..13.
pub open spec fn q01_outcome(w: u16) -> DecodingResult {
    let op = field(w, 13, 3);
    let rd = field(w, 7, 5);
    if op == 0 {
        if rd == 0 {
            decoded(CInsn::CNop)
        } else {
            decoded(CInsn::CAddi(CIType(w)))
        }
    } else if op == 1 {
        Err(DecodingError::Unimplemented)
    } else if op == 2 {
        decoded(CInsn::CLi(CIType(w)))
    } else if op == 3 {
        if rd == 2 {
            decoded(CInsn::CAddi16sp(CIType(w)))
        } else {
            decoded(CInsn::CLui(CIType(w)))
        }
    } else if op == 4 {
        let f = field(w, 10, 2);
        if f == 2 {
            decoded(CInsn::CAndi(CBType(w)))
        } else if f == 3 {
            q01_arith_outcome(w)
        } else {
            Err(DecodingError::Unimplemented)
        }
    } else if op == 5 {
        decoded(CInsn::CJ(CJType(w)))
    } else if op == 6 {
        decoded(CInsn::CBeqz(CBType(w)))
    } else {
        decoded(CInsn::CBnez(CBType(w)))
    }
}

/// The outcome of decoding `w` in quadrant 10, selected on bits 15..13.
pub open spec fn q10_outcome(w: u16) -> DecodingResult {
    let op = field(w, 13, 3);
    let zero_rd = field(w, 7, 5) == 0;
    let zero_rs2 = field(w, 2, 5) == 0;
    if op == 2 {
        decoded(CInsn::CLwsp(CIType(w)))
    } else if op == 4 {
        if field(w, 12, 1) == 0 {
            if zero_rs2 {
                decoded(CInsn::CJr(CRType(w)))
            } else {
                decoded(CInsn::CMv(CRType(w)))
            }
        } else if zero_rs2 {
            if zero_rd {
                decoded(CInsn::CEbreak)
            } else {
                decoded(CInsn::CJalr(CRType(w)))
            }
        } else {
            decoded(CInsn::CAdd(CRType(w)))
        }
    } else if op == 6 {
        decoded(CInsn::CSwsp(CSSType(w)))
    } else {
        Err(DecodingError::Unimplemented)
    }
}

/// Wraps a compressed instruction as a successful outcome.
pub fn c_insn(i: CInsn) -> (r: DecodingResult)
    ensures
        r == decoded(i),
{
    Ok(Instruction::Compressed(i))
}

/// The outcome for an encoding that this decoder does not resolve.
fn unimpl() -> (r: DecodingResult)
    ensures
        r == Err::<Instruction, DecodingError>(DecodingError::Unimplemented),
{
    Err(DecodingError::Unimplemented)
}

/// Decodes a word of quadrant 00.
pub fn decode_q00(i: u16) -> (r: DecodingResult)
    ensures
        r == q00_outcome(i),
{
    proof {
        lemma2_to64();
        assert(i >> 13u16 == (i / 8192) % 8) by (bit_vector);
    }
    match i >> 13 {
        0b000 => {
            if i == 0 {
                Err(DecodingError::Illegal)
            } else {
                c_insn(CInsn::CAddi4spn(CIWType(i)))  // C.ADDI4SPN
            }
        },
        0b001 => unimpl(),  // C.FLD / C.LQ
        0b010 => c_insn(CInsn::CLw(CLType(i))),  // C.LW
        0b011 => unimpl(),  // C.FLW / C.LD
        0b100 => Err(DecodingError::Reserved),
        0b101 => unimpl(),  // C.FSD / C.SQ
        0b110 => c_insn(CInsn::CSw(CSType(i))),  // C.SW
        _ => unimpl(),  // C.FSW / C.SD
    }
}

/// Decodes a word of quadrant 01.
pub fn decode_q01(i: u16) -> (r: DecodingResult)
    ensures
        r == q01_outcome(i),
{
    proof {
        lemma2_to64();
        assert(i >> 13u16 == (i / 8192) % 8) by (bit_vector);
        assert((i >> 7u16) & 0x1f == (i / 128) % 32) by (bit_vector);
        assert((i >> 10u16) & 0b11 == (i / 1024) % 4) by (bit_vector);
        assert(((i >> 10u16) & 0b100) | ((i >> 5u16) & 0b11) == ((i / 4096) % 2) * 4 + (i / 32) % 4)
            by (bit_vector);
    }
    match i >> 13 {
        0b000 => {
            let rd = (i >> 7) & 0x1f;
            match rd {
                0u16 => c_insn(CInsn::CNop),  // C.NOP
                _ => c_insn(CInsn::CAddi(CIType(i))),  // C.ADDI
            }
        },
        0b001 => unimpl(),  // C.JAL / C.ADDIW
        0b010 => c_insn(CInsn::CLi(CIType(i))),  // C.LI
        0b011 => {
            let rd = (i >> 7) & 0x1f;
            match rd {
                2u16 => c_insn(CInsn::CAddi16sp(CIType(i))),  // C.ADDI16SP
                _ => c_insn(CInsn::CLui(CIType(i))),  // C.LUI
            }
        },
        0b100 => {
            // misc ALU
            let f1 = (i >> 10) & 0b11;  // [11:10]
            match f1 {
                0b00 => unimpl(),  // C.SRLI / C.SRLI64
                0b01 => unimpl(),  // C.SRAI / C.SRAI64
                0b10 => c_insn(CInsn::CAndi(CBType(i))),  // C.ANDI
                _ => {
                    let f2 = ((i >> 10) & 0b100) | ((i >> 5) & 0b11);  // [12] # [6:5]
                    match f2 {
                        0b000 => c_insn(CInsn::CSub(CAType(i))),  // C.SUB
                        0b001 => c_insn(CInsn::CXor(CAType(i))),  // C.XOR
                        0b010 => c_insn(CInsn::COr(CAType(i))),  // C.OR
                        0b011 => c_insn(CInsn::CAnd(CAType(i))),  // C.AND
                        0b100 => c_insn(CInsn::CSubw(CAType(i))),  // C.SUBW
                        0b101 => c_insn(CInsn::CAddw(CAType(i))),  // C.ADDW
                        _ => Err(DecodingError::Reserved),
                    }
                },
            }
        },
        0b101 => c_insn(CInsn::CJ(CJType(i))),  // C.J
        0b110 => c_insn(CInsn::CBeqz(CBType(i))),  // C.BEQZ
        _ => c_insn(CInsn::CBnez(CBType(i))),  // C.BNEZ
    }
}

/// Decodes a word of quadrant 10.
pub fn decode_q10(i: u16) -> (r: DecodingResult)
    ensures
        r == q10_outcome(i),
{
    proof {
        lemma2_to64();
        assert(i >> 13u16 == (i / 8192) % 8) by (bit_vector);
        assert((i >> 7u16) & 0x1f == (i / 128) % 32) by (bit_vector);
        assert((i >> 2u16) & 0x1f == (i / 4) % 32) by (bit_vector);
        assert((i >> 12u16) & 1 == (i / 4096) % 2) by (bit_vector);
    }
    match i >> 13 {
        0b000 => unimpl(),  // C.SLLI / C.SLLI64
        0b001 => unimpl(),  // C.FLDSP / C.LQSP
        0b010 => c_insn(CInsn::CLwsp(CIType(i))),  // C.LWSP
        0b011 => unimpl(),  // C.FLWSP / C.LDSP
        0b100 => {
            let zero_rd = ((i >> 7) & 0x1f) == 0u16;  // rd/rs1
            let zero_rs2 = ((i >> 2) & 0x1f) == 0u16;
            match (i >> 12) & 1 {
                0u16 => {
                    if zero_rs2 {
                        c_insn(CInsn::CJr(CRType(i)))  // C.JR
                    } else {
                        c_insn(CInsn::CMv(CRType(i)))  // C.MV
                    }
                },
                _ => {
                    if zero_rs2 {
                        if zero_rd {
                            c_insn(CInsn::CEbreak)  // C.EBREAK
                        } else {
                            c_insn(CInsn::CJalr(CRType(i)))  // C.JALR
                        }
                    } else {
                        c_insn(CInsn::CAdd(CRType(i)))  // C.ADD
                    }
                },
            }
        },
        0b101 => unimpl(),  // C.FSDSP / C.SQSP
        0b110 => c_insn(CInsn::CSwsp(CSSType(i))),  // C.SWSP
        _ => unimpl(),  // C.FSWSP / C.SDSP
    }
}

/// In quadrant 00, every word whose bits 15..13 are `100` is reserved,
/// whatever its remaining 13 bits (`low`) hold.
pub proof fn lemma_q00_reserved_block(low: u16)
    requires
        low < 0x2000,
    ensures
        q00_outcome((0x8000 + low) as u16) == Err::<Instruction, DecodingError>(
            DecodingError::Reserved,
        ),
{
    let w = (0x8000 + low) as u16;
    lemma2_to64();
    assert((w / 8192) % 8 == 4) by (bit_vector)
        requires
            w == (0x8000 + low) as u16,
            low < 0x2000,
    ;
}

/// In quadrant 01 with bits 15..13 equal to `011`, a destination field of 2
/// (the stack pointer) always selects the stack adjustment C.ADDI16SP, and
/// every other destination selects C.LUI.
pub proof fn lemma_q01_stack_pointer_selects(w: u16)
    requires
        field(w, 13, 3) == 3,
    ensures
        field(w, 7, 5) == 2 ==> q01_outcome(w) == decoded(CInsn::CAddi16sp(CIType(w))),
        field(w, 7, 5) != 2 ==> q01_outcome(w) == decoded(CInsn::CLui(CIType(w))),
{
}

/// Decoding depends on the word alone: equal words give equal outcomes, in
/// each quadrant.
pub proof fn lemma_decoding_deterministic(a: u16, b: u16)
    requires
        a == b,
    ensures
        q00_outcome(a) == q00_outcome(b),
        q01_outcome(a) == q01_outcome(b),
        q10_outcome(a) == q10_outcome(b),
{
}

} // verus!
