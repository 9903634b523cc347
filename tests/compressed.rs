use riscv_decode::compressed::{c_insn, decode_q00, decode_q01, decode_q10};
use riscv_decode::instruction::CompressedInstruction::{
    CAdd, CAddi, CAddi16sp, CAddi4spn, CAddw, CAnd, CAndi, CBeqz, CBnez, CEbreak, CJalr, CJr, CLi,
    CLui, CLw, CLwsp, CMv, CNop, COr, CSub, CSubw, CSw, CSwsp, CXor, CJ,
};
use riscv_decode::types::{CAType, CBType, CIType, CIWType, CJType, CLType, CRType, CSSType, CSType};
use riscv_decode::DecodingError;

#[test]
fn compressed() {
    assert_eq!(decode_q01(0x7179), c_insn(CAddi16sp(CIType(0x7179)))); // addi sp,sp,-48
    assert_eq!(decode_q10(0x892a), c_insn(CMv(CRType(0x892a)))); // mv s2,a0
    assert_eq!(decode_q01(0x4585), c_insn(CLi(CIType(0x4585)))); // li a1,1
    assert_eq!(decode_q10(0x8082), c_insn(CJr(CRType(0x8082)))); // ret
}

#[test]
fn all_zero_word_is_illegal() {
    assert_eq!(decode_q00(0x0000), Err(DecodingError::Illegal));
}

#[test]
fn every_word_decodes_in_every_quadrant() {
    for w in 0..=u16::MAX {
        let a = decode_q00(w);
        let b = decode_q01(w);
        let c = decode_q10(w);
        assert!(a.is_ok() || a.is_err());
        assert!(b != Err(DecodingError::Illegal));
        assert!(c != Err(DecodingError::Illegal));
        if w != 0 {
            assert!(a != Err(DecodingError::Illegal));
        }
    }
}

#[test]
fn quadrant00_reserved_block() {
    for low in 0..0x2000u16 {
        assert_eq!(decode_q00(0x8000 | low), Err(DecodingError::Reserved));
    }
}

#[test]
fn quadrant01_stack_pointer_selects_addi16sp() {
    for rd in 0..32u16 {
        let w = 0x6001 | (rd << 7) | 0x1000 | 0x7c;
        let expected = if rd == 2 {
            c_insn(CAddi16sp(CIType(w)))
        } else {
            c_insn(CLui(CIType(w)))
        };
        assert_eq!(decode_q01(w), expected);
    }
}

#[test]
fn decoding_twice_gives_equal_outcomes() {
    for w in (0..=u16::MAX).step_by(7) {
        assert_eq!(decode_q00(w), decode_q00(w));
        assert_eq!(decode_q01(w), decode_q01(w));
        assert_eq!(decode_q10(w), decode_q10(w));
    }
}

#[test]
fn register_pair_fields_at_boundaries() {
    for rd in [0u16, 15, 31] {
        for rs2 in [0u16, 15, 31] {
            let v = CRType(0x8002 | (rd << 7) | (rs2 << 2));
            assert_eq!(v.rd(), rd as u32);
            assert_eq!(v.rs1(), rd as u32);
            assert_eq!(v.rs2(), rs2 as u32);
        }
    }
}

#[test]
fn compressed_register_fields_at_boundaries() {
    for rs1 in [0u16, 3, 7] {
        for rs2 in [0u16, 3, 7] {
            let v = CAType(0x8c01 | (rs1 << 7) | (rs2 << 2));
            assert_eq!(v.rd(), rs1 as u32 + 8);
            assert_eq!(v.rs2(), rs2 as u32 + 8);
        }
    }
}

#[test]
fn quadrant00_loads_and_stores() {
    // addi s0,sp,16
    assert_eq!(decode_q00(0x0800), c_insn(CAddi4spn(CIWType(0x0800))));
    assert_eq!(CIWType(0x0800).rd(), 8);
    assert_eq!(CIWType(0x0800).imm(), 16);
    assert_eq!(CIWType(0x1fe0).imm(), 1020);
    // lw a2,64(a5)
    assert_eq!(decode_q00(0x43b0), c_insn(CLw(CLType(0x43b0))));
    assert_eq!(CLType(0x43b0).rd(), 12);
    assert_eq!(CLType(0x43b0).rs1(), 15);
    assert_eq!(CLType(0x43b0).imm(), 64);
    // lw a0,0(a1)
    assert_eq!(CLType(0x4188).rd(), 10);
    assert_eq!(CLType(0x4188).rs1(), 11);
    assert_eq!(CLType(0x4188).imm(), 0);
    // sw a2,64(a5)
    assert_eq!(decode_q00(0xc3b0), c_insn(CSw(CSType(0xc3b0))));
    assert_eq!(CSType(0xc3b0).rs1(), 15);
    assert_eq!(CSType(0xc3b0).rs2(), 12);
    assert_eq!(CSType(0xc3b0).imm(), 64);
    assert_eq!(CSType(0xdc60).imm(), 124);
}

#[test]
fn quadrant00_unimplemented_forms() {
    for w in [0x2000u16, 0x6000, 0xa000, 0xe000] {
        assert_eq!(decode_q00(w | 0x0104), Err(DecodingError::Unimplemented));
    }
}

#[test]
fn quadrant01_immediate_forms() {
    assert_eq!(decode_q01(0x0001), c_insn(CNop));
    // addi a0,a0,-1
    assert_eq!(decode_q01(0x157d), c_insn(CAddi(CIType(0x157d))));
    assert_eq!(CIType(0x157d).rd(), 10);
    assert_eq!(CIType(0x157d).imm(), -1);
    // li a1,1
    assert_eq!(CIType(0x4585).rd(), 11);
    assert_eq!(CIType(0x4585).imm(), 1);
    // lui a0,1 and lui a0,0xfffff
    assert_eq!(decode_q01(0x6505), c_insn(CLui(CIType(0x6505))));
    assert_eq!(CIType(0x6505).lui_imm(), 4096);
    assert_eq!(CIType(0x757d).lui_imm(), -4096);
    // addi sp,sp,-48
    assert_eq!(CIType(0x7179).rd(), 2);
    assert_eq!(CIType(0x7179).addi16sp_imm(), -48);
    assert_eq!(CIType(0x6141).addi16sp_imm(), 16);
    assert_eq!(CIType(0x6105).addi16sp_imm(), 32);
}

#[test]
fn quadrant01_arithmetic_forms() {
    // andi a0,a0,-1
    assert_eq!(decode_q01(0x997d), c_insn(CAndi(CBType(0x997d))));
    assert_eq!(CBType(0x997d).rs1(), 10);
    assert_eq!(CBType(0x997d).imm(), -1);
    // sub, xor, or, and, subw, addw a0,a0,a1
    assert_eq!(decode_q01(0x8d0d), c_insn(CSub(CAType(0x8d0d))));
    assert_eq!(decode_q01(0x8d2d), c_insn(CXor(CAType(0x8d2d))));
    assert_eq!(decode_q01(0x8d4d), c_insn(COr(CAType(0x8d4d))));
    assert_eq!(decode_q01(0x8d6d), c_insn(CAnd(CAType(0x8d6d))));
    assert_eq!(decode_q01(0x9d0d), c_insn(CSubw(CAType(0x9d0d))));
    assert_eq!(decode_q01(0x9d2d), c_insn(CAddw(CAType(0x9d2d))));
    assert_eq!(CAType(0x8d0d).rd(), 10);
    assert_eq!(CAType(0x8d0d).rs2(), 11);
    assert_eq!(decode_q01(0x9d4d), Err(DecodingError::Reserved));
    assert_eq!(decode_q01(0x9d6d), Err(DecodingError::Reserved));
    // srli, srai, jal
    assert_eq!(decode_q01(0x8105), Err(DecodingError::Unimplemented));
    assert_eq!(decode_q01(0x8505), Err(DecodingError::Unimplemented));
    assert_eq!(decode_q01(0x2001), Err(DecodingError::Unimplemented));
}

#[test]
fn quadrant01_jumps_and_branches() {
    assert_eq!(decode_q01(0xa001), c_insn(CJ(CJType(0xa001))));
    assert_eq!(CJType(0xa001).offset(), 0);
    assert_eq!(CJType(0xbffd).offset(), -2);
    assert_eq!(CJType(0xa009).offset(), 2);
    assert_eq!(CJType(0xa801).offset(), 16);
    assert_eq!(CJType(0xa005).offset(), 32);
    assert_eq!(CJType(0xa101).offset(), 1024);
    assert_eq!(CJType(0xb001).offset(), -2048);
    // beqz a0,8
    assert_eq!(decode_q01(0xc501), c_insn(CBeqz(CBType(0xc501))));
    assert_eq!(CBType(0xc501).rs1(), 10);
    assert_eq!(CBType(0xc501).offset(), 8);
    // bnez a5,-2
    assert_eq!(decode_q01(0xfffd), c_insn(CBnez(CBType(0xfffd))));
    assert_eq!(CBType(0xfffd).rs1(), 15);
    assert_eq!(CBType(0xfffd).offset(), -2);
    assert_eq!(CBType(0xd001).offset(), -256);
}

#[test]
fn quadrant10_forms() {
    // lw ra,12(sp)
    assert_eq!(decode_q10(0x40b2), c_insn(CLwsp(CIType(0x40b2))));
    assert_eq!(CIType(0x40b2).rd(), 1);
    assert_eq!(CIType(0x40b2).lwsp_imm(), 12);
    assert_eq!(CIType(0x400e).lwsp_imm(), 192);
    // sw ra,12(sp)
    assert_eq!(decode_q10(0xc606), c_insn(CSwsp(CSSType(0xc606))));
    assert_eq!(CSSType(0xc606).rs2(), 1);
    assert_eq!(CSSType(0xc606).imm(), 12);
    assert_eq!(CSSType(0xc186).imm(), 192);
    // mv s2,a0
    assert_eq!(CRType(0x892a).rd(), 18);
    assert_eq!(CRType(0x892a).rs2(), 10);
    // ret
    assert_eq!(CRType(0x8082).rs1(), 1);
    assert_eq!(CRType(0x8082).rs2(), 0);
    assert_eq!(decode_q10(0x9002), c_insn(CEbreak));
    assert_eq!(decode_q10(0x9082), c_insn(CJalr(CRType(0x9082))));
    assert_eq!(decode_q10(0x952e), c_insn(CAdd(CRType(0x952e))));
    // slli a0,a0,2
    assert_eq!(decode_q10(0x050a), Err(DecodingError::Unimplemented));
    assert_eq!(decode_q10(0x2002), Err(DecodingError::Unimplemented));
    assert_eq!(decode_q10(0xe002), Err(DecodingError::Unimplemented));
}
