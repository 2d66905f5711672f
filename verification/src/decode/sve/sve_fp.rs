use vstd::prelude::*;
use crate::bits::{bit, bits, field, low_mask};
use crate::code::{code_mnemonic, Code, Mnemonic};
use crate::decode::{decode_post, insn, install2, install2_as, install3, install4, install5, installed, mnemonic_of, pushed, yields};
use crate::features::{Feature, FeatureSet};
use crate::instruction::{Instruction, MAX_OPERANDS};
use crate::operand::{FpConst, Operand};
use crate::decode::ops::{reg_op, arr, arr_spec, preg, preg_q, preg_q_spec, preg_spec, preg_sz, preg_sz_spec, scalar_fp_spec, va_neon, va_neon_spec, vreg, vreg_spec, zreg, zreg_idx, zreg_idx_spec, zreg_spec};
use crate::fpimm::{fp_const, fp_expand_imm8, fp_imm8_spec};
use crate::types::{reg_of, RegKind, gp_register, ExtendType, PredQual, RegWidth, Register, SveMemMode, VectorArrangement as VA};
verus! {
// ---------------------------------------------------------------------------
// Small operand constructors.
// ---------------------------------------------------------------------------


/// The scalar SIMD `H/S/D` operand of the element width for `size` (`.b`
/// sizes read as `H`).
pub open spec fn scalar_fp_hsd_spec(n: u32, size: u32) -> Operand {
    reg_op(
        reg_of(if size & 3 == 0 || size & 3 == 1 { RegKind::H } else if size & 3 == 2 { RegKind::S } else { RegKind::D }, n, 0x1f),
        None,
        None,
        None,
    )
}

/// A scalar SIMD `B/H/S/D` operand of the element width for `size`.
fn scalar_fp_hsd(n: u32, size: u32) -> (r: Operand)
    ensures
        r == scalar_fp_hsd_spec(n, size),
{
    let reg = match size & 3 {
        0 => Register::h(n),
        1 => Register::h(n),
        2 => Register::s(n),
        _ => Register::d(n),
    };
    Operand::Reg { reg, arr: None, lane: None, pred: None }
}

/// `Zd.<T>, Zn.<T>, Zm.<T>` with one arrangement.
pub open spec fn zzz_same(zd: u32, zn: u32, zm: u32, a: VA) -> Seq<Operand> {
    seq![zreg_spec(zd, a), zreg_spec(zn, a), zreg_spec(zm, a)]
}

/// `Zd.<T>, Pg/<q>, Zn.<T>` with one arrangement.
pub open spec fn zpz(zd: u32, pg: u32, zn: u32, a: VA, q: PredQual) -> Seq<Operand> {
    seq![zreg_spec(zd, a), preg_q_spec(pg, q), zreg_spec(zn, a)]
}

/// `Zdn.<T>, Pg/M, Zdn.<T>, Zm.<T>`, the predicated destructive binary.
pub open spec fn zpzz(zdn: u32, pg: u32, zm: u32, a: VA) -> Seq<Operand> {
    seq![zreg_spec(zdn, a), preg_q_spec(pg, PredQual::Merging), zreg_spec(zdn, a), zreg_spec(zm, a)]
}

/// The FP immediate `#<mant>.<scale>` constant.
pub open spec fn fp_imm(mant: u8, scale: u8) -> Operand {
    Operand::FpImm(FpConst { neg: false, mant, scale })
}


// ---------------------------------------------------------------------------
// Entry point.
// ---------------------------------------------------------------------------

/// The instruction an SVE floating-point word (top byte `0x64` / `0x65`)
/// encodes under `features`, or `None`.
pub open spec fn fp_form(word: u32, features: FeatureSet) -> Option<(Code, Mnemonic, Seq<Operand>)> {
    let top = field(word, 24, 8);
    if !features.contains(Feature::Sve) {
        None
    } else if top == 0x64 {
        top64_form(word, features)
    } else if top == 0x65 {
        top65_form(word)
    } else {
        None
    }
}

/// A floating-point word the specification describes lies in the `011`
/// quadrant of the SVE group.
pub proof fn lemma_fp_form(word: u32, features: FeatureSet)
    ensures
        fp_form(word, features) is Some ==> field(word, 29, 3) == 0b011 && field(word, 25, 4) == 0b0010,
{
    assert(((word >> 24u32) & low_mask(8)) == 0x64 || ((word >> 24u32) & low_mask(8)) == 0x65 ==> ((word
        >> 29u32) & low_mask(3)) == 0b011 && ((word >> 25u32) & low_mask(4)) == 0b0010) by (bit_vector)
        requires
            low_mask(8) == 0xff,
            low_mask(3) == 0x7,
            low_mask(4) == 0xf,
    ;
}

/// Decode an SVE/SVE2 floating-point instruction (`word<31:29> == 011`, top
/// bytes `0x64`/`0x65`/`0x66`/`0x67`) into `out`.
///
/// Called from [`super::decode`]. Total and panic-free; leaves `out` invalid for
/// unallocated encodings.
pub fn decode(word: u32, ip: u64, features: FeatureSet, out: &mut Instruction)
    requires
        features.contains(Feature::Sve) ==> old(out).is_blank(),
    ensures
        features.contains(Feature::Sve) ==> decode_post(*old(out), *final(out)),
        !features.contains(Feature::Sve) ==> *final(out) == *old(out),
        yields(*old(out), *final(out), fp_form(word, features)),
{
    let _ = ip;
    if !features.has(Feature::Sve) {
        return;
    }
    let top: u32 = bits(word, 24, 8);
    if top == 0x64 {
        decode_64(word, features, out);
    } else if top == 0x65 {
        decode_65(word, features, out);
    }
    // 0x66 / 0x67 are SVE memory in the 011-quadrant overlap; not FP. Leave
    // invalid (the SVE FP space is entirely within 0x64/0x65).
}

// ===========================================================================
// Top byte 0x65 — the bulk of SVE FP (arithmetic / convert / compare / etc).
// ===========================================================================

/// The instruction a top-byte `0x65` word encodes, or `None`.
pub open spec fn top65_form(word: u32) -> Option<(Code, Mnemonic, Seq<Operand>)> {
    let sel = field(word, 13, 3);
    if field(word, 21, 1) == 0 {
        if sel == 0b000 {
            unpred_arith_form(word)
        } else if sel == 0b001 {
            unary_misc_form(word)
        } else if sel == 0b100 {
            pred_binary_form(word)
        } else if sel == 0b101 {
            pred_unary_form(word)
        } else {
            compare_form(word)
        }
    } else {
        fma_form(word)
    }
}

fn decode_65(word: u32, features: FeatureSet, out: &mut Instruction)
    requires
        old(out).is_blank(),
    ensures
        decode_post(*old(out), *final(out)),
        yields(*old(out), *final(out), top65_form(word)),
{
    let sel: u32 = bits(word, 13, 3); // word<15:13>
    if bit(word, 21) == 0 {
        // <21>=0: the unpredicated 3-source / 2-source family lives here when
        // <15:13>==0xx, otherwise predicated unary/binary/compare.
        if sel == 0b000 {
            decode_65_unpred_arith(word, out);
        } else if sel == 0b001 {
            decode_65_unary_misc(word, out);
        } else if sel == 0b100 {
            decode_65_pred_binary(word, out);
        } else if sel == 0b101 {
            decode_65_pred_unary(word, out);
        } else {
            decode_65_compare(word, out);
        }
    } else {
        // <21>=1: FP multiply-add (4-operand predicated).
        decode_65_fma(word, out);
    }
    let _ = features;
}

/// The code of an unpredicated FP arithmetic `opc` (`<12:10>`), or `None`.
pub open spec fn unpred_arith_code(opc: u32) -> Option<Code> {
    match opc {
        0b000 => Some(Code::SveFaddZzz),
        0b001 => Some(Code::SveFsubZzz),
        0b010 => Some(Code::SveFmulZzz),
        0b011 => Some(Code::SveFtsmulZzz),
        0b110 => Some(Code::SveFrecpsZzz),
        0b111 => Some(Code::SveFrsqrtsZzz),
        _ => None,
    }
}

/// The instruction an unpredicated FP arithmetic word encodes, or `None`.
pub open spec fn unpred_arith_form(word: u32) -> Option<(Code, Mnemonic, Seq<Operand>)> {
    let size = field(word, 22, 2);
    match unpred_arith_code(field(word, 10, 3)) {
        Some(c) => if size == 0 {
            None
        } else {
            insn(c, zzz_same(field(word, 0, 5), field(word, 5, 5), field(word, 16, 5), arr_spec(size)))
        },
        None => None,
    }
}

/// Unpredicated FP 3-register and 2-register (`<21>=0`, `<15:13>=000`):
/// `FADD`/`FSUB`/`FMUL`/`FTSMUL`/`FRECPS`/`FRSQRTS` `<Zd>.<T>, <Zn>.<T>, <Zm>.<T>`.
/// The op is in `word<12:10>` (the low `opc` of the `..._z_zz_` rows).
fn decode_65_unpred_arith(word: u32, out: &mut Instruction)
    requires
        old(out).is_blank(),
    ensures
        decode_post(*old(out), *final(out)),
        yields(*old(out), *final(out), unpred_arith_form(word)),
{
    let size: u32 = bits(word, 22, 2);
    if size == 0 {
        return; // FP needs H/S/D.
    }
    let a = arr(size);
    let code = match bits(word, 10, 3) {
        0b000 => Code::SveFaddZzz,
        0b001 => Code::SveFsubZzz,
        0b010 => Code::SveFmulZzz,
        0b011 => Code::SveFtsmulZzz,
        0b110 => Code::SveFrecpsZzz,
        0b111 => Code::SveFrsqrtsZzz,
        _ => return,
    };
    install3(out, code, mnemonic_of(code), zreg(bits(word, 0, 5), a), zreg(bits(word, 5, 5), a), zreg(bits(word, 16, 5), a));
}

/// The FP compare-with-zero code of `op` (`<18:16>`) and `<4>`, or `None`.
pub open spec fn fcm_zero_code(op: u32, b4: u32) -> Option<Code> {
    match (op, b4) {
        (0b000, 0) => Some(Code::SveFcmgeZ0),
        (0b000, 1) => Some(Code::SveFcmgtZ0),
        (0b001, 0) => Some(Code::SveFcmltZ0),
        (0b001, 1) => Some(Code::SveFcmleZ0),
        (0b010, 0) => Some(Code::SveFcmeqZ0),
        (0b011, 0) => Some(Code::SveFcmneZ0),
        _ => None,
    }
}

/// The FP recursive-reduction code of `<18:16>`, or `None`.
pub open spec fn fp_reduction_code(op: u32) -> Option<Code> {
    match op {
        0b000 => Some(Code::SveFaddv),
        0b100 => Some(Code::SveFmaxnmv),
        0b101 => Some(Code::SveFminnmv),
        0b110 => Some(Code::SveFmaxv),
        0b111 => Some(Code::SveFminv),
        _ => None,
    }
}

/// The instruction an FP compare-with-zero / estimate / reduction word
/// (`<21>=0`, `<15:13>=001`) encodes, or `None`.
pub open spec fn unary_misc_form(word: u32) -> Option<(Code, Mnemonic, Seq<Operand>)> {
    let size = field(word, 22, 2);
    let a = arr_spec(size);
    let opc = field(word, 16, 5);
    let pg = field(word, 10, 3);
    let zn = field(word, 5, 5);
    let rd = field(word, 0, 5);
    if size == 0 {
        None
    } else if field(word, 20, 1) == 1 && field(word, 19, 1) == 0 {
        match fcm_zero_code(field(word, 16, 3), field(word, 4, 1)) {
            Some(c) => insn(
                c,
                seq![preg_sz_spec(field(word, 0, 4), a), preg_q_spec(pg, PredQual::Zeroing), zreg_spec(zn, a), fp_imm(0, 0)],
            ),
            None => None,
        }
    } else if field(word, 10, 6) == 0b001100 && (opc == 0b01110 || opc == 0b01111) {
        insn(if opc == 0b01110 { Code::SveFrecpe } else { Code::SveFrsqrte }, seq![zreg_spec(rd, a), zreg_spec(zn, a)])
    } else if field(word, 19, 2) == 0b00 {
        match fp_reduction_code(field(word, 16, 3)) {
            Some(c) => insn(c, seq![scalar_fp_hsd_spec(rd, size), preg_spec(pg), zreg_spec(zn, a)]),
            None => None,
        }
    } else if opc == 0b11000 {
        insn(Code::SveFadda, seq![scalar_fp_hsd_spec(rd, size), preg_spec(pg), scalar_fp_hsd_spec(rd, size), zreg_spec(zn, a)])
    } else {
        None
    }
}

/// Unpredicated FP unary / reduction (`<21>=0`, `<15:13>=001`), plus the FP
/// compare-with-zero forms that share this slot.
///
/// This slot is shared by:
/// * the FP compare-with-zero `FCM{GE,GT,LT,LE,EQ,NE}` (`<20>=1`, result
///   `<Pd>.<T>`);
/// * the FP reductions `FADDV`/`FMAXNMV`/`FMINNMV`/`FMAXV`/`FMINV` (`<20:19>=00`,
///   `<12:10>=000`) and the strictly-ordered `FADDA` (`<20:16>=11000`);
/// * `FRECPE`/`FRSQRTE` (`<20:16>=01110/01111`, `<12:10>=100`).
fn decode_65_unary_misc(word: u32, out: &mut Instruction)
    requires
        old(out).is_blank(),
    ensures
        decode_post(*old(out), *final(out)),
        yields(*old(out), *final(out), unary_misc_form(word)),
{
    let size: u32 = bits(word, 22, 2);
    if size == 0 {
        return;
    }
    let opc: u32 = bits(word, 16, 5); // word<20:16>
    let pg: u32 = bits(word, 10, 3);
    let zn: u32 = bits(word, 5, 5);
    let rd: u32 = bits(word, 0, 5);
    let a = arr(size);

    // FP compare-with-zero: 01100101 size 01 0 ooo 001 Pg Zn b4 Pd, i.e. <20>=1,
    // <19>=0, <18:16>=op, with the predicate result in <3:0>.
    if bit(word, 20) == 1 && bit(word, 19) == 0 {
        let code = match (bits(word, 16, 3), bit(word, 4)) {
            (0b000, 0) => Code::SveFcmgeZ0,
            (0b000, 1) => Code::SveFcmgtZ0,
            (0b001, 0) => Code::SveFcmltZ0,
            (0b001, 1) => Code::SveFcmleZ0,
            (0b010, 0) => Code::SveFcmeqZ0,
            (0b011, 0) => Code::SveFcmneZ0,
            _ => return,
        };
        install4(out, code, mnemonic_of(code), preg_sz(bits(word, 0, 4), a), preg_q(pg, PredQual::Zeroing), zreg(zn, a), Operand::FpImm(fp_const(0, 0)));
        return;
    }

    // FRECPE / FRSQRTE: <20:16> = 0_1110 / 0_1111 with <12:10>=100 (unpredicated).
    if bits(word, 10, 6) == 0b001100 && (opc == 0b01110 || opc == 0b01111) {
        let code = if opc == 0b01110 { Code::SveFrecpe } else { Code::SveFrsqrte };
        install2(out, code, zreg(rd, a), zreg(zn, a));
        return;
    }

    // FP recursive reductions: 01100101 size 000 opc 001 Pg Zn Vd, with
    // <20:19>=00 (the `001` is <15:13>, this slot; <12:10> is Pg). The scalar
    // destination is the element-width SIMD reg; the source is the vector `Zn`.
    if bits(word, 19, 2) == 0b00 {
        let code = match bits(word, 16, 3) {
            0b000 => Code::SveFaddv,
            0b100 => Code::SveFmaxnmv,
            0b101 => Code::SveFminnmv,
            0b110 => Code::SveFmaxv,
            0b111 => Code::SveFminv,
            _ => return,
        };
        install3(out, code, mnemonic_of(code), scalar_fp_hsd(rd, size), preg(pg), zreg(zn, a));
        return;
    }

    // FADDA (strictly-ordered add reduction): 01100101 size 011000 001 Pg Zn Vdn,
    // with <20:16>=11000. `Vdn` is both operand 0 and 2.
    if opc == 0b11000 {
        install4(out, Code::SveFadda, mnemonic_of(Code::SveFadda), scalar_fp_hsd(rd, size), preg(pg), scalar_fp_hsd(rd, size), zreg(zn, a));
    }
}

/// The code and `#imm` (mantissa, scale) of a predicated FP immediate form
/// (`<18:16>`, `i1 = <5>`).
pub open spec fn fp_zpzi(opc3: u32, i1: u32) -> (Code, u8, u8) {
    let half_one: (u8, u8) = if i1 == 0 { (1, 1) } else { (1, 0) };
    let zero_one: (u8, u8) = if i1 == 0 { (0, 0) } else { (1, 0) };
    if opc3 == 0 {
        (Code::SveFaddZpzi, half_one.0, half_one.1)
    } else if opc3 == 1 {
        (Code::SveFsubZpzi, half_one.0, half_one.1)
    } else if opc3 == 2 {
        (Code::SveFmulZpzi, if i1 == 0 { 1 } else { 2 }, if i1 == 0 { 1 } else { 0 })
    } else if opc3 == 3 {
        (Code::SveFsubrZpzi, half_one.0, half_one.1)
    } else if opc3 == 4 {
        (Code::SveFmaxnmZpzi, zero_one.0, zero_one.1)
    } else if opc3 == 5 {
        (Code::SveFminnmZpzi, zero_one.0, zero_one.1)
    } else if opc3 == 6 {
        (Code::SveFmaxZpzi, zero_one.0, zero_one.1)
    } else {
        (Code::SveFminZpzi, zero_one.0, zero_one.1)
    }
}

fn fp_zpzi_of(opc3: u32, i1: u32) -> (r: (Code, u8, u8))
    ensures
        r == fp_zpzi(opc3, i1),
{
    let half_one: (u8, u8) = if i1 == 0 { (1, 1) } else { (1, 0) };
    let zero_one: (u8, u8) = if i1 == 0 { (0, 0) } else { (1, 0) };
    if opc3 == 0 {
        (Code::SveFaddZpzi, half_one.0, half_one.1)
    } else if opc3 == 1 {
        (Code::SveFsubZpzi, half_one.0, half_one.1)
    } else if opc3 == 2 {
        (Code::SveFmulZpzi, if i1 == 0 { 1 } else { 2 }, if i1 == 0 { 1 } else { 0 })
    } else if opc3 == 3 {
        (Code::SveFsubrZpzi, half_one.0, half_one.1)
    } else if opc3 == 4 {
        (Code::SveFmaxnmZpzi, zero_one.0, zero_one.1)
    } else if opc3 == 5 {
        (Code::SveFminnmZpzi, zero_one.0, zero_one.1)
    } else if opc3 == 6 {
        (Code::SveFmaxZpzi, zero_one.0, zero_one.1)
    } else {
        (Code::SveFminZpzi, zero_one.0, zero_one.1)
    }
}

/// The code of a predicated FP binary `opc` (`<20:16>`), or `None`.
pub open spec fn pred_binary_code(opc: u32) -> Option<Code> {
    match opc {
        0b00000 => Some(Code::SveFaddZpzz),
        0b00001 => Some(Code::SveFsubZpzz),
        0b00010 => Some(Code::SveFmulZpzz),
        0b00011 => Some(Code::SveFsubrZpzz),
        0b00100 => Some(Code::SveFmaxnmZpzz),
        0b00101 => Some(Code::SveFminnmZpzz),
        0b00110 => Some(Code::SveFmaxZpzz),
        0b00111 => Some(Code::SveFminZpzz),
        0b01000 => Some(Code::SveFabdZpzz),
        0b01001 => Some(Code::SveFscaleZpzz),
        0b01010 => Some(Code::SveFmulxZpzz),
        0b01100 => Some(Code::SveFdivrZpzz),
        0b01101 => Some(Code::SveFdivZpzz),
        _ => None,
    }
}

fn pred_binary_code_of(opc: u32) -> (r: Option<Code>)
    ensures
        r == pred_binary_code(opc),
{
    match opc {
        0b00000 => Some(Code::SveFaddZpzz),
        0b00001 => Some(Code::SveFsubZpzz),
        0b00010 => Some(Code::SveFmulZpzz),
        0b00011 => Some(Code::SveFsubrZpzz),
        0b00100 => Some(Code::SveFmaxnmZpzz),
        0b00101 => Some(Code::SveFminnmZpzz),
        0b00110 => Some(Code::SveFmaxZpzz),
        0b00111 => Some(Code::SveFminZpzz),
        0b01000 => Some(Code::SveFabdZpzz),
        0b01001 => Some(Code::SveFscaleZpzz),
        0b01010 => Some(Code::SveFmulxZpzz),
        0b01100 => Some(Code::SveFdivrZpzz),
        0b01101 => Some(Code::SveFdivZpzz),
        _ => None,
    }
}

/// The instruction a predicated FP binary word (`<21>=0`, `<15:13>=100`)
/// encodes, or `None`.
pub open spec fn pred_binary_form(word: u32) -> Option<(Code, Mnemonic, Seq<Operand>)> {
    let size = field(word, 22, 2);
    let a = arr_spec(size);
    let pg = field(word, 10, 3);
    let zm = field(word, 5, 5);
    let zdn = field(word, 0, 5);
    if size == 0 {
        None
    } else if field(word, 19, 2) == 0b11 {
        let t = fp_zpzi(field(word, 16, 3), field(word, 5, 1));
        insn(t.0, seq![zreg_spec(zdn, a), preg_q_spec(pg, PredQual::Merging), zreg_spec(zdn, a), fp_imm(t.1, t.2)])
    } else if field(word, 19, 2) == 0b10 && field(word, 10, 6) == 0b100000 {
        insn(Code::SveFtmad, seq![zreg_spec(zdn, a), zreg_spec(zdn, a), zreg_spec(zm, a), Operand::ImmUnsigned(field(word, 16, 3) as u64)])
    } else {
        match pred_binary_code(field(word, 16, 5)) {
            Some(c) => insn(c, zpzz(zdn, pg, zm, a)),
            None => None,
        }
    }
}

/// Predicated FP binary destructive (`<21>=0`, `<15:13>=100`):
/// `op <Zdn>.<T>, <Pg>/M, <Zdn>.<T>, <Zm>.<T>` and the immediate forms, plus the
/// SVE2 pairwise group. The op is selected by `word<20:16>`.
fn decode_65_pred_binary(word: u32, out: &mut Instruction)
    requires
        old(out).is_blank(),
    ensures
        decode_post(*old(out), *final(out)),
        yields(*old(out), *final(out), pred_binary_form(word)),
{
    let size: u32 = bits(word, 22, 2);
    if size == 0 {
        return;
    }
    let pg: u32 = bits(word, 10, 3);
    let zm: u32 = bits(word, 5, 5);
    let zdn: u32 = bits(word, 0, 5);
    let a = arr(size);

    // The <20:19>=11 sub-block is the FP "arithmetic with immediate" (FADD/FSUB/
    // FMUL/.. with #const). <18:16> selects which. The plain binary group uses
    // <20:19> in {00,01} (so `<20>=0` distinguishes the two destructive halves).
    if bits(word, 19, 2) == 0b11 {
        // immediate forms: 01100101 size 011 opc<2:0> 100 i1 0000 Zdn  (the i1
        // is word<5>, with the rest of the source field zero).
        let (code, mant, scale) = fp_zpzi_of(bits(word, 16, 3), bit(word, 5));
        install4(out, code, mnemonic_of(code), zreg(zdn, a), preg_q(pg, PredQual::Merging), zreg(zdn, a), Operand::FpImm(fp_const(mant, scale)));
        return;
    }

    // FTMAD: 01100101 size 010 imm3 100000 Zm Zdn (<20:19>=10, <15:10>=100000).
    // It shares this sel=100 slot with the plain binary group but is identified
    // by the fixed <15:10>=100000 tail and the trailing 3-bit immediate.
    if bits(word, 19, 2) == 0b10 && bits(word, 10, 6) == 0b100000 {
        let imm3: u32 = bits(word, 16, 3);
        install4(out, Code::SveFtmad, mnemonic_of(Code::SveFtmad), zreg(zdn, a), zreg(zdn, a), zreg(zm, a), Operand::ImmUnsigned(imm3 as u64));
        return;
    }

    // <19>=0, <20>=0: the plain predicated binary group.
    let Some(code) = pred_binary_code_of(bits(word, 16, 5)) else { return };
    install4(out, code, mnemonic_of(code), zreg(zdn, a), preg_q(pg, PredQual::Merging), zreg(zdn, a), zreg(zm, a));
}


/// The round-to-integral / FRECPX / FSQRT code of `opc` (`<20:16>`), or
/// `None` for the convert opcodes.
pub open spec fn fp_round_code(opc: u32) -> Option<Code> {
    match opc {
        0b00000 => Some(Code::SveFrintnZpz),
        0b00001 => Some(Code::SveFrintpZpz),
        0b00010 => Some(Code::SveFrintmZpz),
        0b00011 => Some(Code::SveFrintzZpz),
        0b00100 => Some(Code::SveFrintaZpz),
        0b00110 => Some(Code::SveFrintxZpz),
        0b00111 => Some(Code::SveFrintiZpz),
        0b01100 => Some(Code::SveFrecpxZpz),
        0b01101 => Some(Code::SveFsqrtZpz),
        _ => None,
    }
}

fn fp_round_code_of(opc: u32) -> (r: Option<Code>)
    ensures
        r == fp_round_code(opc),
{
    match opc {
        0b00000 => Some(Code::SveFrintnZpz),
        0b00001 => Some(Code::SveFrintpZpz),
        0b00010 => Some(Code::SveFrintmZpz),
        0b00011 => Some(Code::SveFrintzZpz),
        0b00100 => Some(Code::SveFrintaZpz),
        0b00110 => Some(Code::SveFrintxZpz),
        0b00111 => Some(Code::SveFrintiZpz),
        0b01100 => Some(Code::SveFrecpxZpz),
        0b01101 => Some(Code::SveFsqrtZpz),
        _ => None,
    }
}

/// The instruction a predicated FP unary word (`<21>=0`, `<15:13>=101`)
/// encodes, or `None`.
pub open spec fn pred_unary_form(word: u32) -> Option<(Code, Mnemonic, Seq<Operand>)> {
    let size = field(word, 22, 2);
    match fp_round_code(field(word, 16, 5)) {
        Some(c) => if size == 0 {
            None
        } else {
            insn(c, zpz(field(word, 0, 5), field(word, 10, 3), field(word, 5, 5), arr_spec(size), PredQual::Merging))
        },
        None => convert_form(word),
    }
}

/// Predicated FP unary (`<21>=0`, `<15:13>=101`):
/// `FRINT*`/`FRECPX`/`FSQRT`/`FCVT*`/`FCVTZ*`/`SCVTF`/`UCVTF`/`FLOGB`/`FNEG`/
/// `FABS`/`BFCVT`. Distinguished by `word<20:16>` (`opc`) and `<23:22>` (`size`).
fn decode_65_pred_unary(word: u32, out: &mut Instruction)
    requires
        old(out).is_blank(),
    ensures
        decode_post(*old(out), *final(out)),
        yields(*old(out), *final(out), pred_unary_form(word)),
{
    let size: u32 = bits(word, 22, 2);
    let pg: u32 = bits(word, 10, 3);
    let zn: u32 = bits(word, 5, 5);
    let zd: u32 = bits(word, 0, 5);
    // The round-to-integral / reciprocal-exp / sqrt group keeps the element size
    // in <23:22> and is selected purely by <20:16> (`opc`): FRINTN/P/M/Z/A/X/I,
    // FRECPX, FSQRT. Everything else in this sel=101 slot is a precision/integer
    // convert (FCVT*/FCVTZ*/SCVTF/UCVTF/FLOGB/BFCVT/FCVTX), where the element
    // sizes are derived from the full <23:16> opcode.
    match fp_round_code_of(bits(word, 16, 5)) {
        Some(code) => {
            if size == 0 {
                return;
            }
            let a = arr(size);
            install3(out, code, mnemonic_of(code), zreg(zd, a), preg_q(pg, PredQual::Merging), zreg(zn, a));
        },
        // The convert sub-block: pick the (src,dst) precision pair from <23:16>.
        None => decode_65_convert(word, pg, zn, zd, out),
    }
}

/// The (code, destination, source) arrangements of an FP convert keyed on
/// `word<23:16>`, or `None`.
pub open spec fn convert_sel(sel: u32) -> Option<(Code, VA, VA)> {
    match sel {
        0b10_001_001 => Some((Code::SveFcvt, VA::Ss, VA::Sh)),
        0b10_001_000 => Some((Code::SveFcvt, VA::Sh, VA::Ss)),
        0b11_001_001 => Some((Code::SveFcvt, VA::Sd, VA::Sh)),
        0b11_001_000 => Some((Code::SveFcvt, VA::Sh, VA::Sd)),
        0b11_001_011 => Some((Code::SveFcvt, VA::Sd, VA::Ss)),
        0b11_001_010 => Some((Code::SveFcvt, VA::Ss, VA::Sd)),
        0b10_001_010 => Some((Code::SveBfcvt, VA::Sh, VA::Ss)),
        0b00_001_010 => Some((Code::SveFcvtx, VA::Ss, VA::Sd)),
        0b01_011_010 => Some((Code::SveFcvtzs, VA::Sh, VA::Sh)),
        0b01_011_100 => Some((Code::SveFcvtzs, VA::Ss, VA::Sh)),
        0b01_011_110 => Some((Code::SveFcvtzs, VA::Sd, VA::Sh)),
        0b10_011_100 => Some((Code::SveFcvtzs, VA::Ss, VA::Ss)),
        0b11_011_100 => Some((Code::SveFcvtzs, VA::Sd, VA::Ss)),
        0b11_011_000 => Some((Code::SveFcvtzs, VA::Ss, VA::Sd)),
        0b11_011_110 => Some((Code::SveFcvtzs, VA::Sd, VA::Sd)),
        0b01_011_011 => Some((Code::SveFcvtzu, VA::Sh, VA::Sh)),
        0b01_011_101 => Some((Code::SveFcvtzu, VA::Ss, VA::Sh)),
        0b01_011_111 => Some((Code::SveFcvtzu, VA::Sd, VA::Sh)),
        0b10_011_101 => Some((Code::SveFcvtzu, VA::Ss, VA::Ss)),
        0b11_011_101 => Some((Code::SveFcvtzu, VA::Sd, VA::Ss)),
        0b11_011_001 => Some((Code::SveFcvtzu, VA::Ss, VA::Sd)),
        0b11_011_111 => Some((Code::SveFcvtzu, VA::Sd, VA::Sd)),
        0b01_010_010 => Some((Code::SveScvtf, VA::Sh, VA::Sh)),
        0b01_010_100 => Some((Code::SveScvtf, VA::Sh, VA::Ss)),
        0b01_010_110 => Some((Code::SveScvtf, VA::Sh, VA::Sd)),
        0b10_010_100 => Some((Code::SveScvtf, VA::Ss, VA::Ss)),
        0b11_010_000 => Some((Code::SveScvtf, VA::Sd, VA::Ss)),
        0b11_010_100 => Some((Code::SveScvtf, VA::Ss, VA::Sd)),
        0b11_010_110 => Some((Code::SveScvtf, VA::Sd, VA::Sd)),
        0b01_010_011 => Some((Code::SveUcvtf, VA::Sh, VA::Sh)),
        0b01_010_101 => Some((Code::SveUcvtf, VA::Sh, VA::Ss)),
        0b01_010_111 => Some((Code::SveUcvtf, VA::Sh, VA::Sd)),
        0b10_010_101 => Some((Code::SveUcvtf, VA::Ss, VA::Ss)),
        0b11_010_001 => Some((Code::SveUcvtf, VA::Sd, VA::Ss)),
        0b11_010_101 => Some((Code::SveUcvtf, VA::Ss, VA::Sd)),
        0b11_010_111 => Some((Code::SveUcvtf, VA::Sd, VA::Sd)),
        _ => None,
    }
}

fn convert_sel_of(sel: u32) -> (r: Option<(Code, VA, VA)>)
    ensures
        r == convert_sel(sel),
{
    match sel {
        // FCVT precision pairs (size bits select direction):
        0b10_001_001 => Some((Code::SveFcvt, VA::Ss, VA::Sh)), // h->s
        0b10_001_000 => Some((Code::SveFcvt, VA::Sh, VA::Ss)), // s->h
        0b11_001_001 => Some((Code::SveFcvt, VA::Sd, VA::Sh)), // h->d
        0b11_001_000 => Some((Code::SveFcvt, VA::Sh, VA::Sd)), // d->h
        0b11_001_011 => Some((Code::SveFcvt, VA::Sd, VA::Ss)), // s->d
        0b11_001_010 => Some((Code::SveFcvt, VA::Ss, VA::Sd)), // d->s
        // BFCVT s->bf16(h).
        0b10_001_010 => Some((Code::SveBfcvt, VA::Sh, VA::Ss)),
        // FCVTX d->s rounding to odd (SVE2).
        0b00_001_010 => Some((Code::SveFcvtx, VA::Ss, VA::Sd)),
        // FCVTZS:
        0b01_011_010 => Some((Code::SveFcvtzs, VA::Sh, VA::Sh)), // fp16 -> h
        0b01_011_100 => Some((Code::SveFcvtzs, VA::Ss, VA::Sh)), // fp16 -> w
        0b01_011_110 => Some((Code::SveFcvtzs, VA::Sd, VA::Sh)), // fp16 -> x
        0b10_011_100 => Some((Code::SveFcvtzs, VA::Ss, VA::Ss)), // s -> w
        0b11_011_100 => Some((Code::SveFcvtzs, VA::Sd, VA::Ss)), // s -> x
        0b11_011_000 => Some((Code::SveFcvtzs, VA::Ss, VA::Sd)), // d -> w
        0b11_011_110 => Some((Code::SveFcvtzs, VA::Sd, VA::Sd)), // d -> x
        // FCVTZU:
        0b01_011_011 => Some((Code::SveFcvtzu, VA::Sh, VA::Sh)), // fp16 -> h
        0b01_011_101 => Some((Code::SveFcvtzu, VA::Ss, VA::Sh)), // fp16 -> w
        0b01_011_111 => Some((Code::SveFcvtzu, VA::Sd, VA::Sh)), // fp16 -> x
        0b10_011_101 => Some((Code::SveFcvtzu, VA::Ss, VA::Ss)), // s -> w
        0b11_011_101 => Some((Code::SveFcvtzu, VA::Sd, VA::Ss)), // s -> x
        0b11_011_001 => Some((Code::SveFcvtzu, VA::Ss, VA::Sd)), // d -> w
        0b11_011_111 => Some((Code::SveFcvtzu, VA::Sd, VA::Sd)), // d -> x
        // SCVTF:
        0b01_010_010 => Some((Code::SveScvtf, VA::Sh, VA::Sh)), // h -> fp16
        0b01_010_100 => Some((Code::SveScvtf, VA::Sh, VA::Ss)), // w -> fp16
        0b01_010_110 => Some((Code::SveScvtf, VA::Sh, VA::Sd)), // x -> fp16
        0b10_010_100 => Some((Code::SveScvtf, VA::Ss, VA::Ss)), // w -> s
        0b11_010_000 => Some((Code::SveScvtf, VA::Sd, VA::Ss)), // w -> d
        0b11_010_100 => Some((Code::SveScvtf, VA::Ss, VA::Sd)), // x -> s
        0b11_010_110 => Some((Code::SveScvtf, VA::Sd, VA::Sd)), // x -> d
        // UCVTF:
        0b01_010_011 => Some((Code::SveUcvtf, VA::Sh, VA::Sh)), // h -> fp16
        0b01_010_101 => Some((Code::SveUcvtf, VA::Sh, VA::Ss)), // w -> fp16
        0b01_010_111 => Some((Code::SveUcvtf, VA::Sh, VA::Sd)), // x -> fp16
        0b10_010_101 => Some((Code::SveUcvtf, VA::Ss, VA::Ss)), // w -> s
        0b11_010_001 => Some((Code::SveUcvtf, VA::Sd, VA::Ss)), // w -> d
        0b11_010_101 => Some((Code::SveUcvtf, VA::Ss, VA::Sd)), // x -> s
        0b11_010_111 => Some((Code::SveUcvtf, VA::Sd, VA::Sd)), // x -> d
        _ => None,
    }
}

/// `Zd.<da>, Pg/<q>, Zn.<sa>`, the operands of a predicated convert.
pub open spec fn conv_ops(zd: u32, pg: u32, zn: u32, da: VA, sa: VA, q: PredQual) -> Seq<Operand> {
    seq![zreg_spec(zd, da), preg_q_spec(pg, q), zreg_spec(zn, sa)]
}

/// The instruction an FP convert word (`<21>=0`, `<15:13>=101`, not a round)
/// encodes, or `None`.
pub open spec fn convert_form(word: u32) -> Option<(Code, Mnemonic, Seq<Operand>)> {
    let pg = field(word, 10, 3);
    let zn = field(word, 5, 5);
    let zd = field(word, 0, 5);
    if field(word, 22, 2) == 0 && field(word, 19, 3) == 0b011 && field(word, 16, 1) == 0 {
        let sz = field(word, 17, 2);
        if sz == 0 {
            None
        } else {
            insn(Code::SveFlogbZpz, zpz(zd, pg, zn, arr_spec(sz), PredQual::Merging))
        }
    } else {
        match convert_sel(field(word, 16, 8)) {
            Some(c) => insn(c.0, conv_ops(zd, pg, zn, c.1, c.2, PredQual::Merging)),
            None => None,
        }
    }
}

/// FP convert sub-block (`0x65`, `<21>=0`, `<15:13>=101`, `<19>=1`). Selects on
/// the full `word<23:16>` opcode to set the right element arrangements.
fn decode_65_convert(word: u32, pg: u32, zn: u32, zd: u32, out: &mut Instruction)
    requires
        old(out).is_blank(),
        pg == field(word, 10, 3),
        zn == field(word, 5, 5),
        zd == field(word, 0, 5),
    ensures
        decode_post(*old(out), *final(out)),
        yields(*old(out), *final(out), convert_form(word)),
{
    // FLOGB has its own layout: <23:22>=00, <21:19>=011, <18:17>=size (1/2/3),
    // <16>=0. Handle it before the precision-pair table below.
    if bits(word, 22, 2) == 0b00 && bits(word, 19, 3) == 0b011 && bit(word, 16) == 0 {
        let sz: u32 = bits(word, 17, 2);
        if sz == 0 {
            return;
        }
        let a = arr(sz);
        install3(out, Code::SveFlogbZpz, mnemonic_of(Code::SveFlogbZpz), zreg(zd, a), preg_q(pg, PredQual::Merging), zreg(zn, a));
        return;
    }
    // The selector is bits<23:16> (8 bits): size(23:22) : opc ...
    let Some((code, da, sa)) = convert_sel_of(bits(word, 16, 8)) else { return };
    install3(out, code, mnemonic_of(code), zreg(zd, da), preg_q(pg, PredQual::Merging), zreg(zn, sa));
}


/// The FP vector-compare code of `<15:13>` and `<4>`, or `None`.
pub open spec fn fp_compare_code(sel: u32, b4: u32) -> Option<Code> {
    match (sel, b4) {
        (0b010, 0) => Some(Code::SveFcmgeZz),
        (0b010, 1) => Some(Code::SveFcmgtZz),
        (0b011, 0) => Some(Code::SveFcmeqZz),
        (0b011, 1) => Some(Code::SveFcmneZz),
        (0b110, 0) => Some(Code::SveFcmuoZz),
        (0b110, 1) => Some(Code::SveFacgeZz),
        (0b111, 1) => Some(Code::SveFacgtZz),
        _ => None,
    }
}

/// The instruction an FP vector-compare word encodes, or `None`.
pub open spec fn compare_form(word: u32) -> Option<(Code, Mnemonic, Seq<Operand>)> {
    let size = field(word, 22, 2);
    let a = arr_spec(size);
    if size == 0 {
        None
    } else {
        match fp_compare_code(field(word, 13, 3), field(word, 4, 1)) {
            Some(c) => insn(
                c,
                seq![
                    preg_sz_spec(field(word, 0, 4), a),
                    preg_q_spec(field(word, 10, 3), PredQual::Zeroing),
                    zreg_spec(field(word, 5, 5), a),
                    zreg_spec(field(word, 16, 5), a),
                ],
            ),
            None => None,
        }
    }
}

/// FP vector compare (`0x65`, `<21>=0`, `<15:13>` in {010,011,110,111}):
/// `FCMEQ`/`FCMGE`/`FCMGT`/`FCMNE`/`FCMUO`/`FACGE`/`FACGT` (result `<Pd>.<T>`).
/// The compare-with-zero forms live in [`decode_65_unary_misc`] (sel=001).
fn decode_65_compare(word: u32, out: &mut Instruction)
    requires
        old(out).is_blank(),
    ensures
        decode_post(*old(out), *final(out)),
        yields(*old(out), *final(out), compare_form(word)),
{
    let size: u32 = bits(word, 22, 2);
    if size == 0 {
        return;
    }
    let a = arr(size);
    // Vector compares: 01100101 size 0 Zm <15:13> Pg Zn b4 Pd.
    let code = match (bits(word, 13, 3), bit(word, 4)) {
        (0b010, 0) => Code::SveFcmgeZz,
        (0b010, 1) => Code::SveFcmgtZz,
        (0b011, 0) => Code::SveFcmeqZz,
        (0b011, 1) => Code::SveFcmneZz,
        (0b110, 0) => Code::SveFcmuoZz,
        (0b110, 1) => Code::SveFacgeZz,
        (0b111, 1) => Code::SveFacgtZz,
        _ => return,
    };
    install4(
        out,
        code,
        mnemonic_of(code),
        preg_sz(bits(word, 0, 4), a),
        preg_q(bits(word, 10, 3), PredQual::Zeroing),
        zreg(bits(word, 5, 5), a),
        zreg(bits(word, 16, 5), a),
    );
}

/// The FP multiply-add code of `<15:13>`.
pub open spec fn fma_code(op: u32) -> Code {
    match op {
        0b000 => Code::SveFmlaZpzzz,
        0b001 => Code::SveFmlsZpzzz,
        0b010 => Code::SveFnmlaZpzzz,
        0b011 => Code::SveFnmlsZpzzz,
        0b100 => Code::SveFmadZpzzz,
        0b101 => Code::SveFmsbZpzzz,
        0b110 => Code::SveFnmadZpzzz,
        _ => Code::SveFnmsbZpzzz,
    }
}

fn fma_code_of(op: u32) -> (c: Code)
    ensures
        c == fma_code(op),
{
    match op {
        // Accumulator-destructive: FMLA/FMLS/FNMLA/FNMLS.
        0b000 => Code::SveFmlaZpzzz,
        0b001 => Code::SveFmlsZpzzz,
        0b010 => Code::SveFnmlaZpzzz,
        0b011 => Code::SveFnmlsZpzzz,
        // Multiplicand-destructive: FMAD/FMSB/FNMAD/FNMSB.
        0b100 => Code::SveFmadZpzzz,
        0b101 => Code::SveFmsbZpzzz,
        0b110 => Code::SveFnmadZpzzz,
        _ => Code::SveFnmsbZpzzz,
    }
}

/// The instruction an FP multiply-add word (`0x65`, `<21>=1`) encodes, or
/// `None`: `<Zd>.<T>, <Pg>/M, <Zn>.<T>, <Zm>.<T>` for both the accumulator-
/// and the multiplicand-destructive forms.
pub open spec fn fma_form(word: u32) -> Option<(Code, Mnemonic, Seq<Operand>)> {
    let size = field(word, 22, 2);
    let a = arr_spec(size);
    if size == 0 {
        None
    } else {
        insn(
            fma_code(field(word, 13, 3)),
            seq![
                zreg_spec(field(word, 0, 5), a),
                preg_q_spec(field(word, 10, 3), PredQual::Merging),
                zreg_spec(field(word, 5, 5), a),
                zreg_spec(field(word, 16, 5), a),
            ],
        )
    }
}

/// FP multiply-add 4-operand predicated (`0x65`, `<21>=1`):
/// `FMLA`/`FMLS`/`FNMLA`/`FNMLS` (accumulator destructive) and `FMAD`/`FMSB`/
/// `FNMAD`/`FNMSB` (multiplicand destructive). The op is `word<15:13>`. In the
/// multiplicand encodings `Zm` is `<9:5>` and `Za` is `<20:16>` (the addend),
/// so both kinds list the registers in the same field order.
fn decode_65_fma(word: u32, out: &mut Instruction)
    requires
        old(out).is_blank(),
    ensures
        decode_post(*old(out), *final(out)),
        yields(*old(out), *final(out), fma_form(word)),
{
    let size: u32 = bits(word, 22, 2);
    if size == 0 {
        return;
    }
    let a = arr(size);
    let code = fma_code_of(bits(word, 13, 3));
    install4(
        out,
        code,
        mnemonic_of(code),
        zreg(bits(word, 0, 5), a),
        preg_q(bits(word, 10, 3), PredQual::Merging),
        zreg(bits(word, 5, 5), a),
        zreg(bits(word, 16, 5), a),
    );
}



// ===========================================================================
// Top byte 0x64 — SVE2 FP: multiply-add indexed, complex, MMLA, bf16/fhm long.
// ===========================================================================

/// The instruction a top-byte `0x64` word encodes under `features`, or
/// `None`.
pub open spec fn top64_form(word: u32, features: FeatureSet) -> Option<(Code, Mnemonic, Seq<Operand>)> {
    let sel = field(word, 13, 3);
    if field(word, 21, 1) == 1 {
        indexed_long_form(word, features)
    } else if field(word, 15, 1) == 0 {
        fcmla_vec_form(word)
    } else if features.contains(Feature::Sve2p1) && field(word, 19, 2) == 0b11 && pred_unary_z_form(word) is Some {
        pred_unary_z_form(word)
    } else if sel == 0b100 && field(word, 17, 4) == 0 {
        fcadd_form(word)
    } else if sel == 0b100 && field(word, 19, 2) == 0b10 {
        pairwise_form(word)
    } else if sel == 0b101 {
        if qv_reduction_form(word) is Some {
            qv_reduction_form(word)
        } else {
            narrow_convert_form(word, features)
        }
    } else {
        None
    }
}

fn decode_64(word: u32, features: FeatureSet, out: &mut Instruction)
    requires
        old(out).is_blank(),
    ensures
        decode_post(*old(out), *final(out)),
        yields(*old(out), *final(out), top64_form(word, features)),
{
    proof {
        lemma_fp64_codes(word, features);
    }
    if bit(word, 21) == 0 {
        // FCMLA (vector, predicated): 01100100 size 0 Zm 0 rot Pg Zn Zda, with
        // <15>=0.
        if bit(word, 15) == 0 {
            decode_64_fcmla_vec(word, out);
            return;
        }
        // SVE2.1 FP unary predicated convert/round, ZEROING (`/z`): the marker
        // `<20:19>=11` distinguishes them from the narrow/long converts (`00`) and
        // the qv-reductions / pairwise (`10`). Element width in `<23:22>`.
        if features.has(Feature::Sve2p1) && bits(word, 19, 2) == 0b11 {
            decode_64_pred_unary_z(word, out);
            if !out.is_invalid() {
                return;
            }
        }
        // <15>=1 region: FCADD and the SVE2 FP pairwise group (both
        // <15:13>=100), and the SVE2 narrow/long converts (<15:13>=101).
        if bits(word, 13, 3) == 0b100 {
            // FCADD: 01100100 size 00000 rot 100 Pg Zn Zdn (<20:17>=0000).
            if bits(word, 17, 4) == 0b0000 {
                decode_64_fcadd(word, out);
                return;
            }
            // Pairwise: 01100100 size 10 opc 100 Pg Zm Zdn (<20:19>=10).
            if bits(word, 19, 2) == 0b10 {
                decode_64_pairwise(word, out);
                return;
            }
        }
        if bits(word, 13, 3) == 0b101 {
            // SVE2.1 quadword FP reductions to a NEON `V` register come first;
            // the narrow/long converts share this sel=101 slot.
            decode_64_fp_qv_reduction(word, out);
            if out.is_invalid() {
                decode_64_narrow_convert(word, features, out);
            }
        }
        return;
    }
    // <21>=1 region: indexed multiply-add / multiply, complex indexed, MMLA,
    // bf16 / fhm widening. Dispatch on the structural sub-fields.
    decode_64_indexed_and_long(word, features, out);
}

/// Every instruction the `0x64` zeroing-unary and quadword-reduction
/// specifications describe has a code.
proof fn lemma_fp64_codes(word: u32, features: FeatureSet)
    ensures
        pred_unary_z_form(word) matches Some(f) ==> f.0 != Code::Invalid,
        qv_reduction_form(word) matches Some(f) ==> f.0 != Code::Invalid,
{
}

/// The FP pairwise code of `<18:16>`, or `None`.
pub open spec fn fp_pairwise_code(op: u32) -> Option<Code> {
    match op {
        0b000 => Some(Code::SveFaddpZpzz),
        0b100 => Some(Code::SveFmaxnmpZpzz),
        0b101 => Some(Code::SveFminnmpZpzz),
        0b110 => Some(Code::SveFmaxpZpzz),
        0b111 => Some(Code::SveFminpZpzz),
        _ => None,
    }
}

/// The instruction an SVE2 FP pairwise word encodes, or `None`.
pub open spec fn pairwise_form(word: u32) -> Option<(Code, Mnemonic, Seq<Operand>)> {
    let size = field(word, 22, 2);
    match fp_pairwise_code(field(word, 16, 3)) {
        Some(c) => if size == 0 {
            None
        } else {
            insn(c, zpzz(field(word, 0, 5), field(word, 10, 3), field(word, 5, 5), arr_spec(size)))
        },
        None => None,
    }
}

/// SVE2 FP pairwise (`0x64`, `<21>=0`, `<20:19>=10`, `<15:13>=100`):
/// `op <Zdn>.<T>, <Pg>/M, <Zdn>.<T>, <Zm>.<T>`.
fn decode_64_pairwise(word: u32, out: &mut Instruction)
    requires
        old(out).is_blank(),
    ensures
        decode_post(*old(out), *final(out)),
        yields(*old(out), *final(out), pairwise_form(word)),
{
    let size: u32 = bits(word, 22, 2);
    if size == 0 {
        return;
    }
    let a = arr(size);
    let pg: u32 = bits(word, 10, 3);
    let zm: u32 = bits(word, 5, 5);
    let zdn: u32 = bits(word, 0, 5);
    let code = match bits(word, 16, 3) {
        0b000 => Code::SveFaddpZpzz,
        0b100 => Code::SveFmaxnmpZpzz,
        0b101 => Code::SveFminnmpZpzz,
        0b110 => Code::SveFmaxpZpzz,
        0b111 => Code::SveFminpZpzz,
        _ => return,
    };
    install4(out, code, mnemonic_of(code), zreg(zdn, a), preg_q(pg, PredQual::Merging), zreg(zdn, a), zreg(zm, a));
}

/// The quadword FP reduction code of `<20:16>`, or `None`.
pub open spec fn qv_reduction_code(op: u32) -> Option<Code> {
    match op {
        0b10000 => Some(Code::SveFaddqv),
        0b10100 => Some(Code::SveFmaxnmqv),
        0b10101 => Some(Code::SveFminnmqv),
        0b10110 => Some(Code::SveFmaxqv),
        0b10111 => Some(Code::SveFminqv),
        _ => None,
    }
}

/// The instruction an SVE2.1 quadword FP reduction word encodes, or `None`.
pub open spec fn qv_reduction_form(word: u32) -> Option<(Code, Mnemonic, Seq<Operand>)> {
    let size = field(word, 22, 2);
    if size == 0 {
        None
    } else {
        match qv_reduction_code(field(word, 16, 5)) {
            Some(c) => insn(
                c,
                seq![vreg_spec(field(word, 0, 5), va_neon_spec(size)), preg_spec(field(word, 10, 3)), zreg_spec(field(word, 5, 5), arr_spec(size))],
            ),
            None => None,
        }
    }
}

/// SVE2.1 quadword FP reductions (`0x64`, `<21>=0`, `<15:13>=101`,
/// `<20:16>=10000/10100/10101/10110/10111`): `op <Vd>.<T>, <Pg>, <Zn>.<T>`,
/// reducing each 128-bit segment into a NEON `V` register. `.h`/`.s`/`.d` only.
fn decode_64_fp_qv_reduction(word: u32, out: &mut Instruction)
    requires
        old(out).is_blank(),
    ensures
        decode_post(*old(out), *final(out)),
        yields(*old(out), *final(out), qv_reduction_form(word)),
{
    let size: u32 = bits(word, 22, 2);
    if size == 0 {
        return; // no `.b` FP form.
    }
    let code = match bits(word, 16, 5) {
        0b10000 => Code::SveFaddqv,
        0b10100 => Code::SveFmaxnmqv,
        0b10101 => Code::SveFminnmqv,
        0b10110 => Code::SveFmaxqv,
        0b10111 => Code::SveFminqv,
        _ => return,
    };
    install3(out, code, mnemonic_of(code), vreg(bits(word, 0, 5), va_neon(size)), preg(bits(word, 10, 3)), zreg(bits(word, 5, 5), arr(size)));
}

/// The (code, destination, source) of an SVE2 narrow / long FP convert keyed
/// on `word<23:16>` under `features`, or `None`.
pub open spec fn narrow_convert_sel(sel: u32, features: FeatureSet) -> Option<(Code, VA, VA)> {
    match sel {
        0b10_0010_00 => Some((Code::SveFcvtnt, VA::Sh, VA::Ss)),
        0b11_0010_10 => Some((Code::SveFcvtnt, VA::Ss, VA::Sd)),
        0b10_0010_01 => Some((Code::SveFcvtlt, VA::Ss, VA::Sh)),
        0b11_0010_11 => Some((Code::SveFcvtlt, VA::Sd, VA::Ss)),
        0b00_0010_10 => Some((Code::SveFcvtxnt, VA::Ss, VA::Sd)),
        0b10_0010_10 => if features.contains(Feature::Bf16) {
            Some((Code::SveBfcvtnt, VA::Sh, VA::Ss))
        } else {
            None
        },
        _ => None,
    }
}

/// The instruction an SVE2 narrow / long FP convert word encodes, or `None`.
pub open spec fn narrow_convert_form(word: u32, features: FeatureSet) -> Option<(Code, Mnemonic, Seq<Operand>)> {
    match narrow_convert_sel(field(word, 16, 8), features) {
        Some(c) => insn(c.0, conv_ops(field(word, 0, 5), field(word, 10, 3), field(word, 5, 5), c.1, c.2, PredQual::Merging)),
        None => None,
    }
}

/// SVE2 narrow / long FP converts (`0x64`, `<21>=0`, `<15:13>=101`):
/// `FCVTNT`/`FCVTLT`/`FCVTXNT`/`BFCVTNT` `<Zd>.<T>, <Pg>/M, <Zn>.<T>`. Selected
/// by the `word<23:16>` opcode (predicated, like the 0x65 converts).
// The 8-bit opcode literals are grouped `size(2)_opc(4)_size2(2)` to follow the
// `word<23:16>` field layout, not into uniform nibbles.
#[allow(clippy::unusual_byte_groupings)]
fn decode_64_narrow_convert(word: u32, features: FeatureSet, out: &mut Instruction)
    requires
        old(out).is_blank(),
    ensures
        decode_post(*old(out), *final(out)),
        yields(*old(out), *final(out), narrow_convert_form(word, features)),
{
    let pg: u32 = bits(word, 10, 3);
    let zn: u32 = bits(word, 5, 5);
    let zd: u32 = bits(word, 0, 5);
    let (code, da, sa) = match bits(word, 16, 8) {
        // FCVTNT (narrow, top of pairs): s->h and d->s.
        0b10_0010_00 => (Code::SveFcvtnt, VA::Sh, VA::Ss), // s -> h
        0b11_0010_10 => (Code::SveFcvtnt, VA::Ss, VA::Sd), // d -> s
        // FCVTLT (long, top of pairs): h->s and s->d.
        0b10_0010_01 => (Code::SveFcvtlt, VA::Ss, VA::Sh), // h -> s
        0b11_0010_11 => (Code::SveFcvtlt, VA::Sd, VA::Ss), // s -> d
        // FCVTXNT (narrow rounding-to-odd, top of pairs): d->s.
        0b00_0010_10 => (Code::SveFcvtxnt, VA::Ss, VA::Sd),
        // BFCVTNT (convert to BFloat16, top of pairs): s->bf16(h).
        0b10_0010_10 => {
            if !features.has(Feature::Bf16) {
                return;
            }
            (Code::SveBfcvtnt, VA::Sh, VA::Ss)
        },
        _ => return,
    };
    install3(out, code, mnemonic_of(code), zreg(zd, da), preg_q(pg, PredQual::Merging), zreg(zn, sa));
}

/// The zeroing round / FRECPX / FSQRT code of `opc:sel` (`<18:16>`,
/// `<15:13>`), or `None`.
pub open spec fn round_z_code(opc: u32, sel: u32) -> Option<Code> {
    match (opc, sel) {
        (0b000, 0b100) => Some(Code::SveFrintnZ),
        (0b000, 0b101) => Some(Code::SveFrintpZ),
        (0b000, 0b110) => Some(Code::SveFrintmZ),
        (0b000, 0b111) => Some(Code::SveFrintzZ),
        (0b001, 0b100) => Some(Code::SveFrintaZ),
        (0b001, 0b110) => Some(Code::SveFrintxZ),
        (0b001, 0b111) => Some(Code::SveFrintiZ),
        (0b011, 0b100) => Some(Code::SveFrecpxZ),
        (0b011, 0b101) => Some(Code::SveFsqrtZ),
        _ => None,
    }
}

fn round_z_code_of(opc: u32, sel: u32) -> (r: Option<Code>)
    ensures
        r == round_z_code(opc, sel),
{
    match (opc, sel) {
        (0b000, 0b100) => Some(Code::SveFrintnZ),
        (0b000, 0b101) => Some(Code::SveFrintpZ),
        (0b000, 0b110) => Some(Code::SveFrintmZ),
        (0b000, 0b111) => Some(Code::SveFrintzZ),
        (0b001, 0b100) => Some(Code::SveFrintaZ),
        (0b001, 0b110) => Some(Code::SveFrintxZ),
        (0b001, 0b111) => Some(Code::SveFrintiZ),
        (0b011, 0b100) => Some(Code::SveFrecpxZ),
        (0b011, 0b101) => Some(Code::SveFsqrtZ),
        _ => None,
    }
}

/// The (code, destination, source) of a zeroing convert keyed on the 8-bit
/// `size:opc:sel`, or `None`.
pub open spec fn convert_z_sel(full: u32) -> Option<(Code, VA, VA)> {
    match full {
        0b10_010_100 => Some((Code::SveFcvtZ, VA::Sh, VA::Ss)),
        0b10_010_101 => Some((Code::SveFcvtZ, VA::Ss, VA::Sh)),
        0b11_010_100 => Some((Code::SveFcvtZ, VA::Sh, VA::Sd)),
        0b11_010_101 => Some((Code::SveFcvtZ, VA::Sd, VA::Sh)),
        0b11_010_110 => Some((Code::SveFcvtZ, VA::Ss, VA::Sd)),
        0b11_010_111 => Some((Code::SveFcvtZ, VA::Sd, VA::Ss)),
        0b00_010_110 => Some((Code::SveFcvtxZ, VA::Ss, VA::Sd)),
        0b10_010_110 => Some((Code::SveBfcvtZ, VA::Sh, VA::Ss)),
        0b00_110_101 => Some((Code::SveFlogbZ, VA::Sh, VA::Sh)),
        0b00_110_110 => Some((Code::SveFlogbZ, VA::Ss, VA::Ss)),
        0b00_110_111 => Some((Code::SveFlogbZ, VA::Sd, VA::Sd)),
        0b01_100_110 => Some((Code::SveScvtfZ, VA::Sh, VA::Sh)),
        0b01_101_100 => Some((Code::SveScvtfZ, VA::Sh, VA::Ss)),
        0b01_101_110 => Some((Code::SveScvtfZ, VA::Sh, VA::Sd)),
        0b10_101_100 => Some((Code::SveScvtfZ, VA::Ss, VA::Ss)),
        0b11_100_100 => Some((Code::SveScvtfZ, VA::Sd, VA::Ss)),
        0b11_101_100 => Some((Code::SveScvtfZ, VA::Ss, VA::Sd)),
        0b11_101_110 => Some((Code::SveScvtfZ, VA::Sd, VA::Sd)),
        0b01_100_111 => Some((Code::SveUcvtfZ, VA::Sh, VA::Sh)),
        0b01_101_101 => Some((Code::SveUcvtfZ, VA::Sh, VA::Ss)),
        0b01_101_111 => Some((Code::SveUcvtfZ, VA::Sh, VA::Sd)),
        0b10_101_101 => Some((Code::SveUcvtfZ, VA::Ss, VA::Ss)),
        0b11_100_101 => Some((Code::SveUcvtfZ, VA::Sd, VA::Ss)),
        0b11_101_101 => Some((Code::SveUcvtfZ, VA::Ss, VA::Sd)),
        0b11_101_111 => Some((Code::SveUcvtfZ, VA::Sd, VA::Sd)),
        0b01_110_110 => Some((Code::SveFcvtzsZ, VA::Sh, VA::Sh)),
        0b01_111_100 => Some((Code::SveFcvtzsZ, VA::Ss, VA::Sh)),
        0b01_111_110 => Some((Code::SveFcvtzsZ, VA::Sd, VA::Sh)),
        0b10_111_100 => Some((Code::SveFcvtzsZ, VA::Ss, VA::Ss)),
        0b11_111_100 => Some((Code::SveFcvtzsZ, VA::Sd, VA::Ss)),
        0b11_110_100 => Some((Code::SveFcvtzsZ, VA::Ss, VA::Sd)),
        0b11_111_110 => Some((Code::SveFcvtzsZ, VA::Sd, VA::Sd)),
        0b01_110_111 => Some((Code::SveFcvtzuZ, VA::Sh, VA::Sh)),
        0b01_111_101 => Some((Code::SveFcvtzuZ, VA::Ss, VA::Sh)),
        0b01_111_111 => Some((Code::SveFcvtzuZ, VA::Sd, VA::Sh)),
        0b10_111_101 => Some((Code::SveFcvtzuZ, VA::Ss, VA::Ss)),
        0b11_111_101 => Some((Code::SveFcvtzuZ, VA::Sd, VA::Ss)),
        0b11_110_101 => Some((Code::SveFcvtzuZ, VA::Ss, VA::Sd)),
        0b11_111_111 => Some((Code::SveFcvtzuZ, VA::Sd, VA::Sd)),
        _ => None,
    }
}

fn convert_z_sel_of(full: u32) -> (r: Option<(Code, VA, VA)>)
    ensures
        r == convert_z_sel(full),
{
    match full {
        // FCVT precision pairs.
        0b10_010_100 => Some((Code::SveFcvtZ, VA::Sh, VA::Ss)),
        0b10_010_101 => Some((Code::SveFcvtZ, VA::Ss, VA::Sh)),
        0b11_010_100 => Some((Code::SveFcvtZ, VA::Sh, VA::Sd)),
        0b11_010_101 => Some((Code::SveFcvtZ, VA::Sd, VA::Sh)),
        0b11_010_110 => Some((Code::SveFcvtZ, VA::Ss, VA::Sd)),
        0b11_010_111 => Some((Code::SveFcvtZ, VA::Sd, VA::Ss)),
        // FCVTX (round-to-odd, d->s).
        0b00_010_110 => Some((Code::SveFcvtxZ, VA::Ss, VA::Sd)),
        // BFCVT (s->bf16(h)).
        0b10_010_110 => Some((Code::SveBfcvtZ, VA::Sh, VA::Ss)),
        // FLOGB (element size in `sel`: h/s/d).
        0b00_110_101 => Some((Code::SveFlogbZ, VA::Sh, VA::Sh)),
        0b00_110_110 => Some((Code::SveFlogbZ, VA::Ss, VA::Ss)),
        0b00_110_111 => Some((Code::SveFlogbZ, VA::Sd, VA::Sd)),
        // SCVTF.
        0b01_100_110 => Some((Code::SveScvtfZ, VA::Sh, VA::Sh)),
        0b01_101_100 => Some((Code::SveScvtfZ, VA::Sh, VA::Ss)),
        0b01_101_110 => Some((Code::SveScvtfZ, VA::Sh, VA::Sd)),
        0b10_101_100 => Some((Code::SveScvtfZ, VA::Ss, VA::Ss)),
        0b11_100_100 => Some((Code::SveScvtfZ, VA::Sd, VA::Ss)),
        0b11_101_100 => Some((Code::SveScvtfZ, VA::Ss, VA::Sd)),
        0b11_101_110 => Some((Code::SveScvtfZ, VA::Sd, VA::Sd)),
        // UCVTF.
        0b01_100_111 => Some((Code::SveUcvtfZ, VA::Sh, VA::Sh)),
        0b01_101_101 => Some((Code::SveUcvtfZ, VA::Sh, VA::Ss)),
        0b01_101_111 => Some((Code::SveUcvtfZ, VA::Sh, VA::Sd)),
        0b10_101_101 => Some((Code::SveUcvtfZ, VA::Ss, VA::Ss)),
        0b11_100_101 => Some((Code::SveUcvtfZ, VA::Sd, VA::Ss)),
        0b11_101_101 => Some((Code::SveUcvtfZ, VA::Ss, VA::Sd)),
        0b11_101_111 => Some((Code::SveUcvtfZ, VA::Sd, VA::Sd)),
        // FCVTZS.
        0b01_110_110 => Some((Code::SveFcvtzsZ, VA::Sh, VA::Sh)),
        0b01_111_100 => Some((Code::SveFcvtzsZ, VA::Ss, VA::Sh)),
        0b01_111_110 => Some((Code::SveFcvtzsZ, VA::Sd, VA::Sh)),
        0b10_111_100 => Some((Code::SveFcvtzsZ, VA::Ss, VA::Ss)),
        0b11_111_100 => Some((Code::SveFcvtzsZ, VA::Sd, VA::Ss)),
        0b11_110_100 => Some((Code::SveFcvtzsZ, VA::Ss, VA::Sd)),
        0b11_111_110 => Some((Code::SveFcvtzsZ, VA::Sd, VA::Sd)),
        // FCVTZU.
        0b01_110_111 => Some((Code::SveFcvtzuZ, VA::Sh, VA::Sh)),
        0b01_111_101 => Some((Code::SveFcvtzuZ, VA::Ss, VA::Sh)),
        0b01_111_111 => Some((Code::SveFcvtzuZ, VA::Sd, VA::Sh)),
        0b10_111_101 => Some((Code::SveFcvtzuZ, VA::Ss, VA::Ss)),
        0b11_111_101 => Some((Code::SveFcvtzuZ, VA::Sd, VA::Ss)),
        0b11_110_101 => Some((Code::SveFcvtzuZ, VA::Ss, VA::Sd)),
        0b11_111_111 => Some((Code::SveFcvtzuZ, VA::Sd, VA::Sd)),
        _ => None,
    }
}

/// The instruction an SVE2.1 zeroing FP unary word encodes, or `None`.
pub open spec fn pred_unary_z_form(word: u32) -> Option<(Code, Mnemonic, Seq<Operand>)> {
    let size = field(word, 22, 2);
    let opc = field(word, 16, 3);
    let sel = field(word, 13, 3);
    let pg = field(word, 10, 3);
    let zn = field(word, 5, 5);
    let zd = field(word, 0, 5);
    if opc == 0b000 || opc == 0b001 || opc == 0b011 {
        match round_z_code(opc, sel) {
            Some(c) => if size == 0 {
                None
            } else {
                insn(c, zpz(zd, pg, zn, arr_spec(size), PredQual::Zeroing))
            },
            None => None,
        }
    } else {
        match convert_z_sel((size * 64 + opc * 8 + sel) as u32) {
            Some(c) => insn(c.0, conv_ops(zd, pg, zn, c.1, c.2, PredQual::Zeroing)),
            None => None,
        }
    }
}

/// SVE2.1 FP unary predicated convert/round, ZEROING `/z` (`0x64`, `<21>=0`,
/// `<20:19>=11`, `<15>=1`). These are the `/z` analogues of the existing `0x65`
/// merging (`/m`) forms but with a wholly different opcode layout: the operation
/// is selected by `size(<23:22>) : opc(<18:16>) : sel(<15:13>)`, and the
/// governing predicate is zeroing. The round-to-integral / reciprocal-exp / sqrt
/// group keeps the element size in `<23:22>` (selected by `opc:sel` with
/// `opc` in {0,1,3}); everything else is a precision/integer convert keyed on the
/// full 8-bit `<23:22>:<18:16>:<15:13>` opcode.
fn decode_64_pred_unary_z(word: u32, out: &mut Instruction)
    requires
        old(out).is_blank(),
    ensures
        decode_post(*old(out), *final(out)),
        yields(*old(out), *final(out), pred_unary_z_form(word)),
{
    let size: u32 = bits(word, 22, 2);
    let opc: u32 = bits(word, 16, 3); // <18:16>
    let sel: u32 = bits(word, 13, 3); // <15:13>
    let pg: u32 = bits(word, 10, 3);
    let zn: u32 = bits(word, 5, 5);
    let zd: u32 = bits(word, 0, 5);
    // Round-to-integral / FRECPX / FSQRT: opc in {0,1,3}, element size in <23:22>.
    if opc == 0b000 || opc == 0b001 || opc == 0b011 {
        let Some(code) = round_z_code_of(opc, sel) else { return };
        if size == 0 {
            return; // no `.b` FP form.
        }
        let a = arr(size);
        install3(out, code, mnemonic_of(code), zreg(zd, a), preg_q(pg, PredQual::Zeroing), zreg(zn, a));
        return;
    }
    // Convert sub-block: select on the full 8-bit opcode `size:opc:sel`.
    let Some((code, da, sa)) = convert_z_sel_of(size * 64 + opc * 8 + sel) else { return };
    install3(out, code, mnemonic_of(code), zreg(zd, da), preg_q(pg, PredQual::Zeroing), zreg(zn, sa));
}

/// The instruction an FCADD word encodes, or `None`.
pub open spec fn fcadd_form(word: u32) -> Option<(Code, Mnemonic, Seq<Operand>)> {
    let size = field(word, 22, 2);
    let a = arr_spec(size);
    if size == 0 {
        None
    } else {
        insn(
            Code::SveFcadd,
            zpzz(field(word, 0, 5), field(word, 10, 3), field(word, 5, 5), a).push(
                Operand::ImmUnsigned(if field(word, 16, 1) == 0 { 90 } else { 270 }),
            ),
        )
    }
}

/// FCADD (`0x64`, predicated complex add):
/// `FCADD <Zdn>.<T>, <Pg>/M, <Zdn>.<T>, <Zm>.<T>, #rot` (rot = 90 or 270).
fn decode_64_fcadd(word: u32, out: &mut Instruction)
    requires
        old(out).is_blank(),
    ensures
        decode_post(*old(out), *final(out)),
        yields(*old(out), *final(out), fcadd_form(word)),
{
    let size: u32 = bits(word, 22, 2);
    if size == 0 {
        return;
    }
    let a = arr(size);
    let rot: u32 = bit(word, 16); // 0 => 90, 1 => 270
    let pg: u32 = bits(word, 10, 3);
    let zm: u32 = bits(word, 5, 5);
    let zdn: u32 = bits(word, 0, 5);
    install5(
        out,
        Code::SveFcadd,
        mnemonic_of(Code::SveFcadd),
        zreg(zdn, a),
        preg_q(pg, PredQual::Merging),
        zreg(zdn, a),
        zreg(zm, a),
        Operand::ImmUnsigned(if rot == 0 { 90 } else { 270 }),
    );
}

/// The instruction a predicated FCMLA word encodes, or `None`.
pub open spec fn fcmla_vec_form(word: u32) -> Option<(Code, Mnemonic, Seq<Operand>)> {
    let size = field(word, 22, 2);
    let a = arr_spec(size);
    if size == 0 {
        None
    } else {
        insn(
            Code::SveFcmlaZpzzz,
            seq![
                zreg_spec(field(word, 0, 5), a),
                preg_q_spec(field(word, 10, 3), PredQual::Merging),
                zreg_spec(field(word, 5, 5), a),
                zreg_spec(field(word, 16, 5), a),
                Operand::ImmUnsigned((field(word, 13, 2) * 90) as u64),
            ],
        )
    }
}

/// FCMLA (`0x64`, predicated complex multiply-add):
/// `FCMLA <Zda>.<T>, <Pg>/M, <Zn>.<T>, <Zm>.<T>, #rot` (rot in {0,90,180,270}).
fn decode_64_fcmla_vec(word: u32, out: &mut Instruction)
    requires
        old(out).is_blank(),
    ensures
        decode_post(*old(out), *final(out)),
        yields(*old(out), *final(out), fcmla_vec_form(word)),
{
    let size: u32 = bits(word, 22, 2);
    if size == 0 {
        return;
    }
    let a = arr(size);
    let rot: u32 = bits(word, 13, 2); // word<14:13>
    install5(
        out,
        Code::SveFcmlaZpzzz,
        mnemonic_of(Code::SveFcmlaZpzzz),
        zreg(bits(word, 0, 5), a),
        preg_q(bits(word, 10, 3), PredQual::Merging),
        zreg(bits(word, 5, 5), a),
        zreg(bits(word, 16, 5), a),
        Operand::ImmUnsigned((rot * 90) as u64),
    );
}

/// The instruction a `0x64`, `<21>=1` word encodes under `features`, or
/// `None`.
pub open spec fn indexed_long_form(word: u32, features: FeatureSet) -> Option<(Code, Mnemonic, Seq<Operand>)> {
    let opc = field(word, 22, 2);
    let zm = field(word, 16, 5);
    let zn = field(word, 5, 5);
    let zda = field(word, 0, 5);
    if field(word, 10, 6) == 0b111001 {
        if opc == 0b01 {
            if !features.contains(Feature::Bf16) {
                None
            } else {
                insn(Code::SveBfmmla, seq![zreg_spec(zda, VA::Ss), zreg_spec(zn, VA::Sh), zreg_spec(zm, VA::Sh)])
            }
        } else if opc == 0b10 {
            insn(Code::SveFmmla, zzz_same(zda, zn, zm, VA::Ss))
        } else if opc == 0b11 {
            insn(Code::SveFmmla, zzz_same(zda, zn, zm, VA::Sd))
        } else {
            None
        }
    } else if field(word, 11, 5) == 0 {
        fp_idx_form(word, if field(word, 10, 1) == 1 { Code::SveFmlsIdx } else { Code::SveFmlaIdx })
    } else if field(word, 10, 6) == 0b001000 {
        fp_idx_form(word, Code::SveFmulIdx)
    } else if field(word, 12, 4) == 0b0001 {
        fcmla_idx_form(word)
    } else {
        dot_mlal_form(word, features)
    }
}

/// The `0x64`, `<21>=1` region: FMLA/FMLS/FMUL by indexed element, FCMLA by
/// index, FMMLA/BFMMLA, BFDOT, and the bf16 / half multiply-add-long family.
fn decode_64_indexed_and_long(word: u32, features: FeatureSet, out: &mut Instruction)
    requires
        old(out).is_blank(),
    ensures
        decode_post(*old(out), *final(out)),
        yields(*old(out), *final(out), indexed_long_form(word, features)),
{
    let opc2322: u32 = bits(word, 22, 2); // size / opc<1:0>
    let sub: u32 = bits(word, 10, 6); // word<15:10>

    // FMMLA / BFMMLA: <15:10> = 111001. opc<23:22> selects: 01 = BFMMLA (bf16),
    // 10 = FMMLA .s, 11 = FMMLA .d.
    if sub == 0b111001 {
        let zm: u32 = bits(word, 16, 5);
        let zn: u32 = bits(word, 5, 5);
        let zda: u32 = bits(word, 0, 5);
        if opc2322 == 0b01 {
            if !features.has(Feature::Bf16) {
                return;
            }
            install3(out, Code::SveBfmmla, mnemonic_of(Code::SveBfmmla), zreg(zda, VA::Ss), zreg(zn, VA::Sh), zreg(zm, VA::Sh));
        } else if opc2322 == 0b10 {
            install3(out, Code::SveFmmla, mnemonic_of(Code::SveFmmla), zreg(zda, VA::Ss), zreg(zn, VA::Ss), zreg(zm, VA::Ss));
        } else if opc2322 == 0b11 {
            install3(out, Code::SveFmmla, mnemonic_of(Code::SveFmmla), zreg(zda, VA::Sd), zreg(zn, VA::Sd), zreg(zm, VA::Sd));
        }
        return;
    }

    // FMLA/FMLS by indexed element: <15:11>=00000, op=<10> (0=FMLA, 1=FMLS).
    // FMUL by indexed element: <15:10>=001000.
    if bits(word, 11, 5) == 0b00000 {
        decode_64_fmla_indexed(word, bit(word, 10) == 1, out);
        return;
    }
    if bits(word, 10, 6) == 0b001000 {
        decode_64_fmul_indexed(word, out);
        return;
    }

    // FCMLA by indexed element: 01100100 1x1 Zm 0001 rot Zn Zda, <15:12>=0001.
    if bits(word, 12, 4) == 0b0001 {
        decode_64_fcmla_indexed(word, out);
        return;
    }

    // BFDOT (vector / indexed) and bf16 / half multiply-add-long.
    decode_64_dot_and_mlal(word, features, out);
}

/// The (arrangement, `Zm`, index) of an FP by-element operand: `.d` (`<23:22>
/// =11`) `Zm<19:16>`, index `<20>`; `.s` (`10`) `Zm<18:16>`, index `<20:19>`;
/// `.h` otherwise, `Zm<18:16>`, index `<22>:<20:19>`.
pub open spec fn fp_idx_fields(word: u32) -> (VA, u32, u32) {
    let sz = field(word, 22, 2);
    if sz == 0b11 {
        (VA::Sd, field(word, 16, 4), field(word, 20, 1))
    } else if sz == 0b10 {
        (VA::Ss, field(word, 16, 3), field(word, 19, 2))
    } else {
        (VA::Sh, field(word, 16, 3), (field(word, 22, 1) * 4 + field(word, 19, 2)) as u32)
    }
}

fn fp_idx_fields_of(word: u32) -> (r: (VA, u32, u32))
    ensures
        r == fp_idx_fields(word),
{
    let sz: u32 = bits(word, 22, 2);
    if sz == 0b11 {
        // .d : Zm<19:16>, index = i1<20>.
        (VA::Sd, bits(word, 16, 4), bit(word, 20))
    } else if sz == 0b10 {
        // .s : Zm<18:16>, index = i2<20:19>.
        (VA::Ss, bits(word, 16, 3), bits(word, 19, 2))
    } else {
        // .h : Zm<18:16>, index = i3h:i3l = <22>:<20:19>.
        (VA::Sh, bits(word, 16, 3), bit(word, 22) * 4 + bits(word, 19, 2))
    }
}

/// The instruction `code` by indexed element: `<Zd>.<T>, <Zn>.<T>,
/// <Zm>.<T>[<imm>]`.
pub open spec fn fp_idx_form(word: u32, code: Code) -> Option<(Code, Mnemonic, Seq<Operand>)> {
    let f = fp_idx_fields(word);
    insn(code, seq![zreg_spec(field(word, 0, 5), f.0), zreg_spec(field(word, 5, 5), f.0), zreg_idx_spec(f.1, f.0, f.2 as u8)])
}

/// FMLA/FMLS by indexed element (`0x64`, `<21>=1`, `<15:13>=000`).
///
/// The element size and index are encoded differently per width:
/// * `.h` (`<23:22>=0x`): `Zm` is `<18:16>` (3 bits), index = `i3h:i3l` =
///   `<22>:<20:19>`, with a 3-bit `Zm`.
/// * `.s` (`<23:22>=10`): `Zm` is `<18:16>`, index = `<20:19>` (2 bits).
/// * `.d` (`<23:22>=11`): `Zm` is `<19:16>`, index = `<20>` (1 bit).
fn decode_64_fmla_indexed(word: u32, is_fmls: bool, out: &mut Instruction)
    requires
        old(out).is_blank(),
    ensures
        decode_post(*old(out), *final(out)),
        yields(*old(out), *final(out), fp_idx_form(word, if is_fmls { Code::SveFmlsIdx } else { Code::SveFmlaIdx })),
{
    let (a, zm, idx) = fp_idx_fields_of(word);
    let code = if is_fmls { Code::SveFmlsIdx } else { Code::SveFmlaIdx };
    install3(out, code, mnemonic_of(code), zreg(bits(word, 0, 5), a), zreg(bits(word, 5, 5), a), zreg_idx(zm, a, idx as u8));
}

/// FMUL by indexed element (`0x64`, `<21>=1`, `<15:10>=001000`).
fn decode_64_fmul_indexed(word: u32, out: &mut Instruction)
    requires
        old(out).is_blank(),
    ensures
        decode_post(*old(out), *final(out)),
        yields(*old(out), *final(out), fp_idx_form(word, Code::SveFmulIdx)),
{
    let (a, zm, idx) = fp_idx_fields_of(word);
    install3(out, Code::SveFmulIdx, mnemonic_of(Code::SveFmulIdx), zreg(bits(word, 0, 5), a), zreg(bits(word, 5, 5), a), zreg_idx(zm, a, idx as u8));
}

/// The instruction an FCMLA-by-element word encodes, or `None`.
pub open spec fn fcmla_idx_form(word: u32) -> Option<(Code, Mnemonic, Seq<Operand>)> {
    let sz = field(word, 22, 2);
    let f: Option<(VA, u32, u32)> = if sz == 0b10 {
        Some((VA::Sh, field(word, 16, 3), field(word, 19, 2)))
    } else if sz == 0b11 {
        Some((VA::Ss, field(word, 16, 4), field(word, 20, 1)))
    } else {
        None
    };
    match f {
        Some(x) => insn(
            Code::SveFcmlaIdx,
            seq![
                zreg_spec(field(word, 0, 5), x.0),
                zreg_spec(field(word, 5, 5), x.0),
                zreg_idx_spec(x.1, x.0, x.2 as u8),
                Operand::ImmUnsigned((field(word, 10, 2) * 90) as u64),
            ],
        ),
        None => None,
    }
}

/// FCMLA by indexed element (`0x64`, `<15:12>=0001`):
/// `FCMLA <Zda>.<T>, <Zn>.<T>, <Zm>.<T>[<imm>], #rot`. Only `.h` (`<23:22>=10`)
/// and `.s` (`<23:22>=11`) exist; the index/Zm widths differ accordingly.
fn decode_64_fcmla_indexed(word: u32, out: &mut Instruction)
    requires
        old(out).is_blank(),
    ensures
        decode_post(*old(out), *final(out)),
        yields(*old(out), *final(out), fcmla_idx_form(word)),
{
    let rot: u32 = bits(word, 10, 2); // word<11:10>
    let zn: u32 = bits(word, 5, 5);
    let zda: u32 = bits(word, 0, 5);
    let sz: u32 = bits(word, 22, 2);
    let (a, zm, idx): (VA, u32, u32) = if sz == 0b10 {
        // .h : Zm<18:16>, index = i2<20:19>.
        (VA::Sh, bits(word, 16, 3), bits(word, 19, 2))
    } else if sz == 0b11 {
        // .s : Zm<19:16>, index = i1<20>.
        (VA::Ss, bits(word, 16, 4), bit(word, 20))
    } else {
        return;
    };
    install4(
        out,
        Code::SveFcmlaIdx,
        mnemonic_of(Code::SveFcmlaIdx),
        zreg(zda, a),
        zreg(zn, a),
        zreg_idx(zm, a, idx as u8),
        Operand::ImmUnsigned((rot * 90) as u64),
    );
}

/// The instruction a `0x64` BF16 / FP8 / half-precision dot-product or
/// multiply-add-long word encodes under `features`, or `None`.
pub open spec fn dot_mlal_form(word: u32, features: FeatureSet) -> Option<(Code, Mnemonic, Seq<Operand>)> {
    let zda = field(word, 0, 5);
    let zn = field(word, 5, 5);
    let sub = field(word, 10, 6);
    let opc = field(word, 22, 2);
    let op1512 = field(word, 12, 4);
    let bf_idx: Option<Code> = if sub == 0b000010 {
        Some(Code::SveBfmlaIdx)
    } else if sub == 0b000011 {
        Some(Code::SveBfmlsIdx)
    } else if sub == 0b001010 {
        Some(Code::SveBfmulIdx)
    } else {
        None
    };
    let fp8_idx = zreg_idx_spec(field(word, 16, 3), VA::Sb, (field(word, 19, 2) * 4 + field(word, 10, 2)) as u8);
    if field(word, 23, 1) == 0 && bf_idx is Some {
        if !features.contains(Feature::Bf16) {
            None
        } else {
            insn(
                bf_idx->0,
                seq![
                    zreg_spec(zda, VA::Sh),
                    zreg_spec(zn, VA::Sh),
                    zreg_idx_spec(field(word, 16, 3), VA::Sh, (field(word, 22, 1) * 4 + field(word, 19, 2)) as u8),
                ],
            )
        }
    } else if op1512 == 0b0101 && field(word, 22, 1) == 0 {
        if !features.contains(Feature::Fp8) {
            None
        } else {
            insn(
                if field(word, 23, 1) == 0 { Code::SveFmlalbFp8Idx } else { Code::SveFmlaltFp8Idx },
                seq![zreg_spec(zda, VA::Sh), zreg_spec(zn, VA::Sb), fp8_idx],
            )
        }
    } else if op1512 == 0b1100 {
        if !features.contains(Feature::Fp8) {
            None
        } else {
            insn(
                if opc == 0 {
                    Code::SveFmlallbbFp8Idx
                } else if opc == 1 {
                    Code::SveFmlallbtFp8Idx
                } else if opc == 2 {
                    Code::SveFmlalltbFp8Idx
                } else {
                    Code::SveFmlallttFp8Idx
                },
                seq![zreg_spec(zda, VA::Ss), zreg_spec(zn, VA::Sb), fp8_idx],
            )
        }
    } else if opc == 0b01 && sub == 0b100000 {
        if !features.contains(Feature::Bf16) {
            None
        } else {
            insn(Code::SveBfdot, seq![zreg_spec(zda, VA::Ss), zreg_spec(zn, VA::Sh), zreg_spec(field(word, 16, 5), VA::Sh)])
        }
    } else if opc == 0b01 && op1512 == 0b0100 {
        if !features.contains(Feature::Bf16) {
            None
        } else {
            insn(
                Code::SveBfdotIdx,
                seq![zreg_spec(zda, VA::Ss), zreg_spec(zn, VA::Sh), zreg_idx_spec(field(word, 16, 3), VA::Sh, field(word, 19, 2) as u8)],
            )
        }
    } else if field(word, 22, 1) == 1 && !features.contains(Feature::Bf16) {
        None
    } else if field(word, 14, 2) == 0b10 && field(word, 11, 2) == 0 {
        match mlal_code_spec(field(word, 22, 1) == 1, field(word, 13, 1), field(word, 10, 1), false) {
            Some(c) => insn(c, seq![zreg_spec(zda, VA::Ss), zreg_spec(zn, VA::Sh), zreg_spec(field(word, 16, 5), VA::Sh)]),
            None => None,
        }
    } else if field(word, 14, 2) == 0b01 && field(word, 12, 1) == 0 {
        match mlal_code_spec(field(word, 22, 1) == 1, field(word, 13, 1), field(word, 10, 1), true) {
            Some(c) => insn(
                c,
                seq![
                    zreg_spec(zda, VA::Ss),
                    zreg_spec(zn, VA::Sh),
                    zreg_idx_spec(field(word, 16, 3), VA::Sh, (field(word, 19, 2) * 2 + field(word, 11, 1)) as u8),
                ],
            ),
            None => None,
        }
    } else {
        None
    }
}

/// BFDOT, BFMLALB/T, FMLALB/T, FMLSLB/T (vector and indexed), all in the
/// `0x64`, `<21>=1` widening region. Element types are fixed (`.s` <- `.h`).
fn decode_64_dot_and_mlal(word: u32, features: FeatureSet, out: &mut Instruction)
    requires
        old(out).is_blank(),
    ensures
        decode_post(*old(out), *final(out)),
        yields(*old(out), *final(out), dot_mlal_form(word, features)),
{
    let zda: u32 = bits(word, 0, 5);
    let zn: u32 = bits(word, 5, 5);
    let sub: u32 = bits(word, 10, 6);
    let opc: u32 = bits(word, 22, 2); // <23:22>

    // ---- FEAT_SVE_B16B16 BF16 multiply-add / multiply, indexed ----
    // `<Zda>.h, <Zn>.h, <Zm>.h[i]`. Zm restricted to z0..z7 (<18:16>), index =
    // i3h(<22>):i2l(<20:19>) (3-bit), `<23>==0`, `<21>==1`. The mnemonic is
    // chosen by `<15:10>`: 000010 BFMLA, 000011 BFMLS, 001010 BFMUL.
    if bit(word, 23) == 0 {
        let bf_code = if sub == 0b000010 {
            Some(Code::SveBfmlaIdx)
        } else if sub == 0b000011 {
            Some(Code::SveBfmlsIdx)
        } else if sub == 0b001010 {
            Some(Code::SveBfmulIdx)
        } else {
            None
        };
        if let Some(code) = bf_code {
            if !features.has(Feature::Bf16) {
                return;
            }
            let idx: u32 = bit(word, 22) * 4 + bits(word, 19, 2);
            install3(out, code, mnemonic_of(code), zreg(zda, VA::Sh), zreg(zn, VA::Sh), zreg_idx(bits(word, 16, 3), VA::Sh, idx as u8));
            return;
        }
    }

    // ---- FEAT_SSVE_FP8FMA FP8 widening multiply-add long, indexed z-form ----
    // The two index bits il live in <11:10>, so key on the opcode field <15:12>
    // (not the full <15:10>, which carries il).
    // FMLALB/FMLALT (to `.h`): `<15:12>==0101`, `<22>==0`, T=<23>, Zm z0..z7
    //   (<18:16>), index = ih(<20:19>):il(<11:10>) (4-bit).
    // FMLALLBB/BT/TB/TT (to `.s`): `<15:12>==1100`, B/T pair in <23:22>, same
    //   Zm/index layout.
    let op1512: u32 = bits(word, 12, 4);
    let fp8_idx: u32 = bits(word, 19, 2) * 4 + bits(word, 10, 2);
    if op1512 == 0b0101 && bit(word, 22) == 0 {
        if !features.has(Feature::Fp8) {
            return;
        }
        let code = if bit(word, 23) == 0 { Code::SveFmlalbFp8Idx } else { Code::SveFmlaltFp8Idx };
        install3(out, code, mnemonic_of(code), zreg(zda, VA::Sh), zreg(zn, VA::Sb), zreg_idx(bits(word, 16, 3), VA::Sb, fp8_idx as u8));
        return;
    }
    if op1512 == 0b1100 {
        if !features.has(Feature::Fp8) {
            return;
        }
        let code = if opc == 0 {
            Code::SveFmlallbbFp8Idx
        } else if opc == 1 {
            Code::SveFmlallbtFp8Idx
        } else if opc == 2 {
            Code::SveFmlalltbFp8Idx
        } else {
            Code::SveFmlallttFp8Idx
        };
        install3(out, code, mnemonic_of(code), zreg(zda, VA::Ss), zreg(zn, VA::Sb), zreg_idx(bits(word, 16, 3), VA::Sb, fp8_idx as u8));
        return;
    }

    // BFDOT vector: <23:22>=01, <15:10>=100000.
    if opc == 0b01 && sub == 0b100000 {
        if !features.has(Feature::Bf16) {
            return;
        }
        install3(out, Code::SveBfdot, mnemonic_of(Code::SveBfdot), zreg(zda, VA::Ss), zreg(zn, VA::Sh), zreg(bits(word, 16, 5), VA::Sh));
        return;
    }
    // BFDOT indexed: <23:22>=01, <15:12>=0100 (then i2 in <20:19>, Zm<18:16>).
    if opc == 0b01 && op1512 == 0b0100 {
        if !features.has(Feature::Bf16) {
            return;
        }
        let idx: u32 = bits(word, 19, 2);
        install3(out, Code::SveBfdotIdx, mnemonic_of(Code::SveBfdotIdx), zreg(zda, VA::Ss), zreg(zn, VA::Sh), zreg_idx(bits(word, 16, 3), VA::Sh, idx as u8));
        return;
    }

    // The half / BFloat16 multiply-add-long family (all `.s <- .h, .h`):
    //   vector : 011001001 o2 1 Zm     10 op 00 T Zn Zda  (<15:14>=10, <12:11>=00)
    //   indexed: 011001001 o2 1 i3h Zm 01 op 0 i3l T Zn Zda (<15:14>=01, <12>=0)
    // with o2=<22> (0 => F16 FMLAL/FMLSL, 1 => BFMLAL), op=<13>, T=<10>.
    let bf16 = bit(word, 22) == 1;
    if bf16 && !features.has(Feature::Bf16) {
        return;
    }
    let op: u32 = bit(word, 13);
    let t: u32 = bit(word, 10);
    if bits(word, 14, 2) == 0b10 && bits(word, 11, 2) == 0b00 {
        // Vector long-MLA: <15:14>=10, <12:11>=00, T=<10>.
        let Some(code) = mlal_code(bf16, op, t, false) else { return };
        install3(out, code, mnemonic_of(code), zreg(zda, VA::Ss), zreg(zn, VA::Sh), zreg(bits(word, 16, 5), VA::Sh));
    } else if bits(word, 14, 2) == 0b01 && bit(word, 12) == 0 {
        // Indexed long-MLA: <15:14>=01, <12>=0, index = i3h(<20:19>):i3l(<11>),
        // T=<10>, Zm=<18:16> (3-bit).
        let idx: u32 = bits(word, 19, 2) * 2 + bit(word, 11);
        let Some(code) = mlal_code(bf16, op, t, true) else { return };
        install3(out, code, mnemonic_of(code), zreg(zda, VA::Ss), zreg(zn, VA::Sh), zreg_idx(bits(word, 16, 3), VA::Sh, idx as u8));
    }
}

/// Map `(bf16, op, T, indexed)` to the MLAL-long [`Code`]. `op==0` is the
/// add (`*MLAL*`), `op==1` the subtract (`*MLSL*`, F16 only); `T` selects
/// bottom(0)/top(1).
/// The multiply-add-long code of `(bf16, op, T, indexed)`, if allocated.
pub open spec fn mlal_code_spec(bf16: bool, op: u32, t: u32, indexed: bool) -> Option<Code> {
    match (bf16, op, t, indexed) {
        (true, 0, 0, false) => Some(Code::SveBfmlalb),
        (true, 0, 1, false) => Some(Code::SveBfmlalt),
        (true, 0, 0, true) => Some(Code::SveBfmlalbIdx),
        (true, 0, 1, true) => Some(Code::SveBfmlaltIdx),
        (false, 0, 0, false) => Some(Code::SveFmlalb),
        (false, 0, 1, false) => Some(Code::SveFmlalt),
        (false, 1, 0, false) => Some(Code::SveFmlslb),
        (false, 1, 1, false) => Some(Code::SveFmlslt),
        (false, 0, 0, true) => Some(Code::SveFmlalbIdx),
        (false, 0, 1, true) => Some(Code::SveFmlaltIdx),
        (false, 1, 0, true) => Some(Code::SveFmlslbIdx),
        (false, 1, 1, true) => Some(Code::SveFmlsltIdx),
        _ => None,
    }
}

fn mlal_code(bf16: bool, op: u32, t: u32, indexed: bool) -> (r: Option<Code>)
    ensures
        r == mlal_code_spec(bf16, op, t, indexed),
{
    Some(match (bf16, op, t, indexed) {
        // BFloat16: only MLAL (op must be 0).
        (true, 0, 0, false) => Code::SveBfmlalb,
        (true, 0, 1, false) => Code::SveBfmlalt,
        (true, 0, 0, true) => Code::SveBfmlalbIdx,
        (true, 0, 1, true) => Code::SveBfmlaltIdx,
        // Half-precision FMLAL / FMLSL.
        (false, 0, 0, false) => Code::SveFmlalb,
        (false, 0, 1, false) => Code::SveFmlalt,
        (false, 1, 0, false) => Code::SveFmlslb,
        (false, 1, 1, false) => Code::SveFmlslt,
        (false, 0, 0, true) => Code::SveFmlalbIdx,
        (false, 0, 1, true) => Code::SveFmlaltIdx,
        (false, 1, 0, true) => Code::SveFmlslbIdx,
        (false, 1, 1, true) => Code::SveFmlsltIdx,
        _ => return None,
    })
}

// ===========================================================================
// FP leaves that live outside the 011 quadrant (called from super::decode).
// ===========================================================================

/// The FP form of a `0x04` word: `FABS`/`FNEG` (predicated, merging or
/// zeroing), `FEXPA` or `FTSSEL`, as (code, operands), or `None`.
pub open spec fn fp_misc_04_form(word: u32) -> Option<(Code, Seq<Operand>)> {
    let size = field(word, 22, 2);
    let a = arr_spec(size);
    let zd = field(word, 0, 5);
    let zn = field(word, 5, 5);
    if size == 0 {
        None
    } else if field(word, 21, 1) == 0 && field(word, 13, 3) == 0b101 {
        let op4 = field(word, 16, 4);
        let q = if field(word, 20, 1) == 1 { PredQual::Merging } else { PredQual::Zeroing };
        if op4 == 0b1100 || op4 == 0b1101 {
            Some((
                if op4 == 0b1100 { Code::SveFabsZpz } else { Code::SveFnegZpz },
                seq![zreg_spec(zd, a), preg_q_spec(field(word, 10, 3), q), zreg_spec(zn, a)],
            ))
        } else {
            None
        }
    } else if field(word, 21, 1) == 1 && field(word, 16, 5) == 0 && field(word, 10, 6) == 0b101110 {
        Some((Code::SveFexpa, seq![zreg_spec(zd, a), zreg_spec(zn, a)]))
    } else if field(word, 21, 1) == 1 && field(word, 10, 6) == 0b101100 {
        Some((Code::SveFtssel, seq![zreg_spec(zd, a), zreg_spec(zn, a), zreg_spec(field(word, 16, 5), a)]))
    } else {
        None
    }
}

/// FP unary / select forms in the `000` quadrant (top byte `0x04`):
/// `FABS`/`FNEG` (predicated unary), `FEXPA`, `FTSSEL`: exactly the
/// instruction of [`fp_misc_04_form`] when SVE is enabled, or nothing.
pub fn decode_fp_misc_04(word: u32, features: FeatureSet, out: &mut Instruction)
    requires
        old(out).is_blank(),
    ensures
        decode_post(*old(out), *final(out)),
        features.contains(Feature::Sve) ==> (fp_misc_04_form(word) matches Some(f) ==> installed(
            *old(out),
            *final(out),
            f.0,
            code_mnemonic(f.0),
            f.1,
        )),
        !(features.contains(Feature::Sve) && fp_misc_04_form(word) is Some) ==> *final(out) == *old(out),
{
    if !features.has(Feature::Sve) {
        return;
    }
    let size: u32 = bits(word, 22, 2);
    if size == 0 {
        return;
    }
    let a = arr(size);
    let zd: u32 = bits(word, 0, 5);
    let zn: u32 = bits(word, 5, 5);

    // FABS/FNEG predicated (`<15:13>=101`): operation in `<19:16>` (1100/1101),
    // with `<20>` selecting merging (`/m`) or zeroing (`/z`).
    if bit(word, 21) == 0 && bits(word, 13, 3) == 0b101 {
        let op4: u32 = bits(word, 16, 4);
        let merging = bit(word, 20) == 1;
        let pg: u32 = bits(word, 10, 3);
        let code = if op4 == 0b1100 {
            Code::SveFabsZpz
        } else if op4 == 0b1101 {
            Code::SveFnegZpz
        } else {
            return;
        };
        install3(
            out,
            code,
            mnemonic_of(code),
            zreg(zd, a),
            preg_q(pg, if merging { PredQual::Merging } else { PredQual::Zeroing }),
            zreg(zn, a),
        );
        return;
    }

    // FEXPA: 00000100 size 100000 101110 Zn Zd.
    if bit(word, 21) == 1 && bits(word, 16, 5) == 0b00000 && bits(word, 10, 6) == 0b101110 {
        install2(out, Code::SveFexpa, zreg(zd, a), zreg(zn, a));
        return;
    }

    // FTSSEL: 00000100 size 1 Zm 101100 Zn Zd.
    if bit(word, 21) == 1 && bits(word, 10, 6) == 0b101100 {
        let zm: u32 = bits(word, 16, 5);
        install3(out, Code::SveFtssel, mnemonic_of(Code::SveFtssel), zreg(zd, a), zreg(zn, a), zreg(zm, a));
    }
}

/// The `FCPY` of a `0x05` word (`00000101 size 01 Pg 110 imm8 Zd`), written
/// `FMOV <Zd>.<T>, <Pg>/m, #const`, or `None`.
pub open spec fn fcpy_05_form(word: u32) -> Option<Seq<Operand>> {
    let size = field(word, 22, 2);
    if size == 0 || field(word, 20, 2) != 0b01 || field(word, 13, 3) != 0b110 {
        None
    } else {
        Some(seq![
            zreg_spec(field(word, 0, 5), arr_spec(size)),
            preg_q_spec(field(word, 16, 4), PredQual::Merging),
            Operand::FpImm(fp_imm8_spec(field(word, 5, 8))),
        ])
    }
}

/// FCPY (FP copy immediate, predicated) in the `0x05` top byte: exactly the
/// instruction of [`fcpy_05_form`] when SVE is enabled, or nothing.
pub fn decode_fcpy_05(word: u32, features: FeatureSet, out: &mut Instruction)
    requires
        old(out).is_blank(),
    ensures
        decode_post(*old(out), *final(out)),
        features.contains(Feature::Sve) && fcpy_05_form(word) is Some ==> installed(
            *old(out),
            *final(out),
            Code::SveFcpy,
            Mnemonic::Fmov,
            fcpy_05_form(word)->0,
        ),
        !(features.contains(Feature::Sve) && fcpy_05_form(word) is Some) ==> *final(out) == *old(out),
{
    if !features.has(Feature::Sve) {
        return;
    }
    let size: u32 = bits(word, 22, 2);
    if size == 0 {
        return;
    }
    // <21:20>=01 and <15:13>=110.
    if bits(word, 20, 2) != 0b01 || bits(word, 13, 3) != 0b110 {
        return;
    }
    let a = arr(size);
    let pg: u32 = bits(word, 16, 4);
    let imm8: u32 = bits(word, 5, 8);
    install3(
        out,
        Code::SveFcpy,
        Mnemonic::Fmov,
        zreg(zd_of(word), a),
        preg_q(pg, PredQual::Merging),
        Operand::FpImm(fp_expand_imm8(imm8)),
    );
}

/// The `FDUP` of a `0x25` word (`00100101 size 111001 110 imm8 Zd`), written
/// `FMOV <Zd>.<T>, #const`, or `None`.
pub open spec fn fdup_25_form(word: u32) -> Option<Seq<Operand>> {
    let size = field(word, 22, 2);
    if size == 0 || field(word, 16, 6) != 0b111001 || field(word, 13, 3) != 0b110 {
        None
    } else {
        Some(seq![zreg_spec(field(word, 0, 5), arr_spec(size)), Operand::FpImm(fp_imm8_spec(field(word, 5, 8)))])
    }
}

/// FDUP (broadcast FP immediate) in the `0x25` top byte: exactly the
/// instruction of [`fdup_25_form`] when SVE is enabled, or nothing.
pub fn decode_fdup_25(word: u32, features: FeatureSet, out: &mut Instruction)
    requires
        old(out).is_blank(),
    ensures
        decode_post(*old(out), *final(out)),
        features.contains(Feature::Sve) && fdup_25_form(word) is Some ==> installed(
            *old(out),
            *final(out),
            Code::SveFdup,
            Mnemonic::Fmov,
            fdup_25_form(word)->0,
        ),
        !(features.contains(Feature::Sve) && fdup_25_form(word) is Some) ==> *final(out) == *old(out),
{
    if !features.has(Feature::Sve) {
        return;
    }
    let size: u32 = bits(word, 22, 2);
    if size == 0 {
        return;
    }
    if bits(word, 16, 6) != 0b111001 || bits(word, 13, 3) != 0b110 {
        return;
    }
    let a = arr(size);
    let imm8: u32 = bits(word, 5, 8);
    install2_as(out, Code::SveFdup, Mnemonic::Fmov, zreg(zd_of(word), a), Operand::FpImm(fp_expand_imm8(imm8)));
}

/// The destination `Zd` field (`word<4:0>`), shared by the immediate-move forms.
fn zd_of(word: u32) -> (r: u32)
    ensures
        r == field(word, 0, 5),
{
    bits(word, 0, 5)
}




/// The FP vector compares of `<15:13>=010` (`0x65`, `<21>=0`, a non-zero
/// size): `<4>` clear is greater-or-equal (FCMGE), set is greater-than
/// (FCMGT), comparing `Zn` with `Zm` into `Pd`.
#[verifier::rlimit(40)]
pub proof fn lemma_fp_compare_ge_gt(word: u32, features: FeatureSet)
    requires
        features.contains(Feature::Sve),
        field(word, 24, 8) == 0x65,
        field(word, 21, 1) == 0,
        field(word, 13, 3) == 0b010,
        field(word, 22, 2) != 0,
    ensures
        fp_form(word, features) matches Some(f) && f.0 == (if field(word, 4, 1) == 0 {
            Code::SveFcmgeZz
        } else {
            Code::SveFcmgtZz
        }) && f.1 == (if field(word, 4, 1) == 0 {
            Mnemonic::Fcmge
        } else {
            Mnemonic::Fcmgt
        }),
{
    crate::bits::lemma_field3_bits(word, 4);
    assert(fp_form(word, features) == compare_form(word));
    let c = if field(word, 4, 1) == 0 { Code::SveFcmgeZz } else { Code::SveFcmgtZz };
    assert(fp_compare_code(field(word, 13, 3), field(word, 4, 1)) == Some(c));
    assert(compare_form(word) matches Some(f) && f.0 == c && f.1 == code_mnemonic(c));
    assert(code_mnemonic(Code::SveFcmgeZz) == Mnemonic::Fcmge) by {
        reveal(code_mnemonic);
    }
    assert(code_mnemonic(Code::SveFcmgtZz) == Mnemonic::Fcmgt) by {
        reveal(code_mnemonic);
    }
}

} // verus!
