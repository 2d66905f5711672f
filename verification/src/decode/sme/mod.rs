//! SME (Scalable Matrix Extension) encodings.
//!
//! SME instructions live in the reserved top-level group (`op0 = word<28:25> =
//! 0000`) with `word<31> == 1`, and are decoded only when FEAT_SME is enabled.
//! The four sub-areas are selected by `word<31:29>`:
//!
//! | `word<31:29>` | Area |
//! |-|-|
//! | `100` | Outer products (FP / BF16): `FMOPA`/`FMOPS`/`BFMOPA`/`BFMOPS` |
//! | `101` | Outer products (integer): `[US]MOPA`/`[US]MOPS` and the mixed forms |
//! | `110` | `MOVA` (ZA tile slice to or from Z) and `ADDHA`/`ADDVA` |
//! | `111` | ZA-array load/store: `LD1*`/`ST1*` (tile slice) and `LDR`/`STR` ZA |
//!
//! The tile-slice operands are written with a `z` prefix (`z0v.b[w14, #0x5]`)
//! and the outer-product accumulator as a plain vector register `z<n>.<T>`.
use vstd::prelude::*;
use crate::bits::{bit, bits, field, low_mask};
use crate::code::{code_mnemonic, Code, Mnemonic};
use crate::decode::{decode_post, insn, install2, install3, install4, install5, installed, mnemonic_of, yields};
use crate::decode::ops::{preg_q, preg_q_spec, zreg, zreg_spec};
use crate::features::{Feature, FeatureSet};
use crate::instruction::Instruction;
use crate::operand::Operand;
use crate::types::{gp_register, gp_spec, reg_of, RegKind, ExtendType, PredQual, RegWidth, Register, SliceIndicator, SveMemMode, VectorArrangement as VA};

pub mod sme2;
pub mod sme2_keys;
pub mod sme_lut;
pub mod sme_za_move;
pub mod sme_zero_movt;

verus! {

/// `(code, operands)` with the code's own mnemonic, as an instruction form.
pub open spec fn with_mnemonic(f: Option<(Code, Seq<Operand>)>) -> Option<(Code, Mnemonic, Seq<Operand>)> {
    match f {
        Some(p) => insn(p.0, p.1),
        None => None,
    }
}

/// The instruction [`decode`] gives a word under `features`, or `None`: by
/// the quadrant `word<31:29>`, the outer products (FP, integer, MOP4, the
/// SME2 `*TMOPA` table rows) and the SME2 contiguous multi-vector loads and
/// stores in `100` / `101`, the `110` quadrant (LUTI, tile and array moves,
/// ZERO / MOVT, ADDHA / ADDVA, MOVA / MOVAZ, and the SME2 multi-vector forms
/// of the `0xC1` region) and the `111` ZA loads and stores. The quadrants
/// below `100`, and every word without FEAT_SME, give `None`. The family
/// decoders read only their own fields, so a word outside the SME part of the
/// reserved group is decoded as its quadrant says.
pub open spec fn sme_routed_form(word: u32, features: FeatureSet) -> Option<(Code, Mnemonic, Seq<Operand>)> {
    let sme2 = features.contains(Feature::Sme2);
    let quad = field(word, 29, 3);
    if !features.contains(Feature::Sme) {
        None
    } else if quad == 0b100 {
        if sme2 && field(word, 22, 2) == 0b01 {
            sme2::table_insn(word)
        } else if is_mop4_spec(word) {
            mop4_form(word, features)
        } else {
            mopa_fp_form(word, features)
        }
    } else if quad == 0b101 {
        if sme2 && field(word, 23, 1) == 0 {
            with_mnemonic(sme2::mem_form(word))
        } else if is_mop4_spec(word) {
            mop4_form(word, features)
        } else {
            mopa_int_form(word, features)
        }
    } else if quad == 0b110 {
        if sme2 && field(word, 24, 1) == 1 {
            sme2::mul_form(word, features)
        } else {
            mova_add_form(word, features)
        }
    } else if quad == 0b111 {
        za_ldst_form(word)
    } else {
        None
    }
}

/// The instruction an SME word encodes under `features`, or `None`: the
/// form [`sme_routed_form`] gives a word of the SME part of the reserved
/// group (`word<31> == 1`, `word<28:25> == 0000`). Words outside it, and every
/// word without FEAT_SME, give `None`.
#[verifier::opaque]
pub open spec fn sme_form(word: u32, features: FeatureSet) -> Option<(Code, Mnemonic, Seq<Operand>)> {
    if field(word, 25, 4) != 0 || field(word, 31, 1) != 1 {
        None
    } else {
        sme_routed_form(word, features)
    }
}

/// Decode a single SME instruction `word` at `ip` into `out`.
///
/// Gated on [`Feature::Sme`]; dispatches on `word<31:29>` to the family
/// decoders.
pub fn decode(word: u32, ip: u64, features: FeatureSet, out: &mut Instruction)
    requires
        features.contains(Feature::Sme) ==> old(out).is_blank(),
    ensures
        features.contains(Feature::Sme) ==> decode_post(*old(out), *final(out)),
        !features.contains(Feature::Sme) ==> *final(out) == *old(out),
        yields(*old(out), *final(out), sme_routed_form(word, features)),
        field(word, 25, 4) == 0 && field(word, 31, 1) == 1 ==> yields(*old(out), *final(out), sme_form(word, features)),
{
    proof {
        reveal(sme_form);
    }
    let _ = ip;
    if !features.has(Feature::Sme) {
        return;
    }
    // SME2 multi-vector forms (FEAT_SME2) carve unallocated sub-regions out of
    // the FMOPA quadrant (`100`, outer-product size `word<23:22> == 01`) and the
    // MOVA/ADDHA quadrant (`110`, `word<24> == 1`). Route them first when the
    // runtime accepts FEAT_SME2; they never overlap the base SME encodings.
    let sme2 = features.has(Feature::Sme2);
    let quad: u32 = bits(word, 29, 3);
    if quad == 0b100 {
        if sme2 && bits(word, 22, 2) == 0b01 {
            sme2::decode_tmopa(word, out);
        } else if is_mop4(word) {
            // FEAT_SME_MOP4 4-source forms carve `sz == 00` and the
            // `sz == 11, word<3> == 1` sub-regions out of the predicated
            // FP outer-product quadrant.
            decode_mop4(word, features, out);
        } else {
            decode_mopa_fp(word, features, out);
        }
    } else if quad == 0b101 {
        // SME2/SVE2.1 contiguous multi-vector load/store carve the
        // `word<23> == 0` sub-region (the integer outer products set
        // `word<23>`); gated on FEAT_SME2.
        if sme2 && bit(word, 23) == 0 {
            sme2::decode_mem(word, out);
        } else if is_mop4(word) {
            // Integer MOP4 lives only in `sz == 11, word<3> == 1`.
            decode_mop4(word, features, out);
        } else {
            decode_mopa_int(word, features, out);
        }
    } else if quad == 0b110 {
        if sme2 && bit(word, 24) == 1 {
            sme2::decode_mul(word, features, out);
        } else {
            decode_mova_add(word, features, out);
        }
    } else if quad == 0b111 {
        decode_za_ldst(word, out);
    }
}

// ---------------------------------------------------------------------------
// Operand helpers.
// ---------------------------------------------------------------------------

/// The `Ws`/`Wv` slice-select register (`w12..w15`) from a 2-bit `Rs`/`Rv`.
fn wsel(rs: u32) -> (r: Register)
    ensures
        r == gp_spec(false, RegWidth::W32, (12 + (rs & 3)) as u8),
{
    let k = rs & 3;
    assert(k <= 3) by (bit_vector)
        requires
            k == rs & 3,
    ;
    gp_register(false, RegWidth::W32, (12 + k) as u8)
}

/// The ZA tile-slice operand `z<tile><h|v>.<T>[<Ws>{, #<imm>}]`.
pub open spec fn tile_slice_spec(tile: u32, vertical: bool, arr: VA, rs: u32, imm: Option<u8>) -> Operand {
    Operand::SmeTileSlice {
        reg: reg_of(RegKind::Z, tile, 0x1f),
        slice: if vertical { SliceIndicator::Vertical } else { SliceIndicator::Horizontal },
        arr: Some(arr),
        sel: gp_spec(false, RegWidth::W32, (12 + (rs & 3)) as u8),
        imm: match imm {
            Some(v) => v,
            None => 0,
        },
        has_imm: imm is Some,
    }
}

/// A ZA tile-slice operand `z<tile><h|v>.<T>[<Ws>{, #<imm>}]`; `imm` is
/// absent for the `.q` forms.
fn tile_slice(tile: u32, vertical: bool, arr: VA, rs: u32, imm: Option<u8>) -> (r: Operand)
    ensures
        r == tile_slice_spec(tile, vertical, arr, rs, imm),
{
    let (v, has) = match imm {
        Some(v) => (v, true),
        None => (0u8, false),
    };
    Operand::SmeTileSlice {
        reg: Register::z(tile),
        slice: if vertical { SliceIndicator::Vertical } else { SliceIndicator::Horizontal },
        arr: Some(arr),
        sel: wsel(rs),
        imm: v,
        has_imm: has,
    }
}

// ---------------------------------------------------------------------------
// Outer products (FP / BF16): word<31:29> == 100.
// ---------------------------------------------------------------------------

/// The ZAda tile number for a destination element size, or `None` when an
/// element-size-dependent reserved high bit of `word<2:0>` is set: `.D`
/// takes `word<2:0>`, `.S` takes `word<1:0>` (`word<2>` reserved), `.H`
/// takes `word<0>` (`word<2:1>` reserved).
pub open spec fn zada_spec(word: u32, dst: VA) -> Option<u32> {
    match dst {
        VA::Sd => Some(field(word, 0, 3)),
        VA::Ss => if field(word, 2, 1) != 0 {
            None
        } else {
            Some(field(word, 0, 2))
        },
        VA::Sh => if field(word, 1, 2) != 0 {
            None
        } else {
            Some(field(word, 0, 1))
        },
        _ => None,
    }
}

/// ZAda field width and reserved-bit check for a destination element size.
fn zada_field(word: u32, dst: VA) -> (r: Option<u32>)
    ensures
        r == zada_spec(word, dst),
{
    match dst {
        VA::Sd => Some(bits(word, 0, 3)),
        VA::Ss => {
            if bit(word, 2) != 0 {
                return None;
            }
            Some(bits(word, 0, 2))
        }
        VA::Sh => {
            if bits(word, 1, 2) != 0 {
                return None;
            }
            Some(bits(word, 0, 1))
        }
        _ => None,
    }
}

/// A predicated outer product `ZAda.<dst>, Pn/M, Pm/M, Zn.<src>, Zm.<src>`
/// with `Pn = word<12:10>`, `Pm = word<15:13>`, `Zn = word<9:5>`,
/// `Zm = word<20:16>`, or `None` when the ZAda field is reserved.
pub open spec fn mopa_insn(word: u32, code: Code, dst: VA, src: VA) -> Option<(Code, Mnemonic, Seq<Operand>)> {
    match zada_spec(word, dst) {
        Some(z) => insn(code, seq![
            zreg_spec(z, dst),
            preg_q_spec(field(word, 10, 3), PredQual::Merging),
            preg_q_spec(field(word, 13, 3), PredQual::Merging),
            zreg_spec(field(word, 5, 5), src),
            zreg_spec(field(word, 16, 5), src),
        ]),
        None => None,
    }
}

/// Emit a predicated outer product: `ZAda.<dst>, Pn/M, Pm/M, Zn.<src>, Zm.<src>`.
fn emit_mopa(word: u32, code: Code, dst: VA, src: VA, out: &mut Instruction)
    requires
        old(out).is_blank(),
        code != Code::Invalid,
    ensures
        decode_post(*old(out), *final(out)),
        yields(*old(out), *final(out), mopa_insn(word, code, dst, src)),
{
    let zada = match zada_field(word, dst) {
        Some(z) => z,
        None => return,
    };
    let pn: u32 = bits(word, 10, 3);
    let pm: u32 = bits(word, 13, 3);
    let zn: u32 = bits(word, 5, 5);
    let zm: u32 = bits(word, 16, 5);
    install5(out, code, mnemonic_of(code), zreg(zada, dst), preg_q(pn, PredQual::Merging), preg_q(pm, PredQual::Merging),
        zreg(zn, src), zreg(zm, src));
}

/// `a` when `s == 0` (accumulate), `sub` otherwise (subtract).
pub open spec fn acc(s: u32, a: Code, sub: Code) -> Code {
    if s == 0 {
        a
    } else {
        sub
    }
}

/// The FP / BF16 outer product of `(op24, sz, b21, b3)` and `S`: (code,
/// accumulator arrangement, source arrangement, required feature).
pub open spec fn mopa_fp_sel(word: u32) -> Option<(Code, VA, VA, Feature)> {
    let s = field(word, 4, 1);
    let sz = field(word, 22, 2);
    let b21 = field(word, 21, 1);
    let b3 = field(word, 3, 1);
    if sz != 0b10 && !(sz == 0b11 && field(word, 24, 1) == 0 && b21 == 0 && b3 == 0) {
        None
    } else if field(word, 24, 1) == 0 {
        if sz == 0b11 {
            Some((acc(s, Code::SmeFmopaD, Code::SmeFmopsD), VA::Sd, VA::Sd, Feature::Sme))
        } else if b21 == 0 && b3 == 0 {
            Some((acc(s, Code::SmeFmopaS, Code::SmeFmopsS), VA::Ss, VA::Ss, Feature::Sme))
        } else if b21 == 0 {
            Some((acc(s, Code::SmeBmopaS, Code::SmeBmopsS), VA::Ss, VA::Ss, Feature::SmeB16b16))
        } else if s != 0 {
            None
        } else if b3 == 0 {
            Some((Code::SmeFmopaB, VA::Ss, VA::Sb, Feature::SmeF8f32))
        } else {
            Some((Code::SmeFmopaBh, VA::Sh, VA::Sb, Feature::SmeF8f16))
        }
    } else if b21 == 0 && b3 == 0 {
        Some((acc(s, Code::SmeBfmopa, Code::SmeBfmops), VA::Ss, VA::Sh, Feature::Sme))
    } else if b21 == 0 {
        Some((acc(s, Code::SmeFmopaHh, Code::SmeFmopsHh), VA::Sh, VA::Sh, Feature::SmeF16f16))
    } else if b3 == 0 {
        Some((acc(s, Code::SmeFmopaH, Code::SmeFmopsH), VA::Ss, VA::Sh, Feature::Sme))
    } else {
        Some((acc(s, Code::SmeBfmopaH, Code::SmeBfmopsH), VA::Sh, VA::Sh, Feature::SmeB16b16))
    }
}

/// The instruction an FP / BF16 outer-product word encodes under
/// `features`, or `None`.
pub open spec fn mopa_fp_form(word: u32, features: FeatureSet) -> Option<(Code, Mnemonic, Seq<Operand>)> {
    match mopa_fp_sel(word) {
        Some(t) => if features.contains(t.3) {
            mopa_insn(word, t.0, t.1, t.2)
        } else {
            None
        },
        None => None,
    }
}

/// `FMOPA`/`FMOPS`/`BFMOPA`/`BFMOPS`/`BMOPA`/`BMOPS` — floating-point, BFloat16
/// and the non-widening b16b16 outer products, accumulate (`S==0`) or subtract
/// (`S==1`) into a ZA tile.
///
/// Common fields: `ZAda` (low bits), `Zn = word<9:5>`, `Pn = word<12:10>`,
/// `Pm = word<15:13>`, `Zm = word<20:16>`, `S = word<4>`. The variant is a
/// function of `op = word<24>`, the size `word<23:22>`, `b21 = word<21>` and
/// `b3 = word<3>`.
fn decode_mopa_fp(word: u32, features: FeatureSet, out: &mut Instruction)
    requires
        old(out).is_blank(),
    ensures
        decode_post(*old(out), *final(out)),
        yields(*old(out), *final(out), mopa_fp_form(word, features)),
{
    let s: u32 = bit(word, 4);
    let op24: u32 = bit(word, 24);
    let sz: u32 = bits(word, 22, 2);
    let b21: u32 = bit(word, 21);
    let b3: u32 = bit(word, 3);

    // (code, dst-arr, src-arr, feature). `None` for any unallocated slot.
    let sel: Option<(Code, VA, VA, Feature)> = if sz != 0b10 && !(sz == 0b11 && op24 == 0 && b21 == 0 && b3 == 0) {
        None
    } else if op24 == 0 {
        if sz == 0b11 {
            // FP64: ZAda.D, Zn.D, Zm.D.
            Some((if s == 0 { Code::SmeFmopaD } else { Code::SmeFmopsD }, VA::Sd, VA::Sd, Feature::Sme))
        } else if b21 == 0 && b3 == 0 {
            // FP32: ZAda.S, Zn.S, Zm.S.
            Some((if s == 0 { Code::SmeFmopaS } else { Code::SmeFmopsS }, VA::Ss, VA::Ss, Feature::Sme))
        } else if b21 == 0 {
            // b16b16 BMOPA/BMOPS: ZAda.S, Zn.S, Zm.S.
            Some((if s == 0 { Code::SmeBmopaS } else { Code::SmeBmopsS }, VA::Ss, VA::Ss, Feature::SmeB16b16))
        } else if s != 0 {
            // The FP8 forms have no subtract.
            None
        } else if b3 == 0 {
            // FP8 → FP32: ZAda.S, Zn.B, Zm.B.
            Some((Code::SmeFmopaB, VA::Ss, VA::Sb, Feature::SmeF8f32))
        } else {
            // FP8 → FP16: ZAda.H, Zn.B, Zm.B.
            Some((Code::SmeFmopaBh, VA::Sh, VA::Sb, Feature::SmeF8f16))
        }
    } else if b21 == 0 && b3 == 0 {
        // op24 == 1, sz == 10: 16-bit-input forms, src .H. (b21, b3) selects
        // BF16→FP32 / FP16→FP16 / FP16→FP32 / BF16→BF16.
        Some((if s == 0 { Code::SmeBfmopa } else { Code::SmeBfmops }, VA::Ss, VA::Sh, Feature::Sme))
    } else if b21 == 0 {
        Some((if s == 0 { Code::SmeFmopaHh } else { Code::SmeFmopsHh }, VA::Sh, VA::Sh, Feature::SmeF16f16))
    } else if b3 == 0 {
        Some((if s == 0 { Code::SmeFmopaH } else { Code::SmeFmopsH }, VA::Ss, VA::Sh, Feature::Sme))
    } else {
        Some((if s == 0 { Code::SmeBfmopaH } else { Code::SmeBfmopsH }, VA::Sh, VA::Sh, Feature::SmeB16b16))
    };

    if let Some((code, dst, src, feat)) = sel {
        if !features.has(feat) {
            return;
        }
        emit_mopa(word, code, dst, src, out);
    }
}

// ---------------------------------------------------------------------------
// Outer products (integer): word<31:29> == 101.
// ---------------------------------------------------------------------------

/// The integer outer product of `word`: (code, accumulator arrangement,
/// source arrangement, required feature), or `None`.
pub open spec fn mopa_int_sel(word: u32) -> Option<(Code, VA, VA, Feature)> {
    let u0 = field(word, 24, 1);
    let u1 = field(word, 21, 1);
    let sz = field(word, 22, 2);
    let b3 = field(word, 3, 1);
    let s = field(word, 4, 1);
    if sz == 0b10 && b3 == 0 {
        match mopa_int_code_spec(u0, u1, s, IntForm::SByte) {
            Some(c) => Some((c, VA::Ss, VA::Sb, Feature::Sme)),
            None => None,
        }
    } else if sz == 0b10 && b3 == 1 {
        match mopa_int_code_spec(u0, u1, s, IntForm::SHalf) {
            Some(c) => Some((c, VA::Ss, VA::Sh, Feature::Sme2)),
            None => None,
        }
    } else if sz == 0b11 && b3 == 0 {
        match mopa_int_code_spec(u0, u1, s, IntForm::DHalf) {
            Some(c) => Some((c, VA::Sd, VA::Sh, Feature::Sme)),
            None => None,
        }
    } else {
        None
    }
}

/// The instruction an integer outer-product word encodes under `features`,
/// or `None`.
pub open spec fn mopa_int_form(word: u32, features: FeatureSet) -> Option<(Code, Mnemonic, Seq<Operand>)> {
    match mopa_int_sel(word) {
        Some(t) => if features.contains(t.3) {
            mopa_insn(word, t.0, t.1, t.2)
        } else {
            None
        },
        None => None,
    }
}

/// `SMOPA`/`UMOPA`/`SUMOPA`/`USMOPA` and their `*OPS` (subtract) counterparts —
/// integer outer product into a ZA tile.
///
/// Signedness is the pair `(u0 = word<24>, u1 = word<21>)`. `S = word<4>`
/// selects accumulate(0)/subtract(1). The size `word<23:22>` and `b3 = word<3>`
/// select the source/destination element widths:
/// * `sz==10, b3==0` → 32-bit accumulator, `.B` sources (FEAT_SME); the
///   signedness for `.B` is `(0,0)`→S, `(0,1)`→SU, `(1,0)`→US, `(1,1)`→U.
/// * `sz==10, b3==1` → 32-bit accumulator, `.H` sources (FEAT_SME2); only the
///   symmetric `SMOPA`(`u0==0,u1==0`) / `UMOPA`(`u0==1,u1==0`) forms exist.
/// * `sz==11, b3==0` → 64-bit accumulator, `.H` sources (FEAT_SME, I16I64).
fn decode_mopa_int(word: u32, features: FeatureSet, out: &mut Instruction)
    requires
        old(out).is_blank(),
    ensures
        decode_post(*old(out), *final(out)),
        yields(*old(out), *final(out), mopa_int_form(word, features)),
{
    let u0: u32 = bit(word, 24);
    let u1: u32 = bit(word, 21);
    let sz: u32 = bits(word, 22, 2);
    let b3: u32 = bit(word, 3);

    // (code, dst-arr, src-arr, feature) for the (sz, b3, u0, u1) slot.
    let sel: Option<(Code, VA, VA, Feature)> = if sz == 0b10 && b3 == 0 {
        // 32-bit accumulator, byte sources (FEAT_SME).
        match mopa_int_code(u0, u1, bit(word, 4), IntForm::SByte) {
            Some(c) => Some((c, VA::Ss, VA::Sb, Feature::Sme)),
            None => None,
        }
    } else if sz == 0b10 && b3 == 1 {
        // 32-bit accumulator, halfword sources (FEAT_SME2): SMOPA / UMOPA only.
        match mopa_int_code(u0, u1, bit(word, 4), IntForm::SHalf) {
            Some(c) => Some((c, VA::Ss, VA::Sh, Feature::Sme2)),
            None => None,
        }
    } else if sz == 0b11 && b3 == 0 {
        // 64-bit accumulator, halfword sources (FEAT_SME, I16I64).
        match mopa_int_code(u0, u1, bit(word, 4), IntForm::DHalf) {
            Some(c) => Some((c, VA::Sd, VA::Sh, Feature::Sme)),
            None => None,
        }
    } else {
        None
    };

    if let Some((code, dst, src, feat)) = sel {
        if !features.has(feat) {
            return;
        }
        emit_mopa(word, code, dst, src, out);
    }
}

/// Which integer outer-product row family (selects the `(u0,u1)` → mnemonic map).
#[derive(Clone, Copy)]
pub enum IntForm {
    /// 32-bit accumulator, `.B` sources — all four signedness pairings.
    SByte,
    /// 32-bit accumulator, `.H` sources — only `SMOPA`/`UMOPA`.
    SHalf,
    /// 64-bit accumulator, `.H` sources — all four signedness pairings.
    DHalf,
}

/// The integer outer-product code of `(u0, u1)` signedness and `S` in a row
/// family, or `None`.
pub open spec fn mopa_int_code_spec(u0: u32, u1: u32, s: u32, form: IntForm) -> Option<Code> {
    match form {
        IntForm::SByte => if u0 == 0 && u1 == 0 {
            Some(acc(s, Code::SmeSmopaS, Code::SmeSmopsS))
        } else if u0 == 0 && u1 == 1 {
            Some(acc(s, Code::SmeSumopaS, Code::SmeSumopsS))
        } else if u0 == 1 && u1 == 0 {
            Some(acc(s, Code::SmeUsmopaS, Code::SmeUsmopsS))
        } else if u0 == 1 && u1 == 1 {
            Some(acc(s, Code::SmeUmopaS, Code::SmeUmopsS))
        } else {
            None
        },
        IntForm::SHalf => if u0 == 0 && u1 == 0 {
            Some(acc(s, Code::SmeSmopaHs, Code::SmeSmopsHs))
        } else if u0 == 1 && u1 == 0 {
            Some(acc(s, Code::SmeUmopaHs, Code::SmeUmopsHs))
        } else {
            None
        },
        IntForm::DHalf => if u0 == 0 && u1 == 0 {
            Some(acc(s, Code::SmeSmopaD, Code::SmeSmopsD))
        } else if u0 == 0 && u1 == 1 {
            Some(acc(s, Code::SmeSumopaD, Code::SmeSumopsD))
        } else if u0 == 1 && u1 == 0 {
            Some(acc(s, Code::SmeUsmopaD, Code::SmeUsmopsD))
        } else if u0 == 1 && u1 == 1 {
            Some(acc(s, Code::SmeUmopaD, Code::SmeUmopsD))
        } else {
            None
        },
    }
}

/// Map `(u0, u1)` signedness and `S` to the integer outer-product `Code`.
fn mopa_int_code(u0: u32, u1: u32, s: u32, form: IntForm) -> (r: Option<Code>)
    ensures
        r == mopa_int_code_spec(u0, u1, s, form),
{
    match form {
        IntForm::SByte => {
            if u0 == 0 && u1 == 0 {
                Some(acc_sub(s, Code::SmeSmopaS, Code::SmeSmopsS))
            } else if u0 == 0 && u1 == 1 {
                Some(acc_sub(s, Code::SmeSumopaS, Code::SmeSumopsS))
            } else if u0 == 1 && u1 == 0 {
                Some(acc_sub(s, Code::SmeUsmopaS, Code::SmeUsmopsS))
            } else if u0 == 1 && u1 == 1 {
                Some(acc_sub(s, Code::SmeUmopaS, Code::SmeUmopsS))
            } else {
                None
            }
        },
        IntForm::SHalf => {
            if u0 == 0 && u1 == 0 {
                Some(acc_sub(s, Code::SmeSmopaHs, Code::SmeSmopsHs))
            } else if u0 == 1 && u1 == 0 {
                Some(acc_sub(s, Code::SmeUmopaHs, Code::SmeUmopsHs))
            } else {
                None
            }
        },
        IntForm::DHalf => {
            if u0 == 0 && u1 == 0 {
                Some(acc_sub(s, Code::SmeSmopaD, Code::SmeSmopsD))
            } else if u0 == 0 && u1 == 1 {
                Some(acc_sub(s, Code::SmeSumopaD, Code::SmeSumopsD))
            } else if u0 == 1 && u1 == 0 {
                Some(acc_sub(s, Code::SmeUsmopaD, Code::SmeUsmopsD))
            } else if u0 == 1 && u1 == 1 {
                Some(acc_sub(s, Code::SmeUmopaD, Code::SmeUmopsD))
            } else {
                None
            }
        },
    }
}

/// `a` when `s == 0` (accumulate), `sub` otherwise (subtract).
fn acc_sub(s: u32, a: Code, sub: Code) -> (r: Code)
    ensures
        r == acc(s, a, sub),
{
    if s == 0 {
        a
    } else {
        sub
    }
}

// ---------------------------------------------------------------------------
// 4-source outer products (FEAT_SME_MOP4): the predicate-free quarter-tile
// `FMOP4A`/`SMOP4A`/... forms that replace `Pn`/`Pm` with `{Zm, Zm+1}` (and
// optionally `{Zn, Zn+1}`) register-pair sources.
// ---------------------------------------------------------------------------

/// `word` sits in the MOP4 sub-region of the outer-product quadrants: `sz ==
/// 00`, or `sz == 11` with `word<3> == 1`.
pub open spec fn is_mop4_spec(word: u32) -> bool {
    field(word, 22, 2) == 0b00 || (field(word, 22, 2) == 0b11 && field(word, 3, 1) == 1)
}

/// `true` when `word` sits in the MOP4 sub-region of the outer-product quadrants
/// (`word<31:29>` is `100` or `101`). MOP4 carves `sz == 00` and, within the
/// `.d`/I16I64 `sz == 11` region, the `word<3> == 1` slot (`word<3>` is reserved
/// for the predicated `sz == 11` forms). The `sz == 01` slot is `*TMOPA` and the
/// predicated `sz == 10` forms keep `word<3>` for their own sub-typing, so MOP4
/// never overlaps them.
fn is_mop4(word: u32) -> (r: bool)
    ensures
        r == is_mop4_spec(word),
{
    let sz: u32 = bits(word, 22, 2);
    if sz == 0b00 {
        true
    } else if sz == 0b11 {
        bit(word, 3) == 1
    } else {
        false
    }
}

/// The integer MOP4 of a 32-bit accumulator: (code, source arrangement).
pub open spec fn mop4_int_s_spec(u0: u32, u1: u32, b3: u32, s: u32) -> Option<(Code, VA)> {
    if b3 == 0 {
        if u0 == 0 && u1 == 0 {
            Some((acc(s, Code::SmeSmop4aS, Code::SmeSmop4sS), VA::Sb))
        } else if u0 == 0 && u1 == 1 {
            Some((acc(s, Code::SmeSumop4aS, Code::SmeSumop4sS), VA::Sb))
        } else if u0 == 1 && u1 == 0 {
            Some((acc(s, Code::SmeUsmop4aS, Code::SmeUsmop4sS), VA::Sb))
        } else if u0 == 1 && u1 == 1 {
            Some((acc(s, Code::SmeUmop4aS, Code::SmeUmop4sS), VA::Sb))
        } else {
            None
        }
    } else if b3 == 1 {
        if u0 == 0 && u1 == 0 {
            Some((acc(s, Code::SmeSmop4aHs, Code::SmeSmop4sHs), VA::Sh))
        } else if u0 == 1 && u1 == 0 {
            Some((acc(s, Code::SmeUmop4aHs, Code::SmeUmop4sHs), VA::Sh))
        } else {
            None
        }
    } else {
        None
    }
}

/// Map the integer MOP4 of a 32-bit accumulator (`sz == 00`, re-typed via
/// `word<15> == 1`) to `(Code, src_arr)`. `b3 = word<3>` selects byte (`0`) vs
/// halfword (`1`) sources; for the halfword sources only the symmetric
/// `SMOP4`/`UMOP4` rows exist.
fn mop4_int_s_code(u0: u32, u1: u32, b3: u32, s: u32) -> (r: Option<(Code, VA)>)
    ensures
        r == mop4_int_s_spec(u0, u1, b3, s),
{
    if b3 == 0 {
        if u0 == 0 && u1 == 0 {
            Some((acc_sub(s, Code::SmeSmop4aS, Code::SmeSmop4sS), VA::Sb))
        } else if u0 == 0 && u1 == 1 {
            Some((acc_sub(s, Code::SmeSumop4aS, Code::SmeSumop4sS), VA::Sb))
        } else if u0 == 1 && u1 == 0 {
            Some((acc_sub(s, Code::SmeUsmop4aS, Code::SmeUsmop4sS), VA::Sb))
        } else if u0 == 1 && u1 == 1 {
            Some((acc_sub(s, Code::SmeUmop4aS, Code::SmeUmop4sS), VA::Sb))
        } else {
            None
        }
    } else if b3 == 1 {
        if u0 == 0 && u1 == 0 {
            Some((acc_sub(s, Code::SmeSmop4aHs, Code::SmeSmop4sHs), VA::Sh))
        } else if u0 == 1 && u1 == 0 {
            Some((acc_sub(s, Code::SmeUmop4aHs, Code::SmeUmop4sHs), VA::Sh))
        } else {
            None
        }
    } else {
        None
    }
}

/// The integer MOP4 of a 64-bit accumulator.
pub open spec fn mop4_int_d_spec(u0: u32, u1: u32, s: u32) -> Option<Code> {
    if u0 == 0 && u1 == 0 {
        Some(acc(s, Code::SmeSmop4aD, Code::SmeSmop4sD))
    } else if u0 == 0 && u1 == 1 {
        Some(acc(s, Code::SmeSumop4aD, Code::SmeSumop4sD))
    } else if u0 == 1 && u1 == 0 {
        Some(acc(s, Code::SmeUsmop4aD, Code::SmeUsmop4sD))
    } else if u0 == 1 && u1 == 1 {
        Some(acc(s, Code::SmeUmop4aD, Code::SmeUmop4sD))
    } else {
        None
    }
}

/// Map the integer MOP4 of a 64-bit accumulator (`sz == 11`) to a `Code`. All
/// four `(u0, u1)` signedness pairings are valid; the source is always `.h`.
fn mop4_int_d_code(u0: u32, u1: u32, s: u32) -> (r: Option<Code>)
    ensures
        r == mop4_int_d_spec(u0, u1, s),
{
    if u0 == 0 && u1 == 0 {
        Some(acc_sub(s, Code::SmeSmop4aD, Code::SmeSmop4sD))
    } else if u0 == 0 && u1 == 1 {
        Some(acc_sub(s, Code::SmeSumop4aD, Code::SmeSumop4sD))
    } else if u0 == 1 && u1 == 0 {
        Some(acc_sub(s, Code::SmeUsmop4aD, Code::SmeUsmop4sD))
    } else if u0 == 1 && u1 == 1 {
        Some(acc_sub(s, Code::SmeUmop4aD, Code::SmeUmop4sD))
    } else {
        None
    }
}

/// A two-register consecutive vector group `{ z<n>.<T>, z<n+1>.<T> }`.
pub open spec fn vec_pair_spec(first: u32, arr: VA) -> Operand {
    Operand::SveVecGroup {
        first: reg_of(RegKind::Z, first, 0x1f),
        count: 2,
        arr: Some(arr),
        range: false,
        stride: 1,
        lane: None,
    }
}

/// A MOP4 `Zn` source: `word<5>` must be 0; `word<9>` selects a `{Zn,
/// Zn+1}` pair; the base register is `word<9:5> & 0x0E`.
pub open spec fn mop4_zn_spec(word: u32, arr: VA) -> Option<Operand> {
    let base = field(word, 5, 5) & 0x0E;
    if field(word, 5, 1) != 0 {
        None
    } else if field(word, 9, 1) == 1 {
        Some(vec_pair_spec(base, arr))
    } else {
        Some(zreg_spec(base, arr))
    }
}

/// A MOP4 `Zm` source: `word<16>` must be 0; `word<20>` selects a `{Zm,
/// Zm+1}` pair; the base register is `16 + (word<20:16> & 0x0E)`.
pub open spec fn mop4_zm_spec(word: u32, arr: VA) -> Option<Operand> {
    let base = (16 + (field(word, 16, 5) & 0x0E)) as u32;
    if field(word, 16, 1) != 0 {
        None
    } else if field(word, 20, 1) == 1 {
        Some(vec_pair_spec(base, arr))
    } else {
        Some(zreg_spec(base, arr))
    }
}

/// Read a MOP4 `Zn` source.
fn mop4_zn(word: u32, arr: VA) -> (r: Option<Operand>)
    ensures
        r == mop4_zn_spec(word, arr),
{
    if bit(word, 5) != 0 {
        return None;
    }
    let base: u32 = bits(word, 5, 5) & 0x0E;
    Some(if bit(word, 9) == 1 {
        vec_pair(base, arr)
    } else {
        zreg(base, arr)
    })
}

/// Read a MOP4 `Zm` source.
fn mop4_zm(word: u32, arr: VA) -> (r: Option<Operand>)
    ensures
        r == mop4_zm_spec(word, arr),
{
    if bit(word, 16) != 0 {
        return None;
    }
    let f5: u32 = bits(word, 16, 5);
    let low = f5 & 0x0E;
    assert(low <= 14) by (bit_vector)
        requires
            low == f5 & 0x0E,
    ;
    let base: u32 = 16 + low;
    Some(if bit(word, 20) == 1 {
        vec_pair(base, arr)
    } else {
        zreg(base, arr)
    })
}

/// A two-register consecutive vector group `{ z<n>.<T>, z<n+1>.<T> }`.
fn vec_pair(first: u32, arr: VA) -> (r: Operand)
    ensures
        r == vec_pair_spec(first, arr),
{
    Operand::SveVecGroup {
        first: Register::z(first),
        count: 2,
        arr: Some(arr),
        range: false,
        stride: 1,
        lane: None,
    }
}

/// The floating-point MOP4 row for `(op24, u1, b3, s)` at `sz == 00`,
/// `word<15> == 0`: (code, accumulator arrangement, source arrangement).
pub open spec fn fp_mop4_spec(op24: u32, u1: u32, b3: u32, s: u32) -> Option<(Code, VA, VA)> {
    if op24 == 0 && u1 == 0 && b3 == 0 {
        Some((acc(s, Code::SmeFmop4aS, Code::SmeFmop4sS), VA::Ss, VA::Ss))
    } else if op24 == 0 && u1 == 1 && b3 == 0 && s == 0 {
        Some((Code::SmeFmop4aB, VA::Ss, VA::Sb))
    } else if op24 == 0 && u1 == 1 && b3 == 1 && s == 0 {
        Some((Code::SmeFmop4aBh, VA::Sh, VA::Sb))
    } else if op24 == 1 && u1 == 0 && b3 == 0 {
        Some((acc(s, Code::SmeBfmop4aS, Code::SmeBfmop4sS), VA::Ss, VA::Sh))
    } else if op24 == 1 && u1 == 0 && b3 == 1 {
        Some((acc(s, Code::SmeFmop4aHh, Code::SmeFmop4sHh), VA::Sh, VA::Sh))
    } else if op24 == 1 && u1 == 1 && b3 == 0 {
        Some((acc(s, Code::SmeFmop4aHs, Code::SmeFmop4sHs), VA::Ss, VA::Sh))
    } else if op24 == 1 && u1 == 1 && b3 == 1 {
        Some((acc(s, Code::SmeBfmop4aHh, Code::SmeBfmop4sHh), VA::Sh, VA::Sh))
    } else {
        None
    }
}

/// The floating-point MOP4 row for `(op24, u1, b3, s)` at `sz == 00`,
/// `word<15> == 0`: (code, accumulator arrangement, source arrangement).
fn fp_mop4_sel(op24: u32, u1: u32, b3: u32, s: u32) -> (r: Option<(Code, VA, VA)>)
    ensures
        r == fp_mop4_spec(op24, u1, b3, s),
{
    if op24 == 0 && u1 == 0 && b3 == 0 {
        Some((acc_sub(s, Code::SmeFmop4aS, Code::SmeFmop4sS), VA::Ss, VA::Ss))
    } else if op24 == 0 && u1 == 1 && b3 == 0 && s == 0 {
        Some((Code::SmeFmop4aB, VA::Ss, VA::Sb))
    } else if op24 == 0 && u1 == 1 && b3 == 1 && s == 0 {
        Some((Code::SmeFmop4aBh, VA::Sh, VA::Sb))
    } else if op24 == 1 && u1 == 0 && b3 == 0 {
        Some((acc_sub(s, Code::SmeBfmop4aS, Code::SmeBfmop4sS), VA::Ss, VA::Sh))
    } else if op24 == 1 && u1 == 0 && b3 == 1 {
        Some((acc_sub(s, Code::SmeFmop4aHh, Code::SmeFmop4sHh), VA::Sh, VA::Sh))
    } else if op24 == 1 && u1 == 1 && b3 == 0 {
        Some((acc_sub(s, Code::SmeFmop4aHs, Code::SmeFmop4sHs), VA::Ss, VA::Sh))
    } else if op24 == 1 && u1 == 1 && b3 == 1 {
        Some((acc_sub(s, Code::SmeBfmop4aHh, Code::SmeBfmop4sHh), VA::Sh, VA::Sh))
    } else {
        None
    }
}

/// The MOP4 row of `word`: (code, accumulator arrangement, source
/// arrangement), from `op29 = word<29>`, the size, `op24`, `u1`, the
/// integer-select `word<15>`, `word<3>` and `S`.
pub open spec fn mop4_sel(word: u32) -> Option<(Code, VA, VA)> {
    let op29 = field(word, 29, 1);
    let op24 = field(word, 24, 1);
    let sz = field(word, 22, 2);
    let u1 = field(word, 21, 1);
    let s = field(word, 4, 1);
    let b15 = field(word, 15, 1);
    let b3 = field(word, 3, 1);
    if op29 == 0 && sz == 0b00 && b15 == 0 {
        fp_mop4_spec(op24, u1, b3, s)
    } else if op29 == 0 && sz == 0b00 {
        match mop4_int_s_spec(op24, u1, b3, s) {
            Some(p) => Some((p.0, VA::Ss, p.1)),
            None => None,
        }
    } else if op29 == 0 && sz == 0b11 && b3 == 1 && b15 == 0 && op24 == 0 && u1 == 0 {
        Some((acc(s, Code::SmeFmop4aD, Code::SmeFmop4sD), VA::Sd, VA::Sd))
    } else if op29 == 1 && sz == 0b11 && b3 == 1 && b15 == 0 {
        match mop4_int_d_spec(op24, u1, s) {
            Some(c) => Some((c, VA::Sd, VA::Sh)),
            None => None,
        }
    } else {
        None
    }
}

/// The instruction a MOP4 word encodes under `features`, or `None`:
/// `ZAda.<dst>, Zn.<src>, Zm.<src>` (each source a register or a pair),
/// with `word<14:10>` and `word<16>` zero and FEAT_SME_MOP4 required.
pub open spec fn mop4_form(word: u32, features: FeatureSet) -> Option<(Code, Mnemonic, Seq<Operand>)> {
    if field(word, 10, 5) != 0 || field(word, 16, 1) != 0 || !features.contains(Feature::SmeMop4) {
        None
    } else {
        match mop4_sel(word) {
            Some(t) => match (zada_spec(word, t.1), mop4_zn_spec(word, t.2), mop4_zm_spec(word, t.2)) {
                (Some(z), Some(zn), Some(zm)) => insn(t.0, seq![zreg_spec(z, t.1), zn, zm]),
                _ => None,
            },
            None => None,
        }
    }
}

/// `FMOP4A`/`FMOP4S`/`BFMOP4*`/`SMOP4*`/... — the 4-source outer products.
///
/// Operands are `ZAda.<dst>, Zn.<src>, Zm.<src>` where the `Zn`/`Zm` may be
/// single registers or `{Z, Z+1}` pairs (selected by `word<9>` / `word<20>`).
/// There are no governing predicates: `word<16>` (`Zm<0>`) and `word<14:10>`
/// are fixed at zero. The type is a function of `op29 = word<29>`, the size
/// `word<23:22>`, `op24 = word<24>`, `u1 = word<21>`, the integer-select
/// `b15 = word<15>` (only meaningful at `sz == 00`), `b3 = word<3>` and
/// `S = word<4>`.
fn decode_mop4(word: u32, features: FeatureSet, out: &mut Instruction)
    requires
        old(out).is_blank(),
    ensures
        decode_post(*old(out), *final(out)),
        yields(*old(out), *final(out), mop4_form(word, features)),
{
    // Structural MOP4 frame: `word<14:10>` (the low predicate-position bits) and
    // `Zm<0> = word<16>` are zero. `word<15>` is the int/FP type-select at
    // `sz == 00`, so it is excluded from this guard.
    if bits(word, 10, 5) != 0 || bit(word, 16) != 0 {
        return;
    }
    if !features.has(Feature::SmeMop4) {
        return;
    }

    let op29: u32 = bit(word, 29);
    let op24: u32 = bit(word, 24);
    let sz: u32 = bits(word, 22, 2);
    let u1: u32 = bit(word, 21);
    let s: u32 = bit(word, 4);
    let b15: u32 = bit(word, 15);
    let b3: u32 = bit(word, 3);

    // (code, dst-arr, src-arr).
    let sel: Option<(Code, VA, VA)> = if op29 == 0 && sz == 0b00 && b15 == 0 {
        // Floating-point MOP4 quadrant, `sz == 00`.
        fp_mop4_sel(op24, u1, b3, s)
    } else if op29 == 0 && sz == 0b00 {
        // `word<15> == 1` re-types the slot as an integer MOP4: `.s`
        // accumulator, `.b`/`.h` sources.
        match mop4_int_s_code(op24, u1, b3, s) {
            Some((c, src)) => Some((c, VA::Ss, src)),
            None => None,
        }
    } else if op29 == 0 && sz == 0b11 && b3 == 1 && b15 == 0 && op24 == 0 && u1 == 0 {
        // FP64 MOP4: `sz == 11`, `word<3> == 1`, `word<15> == 0`.
        Some((acc_sub(s, Code::SmeFmop4aD, Code::SmeFmop4sD), VA::Sd, VA::Sd))
    } else if op29 == 1 && sz == 0b11 && b3 == 1 && b15 == 0 {
        // Integer MOP4 (`word<29> == 1`): `.d` accumulator, `.h` sources.
        match mop4_int_d_code(op24, u1, s) {
            Some(c) => Some((c, VA::Sd, VA::Sh)),
            None => None,
        }
    } else {
        None
    };

    let (code, dst, src) = match sel {
        Some(v) => v,
        None => return,
    };

    let zada = match zada_field(word, dst) {
        Some(z) => z,
        None => return,
    };
    let zn = match mop4_zn(word, src) {
        Some(z) => z,
        None => return,
    };
    let zm = match mop4_zm(word, src) {
        Some(z) => z,
        None => return,
    };
    install3(out, code, mnemonic_of(code), zreg(zada, dst), zn, zm);
}

// ---------------------------------------------------------------------------
// MOVA / ADDHA / ADDVA: word<31:29> == 110.
// ---------------------------------------------------------------------------

/// The instruction a `110`-quadrant word with `word<24> == 0` encodes under
/// `features`, or `None`: the LUTI (ZT0), tile and array MOV / MOVAZ and
/// ZERO / MOVT shells first, then ADDHA / ADDVA and MOVA / MOVAZ.
pub open spec fn mova_add_form(word: u32, features: FeatureSet) -> Option<(Code, Mnemonic, Seq<Operand>)> {
    let sme2 = features.contains(Feature::Sme2);
    if field(word, 24, 1) != 0 {
        None
    } else if features.contains(Feature::Lut) && field(word, 23, 1) == 1 && field(word, 21, 1) == 0 && field(word, 19, 1) == 1 {
        sme_lut::lut_zt_form(word)
    } else if sme2 && field(word, 19, 3) == 0 && field(word, 18, 1) == 1 && field(word, 16, 1) == 0 && field(word, 11, 2) == 0 {
        with_mnemonic(sme_za_move::tile_move_form(word))
    } else if sme2 && field(word, 19, 3) == 0 && field(word, 18, 1) == 1 && field(word, 16, 1) == 0 && field(word, 11, 2) == 0b10 {
        with_mnemonic(sme_za_move::array_move_form(word))
    } else if field(word, 23, 1) == 0 && field(word, 19, 1) == 1 {
        with_mnemonic(sme_zero_movt::zero_movt_form(word, features))
    } else if field(word, 21, 1) == 0 && field(word, 20, 1) == 1 && field(word, 17, 3) == 0 {
        addha_form(word)
    } else if field(word, 18, 4) == 0 {
        mova_form(word, features)
    } else {
        None
    }
}

/// Dispatch the `110` SME quadrant. Both `MOVA` and `ADDHA`/`ADDVA` carry
/// `word<24> == 0` (the `11000000`/`11000001` size-dependent rows) and use
/// `word<23:22>` as the element size; they are distinguished by the opcode field
/// `word<21:17>`: `MOVA` is `0000x` (`word<20> == 0`, direction in `word<17>`)
/// while `ADDHA`/`ADDVA` is `01000` (`word<20> == 1`). `word<24> == 1` is
/// unallocated here.
fn decode_mova_add(word: u32, features: FeatureSet, out: &mut Instruction)
    requires
        old(out).is_blank(),
    ensures
        decode_post(*old(out), *final(out)),
        yields(*old(out), *final(out), mova_add_form(word, features)),
{
    if bit(word, 24) != 0 {
        return;
    }
    // SME2 LUTI2/LUTI4 (ZT0) carve the `word<23> == 1, word<21:20> == 00,
    // word<19> == 1` sub-region (FEAT_LUT); the SME2 ZA tile-slice and
    // ZA-array `MOV`/`MOVAZ` carve `word<21:19> == 000, word<18> == 1,
    // word<16> == 0` (FEAT_SME2); ZERO / MOVT carve `word<23> == 0,
    // word<19> == 1`. Route them first; their shells never overlap the base
    // MOVA / ADDHA / ADDVA encodings.
    if features.has(Feature::Lut)
        && bit(word, 23) == 1
        && bit(word, 21) == 0
        && bit(word, 19) == 1
    {
        // word<20> is the LUTI strided/consecutive selector (free here); word<21>
        // must be 0 and word<19> == 1 pins the LUTI ZT0 family.
        sme_lut::decode(word, out);
        return;
    }
    if features.has(Feature::Sme2)
        && bits(word, 19, 3) == 0b000
        && bit(word, 18) == 1
        && bit(word, 16) == 0
        && bits(word, 11, 2) == 0
    {
        sme_za_move::decode(word, out);
        return;
    }
    if features.has(Feature::Sme2)
        && bits(word, 19, 3) == 0b000
        && bit(word, 18) == 1
        && bit(word, 16) == 0
        && bits(word, 11, 2) == 0b10
    {
        sme_za_move::decode_array(word, out);
        return;
    }
    // ZERO (tile mask / ZT0 / ZA array) and MOVT share the `word<23> == 0`,
    // `word<19> == 1` shell.
    if bit(word, 23) == 0 && bit(word, 19) == 1 {
        sme_zero_movt::decode(word, features, out);
        return;
    }
    // Opcode `word<21:17>`: ADDHA/ADDVA are `01000`; MOVA is `0000x`.
    if bit(word, 21) == 0 && bit(word, 20) == 1 && bits(word, 17, 3) == 0 {
        decode_addha_addva(word, out);
    } else if bits(word, 18, 4) == 0 {
        // MOVA: word<21:18> == 0000 (direction in word<17>).
        decode_mova(word, features, out);
    }
}

/// The instruction an ADDHA (`word<16> == 0`) / ADDVA word encodes:
/// `ZAda.<T>, Pn/M, Pm/M, Zn.<T>`, `.S` (2-bit ZAda) or, with `word<22>`,
/// `.D` (3-bit ZAda).
pub open spec fn addha_form(word: u32) -> Option<(Code, Mnemonic, Seq<Operand>)> {
    let is64 = field(word, 22, 1) == 1;
    let arr = if is64 { VA::Sd } else { VA::Ss };
    let zada = if is64 { field(word, 0, 3) } else { field(word, 0, 2) };
    insn(if field(word, 16, 1) == 0 { Code::SmeAddha } else { Code::SmeAddva }, seq![
        zreg_spec(zada, arr),
        preg_q_spec(field(word, 10, 3), PredQual::Merging),
        preg_q_spec(field(word, 13, 3), PredQual::Merging),
        zreg_spec(field(word, 5, 5), arr),
    ])
}

/// `ADDHA`/`ADDVA` — add horizontally / vertically the elements of a vector to
/// a 32- or 64-bit-element ZA tile.
///
/// `V = word<16>` selects `ADDHA`(0)/`ADDVA`(1). The element size is
/// `word<22>` (`0`→`.S`, ZAda 2-bit; `1`→`.D`, ZAda 3-bit). Operand order is
/// `ZAda.<T>, Pn/M, Pm/M, Zn.<T>` with `Zn = word<9:5>`, `Pn = word<12:10>`,
/// `Pm = word<15:13>`.
fn decode_addha_addva(word: u32, out: &mut Instruction)
    requires
        old(out).is_blank(),
    ensures
        decode_post(*old(out), *final(out)),
        yields(*old(out), *final(out), addha_form(word)),
{
    let v: u32 = bit(word, 16);
    let pm: u32 = bits(word, 13, 3);
    let pn: u32 = bits(word, 10, 3);
    let zn: u32 = bits(word, 5, 5);
    let is64 = bit(word, 22) == 1;
    let arr = if is64 { VA::Sd } else { VA::Ss };
    let zada: u32 = if is64 { bits(word, 0, 3) } else { bits(word, 0, 2) };
    let code = if v == 0 { Code::SmeAddha } else { Code::SmeAddva };
    install4(out, code, mnemonic_of(code), zreg(zada, arr), preg_q(pn, PredQual::Merging), preg_q(pm, PredQual::Merging),
        zreg(zn, arr));
}

/// The MOVA element of `(size, Q)`: the arrangement and the width of the
/// slice index in the 4-bit `ZAd:imm` field.
pub open spec fn mova_elem(size: u32, q: u32) -> (VA, u32) {
    if size == 0 {
        (VA::Sb, 4)
    } else if size == 1 {
        (VA::Sh, 3)
    } else if size == 2 {
        (VA::Ss, 2)
    } else if q == 1 {
        (VA::Sq, 0)
    } else {
        (VA::Sd, 1)
    }
}

/// The tile and slice index of a 4-bit `ZAd:imm` field: the index is the
/// low `imm_bits` bits (none when `imm_bits == 0`), the tile the rest.
pub open spec fn split_spec(fld: u32, imm_bits: u32) -> (u32, Option<u8>) {
    (fld / pow2_small(imm_bits), if imm_bits == 0 { None } else { Some((fld % pow2_small(imm_bits)) as u8) })
}

/// The instruction a MOVA / MOVAZ word encodes under `features`, or `None`:
/// tile to vector (`word<17> == 1`; `word<9>` selects the unpredicated
/// MOVAZ, FEAT_SME2, with `Pg` zero) or vector to tile (`word<4>` zero).
/// `word<16>` (`Q`) is only allowed with the 64-bit size.
pub open spec fn mova_form(word: u32, features: FeatureSet) -> Option<(Code, Mnemonic, Seq<Operand>)> {
    let size = field(word, 22, 2);
    let q = field(word, 16, 1);
    let vertical = field(word, 15, 1) == 1;
    let rs = field(word, 13, 2);
    let pg = field(word, 10, 3);
    let e = mova_elem(size, q);
    if q == 1 && size != 0b11 {
        None
    } else if field(word, 17, 1) == 1 {
        let t = split_spec(field(word, 5, 4), e.1);
        let zd = zreg_spec(field(word, 0, 5), e.0);
        let slice = tile_slice_spec(t.0, vertical, e.0, rs, t.1);
        if field(word, 9, 1) == 1 {
            if !features.contains(Feature::Sme2) || pg != 0 {
                None
            } else {
                insn(Code::SmeMovazTileToZ, seq![zd, slice])
            }
        } else {
            insn(Code::SmeMovaTileToZ, seq![zd, preg_q_spec(pg, PredQual::Merging), slice])
        }
    } else if field(word, 4, 1) != 0 {
        None
    } else {
        let t = split_spec(field(word, 0, 4), e.1);
        insn(Code::SmeMovaZToTile, seq![
            tile_slice_spec(t.0, vertical, e.0, rs, t.1),
            preg_q_spec(pg, PredQual::Merging),
            zreg_spec(field(word, 5, 5), e.0),
        ])
    }
}

/// `MOVA` — move a vector to/from a ZA tile slice.
///
/// `word<17>` selects the direction: `0` → tile ← vector (`MOVA <tile-slice>,
/// <Pg>/M, <Zn>`); `1` → vector ← tile (`MOVA <Zd>, <Pg>/M, <tile-slice>`). The
/// element size is `word<23:22>` for `B`/`H`/`S`/`D`, with `Q` selected by
/// `word<16> == 1` (`Q`) when size is `D` (`11`). `V = word<15>` is the slice
/// direction (`h`/`v`); `Rs = word<14:13>` the `Ws` slice select; `Pg =
/// word<12:10>`.
///
/// The tile number and slice index share a 4-bit field, with the tile in the
/// high bits and the index in the low bits; the split point is the element size
/// (`B`: 0 tile bits / 4 index; `H`: 1/3; `S`: 2/2; `D`: 3/1; `Q`: 4/0). For the
/// tile→vector direction this field is `word<8:5>` (with `Zd = word<4:0>`); for
/// the vector→tile direction it is `word<3:0>` (with `Zn = word<9:5>`).
///
/// For the tile→vector direction only, `word<9>` (which lies above the 5-bit
/// `Zd`) selects the *zeroing* readout `MOVAZ` (`word<9> == 1`, FEAT_SME2) versus
/// the non-zeroing predicated `MOVA` (`word<9> == 0`). `MOVAZ` has no governing
/// predicate. In the vector→tile direction `word<9>` is part of `Zn`, so there is
/// no `MOVAZ` there.
fn decode_mova(word: u32, features: FeatureSet, out: &mut Instruction)
    requires
        old(out).is_blank(),
    ensures
        decode_post(*old(out), *final(out)),
        yields(*old(out), *final(out), mova_form(word, features)),
{
    let size: u32 = bits(word, 22, 2);
    let q: u32 = bit(word, 16);
    let vertical = bit(word, 15) == 1;
    let rs: u32 = bits(word, 13, 2);
    let pg: u32 = bits(word, 10, 3);

    // `word<16>` (`Q`) is the `.Q`/`.D` selector, but it is only meaningful for
    // the 64-bit size `word<23:22> == 11` (`Q == 1` → `.Q`, `Q == 0` → `.D`). For
    // every smaller element size `Q` is RES0 — a set bit is UNDEFINED.
    if q == 1 && size != 0b11 {
        return;
    }

    // Element kind and the number of index immediate bits.
    let (arr, imm_bits): (VA, u32) = if size == 0 {
        (VA::Sb, 4u32)
    } else if size == 1 {
        (VA::Sh, 3)
    } else if size == 2 {
        (VA::Ss, 2)
    } else if q == 1 {
        (VA::Sq, 0)
    } else {
        (VA::Sd, 1)
    };

    if bit(word, 17) == 1 {
        // Z ← ZA tile slice: tile-slice field at word<8:5>, Zd = word<4:0>.
        // `word<9>` selects the zeroing readout `MOVAZ` (1, FEAT_SME2, no
        // predicate) vs the predicated `MOVA` (0).
        let zd: u32 = bits(word, 0, 5);
        let field: u32 = bits(word, 5, 4);
        let (tile, imm): (u32, Option<u8>) = split_tile_field(field, imm_bits);
        if bit(word, 9) == 1 {
            // MOVAZ renders without a governing predicate, so the `Pg` field
            // `word<12:10>` is RES0.
            if !features.has(Feature::Sme2) || pg != 0 {
                return;
            }
            install2(out, Code::SmeMovazTileToZ, zreg(zd, arr), tile_slice(tile, vertical, arr, rs, imm));
            return;
        }
        install3(out, Code::SmeMovaTileToZ, mnemonic_of(Code::SmeMovaTileToZ), zreg(zd, arr),
            preg_q(pg, PredQual::Merging), tile_slice(tile, vertical, arr, rs, imm));
    } else {
        // ZA tile slice ← Z: tile-slice field at word<3:0>, Zn = word<9:5>.
        // `word<4>` lies between the 4-bit `ZAd:imm` field and `Zn`; it is RES0.
        if bit(word, 4) != 0 {
            return;
        }
        let zn: u32 = bits(word, 5, 5);
        let field: u32 = bits(word, 0, 4);
        let (tile, imm): (u32, Option<u8>) = split_tile_field(field, imm_bits);
        install3(out, Code::SmeMovaZToTile, mnemonic_of(Code::SmeMovaZToTile),
            tile_slice(tile, vertical, arr, rs, imm), preg_q(pg, PredQual::Merging), zreg(zn, arr));
    }
}

/// Split a 4-bit `ZAd:imm` field into `(tile_number, slice_index)`: the index
/// is the low `imm_bits` bits and the tile the rest. With `imm_bits == 0` (the
/// `.q` forms) there is no index.
fn split_tile_field(field: u32, imm_bits: u32) -> (r: (u32, Option<u8>))
    requires
        field < 16,
        imm_bits <= 4,
    ensures
        r == split_spec(field, imm_bits),
{
    let p: u32 = if imm_bits == 0 {
        1
    } else if imm_bits == 1 {
        2
    } else if imm_bits == 2 {
        4
    } else if imm_bits == 3 {
        8
    } else {
        16
    };
    let tile = field / p;
    if imm_bits == 0 {
        (tile, None)
    } else {
        (tile, Some((field % p) as u8))
    }
}

/// `2^n` for the small exponents of a tile / slice split.
pub open spec fn pow2_small(n: u32) -> u32 {
    if n == 0 {
        1
    } else if n == 1 {
        2
    } else if n == 2 {
        4
    } else if n == 3 {
        8
    } else {
        16
    }
}

// ---------------------------------------------------------------------------
// ZA-array load/store: word<31:29> == 111.
// ---------------------------------------------------------------------------

/// The instruction a `111`-quadrant word encodes: the whole-array `LDR` /
/// `STR` ZA (`word<24> == 1`, size `00`) or the tile-slice `LD1*` / `ST1*`.
pub open spec fn za_ldst_form(word: u32) -> Option<(Code, Mnemonic, Seq<Operand>)> {
    if field(word, 24, 1) == 1 && field(word, 22, 2) == 0 {
        ldr_str_za_form(word)
    } else {
        ld1_st1_za_form(word)
    }
}

/// Dispatch the `111` SME quadrant: the whole-array `LDR`/`STR` ZA forms
/// (`word<24> == 1` with size `word<23:22> == 00`) versus the per-slice
/// `LD1*`/`ST1*` ZA-array vector loads/stores (everything else).
fn decode_za_ldst(word: u32, out: &mut Instruction)
    requires
        old(out).is_blank(),
    ensures
        decode_post(*old(out), *final(out)),
        yields(*old(out), *final(out), za_ldst_form(word)),
{
    // LDR/STR ZA: `1110000100|op|000000|Rv|000|Rn|0|imm4` — bit24==1 and the
    // size field word<23:22>==00 (LD1Q/ST1Q also set bit24 but have size==11).
    if bit(word, 24) == 1 && bits(word, 22, 2) == 0 {
        decode_ldr_str_za(word, out);
    } else {
        decode_ld1_st1_za(word, out);
    }
}

/// The tile-slice load/store row: (load code, store code, arrangement,
/// `log2` of the element bytes, slice-index width), or `None` for a `.Q`
/// form (`word<24> == 1`) whose size is not `11`.
pub open spec fn ld1_st1_elem(word: u32) -> Option<(Code, Code, VA, u8, u32)> {
    let size = field(word, 22, 2);
    if field(word, 24, 1) == 1 {
        if size != 0b11 {
            None
        } else {
            Some((Code::SmeLd1qZa, Code::SmeSt1qZa, VA::Sq, 4, 0))
        }
    } else if size == 0 {
        Some((Code::SmeLd1bZa, Code::SmeSt1bZa, VA::Sb, 0, 4))
    } else if size == 1 {
        Some((Code::SmeLd1hZa, Code::SmeSt1hZa, VA::Sh, 1, 3))
    } else if size == 2 {
        Some((Code::SmeLd1wZa, Code::SmeSt1wZa, VA::Ss, 2, 2))
    } else {
        Some((Code::SmeLd1dZa, Code::SmeSt1dZa, VA::Sd, 3, 1))
    }
}

/// The instruction a ZA tile-slice `LD1*` / `ST1*` word encodes, or `None`:
/// `za0<h|v>.<T>[<Ws>{, #imm}], <Pg>{/Z}, [<Xn|SP>{, <Xm>, LSL #log2}]`
/// with `word<4>` zero; loads take `/Z`.
pub open spec fn ld1_st1_za_form(word: u32) -> Option<(Code, Mnemonic, Seq<Operand>)> {
    let store = field(word, 21, 1) == 1;
    match ld1_st1_elem(word) {
        Some(e) => if field(word, 4, 1) != 0 {
            None
        } else {
            insn(if store { e.1 } else { e.0 }, seq![
                tile_slice_spec(0, field(word, 15, 1) == 1, e.2, field(word, 13, 2), if e.4 == 0 {
                    None
                } else {
                    Some(field(word, 0, e.4) as u8)
                }),
                preg_q_spec(field(word, 10, 3), if store { PredQual::Plain } else { PredQual::Zeroing }),
                Operand::MemExt {
                    base: gp_spec(true, RegWidth::X64, field(word, 5, 5) as u8),
                    index: gp_spec(false, RegWidth::X64, field(word, 16, 5) as u8),
                    extend: ExtendType::Uxtx,
                    shift: if e.3 == 0 { 0 } else { 0x80 | e.3 },
                },
            ])
        },
        None => None,
    }
}

/// `LD1B/H/W/D/Q` and `ST1B/H/W/D/Q` (ZA array vector) — contiguous load/store
/// of a single ZA tile slice, predicated.
///
/// The single ZA tile is implicitly `0`. `V = word<15>` selects the slice
/// direction (`h`/`v`); `Rs = word<14:13>` the `Ws` slice select; `Pg =
/// word<12:10>`; `Rn = word<9:5>` the base; `Rm = word<20:16>` the index. The
/// element/byte size is `word<23:22>` (`Q` when `word<24> == 1`). The slice
/// index immediate occupies the low bits of `word<3:0>` (width per element size;
/// none for `.Q`). The index register is scaled by `LSL #log2(bytes)`. Loads
/// take a `/Z` predicate; stores take a bare predicate.
fn decode_ld1_st1_za(word: u32, out: &mut Instruction)
    requires
        old(out).is_blank(),
    ensures
        decode_post(*old(out), *final(out)),
        yields(*old(out), *final(out), ld1_st1_za_form(word)),
{
    let is_q = bit(word, 24) == 1;
    let size: u32 = bits(word, 22, 2);
    let is_store = bit(word, 21) == 1;
    let rm: u32 = bits(word, 16, 5);
    let vertical = bit(word, 15) == 1;
    let rs: u32 = bits(word, 13, 2);
    let pg: u32 = bits(word, 10, 3);
    let rn: u32 = bits(word, 5, 5);

    // (code, arr, log2(bytes), index-imm-bits).
    let (code_ld, code_st, arr, log2, imm_bits): (Code, Code, VA, u8, u32) = if is_q {
        // The `.Q` form (`word<24> == 1`) is allocated only when the size field
        // `word<23:22> == 11`; `01`/`10` are reserved (`00` was already routed to
        // `LDR`/`STR` ZA by the dispatcher).
        if size != 0b11 {
            return;
        }
        (Code::SmeLd1qZa, Code::SmeSt1qZa, VA::Sq, 4, 0)
    } else if size == 0 {
        (Code::SmeLd1bZa, Code::SmeSt1bZa, VA::Sb, 0, 4)
    } else if size == 1 {
        (Code::SmeLd1hZa, Code::SmeSt1hZa, VA::Sh, 1, 3)
    } else if size == 2 {
        (Code::SmeLd1wZa, Code::SmeSt1wZa, VA::Ss, 2, 2)
    } else {
        (Code::SmeLd1dZa, Code::SmeSt1dZa, VA::Sd, 3, 1)
    };

    // `word<4>` is a fixed-zero bit for every contiguous ZA tile-slice
    // load/store: the slice-select group `word<3:0>` packs the tile number
    // (high bits) and the slice index (low bits), and bit 4 lies above it.
    if bit(word, 4) != 0 {
        return;
    }

    let imm = if imm_bits == 0 {
        None
    } else {
        Some(bits(word, 0, imm_bits) as u8)
    };

    let code = if is_store { code_st } else { code_ld };
    let pred = if is_store {
        preg_q(pg, PredQual::Plain)
    } else {
        preg_q(pg, PredQual::Zeroing)
    };

    // Memory: `[Xn{, Xm, LSL #log2}]`. The index uses `Uxtx` (rendered as `lsl`),
    // with the scale shown for the scaled element sizes (H/W/D/Q) and elided for
    // the byte form (`log2 == 0`).
    let base = gp_register(true, RegWidth::X64, rn as u8);
    let index = gp_register(false, RegWidth::X64, rm as u8);
    // `shift` carries the amount in the low 7 bits and "show amount" in bit7.
    let shift: u8 = if log2 == 0 { 0 } else { 0x80 | log2 };
    let mem = Operand::MemExt {
        base,
        index,
        extend: ExtendType::Uxtx,
        shift,
    };
    install3(out, code, mnemonic_of(code), tile_slice(0, vertical, arr, rs, imm), pred, mem);
}

/// The instruction an `LDR` / `STR` ZA word encodes, or `None` when a fixed
/// field is set: `za[<Wv>, #imm4], [<Xn|SP>{, #imm4, MUL VL}]`.
pub open spec fn ldr_str_za_form(word: u32) -> Option<(Code, Mnemonic, Seq<Operand>)> {
    let imm4 = field(word, 0, 4) as i32;
    if field(word, 16, 5) != 0 || field(word, 15, 1) != 0 || field(word, 10, 3) != 0 || field(word, 4, 1) != 0 {
        None
    } else {
        insn(if field(word, 21, 1) == 1 { Code::SmeStrZa } else { Code::SmeLdrZa }, seq![
            Operand::SmeTileSlice {
                reg: Register { kind: RegKind::Absent, num: 0 },
                slice: SliceIndicator::Neither,
                arr: None,
                sel: gp_spec(false, RegWidth::W32, (12 + (field(word, 13, 2) & 3)) as u8),
                imm: imm4 as u8,
                has_imm: true,
            },
            Operand::SveMem {
                base: gp_spec(true, RegWidth::X64, field(word, 5, 5) as u8),
                offset: Register { kind: RegKind::Absent, num: 0 },
                arr: None,
                extend: ExtendType::Uxtx,
                imm: imm4,
                amount: 0,
                mode: SveMemMode::ScalarImmMulVl,
            },
        ])
    }
}

/// `LDR`/`STR` (ZA array vector) — load/store one whole ZA array vector to/from
/// memory, addressed by `[Xn{, #imm, MUL VL}]`.
///
/// `op = word<21>` selects `LDR`(0)/`STR`(1). The vector select is
/// `ZA[Wv, #imm4]` with `Wv = w12 + word<14:13>` and `imm4 = word<3:0>`; the
/// same `imm4` is the `MUL VL` multiple of the memory operand. `Rn = word<9:5>`
/// is the base (`SP`-resolved). When `imm4 == 0` both the `, #imm` and the
/// `, MUL VL` are elided (`za[w15, #0x0], [x21]`).
fn decode_ldr_str_za(word: u32, out: &mut Instruction)
    requires
        old(out).is_blank(),
    ensures
        decode_post(*old(out), *final(out)),
        yields(*old(out), *final(out), ldr_str_za_form(word)),
{
    // `LDR`/`STR` (ZA array vector) is `1110 0001 00 0 op 0 00000 0 Rv 000 Rn 0
    // imm4`. Only `op` (`word<21>`), `Rv` (`word<14:13>`), `Rn` (`word<9:5>`) and
    // `imm4` (`word<3:0>`) vary; the intervening fields are fixed zero.
    if bits(word, 16, 5) != 0 || bit(word, 15) != 0 || bits(word, 10, 3) != 0 || bit(word, 4) != 0 {
        return;
    }

    let is_store = bit(word, 21) == 1;
    let rv: u32 = bits(word, 13, 2);
    let rn: u32 = bits(word, 5, 5);
    let imm4: i32 = bits(word, 0, 4) as i32;

    // Whole-array vector select `za[Wv, #imm4]` (no tile, no slice direction).
    let select = Operand::SmeTileSlice {
        reg: Register::none(),
        slice: SliceIndicator::Neither,
        arr: None,
        sel: wsel(rv),
        imm: imm4 as u8,
        has_imm: true,
    };

    // `[Xn{, #imm4, MUL VL}]` — SVE scalar-plus-VL-scaled-immediate addressing.
    let mem = Operand::SveMem {
        base: gp_register(true, RegWidth::X64, rn as u8),
        offset: Register::none(),
        arr: None,
        extend: ExtendType::Uxtx,
        imm: imm4,
        amount: 0,
        mode: SveMemMode::ScalarImmMulVl,
    };
    let code = if is_store { Code::SmeStrZa } else { Code::SmeLdrZa };
    install2(out, code, select, mem);
}

} // verus!
