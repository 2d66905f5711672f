//! SME `ZERO` (ZA tile mask / ZT0 / ZA array) and SME2 `MOVT` (move to or from
//! the ZT0 lookup table).
//!
//! They live in the SME `110` quadrant (top byte `0xC0`, `word<24> == 0`) with
//! the shell `word<23> == 0`, `word<19> == 1`, which overlaps neither the base
//! `MOVA`/`ADDHA`/`ADDVA` nor the ZT0 `LUTI` forms.
//!
//! `ZERO` has three shapes:
//!
//! * ZA tile mask (`word<23:16> == 0x08`, `word<15:8> == 0`): the 8-bit mask
//!   `word<7:0>` names the tiles to clear. FEAT_SME.
//! * ZT0 (exactly `0xC0480001`): `zero { zt0 }`. FEAT_SME2.
//! * ZA array `.d` slice group (`word<19:18> == 11`): `zero za.d[<Ws>, ...]`,
//!   with `word<14:13>` = `Ws` (`w8..w11`), `word<2:0>` the index and
//!   `word<17:16:15>` the `(span, vgxN)` shape. FEAT_SME2.
//!
//! `MOVT` has three directions (FEAT_SME2), all with `word<11:5> == 0x1F`:
//!
//! * `movt zt0[<index>, mul vl], <Zt>` (`word<23:16> == 0x4F`).
//! * `movt zt0[<offset>], <Xt>` (`word<23:16> == 0x4E`), byte offset
//!   `word<14:12> * 8`.
//! * `movt <Xt>, zt0[<offset>]` (`word<23:16> == 0x4C`).
use vstd::prelude::*;
use crate::bits::{bit, bits, field};
use crate::code::{code_mnemonic, Code};
use crate::decode::{decode_post, install1, install2, installed};
use crate::decode::ops::{gpr, gpr_spec};
use crate::features::{Feature, FeatureSet};
use crate::instruction::Instruction;
use crate::operand::Operand;
use crate::types::{gp_register, gp_spec, reg_of, RegKind, RegWidth, Register, SliceIndicator, VectorArrangement as VA};

verus! {

/// A bare `Z<n>` (no arrangement).
pub open spec fn zbare_spec(n: u32) -> Operand {
    Operand::Reg { reg: reg_of(RegKind::Z, n, 0x1f), arr: None, lane: None, pred: None }
}

/// The `(span, vgx, largest index)` shape of a ZA-array `ZERO`, selected by
/// `(word<17>, word<16>, word<15>)`:
///
/// | g | V | R | span | vgx | offset   | index    |
/// |---|---|---|------|-----|----------|----------|
/// | 0 | 0 | 0 | 1    | 2   | `fld`    | `0..=7`  |
/// | 1 | 0 | 0 | 1    | 4   | `fld`    | `0..=7`  |
/// | 0 | 0 | 1 | 2    | -   | `fld*2`  | `0..=7`  |
/// | 1 | 0 | 1 | 4    | -   | `fld*4`  | `0..=3`  |
/// | 0 | 1 | 0 | 2    | 2   | `fld*2`  | `0..=3`  |
/// | 0 | 1 | 1 | 2    | 4   | `fld*2`  | `0..=3`  |
/// | 1 | 1 | 0 | 4    | 2   | `fld*4`  | `0..=1`  |
/// | 1 | 1 | 1 | 4    | 4   | `fld*4`  | `0..=1`  |
pub open spec fn zero_array_shape(g: u32, v: u32, r: u32) -> (u8, u8, u32) {
    if v == 0 {
        if r == 0 {
            if g == 0 { (1, 2, 7) } else { (1, 4, 7) }
        } else {
            if g == 0 { (2, 0, 7) } else { (4, 0, 3) }
        }
    } else {
        if g == 0 {
            if r == 0 { (2, 2, 3) } else { (2, 4, 3) }
        } else {
            if r == 0 { (4, 2, 1) } else { (4, 4, 1) }
        }
    }
}

/// The `zero za.d[<Ws>, ...]` form (FEAT_SME2) of a word, as (code, operands),
/// or `None`: `word<12:3>` is reserved zero and the index `word<2:0>` must not
/// pass the largest one of the shape that `word<17:15>` selects; the slice
/// offset is the index times the span.
pub open spec fn zero_array_form(word: u32, features: FeatureSet) -> Option<(Code, Seq<Operand>)> {
    let shape = zero_array_shape(field(word, 17, 1), field(word, 16, 1), field(word, 15, 1));
    let fld = field(word, 0, 3);
    if !features.contains(Feature::Sme2) || field(word, 3, 10) != 0 || fld > shape.2 {
        None
    } else {
        Some((Code::SmeZeroArray, seq![Operand::SmeZaSlice {
            arr: Some(VA::Sd),
            sel: gp_spec(false, RegWidth::W32, (8 + field(word, 13, 2)) as u8),
            off: (fld * shape.0) as u8,
            span: shape.0,
            vg: shape.1,
            tile: 0,
            slice: SliceIndicator::Neither,
        }]))
    }
}

/// The instruction a word of the `ZERO` / `MOVT` shell encodes, as (code,
/// operands), or `None` when it encodes none of them (with `features`).
pub open spec fn zero_movt_form(word: u32, features: FeatureSet) -> Option<(Code, Seq<Operand>)> {
    let b22 = field(word, 22, 1);
    let b18 = field(word, 18, 1);
    let sme2 = features.contains(Feature::Sme2);
    if field(word, 24, 8) != 0xC0 || field(word, 23, 1) != 0 || field(word, 19, 1) != 1 || field(word, 20, 2) != 0 {
        None
    } else if b22 == 0 && b18 == 0 {
        // `zero { za-mask }`: `word<17:8>` reserved zero.
        if field(word, 16, 2) != 0 || field(word, 8, 8) != 0 {
            None
        } else {
            Some((Code::SmeZeroMask, seq![Operand::SmeZaMask { mask: field(word, 0, 8) as u8, zt0: false }]))
        }
    } else if b22 == 0 {
        zero_array_form(word, features)
    } else if b18 == 0 {
        // `zero { zt0 }`: one encoding.
        if sme2 && word == 0xC048_0001 {
            Some((Code::SmeZeroZt0, seq![Operand::SmeZaMask { mask: 0, zt0: true }]))
        } else {
            None
        }
    } else if !sme2 || field(word, 5, 7) != 0x1F {
        None
    } else if field(word, 16, 2) == 0b11 {
        // `movt zt0[<index>, mul vl], <Zt>`: `word<15:14>` reserved zero.
        if field(word, 14, 2) != 0 {
            None
        } else {
            Some((Code::SmeMovtZt0Z, seq![
                Operand::SmeZt0Index { index: field(word, 12, 2) as u8, mul_vl: true },
                zbare_spec(field(word, 0, 5)),
            ]))
        }
    } else if field(word, 16, 2) == 0b10 {
        // `movt zt0[<offset>], <Xt>`: `word<15>` reserved zero.
        if field(word, 15, 1) != 0 {
            None
        } else {
            Some((Code::SmeMovtZt0X, seq![
                Operand::SmeZt0Index { index: (field(word, 12, 3) * 8) as u8, mul_vl: false },
                gpr_spec(field(word, 0, 5), RegWidth::X64),
            ]))
        }
    } else if field(word, 16, 2) == 0b00 {
        // `movt <Xt>, zt0[<offset>]`: `word<15>` reserved zero.
        if field(word, 15, 1) != 0 {
            None
        } else {
            Some((Code::SmeMovtXZt0, seq![
                gpr_spec(field(word, 0, 5), RegWidth::X64),
                Operand::SmeZt0Index { index: (field(word, 12, 3) * 8) as u8, mul_vl: false },
            ]))
        }
    } else {
        None
    }
}

/// Decode an SME `ZERO` / `MOVT` into `out`: exactly the instruction of
/// [`zero_movt_form`], or nothing.
pub fn decode(word: u32, features: FeatureSet, out: &mut Instruction)
    requires
        old(out).is_blank(),
    ensures
        decode_post(*old(out), *final(out)),
        zero_movt_form(word, features) matches Some(f) ==> installed(*old(out), *final(out), f.0, code_mnemonic(f.0), f.1),
        zero_movt_form(word, features) is None ==> *final(out) == *old(out),
{
    // The shared shell: top byte `0xC0`, `word<24> == 0`, `word<23> == 0`,
    // `word<19> == 1`; `word<21:20>` are reserved zero.
    if bits(word, 24, 8) != 0xC0 || bit(word, 23) != 0 || bit(word, 19) != 1 || bits(word, 20, 2) != 0 {
        return;
    }
    // `word<22>` splits the plain `ZERO` destinations (0) from the ZT0 forms
    // (1); within each, `word<18>` splits the simpler form (0) from the
    // array / `MOVT` form (1).
    let b22: u32 = bit(word, 22);
    let b18: u32 = bit(word, 18);
    if b22 == 0 && b18 == 0 {
        decode_zero_mask(word, out);
    } else if b22 == 0 {
        decode_zero_array(word, features, out);
    } else if b18 == 0 {
        if features.has(Feature::Sme2) && word == 0xC048_0001 {
            install1(out, Code::SmeZeroZt0, Operand::SmeZaMask { mask: 0, zt0: true });
        }
    } else {
        decode_movt(word, features, out);
    }
}

/// `zero { za-mask }` (FEAT_SME): `word<17:8>` reserved zero, the 8-bit mask
/// in `word<7:0>`.
fn decode_zero_mask(word: u32, out: &mut Instruction)
    requires
        old(out).is_blank(),
        field(word, 24, 8) == 0xC0 && field(word, 23, 1) == 0 && field(word, 19, 1) == 1 && field(word, 20, 2) == 0,
        field(word, 22, 1) == 0 && field(word, 18, 1) == 0,
    ensures
        decode_post(*old(out), *final(out)),
        zero_movt_form(word, FeatureSet { bits: 0 }) matches Some(f) ==> installed(*old(out), *final(out), f.0, code_mnemonic(f.0), f.1),
        zero_movt_form(word, FeatureSet { bits: 0 }) is None ==> *final(out) == *old(out),
{
    if bits(word, 16, 2) != 0 || bits(word, 8, 8) != 0 {
        return;
    }
    let mask: u8 = bits(word, 0, 8) as u8;
    install1(out, Code::SmeZeroMask, Operand::SmeZaMask { mask, zt0: false });
}

/// `zero za.d[<Ws>, ...]` (FEAT_SME2): the ZA-array `.d` slice group, shaped
/// by [`zero_array_shape`]; `word<14:13>` selects `w8..w11`, `word<2:0>` is the
/// index and `word<12:3>` is reserved zero.
fn decode_zero_array(word: u32, features: FeatureSet, out: &mut Instruction)
    requires
        old(out).is_blank(),
    ensures
        decode_post(*old(out), *final(out)),
        zero_array_form(word, features) matches Some(f) ==> installed(*old(out), *final(out), f.0, code_mnemonic(f.0), f.1),
        zero_array_form(word, features) is None ==> *final(out) == *old(out),
        zero_array_form(word, features) matches Some(f) ==> (f.1[0] matches Operand::SmeZaSlice { off, span, .. } && off + span <= 16),
{
    if !features.has(Feature::Sme2) {
        return;
    }
    if bits(word, 3, 10) != 0 {
        return;
    }
    let g: u32 = bit(word, 17);
    let v: u32 = bit(word, 16);
    let r: u32 = bit(word, 15);
    let ws: u32 = bits(word, 13, 2);
    let fld: u32 = bits(word, 0, 3);
    let (span, vg, max_field): (u8, u8, u32) = if v == 0 {
        if r == 0 {
            if g == 0 { (1, 2, 7) } else { (1, 4, 7) }
        } else {
            if g == 0 { (2, 0, 7) } else { (4, 0, 3) }
        }
    } else {
        if g == 0 {
            if r == 0 { (2, 2, 3) } else { (2, 4, 3) }
        } else {
            if r == 0 { (4, 2, 1) } else { (4, 4, 1) }
        }
    };
    if fld > max_field {
        return;
    }
    let off: u8 = (fld as u8) * span;
    install1(out, Code::SmeZeroArray, Operand::SmeZaSlice {
        arr: Some(VA::Sd),
        sel: gp_register(false, RegWidth::W32, (8 + ws) as u8),
        off,
        span,
        vg,
        tile: 0,
        slice: SliceIndicator::Neither,
    });
}

/// The three `MOVT` directions (FEAT_SME2), all with `word<11:5> == 0x1F`;
/// `word<17:16>` picks the direction.
fn decode_movt(word: u32, features: FeatureSet, out: &mut Instruction)
    requires
        old(out).is_blank(),
        field(word, 24, 8) == 0xC0 && field(word, 23, 1) == 0 && field(word, 19, 1) == 1 && field(word, 20, 2) == 0,
        field(word, 22, 1) == 1 && field(word, 18, 1) == 1,
    ensures
        decode_post(*old(out), *final(out)),
        zero_movt_form(word, features) matches Some(f) ==> installed(*old(out), *final(out), f.0, code_mnemonic(f.0), f.1),
        zero_movt_form(word, features) is None ==> *final(out) == *old(out),
{
    if !features.has(Feature::Sme2) {
        return;
    }
    if bits(word, 5, 7) != 0x1F {
        return;
    }
    let dir: u32 = bits(word, 16, 2);
    if dir == 0b11 {
        // `movt zt0[<index>, mul vl], <Zt>`.
        if bits(word, 14, 2) != 0 {
            return;
        }
        let index: u8 = bits(word, 12, 2) as u8;
        install2(out, Code::SmeMovtZt0Z, Operand::SmeZt0Index { index, mul_vl: true }, zbare(bits(word, 0, 5)));
    } else if dir == 0b10 {
        // `movt zt0[<offset>], <Xt>`, byte offset `word<14:12> * 8`.
        if bit(word, 15) != 0 {
            return;
        }
        let off: u8 = (bits(word, 12, 3) * 8) as u8;
        install2(out, Code::SmeMovtZt0X, Operand::SmeZt0Index { index: off, mul_vl: false }, gpr(bits(word, 0, 5), RegWidth::X64));
    } else if dir == 0b00 {
        // `movt <Xt>, zt0[<offset>]`.
        if bit(word, 15) != 0 {
            return;
        }
        let off: u8 = (bits(word, 12, 3) * 8) as u8;
        install2(out, Code::SmeMovtXZt0, gpr(bits(word, 0, 5), RegWidth::X64), Operand::SmeZt0Index { index: off, mul_vl: false });
    }
}

/// A bare `Z<n>` (no arrangement): the `MOVT` Z-register source.
fn zbare(n: u32) -> (r: Operand)
    ensures
        r == zbare_spec(n),
{
    Operand::Reg { reg: Register::z(n), arr: None, lane: None, pred: None }
}

} // verus!
