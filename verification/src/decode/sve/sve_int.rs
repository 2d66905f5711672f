use vstd::prelude::*;
use crate::bits::{bit, bits, bits64, field, field64, low_mask, ones64, ones64_spec, sext_spec, sign_extend};
use crate::code::{code_mnemonic, Code, Mnemonic};
use crate::decode::{decode_post, insn, install2, install2_as, install3, install4, installed, mnemonic_of, pushed, yields};
use crate::decode::ops::{reg_op, arr, arr_spec, gpr, gpr_spec, gpr_sp, gpr_sp_spec, preg, preg_q, preg_q_spec, preg_spec, preg_sz, preg_sz_spec, scalar_fp, scalar_fp_spec, va_neon_int, va_neon_int_spec, vreg, vreg_spec, zlist1, zlist1_spec, zreg, zreg_idx, zreg_idx_spec, zreg_spec};
use crate::features::{Feature, FeatureSet};
use crate::instruction::{Instruction, MAX_OPERANDS};
use crate::operand::{FpConst, Operand};
use crate::types::{gp_register, reg_of, ExtendType, PredQual, RegKind, RegWidth, Register, SveMemMode, VectorArrangement as VA};
verus! {
// ---------------------------------------------------------------------------
// Small operand constructors.
// ---------------------------------------------------------------------------


/// `Zdn.<T>, Pg/M, Zdn.<T>, Zm.<T>`, the predicated destructive binary.
pub open spec fn zpzz_ops(zdn: u32, pg: u32, zm: u32, a: VA) -> Seq<Operand> {
    seq![zreg_spec(zdn, a), preg_q_spec(pg, PredQual::Merging), zreg_spec(zdn, a), zreg_spec(zm, a)]
}

/// `Zd.<T>, Zn.<T>, Zm.<T>` with one arrangement.
pub open spec fn zzz_same(zd: u32, zn: u32, zm: u32, a: VA) -> Seq<Operand> {
    seq![zreg_spec(zd, a), zreg_spec(zn, a), zreg_spec(zm, a)]
}

/// The mnemonic of an element-size family: `.b`/`.h`/`.s`/`.d` for `size`
/// 0 to 3.
pub open spec fn by_size(size: u32, mb: Mnemonic, mh: Mnemonic, mw: Mnemonic, md: Mnemonic) -> Mnemonic {
    if size == 0 {
        mb
    } else if size == 1 {
        mh
    } else if size == 2 {
        mw
    } else {
        md
    }
}

fn by_size_mn(size: u32, mb: Mnemonic, mh: Mnemonic, mw: Mnemonic, md: Mnemonic) -> (m: Mnemonic)
    ensures
        m == by_size(size, mb, mh, mw, md),
{
    if size == 0 {
        mb
    } else if size == 1 {
        mh
    } else if size == 2 {
        mw
    } else {
        md
    }
}

/// Start an instruction `code`, written `m`, in a blank `out`; the operands
/// follow.
fn start(out: &mut Instruction, code: Code, m: Mnemonic)
    requires
        old(out).is_blank(),
        code != Code::Invalid,
    ensures
        installed(*old(out), *final(out), code, m, Seq::empty()),
        final(out).wf(),
{
    out.set(code);
    out.set_mnemonic(m);
    assert(final(out).operands() =~= Seq::<Operand>::empty());
}

/// Push the optional SVE `pattern{, MUL #imm}` tail for INC/DEC/CNT element-count
/// forms (the optional pattern / multiplier operands).
///
/// `pattern` is the raw 5-bit field; `imm1` is `imm4 + 1` (the multiplier,
/// `1..=16`). The multiplier is printed only when `imm1 != 1`; the pattern is
/// printed when the multiplier is printed or the pattern is not `all` (`0x1f`).
fn push_pattern_mul(out: &mut Instruction, pattern: u32, imm1: u32)
    requires
        old(out).len + 2 <= MAX_OPERANDS,
    ensures
        pushed(*old(out), *final(out), pattern_mul_ops(pattern, imm1)),
{
    let print_mul = imm1 != 1;
    let print_pattern = print_mul || pattern != 0x1f;
    if print_pattern {
        out.push_operand(Operand::SvePattern((pattern & 0x1f) as u8));
    }
    if print_mul {
        out.push_operand(Operand::SveMul(imm1 as u8));
    }
}

/// The operands [`push_pattern_mul`] appends.
pub open spec fn pattern_mul_ops(pattern: u32, imm1: u32) -> Seq<Operand> {
    let print_mul = imm1 != 1;
    let print_pattern = print_mul || pattern != 0x1f;
    (if print_pattern { seq![Operand::SvePattern((pattern & 0x1f) as u8)] } else { Seq::empty() }) + (if print_mul {
        seq![Operand::SveMul(imm1 as u8)]
    } else {
        Seq::empty()
    })
}

/// Element-size arrangement restricted to the three INC/DEC vector sizes:
/// `size` of 1/2/3 maps to H/S/D (byte vectors do not exist for the vector
/// INC/DEC forms).
pub open spec fn arr_hsd_spec(size: u32) -> VA {
    if size & 3 == 1 {
        VA::Sh
    } else if size & 3 == 2 {
        VA::Ss
    } else {
        VA::Sd
    }
}

fn arr_hsd(size: u32) -> (r: VA)
    ensures
        r == arr_hsd_spec(size),
{
    match size & 3 {
        1 => VA::Sh,
        2 => VA::Ss,
        _ => VA::Sd,
    }
}

/// The `len` of a logical immediate `imm13 = N:immr:imms`: the highest set
/// bit of `N:NOT(imms)`, or `None` below two-bit elements (`N == 0` with
/// `imms` of `0b11111x`).
pub open spec fn bitmask_len(imm13: u32) -> Option<u32> {
    let nimms = 63 - field(imm13, 0, 6);
    if field(imm13, 12, 1) == 1 {
        Some(6)
    } else if nimms >= 32 {
        Some(5)
    } else if nimms >= 16 {
        Some(4)
    } else if nimms >= 8 {
        Some(3)
    } else if nimms >= 4 {
        Some(2)
    } else if nimms >= 2 {
        Some(1)
    } else {
        None
    }
}

/// The element size `2^len` of a logical immediate.
pub open spec fn bitmask_esize(len: u32) -> u32 {
    if len == 6 {
        64
    } else if len == 5 {
        32
    } else if len == 4 {
        16
    } else if len == 3 {
        8
    } else if len == 2 {
        4
    } else {
        2
    }
}

/// `ROR(x, r)` within an `esize`-bit element.
pub open spec fn ror_in(x: u64, r: u32, esize: u32) -> u64 {
    if r == 0 {
        x
    } else {
        ((x >> r) | (x << ((esize - r) as u32))) & ones64_spec(esize)
    }
}

/// `Replicate(v)` of an `esize`-bit element across 64 bits, by doubling.
pub open spec fn replicate(v: u64, esize: u32) -> u64 {
    let v2 = if esize <= 2 { v | (v << 2u32) } else { v };
    let v4 = if esize <= 4 { v2 | (v2 << 4u32) } else { v2 };
    let v8 = if esize <= 8 { v4 | (v4 << 8u32) } else { v4 };
    let v16 = if esize <= 16 { v8 | (v8 << 16u32) } else { v8 };
    if esize <= 32 { v16 | (v16 << 32u32) } else { v16 }
}

/// `DecodeBitMasks` for a 64-bit container: `Ones(s + 1)` rotated right by
/// `r` within the element, replicated across the 64 bits, with `s` and `r`
/// the low `len` bits of `imms` and `immr`; `None` for the reserved
/// encodings.
pub open spec fn bitmask_spec(imm13: u32) -> Option<u64> {
    match bitmask_len(imm13) {
        Some(len) => {
            let esize = bitmask_esize(len);
            Some(replicate(
                ror_in(ones64_spec((field(imm13, 0, 6) % esize + 1) as u32), field(imm13, 6, 6) % esize, esize),
                esize,
            ))
        },
        None => None,
    }
}

fn replicate_of(v: u64, esize: u32) -> (r: u64)
    ensures
        r == replicate(v, esize),
{
    let mut v = v;
    if esize <= 2 {
        v = v | (v << 2u32);
    }
    if esize <= 4 {
        v = v | (v << 4u32);
    }
    if esize <= 8 {
        v = v | (v << 8u32);
    }
    if esize <= 16 {
        v = v | (v << 16u32);
    }
    if esize <= 32 {
        v = v | (v << 32u32);
    }
    v
}

/// Decode the SVE logical (bitmask) immediate from `(imm13 = imm_n:immr:imms)`
/// for a 64-bit element container, returning the replicated value, or `None` for
/// the reserved encodings (`imm_n == 0` with `imms` of `0b11111x`, where the
/// element size would be below two bits).
///
/// The element size is `2^len` with `len` the highest set bit of
/// `imm_n:NOT(imms)`; the element is `imms<len-1:0> + 1` ones rotated right by
/// `immr<len-1:0>`, replicated across the 64 bits.
fn sve_bitmask(imm13: u32) -> (r: Option<u64>)
    ensures
        r == bitmask_spec(imm13),
        r is None <==> (field(imm13, 12, 1) == 0 && field(imm13, 0, 6) >= 62),
{
    let imm_n: u32 = bit(imm13, 12);
    let immr: u32 = bits(imm13, 6, 6);
    let imms: u32 = bits(imm13, 0, 6);
    let nimms: u32 = 63 - imms;
    let len: u32 = if imm_n == 1 {
        6
    } else if nimms >= 32 {
        5
    } else if nimms >= 16 {
        4
    } else if nimms >= 8 {
        3
    } else if nimms >= 4 {
        2
    } else if nimms >= 2 {
        1
    } else {
        return None;
    };
    let esize: u32 = if len == 6 {
        64
    } else if len == 5 {
        32
    } else if len == 4 {
        16
    } else if len == 3 {
        8
    } else if len == 2 {
        4
    } else {
        2
    };
    let s: u32 = imms % esize;
    let r: u32 = immr % esize;
    let welem: u64 = ones64(s + 1);
    let emask: u64 = ones64(esize);
    let v: u64 = if r == 0 {
        welem
    } else {
        ((welem >> r) | (welem << (esize - r))) & emask
    };
    Some(replicate_of(v, esize))
}

/// `SVEMoveMaskPreferred(imm)`: the decoded 64-bit broadcast is written with
/// the `MOV` alias unless it is a byte broadcast or a small movz/movn-style
/// 8- or 16-bit constant (which `DUP`/`CPY` already cover).
pub open spec fn move_mask_preferred_spec(imm: u64) -> bool {
    if imm & 0xff != 0 {
        if imm == (imm & 0xff) * 0x0101_0101_0101_0101 {
            false
        } else if field64(imm, 8, 56) == 0 || field64(imm, 8, 56) == ones64_spec(56) {
            false
        } else if field64(imm, 32, 32) == field64(imm, 0, 32) && (field64(imm, 8, 24) == 0 || field64(imm, 8, 24)
            == ones64_spec(24)) {
            false
        } else if field64(imm, 48, 16) == field64(imm, 16, 16) && field64(imm, 48, 16) == field64(imm, 32, 16) && (
        field64(imm, 8, 8) == 0 || field64(imm, 8, 8) == ones64_spec(8)) {
            false
        } else {
            true
        }
    } else if field64(imm, 16, 48) == 0 || field64(imm, 16, 48) == ones64_spec(48) {
        false
    } else if field64(imm, 32, 32) == field64(imm, 0, 32) && (field64(imm, 16, 16) == 0 || field64(imm, 16, 16)
        == ones64_spec(16)) {
        false
    } else if field64(imm, 48, 16) == field64(imm, 16, 16) && field64(imm, 48, 16) == field64(imm, 32, 16) {
        false
    } else {
        true
    }
}

/// `SVEMoveMaskPreferred(imm13)` — whether `DUPM <Zd>.<T>, #imm` should render
/// via the `MOV <Zd>.<T>, #imm` alias. Returns `true` when the decoded 64-bit
/// broadcast value is *not* trivially a small movz/movn-style 8- or 16-bit
/// constant (those keep the `DUPM` spelling, since the simpler `DUP`/`CPY`
/// immediate already covers them). The pure byte-broadcast case (the low byte
/// replicated across all eight bytes) also keeps `dupm`.
fn sve_move_mask_preferred(imm: u64) -> (r: bool)
    ensures
        r == move_mask_preferred_spec(imm),
{
    if (imm & 0xff) != 0 {
        // Pure byte broadcast (`0xXYXY..XY`): reached by DUP/CPY → keep DUPM.
        let b = imm & 0xff;
        assert(b <= 0xff) by (bit_vector)
            requires
                b == imm & 0xff,
        ;
        assert(b * 0x0101_0101_0101_0101 <= 0xffff_ffff_ffff_ffff) by (nonlinear_arith)
            requires
                b <= 0xff,
        ;
        if imm == b * 0x0101_0101_0101_0101 {
            return false;
        }
        // 8-bit immediate checks.
        if is_zero64(imm, 63, 8) || is_ones64(imm, 63, 8) {
            return false;
        }
        if seg64(imm, 63, 32) == seg64(imm, 31, 0) && (is_zero64(imm, 31, 8) || is_ones64(imm, 31, 8)) {
            return false;
        }
        if seg64(imm, 63, 48) == seg64(imm, 31, 16) && seg64(imm, 63, 48) == seg64(imm, 47, 32) && (is_zero64(
            imm,
            15,
            8,
        ) || is_ones64(imm, 15, 8)) {
            return false;
        }
    } else {
        // 16-bit immediate checks.
        if is_zero64(imm, 63, 16) || is_ones64(imm, 63, 16) {
            return false;
        }
        if seg64(imm, 63, 32) == seg64(imm, 31, 0) && (is_zero64(imm, 31, 16) || is_ones64(imm, 31, 16)) {
            return false;
        }
        if seg64(imm, 63, 48) == seg64(imm, 31, 16) && seg64(imm, 63, 48) == seg64(imm, 47, 32) {
            return false;
        }
    }
    true
}

/// `imm<hi:lo>`.
fn seg64(imm: u64, hi: u32, lo: u32) -> (r: u64)
    requires
        lo <= hi < 64,
    ensures
        r == field64(imm, lo, (hi - lo + 1) as u32),
{
    bits64(imm, lo, hi - lo + 1)
}

/// `imm<hi:lo>` is all zeros.
fn is_zero64(imm: u64, hi: u32, lo: u32) -> (r: bool)
    requires
        lo <= hi < 64,
    ensures
        r == (field64(imm, lo, (hi - lo + 1) as u32) == 0),
{
    seg64(imm, hi, lo) == 0
}

/// `imm<hi:lo>` is all ones.
fn is_ones64(imm: u64, hi: u32, lo: u32) -> (r: bool)
    requires
        lo <= hi < 64,
    ensures
        r == (field64(imm, lo, (hi - lo + 1) as u32) == ones64_spec((hi - lo + 1) as u32)),
{
    seg64(imm, hi, lo) == ones64(hi - lo + 1)
}

/// `2^i` for an element-size index `i <= 3`.
pub open spec fn pow2_small(i: u32) -> u32 {
    if i == 0 {
        1
    } else if i == 1 {
        2
    } else if i == 2 {
        4
    } else {
        8
    }
}

/// The element-size index from a 4-bit `tszh:tszl` concatenation:
/// `HighestSetBit`, giving `0`=byte … `3`=doubleword, or `None` if the field is
/// zero (reserved).
/// The element-size index of a nonzero `tsz`: the position of its highest set
/// bit (`0` for `.b` up to `3` for `.d`); `None` for `tsz == 0`.
pub open spec fn tsz_index(tsz: u32) -> Option<u32> {
    if tsz == 0 {
        None
    } else if tsz >= 8 {
        Some(3)
    } else if tsz >= 4 {
        Some(2)
    } else if tsz >= 2 {
        Some(1)
    } else {
        Some(0)
    }
}

/// The arrangement and right-shift amount `2 * esize - UInt(tsz:imm3)`.
pub open spec fn right_shift_spec(tsz: u32, imm3: u32) -> Option<(VA, u32)> {
    match tsz_index(tsz) {
        Some(i) => Some((arr_spec(i), (16 * pow2_small(i) - tsz_imm3(tsz, imm3)) as u32)),
        None => None,
    }
}

/// The arrangement and left-shift amount `UInt(tsz:imm3) - esize`.
pub open spec fn left_shift_spec(tsz: u32, imm3: u32) -> Option<(VA, u32)> {
    match tsz_index(tsz) {
        Some(i) => Some((arr_spec(i), (tsz_imm3(tsz, imm3) - 8 * pow2_small(i)) as u32)),
        None => None,
    }
}

/// The arrangement of elements twice as wide as `a`, if there is one.
pub open spec fn wider(a: VA) -> Option<VA> {
    match a {
        VA::Sb => Some(VA::Sh),
        VA::Sh => Some(VA::Ss),
        VA::Ss => Some(VA::Sd),
        _ => None,
    }
}

fn wider_of(a: VA) -> (r: Option<VA>)
    ensures
        r == wider(a),
{
    match a {
        VA::Sb => Some(VA::Sh),
        VA::Sh => Some(VA::Ss),
        VA::Ss => Some(VA::Sd),
        _ => None,
    }
}

fn tsz_size(tsz: u32) -> (r: Option<u32>)
    requires
        tsz <= 15,
    ensures
        r == tsz_index(tsz),
        r is None <==> tsz == 0,
        r matches Some(i) ==> i <= 3 && pow2_small(i) <= tsz < 2 * pow2_small(i),
{
    if tsz == 0 {
        None
    } else if tsz >= 8 {
        Some(3)
    } else if tsz >= 4 {
        Some(2)
    } else if tsz >= 2 {
        Some(1)
    } else {
        Some(0)
    }
}

/// `UInt(tsz:imm3)`.
pub open spec fn tsz_imm3(tsz: u32, imm3: u32) -> u32 {
    (tsz * 8 + imm3 % 8) as u32
}

/// Decode a right-shift (ASR/LSR) immediate amount from `tszh:tszl:imm3`:
/// `amount = 2*esize - UInt(tsz:imm3)`.
fn right_shift_amount(tsz: u32, imm3: u32) -> (r: Option<(VA, u32)>)
    requires
        tsz <= 15,
    ensures
        r is None <==> tsz == 0,
        r matches Some((a, amt)) ==> exists|i: u32| #![auto] i <= 3 && pow2_small(i) <= tsz < 2 * pow2_small(i)
            && a == arr_spec(i) && amt == 16 * pow2_small(i) - tsz_imm3(tsz, imm3),
        r == right_shift_spec(tsz, imm3),
{
    let idx = match tsz_size(tsz) {
        Some(i) => i,
        None => return None,
    };
    let esize: u32 = match idx {
        0 => 8,
        1 => 16,
        2 => 32,
        _ => 64,
    };
    let val: u32 = tsz * 8 + imm3 % 8;
    Some((arr(idx), 2 * esize - val))
}

/// Decode a left-shift (LSL) immediate amount from `tszh:tszl:imm3`:
/// `amount = UInt(tsz:imm3) - esize`.
fn left_shift_amount(tsz: u32, imm3: u32) -> (r: Option<(VA, u32)>)
    requires
        tsz <= 15,
    ensures
        r is None <==> tsz == 0,
        r matches Some((a, amt)) ==> exists|i: u32| #![auto] i <= 3 && pow2_small(i) <= tsz < 2 * pow2_small(i)
            && a == arr_spec(i) && amt == tsz_imm3(tsz, imm3) - 8 * pow2_small(i),
        r == left_shift_spec(tsz, imm3),
{
    let idx = match tsz_size(tsz) {
        Some(i) => i,
        None => return None,
    };
    let esize: u32 = match idx {
        0 => 8,
        1 => 16,
        2 => 32,
        _ => 64,
    };
    let val: u32 = tsz * 8 + imm3 % 8;
    Some((arr(idx), val - esize))
}

// ===========================================================================
// Top byte 0x05 — SVE logical immediate, DUP/CPY/INSR/SEL, RBIT/REVB/H/W.
// ===========================================================================

/// The instruction a top-byte `0x05` word encodes, or `None`.
pub open spec fn int05_form(word: u32) -> Option<(Code, Mnemonic, Seq<Operand>)> {
    let sel = field(word, 13, 3);
    let opc = field(word, 16, 5);
    let size = field(word, 22, 2);
    let a = arr_spec(size);
    let zd = field(word, 0, 5);
    let zn = field(word, 5, 5);
    let b21 = field(word, 21, 1);
    let f1510 = field(word, 10, 6);
    let f1210 = field(word, 10, 3);
    let pg = field(word, 10, 3);
    let w = if size == 3 { RegWidth::X64 } else { RegWidth::W32 };
    if field(word, 19, 3) == 0 {
        logical_imm_form(word)
    } else if field(word, 20, 2) == 0b01 && field(word, 15, 1) == 0 {
        cpy_imm_form(word)
    } else if sel == 0b001 {
        if opc == 0 && f1510 == 0b001110 {
            Some((Code::SveDupScalar, Mnemonic::Mov, seq![zreg_spec(zd, a), gpr_sp_spec(zn, w)]))
        } else if opc == 0b00100 && f1510 == 0b001110 {
            Some((Code::SveInsrScalar, Mnemonic::Insr, seq![zreg_spec(zd, a), gpr_spec(zn, w)]))
        } else if opc == 0b10100 && f1510 == 0b001110 {
            Some((Code::SveInsrVec, Mnemonic::Insr, seq![zreg_spec(zd, a), scalar_fp_spec(zn, size)]))
        } else if f1210 == 0 {
            dup_idx_form(word)
        } else if b21 == 1 && f1210 == 0b001 {
            if size == 0 {
                dupq_form(word)
            } else if size == 1 {
                extq_form(word)
            } else {
                None
            }
        } else if b21 == 1 && f1210 == 0b110 && field(word, 20, 1) == 0 && field(word, 19, 1) == 1 {
            pmov_form(word)
        } else {
            None
        }
    } else if sel == 0b101 && opc == 0b01000 {
        Some((Code::SveCpyScalar, Mnemonic::Mov, seq![zreg_spec(zd, a), preg_q_spec(pg, PredQual::Merging), gpr_sp_spec(zn, w)]))
    } else if sel == 0b100 {
        if opc == 0 {
            Some((Code::SveCpyVec, Mnemonic::Mov, seq![zreg_spec(zd, a), preg_q_spec(pg, PredQual::Merging), scalar_fp_spec(zn, size)]))
        } else if opc == 0b00111 {
            Some((Code::SveRbitZpz, Mnemonic::Rbit, seq![zreg_spec(zd, a), preg_q_spec(pg, PredQual::Merging), zreg_spec(zn, a)]))
        } else if opc == 0b10001 && b21 == 1 {
            Some((Code::SveExpand, Mnemonic::Expand, seq![zreg_spec(zd, a), preg_spec(pg), zreg_spec(zn, a)]))
        } else {
            None
        }
    } else if sel == 0b101 && b21 == 1 && 0b00100 <= opc && opc <= 0b00111 {
        if opc < 0b00111 && size < opc - 3 {
            None
        } else {
            Some((
                if opc == 0b00111 { Code::SveRbitZpz } else { Code::SveRevbhw },
                if opc == 0b00100 {
                    Mnemonic::Revb
                } else if opc == 0b00101 {
                    Mnemonic::Revh
                } else if opc == 0b00110 {
                    Mnemonic::Revw
                } else {
                    Mnemonic::Rbit
                },
                seq![zreg_spec(zd, a), preg_q_spec(pg, PredQual::Zeroing), zreg_spec(zn, a)],
            ))
        }
    } else if (sel == 0b110 || sel == 0b111) && b21 == 1 {
        let zm = field(word, 16, 5);
        let pg4 = field(word, 10, 4);
        if zm == zd {
            Some((Code::SveSelZpzz, Mnemonic::Mov, seq![zreg_spec(zd, a), preg_q_spec(pg4, PredQual::Merging), zreg_spec(zn, a)]))
        } else {
            Some((Code::SveSelZpzz, Mnemonic::Sel, seq![zreg_spec(zd, a), preg_spec(pg4), zreg_spec(zn, a), zreg_spec(zm, a)]))
        }
    } else {
        None
    }
}

/// Top byte 0x05: logical immediates, CPY (immediate / scalar / vector), DUP
/// (scalar / indexed), INSR, DUPQ / EXTQ / PMOV, RBIT, EXPAND, the zeroing
/// REVB/H/W/RBIT and SEL.
fn decode_05(word: u32, out: &mut Instruction)
    requires
        old(out).is_blank(),
    ensures
        decode_post(*old(out), *final(out)),
        yields(*old(out), *final(out), int05_form(word)),
{
    // Logical immediate (AND/ORR/EOR/DUPM): word<21:19>==000 and word<18>==0
    // (the imm13 occupies <17:5>), with the op in word<23:22>.
    if bits(word, 19, 3) == 0 {
        decode_logical_imm(word, out);
        return;
    }
    // CPY (immediate): `<21:20>=01`, `<15>=0`. `MOV <Zd>.<T>, <Pg>/<Z|M>, #imm
    // {, shift}`. M=<14> (1=/m merging, 0=/z zeroing), sh=<13>, imm8=<12:5>
    // signed, Pg=<19:16>, Zd=<4:0>. Handled here (before the perm decoder, which
    // would otherwise mis-claim these via <15:13>).
    if bits(word, 20, 2) == 0b01 && bit(word, 15) == 0 {
        decode_cpy_imm(word, out);
        return;
    }
    let sel: u32 = bits(word, 13, 3); // word<15:13>
    let opc: u32 = bits(word, 16, 5);
    let size: u32 = bits(word, 22, 2);
    let a = arr(size);
    let zd: u32 = bits(word, 0, 5);
    let zn: u32 = bits(word, 5, 5);
    let b21: u32 = bit(word, 21);
    let f1510: u32 = bits(word, 10, 6);
    let f1210: u32 = bits(word, 10, 3);
    let pg: u32 = bits(word, 10, 3);
    let w = if size == 3 { RegWidth::X64 } else { RegWidth::W32 };
    if sel == 0b001 {
        // DUP (scalar/indexed) and INSR share <15:13>=001.
        if opc == 0 && f1510 == 0b001110 {
            // DUP <Zd>.<T>, <R><n|SP> (written MOV).
            install2_as(out, Code::SveDupScalar, Mnemonic::Mov, zreg(zd, a), gpr_sp(zn, w));
        } else if opc == 0b00100 && f1510 == 0b001110 {
            // INSR <Zdn>.<T>, <R><m>.
            install2_as(out, Code::SveInsrScalar, Mnemonic::Insr, zreg(zd, a), gpr(zn, w));
        } else if opc == 0b10100 && f1510 == 0b001110 {
            // INSR <Zdn>.<T>, <V><m>.
            install2_as(out, Code::SveInsrVec, Mnemonic::Insr, zreg(zd, a), scalar_fp(zn, size));
        } else if f1210 == 0b000 {
            // DUP indexed: `MOV <Zd>.<T>, <Zn>.<T>[idx]`. tsz = imm2:tsz
            // = <23:22>:<20:16>. The element size is the lowest set bit of tsz.
            decode_dup_indexed(word, out);
        } else if b21 == 1 && f1210 == 0b001 {
            // SVE2.1 128-bit-segment forms: DUPQ (<23:22>=00) and EXTQ
            // (<23:22>=01).
            if size == 0 {
                decode_dupq(word, out);
            } else if size == 1 {
                decode_extq(word, out);
            }
        } else if b21 == 1 && f1210 == 0b110 && bit(word, 20) == 0 && bit(word, 19) == 1 {
            // SVE2.1 PMOV (predicate <-> vector move).
            decode_pmov(word, out);
        }
    } else if sel == 0b101 && opc == 0b01000 {
        // CPY (scalar) <15:13>=101 with <20:16>=01000: `CPY <Zd>.<T>, <Pg>/M,
        // <R><n|SP>` (written with the `MOV` alias). `Pg = <12:10>` is the
        // governing predicate, not a discriminator. The CLASTA/CLASTB/LASTA/LASTB-
        // to-GPR ops share <15:13>=101 but use other <20:16> opcodes (00000/00001/
        // 10000/10001) and are left to the permute decoder.
        install3(out, Code::SveCpyScalar, Mnemonic::Mov, zreg(zd, a), preg_q(pg, PredQual::Merging), gpr_sp(zn, w));
    } else if sel == 0b100 {
        // word<20:16> selects: 00000=CPY vector; 00111=RBIT; 10001=EXPAND
        // (SVE2.1). REVB/REVH/REVW (00100/00101/00110) are permute ops, left
        // to sve_perm.
        if opc == 0 {
            install3(out, Code::SveCpyVec, Mnemonic::Mov, zreg(zd, a), preg_q(pg, PredQual::Merging), scalar_fp(zn, size));
        } else if opc == 0b00111 {
            install3(out, Code::SveRbitZpz, Mnemonic::Rbit, zreg(zd, a), preg_q(pg, PredQual::Merging), zreg(zn, a));
        } else if opc == 0b10001 && b21 == 1 {
            // EXPAND (SVE2.1): `EXPAND <Zd>.<T>, <Pg>, <Zn>.<T>` (plain Pg).
            install3(out, Code::SveExpand, Mnemonic::Expand, zreg(zd, a), preg(pg), zreg(zn, a));
        }
    } else if sel == 0b101 && b21 == 1 && 0b00100 <= opc && opc <= 0b00111 {
        // SVE2.1 zeroing reverse-within-element: REVB/REVH/REVW/RBIT
        // `<Zd>.<T>, <Pg>/Z, <Zn>.<T>` (`<21>=1`, `<20:16>=001xx`).
        if opc < 0b00111 && size < opc - 3 {
            return;
        }
        let (code, mnem) = if opc == 0b00100 {
            (Code::SveRevbhw, Mnemonic::Revb)
        } else if opc == 0b00101 {
            (Code::SveRevbhw, Mnemonic::Revh)
        } else if opc == 0b00110 {
            (Code::SveRevbhw, Mnemonic::Revw)
        } else {
            (Code::SveRbitZpz, Mnemonic::Rbit)
        };
        install3(out, code, mnem, zreg(zd, a), preg_q(pg, PredQual::Zeroing), zreg(zn, a));
    } else if (sel == 0b110 || sel == 0b111) && b21 == 1 {
        // SEL `<15:14>=11` with `<21>=1` (`Pg<13:10>` makes `<15:13>` `110`/`111`).
        // The `<15:13>=110`,`<21:20>=01` slot is FCPY (an FP op, left to sve_fp).
        let zm: u32 = bits(word, 16, 5);
        let pg4: u32 = bits(word, 10, 4);
        if zm == zd {
            // `SEL Zd, Pg, Zn, Zd` == `MOV <Zd>.<T>, <Pg>/M, <Zn>.<T>`.
            install3(out, Code::SveSelZpzz, Mnemonic::Mov, zreg(zd, a), preg_q(pg4, PredQual::Merging), zreg(zn, a));
        } else {
            install4(out, Code::SveSelZpzz, Mnemonic::Sel, zreg(zd, a), preg(pg4), zreg(zn, a), zreg(zm, a));
        }
    }
}

/// The instruction a CPY (immediate) word encodes.
pub open spec fn cpy_imm_form(word: u32) -> Option<(Code, Mnemonic, Seq<Operand>)> {
    let merging = field(word, 14, 1) == 1;
    Some((
        if merging { Code::SveCpyImmMerge } else { Code::SveCpyImmZero },
        Mnemonic::Mov,
        seq![
            zreg_spec(field(word, 0, 5), arr_spec(field(word, 22, 2))),
            preg_q_spec(field(word, 16, 4), if merging { PredQual::Merging } else { PredQual::Zeroing }),
            dup_imm_spec(field(word, 5, 8), field(word, 13, 1)),
        ],
    ))
}

/// CPY (immediate) — top byte 0x05, `<21:20>=01`, `<15>=0`. Renders as the
/// `MOV <Zd>.<T>, <Pg>/<Z|M>, #<imm>{, shift}` alias. `M=<14>` selects
/// merging (`/m`) vs zeroing (`/z`), `sh=<13>` shifts the signed `imm8` left
/// by 8.
fn decode_cpy_imm(word: u32, out: &mut Instruction)
    requires
        old(out).is_blank(),
    ensures
        decode_post(*old(out), *final(out)),
        yields(*old(out), *final(out), cpy_imm_form(word)),
{
    let size: u32 = bits(word, 22, 2);
    let pg: u32 = bits(word, 16, 4);
    let merging = bit(word, 14) == 1;
    let sh: u32 = bit(word, 13);
    let imm8: u32 = bits(word, 5, 8);
    let zd: u32 = bits(word, 0, 5);
    let (code, q) = if merging { (Code::SveCpyImmMerge, PredQual::Merging) } else { (Code::SveCpyImmZero, PredQual::Zeroing) };
    install3(out, code, Mnemonic::Mov, zreg(zd, arr(size)), preg_q(pg, q), dup_imm(imm8, sh));
}

/// SVE logical broadcast immediate (top byte 0x05, `<21:19>=000`): ORR/EOR/AND
/// `<Zdn>.<T>, <Zdn>.<T>, #imm`, and DUPM `<Zd>.<T>, #imm`. The replicated value
/// is rendered as a single `#0x..` immediate; for ORR/EOR/AND a single-register
/// destructive form, for DUPM a broadcast. ORR/EOR/AND keep their mnemonic;
/// DUPM is written `MOV` when the value is a replicable element, else `DUPM`.
fn decode_logical_imm(word: u32, out: &mut Instruction)
    requires
        old(out).is_blank(),
    ensures
        decode_post(*old(out), *final(out)),
        yields(*old(out), *final(out), logical_imm_form(word)),
{
    let opc: u32 = bits(word, 22, 2);
    let imm13: u32 = bits(word, 5, 13);
    let zdn: u32 = bits(word, 0, 5);
    let Some(val) = sve_bitmask(imm13) else { return };
    // The element arrangement for the immediate display: SVE logical-immediate
    // ops are notionally `.d`-wide but are written with the element size implied
    // by the replication period of the decoded mask: `.b`/`.h`/`.s`/`.d`
    // according to the smallest element the value replicates into.
    let a = imm_arrangement(val);
    let imm = Operand::ImmUnsigned(element_value(val, a));
    if opc == 0b00 {
        install3(out, Code::SveOrrZi, mnemonic_of(Code::SveOrrZi), zreg(zdn, a), zreg(zdn, a), imm);
    } else if opc == 0b01 {
        install3(out, Code::SveEorZi, mnemonic_of(Code::SveEorZi), zreg(zdn, a), zreg(zdn, a), imm);
    } else if opc == 0b10 {
        install3(out, Code::SveAndZi, mnemonic_of(Code::SveAndZi), zreg(zdn, a), zreg(zdn, a), imm);
    } else {
        // DUPM (opc==11): broadcast bitmask. The `SVEMoveMaskPreferred`
        // rule decides between the `MOV <Zd>.<T>, #imm` alias (most values) and
        // the bare `DUPM` spelling (small movz/movn-style / byte-broadcast
        // values, which `DUP`/`CPY` already cover).
        let m = if sve_move_mask_preferred(val) { Mnemonic::Mov } else { Mnemonic::Dupm };
        install2_as(out, Code::SveDupmZi, m, zreg(zdn, a), imm);
    }
}

/// The instruction a logical-immediate word (`0x05`, `<21:19> == 000`)
/// encodes, or `None` for a reserved immediate: ORR / EOR / AND
/// `<Zdn>.<T>, <Zdn>.<T>, #imm` or DUPM (written MOV when
/// [`move_mask_preferred_spec`] holds) `<Zd>.<T>, #imm`, with `<T>` the
/// smallest element the mask replicates into and `#imm` one element of it.
pub open spec fn logical_imm_form(word: u32) -> Option<(Code, Mnemonic, Seq<Operand>)> {
    match bitmask_spec(field(word, 5, 13)) {
        Some(val) => {
            let a = imm_arr_spec(val);
            let z = zreg_spec(field(word, 0, 5), a);
            let imm = Operand::ImmUnsigned(element_value_spec(val, a));
            let opc = field(word, 22, 2);
            if opc == 0 {
                insn(Code::SveOrrZi, seq![z, z, imm])
            } else if opc == 1 {
                insn(Code::SveEorZi, seq![z, z, imm])
            } else if opc == 2 {
                insn(Code::SveAndZi, seq![z, z, imm])
            } else {
                Some((Code::SveDupmZi, if move_mask_preferred_spec(val) { Mnemonic::Mov } else { Mnemonic::Dupm }, seq![z, imm]))
            }
        },
        None => None,
    }
}

/// The smallest element a replicated 64-bit mask repeats with: `.b` when
/// its low byte fills it, else `.h`, `.s`, and `.d`.
pub open spec fn imm_arr_spec(val: u64) -> VA {
    if (val & 0xff) * 0x0101_0101_0101_0101 == val {
        VA::Sb
    } else if (val & 0xffff) * 0x0001_0001_0001_0001 == val {
        VA::Sh
    } else if (val & 0xffff_ffff) * 0x0000_0001_0000_0001 == val {
        VA::Ss
    } else {
        VA::Sd
    }
}

/// The element arrangement of a replicated mask; see [`imm_arr_spec`].
fn imm_arrangement(val: u64) -> (r: VA)
    ensures
        r == imm_arr_spec(val),
{
    let b = val & 0xff;
    assert(b <= 0xff) by (bit_vector)
        requires
            b == val & 0xff,
    ;
    assert(b * 0x0101_0101_0101_0101 <= 0xffff_ffff_ffff_ffff) by (nonlinear_arith)
        requires
            b <= 0xff,
    ;
    if b * 0x0101_0101_0101_0101 == val {
        return VA::Sb;
    }
    let h = val & 0xffff;
    assert(h <= 0xffff) by (bit_vector)
        requires
            h == val & 0xffff,
    ;
    assert(h * 0x0001_0001_0001_0001 <= 0xffff_ffff_ffff_ffff) by (nonlinear_arith)
        requires
            h <= 0xffff,
    ;
    if h * 0x0001_0001_0001_0001 == val {
        return VA::Sh;
    }
    let s = val & 0xffff_ffff;
    assert(s <= 0xffff_ffff) by (bit_vector)
        requires
            s == val & 0xffff_ffff,
    ;
    assert(s * 0x0000_0001_0000_0001 <= 0xffff_ffff_ffff_ffff) by (nonlinear_arith)
        requires
            s <= 0xffff_ffff,
    ;
    if s * 0x0000_0001_0000_0001 == val {
        return VA::Ss;
    }
    VA::Sd
}

/// The low element of a replicated mask at arrangement `a`.
pub open spec fn element_value_spec(val: u64, a: VA) -> u64 {
    match a {
        VA::Sb => val & 0xff,
        VA::Sh => val & 0xffff,
        VA::Ss => val & 0xffff_ffff,
        _ => val,
    }
}

/// The single-element value to display for a replicated bitmask `val` at
/// arrangement `a` (the low element).
fn element_value(val: u64, a: VA) -> (r: u64)
    ensures
        r == element_value_spec(val, a),
{
    match a {
        VA::Sb => val & 0xff,
        VA::Sh => val & 0xffff,
        VA::Ss => val & 0xffff_ffff,
        _ => val,
    }
}

/// A scalar SIMD register of element size index `esize` (0=B .. 4=Q).
pub open spec fn scalar_fp_q_spec(n: u32, esize: u32) -> Operand {
    if esize >= 4 {
        reg_op(reg_of(RegKind::Q, n, 0x1f), None, None, None)
    } else {
        scalar_fp_spec(n, esize)
    }
}

/// The (arrangement, element-size index, lane) of a trailing-one `imm2:tsz`
/// field, or `None` when no bit is set.
pub open spec fn dup_tsz(t: u32) -> Option<(VA, u32, u32)> {
    if t & 0b1 != 0 {
        Some((VA::Sb, 0, t >> 1))
    } else if t & 0b10 != 0 {
        Some((VA::Sh, 1, t >> 2))
    } else if t & 0b100 != 0 {
        Some((VA::Ss, 2, t >> 3))
    } else if t & 0b1000 != 0 {
        Some((VA::Sd, 3, t >> 4))
    } else if t & 0b1_0000 != 0 {
        Some((VA::Sq, 4, t >> 5))
    } else {
        None
    }
}

/// The instruction a DUP (indexed) word encodes, or `None`.
pub open spec fn dup_idx_form(word: u32) -> Option<(Code, Mnemonic, Seq<Operand>)> {
    let zn = field(word, 5, 5);
    let zd = field(word, 0, 5);
    match dup_tsz(((field(word, 22, 2) * 32 + field(word, 16, 5)) as u32) & 0x7f) {
        Some(x) => Some((
            Code::SveDupIdx,
            Mnemonic::Mov,
            seq![zreg_spec(zd, x.0), if x.2 == 0 { scalar_fp_q_spec(zn, x.1) } else { zreg_idx_spec(zn, x.0, x.2 as u8) }],
        )),
        None => None,
    }
}

/// DUP indexed (`MOV <Zd>.<T>, <Zn>.<T>[idx]`). The element size and index come
/// from `tsz = imm2:tsz` (`<23:22>:<20:16>`): the lowest set bit of `tsz` gives
/// the element size, the bits above it give the index. When the index is `0`,
/// the scalar-SIMD broadcast form (`MOV <Zd>.<T>, <V><n>`) is written instead
/// of the bracketed `[0]`.
fn decode_dup_indexed(word: u32, out: &mut Instruction)
    requires
        old(out).is_blank(),
    ensures
        decode_post(*old(out), *final(out)),
        yields(*old(out), *final(out), dup_idx_form(word)),
{
    let tsz = (bits(word, 22, 2) * 32 + bits(word, 16, 5)); // 7-bit imm2:tsz
    let zn: u32 = bits(word, 5, 5);
    let zd: u32 = bits(word, 0, 5);
    // Element size index = position of lowest set bit (0=.b .. 4=.q).
    let t: u32 = tsz & 0x7f;
    let (a, esize, idx): (VA, u32, u32) = if t & 0b1 != 0 {
        (VA::Sb, 0, t >> 1)
    } else if t & 0b10 != 0 {
        (VA::Sh, 1, t >> 2)
    } else if t & 0b100 != 0 {
        (VA::Ss, 2, t >> 3)
    } else if t & 0b1000 != 0 {
        (VA::Sd, 3, t >> 4)
    } else if t & 0b1_0000 != 0 {
        (VA::Sq, 4, t >> 5)
    } else {
        return;
    };
    // Index 0 is the scalar broadcast: `MOV <Zd>.<T>, <V><n>` (B/H/S/D/Q).
    let src = if idx == 0 { scalar_fp_q(zn, esize) } else { zreg_idx(zn, a, idx as u8) };
    install2_as(out, Code::SveDupIdx, Mnemonic::Mov, zreg(zd, a), src);
}

/// The (arrangement, lane) of a trailing-one `tsz` (`.b` to `.d`), or `None`.
pub open spec fn dupq_tsz(t: u32) -> Option<(VA, u32)> {
    if t & 0b1 != 0 {
        Some((VA::Sb, t >> 1))
    } else if t & 0b10 != 0 {
        Some((VA::Sh, t >> 2))
    } else if t & 0b100 != 0 {
        Some((VA::Ss, t >> 3))
    } else if t & 0b1000 != 0 {
        Some((VA::Sd, t >> 4))
    } else {
        None
    }
}

/// The instruction a DUPQ word encodes, or `None`.
pub open spec fn dupq_form(word: u32) -> Option<(Code, Mnemonic, Seq<Operand>)> {
    match dupq_tsz(field(word, 16, 5)) {
        Some(x) => Some((
            Code::SveDupq,
            Mnemonic::Dupq,
            seq![zreg_spec(field(word, 0, 5), x.0), zreg_idx_spec(field(word, 5, 5), x.0, x.1 as u8)],
        )),
        None => None,
    }
}

/// SVE2.1 DUPQ: `DUPQ <Zd>.<T>, <Zn>.<T>[<index>]` — broadcast an indexed
/// element within each 128-bit segment. The element size and lane index use the
/// standard trailing `tsz = word<20:16>` encoding (`<23:22>` is 0 here). Always
/// renders the lane index (even 0) with the source arrangement.
fn decode_dupq(word: u32, out: &mut Instruction)
    requires
        old(out).is_blank(),
    ensures
        decode_post(*old(out), *final(out)),
        yields(*old(out), *final(out), dupq_form(word)),
{
    let t: u32 = bits(word, 16, 5);
    let zn: u32 = bits(word, 5, 5);
    let zd: u32 = bits(word, 0, 5);
    let (a, idx): (VA, u32) = if t & 0b1 != 0 {
        (VA::Sb, t >> 1)
    } else if t & 0b10 != 0 {
        (VA::Sh, t >> 2)
    } else if t & 0b100 != 0 {
        (VA::Ss, t >> 3)
    } else if t & 0b1000 != 0 {
        (VA::Sd, t >> 4)
    } else {
        return;
    };
    install2_as(out, Code::SveDupq, Mnemonic::Dupq, zreg(zd, a), zreg_idx(zn, a, idx as u8));
}

/// The instruction an EXTQ word encodes, or `None` (`<20>=1`).
pub open spec fn extq_form(word: u32) -> Option<(Code, Mnemonic, Seq<Operand>)> {
    let imm = field(word, 16, 5);
    if imm > 15 {
        None
    } else {
        Some((
            Code::SveExtq,
            Mnemonic::Extq,
            seq![
                zreg_spec(field(word, 0, 5), VA::Sb),
                zreg_spec(field(word, 0, 5), VA::Sb),
                zreg_spec(field(word, 5, 5), VA::Sb),
                Operand::ImmUnsigned(imm as u64),
            ],
        ))
    }
}

/// SVE2.1 EXTQ: `EXTQ <Zdn>.B, <Zdn>.B, <Zm>.B, #imm` — extract a byte-aligned
/// vector from the `Zdn:Zm` pair within each 128-bit segment. The byte offset
/// `imm` (0..15) is `word<19:16>`; the instruction is destructive (`Zd==Zdn`).
fn decode_extq(word: u32, out: &mut Instruction)
    requires
        old(out).is_blank(),
    ensures
        decode_post(*old(out), *final(out)),
        yields(*old(out), *final(out), extq_form(word)),
{
    let imm: u32 = bits(word, 16, 5);
    if imm > 15 {
        return; // <20>=1 is unallocated.
    }
    let zm: u32 = bits(word, 5, 5);
    let zd: u32 = bits(word, 0, 5);
    install4(out, Code::SveExtq, Mnemonic::Extq, zreg(zd, VA::Sb), zreg(zd, VA::Sb), zreg(zm, VA::Sb), Operand::ImmUnsigned(imm as u64));
}

/// PMOV's vector operand: a bare `Z<n>` for `.b`, else `Z<n>[idx]`.
pub open spec fn pmov_z_spec(n: u32, a: VA, idx: u32) -> Operand {
    if a == VA::Sb {
        reg_op(reg_of(RegKind::Z, n, 0x1f), None, None, None)
    } else {
        reg_op(reg_of(RegKind::Z, n, 0x1f), None, Some(idx as u8), None)
    }
}

fn pmov_z(n: u32, a: VA, idx: u32) -> (r: Operand)
    ensures
        r == pmov_z_spec(n, a, idx),
{
    if matches!(a, VA::Sb) {
        plain_z(n)
    } else {
        plain_z_idx(n, idx as u8)
    }
}

/// The (arrangement, lane) of PMOV's `T = <23>:<22>:<18>:<17>` field (the
/// highest set bit gives the size, the bits below it the lane), or `None`.
pub open spec fn pmov_t(word: u32) -> Option<(VA, u32)> {
    let b22 = field(word, 22, 1);
    let b18 = field(word, 18, 1);
    let b17 = field(word, 17, 1);
    if field(word, 23, 1) == 1 {
        Some((VA::Sd, (b22 * 4 + b18 * 2 + b17) as u32))
    } else if b22 == 1 {
        Some((VA::Ss, (b18 * 2 + b17) as u32))
    } else if b18 == 1 {
        Some((VA::Sh, b17))
    } else if b17 == 1 {
        Some((VA::Sb, 0))
    } else {
        None
    }
}

/// The instruction a PMOV word encodes, or `None`.
pub open spec fn pmov_form(word: u32) -> Option<(Code, Mnemonic, Seq<Operand>)> {
    let n5 = field(word, 5, 5);
    let d5 = field(word, 0, 5);
    match pmov_t(word) {
        Some(x) => Some((
            Code::SvePmov,
            Mnemonic::Pmov,
            if field(word, 16, 1) == 0 {
                seq![preg_sz_spec(d5, x.0), pmov_z_spec(n5, x.0, x.1)]
            } else {
                seq![pmov_z_spec(d5, x.0, x.1), preg_sz_spec(n5, x.0)]
            },
        )),
        None => None,
    }
}

/// SVE2.1 PMOV (predicate <-> vector). `word<16>` (D) selects direction:
/// `0` -> `PMOV <Pd>.<T>, <Zn>{[index]}`; `1` -> `PMOV <Zd>{[index]}, <Pn>.<T>`.
/// The element size and lane index come from the trailing-one field
/// `T = {word<23>, word<22>, word<18>, word<17>}` (highest set bit = size; the
/// lower bits are the index). The `.b` form has no index and a bare `Z`.
fn decode_pmov(word: u32, out: &mut Instruction)
    requires
        old(out).is_blank(),
    ensures
        decode_post(*old(out), *final(out)),
        yields(*old(out), *final(out), pmov_form(word)),
{
    let b22: u32 = bit(word, 22);
    let b18: u32 = bit(word, 18);
    let b17: u32 = bit(word, 17);
    let (a, idx): (VA, u32) = if bit(word, 23) == 1 {
        (VA::Sd, b22 * 4 + b18 * 2 + b17)
    } else if b22 == 1 {
        (VA::Ss, b18 * 2 + b17)
    } else if b18 == 1 {
        (VA::Sh, b17)
    } else if b17 == 1 {
        (VA::Sb, 0)
    } else {
        return;
    };
    let n5: u32 = bits(word, 5, 5);
    let d5: u32 = bits(word, 0, 5);
    if bit(word, 16) == 0 {
        // Predicate <- vector.
        install2_as(out, Code::SvePmov, Mnemonic::Pmov, preg_sz(d5, a), pmov_z(n5, a, idx));
    } else {
        // Vector <- predicate.
        install2_as(out, Code::SvePmov, Mnemonic::Pmov, pmov_z(d5, a, idx), preg_sz(n5, a));
    }
}

/// A scalar SIMD register of element size index `esize` (0=B .. 4=Q).
fn scalar_fp_q(n: u32, esize: u32) -> (r: Operand)
    ensures
        r == scalar_fp_q_spec(n, esize),
{
    if esize >= 4 {
        Operand::Reg { reg: Register::q(n), arr: None, lane: None, pred: None }
    } else {
        scalar_fp(n, esize)
    }
}

// ===========================================================================
// Top byte 0x04 (cont.) — unpredicated arithmetic / logical / shift / INC-DEC.
// ===========================================================================

/// The code of an unpredicated integer arithmetic `<12:10>` other than the
/// ADDPT/SUBPT slots, or `None`.
pub open spec fn arith_zzz_code(op: u32) -> Option<Code> {
    match op {
        0b000 => Some(Code::SveAddZzz),
        0b001 => Some(Code::SveSubZzz),
        0b100 => Some(Code::SveSqaddZzz),
        0b101 => Some(Code::SveUqaddZzz),
        0b110 => Some(Code::SveSqsubZzz),
        0b111 => Some(Code::SveUqsubZzz),
        _ => None,
    }
}

/// The instruction an unpredicated integer arithmetic word encodes, or `None`.
pub open spec fn arith_zzz_form(word: u32) -> Option<(Code, Mnemonic, Seq<Operand>)> {
    let size = field(word, 22, 2);
    let op = field(word, 10, 3);
    let ops = zzz_same(field(word, 0, 5), field(word, 5, 5), field(word, 16, 5), arr_spec(size));
    if op == 0b010 || op == 0b011 {
        if size != 0b11 {
            None
        } else {
            insn(if field(word, 10, 1) == 0 { Code::SveAddptUnpred } else { Code::SveSubptUnpred }, ops)
        }
    } else {
        match arith_zzz_code(op) {
            Some(c) => insn(c, ops),
            None => None,
        }
    }
}

/// Unpredicated integer arithmetic (`<21>=1`, `<15:13>=000`): `op <Zd>.<T>,
/// <Zn>.<T>, <Zm>.<T>`.
fn decode_arith_zzz(word: u32, out: &mut Instruction)
    requires
        old(out).is_blank(),
    ensures
        decode_post(*old(out), *final(out)),
        yields(*old(out), *final(out), arith_zzz_form(word)),
{
    let size: u32 = bits(word, 22, 2);
    let zm: u32 = bits(word, 16, 5);
    let zn: u32 = bits(word, 5, 5);
    let zd: u32 = bits(word, 0, 5);
    let a = arr(size);
    let op: u32 = bits(word, 10, 3);
    // ADDPT/SUBPT (FEAT_CPA unpredicated): `<12:10>=010`/`011`, `.d` only
    // (`<23:22>=11`). `<Zd>.D, <Zn>.D, <Zm>.D`.
    let code = if op == 0b010 || op == 0b011 {
        if size != 0b11 {
            return;
        }
        if bit(word, 10) == 0 { Code::SveAddptUnpred } else { Code::SveSubptUnpred }
    } else {
        match op {
            0b000 => Code::SveAddZzz,
            0b001 => Code::SveSubZzz,
            0b100 => Code::SveSqaddZzz,
            0b101 => Code::SveUqaddZzz,
            0b110 => Code::SveSqsubZzz,
            0b111 => Code::SveUqsubZzz,
            _ => return,
        }
    };
    install3(out, code, mnemonic_of(code), zreg(zd, a), zreg(zn, a), zreg(zm, a));
}

/// The instruction an unpredicated bitwise word (`<21>=1`, `<15:13>=001`)
/// encodes, or `None`.
pub open spec fn logical_zzz_form(word: u32) -> Option<(Code, Mnemonic, Seq<Operand>)> {
    let sel = field(word, 10, 3);
    let zm = field(word, 16, 5);
    let zn = field(word, 5, 5);
    let zd = field(word, 0, 5);
    let opc = field(word, 22, 2);
    let ops = zzz_same(zd, zn, zm, VA::Sd);
    if sel == 0b101 {
        xar_form(word)
    } else if sel == 0b110 || sel == 0b111 {
        ternary_form(word)
    } else if sel != 0b100 {
        None
    } else if opc == 0 {
        insn(Code::SveAndZzz, ops)
    } else if opc == 1 {
        if zn == zm {
            Some((Code::SveMovZzz, Mnemonic::Mov, seq![zreg_spec(zd, VA::Sd), zreg_spec(zn, VA::Sd)]))
        } else {
            insn(Code::SveOrrZzz, ops)
        }
    } else if opc == 2 {
        insn(Code::SveEorZzz, ops)
    } else {
        insn(Code::SveBicZzz, ops)
    }
}

/// Unpredicated bitwise logical (`<21>=1`, `<15:13>=001`, `<12:10>=100`):
/// `AND`/`ORR`/`EOR`/`BIC` `<Zd>.D, <Zn>.D, <Zm>.D`, with `ORR Zd,Zn,Zn`
/// rendered as the `MOV Zd.D, Zn.D` alias. The op is `word<23:22>`.
fn decode_logical_zzz(word: u32, out: &mut Instruction)
    requires
        old(out).is_blank(),
    ensures
        decode_post(*old(out), *final(out)),
        yields(*old(out), *final(out), logical_zzz_form(word)),
{
    // `<15:13>=001`. `<12:10>` selects the sub-family: `100` plain logical
    // (AND/ORR/EOR/BIC below), `101` XAR, `11x` the ternary EOR3/BCAX/BSL family.
    let sel: u32 = bits(word, 10, 3);
    if sel == 0b101 {
        decode_sve2_xar(word, out);
        return;
    }
    if sel == 0b110 || sel == 0b111 {
        decode_sve2_bitwise_ternary(word, out);
        return;
    }
    if sel != 0b100 {
        return;
    }
    let zm: u32 = bits(word, 16, 5);
    let zn: u32 = bits(word, 5, 5);
    let zd: u32 = bits(word, 0, 5);
    let a = VA::Sd; // all four are `.d`-typed.
    let opc: u32 = bits(word, 22, 2);
    if opc == 0b01 && zn == zm {
        // ORR with Zn==Zm is the MOV alias (`MOV Zd.D, Zn.D`).
        install2_as(out, Code::SveMovZzz, Mnemonic::Mov, zreg(zd, a), zreg(zn, a));
        return;
    }
    let code = if opc == 0 {
        Code::SveAndZzz
    } else if opc == 1 {
        Code::SveOrrZzz
    } else if opc == 2 {
        Code::SveEorZzz
    } else {
        Code::SveBicZzz
    };
    install3(out, code, mnemonic_of(code), zreg(zd, a), zreg(zn, a), zreg(zm, a));
}

/// The instruction an SVE2 bitwise-ternary word encodes, or `None`.
pub open spec fn ternary_form(word: u32) -> Option<(Code, Mnemonic, Seq<Operand>)> {
    let opc = field(word, 22, 2);
    let o2 = field(word, 10, 1);
    let zdn = field(word, 0, 5);
    let ops = seq![zreg_spec(zdn, VA::Sd), zreg_spec(zdn, VA::Sd), zreg_spec(field(word, 16, 5), VA::Sd), zreg_spec(field(word, 5, 5), VA::Sd)];
    if o2 == 0 {
        if opc == 0 {
            Some((Code::SveEor3, Mnemonic::Eor3, ops))
        } else if opc == 1 {
            Some((Code::SveBcax, Mnemonic::Bcax, ops))
        } else {
            None
        }
    } else if opc == 0 {
        Some((Code::SveBsl, Mnemonic::Bsl, ops))
    } else if opc == 1 {
        Some((Code::SveBsl1n, Mnemonic::Bsl1n, ops))
    } else if opc == 2 {
        Some((Code::SveBsl2n, Mnemonic::Bsl2n, ops))
    } else {
        Some((Code::SveNbsl, Mnemonic::Nbsl, ops))
    }
}

/// SVE2 bitwise ternary (`<21>=1`, `<15:11>=00111`): EOR3/BCAX (`o2=<10>`==0) and
/// BSL/BSL1N/BSL2N/NBSL (`o2`==1). All are `.d`-typed with operands
/// `<Zdn>.D, <Zdn>.D, <Zm>.D, <Zk>.D`. The op is `opc=<23:22>` plus `o2`.
fn decode_sve2_bitwise_ternary(word: u32, out: &mut Instruction)
    requires
        old(out).is_blank(),
    ensures
        decode_post(*old(out), *final(out)),
        yields(*old(out), *final(out), ternary_form(word)),
{
    let opc: u32 = bits(word, 22, 2);
    let o2: u32 = bit(word, 10);
    let zm: u32 = bits(word, 16, 5);
    let zk: u32 = bits(word, 5, 5);
    let zdn: u32 = bits(word, 0, 5);
    let (code, mnem) = if o2 == 0 {
        if opc == 0 {
            (Code::SveEor3, Mnemonic::Eor3)
        } else if opc == 1 {
            (Code::SveBcax, Mnemonic::Bcax)
        } else {
            // opc 10/11 with o2==0 are unallocated.
            return;
        }
    } else if opc == 0 {
        (Code::SveBsl, Mnemonic::Bsl)
    } else if opc == 1 {
        (Code::SveBsl1n, Mnemonic::Bsl1n)
    } else if opc == 2 {
        (Code::SveBsl2n, Mnemonic::Bsl2n)
    } else {
        (Code::SveNbsl, Mnemonic::Nbsl)
    };
    let a = VA::Sd;
    install4(out, code, mnem, zreg(zdn, a), zreg(zdn, a), zreg(zm, a), zreg(zk, a));
}

/// The instruction an SVE2 XAR word encodes, or `None` (`tsz == 0`).
pub open spec fn xar_form(word: u32) -> Option<(Code, Mnemonic, Seq<Operand>)> {
    let zdn = field(word, 0, 5);
    match right_shift_spec((field(word, 22, 2) * 4 + field(word, 19, 2)) as u32, field(word, 16, 3)) {
        Some(p) => Some((
            Code::SveXar,
            Mnemonic::Xar,
            seq![zreg_spec(zdn, p.0), zreg_spec(zdn, p.0), zreg_spec(field(word, 5, 5), p.0), Operand::ImmUnsigned(p.1 as u64)],
        )),
        None => None,
    }
}

/// SVE2 XAR (`<21>=1`, `<15:10>=001101`): `XAR <Zdn>.<T>, <Zdn>.<T>, <Zm>.<T>,
/// #<imm>`. The element size and ROR amount come from `tszh:tszl:imm3`
/// (`<23:22>:<20:19>:<18:16>`) exactly like a right-shift immediate.
fn decode_sve2_xar(word: u32, out: &mut Instruction)
    requires
        old(out).is_blank(),
    ensures
        decode_post(*old(out), *final(out)),
        yields(*old(out), *final(out), xar_form(word)),
{
    let tsz = bits(word, 22, 2) * 4 + bits(word, 19, 2);
    let imm3: u32 = bits(word, 16, 3);
    let Some((a, amount)) = right_shift_amount(tsz, imm3) else { return };
    let zm: u32 = bits(word, 5, 5);
    let zdn: u32 = bits(word, 0, 5);
    install4(out, Code::SveXar, Mnemonic::Xar, zreg(zdn, a), zreg(zdn, a), zreg(zm, a), Operand::ImmUnsigned(amount as u64));
}

/// The instruction an unpredicated multiply word encodes, or `None`.
pub open spec fn mul_zzz_form(word: u32) -> Option<(Code, Mnemonic, Seq<Operand>)> {
    let size = field(word, 22, 2);
    let op = field(word, 10, 3);
    let ops = zzz_same(field(word, 0, 5), field(word, 5, 5), field(word, 16, 5), arr_spec(size));
    if op == 0b000 {
        insn(Code::SveMulZzz, ops)
    } else if op == 0b001 {
        if size != 0 {
            None
        } else {
            insn(Code::SvePmulZzz, ops)
        }
    } else if op == 0b010 {
        insn(Code::SveSmulhZzz, ops)
    } else if op == 0b011 {
        insn(Code::SveUmulhZzz, ops)
    } else if op == 0b100 {
        Some((Code::SveMulZzz, Mnemonic::Sqdmulh, ops))
    } else if op == 0b101 {
        Some((Code::SveMulZzz, Mnemonic::Sqrdmulh, ops))
    } else {
        None
    }
}

/// Unpredicated multiply (`<21>=1`, `<15:13>=011`): `MUL`/`PMUL`/`SMULH`/
/// `UMULH`/`SQDMULH`/`SQRDMULH` `<Zd>.<T>, <Zn>.<T>, <Zm>.<T>`.
fn decode_mul_zzz(word: u32, out: &mut Instruction)
    requires
        old(out).is_blank(),
    ensures
        decode_post(*old(out), *final(out)),
        yields(*old(out), *final(out), mul_zzz_form(word)),
{
    let size: u32 = bits(word, 22, 2);
    let zm: u32 = bits(word, 16, 5);
    let zn: u32 = bits(word, 5, 5);
    let zd: u32 = bits(word, 0, 5);
    let a = arr(size);
    let op: u32 = bits(word, 10, 3);
    let (code, mnem) = if op == 0b000 {
        (Code::SveMulZzz, mnemonic_of(Code::SveMulZzz))
    } else if op == 0b001 {
        // PMUL is byte-only.
        if size != 0 {
            return;
        }
        (Code::SvePmulZzz, mnemonic_of(Code::SvePmulZzz))
    } else if op == 0b010 {
        (Code::SveSmulhZzz, mnemonic_of(Code::SveSmulhZzz))
    } else if op == 0b011 {
        (Code::SveUmulhZzz, mnemonic_of(Code::SveUmulhZzz))
    } else if op == 0b100 {
        // SQDMULH / SQRDMULH (SVE2) reuse the unpredicated multiply slot.
        (Code::SveMulZzz, Mnemonic::Sqdmulh)
    } else if op == 0b101 {
        (Code::SveMulZzz, Mnemonic::Sqrdmulh)
    } else {
        return;
    };
    install3(out, code, mnem, zreg(zd, a), zreg(zn, a), zreg(zm, a));
}

/// The signed 5-bit immediate at `word<lo+4:lo>`.
pub open spec fn simm5(word: u32, lo: u32) -> Operand {
    Operand::ImmSignedDec(sext_spec(field(word, lo, 5) as u64, 5) as i64)
}

/// The instruction an INDEX / ADDVL / ADDPL / RDVL (or, under FEAT_SME,
/// ADDSVL / ADDSPL / RDSVL) word encodes, or `None`.
pub open spec fn index_addvl_form(word: u32, features: FeatureSet) -> Option<(Code, Mnemonic, Seq<Operand>)> {
    let size = field(word, 22, 2);
    let a = arr_spec(size);
    let w = if size == 3 { RegWidth::X64 } else { RegWidth::W32 };
    let zd = zreg_spec(field(word, 0, 5), a);
    let sel = field(word, 10, 3);
    let rn = field(word, 16, 5);
    let rd = field(word, 0, 5);
    let imm6 = Operand::ImmSignedDec(sext_spec(field(word, 5, 6) as u64, 6) as i64);
    let adds = seq![gpr_sp_spec(rd, RegWidth::X64), gpr_sp_spec(rn, RegWidth::X64), imm6];
    if sel == 0b000 {
        insn(Code::SveIndexImmImm, seq![zd, simm5(word, 5), simm5(word, 16)])
    } else if sel == 0b001 {
        insn(Code::SveIndexRi, seq![zd, gpr_spec(field(word, 5, 5), w), simm5(word, 16)])
    } else if sel == 0b010 {
        insn(Code::SveIndexIr, seq![zd, simm5(word, 5), gpr_spec(rn, w)])
    } else if sel == 0b011 {
        insn(Code::SveIndexRr, seq![zd, gpr_spec(field(word, 5, 5), w), gpr_spec(rn, w)])
    } else if sel == 0b100 || sel == 0b101 {
        if size == 0 {
            insn(Code::SveAddvl, adds)
        } else if size == 1 {
            insn(Code::SveAddpl, adds)
        } else if size == 2 {
            insn(Code::SveRdvl, seq![gpr_spec(rd, RegWidth::X64), imm6])
        } else {
            None
        }
    } else if !features.contains(Feature::Sme) {
        None
    } else if size == 0 {
        insn(Code::SveAddsvl, adds)
    } else if size == 1 {
        insn(Code::SveAddspl, adds)
    } else if size == 2 && rn == 0b11111 {
        insn(Code::SveRdsvl, seq![gpr_spec(rd, RegWidth::X64), imm6])
    } else {
        None
    }
}

/// INDEX, ADDVL/ADDPL, RDVL (`<21>=1`, `<15:13>=010`), plus the SME streaming
/// analogues ADDSVL/ADDSPL/RDSVL (`<11>=1`, gated on FEAT_SME).
fn decode_index_addvl(word: u32, features: FeatureSet, out: &mut Instruction)
    requires
        old(out).is_blank(),
    ensures
        decode_post(*old(out), *final(out)),
        yields(*old(out), *final(out), index_addvl_form(word, features)),
{
    let size: u32 = bits(word, 22, 2);
    let a = arr(size);
    let w = if size == 3 { RegWidth::X64 } else { RegWidth::W32 };
    let sel: u32 = bits(word, 10, 3);
    let zd = zreg(bits(word, 0, 5), a);
    if sel <= 0b011 {
        let imm5n = Operand::ImmSignedDec(sign_extend(bits(word, 5, 5) as u64, 5));
        let imm5m = Operand::ImmSignedDec(sign_extend(bits(word, 16, 5) as u64, 5));
        if sel == 0b000 {
            // INDEX (immediate, immediate): `INDEX <Zd>.<T>, #imm5, #imm5b`.
            install3(out, Code::SveIndexImmImm, mnemonic_of(Code::SveIndexImmImm), zd, imm5n, imm5m);
        } else if sel == 0b001 {
            // INDEX (scalar, immediate): `INDEX <Zd>.<T>, <R><n>, #imm5`.
            install3(out, Code::SveIndexRi, mnemonic_of(Code::SveIndexRi), zd, gpr(bits(word, 5, 5), w), imm5m);
        } else if sel == 0b010 {
            // INDEX (immediate, scalar): `INDEX <Zd>.<T>, #imm5, <R><m>`.
            install3(out, Code::SveIndexIr, mnemonic_of(Code::SveIndexIr), zd, imm5n, gpr(bits(word, 16, 5), w));
        } else {
            // INDEX (scalar, scalar): `INDEX <Zd>.<T>, <R><n>, <R><m>`.
            install3(out, Code::SveIndexRr, mnemonic_of(Code::SveIndexRr), zd, gpr(bits(word, 5, 5), w), gpr(bits(word, 16, 5), w));
        }
        return;
    }
    // ADDVL / ADDPL / RDVL (`<12:10>=10x`) and, under FEAT_SME, the
    // streaming-mode ADDSVL / ADDSPL / RDSVL (`11x`) — selected by word<23:22>
    // (00 / 01 / 10).
    let streaming = sel >= 0b110;
    if streaming && !features.has(Feature::Sme) {
        return;
    }
    let rn: u32 = bits(word, 16, 5);
    let rd: u32 = bits(word, 0, 5);
    let imm6 = Operand::ImmSignedDec(sign_extend(bits(word, 5, 6) as u64, 6));
    if size == 0 || size == 1 {
        let code = if !streaming {
            if size == 0 { Code::SveAddvl } else { Code::SveAddpl }
        } else if size == 0 {
            Code::SveAddsvl
        } else {
            Code::SveAddspl
        };
        install3(out, code, mnemonic_of(code), gpr_sp(rd, RegWidth::X64), gpr_sp(rn, RegWidth::X64), imm6);
    } else if size == 2 {
        // RDVL / RDSVL <Xd>, #imm6. The RDSVL Rn field is architecturally
        // fixed to 11111; any other value is unallocated.
        if streaming && rn != 0b11111 {
            return;
        }
        let code = if streaming { Code::SveRdsvl } else { Code::SveRdvl };
        install2_as(out, code, mnemonic_of(code), gpr(rd, RegWidth::X64), imm6);
    }
}

/// The instruction an unpredicated shift word (`<21>=1`, `<15:13>=100`)
/// encodes, or `None`.
pub open spec fn shift_unpred_form(word: u32) -> Option<(Code, Mnemonic, Seq<Operand>)> {
    let sel = field(word, 10, 3);
    let size = field(word, 22, 2);
    let zn = field(word, 5, 5);
    let zd = field(word, 0, 5);
    if sel == 0b000 || sel == 0b001 || sel == 0b011 {
        if size == 3 {
            None
        } else {
            insn(
                if sel == 0b000 { Code::SveAsrWide } else if sel == 0b001 { Code::SveLsrWide } else { Code::SveLslWide },
                seq![zreg_spec(zd, arr_spec(size)), zreg_spec(zn, arr_spec(size)), zreg_spec(field(word, 16, 5), VA::Sd)],
            )
        }
    } else if sel == 0b100 || sel == 0b101 || sel == 0b111 {
        let tsz = (size * 4 + field(word, 19, 2)) as u32;
        let imm3 = field(word, 16, 3);
        match if sel == 0b111 { left_shift_spec(tsz, imm3) } else { right_shift_spec(tsz, imm3) } {
            Some(p) => insn(
                if sel == 0b100 { Code::SveAsrZi } else if sel == 0b101 { Code::SveLsrZi } else { Code::SveLslZi },
                seq![zreg_spec(zd, p.0), zreg_spec(zn, p.0), Operand::ImmUnsigned(p.1 as u64)],
            ),
            None => None,
        }
    } else {
        None
    }
}

/// Shift by immediate / wide, unpredicated (`<21>=1`, `<15:13>=100`).
fn decode_shift_unpred(word: u32, out: &mut Instruction)
    requires
        old(out).is_blank(),
    ensures
        decode_post(*old(out), *final(out)),
        yields(*old(out), *final(out), shift_unpred_form(word)),
{
    let sel: u32 = bits(word, 10, 3);
    let size: u32 = bits(word, 22, 2);
    let zn: u32 = bits(word, 5, 5);
    let zd: u32 = bits(word, 0, 5);
    if sel == 0b000 || sel == 0b001 || sel == 0b011 {
        // Wide-element shifts `op <Zd>.<T>, <Zn>.<T>, <Zm>.D`. `.d` source
        // elements are not allowed (size==3 reserved).
        if size == 3 {
            return;
        }
        let a = arr(size);
        let code = if sel == 0b000 { Code::SveAsrWide } else if sel == 0b001 { Code::SveLsrWide } else { Code::SveLslWide };
        install3(out, code, mnemonic_of(code), zreg(zd, a), zreg(zn, a), zreg(bits(word, 16, 5), VA::Sd));
    } else if sel == 0b100 || sel == 0b101 || sel == 0b111 {
        // Shift by immediate `op <Zd>.<T>, <Zn>.<T>, #shift`.
        let tsz = size * 4 + bits(word, 19, 2);
        let imm3: u32 = bits(word, 16, 3);
        let sh = if sel == 0b111 { left_shift_amount(tsz, imm3) } else { right_shift_amount(tsz, imm3) };
        let Some((a, amt)) = sh else { return };
        let code = if sel == 0b100 { Code::SveAsrZi } else if sel == 0b101 { Code::SveLsrZi } else { Code::SveLslZi };
        install3(out, code, mnemonic_of(code), zreg(zd, a), zreg(zn, a), Operand::ImmUnsigned(amt as u64));
    }
}

/// The instruction an ADR (vector) / unpredicated MOVPRFX word encodes, or
/// `None`.
pub open spec fn adr_movprfx_form(word: u32) -> Option<(Code, Mnemonic, Seq<Operand>)> {
    if field(word, 22, 2) == 0 && field(word, 10, 3) == 0b111 {
        insn(
            Code::SveMovprfxZz,
            seq![
                reg_op(reg_of(RegKind::Z, field(word, 0, 5), 0x1f), None, None, None),
                reg_op(reg_of(RegKind::Z, field(word, 5, 5), 0x1f), None, None, None),
            ],
        )
    } else if field(word, 12, 4) == 0b1010 {
        adr_form(word)
    } else {
        None
    }
}

/// ADR (vector) and unpredicated MOVPRFX (`<21>=1`, `<15:13>=101`).
fn decode_adr_movprfx(word: u32, out: &mut Instruction)
    requires
        old(out).is_blank(),
    ensures
        decode_post(*old(out), *final(out)),
        yields(*old(out), *final(out), adr_movprfx_form(word)),
{
    // MOVPRFX (unpredicated): `<23:22>=00`, `<12:10>=111`.
    if bits(word, 22, 2) == 0b00 && bits(word, 10, 3) == 0b111 {
        install2(out, Code::SveMovprfxZz, plain_z(bits(word, 0, 5)), plain_z(bits(word, 5, 5)));
        return;
    }
    // ADR (vector address): `<15:12>=1010`. `opc=<23:22>` selects the form, the
    // shift `msz=<11:10>` is the optional `#amt`. The address operand is
    // `[Zn.<T>, Zm.<T>{, <mod> #amt}]`.
    if bits(word, 12, 4) == 0b1010 {
        decode_adr_vec(word, out);
    }
}

/// The instruction an ADR (vector) word encodes.
pub open spec fn adr_form(word: u32) -> Option<(Code, Mnemonic, Seq<Operand>)> {
    let opc = field(word, 22, 2);
    let t: (Code, VA, ExtendType) = if opc == 0 {
        (Code::SveAdrSxtw, VA::Sd, ExtendType::Sxtw)
    } else if opc == 1 {
        (Code::SveAdrUxtw, VA::Sd, ExtendType::Uxtw)
    } else {
        (Code::SveAdrSameScaled, if field(word, 22, 1) == 1 { VA::Sd } else { VA::Ss }, ExtendType::Uxtx)
    };
    insn(
        t.0,
        seq![
            zreg_spec(field(word, 0, 5), t.1),
            Operand::SveMem {
                base: reg_of(RegKind::Z, field(word, 5, 5), 0x1f),
                offset: reg_of(RegKind::Z, field(word, 16, 5), 0x1f),
                arr: Some(t.1),
                extend: t.2,
                imm: 0,
                amount: field(word, 10, 2) as u8,
                mode: SveMemMode::VecVec,
            },
        ],
    )
}

/// SVE `ADR <Zd>.<T>, [<Zn>.<T>, <Zm>.<T>{, <mod> #amt}]` (`<15:12>=1010`).
///
/// `opc=<23:22>`: `00` → `.D` with `SXTW`; `01` → `.D` with `UXTW`; `1x` →
/// `.S`/`.D` (from `<22>`) with `LSL`. `msz=<11:10>` is the shift amount,
/// rendered only when non-zero.
fn decode_adr_vec(word: u32, out: &mut Instruction)
    requires
        old(out).is_blank(),
    ensures
        decode_post(*old(out), *final(out)),
        yields(*old(out), *final(out), adr_form(word)),
{
    let opc: u32 = bits(word, 22, 2);
    let zm: u32 = bits(word, 16, 5);
    let msz: u32 = bits(word, 10, 2);
    let zn: u32 = bits(word, 5, 5);
    let zd: u32 = bits(word, 0, 5);
    let (code, a, ext) = if opc == 0 {
        (Code::SveAdrSxtw, VA::Sd, ExtendType::Sxtw)
    } else if opc == 1 {
        (Code::SveAdrUxtw, VA::Sd, ExtendType::Uxtw)
    } else {
        // `1x`: same-scaled, arrangement from `<22>` (0=`.s`, 1=`.d`), LSL
        // (`Uxtx` renders as `lsl` in the formatter).
        (Code::SveAdrSameScaled, if bit(word, 22) == 1 { VA::Sd } else { VA::Ss }, ExtendType::Uxtx)
    };
    let addr = Operand::SveMem {
        base: Register::z(zn),
        offset: Register::z(zm),
        arr: Some(a),
        extend: ext,
        imm: 0,
        amount: msz as u8,
        mode: SveMemMode::VecVec,
    };
    install2_as(out, code, mnemonic_of(code), zreg(zd, a), addr);
}

/// A bare `Z{n}` with no arrangement.
fn plain_z(n: u32) -> (r: Operand)
    ensures
        r == reg_op(reg_of(RegKind::Z, n, 0x1f), None, None, None),
{
    Operand::Reg { reg: Register::z(n), arr: None, lane: None, pred: None }
}

/// A bare `Z{n}` carrying a lane index but no arrangement (`z4[2]`), used by
/// PMOV's vector operand for the `.h`/`.s`/`.d` element sizes.
fn plain_z_idx(n: u32, lane: u8) -> (r: Operand)
    ensures
        r == reg_op(reg_of(RegKind::Z, n, 0x1f), None, Some(lane), None),
{
    Operand::Reg { reg: Register::z(n), arr: None, lane: Some(lane), pred: None }
}


/// The vector INC/DEC mnemonic of a word and its element size (1 to 3).
pub open spec fn incdec_vec_mn_spec(word: u32, size: u32) -> Mnemonic {
    let b10 = field(word, 10, 1);
    let b11 = field(word, 11, 1);
    if field(word, 20, 1) == 1 {
        if b10 == 0 {
            by_size(size, Mnemonic::Incd, Mnemonic::Inch, Mnemonic::Incw, Mnemonic::Incd)
        } else {
            by_size(size, Mnemonic::Decd, Mnemonic::Dech, Mnemonic::Decw, Mnemonic::Decd)
        }
    } else if b10 == 0 {
        if b11 == 0 {
            by_size(size, Mnemonic::Sqincd, Mnemonic::Sqinch, Mnemonic::Sqincw, Mnemonic::Sqincd)
        } else {
            by_size(size, Mnemonic::Sqdecd, Mnemonic::Sqdech, Mnemonic::Sqdecw, Mnemonic::Sqdecd)
        }
    } else if b11 == 0 {
        by_size(size, Mnemonic::Uqincd, Mnemonic::Uqinch, Mnemonic::Uqincw, Mnemonic::Uqincd)
    } else {
        by_size(size, Mnemonic::Uqdecd, Mnemonic::Uqdech, Mnemonic::Uqdecw, Mnemonic::Uqdecd)
    }
}

/// The instruction a vector INC/DEC-by-element-count word encodes, or `None`
/// (byte vectors).
pub open spec fn incdec_vec_form(word: u32) -> Option<(Code, Mnemonic, Seq<Operand>)> {
    let size = field(word, 22, 2);
    if size == 0 {
        None
    } else {
        Some((
            Code::SveIncDecVector,
            incdec_vec_mn_spec(word, size),
            seq![zreg_spec(field(word, 0, 5), arr_hsd_spec(size))] + pattern_mul_ops(field(word, 5, 5), (field(word, 16, 4) + 1) as u32),
        ))
    }
}

/// INC/DEC vector by element count (`<21>=1`, `<15:13>=110`):
/// `op <Zdn>.<T>{, pattern{, MUL #imm}}`. The element size from `<23:22>` picks
/// H/W/D (no byte vector). `<20>` selects non-saturating (1) vs saturating (0);
/// for saturating, `<11>` is dec and `<10>` is unsigned; for non-saturating,
/// `<10>` is dec.
fn decode_incdec_vec(word: u32, out: &mut Instruction)
    requires
        old(out).is_blank(),
    ensures
        decode_post(*old(out), *final(out)),
        yields(*old(out), *final(out), incdec_vec_form(word)),
{
    let size: u32 = bits(word, 22, 2);
    if size == 0 {
        return; // byte vector INC/DEC does not exist.
    }
    let imm4: u32 = bits(word, 16, 4) + 1;
    start(out, Code::SveIncDecVector, incdec_vec_mnemonic(word, size));
    out.push_operand(zreg(bits(word, 0, 5), arr_hsd(size)));
    push_pattern_mul(out, bits(word, 5, 5), imm4);
}

/// The exact INC/DEC vector mnemonic from the saturating/dec/unsigned bits and
/// the element size.
fn incdec_vec_mnemonic(word: u32, size: u32) -> (m: Mnemonic)
    ensures
        m == incdec_vec_mn_spec(word, size),
{
    let b10: u32 = bit(word, 10);
    let b11: u32 = bit(word, 11);
    if bit(word, 20) == 1 {
        if b10 == 0 {
            by_size_mn(size, Mnemonic::Incd, Mnemonic::Inch, Mnemonic::Incw, Mnemonic::Incd)
        } else {
            by_size_mn(size, Mnemonic::Decd, Mnemonic::Dech, Mnemonic::Decw, Mnemonic::Decd)
        }
    } else if b10 == 0 {
        if b11 == 0 {
            by_size_mn(size, Mnemonic::Sqincd, Mnemonic::Sqinch, Mnemonic::Sqincw, Mnemonic::Sqincd)
        } else {
            by_size_mn(size, Mnemonic::Sqdecd, Mnemonic::Sqdech, Mnemonic::Sqdecw, Mnemonic::Sqdecd)
        }
    } else if b11 == 0 {
        by_size_mn(size, Mnemonic::Uqincd, Mnemonic::Uqinch, Mnemonic::Uqincw, Mnemonic::Uqincd)
    } else {
        by_size_mn(size, Mnemonic::Uqdecd, Mnemonic::Uqdech, Mnemonic::Uqdecw, Mnemonic::Uqdecd)
    }
}

/// The scalar saturating INC/DEC mnemonic of `U`, `D` and the element size.
pub open spec fn sat_scalar_spec(unsigned: bool, dec: bool, size: u32) -> Mnemonic {
    if !unsigned {
        if !dec {
            by_size(size, Mnemonic::Sqincb, Mnemonic::Sqinch, Mnemonic::Sqincw, Mnemonic::Sqincd)
        } else {
            by_size(size, Mnemonic::Sqdecb, Mnemonic::Sqdech, Mnemonic::Sqdecw, Mnemonic::Sqdecd)
        }
    } else if !dec {
        by_size(size, Mnemonic::Uqincb, Mnemonic::Uqinch, Mnemonic::Uqincw, Mnemonic::Uqincd)
    } else {
        by_size(size, Mnemonic::Uqdecb, Mnemonic::Uqdech, Mnemonic::Uqdecw, Mnemonic::Uqdecd)
    }
}

/// The instruction a CNT* / scalar INC/DEC-by-element-count word encodes, or
/// `None`.
pub open spec fn cnt_incdec_form(word: u32) -> Option<(Code, Mnemonic, Seq<Operand>)> {
    let size = field(word, 22, 2);
    let rd = field(word, 0, 5);
    let op = field(word, 10, 3);
    let b20 = field(word, 20, 1);
    let tail = pattern_mul_ops(field(word, 5, 5), (field(word, 16, 4) + 1) as u32);
    let x = gpr_spec(rd, RegWidth::X64);
    if op == 0b000 {
        if b20 == 0 {
            Some((Code::SveCntElem, by_size(size, Mnemonic::Cntb, Mnemonic::Cnth, Mnemonic::Cntw, Mnemonic::Cntd), seq![x] + tail))
        } else {
            Some((Code::SveIncDecScalar, by_size(size, Mnemonic::Incb, Mnemonic::Inch, Mnemonic::Incw, Mnemonic::Incd), seq![x] + tail))
        }
    } else if op == 0b001 {
        if b20 == 1 {
            Some((Code::SveIncDecScalar, by_size(size, Mnemonic::Decb, Mnemonic::Dech, Mnemonic::Decw, Mnemonic::Decd), seq![x] + tail))
        } else {
            None
        }
    } else if op >= 0b100 {
        let unsigned = field(word, 10, 1) == 1;
        let dec = field(word, 11, 1) == 1;
        let w = gpr_spec(rd, RegWidth::W32);
        let regs = if b20 == 1 { seq![x] } else if !unsigned { seq![x, w] } else { seq![w] };
        Some((
            if !unsigned && !dec { Code::SveSqIncDecScalarSx } else { Code::SveIncDecScalar },
            sat_scalar_spec(unsigned, dec, size),
            regs + tail,
        ))
    } else {
        None
    }
}

/// CNTB/H/W/D and scalar INC/DEC/SQINC/.. by element count (`<21>=1`,
/// `<15:13>=111`). Element size from `<23:22>` picks B/H/W/D for the mnemonic.
fn decode_cnt_incdec_scalar(word: u32, out: &mut Instruction)
    requires
        old(out).is_blank(),
    ensures
        decode_post(*old(out), *final(out)),
        yields(*old(out), *final(out), cnt_incdec_form(word)),
{
    let size: u32 = bits(word, 22, 2);
    let imm4: u32 = bits(word, 16, 4) + 1;
    let pattern: u32 = bits(word, 5, 5);
    let rd: u32 = bits(word, 0, 5);
    let op: u32 = bits(word, 10, 3); // <12:10>
    let b20: u32 = bit(word, 20);
    if op == 0b000 {
        // CNT (b20==0) or INC scalar (b20==1).
        if b20 == 0 {
            start(out, Code::SveCntElem, by_size_mn(size, Mnemonic::Cntb, Mnemonic::Cnth, Mnemonic::Cntw, Mnemonic::Cntd));
        } else {
            start(out, Code::SveIncDecScalar, by_size_mn(size, Mnemonic::Incb, Mnemonic::Inch, Mnemonic::Incw, Mnemonic::Incd));
        }
        out.push_operand(gpr(rd, RegWidth::X64));
        push_pattern_mul(out, pattern, imm4);
    } else if op == 0b001 {
        // DEC scalar (X).
        if b20 == 1 {
            start(out, Code::SveIncDecScalar, by_size_mn(size, Mnemonic::Decb, Mnemonic::Dech, Mnemonic::Decw, Mnemonic::Decd));
            out.push_operand(gpr(rd, RegWidth::X64));
            push_pattern_mul(out, pattern, imm4);
        }
    } else if op >= 0b100 {
        // Saturating INC/DEC scalar.
        let unsigned = bit(word, 10) == 1; // U
        let dec = bit(word, 11) == 1; // D
        let code = if !unsigned && !dec { Code::SveSqIncDecScalarSx } else { Code::SveIncDecScalar };
        start(out, code, sat_scalar_mnemonic(unsigned, dec, size));
        if b20 == 1 {
            // `_x`: Xdn only.
            out.push_operand(gpr(rd, RegWidth::X64));
        } else if !unsigned {
            // Signed saturating `_sx`: Xdn, Wdn (32-bit saturation).
            out.push_operand(gpr(rd, RegWidth::X64));
            out.push_operand(gpr(rd, RegWidth::W32));
        } else {
            // Unsigned saturating `_uw`: Wdn.
            out.push_operand(gpr(rd, RegWidth::W32));
        }
        push_pattern_mul(out, pattern, imm4);
    }
}


// ===========================================================================
// Top byte 0x24 — SVE integer compare (vector / wide).
// ===========================================================================

/// The condition of an unsigned-immediate compare, from `<13>` and `<4>`.
pub open spec fn uimm_cond(b13: u32, ne: u32) -> Mnemonic {
    if b13 == 0 {
        if ne == 0 { Mnemonic::Cmphs } else { Mnemonic::Cmphi }
    } else {
        if ne == 0 { Mnemonic::Cmplo } else { Mnemonic::Cmpls }
    }
}

/// The condition of a vector compare from `(<15>, <14>, <13>, <4>)`, and
/// whether its second source is wide (`.d` elements).
pub open spec fn vec_cond(op: u32, b14: u32, b13: u32, ne: u32) -> (Mnemonic, bool) {
    match (op, b14, b13, ne) {
        (0, 0, 0, 0) => (Mnemonic::Cmphs, false),
        (0, 0, 0, 1) => (Mnemonic::Cmphi, false),
        (0, 0, 1, 0) => (Mnemonic::Cmpeq, true),
        (0, 0, 1, 1) => (Mnemonic::Cmpne, true),
        (0, 1, 0, 0) => (Mnemonic::Cmpge, true),
        (0, 1, 0, 1) => (Mnemonic::Cmpgt, true),
        (0, 1, 1, 0) => (Mnemonic::Cmplt, true),
        (0, 1, 1, 1) => (Mnemonic::Cmple, true),
        (1, 0, 0, 0) => (Mnemonic::Cmpge, false),
        (1, 0, 0, 1) => (Mnemonic::Cmpgt, false),
        (1, 0, 1, 0) => (Mnemonic::Cmpeq, false),
        (1, 0, 1, 1) => (Mnemonic::Cmpne, false),
        (1, 1, 0, 0) => (Mnemonic::Cmphs, true),
        (1, 1, 0, 1) => (Mnemonic::Cmphi, true),
        (1, 1, 1, 0) => (Mnemonic::Cmplo, true),
        _ => (Mnemonic::Cmpls, true),
    }
}

fn vec_cond_of(op: u32, b14: u32, b13: u32, ne: u32) -> (r: (Mnemonic, bool))
    ensures
        r == vec_cond(op, b14, b13, ne),
{
    match (op, b14, b13, ne) {
        (0, 0, 0, 0) => (Mnemonic::Cmphs, false),
        (0, 0, 0, 1) => (Mnemonic::Cmphi, false),
        (0, 0, 1, 0) => (Mnemonic::Cmpeq, true),
        (0, 0, 1, 1) => (Mnemonic::Cmpne, true),
        (0, 1, 0, 0) => (Mnemonic::Cmpge, true),
        (0, 1, 0, 1) => (Mnemonic::Cmpgt, true),
        (0, 1, 1, 0) => (Mnemonic::Cmplt, true),
        (0, 1, 1, 1) => (Mnemonic::Cmple, true),
        (1, 0, 0, 0) => (Mnemonic::Cmpge, false),
        (1, 0, 0, 1) => (Mnemonic::Cmpgt, false),
        (1, 0, 1, 0) => (Mnemonic::Cmpeq, false),
        (1, 0, 1, 1) => (Mnemonic::Cmpne, false),
        (1, 1, 0, 0) => (Mnemonic::Cmphs, true),
        (1, 1, 0, 1) => (Mnemonic::Cmphi, true),
        (1, 1, 1, 0) => (Mnemonic::Cmplo, true),
        _ => (Mnemonic::Cmpls, true),
    }
}

/// The instruction a top-byte `0x24` word encodes: an unsigned-immediate
/// compare (`<21>=1`, `imm7 = <20:14>`) or a vector / wide compare
/// `CMP<cc> <Pd>.<T>, <Pg>/Z, <Zn>.<T>, <Zm>.<T|D>`.
#[verifier::opaque]
pub open spec fn int24_form(word: u32) -> Option<(Code, Mnemonic, Seq<Operand>)> {
    let a = arr_spec(field(word, 22, 2));
    let pd = preg_sz_spec(field(word, 0, 4), a);
    let pg = preg_q_spec(field(word, 10, 3), PredQual::Zeroing);
    let zn = zreg_spec(field(word, 5, 5), a);
    if field(word, 21, 1) == 1 {
        Some((
            Code::SveCmpZi,
            uimm_cond(field(word, 13, 1), field(word, 4, 1)),
            seq![pd, pg, zn, Operand::ImmUnsigned(field(word, 14, 7) as u64)],
        ))
    } else {
        let t = vec_cond(field(word, 15, 1), field(word, 14, 1), field(word, 13, 1), field(word, 4, 1));
        Some((
            if t.1 { Code::SveCmpZw } else { Code::SveCmpZz },
            t.0,
            seq![pd, pg, zn, zreg_spec(field(word, 16, 5), if t.1 { VA::Sd } else { a })],
        ))
    }
}

fn decode_24(word: u32, out: &mut Instruction)
    requires
        old(out).is_blank(),
    ensures
        decode_post(*old(out), *final(out)),
        yields(*old(out), *final(out), int24_form(word)),
{
    proof {
        reveal(int24_form);
    }
    let size: u32 = bits(word, 22, 2);
    let pg: u32 = bits(word, 10, 3);
    let zn: u32 = bits(word, 5, 5);
    let pd: u32 = bits(word, 0, 4);
    let a = arr(size);

    if bit(word, 21) == 1 {
        // Unsigned immediate compare (`_p_p_zi_`): imm7=<20:14> (unsigned).
        let imm: u32 = bits(word, 14, 7);
        let b13: u32 = bit(word, 13);
        let ne: u32 = bit(word, 4);
        let mnem = if b13 == 0 {
            if ne == 0 { Mnemonic::Cmphs } else { Mnemonic::Cmphi }
        } else {
            if ne == 0 { Mnemonic::Cmplo } else { Mnemonic::Cmpls }
        };
        install4(out, Code::SveCmpZi, mnem, preg_sz(pd, a), preg_q(pg, PredQual::Zeroing), zreg(zn, a),
            Operand::ImmUnsigned(imm as u64));
        return;
    }

    // Vector / wide compares, by (op15, b14, b13, ne4).
    let zm: u32 = bits(word, 16, 5);
    let (mnem, wide) = vec_cond_of(bit(word, 15), bit(word, 14), bit(word, 13), bit(word, 4));
    let code = if wide { Code::SveCmpZw } else { Code::SveCmpZz };
    install4(out, code, mnem, preg_sz(pd, a), preg_q(pg, PredQual::Zeroing), zreg(zn, a),
        zreg(zm, if wide { VA::Sd } else { a }));
}

// ===========================================================================
// Top byte 0x25 — SVE integer immediate, compare-imm (signed), INC/DEC by
// predicate, CNTP, MOV/DUP immediate. (Predicate-only ops are left to sve_perm.)
// ===========================================================================

/// The CNTP skeleton: `<21:20>=10`, `<19:16>=0000`, `<15:14>=10`, `<9>=0`.
pub open spec fn cntp_skeleton(word: u32) -> bool {
    field(word, 20, 2) == 0b10 && field(word, 16, 4) == 0 && field(word, 14, 2) == 0b10 && field(word, 9, 1) == 0
}

/// The LASTP / FIRSTP skeleton: `<21>=1`, `<15:14>=10`, `<9>=0`,
/// `<20:16>` one of `00010` (LASTP) and `00001` (FIRSTP).
pub open spec fn lastp_skeleton(word: u32) -> bool {
    field(word, 21, 1) == 1 && field(word, 14, 2) == 0b10 && field(word, 9, 1) == 0 && (field(word, 16, 5)
        == 0b00010 || field(word, 16, 5) == 0b00001)
}

/// The instruction a top-byte `0x25` integer word encodes, or `None` (the
/// predicate forms sharing the byte are left to the permute decoder).
#[verifier::opaque]
pub open spec fn int25_form(word: u32) -> Option<(Code, Mnemonic, Seq<Operand>)> {
    let sel = field(word, 13, 3);
    let a = arr_spec(field(word, 22, 2));
    if cntp_skeleton(word) {
        insn(Code::SveCntp, seq![
            gpr_spec(field(word, 0, 5), RegWidth::X64),
            preg_spec(field(word, 10, 4)),
            preg_sz_spec(field(word, 5, 4), a),
        ])
    } else if lastp_skeleton(word) {
        insn(if field(word, 16, 5) == 0b00010 { Code::SveLastp } else { Code::SveFirstp }, seq![
            gpr_spec(field(word, 0, 5), RegWidth::X64),
            preg_spec(field(word, 10, 4)),
            preg_sz_spec(field(word, 5, 4), a),
        ])
    } else if sel == 0b000 || sel == 0b001 {
        if field(word, 14, 1) == 0 && field(word, 21, 1) == 0 {
            simm_compare_form(word)
        } else {
            None
        }
    } else if sel == 0b100 {
        if field(word, 21, 1) == 0 {
            simm_compare_form(word)
        } else if field(word, 12, 4) == 0b1000 {
            incdec_pred_form(word)
        } else {
            None
        }
    } else if (sel == 0b110 || sel == 0b111) && field(word, 21, 1) == 1 {
        int_imm_form(word)
    } else {
        None
    }
}

fn decode_25(word: u32, out: &mut Instruction)
    requires
        old(out).is_blank(),
    ensures
        decode_post(*old(out), *final(out)),
        yields(*old(out), *final(out), int25_form(word)),
{
    proof {
        reveal(int25_form);
    }
    let sel: u32 = bits(word, 13, 3); // word<15:13>

    // CNTP `<Xd>, <Pg>, <Pn>.<T>`: its `Pg` occupies `<13:10>`, so `<15:13>`
    // is `10x` depending on `Pg<3>` — detect it here so a `Pg` with the top
    // bit set (sel==`101`) is not lost to the predicate decoder (DUP).
    if bits(word, 20, 2) == 0b10
        && bits(word, 16, 4) == 0
        && bits(word, 14, 2) == 0b10
        && bit(word, 9) == 0
    {
        decode_cntp(word, out);
        return;
    }

    // LASTP / FIRSTP (SVE2.1 extract predicate-as-counter) share the
    // INC/DEC-by-predicate-count slot (`<15:12>=1000`, `sel=100`) when
    // `Pg<3>==0`, so detect them ahead of the `sel` match.
    if bit(word, 21) == 1
        && bits(word, 14, 2) == 0b10
        && bit(word, 9) == 0
        && (bits(word, 16, 5) == 0b00010 || bits(word, 16, 5) == 0b00001)
    {
        let a = arr(bits(word, 22, 2));
        let pg: u32 = bits(word, 10, 4);
        let pn: u32 = bits(word, 5, 4);
        let rd: u32 = bits(word, 0, 5);
        let code = if bits(word, 16, 5) == 0b00010 { Code::SveLastp } else { Code::SveFirstp };
        install3(out, code, mnemonic_of(code), gpr(rd, RegWidth::X64), preg(pg), preg_sz(pn, a));
        return;
    }

    if sel == 0b000 || sel == 0b001 {
        // ge/gt (000) and lt/le (001) signed-immediate compares.
        if bit(word, 14) == 0 && is_compare_imm_signed(word) {
            decode_compare_imm_signed(word, out);
        }
    } else if sel == 0b100 {
        // CMP eq/ne imm (`<21>=0`) and INC/DEC by predicate count (`<21>=1`,
        // with the fixed nibble `<15:12>==1000`; the FFR / predicate-misc ops
        // sharing `<15:13>==100` have `<15:12>==1001` and are left to the
        // predicate decoder).
        if bit(word, 21) == 0 {
            decode_compare_imm_signed(word, out);
        } else if bits(word, 12, 4) == 0b1000 {
            decode_incdec_pred(word, out);
        }
    } else if (sel == 0b110 || sel == 0b111) && bit(word, 21) == 1 {
        // Integer immediate arithmetic / min-max / mul / DUP; the predicate ops
        // sharing these `<15:13>` slots have `<21>=0`.
        decode_int_imm(word, out);
    }
}

/// The signed-immediate compares in `0x25` have `<21>=0`; the WHILE and
/// predicate forms sharing their `<15:13>` slots have `<21>=1`.
fn is_compare_imm_signed(word: u32) -> (r: bool)
    ensures
        r == (field(word, 21, 1) == 0),
{
    bit(word, 21) == 0
}

/// The condition of a signed-immediate compare from `(<15>, <13>, <4>)`, or
/// `None` for the unallocated `(1, 1, _)`.
pub open spec fn simm_cond(op: u32, lt: u32, ne: u32) -> Option<Mnemonic> {
    if op == 0 {
        if lt == 0 {
            Some(if ne == 0 { Mnemonic::Cmpge } else { Mnemonic::Cmpgt })
        } else {
            Some(if ne == 0 { Mnemonic::Cmplt } else { Mnemonic::Cmple })
        }
    } else if lt == 0 {
        Some(if ne == 0 { Mnemonic::Cmpeq } else { Mnemonic::Cmpne })
    } else {
        None
    }
}

/// The instruction a signed-immediate compare word encodes: `CMP<cc>
/// <Pd>.<T>, <Pg>/Z, <Zn>.<T>, #imm5` with `imm5 = <20:16>` signed.
pub open spec fn simm_compare_form(word: u32) -> Option<(Code, Mnemonic, Seq<Operand>)> {
    let a = arr_spec(field(word, 22, 2));
    match simm_cond(field(word, 15, 1), field(word, 13, 1), field(word, 4, 1)) {
        Some(m) => Some((Code::SveCmpZi, m, seq![
            preg_sz_spec(field(word, 0, 4), a),
            preg_q_spec(field(word, 10, 3), PredQual::Zeroing),
            zreg_spec(field(word, 5, 5), a),
            Operand::ImmSignedDec(sext_spec(field(word, 16, 5) as u64, 5) as i64),
        ])),
        None => None,
    }
}

/// Signed-immediate compare (`_p_p_zi_`, top byte 0x25): `CMP<cc> <Pd>.<T>,
/// <Pg>/Z, <Zn>.<T>, #imm5` with `imm5` signed. The condition is `(op<15>,
/// lt<13>, ne<4>)`: ge(0,0,0)/gt(0,0,1)/lt(0,1,0)/le(0,1,1)/eq(1,0,0)/ne(1,0,1).
fn decode_compare_imm_signed(word: u32, out: &mut Instruction)
    requires
        old(out).is_blank(),
    ensures
        decode_post(*old(out), *final(out)),
        yields(*old(out), *final(out), simm_compare_form(word)),
{
    let size: u32 = bits(word, 22, 2);
    let a = arr(size);
    let imm5 = sign_extend(bits(word, 16, 5) as u64, 5);
    let op: u32 = bit(word, 15);
    let lt: u32 = bit(word, 13);
    let ne: u32 = bit(word, 4);
    let pg: u32 = bits(word, 10, 3);
    let zn: u32 = bits(word, 5, 5);
    let pd: u32 = bits(word, 0, 4);
    let mnem = if op == 0 {
        if lt == 0 {
            if ne == 0 { Mnemonic::Cmpge } else { Mnemonic::Cmpgt }
        } else {
            if ne == 0 { Mnemonic::Cmplt } else { Mnemonic::Cmple }
        }
    } else if lt == 0 {
        if ne == 0 { Mnemonic::Cmpeq } else { Mnemonic::Cmpne }
    } else {
        return;
    };
    install4(out, Code::SveCmpZi, mnem, preg_sz(pd, a), preg_q(pg, PredQual::Zeroing), zreg(zn, a),
        Operand::ImmSignedDec(imm5));
}

/// The code of an arithmetic immediate `<18:16>`, or `None`.
pub open spec fn arith_imm_code(opc: u32) -> Option<Code> {
    match opc {
        0b000 => Some(Code::SveAddZi),
        0b001 => Some(Code::SveSubZi),
        0b011 => Some(Code::SveSubrZi),
        0b100 => Some(Code::SveSqaddZi),
        0b101 => Some(Code::SveUqaddZi),
        0b110 => Some(Code::SveSqsubZi),
        0b111 => Some(Code::SveUqsubZi),
        _ => None,
    }
}

/// The instruction an integer immediate word (`_z_zi_`) encodes, or `None`:
/// the class `<20:19>` is arithmetic (unsigned imm8, optional `lsl #8`),
/// min/max (signed imm8 for SMAX/SMIN), MUL (signed imm8) or the DUP
/// broadcast written MOV (FMOV, `<16>=1`, is left to the floating-point
/// decoder).
pub open spec fn int_imm_form(word: u32) -> Option<(Code, Mnemonic, Seq<Operand>)> {
    let a = arr_spec(field(word, 22, 2));
    let zdn = zreg_spec(field(word, 0, 5), a);
    let imm8 = field(word, 5, 8);
    let class = field(word, 19, 2);
    if class == 0b00 {
        match arith_imm_code(field(word, 16, 3)) {
            Some(c) => insn(c, seq![zdn, zdn, imm8_shift_op(imm8, field(word, 13, 1))]),
            None => None,
        }
    } else if class == 0b01 {
        let u = field(word, 16, 1);
        let mm = field(word, 17, 2);
        if mm == 0b00 || mm == 0b01 {
            insn(
                if mm == 0b00 {
                    if u == 0 { Code::SveSmaxZi } else { Code::SveUmaxZi }
                } else {
                    if u == 0 { Code::SveSminZi } else { Code::SveUminZi }
                },
                seq![zdn, zdn, minmax_imm_spec(imm8, u == 0)],
            )
        } else {
            None
        }
    } else if class == 0b10 {
        if field(word, 16, 3) != 0 {
            None
        } else {
            insn(Code::SveMulZi, seq![zdn, zdn, Operand::ImmSignedDec(sext_spec(imm8 as u64, 8) as i64)])
        }
    } else if field(word, 16, 1) == 1 {
        None
    } else {
        Some((Code::SveDupImm, Mnemonic::Mov, seq![zdn, dup_imm_spec(imm8, field(word, 13, 1))]))
    }
}

/// SVE integer immediate arithmetic / min-max / mul / broadcast (`_z_zi_`, top
/// byte 0x25). The class is `word<20:19>`: `00`=arithmetic, `01`=min/max,
/// `10`=mul, `11`=DUP/FMOV broadcast immediate.
fn decode_int_imm(word: u32, out: &mut Instruction)
    requires
        old(out).is_blank(),
    ensures
        decode_post(*old(out), *final(out)),
        yields(*old(out), *final(out), int_imm_form(word)),
{
    let size: u32 = bits(word, 22, 2);
    let a = arr(size);
    let zdn: u32 = bits(word, 0, 5);
    let imm8: u32 = bits(word, 5, 8);
    let sh: u32 = bit(word, 13);
    let class: u32 = bits(word, 19, 2);
    if class == 0b00 {
        // Arithmetic immediate, unsigned imm8 with optional `lsl #8`.
        let code = match bits(word, 16, 3) {
            0b000 => Code::SveAddZi,
            0b001 => Code::SveSubZi,
            0b011 => Code::SveSubrZi,
            0b100 => Code::SveSqaddZi,
            0b101 => Code::SveUqaddZi,
            0b110 => Code::SveSqsubZi,
            0b111 => Code::SveUqsubZi,
            _ => return,
        };
        install3(out, code, mnemonic_of(code), zreg(zdn, a), zreg(zdn, a), imm8_shift(imm8, sh));
    } else if class == 0b01 {
        // Min/max immediate. <18:17>=00 -> MAX, 01 -> MIN; U=<16>.
        let u: u32 = bit(word, 16);
        let mm: u32 = bits(word, 17, 2);
        let code = if mm == 0b00 {
            if u == 0 { Code::SveSmaxZi } else { Code::SveUmaxZi }
        } else if mm == 0b01 {
            if u == 0 { Code::SveSminZi } else { Code::SveUminZi }
        } else {
            return;
        };
        install3(out, code, mnemonic_of(code), zreg(zdn, a), zreg(zdn, a), minmax_imm(imm8, u == 0));
    } else if class == 0b10 {
        // MUL by immediate (signed imm8).
        if bits(word, 16, 3) != 0b000 {
            return;
        }
        install3(out, Code::SveMulZi, mnemonic_of(Code::SveMulZi), zreg(zdn, a), zreg(zdn, a),
            Operand::ImmSignedDec(sign_extend(imm8 as u64, 8)));
    } else {
        // Broadcast immediate: DUP (`<16>=0`) is written as the MOV alias, a
        // signed imm8 optionally shifted left by 8 (`<13>`); FMOV/FDUP
        // (`<16>=1`) is a floating-point broadcast.
        if bit(word, 16) == 1 {
            return;
        }
        install2_as(out, Code::SveDupImm, Mnemonic::Mov, zreg(zdn, a), dup_imm(imm8, sh));
    }
}

/// The DUP broadcast immediate: a signed imm8, shifted left by 8 when
/// `sh==1`.
pub open spec fn dup_imm_spec(imm8: u32, sh: u32) -> Operand {
    Operand::ImmSignedDec((if sh == 1 { sext_spec(imm8 as u64, 8) * 256 } else { sext_spec(imm8 as u64, 8) }) as i64)
}

/// The DUP broadcast immediate operand: a signed imm8, shifted left by 8
/// when `sh==1`. The pre-shifted signed value is written (`#-19456` for
/// `0xb4` with shift), so `(imm8 as i8 as i64) << 8` is materialised.
fn dup_imm(imm8: u32, sh: u32) -> (r: Operand)
    ensures
        r == dup_imm_spec(imm8, sh),
{
    let v = sign_extend(imm8 as u64, 8);
    if sh == 1 {
        Operand::ImmSignedDec(v * 256)
    } else {
        Operand::ImmSignedDec(v)
    }
}

/// The min/max immediate operand: signed for SMAX/SMIN, unsigned for UMAX/UMIN.
pub open spec fn minmax_imm_spec(imm8: u32, signed: bool) -> Operand {
    if signed {
        Operand::ImmSignedDec(sext_spec(imm8 as u64, 8) as i64)
    } else {
        Operand::ImmUnsigned(imm8 as u64)
    }
}

fn minmax_imm(imm8: u32, signed: bool) -> (r: Operand)
    ensures
        r == minmax_imm_spec(imm8, signed),
{
    if signed {
        Operand::ImmSignedDec(sign_extend(imm8 as u64, 8))
    } else {
        Operand::ImmUnsigned(imm8 as u64)
    }
}

/// The unsigned imm8 operand, optionally shifted left by 8.
pub open spec fn imm8_shift_op(imm8: u32, sh: u32) -> Operand {
    if sh == 1 {
        if imm8 == 0 {
            Operand::ImmShiftedMove { imm: 0, lsl: 8 }
        } else {
            Operand::ImmUnsigned((imm8 << 8) as u64)
        }
    } else {
        Operand::ImmUnsigned(imm8 as u64)
    }
}

/// The unsigned imm8 operand with an optional `, lsl #8` when `sh==1`.
///
/// The shifted forms are written with the value already shifted into place
/// (`#0xNN00`), so a non-zero `imm8` with `sh==1` is emitted as `imm8 << 8`.
/// The explicit `#0x0, lsl #0x8` is used only for the zero-with-shift case,
/// via [`Operand::ImmShiftedMove`].
fn imm8_shift(imm8: u32, sh: u32) -> (r: Operand)
    ensures
        r == imm8_shift_op(imm8, sh),
{
    if sh == 1 {
        if imm8 == 0 {
            Operand::ImmShiftedMove { imm: 0, lsl: 8 }
        } else {
            Operand::ImmUnsigned((imm8 << 8) as u64)
        }
    } else {
        Operand::ImmUnsigned(imm8 as u64)
    }
}

/// CNTP (`<15:13>=101`, top byte 0x25): `CNTP <Xd>, <Pg>, <Pn>.<T>`.
fn decode_cntp(word: u32, out: &mut Instruction)
    requires
        old(out).is_blank(),
    ensures
        decode_post(*old(out), *final(out)),
        installed(*old(out), *final(out), Code::SveCntp, code_mnemonic(Code::SveCntp), seq![
            gpr_spec(field(word, 0, 5), RegWidth::X64),
            preg_spec(field(word, 10, 4)),
            preg_sz_spec(field(word, 5, 4), arr_spec(field(word, 22, 2))),
        ]),
{
    let size: u32 = bits(word, 22, 2);
    let a = arr(size);
    let pg: u32 = bits(word, 10, 4);
    let pn: u32 = bits(word, 5, 4);
    let rd: u32 = bits(word, 0, 5);
    install3(out, Code::SveCntp, mnemonic_of(Code::SveCntp), gpr(rd, RegWidth::X64), preg(pg), preg_sz(pn, a));
}

/// The mnemonic of a saturating INC/DEC by predicate count `<18:16>`, or
/// `None`.
pub open spec fn sat_incdec_pred_mn(opc: u32) -> Option<Mnemonic> {
    match opc {
        0b000 => Some(Mnemonic::Sqincp),
        0b001 => Some(Mnemonic::Uqincp),
        0b010 => Some(Mnemonic::Sqdecp),
        0b011 => Some(Mnemonic::Uqdecp),
        _ => None,
    }
}

/// The instruction an INC/DEC by predicate count word encodes, or `None`.
/// The vector forms (`<11>=0`) are `<Zdn>.<T>, <Pm>`; the scalar INCP/DECP
/// is `<Xdn>, <Pm>.<T>`; the saturating scalar forms take `<10>` (sf): the
/// signed ones add `, <Wdn>` when it is clear, the unsigned ones write `Wdn`.
pub open spec fn incdec_pred_form(word: u32) -> Option<(Code, Mnemonic, Seq<Operand>)> {
    let a = arr_spec(field(word, 22, 2));
    let pm = field(word, 5, 4);
    let rdn = field(word, 0, 5);
    let opc = field(word, 16, 3);
    let vector = field(word, 11, 1) == 0;
    let mn = if opc == 0b100 {
        Some(Mnemonic::Incp)
    } else if opc == 0b101 {
        Some(Mnemonic::Decp)
    } else {
        sat_incdec_pred_mn(opc)
    };
    match mn {
        Some(m) => if vector {
            Some((Code::SveIncDecPVector, m, seq![zreg_spec(rdn, a), preg_spec(pm)]))
        } else if opc == 0b100 || opc == 0b101 {
            Some((Code::SveIncDecPScalar, m, seq![gpr_spec(rdn, RegWidth::X64), preg_sz_spec(pm, a)]))
        } else if opc == 0b001 || opc == 0b011 {
            Some((Code::SveSqIncDecPScalarSx, m, seq![
                gpr_spec(rdn, if field(word, 10, 1) == 1 { RegWidth::X64 } else { RegWidth::W32 }),
                preg_sz_spec(pm, a),
            ]))
        } else if field(word, 10, 1) == 0 {
            Some((Code::SveSqIncDecPScalarSx, m, seq![
                gpr_spec(rdn, RegWidth::X64),
                preg_sz_spec(pm, a),
                gpr_spec(rdn, RegWidth::W32),
            ]))
        } else {
            Some((Code::SveSqIncDecPScalarSx, m, seq![gpr_spec(rdn, RegWidth::X64), preg_sz_spec(pm, a)]))
        },
        None => None,
    }
}

/// INC/DEC by predicate count (`<15:13>=100`, top byte 0x25): the scalar and
/// vector forms (`INCP`/`DECP`/`SQINCP`/`SQDECP`/`UQINCP`/`UQDECP`). The op is in
/// `word<18:16>`: 000=SQINCP, 001=UQINCP, 010=SQDECP, 011=UQDECP, 100=INCP,
/// 101=DECP. The vector form has `<11>==0` (scalar otherwise), and for the
/// saturating scalar forms `<10>` (sf) selects the X (1) vs W/SX (0) operand.
fn decode_incdec_pred(word: u32, out: &mut Instruction)
    requires
        old(out).is_blank(),
    ensures
        decode_post(*old(out), *final(out)),
        yields(*old(out), *final(out), incdec_pred_form(word)),
{
    let size: u32 = bits(word, 22, 2);
    let a = arr(size);
    let pm: u32 = bits(word, 5, 4);
    let rdn: u32 = bits(word, 0, 5);
    let is_vector = bit(word, 11) == 0;
    let opc: u32 = bits(word, 16, 3); // word<18:16>
    let mnem = match opc {
        0b000 => Mnemonic::Sqincp,
        0b001 => Mnemonic::Uqincp,
        0b010 => Mnemonic::Sqdecp,
        0b011 => Mnemonic::Uqdecp,
        0b100 => Mnemonic::Incp,
        0b101 => Mnemonic::Decp,
        _ => return,
    };
    if is_vector {
        install2_as(out, Code::SveIncDecPVector, mnem, zreg(rdn, a), preg(pm));
    } else if opc == 0b100 || opc == 0b101 {
        // Plain INCP / DECP.
        install2_as(out, Code::SveIncDecPScalar, mnem, gpr(rdn, RegWidth::X64), preg_sz(pm, a));
    } else {
        // Saturating scalar: sf=<10> selects the 64-bit X form (1) vs the
        // 32-bit W/SX form.
        let sf: u32 = bit(word, 10);
        if opc == 0b001 || opc == 0b011 {
            // Unsigned: `_x` (sf=1) = Xdn, Pg.T; `_uw` (sf=0) = Wdn, Pg.T.
            let w = if sf == 1 { RegWidth::X64 } else { RegWidth::W32 };
            install2_as(out, Code::SveSqIncDecPScalarSx, mnem, gpr(rdn, w), preg_sz(pm, a));
        } else if sf == 0 {
            // Signed `_sx`: Xdn, Pg.T, Wdn.
            install3(out, Code::SveSqIncDecPScalarSx, mnem, gpr(rdn, RegWidth::X64), preg_sz(pm, a),
                gpr(rdn, RegWidth::W32));
        } else {
            // Signed `_x`: Xdn, Pg.T.
            install2_as(out, Code::SveSqIncDecPScalarSx, mnem, gpr(rdn, RegWidth::X64), preg_sz(pm, a));
        }
    }
}

// ===========================================================================
// Top bytes 0x44 / 0x45 — SVE2 integer multiply-add / DOT / widening.
// ===========================================================================

/// SDOT / UDOT (top byte 0x44): `op <Zda>.<T>, <Zn>.<Tb>, <Zm>.<Tb>{[idx]}`.
///
/// The DOT-product skeleton has `word<15:11>==0b00000` and `word<10>==U`.
/// `word<21>` selects the vector form (0) vs the indexed form (1); within each,
/// `word<22>` (or `<23:22>`) selects `.s`-over-`.b` vs `.d`-over-`.h`.
fn decode_44(word: u32, out: &mut Instruction)
    requires
        old(out).is_blank(),
    ensures
        decode_post(*old(out), *final(out)),
        yields(*old(out), *final(out), if field(word, 21, 1) == 0 { vec44_form(word) } else { idx44_form(word) }),
{
    if bit(word, 21) == 0 {
        decode_44_vector(word, out);
    } else {
        decode_44_indexed(word, out);
    }
}

/// The complex-rotation immediate `#<rot>` from the 2-bit `rot` field: `0`→`#0x0`,
/// `1`→`#0x5a` (90), `2`→`#0xb4` (180), `3`→`#0x10e` (270), written in hex.
fn rot_imm(rot: u32) -> (r: Operand)
    ensures
        r == rot_imm_spec(rot),
{
    Operand::ImmUnsigned(match rot & 3 {
        0 => 0,
        1 => 90,
        2 => 180,
        _ => 270,
    })
}

/// `#<rot>` for a 2-bit rotation field: 0, 90, 180 or 270 degrees.
pub open spec fn rot_imm_spec(rot: u32) -> Operand {
    Operand::ImmUnsigned(
        if rot & 3 == 0 {
            0
        } else if rot & 3 == 1 {
            90
        } else if rot & 3 == 2 {
            180
        } else {
            270
        },
    )
}

/// The `(wide, narrow)` arrangements of a 2x-widening `size`, or `None` for
/// `size == 0`.
pub open spec fn widen2_spec(size: u32) -> Option<(VA, VA)> {
    if size == 1 {
        Some((VA::Sh, VA::Sb))
    } else if size == 2 {
        Some((VA::Ss, VA::Sh))
    } else if size == 3 {
        Some((VA::Sd, VA::Ss))
    } else {
        None
    }
}

/// Widen a `size` (`01`/`10`/`11`) into its `(wide, narrow)` arrangement pair for
/// the SVE2 2x-widening multiply-long family (`.h<-.b`, `.s<-.h`, `.d<-.s`).
fn widen2(size: u32) -> (r: Option<(VA, VA)>)
    ensures
        r == widen2_spec(size),
{
    match size {
        0b01 => Some((VA::Sh, VA::Sb)),
        0b10 => Some((VA::Ss, VA::Sh)),
        0b11 => Some((VA::Sd, VA::Ss)),
        _ => None,
    }
}

/// The multiply-add/subtract-long mnemonic for `S:U:T` (`<12:10>`).
pub open spec fn mlal_mnemonic(s: u32, u: u32, t: u32) -> Mnemonic {
    if s == 0 {
        if u == 0 {
            if t == 0 { Mnemonic::Smlalb } else { Mnemonic::Smlalt }
        } else {
            if t == 0 { Mnemonic::Umlalb } else { Mnemonic::Umlalt }
        }
    } else if u == 0 {
        if t == 0 { Mnemonic::Smlslb } else { Mnemonic::Smlslt }
    } else {
        if t == 0 { Mnemonic::Umlslb } else { Mnemonic::Umlslt }
    }
}

/// The saturating doubling multiply-add/subtract-long mnemonic for `S:T`
/// (`<11:10>`).
pub open spec fn sqdml_mnemonic(s: u32, t: u32) -> Mnemonic {
    if s == 0 {
        if t == 0 { Mnemonic::Sqdmlalb } else { Mnemonic::Sqdmlalt }
    } else {
        if t == 0 { Mnemonic::Sqdmlslb } else { Mnemonic::Sqdmlslt }
    }
}

/// The 128-bit-segment zip/unzip mnemonic for `<11:10>`.
pub open spec fn zipq_mnemonic(op: u32) -> Mnemonic {
    if op == 0 {
        Mnemonic::Zipq1
    } else if op == 1 {
        Mnemonic::Zipq2
    } else if op == 2 {
        Mnemonic::Uzpq1
    } else {
        Mnemonic::Uzpq2
    }
}

/// `Zd.<T>, Zn.<Tn>, Zm.<Tn>`.
pub open spec fn zzz(zd: u32, d: VA, zn: u32, zm: u32, n: VA) -> Seq<Operand> {
    seq![zreg_spec(zd, d), zreg_spec(zn, n), zreg_spec(zm, n)]
}

/// The instruction a top-byte `0x44` vector-form word (`<21>=0`) encodes, or
/// `None`.
pub open spec fn vec44_form(word: u32) -> Option<(Code, Mnemonic, Seq<Operand>)> {
    let size = field(word, 22, 2);
    let zm = field(word, 16, 5);
    let zn = field(word, 5, 5);
    let zda = field(word, 0, 5);
    let op = field(word, 13, 3);
    let mid = field(word, 11, 2);
    let b12 = field(word, 12, 1);
    let b11 = field(word, 11, 1);
    let b10 = field(word, 10, 1);
    let a = arr_spec(size);
    // The 4x-widening dot products: `.s` over `.b` (size 2) or `.d` over `.h`.
    let dot_d = if size == 2 { VA::Ss } else { VA::Sd };
    let dot_n = if size == 2 { VA::Sb } else { VA::Sh };
    if op == 0 && mid == 0 {
        if size < 2 {
            None
        } else {
            Some((
                if b10 == 0 { Code::SveSdot } else { Code::SveUdot },
                if b10 == 0 { Mnemonic::Sdot } else { Mnemonic::Udot },
                zzz(zda, dot_d, zn, zm, dot_n),
            ))
        }
    } else if op == 0 && mid == 1 {
        match widen2_spec(size) {
            Some(p) => Some((
                Code::SveSqdmlalLongBt,
                if b10 == 0 { Mnemonic::Sqdmlalbt } else { Mnemonic::Sqdmlslbt },
                zzz(zda, p.0, zn, zm, p.1),
            )),
            None => None,
        }
    } else if op == 0 {
        if b12 != 1 || size < 2 {
            None
        } else {
            Some((Code::SveCdot, Mnemonic::Cdot, zzz(zda, dot_d, zn, zm, dot_n).push(rot_imm_spec(field(word, 10, 2)))))
        }
    } else if op == 1 {
        Some((
            if b12 == 0 { Code::SveCmla } else { Code::SveSqrdcmlah },
            if b12 == 0 { Mnemonic::Cmla } else { Mnemonic::Sqrdcmlah },
            zzz(zda, a, zn, zm, a).push(rot_imm_spec(field(word, 10, 2))),
        ))
    } else if op == 2 {
        match widen2_spec(size) {
            Some(p) => Some((Code::SveMlaLong, mlal_mnemonic(b12, b11, b10), zzz(zda, p.0, zn, zm, p.1))),
            None => None,
        }
    } else if op == 3 && b12 == 0 {
        match widen2_spec(size) {
            Some(p) => Some((Code::SveSqdmlalLong, sqdml_mnemonic(b11, b10), zzz(zda, p.0, zn, zm, p.1))),
            None => None,
        }
    } else if op == 3 {
        if field(word, 10, 6) == 0b011110 {
            if size != 2 {
                None
            } else {
                Some((Code::SveDotMixed, Mnemonic::Usdot, zzz(zda, VA::Ss, zn, zm, VA::Sb)))
            }
        } else if mid == 2 {
            Some((
                if b10 == 0 { Code::SveSqrdmlah } else { Code::SveSqrdmlsh },
                if b10 == 0 { Mnemonic::Sqrdmlah } else { Mnemonic::Sqrdmlsh },
                zzz(zda, a, zn, zm, a),
            ))
        } else {
            None
        }
    } else if op == 4 || op == 5 {
        pred44_form(word)
    } else if op == 6 && mid == 0 {
        Some((
            if b10 == 0 { Code::SveSclamp } else { Code::SveUclamp },
            if b10 == 0 { Mnemonic::Sclamp } else { Mnemonic::Uclamp },
            zzz(zda, a, zn, zm, a),
        ))
    } else if op == 6 && mid == 1 {
        if field(word, 23, 1) == 0 {
            if size != 0 {
                None
            } else {
                Some((
                    if b10 == 0 { Code::SveSdotH } else { Code::SveUdotH },
                    if b10 == 0 { Mnemonic::Sdot } else { Mnemonic::Udot },
                    zzz(zda, VA::Ss, zn, zm, VA::Sh),
                ))
            }
        } else {
            Some((
                if b10 == 0 { Code::SveSdotHIdx } else { Code::SveUdotHIdx },
                if b10 == 0 { Mnemonic::Sdot } else { Mnemonic::Udot },
                seq![
                    zreg_spec(zda, VA::Ss),
                    zreg_spec(zn, VA::Sh),
                    zreg_idx_spec(field(word, 16, 3), VA::Sh, field(word, 19, 2) as u8),
                ],
            ))
        }
    } else if op == 6 && field(word, 21, 1) == 0 && b10 == 1 && b12 == 1 {
        match widen2_spec(size) {
            Some(p) => Some((
                if b11 == 0 { Code::SveSabal } else { Code::SveUabal },
                if b11 == 0 { Mnemonic::Sabal } else { Mnemonic::Uabal },
                zzz(zda, p.0, zn, zm, p.1),
            )),
            None => None,
        }
    } else if op == 7 {
        let sel = field(word, 10, 3);
        if sel <= 3 {
            Some((Code::SveZipqUzpq, zipq_mnemonic(sel), zzz(zda, a, zn, zm, a)))
        } else if sel == 6 {
            Some((Code::SveTblq, Mnemonic::Tblq, seq![zreg_spec(zda, a), zlist1_spec(zn, a), zreg_spec(zm, a)]))
        } else {
            None
        }
    } else {
        None
    }
}

fn mlal_mn(s: u32, u: u32, t: u32) -> (m: Mnemonic)
    ensures
        m == mlal_mnemonic(s, u, t),
{
    if s == 0 {
        if u == 0 {
            if t == 0 { Mnemonic::Smlalb } else { Mnemonic::Smlalt }
        } else {
            if t == 0 { Mnemonic::Umlalb } else { Mnemonic::Umlalt }
        }
    } else if u == 0 {
        if t == 0 { Mnemonic::Smlslb } else { Mnemonic::Smlslt }
    } else {
        if t == 0 { Mnemonic::Umlslb } else { Mnemonic::Umlslt }
    }
}

fn sqdml_mn(s: u32, t: u32) -> (m: Mnemonic)
    ensures
        m == sqdml_mnemonic(s, t),
{
    if s == 0 {
        if t == 0 { Mnemonic::Sqdmlalb } else { Mnemonic::Sqdmlalt }
    } else {
        if t == 0 { Mnemonic::Sqdmlslb } else { Mnemonic::Sqdmlslt }
    }
}

fn zipq_mn(op: u32) -> (m: Mnemonic)
    ensures
        m == zipq_mnemonic(op),
{
    match op {
        0 => Mnemonic::Zipq1,
        1 => Mnemonic::Zipq2,
        2 => Mnemonic::Uzpq1,
        _ => Mnemonic::Uzpq2,
    }
}

/// SVE2 0x44 vector forms (`<21>=0`): SDOT/UDOT, CDOT, CMLA/SQRDCMLAH, the
/// {S,U}ML{A,S}L{B,T} multiply-add-long family, SQDML{A,S}L{B,T},
/// SQRDML{A,S}H, the predicated forms (`<15:14>=10`), CLAMP, the 2-way `.h`
/// dot products, {S,U}ABAL and the 128-bit-segment permutes. Dispatched on
/// the `<15:10>` opcode region.
fn decode_44_vector(word: u32, out: &mut Instruction)
    requires
        old(out).is_blank(),
    ensures
        decode_post(*old(out), *final(out)),
        yields(*old(out), *final(out), vec44_form(word)),
{
    let size: u32 = bits(word, 22, 2);
    let zm: u32 = bits(word, 16, 5);
    let zn: u32 = bits(word, 5, 5);
    let zda: u32 = bits(word, 0, 5);
    let op: u32 = bits(word, 13, 3);
    let mid: u32 = bits(word, 11, 2);
    let b12: u32 = bit(word, 12);
    let b11: u32 = bit(word, 11);
    let b10: u32 = bit(word, 10);
    let (dot_d, dot_n) = if size == 2 { (VA::Ss, VA::Sb) } else { (VA::Sd, VA::Sh) };
    if op == 0 && mid == 0 {
        // SDOT/UDOT (`<15:11>=00000`): size==2 -> .s/.b, size==3 -> .d/.h. U=<10>.
        if size < 2 {
            return;
        }
        let (code, m) = if b10 == 0 { (Code::SveSdot, Mnemonic::Sdot) } else { (Code::SveUdot, Mnemonic::Udot) };
        install3(out, code, m, zreg(zda, dot_d), zreg(zn, dot_n), zreg(zm, dot_n));
    } else if op == 0 && mid == 1 {
        // SQDMLALBT (`S=0`) / SQDMLSLBT (`S=1`) (`<15:11>=00001`): 2x-widening
        // bottom-top saturating doubling multiply-add/subtract long.
        let Some((da, sa)) = widen2(size) else { return };
        let m = if b10 == 0 { Mnemonic::Sqdmlalbt } else { Mnemonic::Sqdmlslbt };
        install3(out, Code::SveSqdmlalLongBt, m, zreg(zda, da), zreg(zn, sa), zreg(zm, sa));
    } else if op == 0 {
        // CDOT (`<15:12>=0001`): 4x-widening complex dot. rot=<11:10>.
        if b12 != 1 || size < 2 {
            return;
        }
        install4(out, Code::SveCdot, Mnemonic::Cdot, zreg(zda, dot_d), zreg(zn, dot_n), zreg(zm, dot_n), rot_imm(bits(word, 10, 2)));
    } else if op == 1 {
        // CMLA (`<12>=0`) / SQRDCMLAH (`<12>=1`): same-size complex MAC. rot=<11:10>.
        let a = arr(size);
        let (code, m) = if b12 == 0 { (Code::SveCmla, Mnemonic::Cmla) } else { (Code::SveSqrdcmlah, Mnemonic::Sqrdcmlah) };
        install4(out, code, m, zreg(zda, a), zreg(zn, a), zreg(zm, a), rot_imm(bits(word, 10, 2)));
    } else if op == 2 {
        // {S,U}ML{A,S}L{B,T} (`<15:13>=010`): S=<12> (0=MLAL,1=MLSL), U=<11>
        // (0=signed,1=unsigned), T=<10> (bottom/top). 2x widening.
        let Some((da, sa)) = widen2(size) else { return };
        install3(out, Code::SveMlaLong, mlal_mn(b12, b11, b10), zreg(zda, da), zreg(zn, sa), zreg(zm, sa));
    } else if op == 3 && b12 == 0 {
        // SQDML{A,S}L{B,T} (`<15:12>=0110`): S=<11> (0=ADD,1=SUB), T=<10>.
        let Some((da, sa)) = widen2(size) else { return };
        install3(out, Code::SveSqdmlalLong, sqdml_mn(b11, b10), zreg(zda, da), zreg(zn, sa), zreg(zm, sa));
    } else if op == 3 {
        // `<15:13>=011`: USDOT (`<15:10>=011110`) and SQRDMLAH/SH (`<12:11>=10`).
        if bits(word, 10, 6) == 0b011110 {
            // USDOT (vector): `<Zda>.S, <Zn>.B, <Zm>.B`. size==2 only.
            if size != 2 {
                return;
            }
            install3(out, Code::SveDotMixed, Mnemonic::Usdot, zreg(zda, VA::Ss), zreg(zn, VA::Sb), zreg(zm, VA::Sb));
        } else if mid == 0b10 {
            decode_44_sqrdml_vec(word, out);
        }
    } else if op == 4 || op == 5 {
        // Predicated SVE2 integer (`<15:14>=10`): halving/saturating/rounding
        // binary, pairwise, saturating-abs/neg, and pairwise-accumulate-long.
        decode_44_pred(word, out);
    } else if op == 6 && mid == 0 {
        // SCLAMP/UCLAMP (`<15:11>=11000`, SVE2 / SME): clamp each element of the
        // destination to the signed/unsigned range `[Zn, Zm]`. `U=<10>` selects
        // signed(0)/unsigned(1); all three operands share the `size` arrangement.
        let a = arr(size);
        let (code, m) = if b10 == 0 { (Code::SveSclamp, Mnemonic::Sclamp) } else { (Code::SveUclamp, Mnemonic::Uclamp) };
        install3(out, code, m, zreg(zda, a), zreg(zn, a), zreg(zm, a));
    } else if op == 6 && mid == 1 {
        // SDOT/UDOT 2-way `.h` (`<15:11>=11001`, SVE2.1): `<Zda>.S, <Zn>.H,
        // <Zm>.H{[idx]}`. The vector form has `<23:22>=00`; the indexed form has
        // `<23:22>=10` with i2=<20:19> selecting the 128-bit-segment lane and a
        // 3-bit Zm=<18:16>. `U=<10>`.
        let m = if b10 == 0 { Mnemonic::Sdot } else { Mnemonic::Udot };
        if bit(word, 23) == 0 {
            if size != 0 {
                return;
            }
            let code = if b10 == 0 { Code::SveSdotH } else { Code::SveUdotH };
            install3(out, code, m, zreg(zda, VA::Ss), zreg(zn, VA::Sh), zreg(zm, VA::Sh));
        } else {
            let code = if b10 == 0 { Code::SveSdotHIdx } else { Code::SveUdotHIdx };
            let idx: u32 = bits(word, 19, 2);
            let zm3: u32 = bits(word, 16, 3);
            install3(out, code, m, zreg(zda, VA::Ss), zreg(zn, VA::Sh), zreg_idx(zm3, VA::Sh, idx as u8));
        }
    } else if op == 6 && bit(word, 21) == 0 && b10 == 1 && b12 == 1 {
        // {S,U}ABAL (`<15:13>=110`, `<12:11>` = `10`(SABAL)/`11`(UABAL), `<10>=1`,
        // `<21>=0`): SVE2.3 absolute-difference accumulate long (alias of
        // {S,U}ABALB). 2x widening: `<Zda>.<T>, <Zn>.<Tb>, <Zm>.<Tb>`.
        let Some((da, sa)) = widen2(size) else { return };
        let (code, m) = if b11 == 0 { (Code::SveSabal, Mnemonic::Sabal) } else { (Code::SveUabal, Mnemonic::Uabal) };
        install3(out, code, m, zreg(zda, da), zreg(zn, sa), zreg(zm, sa));
    } else if op == 7 {
        // ZIPQ1/2, UZPQ1/2, TBLQ (`<15:13>=111`, SVE2.1 128-bit-segment permute):
        // `<12:10>` selects the op; all four element sizes are valid.
        let a = arr(size);
        let sel: u32 = bits(word, 10, 3);
        if sel <= 3 {
            install3(out, Code::SveZipqUzpq, zipq_mn(sel), zreg(zda, a), zreg(zn, a), zreg(zm, a));
        } else if sel == 6 {
            install3(out, Code::SveTblq, Mnemonic::Tblq, zreg(zda, a), zlist1(zn, a), zreg(zm, a));
        }
    }
}


/// The halving add/subtract mnemonic of `<18:16>` (`_z_p_zz_`, `<21:19>=010`).
pub open spec fn halving_mnemonic(op: u32) -> Mnemonic {
    if op == 0 {
        Mnemonic::Shadd
    } else if op == 1 {
        Mnemonic::Uhadd
    } else if op == 2 {
        Mnemonic::Shsub
    } else if op == 3 {
        Mnemonic::Uhsub
    } else if op == 4 {
        Mnemonic::Srhadd
    } else if op == 5 {
        Mnemonic::Urhadd
    } else if op == 6 {
        Mnemonic::Shsubr
    } else {
        Mnemonic::Uhsubr
    }
}

/// The saturating add/subtract mnemonic of `<18:16>` (`_z_p_zz_`, `<21:19>=011`).
pub open spec fn sat_addsub_mnemonic(op: u32) -> Mnemonic {
    if op == 0 {
        Mnemonic::Sqadd
    } else if op == 1 {
        Mnemonic::Uqadd
    } else if op == 2 {
        Mnemonic::Sqsub
    } else if op == 3 {
        Mnemonic::Uqsub
    } else if op == 4 {
        Mnemonic::Suqadd
    } else if op == 5 {
        Mnemonic::Usqadd
    } else if op == 6 {
        Mnemonic::Sqsubr
    } else {
        Mnemonic::Uqsubr
    }
}

/// The predicated shift-by-vector mnemonic for `Q:R:N:U` (`<19:16>`), or
/// `None` for the unallocated non-saturating, non-rounding combinations.
pub open spec fn shift_zpzz_mnemonic(q: u32, r: u32, n: u32, u: u32) -> Option<Mnemonic> {
    if q == 0 {
        if n == 0 {
            None
        } else if r == 0 {
            Some(if u == 0 { Mnemonic::Srshl } else { Mnemonic::Urshl })
        } else {
            Some(if u == 0 { Mnemonic::Srshlr } else { Mnemonic::Urshlr })
        }
    } else if r == 0 {
        if n == 0 {
            Some(if u == 0 { Mnemonic::Sqshl } else { Mnemonic::Uqshl })
        } else {
            Some(if u == 0 { Mnemonic::Sqrshl } else { Mnemonic::Uqrshl })
        }
    } else if n == 0 {
        Some(if u == 0 { Mnemonic::Sqshlr } else { Mnemonic::Uqshlr })
    } else {
        Some(if u == 0 { Mnemonic::Sqrshlr } else { Mnemonic::Uqrshlr })
    }
}

/// The pairwise mnemonic of `<18:16>` (`<21:19>=010`), or `None`.
pub open spec fn pairwise_mnemonic(op: u32) -> Option<Mnemonic> {
    if op == 1 {
        Some(Mnemonic::Addp)
    } else if op == 4 {
        Some(Mnemonic::Smaxp)
    } else if op == 5 {
        Some(Mnemonic::Umaxp)
    } else if op == 6 {
        Some(Mnemonic::Sminp)
    } else if op == 7 {
        Some(Mnemonic::Uminp)
    } else {
        None
    }
}

/// The instruction a top-byte `0x44` predicated word (`<15:14>=10`, `<21>=0`)
/// encodes, or `None`.
pub open spec fn pred44_form(word: u32) -> Option<(Code, Mnemonic, Seq<Operand>)> {
    let size = field(word, 22, 2);
    let a = arr_spec(size);
    let pg = field(word, 10, 3);
    let zm = field(word, 5, 5);
    let zdn = field(word, 0, 5);
    let u = field(word, 16, 1);
    let merge = preg_q_spec(pg, PredQual::Merging);
    let binary = seq![zreg_spec(zdn, a), merge, zreg_spec(zdn, a), zreg_spec(zm, a)];
    let family = field(word, 19, 3);
    let op = field(word, 16, 3);
    if field(word, 13, 1) == 0 {
        if family == 2 {
            Some((Code::SveHalvingZpzz, halving_mnemonic(op), binary))
        } else if family == 3 {
            Some((Code::SveSatRoundZpzz, sat_addsub_mnemonic(op), binary))
        } else if family <= 1 {
            match shift_zpzz_mnemonic(field(word, 19, 1), field(word, 18, 1), field(word, 17, 1), u) {
                Some(m) => Some((Code::SveSatRoundZpzz, m, binary)),
                None => None,
            }
        } else {
            None
        }
    } else if family == 2 {
        match pairwise_mnemonic(op) {
            Some(m) => Some((Code::SvePairZpzz, m, binary)),
            None => None,
        }
    } else if family <= 1 {
        let q = field(word, 19, 1);
        let mid = field(word, 17, 2);
        if q == 0 && mid == 2 {
            match widen2_spec(size) {
                Some(p) => Some((
                    Code::SveAdalp,
                    if u == 0 { Mnemonic::Sadalp } else { Mnemonic::Uadalp },
                    seq![zreg_spec(zdn, p.0), merge, zreg_spec(zm, p.1)],
                )),
                None => None,
            }
        } else if q == 1 && mid == 0 {
            Some((
                Code::SveSatUnaryZpz,
                if u == 0 { Mnemonic::Sqabs } else { Mnemonic::Sqneg },
                seq![zreg_spec(zdn, a), merge, zreg_spec(zm, a)],
            ))
        } else if q == 0 && mid == 0 && size == 2 {
            Some((
                Code::SveRecipEst,
                if u == 0 { Mnemonic::Urecpe } else { Mnemonic::Ursqrte },
                seq![zreg_spec(zdn, a), merge, zreg_spec(zm, a)],
            ))
        } else {
            None
        }
    } else {
        None
    }
}

/// SVE2 predicated integer ops sharing top byte 0x44, `<15:14>=10`:
/// * `<15:13>=100` `_z_p_zz_`: `<20:19>` selects halving (`10`), saturating
///   add/sub (`11`), or saturating/rounding shift (`01`); `<18:16>` the variant.
///   Operands `<Zdn>.<T>, <Pg>/M, <Zdn>.<T>, <Zm>.<T>`.
/// * `<15:13>=101`: pairwise ADDP/{S,U}{MAX,MIN}P (`<20:19>=10`, `_z_p_zz_`),
///   {S,U}ADALP (`<20:16>=00010U`, `_z_p_z_`, source half-width), and
///   SQABS/SQNEG (`<20:16>=001000/001001`, `_z_p_z_`).
fn decode_44_pred(word: u32, out: &mut Instruction)
    requires
        old(out).is_blank(),
    ensures
        decode_post(*old(out), *final(out)),
        yields(*old(out), *final(out), pred44_form(word)),
{
    let size: u32 = bits(word, 22, 2);
    let a = arr(size);
    let pg: u32 = bits(word, 10, 3);
    // `_z_p_zz_`: Zm=<9:5>, Zdn=<4:0>; `_z_p_z_`: Zn=<9:5>, Zd=<4:0>.
    let zm: u32 = bits(word, 5, 5);
    let zdn: u32 = bits(word, 0, 5);
    let u: u32 = bit(word, 16);
    let family: u32 = bits(word, 19, 3);
    let op: u32 = bits(word, 16, 3);
    if bit(word, 13) == 0 {
        // `<15:13>=100`: predicated binary `_z_p_zz_`. `<21:19>` selects family:
        // `00X`=shift (`<19>=Q`,`<18>=R`,`<17>=N`,`<16>=U`), `010`=halving
        // (`<18>=R`,`<17>=S`,`<16>=U`), `011`=saturating (`<18>=op`,`<17>=S`,`<16>=U`).
        let (code, mnem) = if family == 2 {
            (Code::SveHalvingZpzz, halving_mn(op))
        } else if family == 3 {
            (Code::SveSatRoundZpzz, sat_addsub_mn(op))
        } else if family <= 1 {
            match shift_zpzz_mn(bit(word, 19), bit(word, 18), bit(word, 17), u) {
                Some(m) => (Code::SveSatRoundZpzz, m),
                None => return,
            }
        } else {
            return;
        };
        install4(out, code, mnem, zreg(zdn, a), preg_q(pg, PredQual::Merging), zreg(zdn, a), zreg(zm, a));
        return;
    }
    // `<15:13>=101`. `<21:19>` selects: `010`=pairwise, `00X`=ADALP / SQABS/SQNEG.
    if family == 2 {
        // Pairwise ADDP / {S,U}{MAX,MIN}P (`<21:19>=010`): `<18:16>=opc:U`.
        let Some(mnem) = pairwise_mn(op) else { return };
        install4(out, Code::SvePairZpzz, mnem, zreg(zdn, a), preg_q(pg, PredQual::Merging), zreg(zdn, a), zreg(zm, a));
    } else if family <= 1 {
        // SADALP/UADALP (`<20:16>=00100/00101`, i.e. `<18:16>=10U`), SQABS/
        // SQNEG (`<20:16>=01000/01001`, i.e. `<19>=1`,`<18:16>=00opc`) and
        // URECPE/URSQRTE (`<20:16>=0000U`, `.s` only).
        let q: u32 = bit(word, 19);
        let mid: u32 = bits(word, 17, 2);
        if q == 0 && mid == 0b10 {
            // SADALP/UADALP: source elements half-width (2x widening accum).
            let Some((da, sa)) = widen2(size) else { return };
            let m = if u == 0 { Mnemonic::Sadalp } else { Mnemonic::Uadalp };
            install3(out, Code::SveAdalp, m, zreg(zdn, da), preg_q(pg, PredQual::Merging), zreg(zm, sa));
        } else if q == 1 && mid == 0 {
            let m = if u == 0 { Mnemonic::Sqabs } else { Mnemonic::Sqneg };
            install3(out, Code::SveSatUnaryZpz, m, zreg(zdn, a), preg_q(pg, PredQual::Merging), zreg(zm, a));
        } else if q == 0 && mid == 0 && size == 2 {
            let m = if u == 0 { Mnemonic::Urecpe } else { Mnemonic::Ursqrte };
            install3(out, Code::SveRecipEst, m, zreg(zdn, a), preg_q(pg, PredQual::Merging), zreg(zm, a));
        }
    }
}

fn halving_mn(op: u32) -> (m: Mnemonic)
    ensures
        m == halving_mnemonic(op),
{
    match op {
        0 => Mnemonic::Shadd,
        1 => Mnemonic::Uhadd,
        2 => Mnemonic::Shsub,
        3 => Mnemonic::Uhsub,
        4 => Mnemonic::Srhadd,
        5 => Mnemonic::Urhadd,
        6 => Mnemonic::Shsubr,
        _ => Mnemonic::Uhsubr,
    }
}

fn sat_addsub_mn(op: u32) -> (m: Mnemonic)
    ensures
        m == sat_addsub_mnemonic(op),
{
    match op {
        0 => Mnemonic::Sqadd,
        1 => Mnemonic::Uqadd,
        2 => Mnemonic::Sqsub,
        3 => Mnemonic::Uqsub,
        4 => Mnemonic::Suqadd,
        5 => Mnemonic::Usqadd,
        6 => Mnemonic::Sqsubr,
        _ => Mnemonic::Uqsubr,
    }
}

fn shift_zpzz_mn(q: u32, r: u32, n: u32, u: u32) -> (m: Option<Mnemonic>)
    ensures
        m == shift_zpzz_mnemonic(q, r, n, u),
{
    if q == 0 {
        // Non-saturating rounding shifts: SRSHL/URSHL (N=1) and their reversed
        // forms (R=1).
        if n == 0 {
            None
        } else if r == 0 {
            Some(if u == 0 { Mnemonic::Srshl } else { Mnemonic::Urshl })
        } else {
            Some(if u == 0 { Mnemonic::Srshlr } else { Mnemonic::Urshlr })
        }
    } else if r == 0 {
        // Saturating shifts: N=0 -> SQSHL/UQSHL, N=1 -> SQRSHL/UQRSHL.
        if n == 0 {
            Some(if u == 0 { Mnemonic::Sqshl } else { Mnemonic::Uqshl })
        } else {
            Some(if u == 0 { Mnemonic::Sqrshl } else { Mnemonic::Uqrshl })
        }
    } else if n == 0 {
        Some(if u == 0 { Mnemonic::Sqshlr } else { Mnemonic::Uqshlr })
    } else {
        Some(if u == 0 { Mnemonic::Sqrshlr } else { Mnemonic::Uqrshlr })
    }
}

fn pairwise_mn(op: u32) -> (m: Option<Mnemonic>)
    ensures
        m == pairwise_mnemonic(op),
{
    match op {
        1 => Some(Mnemonic::Addp),
        4 => Some(Mnemonic::Smaxp),
        5 => Some(Mnemonic::Umaxp),
        6 => Some(Mnemonic::Sminp),
        7 => Some(Mnemonic::Uminp),
        _ => None,
    }
}

/// The (index, `Zm`) of a widening by-element operand: `size == 2`
/// (`.s <- .h`) index `<20:19>:<11>`, `Zm<18:16>`; `size == 3` (`.d <- .s`)
/// index `<20>:<11>`, `Zm<19:16>`.
pub open spec fn long_idx(word: u32, size: u32) -> (u32, u32) {
    if size == 2 {
        ((field(word, 19, 2) * 2 + field(word, 11, 1)) as u32, field(word, 16, 3))
    } else {
        ((field(word, 20, 1) * 2 + field(word, 11, 1)) as u32, field(word, 16, 4))
    }
}

fn long_idx_of(word: u32, size: u32) -> (r: (u32, u32))
    ensures
        r == long_idx(word, size),
{
    if size == 2 {
        (bits(word, 19, 2) * 2 + bit(word, 11), bits(word, 16, 3))
    } else {
        (bit(word, 20) * 2 + bit(word, 11), bits(word, 16, 4))
    }
}

/// `Zd.<wide>, Zn.<narrow>, Zm.<narrow>[idx]` of a widening by-element form,
/// or `None` below `size == 2`.
pub open spec fn long_idx_ops(word: u32, zd: u32, zn: u32) -> Option<Seq<Operand>> {
    let size = field(word, 22, 2);
    match widen2_spec(size) {
        Some(p) => if size < 2 {
            None
        } else {
            let li = long_idx(word, size);
            Some(seq![zreg_spec(zd, p.0), zreg_spec(zn, p.1), zreg_idx_spec(li.1, p.1, li.0 as u8)])
        },
        None => None,
    }
}

/// The 4x-widening by-element dot operands: `Zda.S, Zn.B, Zm.B[<20:19>]`
/// (`<22>=0`, `Zm<18:16>`) or `Zda.D, Zn.H, Zm.H[<20>]` (`Zm<19:16>`).
pub open spec fn dot_idx_ops(word: u32, zda: u32, zn: u32) -> Seq<Operand> {
    if field(word, 22, 1) == 0 {
        seq![zreg_spec(zda, VA::Ss), zreg_spec(zn, VA::Sb), zreg_idx_spec(field(word, 16, 3), VA::Sb, field(word, 19, 2) as u8)]
    } else {
        seq![zreg_spec(zda, VA::Sd), zreg_spec(zn, VA::Sh), zreg_idx_spec(field(word, 16, 4), VA::Sh, field(word, 20, 1) as u8)]
    }
}

/// The instruction a top-byte `0x44` indexed word (`<21>=1`) encodes, or
/// `None`.
pub open spec fn idx44_form(word: u32) -> Option<(Code, Mnemonic, Seq<Operand>)> {
    let zn = field(word, 5, 5);
    let zda = field(word, 0, 5);
    let op = field(word, 13, 3);
    let mid = field(word, 11, 2);
    let size = field(word, 22, 2);
    let b12 = field(word, 12, 1);
    let t = field(word, 10, 1);
    let rot = rot_imm_spec(field(word, 10, 2));
    if op == 0b000 {
        if mid == 0b00 {
            Some((
                if t == 0 { Code::SveSdotIdx } else { Code::SveUdotIdx },
                if t == 0 { Mnemonic::Sdot } else { Mnemonic::Udot },
                dot_idx_ops(word, zda, zn),
            ))
        } else if mid == 0b01 {
            Some((
                if t == 0 { Code::SveMlaIdx } else { Code::SveMlsIdx },
                if t == 0 { Mnemonic::Mla } else { Mnemonic::Mls },
                sve2_idx_same_ops(word, zda, zn),
            ))
        } else if mid == 0b10 {
            Some((
                if t == 0 { Code::SveSqrdmlahIdx } else { Code::SveSqrdmlshIdx },
                if t == 0 { Mnemonic::Sqrdmlah } else { Mnemonic::Sqrdmlsh },
                sve2_idx_same_ops(word, zda, zn),
            ))
        } else if size != 0b10 {
            None
        } else {
            Some((Code::SveDotMixed, pick(t, Mnemonic::Usdot, Mnemonic::Sudot), dot_idx_ops(word, zda, zn)))
        }
    } else if op == 0b001 {
        match long_idx_ops(word, zda, zn) {
            Some(ops) => Some((Code::SveSqdmlalLongIdx, sqdml_mnemonic(b12, t), ops)),
            None => None,
        }
    } else if op == 0b010 && b12 == 0 {
        if size < 2 {
            None
        } else {
            Some((Code::SveCdotIdx, Mnemonic::Cdot, dot_idx_ops(word, zda, zn).push(rot)))
        }
    } else if op == 0b011 {
        if size < 2 {
            None
        } else {
            let a = if size == 2 { VA::Sh } else { VA::Ss };
            let iz: (u32, u32) = if size == 2 { (field(word, 19, 2), field(word, 16, 3)) } else { (field(word, 20, 1), field(word, 16, 4)) };
            Some((
                if b12 == 0 { Code::SveCmlaIdx } else { Code::SveSqrdcmlahIdx },
                if b12 == 0 { Mnemonic::Cmla } else { Mnemonic::Sqrdcmlah },
                seq![zreg_spec(zda, a), zreg_spec(zn, a), zreg_idx_spec(iz.1, a, iz.0 as u8), rot],
            ))
        }
    } else if op == 0b100 || op == 0b101 {
        match long_idx_ops(word, zda, zn) {
            Some(ops) => Some((Code::SveMlaLongIdx, mlal_mnemonic(field(word, 13, 1), b12, t), ops)),
            None => None,
        }
    } else if op == 0b110 {
        match long_idx_ops(word, zda, zn) {
            Some(ops) => Some((
                Code::SveMulLongIdx,
                pick(b12, pick(t, Mnemonic::Smullb, Mnemonic::Smullt), pick(t, Mnemonic::Umullb, Mnemonic::Umullt)),
                ops,
            )),
            None => None,
        }
    } else if op != 0b111 {
        None
    } else if field(word, 11, 5) == 0b11110 {
        Some((
            if t == 0 { Code::SveSqdmulhIdx } else { Code::SveSqrdmulhIdx },
            if t == 0 { Mnemonic::Sqdmulh } else { Mnemonic::Sqrdmulh },
            sve2_idx_same_ops(word, zda, zn),
        ))
    } else if field(word, 10, 3) == 0b110 {
        Some((Code::SveMulIdx, Mnemonic::Mul, sve2_idx_same_ops(word, zda, zn)))
    } else if field(word, 12, 4) == 0b1110 {
        match long_idx_ops(word, zda, zn) {
            Some(ops) => Some((Code::SveSqdmulLongIdx, pick(t, Mnemonic::Sqdmullb, Mnemonic::Sqdmullt), ops)),
            None => None,
        }
    } else {
        None
    }
}

/// The 4x-widening by-element dot operands of [`dot_idx_ops`].
fn dot_idx_operands(word: u32, zda: u32, zn: u32) -> (r: (Operand, Operand, Operand))
    ensures
        seq![r.0, r.1, r.2] == dot_idx_ops(word, zda, zn),
{
    if bit(word, 22) == 0 {
        (zreg(zda, VA::Ss), zreg(zn, VA::Sb), zreg_idx(bits(word, 16, 3), VA::Sb, bits(word, 19, 2) as u8))
    } else {
        (zreg(zda, VA::Sd), zreg(zn, VA::Sh), zreg_idx(bits(word, 16, 4), VA::Sh, bit(word, 20) as u8))
    }
}

/// The same-size by-element operands of [`sve2_idx_same_ops`].
fn idx_same_operands(word: u32, zd: u32, zn: u32) -> (r: (Operand, Operand, Operand))
    ensures
        seq![r.0, r.1, r.2] == sve2_idx_same_ops(word, zd, zn),
{
    // Element size: `<23>=0` -> `.h` (size field `<23:22>` is `0x`, the `<22>` bit
    // is the top index bit); `<23:22>=10` -> `.s`; `<23:22>=11` -> `.d`.
    let (a, idx, zm): (VA, u32, u32) = if bit(word, 23) == 0 {
        // .h: idx = i3h:i3l = <22>:<20:19> (3 bits), Zm = <18:16> (3-bit).
        (VA::Sh, bit(word, 22) * 4 + bits(word, 19, 2), bits(word, 16, 3))
    } else if bit(word, 22) == 0 {
        // .s: idx = i2 = <20:19> (2 bits), Zm = <18:16> (3-bit).
        (VA::Ss, bits(word, 19, 2), bits(word, 16, 3))
    } else {
        // .d: idx = i1 = <20> (1 bit), Zm = <19:16> (4-bit).
        (VA::Sd, bit(word, 20), bits(word, 16, 4))
    };
    (zreg(zd, a), zreg(zn, a), zreg_idx(zm, a, idx as u8))
}

/// The widening by-element operands of [`long_idx_ops`].
fn long_idx_operands(word: u32, zd: u32, zn: u32) -> (r: Option<(Operand, Operand, Operand)>)
    ensures
        match r {
            Some(o) => long_idx_ops(word, zd, zn) == Some(seq![o.0, o.1, o.2]),
            None => long_idx_ops(word, zd, zn) is None,
        },
{
    let size: u32 = bits(word, 22, 2);
    let Some((da, sa)) = widen2(size) else { return None };
    // Only .s (size 10) and .d (size 11) have indexed long forms.
    if size < 2 {
        return None;
    }
    let (idx, zm) = long_idx_of(word, size);
    Some((zreg(zd, da), zreg(zn, sa), zreg_idx(zm, sa, idx as u8)))
}

/// SVE2 0x44 indexed (by-element) forms (`<21>=1`): SDOT/UDOT, USDOT/SUDOT,
/// MUL/MLA/MLS, SQDMULH/SQRDMULH, CDOT/CMLA/SQRDCMLAH, the {S,U}ML{A,S}L{B,T}
/// and {S,U}MULL{B,T} long families, SQDML{A,S}L{B,T}, SQDMULL{B,T}, and
/// SQRDML{A,S}H.
fn decode_44_indexed(word: u32, out: &mut Instruction)
    requires
        old(out).is_blank(),
    ensures
        decode_post(*old(out), *final(out)),
        yields(*old(out), *final(out), idx44_form(word)),
{
    let zn: u32 = bits(word, 5, 5);
    let zda: u32 = bits(word, 0, 5);
    let op: u32 = bits(word, 13, 3);
    let mid: u32 = bits(word, 11, 2);
    let size: u32 = bits(word, 22, 2);
    let b12: u32 = bit(word, 12);
    let t: u32 = bit(word, 10);
    if op == 0b000 {
        if mid == 0b00 {
            // SDOT/UDOT idx (`<15:11>=00000`): U=<10>. size==2 -> .s/.b,
            // size==3 -> .d/.h.
            let (a, b, c) = dot_idx_operands(word, zda, zn);
            let (code, m) = if t == 0 { (Code::SveSdotIdx, Mnemonic::Sdot) } else { (Code::SveUdotIdx, Mnemonic::Udot) };
            install3(out, code, m, a, b, c);
        } else if mid == 0b01 {
            // MLA (S=0) / MLS (S=1) idx (`<15:11>=00001`): same-size by element.
            let (a, b, c) = idx_same_operands(word, zda, zn);
            let (code, m) = if t == 0 { (Code::SveMlaIdx, Mnemonic::Mla) } else { (Code::SveMlsIdx, Mnemonic::Mls) };
            install3(out, code, m, a, b, c);
        } else if mid == 0b10 {
            // SQRDMLAH/SH idx (`<15:11>=00010`).
            decode_44_sqrdml_idx(word, out);
        } else {
            // USDOT (U=0) / SUDOT (U=1) idx (`<15:11>=00011`): `<Zda>.S,
            // <Zn>.B, <Zm>.B[idx]`. size==2 only; i2=<20:19>, Zm=<18:16>.
            if size != 0b10 {
                return;
            }
            let (a, b, c) = dot_idx_operands(word, zda, zn);
            install3(out, Code::SveDotMixed, pick_mn(t, Mnemonic::Usdot, Mnemonic::Sudot), a, b, c);
        }
    } else if op == 0b001 {
        // `<15:13>=001`: SQDML{A,S}L{B,T} idx long (`<15:12>=0010`/`0011`).
        decode_44_idx_sqdmlal(word, out);
    } else if op == 0b010 && b12 == 0 {
        // `<15:13>=010`: CDOT idx (`<15:12>=0100`).
        decode_44_idx_cdot(word, out);
    } else if op == 0b011 {
        // `<15:13>=011`: CMLA idx (`<15:12>=0110`) / SQRDCMLAH idx (`<15:12>=0111`).
        decode_44_idx_cmla(word, out);
    } else if op == 0b100 || op == 0b101 {
        // `<15:14>=10`: {S,U}ML{A,S}L{B,T} idx long. S=<13>,U=<12>,i.l=<11>,T=<10>.
        decode_44_idx_mlal(word, out);
    } else if op == 0b110 {
        // `<15:13>=110`: {S,U}MULL{B,T} idx long. U=<12>,i.l=<11>,T=<10>.
        decode_44_idx_mull(word, out);
    } else if op == 0b111 {
        // `<15:13>=111`: MUL idx, SQDMULH/SQRDMULH idx, SQDMULL{B,T} idx long.
        decode_44_idx_mul(word, out);
    }
}

/// {S,U}MULL{B,T} indexed long (`<21>=1`, `<15:13>=110`). U=<12> (0=signed,
/// 1=unsigned), T=<10>. size==2 -> .s<-.h (i3h=<20:19>,Zm=<18:16>,i3l=<11>);
/// size==3 -> .d<-.s (i2h=<20>,Zm=<19:16>,i2l=<11>).
fn decode_44_idx_mull(word: u32, out: &mut Instruction)
    requires
        old(out).is_blank(),
        field(word, 13, 3) == 0b110,
    ensures
        decode_post(*old(out), *final(out)),
        yields(*old(out), *final(out), idx44_form(word)),
{
    let zn: u32 = bits(word, 5, 5);
    let zd: u32 = bits(word, 0, 5);
    let Some((a, b, c)) = long_idx_operands(word, zd, zn) else { return };
    let t: u32 = bit(word, 10);
    let mnem = pick_mn(bit(word, 12), pick_mn(t, Mnemonic::Smullb, Mnemonic::Smullt), pick_mn(t, Mnemonic::Umullb, Mnemonic::Umullt));
    install3(out, Code::SveMulLongIdx, mnem, a, b, c);
}

/// CDOT indexed (`<21>=1`, `<15:12>=0100`): 4x-widening complex dot, rot=<11:10>.
/// size==2 -> .s<-.b (i2=<20:19>,Zm=<18:16>); size==3 -> .d<-.h (i1=<20>,
/// Zm=<19:16>).
fn decode_44_idx_cdot(word: u32, out: &mut Instruction)
    requires
        old(out).is_blank(),
        field(word, 13, 3) == 0b010,
        field(word, 12, 1) == 0,
    ensures
        decode_post(*old(out), *final(out)),
        yields(*old(out), *final(out), idx44_form(word)),
{
    if bits(word, 22, 2) < 2 {
        return;
    }
    let (a, b, c) = dot_idx_operands(word, bits(word, 0, 5), bits(word, 5, 5));
    install4(out, Code::SveCdotIdx, Mnemonic::Cdot, a, b, c, rot_imm(bits(word, 10, 2)));
}

/// SQDML{A,S}L{B,T} indexed long (`<21>=1`, `<15:13>=001`). size==2 -> .s<-.h
/// (i3h=<20:19>,Zm=<18:16>,i3l=<11>); size==3 -> .d<-.s (i2h=<20>,Zm=<19:16>,
/// i2l=<11>). S=<12> (0=ADD,1=SUB), T=<10>.
fn decode_44_idx_sqdmlal(word: u32, out: &mut Instruction)
    requires
        old(out).is_blank(),
        field(word, 13, 3) == 0b001,
    ensures
        decode_post(*old(out), *final(out)),
        yields(*old(out), *final(out), idx44_form(word)),
{
    let Some((a, b, c)) = long_idx_operands(word, bits(word, 0, 5), bits(word, 5, 5)) else { return };
    install3(out, Code::SveSqdmlalLongIdx, sqdml_mn(bit(word, 12), bit(word, 10)), a, b, c);
}

/// CMLA / SQRDCMLAH indexed (`<21>=1`, `<15:12>=0110`/`0111`): same-size complex
/// MAC, rot=<11:10>. size==2 -> .h (i2=<20:19>,Zm=<18:16>); size==3 -> .s
/// (i1=<20>,Zm=<19:16>).
fn decode_44_idx_cmla(word: u32, out: &mut Instruction)
    requires
        old(out).is_blank(),
        field(word, 13, 3) == 0b011,
    ensures
        decode_post(*old(out), *final(out)),
        yields(*old(out), *final(out), idx44_form(word)),
{
    let size: u32 = bits(word, 22, 2);
    if size < 2 {
        return;
    }
    let zn: u32 = bits(word, 5, 5);
    let zda: u32 = bits(word, 0, 5);
    // 0 -> CMLA (`0110`), 1 -> SQRDCMLAH (`0111`).
    let (code, m) = if bit(word, 12) == 0 { (Code::SveCmlaIdx, Mnemonic::Cmla) } else { (Code::SveSqrdcmlahIdx, Mnemonic::Sqrdcmlah) };
    let a = if size == 2 { VA::Sh } else { VA::Ss };
    let (idx, zm): (u32, u32) = if size == 2 { (bits(word, 19, 2), bits(word, 16, 3)) } else { (bit(word, 20), bits(word, 16, 4)) };
    install4(out, code, m, zreg(zda, a), zreg(zn, a), zreg_idx(zm, a, idx as u8), rot_imm(bits(word, 10, 2)));
}

/// {S,U}ML{A,S}L{B,T} indexed long (`<21>=1`, `<15:14>=10`). S=<13> (0=MLAL,
/// 1=MLSL), U=<12> (0=signed,1=unsigned), T=<10>. size==2 -> .s<-.h
/// (i3h=<20:19>,Zm=<18:16>,i3l=<11>); size==3 -> .d<-.s (i2h=<20>,Zm=<19:16>,
/// i2l=<11>).
fn decode_44_idx_mlal(word: u32, out: &mut Instruction)
    requires
        old(out).is_blank(),
        field(word, 13, 3) == 0b100 || field(word, 13, 3) == 0b101,
    ensures
        decode_post(*old(out), *final(out)),
        yields(*old(out), *final(out), idx44_form(word)),
{
    let Some((a, b, c)) = long_idx_operands(word, bits(word, 0, 5), bits(word, 5, 5)) else { return };
    install3(out, Code::SveMlaLongIdx, mlal_mn(bit(word, 13), bit(word, 12), bit(word, 10)), a, b, c);
}

/// MUL, SQDMULH/SQRDMULH and SQDMULL{B,T} indexed (`<21>=1`, `<15:13>=111`):
/// * `<15:10>=111100` / `111101` (`<15:11>=11110`) → SQDMULH / SQRDMULH idx
/// * `<15:10>=111110` → MUL idx
/// * `<15:12>=1110` (`<15:11>=11100/11101`) → SQDMULL{B,T} idx long, T=<10>.
fn decode_44_idx_mul(word: u32, out: &mut Instruction)
    requires
        old(out).is_blank(),
        field(word, 13, 3) == 0b111,
    ensures
        decode_post(*old(out), *final(out)),
        yields(*old(out), *final(out), idx44_form(word)),
{
    let zn: u32 = bits(word, 5, 5);
    let zd: u32 = bits(word, 0, 5);
    let t: u32 = bit(word, 10);
    if bits(word, 11, 5) == 0b11110 {
        // SQDMULH (R=0) / SQRDMULH (R=1): same-size by element.
        let (a, b, c) = idx_same_operands(word, zd, zn);
        let (code, m) = if t == 0 { (Code::SveSqdmulhIdx, Mnemonic::Sqdmulh) } else { (Code::SveSqrdmulhIdx, Mnemonic::Sqrdmulh) };
        install3(out, code, m, a, b, c);
    } else if bits(word, 10, 3) == 0b110 {
        // MUL idx (`<15:10>=111110`): same-size by element.
        let (a, b, c) = idx_same_operands(word, zd, zn);
        install3(out, Code::SveMulIdx, Mnemonic::Mul, a, b, c);
    } else if bits(word, 12, 4) == 0b1110 {
        // SQDMULL{B,T} idx long (`<15:12>=1110`): T=<10>. size==2 -> .s<-.h,
        // size==3 -> .d<-.s. (`<11>` is i3l/i2l part of the index.)
        let Some((a, b, c)) = long_idx_operands(word, zd, zn) else { return };
        install3(out, Code::SveSqdmulLongIdx, pick_mn(t, Mnemonic::Sqdmullb, Mnemonic::Sqdmullt), a, b, c);
    }
}


/// The same-size by-element operands `<Zd>.<T>, <Zn>.<T>, <Zm>.<T>[idx]`:
/// `.h` (`<23>=0`, index `<22>:<20:19>`, `Zm<18:16>`), `.s` (`<23:22>=10`,
/// index `<20:19>`, `Zm<18:16>`), `.d` (index `<20>`, `Zm<19:16>`).
pub open spec fn sve2_idx_same_ops(word: u32, zd: u32, zn: u32) -> Seq<Operand> {
    let (a, idx, zm) = if field(word, 23, 1) == 0 {
        (VA::Sh, (field(word, 22, 1) * 4 + field(word, 19, 2)) as u32, field(word, 16, 3))
    } else if field(word, 22, 1) == 0 {
        (VA::Ss, field(word, 19, 2), field(word, 16, 3))
    } else {
        (VA::Sd, field(word, 20, 1), field(word, 16, 4))
    };
    seq![zreg_spec(zd, a), zreg_spec(zn, a), zreg_idx_spec(zm, a, idx as u8)]
}

/// SQRDMLAH/SQRDMLSH (SVE2), vector form: `<op> <Zda>.<T>, <Zn>.<T>, <Zm>.<T>`.
/// All three operands share the `size` arrangement (.b/.h/.s/.d); `S=word<10>`
/// selects SQRDMLSH (1) over SQRDMLAH (0).
fn decode_44_sqrdml_vec(word: u32, out: &mut Instruction)
    requires
        old(out).is_blank(),
    ensures
        decode_post(*old(out), *final(out)),
        ({
            let a = arr_spec(field(word, 22, 2));
            let b10 = field(word, 10, 1);
            installed(
                *old(out),
                *final(out),
                if b10 == 0 { Code::SveSqrdmlah } else { Code::SveSqrdmlsh },
                if b10 == 0 { Mnemonic::Sqrdmlah } else { Mnemonic::Sqrdmlsh },
                zzz(field(word, 0, 5), a, field(word, 5, 5), field(word, 16, 5), a),
            )
        }),
{
    let s: u32 = bit(word, 10);
    let a = arr(bits(word, 22, 2));
    let zm: u32 = bits(word, 16, 5);
    let zn: u32 = bits(word, 5, 5);
    let zda: u32 = bits(word, 0, 5);
    if s == 0 {
        out.set(Code::SveSqrdmlah);
        out.set_mnemonic(Mnemonic::Sqrdmlah);
    } else {
        out.set(Code::SveSqrdmlsh);
        out.set_mnemonic(Mnemonic::Sqrdmlsh);
    }
    out.push_operand(zreg(zda, a));
    out.push_operand(zreg(zn, a));
    out.push_operand(zreg(zm, a));
}

/// SQRDMLAH/SQRDMLSH (SVE2), indexed form: `<op> <Zda>.<T>, <Zn>.<T>,
/// <Zm>.<T>[idx]`. The element size and index/`Zm` field widths follow the SVE
/// by-element layout: `.h` (word<23>==0, idx=i3h:i3l, 3-bit Zm), `.s`
/// (word<23:22>==10, idx=i2, 3-bit Zm), `.d` (word<23:22>==11, idx=i1, 4-bit
/// Zm). `S=word<10>` selects SQRDMLSH over SQRDMLAH.
fn decode_44_sqrdml_idx(word: u32, out: &mut Instruction)
    requires
        old(out).is_blank(),
        field(word, 13, 3) == 0b000,
        field(word, 11, 2) == 0b10,
    ensures
        decode_post(*old(out), *final(out)),
        yields(*old(out), *final(out), idx44_form(word)),
{
    let (a, b, c) = idx_same_operands(word, bits(word, 0, 5), bits(word, 5, 5));
    let (code, m) = if bit(word, 10) == 0 {
        (Code::SveSqrdmlahIdx, Mnemonic::Sqrdmlah)
    } else {
        (Code::SveSqrdmlshIdx, Mnemonic::Sqrdmlsh)
    };
    install3(out, code, m, a, b, c);
}

/// The instruction a top-byte `0x45` word encodes, or `None`: RAX1, then the
/// shift, add/subtract, miscellaneous and multiply-long families in turn.
pub open spec fn top45_form(word: u32) -> Option<(Code, Mnemonic, Seq<Operand>)> {
    let zm = field(word, 16, 5);
    let zn = field(word, 5, 5);
    let zd = field(word, 0, 5);
    let size = field(word, 22, 2);
    let op = field(word, 10, 4);
    if field(word, 11, 5) == 0b11110 && field(word, 10, 1) == 1 && field(word, 21, 3) == 0b001 {
        Some((Code::SveRax1, Mnemonic::Rax1, zzz(zd, VA::Sd, zn, zm, VA::Sd)))
    } else if shift45_form(word) is Some {
        shift45_form(word)
    } else if addsub45_form(word) is Some {
        addsub45_form(word)
    } else if misc45_form(word) is Some {
        misc45_form(word)
    } else if field(word, 13, 3) != 0b011 || field(word, 21, 1) != 0 || op < 8 {
        None
    } else {
        // SQDMULL{B,T} (`10x`), PMULL{B,T} (`101x`), SMULL{B,T} / UMULL{B,T}.
        let code = if op < 10 {
            Code::SveSqdmulLong
        } else if op < 12 {
            Code::SvePmulLong
        } else {
            Code::SveMulLong
        };
        let t = field(word, 10, 1);
        let m = if op < 10 {
            pick(t, Mnemonic::Sqdmullb, Mnemonic::Sqdmullt)
        } else if op < 12 {
            pick(t, Mnemonic::Pmullb, Mnemonic::Pmullt)
        } else if op < 14 {
            pick(t, Mnemonic::Smullb, Mnemonic::Smullt)
        } else {
            pick(t, Mnemonic::Umullb, Mnemonic::Umullt)
        };
        if size == 0 && op >= 10 && op < 12 {
            Some((code, m, zzz(zd, VA::Sq, zn, zm, VA::Sd)))
        } else {
            match widen2_spec(size) {
                Some(p) => Some((code, m, zzz(zd, p.0, zn, zm, p.1))),
                None => None,
            }
        }
    }
}

/// SVE2 integer multiply-long / multiply-add-long / multiply-subtract-long
/// (`_z_zz_`/`_z_zzz_`, top byte 0x45). The family lives in word<13:10> =
/// op:S:U:T (B/T = bottom/top). Source elements widen 2x: size 01->.b->.h,
/// 10->.h->.s, 11->.s->.d.
fn decode_45(word: u32, out: &mut Instruction)
    requires
        old(out).is_blank(),
    ensures
        decode_post(*old(out), *final(out)),
        yields(*old(out), *final(out), top45_form(word)),
{
    let zm: u32 = bits(word, 16, 5);
    let zn: u32 = bits(word, 5, 5);
    let zd: u32 = bits(word, 0, 5);
    // RAX1 (`<15:11>=11110`, `<10>=1`, `<23:22>=00`, `<21>=1`): `RAX1 <Zd>.D,
    // <Zn>.D, <Zm>.D`.
    if bits(word, 11, 5) == 0b11110 && bit(word, 10) == 1 && bits(word, 21, 3) == 0b001 {
        install3(out, Code::SveRax1, Mnemonic::Rax1, zreg(zd, VA::Sd), zreg(zn, VA::Sd), zreg(zm, VA::Sd));
        return;
    }
    // SVE2 bit-shift accumulate / insert / shift-long-immediate and the
    // narrowing-shift / saturating-extract-narrow forms also live in 0x45.
    decode_45_shift(word, out);
    if !out.is_invalid() {
        return;
    }
    // SVE2 integer add/subtract long/wide, high-narrowing, ABAL, ADC/SBC long and
    // the bottom-top long forms all live in 0x45 alongside the multiply-long
    // block. Try that family next; it declines (leaves Invalid) for the
    // multiply-long opcodes, which fall through below.
    decode_45_addsub(word, out);
    if !out.is_invalid() {
        return;
    }
    // SVE2 bit-permute / interleaving-EOR / histogram / SM4 / integer matmul.
    decode_45_misc(word, out);
    if !out.is_invalid() {
        return;
    }
    // SVE2 multiply-long (`_z_zz_`): `word<15:13>==011` and `word<21>==0`. The
    // narrowing add/sub-high ops sharing `<15:13>=011` have `<21>==1` (handled by
    // `decode_45_addsub` above). `<13:10>`: 1000/1001 = SQDMULLB/T,
    // 1010/1011 = PMULLB/T, 1100/1101 = SMULLB/T, 1110/1111 = UMULLB/T.
    let op: u32 = bits(word, 10, 4);
    if bits(word, 13, 3) != 0b011 || bit(word, 21) != 0 || op < 8 {
        return;
    }
    let size: u32 = bits(word, 22, 2);
    let t: u32 = bit(word, 10);
    let (code, mnem) = if op < 10 {
        (Code::SveSqdmulLong, pick_mn(t, Mnemonic::Sqdmullb, Mnemonic::Sqdmullt))
    } else if op < 12 {
        (Code::SvePmulLong, pick_mn(t, Mnemonic::Pmullb, Mnemonic::Pmullt))
    } else if op < 14 {
        (Code::SveMulLong, pick_mn(t, Mnemonic::Smullb, Mnemonic::Smullt))
    } else {
        (Code::SveMulLong, pick_mn(t, Mnemonic::Umullb, Mnemonic::Umullt))
    };
    // Source elements widen 2x. The integer MULL forms allow size 01/10/11
    // (.h<-.b / .s<-.h / .d<-.s). PMULL additionally has the `.q<-.d` crypto
    // form at size==00 (and uses the same widening table otherwise).
    let (da, sa) = if size == 0 && op >= 10 && op < 12 {
        (VA::Sq, VA::Sd)
    } else {
        match widen2(size) {
            Some(p) => p,
            None => return,
        }
    };
    install3(out, code, mnem, zreg(zd, da), zreg(zn, sa), zreg(zm, sa));
}

/// The instruction a top-byte `0x45` bit-permute / interleaving-EOR /
/// histogram / SM4 / AES / integer-matmul / MATCH word encodes, or `None`.
pub open spec fn misc45_form(word: u32) -> Option<(Code, Mnemonic, Seq<Operand>)> {
    let size = field(word, 22, 2);
    let a = arr_spec(size);
    let zm = field(word, 16, 5);
    let zn = field(word, 5, 5);
    let zd = field(word, 0, 5);
    let b10 = field(word, 10, 1);
    let f1511 = field(word, 11, 5);
    let f1510 = field(word, 10, 6);
    let f2116 = field(word, 16, 6);
    if field(word, 21, 1) == 0 {
        if f1511 == 0b10010 {
            Some((Code::SveEorInterleave, pick(b10, Mnemonic::Eorbt, Mnemonic::Eortb), zzz(zd, a, zn, zm, a)))
        } else if field(word, 12, 4) == 0b1011 {
            let opc = field(word, 10, 2);
            if opc == 3 {
                None
            } else {
                Some((
                    Code::SveBitPerm,
                    if opc == 0 { Mnemonic::Bext } else if opc == 1 { Mnemonic::Bdep } else { Mnemonic::Bgrp },
                    zzz(zd, a, zn, zm, a),
                ))
            }
        } else if f1510 == 0b100110 {
            if size == 1 {
                None
            } else {
                Some((
                    Code::SveMatmulInt,
                    if size == 0 { Mnemonic::Smmla } else if size == 2 { Mnemonic::Usmmla } else { Mnemonic::Ummla },
                    zzz(zd, VA::Ss, zn, zm, VA::Sb),
                ))
            }
        } else if f1511 == 0b11111 {
            Some((Code::SveAbaSame, pick(b10, Mnemonic::Saba, Mnemonic::Uaba), zzz(zd, a, zn, zm, a)))
        } else {
            None
        }
    } else if field(word, 13, 3) == 0b100 {
        if size >= 2 {
            None
        } else {
            Some((
                Code::SveMatch,
                pick(field(word, 4, 1), Mnemonic::Match, Mnemonic::Nmatch),
                seq![
                    preg_sz_spec(field(word, 0, 4), a),
                    preg_q_spec(field(word, 10, 3), PredQual::Zeroing),
                    zreg_spec(zn, a),
                    zreg_spec(zm, a),
                ],
            ))
        }
    } else if f2116 == 0b100000 && f1511 == 0b11100 && zn == 0 && size == 0 {
        Some((Code::SveAesMc, pick(b10, Mnemonic::Aesmc, Mnemonic::Aesimc), seq![zreg_spec(zd, VA::Sb), zreg_spec(zd, VA::Sb)]))
    } else if f2116 == 0b100010 && f1511 == 0b11100 && size == 0 {
        Some((Code::SveAesZz, pick(b10, Mnemonic::Aese, Mnemonic::Aesd), zzz(zd, VA::Sb, zd, zn, VA::Sb)))
    } else if field(word, 13, 3) == 0b110 {
        if size < 2 {
            None
        } else {
            Some((
                Code::SveHistcnt,
                Mnemonic::Histcnt,
                seq![zreg_spec(zd, a), preg_q_spec(field(word, 10, 3), PredQual::Zeroing), zreg_spec(zn, a), zreg_spec(zm, a)],
            ))
        }
    } else if f1510 == 0b101000 {
        Some((Code::SveHistseg, Mnemonic::Histseg, zzz(zd, VA::Sb, zn, zm, VA::Sb)))
    } else if f1511 == 0b11110 && b10 == 0 && size == 0 {
        Some((Code::SveSm4ekey, Mnemonic::Sm4ekey, zzz(zd, VA::Ss, zn, zm, VA::Ss)))
    } else if f2116 == 0b100011 && f1510 == 0b111000 && size == 0 {
        Some((Code::SveSm4e, Mnemonic::Sm4e, zzz(zd, VA::Ss, zd, zn, VA::Ss)))
    } else {
        None
    }
}

/// SVE2 bit-permute (BEXT/BDEP/BGRP), interleaving-EOR (EORBT/EORTB), histogram
/// (HISTCNT/HISTSEG), SM4 (SM4E/SM4EKEY) and integer matmul (SMMLA/UMMLA/USMMLA)
/// — all top byte 0x45. Leaves `out` invalid for other encodings.
fn decode_45_misc(word: u32, out: &mut Instruction)
    requires
        old(out).is_blank(),
    ensures
        decode_post(*old(out), *final(out)),
        yields(*old(out), *final(out), misc45_form(word)),
{
    let size: u32 = bits(word, 22, 2);
    let a = arr(size);
    let zm: u32 = bits(word, 16, 5);
    let zn: u32 = bits(word, 5, 5);
    let zd: u32 = bits(word, 0, 5);
    let b10: u32 = bit(word, 10);
    let f1511: u32 = bits(word, 11, 5);
    let f1510: u32 = bits(word, 10, 6);
    let f2116: u32 = bits(word, 16, 6);
    if bit(word, 21) == 0 {
        if f1511 == 0b10010 {
            // EORBT/EORTB (`<15:11>=10010`, `<10>=tb`): same-size interleaving XOR.
            install3(out, Code::SveEorInterleave, pick_mn(b10, Mnemonic::Eorbt, Mnemonic::Eortb), zreg(zd, a), zreg(zn, a), zreg(zm, a));
        } else if bits(word, 12, 4) == 0b1011 {
            // BEXT/BDEP/BGRP (`<15:12>=1011`, `<11:10>=opc`): same-size bit-permute.
            let mnem = match bits(word, 10, 2) {
                0b00 => Mnemonic::Bext,
                0b01 => Mnemonic::Bdep,
                0b10 => Mnemonic::Bgrp,
                _ => return,
            };
            install3(out, Code::SveBitPerm, mnem, zreg(zd, a), zreg(zn, a), zreg(zm, a));
        } else if f1510 == 0b100110 {
            // {S,U,US}MMLA (`<15:10>=100110`): `<Zda>.S, <Zn>.B, <Zm>.B`. `uns=<23:22>`
            // selects SMMLA(00)/USMMLA(10)/UMMLA(11).
            let mnem = match size {
                0b00 => Mnemonic::Smmla,
                0b10 => Mnemonic::Usmmla,
                0b11 => Mnemonic::Ummla,
                _ => return,
            };
            install3(out, Code::SveMatmulInt, mnem, zreg(zd, VA::Ss), zreg(zn, VA::Sb), zreg(zm, VA::Sb));
        } else if f1511 == 0b11111 {
            // {S,U}ABA (`<15:11>=11111`, `<10>=U`): same-size abs-diff accumulate.
            install3(out, Code::SveAbaSame, pick_mn(b10, Mnemonic::Saba, Mnemonic::Uaba), zreg(zd, a), zreg(zn, a), zreg(zm, a));
        }
    } else if bits(word, 13, 3) == 0b100 {
        // MATCH/NMATCH (`<15:13>=100`): `<Pd>.<T>, <Pg>/Z, <Zn>.<T>, <Zm>.<T>`. `.b`/
        // `.h` only (size<2). `<4>=op` (0=MATCH,1=NMATCH), Pd=<3:0>.
        if size >= 2 {
            return;
        }
        let mnem = pick_mn(bit(word, 4), Mnemonic::Match, Mnemonic::Nmatch);
        install4(out, Code::SveMatch, mnem, preg_sz(bits(word, 0, 4), a), preg_q(bits(word, 10, 3), PredQual::Zeroing), zreg(zn, a), zreg(zm, a));
    } else if f2116 == 0b100000 && f1511 == 0b11100 && zn == 0 && size == 0 {
        // AESMC (`<10>=0`) / AESIMC (`<10>=1`): `<21:16>=100000`, `<15:11>=11100`,
        // `<9:5>=00000`. `<Zdn>.B, <Zdn>.B`.
        install2_as(out, Code::SveAesMc, pick_mn(b10, Mnemonic::Aesmc, Mnemonic::Aesimc), zreg(zd, VA::Sb), zreg(zd, VA::Sb));
    } else if f2116 == 0b100010 && f1511 == 0b11100 && size == 0 {
        // AESE (`<10>=0`) / AESD (`<10>=1`): `<21:16>=100010`, `<15:11>=11100`.
        // `<Zdn>.B, <Zdn>.B, <Zm>.B` (destructive: Zm=<9:5>).
        install3(out, Code::SveAesZz, pick_mn(b10, Mnemonic::Aese, Mnemonic::Aesd), zreg(zd, VA::Sb), zreg(zd, VA::Sb), zreg(zn, VA::Sb));
    } else if bits(word, 13, 3) == 0b110 {
        // HISTCNT (`<15:13>=110`): `<Zd>.<T>, <Pg>/Z, <Zn>.<T>, <Zm>.<T>` (.s/.d only).
        if size < 2 {
            return;
        }
        install4(out, Code::SveHistcnt, Mnemonic::Histcnt, zreg(zd, a), preg_q(bits(word, 10, 3), PredQual::Zeroing), zreg(zn, a), zreg(zm, a));
    } else if f1510 == 0b101000 {
        // HISTSEG (`<15:10>=101000`): `<Zd>.B, <Zn>.B, <Zm>.B`.
        install3(out, Code::SveHistseg, Mnemonic::Histseg, zreg(zd, VA::Sb), zreg(zn, VA::Sb), zreg(zm, VA::Sb));
    } else if f1511 == 0b11110 && b10 == 0 && size == 0 {
        // SM4EKEY (`<15:11>=11110`, `<10>=0`): `<Zd>.S, <Zn>.S, <Zm>.S`.
        install3(out, Code::SveSm4ekey, Mnemonic::Sm4ekey, zreg(zd, VA::Ss), zreg(zn, VA::Ss), zreg(zm, VA::Ss));
    } else if f2116 == 0b100011 && f1510 == 0b111000 && size == 0 {
        // SM4E (`<21:16>=100011`, `<15:10>=111000`): `<Zdn>.S, <Zdn>.S, <Zm>.S`.
        // Destructive: Zm=<9:5>, Zdn=<4:0>.
        install3(out, Code::SveSm4e, Mnemonic::Sm4e, zreg(zd, VA::Ss), zreg(zd, VA::Ss), zreg(zn, VA::Ss));
    }
}

/// The instruction a top-byte `0x45` shift word encodes, or `None`.
pub open spec fn shift45_form(word: u32) -> Option<(Code, Mnemonic, Seq<Operand>)> {
    let imm3 = field(word, 16, 3);
    let zn = field(word, 5, 5);
    let zd = field(word, 0, 5);
    let b11 = field(word, 11, 1);
    let t = field(word, 10, 1);
    if field(word, 21, 1) == 0 {
        let tsz = (field(word, 22, 2) * 4 + field(word, 19, 2)) as u32;
        let sel = field(word, 12, 4);
        if sel == 0b1110 {
            match right_shift_spec(tsz, imm3) {
                Some(p) => Some((
                    Code::SveShiftAccum,
                    pick(b11, pick(t, Mnemonic::Ssra, Mnemonic::Usra), pick(t, Mnemonic::Srsra, Mnemonic::Ursra)),
                    seq![zreg_spec(zd, p.0), zreg_spec(zn, p.0), Operand::ImmUnsigned(p.1 as u64)],
                )),
                None => None,
            }
        } else if sel == 0b1010 {
            match left_shift_spec(tsz, imm3) {
                Some(p) => match wider(p.0) {
                    Some(da) => Some((
                        Code::SveShiftLongImm,
                        pick(b11, pick(t, Mnemonic::Sshllb, Mnemonic::Sshllt), pick(t, Mnemonic::Ushllb, Mnemonic::Ushllt)),
                        seq![zreg_spec(zd, da), zreg_spec(zn, p.0), Operand::ImmUnsigned(p.1 as u64)],
                    )),
                    None => None,
                },
                None => None,
            }
        } else if field(word, 11, 5) == 0b11110 {
            match if t == 1 { left_shift_spec(tsz, imm3) } else { right_shift_spec(tsz, imm3) } {
                Some(p) => Some((
                    Code::SveShiftInsert,
                    if t == 1 { Mnemonic::Sli } else { Mnemonic::Sri },
                    seq![zreg_spec(zd, p.0), zreg_spec(zn, p.0), Operand::ImmUnsigned(p.1 as u64)],
                )),
                None => None,
            }
        } else {
            None
        }
    } else {
        let tszn = (field(word, 22, 1) * 4 + field(word, 19, 2)) as u32;
        if field(word, 13, 6) == 0b000010 {
            let opc = field(word, 11, 2);
            match tsz_index(tszn) {
                Some(idx) => match wider(arr_spec(idx)) {
                    Some(sa) => if opc == 3 {
                        None
                    } else {
                        Some((
                            Code::SveExtractNarrow,
                            if opc == 0 {
                                pick(t, Mnemonic::Sqxtnb, Mnemonic::Sqxtnt)
                            } else if opc == 1 {
                                pick(t, Mnemonic::Uqxtnb, Mnemonic::Uqxtnt)
                            } else {
                                pick(t, Mnemonic::Sqxtunb, Mnemonic::Sqxtunt)
                            },
                            seq![zreg_spec(zd, arr_spec(idx)), zreg_spec(zn, sa)],
                        ))
                    },
                    None => None,
                },
                None => None,
            }
        } else if field(word, 14, 2) == 0 {
            let op = field(word, 13, 1);
            let u = field(word, 12, 1);
            match right_shift_spec(tszn, imm3) {
                Some(p) => match wider(p.0) {
                    Some(sa) => Some((
                        Code::SveShiftNarrow,
                        pick(
                            op,
                            pick(
                                u,
                                pick(b11, pick(t, Mnemonic::Sqshrunb, Mnemonic::Sqshrunt), pick(t, Mnemonic::Sqrshrunb, Mnemonic::Sqrshrunt)),
                                pick(b11, pick(t, Mnemonic::Shrnb, Mnemonic::Shrnt), pick(t, Mnemonic::Rshrnb, Mnemonic::Rshrnt)),
                            ),
                            pick(
                                u,
                                pick(b11, pick(t, Mnemonic::Sqshrnb, Mnemonic::Sqshrnt), pick(t, Mnemonic::Sqrshrnb, Mnemonic::Sqrshrnt)),
                                pick(b11, pick(t, Mnemonic::Uqshrnb, Mnemonic::Uqshrnt), pick(t, Mnemonic::Uqrshrnb, Mnemonic::Uqrshrnt)),
                            ),
                        ),
                        seq![zreg_spec(zd, p.0), zreg_spec(zn, sa), Operand::ImmUnsigned(p.1 as u64)],
                    )),
                    None => None,
                },
                None => None,
            }
        } else {
            None
        }
    }
}

/// SVE2 bit-shift accumulate / insert / shift-left-long-immediate (top byte
/// 0x45, `<21>=0`) and the narrowing-shift-right / saturating-extract-narrow
/// forms (`<21>=1`). Leaves `out` invalid for non-shift encodings.
///
/// Shift-amount fields: `tszh:tszl:imm3` (`<23:22>:<20:19>:<18:16>` for the
/// `<21>=0` forms; `<22>:<20:19>:<18:16>` for the narrowing `<21>=1` forms).
fn decode_45_shift(word: u32, out: &mut Instruction)
    requires
        old(out).is_blank(),
    ensures
        decode_post(*old(out), *final(out)),
        yields(*old(out), *final(out), shift45_form(word)),
{
    let imm3: u32 = bits(word, 16, 3);
    let zn: u32 = bits(word, 5, 5);
    let zd: u32 = bits(word, 0, 5);
    let b11: u32 = bit(word, 11);
    let t: u32 = bit(word, 10);
    if bit(word, 21) == 0 {
        // tsz for the same-size / shift-long forms: `<23:22>:<20:19>`.
        let tsz = bits(word, 22, 2) * 4 + bits(word, 19, 2);
        let sel: u32 = bits(word, 12, 4);
        if sel == 0b1110 {
            // {S,U}{,R}SRA (`<15:12>=1110`): right-shift accumulate, `<11>=R`,
            // `<10>=U`. Same-size `Zda.<T>, Zn.<T>, #shift`.
            let Some((a, amt)) = right_shift_amount(tsz, imm3) else { return };
            let mnem = pick_mn(b11, pick_mn(t, Mnemonic::Ssra, Mnemonic::Usra), pick_mn(t, Mnemonic::Srsra, Mnemonic::Ursra));
            install3(out, Code::SveShiftAccum, mnem, zreg(zd, a), zreg(zn, a), Operand::ImmUnsigned(amt as u64));
        } else if sel == 0b1010 {
            // {S,U}SHLL{B,T} (`<15:12>=1010`): shift-left long, `<11>=U`,`<10>=T`.
            // `Zd.<wide>, Zn.<narrow>, #shift`; the shift amount is computed from
            // the narrow element size.
            let Some((sa, amt)) = left_shift_amount(tsz, imm3) else { return };
            let Some(da) = wider_of(sa) else { return };
            let mnem = pick_mn(b11, pick_mn(t, Mnemonic::Sshllb, Mnemonic::Sshllt), pick_mn(t, Mnemonic::Ushllb, Mnemonic::Ushllt));
            install3(out, Code::SveShiftLongImm, mnem, zreg(zd, da), zreg(zn, sa), Operand::ImmUnsigned(amt as u64));
        } else if bits(word, 11, 5) == 0b11110 {
            // SLI/SRI (`<15:11>=11110`, `<10>=op`): SLI (op=1, left) / SRI
            // (op=0, right). Same-size `Zd.<T>, Zn.<T>, #shift`.
            let res = if t == 1 { left_shift_amount(tsz, imm3) } else { right_shift_amount(tsz, imm3) };
            let Some((a, amt)) = res else { return };
            let mnem = if t == 1 { Mnemonic::Sli } else { Mnemonic::Sri };
            install3(out, Code::SveShiftInsert, mnem, zreg(zd, a), zreg(zn, a), Operand::ImmUnsigned(amt as u64));
        }
        return;
    }
    // `<21>=1`: narrowing-shift-right (`<15:13>=000`) and saturating-extract-narrow
    // (`<18:13>=000010`). tsz for narrowing: `<22>:<20:19>`.
    let tszn = bit(word, 22) * 4 + bits(word, 19, 2);
    if bits(word, 13, 6) == 0b000010 {
        // Saturating extract narrow, no immediate. `<12:11>=opc`, `<10>=T`:
        // 00=SQXTN, 01=UQXTN, 10=SQXTUN.
        let Some(idx) = tsz_size(tszn) else { return };
        let da = arr(idx);
        let Some(sa) = wider_of(da) else { return };
        let opc: u32 = bits(word, 11, 2);
        let mnem = if opc == 0 {
            pick_mn(t, Mnemonic::Sqxtnb, Mnemonic::Sqxtnt)
        } else if opc == 1 {
            pick_mn(t, Mnemonic::Uqxtnb, Mnemonic::Uqxtnt)
        } else if opc == 2 {
            pick_mn(t, Mnemonic::Sqxtunb, Mnemonic::Sqxtunt)
        } else {
            return;
        };
        install2_as(out, Code::SveExtractNarrow, mnem, zreg(zd, da), zreg(zn, sa));
        return;
    }
    if bits(word, 14, 2) == 0b00 {
        // Narrowing shift right (`<13>=op`,`<12>=U`,`<11>=R`,`<10>=T`):
        // `Zd.<narrow>, Zn.<wide>, #shift`. The shift is computed from the narrow
        // element size; the source is one size wider.
        // (op,U,R): 0,1,0=SHRN; 0,1,1=RSHRN; 1,0,0=SQSHRN; 1,0,1=SQRSHRN;
        // 0,0,0=SQSHRUN; 0,0,1=SQRSHRUN; 1,1,0=UQSHRN; 1,1,1=UQRSHRN.
        let Some((da, amt)) = right_shift_amount(tszn, imm3) else { return };
        let Some(sa) = wider_of(da) else { return };
        let op: u32 = bit(word, 13);
        let u: u32 = bit(word, 12);
        let mnem = pick_mn(
            op,
            pick_mn(
                u,
                pick_mn(b11, pick_mn(t, Mnemonic::Sqshrunb, Mnemonic::Sqshrunt), pick_mn(t, Mnemonic::Sqrshrunb, Mnemonic::Sqrshrunt)),
                pick_mn(b11, pick_mn(t, Mnemonic::Shrnb, Mnemonic::Shrnt), pick_mn(t, Mnemonic::Rshrnb, Mnemonic::Rshrnt)),
            ),
            pick_mn(
                u,
                pick_mn(b11, pick_mn(t, Mnemonic::Sqshrnb, Mnemonic::Sqshrnt), pick_mn(t, Mnemonic::Sqrshrnb, Mnemonic::Sqrshrnt)),
                pick_mn(b11, pick_mn(t, Mnemonic::Uqshrnb, Mnemonic::Uqshrnt), pick_mn(t, Mnemonic::Uqrshrnb, Mnemonic::Uqrshrnt)),
            ),
        );
        install3(out, Code::SveShiftNarrow, mnem, zreg(zd, da), zreg(zn, sa), Operand::ImmUnsigned(amt as u64));
    }
}

/// `zero` when the bit `b` is clear, `one` when it is set.
pub open spec fn pick(b: u32, zero: Mnemonic, one: Mnemonic) -> Mnemonic {
    if b == 0 {
        zero
    } else {
        one
    }
}

fn pick_mn(b: u32, zero: Mnemonic, one: Mnemonic) -> (m: Mnemonic)
    ensures
        m == pick(b, zero, one),
{
    if b == 0 {
        zero
    } else {
        one
    }
}

/// The instruction a top-byte `0x45` add/subtract word (`<15:14>` in
/// `00`/`01`, or `<15:13>=110`) encodes, or `None`.
pub open spec fn addsub45_form(word: u32) -> Option<(Code, Mnemonic, Seq<Operand>)> {
    let size = field(word, 22, 2);
    let zm = field(word, 16, 5);
    let zn = field(word, 5, 5);
    let zd = field(word, 0, 5);
    let op = field(word, 13, 3);
    let b21 = field(word, 21, 1);
    let s = field(word, 12, 1);
    let u = field(word, 11, 1);
    let t = field(word, 10, 1);
    let w = widen2_spec(size);
    if (op == 0 || op == 1) && b21 == 0 {
        match w {
            Some(p) => Some((
                if op == 1 { Code::SveAbdLong } else { Code::SveAddLong },
                if op == 1 {
                    pick(u, pick(t, Mnemonic::Sabdlb, Mnemonic::Sabdlt), pick(t, Mnemonic::Uabdlb, Mnemonic::Uabdlt))
                } else {
                    pick(
                        s,
                        pick(u, pick(t, Mnemonic::Saddlb, Mnemonic::Saddlt), pick(t, Mnemonic::Uaddlb, Mnemonic::Uaddlt)),
                        pick(u, pick(t, Mnemonic::Ssublb, Mnemonic::Ssublt), pick(t, Mnemonic::Usublb, Mnemonic::Usublt)),
                    )
                },
                zzz(zd, p.0, zn, zm, p.1),
            )),
            None => None,
        }
    } else if op == 2 && b21 == 0 {
        match w {
            Some(p) => Some((
                Code::SveAddWide,
                pick(
                    s,
                    pick(u, pick(t, Mnemonic::Saddwb, Mnemonic::Saddwt), pick(t, Mnemonic::Uaddwb, Mnemonic::Uaddwt)),
                    pick(u, pick(t, Mnemonic::Ssubwb, Mnemonic::Ssubwt), pick(t, Mnemonic::Usubwb, Mnemonic::Usubwt)),
                ),
                seq![zreg_spec(zd, p.0), zreg_spec(zn, p.0), zreg_spec(zm, p.1)],
            )),
            None => None,
        }
    } else if op == 3 && b21 == 1 {
        match w {
            Some(p) => Some((
                Code::SveAddHighNarrow,
                pick(
                    s,
                    pick(u, pick(t, Mnemonic::Addhnb, Mnemonic::Addhnt), pick(t, Mnemonic::Raddhnb, Mnemonic::Raddhnt)),
                    pick(u, pick(t, Mnemonic::Subhnb, Mnemonic::Subhnt), pick(t, Mnemonic::Rsubhnb, Mnemonic::Rsubhnt)),
                ),
                seq![zreg_spec(zd, p.1), zreg_spec(zn, p.0), zreg_spec(zm, p.0)],
            )),
            None => None,
        }
    } else if op == 4 && b21 == 0 && s == 0 {
        match w {
            Some(p) => Some((
                Code::SveAddLongBt,
                pick(u, Mnemonic::Saddlbt, pick(t, Mnemonic::Ssublbt, Mnemonic::Ssubltb)),
                zzz(zd, p.0, zn, zm, p.1),
            )),
            None => None,
        }
    } else if op == 6 {
        let sel = field(word, 10, 3);
        if sel <= 3 && b21 == 0 {
            match w {
                Some(p) => Some((
                    Code::SveAbaLong,
                    pick(u, pick(t, Mnemonic::Sabalb, Mnemonic::Sabalt), pick(t, Mnemonic::Uabalb, Mnemonic::Uabalt)),
                    zzz(zd, p.0, zn, zm, p.1),
                )),
                None => None,
            }
        } else if (sel == 4 || sel == 5) && b21 == 0 {
            let a = if field(word, 22, 1) == 1 { VA::Sd } else { VA::Ss };
            Some((
                Code::SveAddCarryLong,
                pick(field(word, 23, 1), pick(t, Mnemonic::Adclb, Mnemonic::Adclt), pick(t, Mnemonic::Sbclb, Mnemonic::Sbclt)),
                zzz(zd, a, zn, zm, a),
            ))
        } else if (sel == 6 || sel == 7) && b21 == 0 && field(word, 17, 4) == 0 {
            let a = arr_spec(size);
            let sq = field(word, 16, 1) == 1;
            Some((
                if sq { Code::SveSqcadd } else { Code::SveCadd },
                if sq { Mnemonic::Sqcadd } else { Mnemonic::Cadd },
                seq![zreg_spec(zd, a), zreg_spec(zd, a), zreg_spec(zn, a), Operand::ImmUnsigned(if t == 0 { 90 } else { 270 })],
            ))
        } else {
            None
        }
    } else {
        None
    }
}

/// SVE2 integer add/subtract long/wide, high-narrowing, ABAL, bottom-top long,
/// and ADC/SBC long (top byte 0x45). Returns leaving `out` invalid for the
/// multiply-long opcodes (handled by the caller). Dispatch on `<15:13>`:
/// * `000` (`<21>=0`): {S,U}{ADD,SUB}L{B,T} — 2x widen.
/// * `001` (`<21>=0`): {S,U}ABDL{B,T} — 2x widen.
/// * `010` (`<21>=0`): {S,U}{ADD,SUB}W{B,T} — wide (Zn wide, Zm narrow).
/// * `011` (`<21>=1`): {R,}{ADD,SUB}HN{B,T} — high narrowing (Zd narrow).
/// * `100` (`<21>=0`): SADDLBT / SSUBLBT / SSUBLTB — 2x widen, bottom-top.
/// * `110`,`<12:10>=000` (`<21>=0`): {S,U}ABAL{B,T} — 2x widen accumulate.
/// * `110`,`<12:10>=100`: ADCL{B,T} / SBCL{B,T} — same-size (`<23>`=op, `<22>`=sz).
fn decode_45_addsub(word: u32, out: &mut Instruction)
    requires
        old(out).is_blank(),
    ensures
        decode_post(*old(out), *final(out)),
        yields(*old(out), *final(out), addsub45_form(word)),
{
    let size: u32 = bits(word, 22, 2);
    let zm: u32 = bits(word, 16, 5);
    let zn: u32 = bits(word, 5, 5);
    let zd: u32 = bits(word, 0, 5);
    let op: u32 = bits(word, 13, 3);
    let b21: u32 = bit(word, 21);
    let s: u32 = bit(word, 12);
    let u: u32 = bit(word, 11);
    let t: u32 = bit(word, 10);
    if (op == 0b000 || op == 0b001) && b21 == 0 {
        // {S,U}{ADD,SUB}L{B,T} (`000`) and {S,U}ABDL{B,T} (`001`). `<12>=S`
        // (0=add,1=sub for L; for ABDL the op is sub), `<11>=U`, `<10>=T`.
        let Some((da, sa)) = widen2(size) else { return };
        let (code, mnem) = if op == 1 {
            (Code::SveAbdLong, pick_mn(u, pick_mn(t, Mnemonic::Sabdlb, Mnemonic::Sabdlt), pick_mn(t, Mnemonic::Uabdlb, Mnemonic::Uabdlt)))
        } else {
            (
                Code::SveAddLong,
                pick_mn(
                    s,
                    pick_mn(u, pick_mn(t, Mnemonic::Saddlb, Mnemonic::Saddlt), pick_mn(t, Mnemonic::Uaddlb, Mnemonic::Uaddlt)),
                    pick_mn(u, pick_mn(t, Mnemonic::Ssublb, Mnemonic::Ssublt), pick_mn(t, Mnemonic::Usublb, Mnemonic::Usublt)),
                ),
            )
        };
        install3(out, code, mnem, zreg(zd, da), zreg(zn, sa), zreg(zm, sa));
    } else if op == 0b010 && b21 == 0 {
        // {S,U}{ADD,SUB}W{B,T} (`010`): `Zd.<wide>, Zn.<wide>, Zm.<narrow>`.
        // `<12>=S` (0=add,1=sub), `<11>=U`, `<10>=T`.
        let Some((da, sa)) = widen2(size) else { return };
        let mnem = pick_mn(
            s,
            pick_mn(u, pick_mn(t, Mnemonic::Saddwb, Mnemonic::Saddwt), pick_mn(t, Mnemonic::Uaddwb, Mnemonic::Uaddwt)),
            pick_mn(u, pick_mn(t, Mnemonic::Ssubwb, Mnemonic::Ssubwt), pick_mn(t, Mnemonic::Usubwb, Mnemonic::Usubwt)),
        );
        install3(out, Code::SveAddWide, mnem, zreg(zd, da), zreg(zn, da), zreg(zm, sa));
    } else if op == 0b011 && b21 == 1 {
        // {R,}{ADD,SUB}HN{B,T} (`011`, `<21>=1`): `Zd.<narrow>, Zn.<wide>,
        // Zm.<wide>`. `<12>=S` (0=add,1=sub), `<11>=R` (rounding), `<10>=T`.
        let Some((da, sa)) = widen2(size) else { return };
        let mnem = pick_mn(
            s,
            pick_mn(u, pick_mn(t, Mnemonic::Addhnb, Mnemonic::Addhnt), pick_mn(t, Mnemonic::Raddhnb, Mnemonic::Raddhnt)),
            pick_mn(u, pick_mn(t, Mnemonic::Subhnb, Mnemonic::Subhnt), pick_mn(t, Mnemonic::Rsubhnb, Mnemonic::Rsubhnt)),
        );
        install3(out, Code::SveAddHighNarrow, mnem, zreg(zd, sa), zreg(zn, da), zreg(zm, da));
    } else if op == 0b100 && b21 == 0 && s == 0 {
        // SADDLBT / SSUBLBT / SSUBLTB (`100`, `<12>=0`): `1000|S|tb`. 2x widen.
        // `<11>=S` (0=SADDLBT, 1=SSUBLBT/SSUBLTB), `<10>=tb`.
        let Some((da, sa)) = widen2(size) else { return };
        let mnem = pick_mn(u, Mnemonic::Saddlbt, pick_mn(t, Mnemonic::Ssublbt, Mnemonic::Ssubltb));
        install3(out, Code::SveAddLongBt, mnem, zreg(zd, da), zreg(zn, sa), zreg(zm, sa));
    } else if op == 0b110 {
        let sel: u32 = bits(word, 10, 3);
        if sel <= 0b011 && b21 == 0 {
            // {S,U}ABAL{B,T} (`<15:12>=1100`): `<11>=U`, `<10>=T`.
            let Some((da, sa)) = widen2(size) else { return };
            let mnem = pick_mn(u, pick_mn(t, Mnemonic::Sabalb, Mnemonic::Sabalt), pick_mn(t, Mnemonic::Uabalb, Mnemonic::Uabalt));
            install3(out, Code::SveAbaLong, mnem, zreg(zd, da), zreg(zn, sa), zreg(zm, sa));
        } else if (sel == 0b100 || sel == 0b101) && b21 == 0 {
            // ADCL{B,T} / SBCL{B,T} (`<15:11>=11010`, `<21>=0`). `<23>`=op
            // (0=ADC,1=SBC), `<22>`=sz (0=.s,1=.d). Same-size. (`<21>=1` here
            // is HISTCNT, handled by `decode_45_misc`.)
            let a = if bit(word, 22) == 1 { VA::Sd } else { VA::Ss };
            let mnem = pick_mn(bit(word, 23), pick_mn(t, Mnemonic::Adclb, Mnemonic::Adclt), pick_mn(t, Mnemonic::Sbclb, Mnemonic::Sbclt));
            install3(out, Code::SveAddCarryLong, mnem, zreg(zd, a), zreg(zn, a), zreg(zm, a));
        } else if (sel == 0b110 || sel == 0b111) && b21 == 0 && bits(word, 17, 4) == 0 {
            // CADD (`<16>=0`) / SQCADD (`<16>=1`) (`<15:11>=11011`, `<21:17>=0`):
            // `<Zdn>.<T>, <Zdn>.<T>, <Zm>.<T>, #rot`, destructive (Zm=<9:5>),
            // rot=<10> (0 -> 90, 1 -> 270).
            let a = arr(size);
            let (code, mnem) = if bit(word, 16) == 1 { (Code::SveSqcadd, Mnemonic::Sqcadd) } else { (Code::SveCadd, Mnemonic::Cadd) };
            install4(out, code, mnem, zreg(zd, a), zreg(zd, a), zreg(zn, a), Operand::ImmUnsigned(if t == 0 { 90 } else { 270 }));
        }
    }
}

/// The saturating scalar INC/DEC mnemonic from `(U, D, size)`.
fn sat_scalar_mnemonic(unsigned: bool, dec: bool, size: u32) -> (m: Mnemonic)
    ensures
        m == sat_scalar_spec(unsigned, dec, size),
{
    if !unsigned {
        if !dec {
            by_size_mn(size, Mnemonic::Sqincb, Mnemonic::Sqinch, Mnemonic::Sqincw, Mnemonic::Sqincd)
        } else {
            by_size_mn(size, Mnemonic::Sqdecb, Mnemonic::Sqdech, Mnemonic::Sqdecw, Mnemonic::Sqdecd)
        }
    } else if !dec {
        by_size_mn(size, Mnemonic::Uqincb, Mnemonic::Uqinch, Mnemonic::Uqincw, Mnemonic::Uqincd)
    } else {
        by_size_mn(size, Mnemonic::Uqdecb, Mnemonic::Uqdech, Mnemonic::Uqdecw, Mnemonic::Uqdecd)
    }
}

// ---------------------------------------------------------------------------
// Top-level integer dispatch.
// ---------------------------------------------------------------------------

/// The words whose instruction [`int_form`] states: the top bytes `0x04`,
/// `0x05`, `0x24`, `0x25`, `0x44` and `0x45`.
pub open spec fn int_form_stated(word: u32) -> bool {
    let hi = field(word, 24, 8);
    ||| hi == 0x04
    ||| hi == 0x24
    ||| hi == 0x25
    ||| hi == 0x45
    ||| hi == 0x44
    ||| hi == 0x05
}

/// A top-byte `0x04` instruction has a code.
proof fn lemma_int04_code(word: u32, features: FeatureSet)
    ensures
        int04_form(word, features) matches Some(f) ==> f.0 != Code::Invalid,
{
    reveal(int04_form);
    let sel = field(word, 13, 3);
    if field(word, 21, 1) == 0 {
        if sel == 0 {
            assert(pred_binary_form(word) matches Some(f) ==> f.0 != Code::Invalid);
        } else if sel == 1 {
            assert(reduction_form(word) matches Some(f) ==> f.0 != Code::Invalid);
        } else if sel == 4 {
            assert(shift_pred_form(word) matches Some(f) ==> f.0 != Code::Invalid);
        } else if sel == 5 {
            assert(unary_pred_form(word) matches Some(f) ==> f.0 != Code::Invalid);
        }
    } else {
        if sel == 0 {
            assert(arith_zzz_form(word) matches Some(f) ==> f.0 != Code::Invalid);
        } else if sel == 1 {
            assert(logical_zzz_form(word) matches Some(f) ==> f.0 != Code::Invalid);
        } else if sel == 2 {
            assert(index_addvl_form(word, features) matches Some(f) ==> f.0 != Code::Invalid);
        } else if sel == 3 {
            assert(mul_zzz_form(word) matches Some(f) ==> f.0 != Code::Invalid);
        } else if sel == 4 {
            assert(shift_unpred_form(word) matches Some(f) ==> f.0 != Code::Invalid);
        } else if sel == 5 {
            assert(adr_movprfx_form(word) matches Some(f) ==> f.0 != Code::Invalid);
        } else if sel == 6 {
            assert(incdec_vec_form(word) matches Some(f) ==> f.0 != Code::Invalid);
        } else {
            assert(cnt_incdec_form(word) matches Some(f) ==> f.0 != Code::Invalid);
        }
    }
}

/// A top-byte `0x25` integer instruction has a code.
proof fn lemma_int25_code(word: u32)
    ensures
        int25_form(word) matches Some(f) ==> f.0 != Code::Invalid,
{
    reveal(int25_form);
    assert(incdec_pred_form(word) matches Some(f) ==> f.0 != Code::Invalid);
    assert(int_imm_form(word) matches Some(f) ==> f.0 != Code::Invalid);
}

/// A decoded integer instruction has a code.
#[verifier::rlimit(80)]
proof fn lemma_int_code(word: u32, features: FeatureSet)
    ensures
        int_form(word, features) matches Some(f) ==> f.0 != Code::Invalid,
{
    let hi = field(word, 24, 8);
    if hi == 0x04 {
        lemma_int04_code(word, features);
    } else if hi == 0x24 {
        assert(int24_form(word) matches Some(f) ==> f.0 != Code::Invalid) by {
            reveal(int24_form);
        }
    } else if hi == 0x25 {
        lemma_int25_code(word);
    } else if hi == 0x45 {
        assert(top45_form(word) matches Some(f) ==> f.0 != Code::Invalid);
    } else if hi == 0x44 {
        assert(vec44_form(word) matches Some(f) ==> f.0 != Code::Invalid);
        assert(idx44_form(word) matches Some(f) ==> f.0 != Code::Invalid);
    } else {
        assert(int05_form(word) matches Some(f) ==> f.0 != Code::Invalid);
    }
}

/// A stated word lies in the `010` SVE quadrant, and a stated instruction
/// has a code.
pub proof fn lemma_int_form(word: u32, features: FeatureSet)
    ensures
        field(word, 24, 8) == 0x44 || field(word, 24, 8) == 0x45 ==> field(word, 29, 3) == 0b010,
        field(word, 24, 8) == 0x04 || field(word, 24, 8) == 0x05 ==> field(word, 29, 3) == 0b000,
        field(word, 24, 8) == 0x24 || field(word, 24, 8) == 0x25 ==> field(word, 29, 3) == 0b001,
        int_form_stated(word) ==> field(word, 25, 4) == 0b0010,
        int_form(word, features) matches Some(f) ==> f.0 != Code::Invalid,
{
    lemma_int_code(word, features);
    assert(((word >> 24u32) & low_mask(8)) == 0x24 || ((word >> 24u32) & low_mask(8)) == 0x25 ==> ((word
        >> 29u32) & low_mask(3)) == 0b001 && ((word >> 25u32) & low_mask(4)) == 0b0010) by (bit_vector)
        requires
            low_mask(8) == 0xff,
            low_mask(3) == 0x7,
            low_mask(4) == 0xf,
    ;
    assert(((word >> 24u32) & low_mask(8)) == 0x44 || ((word >> 24u32) & low_mask(8)) == 0x45 ==> ((word
        >> 29u32) & low_mask(3)) == 0b010 && ((word >> 25u32) & low_mask(4)) == 0b0010) by (bit_vector)
        requires
            low_mask(8) == 0xff,
            low_mask(3) == 0x7,
            low_mask(4) == 0xf,
    ;
    assert(((word >> 24u32) & low_mask(8)) == 0x05 || ((word >> 24u32) & low_mask(8)) == 0x04 ==> ((word
        >> 29u32) & low_mask(3)) == 0b000 && ((word >> 25u32) & low_mask(4)) == 0b0010) by (bit_vector)
        requires
            low_mask(8) == 0xff,
            low_mask(3) == 0x7,
            low_mask(4) == 0xf,
    ;
}

/// The instruction an SVE integer word encodes under `features` (see
/// [`int_form_stated`]), or `None`.
pub open spec fn int_form(word: u32, features: FeatureSet) -> Option<(Code, Mnemonic, Seq<Operand>)> {
    let hi = field(word, 24, 8);
    if hi == 0x04 {
        int04_form(word, features)
    } else if hi == 0x24 {
        int24_form(word)
    } else if hi == 0x25 {
        int25_form(word)
    } else if hi == 0x45 {
        top45_form(word)
    } else if hi == 0x44 {
        if field(word, 21, 1) == 0 {
            vec44_form(word)
        } else {
            idx44_form(word)
        }
    } else {
        int05_form(word)
    }
}

/// Decode an SVE/SVE2 integer-family instruction into `out`.
///
/// Called by [`crate::decode::sve::decode`] for the `000`/`001`/`010` quadrants.
/// Routes on the high byte (`word<31:24>`) and the inner class selectors. Leaves
/// `out` invalid when the encoding is not an integer leaf (so the permute /
/// predicate decoder can try). Total and panic-free.
pub fn decode(word: u32, ip: u64, features: FeatureSet, out: &mut Instruction)
    requires
        features.contains(Feature::Sve) ==> old(out).is_blank(),
    ensures
        features.contains(Feature::Sve) ==> decode_post(*old(out), *final(out)),
        !features.contains(Feature::Sve) ==> *final(out) == *old(out),
        !int_form_stated(word) ==> *final(out) == *old(out),
        features.contains(Feature::Sve) && int_form_stated(word) ==> yields(*old(out), *final(out), int_form(word, features)),
{
    let _ = ip;
    if !features.has(crate::features::Feature::Sve) {
        return;
    }
    let hi: u32 = bits(word, 24, 8); // word<31:24>
    match hi {
        // 0x04 / 0x05: SVE integer, shift, misc, MOVPRFX, DUP/CPY (top byte 000).
        0x04 => decode_04(word, features, out),
        0x05 => decode_05(word, out),
        // 0x25: SVE integer immediate (add/sub/min/max/mul) + INC/DEC by pred,
        //       compare-with-imm, predicate counts (top byte 001).
        0x25 => decode_25(word, out),
        0x24 => decode_24(word, out),
        // 0x44 / 0x45: SVE2 integer multiply-add / DOT / widening (top byte 010).
        0x44 => decode_44(word, out),
        0x45 => decode_45(word, out),
        _ => {}
    }
}

// ===========================================================================
// Top byte 0x04 — SVE integer / shift / reduction / INC-DEC / INDEX / ADR.
// Dispatch on word<21> then word<15:13> (the SVE encoding index).
// ===========================================================================

/// The instruction a top-byte `0x04` word encodes, or `None`: `<21>`
/// selects the predicated (`0`) or unpredicated (`1`) half, `<15:13>` the
/// class.
#[verifier::opaque]
pub open spec fn int04_form(word: u32, features: FeatureSet) -> Option<(Code, Mnemonic, Seq<Operand>)> {
    let sel = field(word, 13, 3);
    if field(word, 21, 1) == 0 {
        if sel == 0 {
            pred_binary_form(word)
        } else if sel == 1 {
            reduction_form(word)
        } else if sel == 2 {
            mla_mls_form(word, false)
        } else if sel == 3 {
            mla_mls_form(word, true)
        } else if sel == 4 {
            shift_pred_form(word)
        } else if sel == 5 {
            unary_pred_form(word)
        } else if sel == 6 {
            mad_msb_form(word, false)
        } else {
            mad_msb_form(word, true)
        }
    } else {
        if sel == 0 {
            arith_zzz_form(word)
        } else if sel == 1 {
            logical_zzz_form(word)
        } else if sel == 2 {
            index_addvl_form(word, features)
        } else if sel == 3 {
            mul_zzz_form(word)
        } else if sel == 4 {
            shift_unpred_form(word)
        } else if sel == 5 {
            adr_movprfx_form(word)
        } else if sel == 6 {
            incdec_vec_form(word)
        } else {
            cnt_incdec_form(word)
        }
    }
}

fn decode_04(word: u32, features: FeatureSet, out: &mut Instruction)
    requires
        old(out).is_blank(),
    ensures
        decode_post(*old(out), *final(out)),
        yields(*old(out), *final(out), int04_form(word, features)),
{
    proof {
        reveal(int04_form);
    }
    let b21: u32 = bit(word, 21);
    let sel: u32 = bits(word, 13, 3); // word<15:13>
    match (b21, sel) {
        // Predicated integer binary (destructive): ADD/SUB/.. min/max/div/mul/logical.
        (0, 0b000) => decode_pred_binary(word, out),
        // Reductions + predicated MOVPRFX.
        (0, 0b001) => decode_reduction(word, out),
        // MLA / MLS (predicated).
        (0, 0b010) => decode_mla_mls(word, out, false),
        (0, 0b011) => decode_mla_mls(word, out, true),
        // Shifts predicated (imm / vector / wide) + ASRD and SVE2 shift-imm.
        (0, 0b100) => decode_shift_pred(word, out),
        // Unary predicated: ABS/NEG/CNT/CLS/CLZ/CNOT/NOT/SXTB../UXTB..
        (0, 0b101) => decode_unary_pred(word, out),
        // MAD / MSB (predicated).
        (0, 0b110) => decode_mad_msb(word, out, false),
        (0, 0b111) => decode_mad_msb(word, out, true),

        // Unpredicated integer arithmetic ADD/SUB/SQADD/..
        (1, 0b000) => decode_arith_zzz(word, out),
        // Unpredicated bitwise logical AND/ORR/EOR/BIC (+ MOV alias).
        (1, 0b001) => decode_logical_zzz(word, out),
        // INDEX, ADDVL/ADDPL, RDVL (+ the SME streaming ADDSVL/ADDSPL/RDSVL).
        (1, 0b010) => decode_index_addvl(word, features, out),
        // Unpredicated multiply MUL/SMULH/UMULH/PMUL (+ SQDMULH/SQRDMULH).
        (1, 0b011) => decode_mul_zzz(word, out),
        // Shift by immediate (unpred) and wide-shift (unpred).
        (1, 0b100) => decode_shift_unpred(word, out),
        // ADR (vector) and unpredicated MOVPRFX.
        (1, 0b101) => decode_adr_movprfx(word, out),
        // INC/DEC vector by element count.
        (1, 0b110) => decode_incdec_vec(word, out),
        // CNTB/H/W/D and INC/DEC scalar by element count.
        (1, 0b111) => decode_cnt_incdec_scalar(word, out),
        _ => {}
    }
}

/// The code of a predicated destructive binary `<20:16>` other than the
/// ADDPT/SUBPT slots, or `None`.
pub open spec fn pred_binary_code(opc: u32) -> Option<Code> {
    match opc {
        0b00000 => Some(Code::SveAddZpzz),
        0b00001 => Some(Code::SveSubZpzz),
        0b00011 => Some(Code::SveSubrZpzz),
        0b01000 => Some(Code::SveSmaxZpzz),
        0b01001 => Some(Code::SveUmaxZpzz),
        0b01010 => Some(Code::SveSminZpzz),
        0b01011 => Some(Code::SveUminZpzz),
        0b01100 => Some(Code::SveSabdZpzz),
        0b01101 => Some(Code::SveUabdZpzz),
        0b10000 => Some(Code::SveMulZpzz),
        0b10010 => Some(Code::SveSmulhZpzz),
        0b10011 => Some(Code::SveUmulhZpzz),
        0b10100 => Some(Code::SveSdivZpzz),
        0b10101 => Some(Code::SveUdivZpzz),
        0b10110 => Some(Code::SveSdivrZpzz),
        0b10111 => Some(Code::SveUdivrZpzz),
        0b11000 => Some(Code::SveOrrZpzz),
        0b11001 => Some(Code::SveEorZpzz),
        0b11010 => Some(Code::SveAndZpzz),
        0b11011 => Some(Code::SveBicZpzz),
        _ => None,
    }
}

/// The instruction a predicated destructive binary word (`<21>=0`,
/// `<15:13>=000`) encodes, or `None`: ADDPT/SUBPT take `.d` only and the
/// divides `.s`/`.d` only.
pub open spec fn pred_binary_form(word: u32) -> Option<(Code, Mnemonic, Seq<Operand>)> {
    let size = field(word, 22, 2);
    let opc = field(word, 16, 5);
    let ops = zpzz_ops(field(word, 0, 5), field(word, 10, 3), field(word, 5, 5), arr_spec(size));
    if opc == 0b00100 || opc == 0b00101 {
        if size != 0b11 {
            None
        } else {
            insn(if opc == 0b00100 { Code::SveAddptPred } else { Code::SveSubptPred }, ops)
        }
    } else {
        match pred_binary_code(opc) {
            Some(c) => if 0b10100 <= opc <= 0b10111 && size < 2 {
                None
            } else {
                insn(c, ops)
            },
            None => None,
        }
    }
}

/// Predicated integer binary destructive (`<21>=0`, `<15:13>=000`):
/// `op <Zdn>.<T>, <Pg>/M, <Zdn>.<T>, <Zm>.<T>`, the operation in `<20:16>`.
fn decode_pred_binary(word: u32, out: &mut Instruction)
    requires
        old(out).is_blank(),
    ensures
        decode_post(*old(out), *final(out)),
        yields(*old(out), *final(out), pred_binary_form(word)),
{
    let size: u32 = bits(word, 22, 2);
    let opc: u32 = bits(word, 16, 5); // word<20:16>
    let pg: u32 = bits(word, 10, 3);
    let zm: u32 = bits(word, 5, 5);
    let zdn: u32 = bits(word, 0, 5);
    let a = arr(size);
    // ADDPT/SUBPT (FEAT_CPA predicated): `<20:16>=00100`/`00101`, `.d` only
    // (`<23:22>=11`).
    let code = if opc == 0b00100 || opc == 0b00101 {
        if size != 0b11 {
            return;
        }
        if opc == 0b00100 { Code::SveAddptPred } else { Code::SveSubptPred }
    } else {
        let code = match opc {
            0b00000 => Code::SveAddZpzz,
            0b00001 => Code::SveSubZpzz,
            0b00011 => Code::SveSubrZpzz,
            0b01000 => Code::SveSmaxZpzz,
            0b01001 => Code::SveUmaxZpzz,
            0b01010 => Code::SveSminZpzz,
            0b01011 => Code::SveUminZpzz,
            0b01100 => Code::SveSabdZpzz,
            0b01101 => Code::SveUabdZpzz,
            0b10000 => Code::SveMulZpzz,
            0b10010 => Code::SveSmulhZpzz,
            0b10011 => Code::SveUmulhZpzz,
            0b10100 => Code::SveSdivZpzz,
            0b10101 => Code::SveUdivZpzz,
            0b10110 => Code::SveSdivrZpzz,
            0b10111 => Code::SveUdivrZpzz,
            0b11000 => Code::SveOrrZpzz,
            0b11001 => Code::SveEorZpzz,
            0b11010 => Code::SveAndZpzz,
            0b11011 => Code::SveBicZpzz,
            _ => return,
        };
        // SDIV/UDIV/SDIVR/UDIVR only exist for .s/.d (size>=2).
        if 0b10100 <= opc && opc <= 0b10111 && size < 2 {
            return;
        }
        code
    };
    install4(out, code, mnemonic_of(code), zreg(zdn, a), preg_q(pg, PredQual::Merging), zreg(zdn, a), zreg(zm, a));
}

/// The code of a reduction into a scalar of the element width, or `None`.
pub open spec fn reduction_scalar_code(opc: u32) -> Option<Code> {
    match opc {
        0b01000 => Some(Code::SveSmaxv),
        0b01001 => Some(Code::SveUmaxv),
        0b01010 => Some(Code::SveSminv),
        0b01011 => Some(Code::SveUminv),
        0b11000 => Some(Code::SveOrv),
        0b11001 => Some(Code::SveEorv),
        0b11010 => Some(Code::SveAndv),
        _ => None,
    }
}

/// The code of an SVE2.1 quadword reduction into a NEON register, or `None`.
pub open spec fn reduction_qv_code(opc: u32) -> Option<Code> {
    match opc {
        0b00101 => Some(Code::SveAddqv),
        0b01100 => Some(Code::SveSmaxqv),
        0b01101 => Some(Code::SveUmaxqv),
        0b01110 => Some(Code::SveSminqv),
        0b01111 => Some(Code::SveUminqv),
        0b11100 => Some(Code::SveOrqv),
        0b11101 => Some(Code::SveEorqv),
        0b11110 => Some(Code::SveAndqv),
        _ => None,
    }
}

/// The instruction a reduction / predicated MOVPRFX word (`<21>=0`,
/// `<15:13>=001`) encodes, or `None`. SADDV/UADDV reduce into a `D`
/// register, the other scalar reductions into one of the element width, the
/// quadword reductions into `<Vd>.<T>`.
pub open spec fn reduction_form(word: u32) -> Option<(Code, Mnemonic, Seq<Operand>)> {
    let size = field(word, 22, 2);
    let opc = field(word, 16, 5);
    let pg = field(word, 10, 3);
    let zn = field(word, 5, 5);
    let rd = field(word, 0, 5);
    let a = arr_spec(size);
    if opc == 0b00000 || opc == 0b00001 {
        insn(
            if opc == 0 { Code::SveSaddv } else { Code::SveUaddv },
            seq![scalar_fp_spec(rd, 3), preg_spec(pg), zreg_spec(zn, a)],
        )
    } else if opc == 0b10000 || opc == 0b10001 {
        insn(
            Code::SveMovprfxZpz,
            seq![
                zreg_spec(rd, a),
                preg_q_spec(pg, if field(word, 16, 1) == 1 { PredQual::Merging } else { PredQual::Zeroing }),
                zreg_spec(zn, a),
            ],
        )
    } else {
        match reduction_scalar_code(opc) {
            Some(c) => insn(c, seq![scalar_fp_spec(rd, size), preg_spec(pg), zreg_spec(zn, a)]),
            None => match reduction_qv_code(opc) {
                Some(c) => insn(c, seq![vreg_spec(rd, va_neon_int_spec(size)), preg_spec(pg), zreg_spec(zn, a)]),
                None => None,
            },
        }
    }
}

/// Integer reductions (`<21>=0`, `<15:13>=001`) and predicated `MOVPRFX`.
fn decode_reduction(word: u32, out: &mut Instruction)
    requires
        old(out).is_blank(),
    ensures
        decode_post(*old(out), *final(out)),
        yields(*old(out), *final(out), reduction_form(word)),
{
    let size: u32 = bits(word, 22, 2);
    let opc: u32 = bits(word, 16, 5); // word<20:16>
    let pg: u32 = bits(word, 10, 3);
    let zn: u32 = bits(word, 5, 5);
    let rd: u32 = bits(word, 0, 5);
    let a = arr(size);
    if opc == 0b00000 || opc == 0b00001 {
        // SADDV / UADDV always reduce into a D register.
        let code = if opc == 0 { Code::SveSaddv } else { Code::SveUaddv };
        install3(out, code, mnemonic_of(code), scalar_fp(rd, 3), preg(pg), zreg(zn, a));
    } else if opc == 0b10000 || opc == 0b10001 {
        // MOVPRFX predicated: the M bit is word<16>; /m when set, /z when clear.
        let q = if bit(word, 16) == 1 { PredQual::Merging } else { PredQual::Zeroing };
        install3(out, Code::SveMovprfxZpz, mnemonic_of(Code::SveMovprfxZpz), zreg(rd, a), preg_q(pg, q), zreg(zn, a));
    } else {
        // SMAXV/SMINV/.. reduce into a scalar of the element width.
        let scalar = match opc {
            0b01000 => Some(Code::SveSmaxv),
            0b01001 => Some(Code::SveUmaxv),
            0b01010 => Some(Code::SveSminv),
            0b01011 => Some(Code::SveUminv),
            0b11000 => Some(Code::SveOrv),
            0b11001 => Some(Code::SveEorv),
            0b11010 => Some(Code::SveAndv),
            _ => None,
        };
        if let Some(code) = scalar {
            install3(out, code, mnemonic_of(code), scalar_fp(rd, size), preg(pg), zreg(zn, a));
            return;
        }
        // SVE2.1 quadword reductions to a NEON `V` register (`<Vd>.<T>`).
        let code = match opc {
            0b00101 => Code::SveAddqv,
            0b01100 => Code::SveSmaxqv,
            0b01101 => Code::SveUmaxqv,
            0b01110 => Code::SveSminqv,
            0b01111 => Code::SveUminqv,
            0b11100 => Code::SveOrqv,
            0b11101 => Code::SveEorqv,
            0b11110 => Code::SveAndqv,
            _ => return,
        };
        install3(out, code, mnemonic_of(code), vreg(rd, va_neon_int(size)), preg(pg), zreg(zn, a));
    }
}

/// The instruction a MLA (`is_mls` false) or MLS word encodes:
/// `<Zda>.<T>, <Pg>/M, <Zn>.<T>, <Zm>.<T>`.
pub open spec fn mla_mls_form(word: u32, is_mls: bool) -> Option<(Code, Mnemonic, Seq<Operand>)> {
    let a = arr_spec(field(word, 22, 2));
    insn(
        if is_mls { Code::SveMlsZpzzz } else { Code::SveMlaZpzzz },
        seq![
            zreg_spec(field(word, 0, 5), a),
            preg_q_spec(field(word, 10, 3), PredQual::Merging),
            zreg_spec(field(word, 5, 5), a),
            zreg_spec(field(word, 16, 5), a),
        ],
    )
}

/// MLA / MLS (`<21>=0`, `<15:13>=010/011`): `op <Zda>.<T>, <Pg>/M, <Zn>.<T>,
/// <Zm>.<T>`.
fn decode_mla_mls(word: u32, out: &mut Instruction, is_mls: bool)
    requires
        old(out).is_blank(),
    ensures
        decode_post(*old(out), *final(out)),
        yields(*old(out), *final(out), mla_mls_form(word, is_mls)),
{
    let size: u32 = bits(word, 22, 2);
    let pg: u32 = bits(word, 10, 3);
    let zn: u32 = bits(word, 5, 5);
    let zda: u32 = bits(word, 0, 5);
    let zm: u32 = bits(word, 16, 5);
    let a = arr(size);
    let code = if is_mls { Code::SveMlsZpzzz } else { Code::SveMlaZpzzz };
    install4(out, code, mnemonic_of(code), zreg(zda, a), preg_q(pg, PredQual::Merging), zreg(zn, a), zreg(zm, a));
}

/// The instruction a MAD (`is_msb` false) or MSB word encodes:
/// `<Zdn>.<T>, <Pg>/M, <Zm>.<T>, <Za>.<T>` with `Zm=<20:16>`, `Za=<9:5>`.
pub open spec fn mad_msb_form(word: u32, is_msb: bool) -> Option<(Code, Mnemonic, Seq<Operand>)> {
    let a = arr_spec(field(word, 22, 2));
    insn(
        if is_msb { Code::SveMsbZpzzz } else { Code::SveMadZpzzz },
        seq![
            zreg_spec(field(word, 0, 5), a),
            preg_q_spec(field(word, 10, 3), PredQual::Merging),
            zreg_spec(field(word, 16, 5), a),
            zreg_spec(field(word, 5, 5), a),
        ],
    )
}

/// MAD / MSB (`<21>=0`, `<15:13>=110/111`): `op <Zdn>.<T>, <Pg>/M, <Zm>.<T>,
/// <Za>.<T>`.
fn decode_mad_msb(word: u32, out: &mut Instruction, is_msb: bool)
    requires
        old(out).is_blank(),
    ensures
        decode_post(*old(out), *final(out)),
        yields(*old(out), *final(out), mad_msb_form(word, is_msb)),
{
    let size: u32 = bits(word, 22, 2);
    let pg: u32 = bits(word, 10, 3);
    let zm: u32 = bits(word, 16, 5);
    let za: u32 = bits(word, 5, 5);
    let zdn: u32 = bits(word, 0, 5);
    let a = arr(size);
    let code = if is_msb { Code::SveMsbZpzzz } else { Code::SveMadZpzzz };
    install4(out, code, mnemonic_of(code), zreg(zdn, a), preg_q(pg, PredQual::Merging), zreg(zm, a), zreg(za, a));
}

/// The predicated shift-by-immediate of `<20:16>`: its code, its mnemonic,
/// and whether it shifts left; `None` for the other classes. The SVE2
/// saturating and rounding shifts share the LSL/ASR/LSR codes.
pub open spec fn shift_pred_imm(opc: u32) -> Option<(Code, Mnemonic, bool)> {
    match opc {
        0b00000 => Some((Code::SveAsrZpzi, Mnemonic::Asr, false)),
        0b00001 => Some((Code::SveLsrZpzi, Mnemonic::Lsr, false)),
        0b00011 => Some((Code::SveLslZpzi, Mnemonic::Lsl, true)),
        0b00100 => Some((Code::SveAsrdZpzi, Mnemonic::Asrd, false)),
        0b00110 => Some((Code::SveLslZpzi, Mnemonic::Sqshl, true)),
        0b00111 => Some((Code::SveLslZpzi, Mnemonic::Uqshl, true)),
        0b01100 => Some((Code::SveAsrZpzi, Mnemonic::Srshr, false)),
        0b01101 => Some((Code::SveLsrZpzi, Mnemonic::Urshr, false)),
        0b01111 => Some((Code::SveLslZpzi, Mnemonic::Sqshlu, true)),
        _ => None,
    }
}

fn shift_pred_imm_of(opc: u32) -> (r: Option<(Code, Mnemonic, bool)>)
    ensures
        r == shift_pred_imm(opc),
{
    match opc {
        0b00000 => Some((Code::SveAsrZpzi, Mnemonic::Asr, false)),
        0b00001 => Some((Code::SveLsrZpzi, Mnemonic::Lsr, false)),
        0b00011 => Some((Code::SveLslZpzi, Mnemonic::Lsl, true)),
        0b00100 => Some((Code::SveAsrdZpzi, Mnemonic::Asrd, false)),
        0b00110 => Some((Code::SveLslZpzi, Mnemonic::Sqshl, true)),
        0b00111 => Some((Code::SveLslZpzi, Mnemonic::Uqshl, true)),
        0b01100 => Some((Code::SveAsrZpzi, Mnemonic::Srshr, false)),
        0b01101 => Some((Code::SveLsrZpzi, Mnemonic::Urshr, false)),
        0b01111 => Some((Code::SveLslZpzi, Mnemonic::Sqshlu, true)),
        _ => None,
    }
}

/// The code of a predicated shift by vector of `<20:16>`, or `None`.
pub open spec fn shift_pred_vec_code(opc: u32) -> Option<Code> {
    match opc {
        0b10000 => Some(Code::SveAsrZpzz),
        0b10001 => Some(Code::SveLsrZpzz),
        0b10011 => Some(Code::SveLslZpzz),
        0b10100 => Some(Code::SveAsrrZpzz),
        0b10101 => Some(Code::SveLsrrZpzz),
        0b10111 => Some(Code::SveLslrZpzz),
        _ => None,
    }
}

/// The code of a predicated wide-element shift of `<20:16>`, or `None`.
pub open spec fn shift_pred_wide_code(opc: u32) -> Option<Code> {
    match opc {
        0b11000 => Some(Code::SveAsrWidePred),
        0b11001 => Some(Code::SveLsrWidePred),
        0b11011 => Some(Code::SveLslWidePred),
        _ => None,
    }
}

/// The instruction a predicated shift word (`<21>=0`, `<15:13>=100`)
/// encodes, or `None`: by immediate (`tsz = <23:22>:<9:8>`, `imm3 = <7:5>`),
/// by vector, or by wide `.d` elements (no `.d` destination).
pub open spec fn shift_pred_form(word: u32) -> Option<(Code, Mnemonic, Seq<Operand>)> {
    let opc = field(word, 16, 5);
    let pg = field(word, 10, 3);
    let zdn = field(word, 0, 5);
    let size = field(word, 22, 2);
    match shift_pred_imm(opc) {
        Some(t) => {
            let tsz = (size * 4 + field(word, 8, 2)) as u32;
            let imm3 = field(word, 5, 3);
            match if t.2 { left_shift_spec(tsz, imm3) } else { right_shift_spec(tsz, imm3) } {
                Some(p) => Some((t.0, t.1, seq![
                    zreg_spec(zdn, p.0),
                    preg_q_spec(pg, PredQual::Merging),
                    zreg_spec(zdn, p.0),
                    Operand::ImmUnsigned(p.1 as u64),
                ])),
                None => None,
            }
        },
        None => match shift_pred_vec_code(opc) {
            Some(c) => insn(c, zpzz_ops(zdn, pg, field(word, 5, 5), arr_spec(size))),
            None => match shift_pred_wide_code(opc) {
                Some(c) => if size == 3 {
                    None
                } else {
                    insn(c, seq![
                        zreg_spec(zdn, arr_spec(size)),
                        preg_q_spec(pg, PredQual::Merging),
                        zreg_spec(zdn, arr_spec(size)),
                        zreg_spec(field(word, 5, 5), VA::Sd),
                    ])
                },
                None => None,
            },
        },
    }
}

/// Shifts predicated (`<21>=0`, `<15:13>=100`): shift-by-immediate, shift-by-
/// vector, and wide-element shifts, plus `ASRD` and the SVE2 saturating
/// shift-immediates. The class is `word<20:16>`.
fn decode_shift_pred(word: u32, out: &mut Instruction)
    requires
        old(out).is_blank(),
    ensures
        decode_post(*old(out), *final(out)),
        yields(*old(out), *final(out), shift_pred_form(word)),
{
    let opc: u32 = bits(word, 16, 5); // word<20:16>
    let pg: u32 = bits(word, 10, 3);
    let zdn: u32 = bits(word, 0, 5);
    let size: u32 = bits(word, 22, 2);
    if let Some((code, mnem, left)) = shift_pred_imm_of(opc) {
        // Shift by immediate (predicated): tszh=<23:22>, tszl=<9:8>, imm3=<7:5>.
        let tsz = size * 4 + bits(word, 8, 2);
        let imm3: u32 = bits(word, 5, 3);
        let sh = if left { left_shift_amount(tsz, imm3) } else { right_shift_amount(tsz, imm3) };
        let Some((a, amt)) = sh else { return };
        install4(out, code, mnem, zreg(zdn, a), preg_q(pg, PredQual::Merging), zreg(zdn, a), Operand::ImmUnsigned(amt as u64));
        return;
    }
    let zm: u32 = bits(word, 5, 5);
    let a = arr(size);
    match opc {
        // Shift by vector (predicated): `op <Zdn>.<T>, <Pg>/M, <Zdn>.<T>, <Zm>.<T>`.
        0b10000 | 0b10001 | 0b10011 | 0b10100 | 0b10101 | 0b10111 => {
            let code = match opc {
                0b10000 => Code::SveAsrZpzz,
                0b10001 => Code::SveLsrZpzz,
                0b10011 => Code::SveLslZpzz,
                0b10100 => Code::SveAsrrZpzz,
                0b10101 => Code::SveLsrrZpzz,
                _ => Code::SveLslrZpzz,
            };
            install4(out, code, mnemonic_of(code), zreg(zdn, a), preg_q(pg, PredQual::Merging), zreg(zdn, a), zreg(zm, a));
        }
        // Wide-element shifts (predicated): `op <Zdn>.<T>, <Pg>/M, <Zdn>.<T>,
        // <Zm>.D`; `.d` destination elements are reserved.
        0b11000 | 0b11001 | 0b11011 => {
            if size == 3 {
                return;
            }
            let code = match opc {
                0b11000 => Code::SveAsrWidePred,
                0b11001 => Code::SveLsrWidePred,
                _ => Code::SveLslWidePred,
            };
            install4(out, code, mnemonic_of(code), zreg(zdn, a), preg_q(pg, PredQual::Merging), zreg(zdn, a), zreg(zm, VA::Sd));
        }
        _ => {}
    }
}

/// The code of a unary predicated operation `<19:16>` at element size
/// `size`, or `None`: an extend needs a destination element wider than the
/// extended width; `1100`/`1101` are the floating-point FABS/FNEG.
pub open spec fn unary_pred_code(op4: u32, size: u32) -> Option<Code> {
    if op4 == 0b0000 && size >= 1 {
        Some(Code::SveSxtbZpz)
    } else if op4 == 0b0001 && size >= 1 {
        Some(Code::SveUxtbZpz)
    } else if op4 == 0b0010 && size >= 2 {
        Some(Code::SveSxthZpz)
    } else if op4 == 0b0011 && size >= 2 {
        Some(Code::SveUxthZpz)
    } else if op4 == 0b0100 && size == 3 {
        Some(Code::SveSxtwZpz)
    } else if op4 == 0b0101 && size == 3 {
        Some(Code::SveUxtwZpz)
    } else if op4 == 0b0110 {
        Some(Code::SveAbsZpz)
    } else if op4 == 0b0111 {
        Some(Code::SveNegZpz)
    } else if op4 == 0b1000 {
        Some(Code::SveClsZpz)
    } else if op4 == 0b1001 {
        Some(Code::SveClzZpz)
    } else if op4 == 0b1010 {
        Some(Code::SveCntZpz)
    } else if op4 == 0b1011 {
        Some(Code::SveCnotZpz)
    } else if op4 == 0b1110 {
        Some(Code::SveNotZpz)
    } else {
        None
    }
}

/// The instruction a unary predicated word (`<21>=0`, `<15:13>=101`)
/// encodes, or `None`: `<Zd>.<T>, <Pg>/<M|Z>, <Zn>.<T>`, merging when
/// `<20>` is set.
pub open spec fn unary_pred_form(word: u32) -> Option<(Code, Mnemonic, Seq<Operand>)> {
    let size = field(word, 22, 2);
    let a = arr_spec(size);
    match unary_pred_code(field(word, 16, 4), size) {
        Some(c) => insn(c, seq![
            zreg_spec(field(word, 0, 5), a),
            preg_q_spec(field(word, 10, 3), if field(word, 20, 1) == 1 { PredQual::Merging } else { PredQual::Zeroing }),
            zreg_spec(field(word, 5, 5), a),
        ]),
        None => None,
    }
}

/// Unary predicated (`<21>=0`, `<15:13>=101`): ABS/NEG/CNT/CLS/CLZ/CNOT/NOT/
/// SXTB../UXTB.. — `op <Zd>.<T>, <Pg>/<M|Z>, <Zn>.<T>`. The operation is the
/// 4-bit `word<19:16>`; `word<20>` selects the merging (`/m`, base SVE) vs the
/// zeroing (`/z`, FEAT_SVE2p1) predicate form. Extend forms require the
/// destination element to be wider than the extended width (else unallocated).
fn decode_unary_pred(word: u32, out: &mut Instruction)
    requires
        old(out).is_blank(),
    ensures
        decode_post(*old(out), *final(out)),
        yields(*old(out), *final(out), unary_pred_form(word)),
{
    let size: u32 = bits(word, 22, 2);
    let op4: u32 = bits(word, 16, 4); // word<19:16>: operation selector
    let merging = bit(word, 20) == 1; // <20>: 1 = /m (SVE), 0 = /z (SVE2.1)
    let pg: u32 = bits(word, 10, 3);
    let zn: u32 = bits(word, 5, 5);
    let zd: u32 = bits(word, 0, 5);
    let a = arr(size);
    let code = if op4 == 0b0000 && size >= 1 {
        Code::SveSxtbZpz
    } else if op4 == 0b0001 && size >= 1 {
        Code::SveUxtbZpz
    } else if op4 == 0b0010 && size >= 2 {
        Code::SveSxthZpz
    } else if op4 == 0b0011 && size >= 2 {
        Code::SveUxthZpz
    } else if op4 == 0b0100 && size == 3 {
        Code::SveSxtwZpz
    } else if op4 == 0b0101 && size == 3 {
        Code::SveUxtwZpz
    } else if op4 == 0b0110 {
        Code::SveAbsZpz
    } else if op4 == 0b0111 {
        Code::SveNegZpz
    } else if op4 == 0b1000 {
        Code::SveClsZpz
    } else if op4 == 0b1001 {
        Code::SveClzZpz
    } else if op4 == 0b1010 {
        Code::SveCntZpz
    } else if op4 == 0b1011 {
        Code::SveCnotZpz
    } else if op4 == 0b1110 {
        Code::SveNotZpz
    } else {
        // FABS/FNEG (1100/1101) live here too but belong to the floating-point
        // decoder; everything else (incl. illegal extend sizes) is unallocated.
        return;
    };
    let q = if merging { PredQual::Merging } else { PredQual::Zeroing };
    install3(out, code, mnemonic_of(code), zreg(zd, a), preg_q(pg, q), zreg(zn, a));
}


/// The SVE2 predicated halving add / subtract (`0x44`, `<21:19>=010`,
/// `<15:13>=100`): `<18:16>` selects SHADD, UHADD, SHSUB, UHSUB, SRHADD,
/// URHADD, SHSUBR, UHSUBR in that order, so `<16>` is the signedness: clear
/// gives a signed (`S*`) operation, set an unsigned (`U*`) one.
pub proof fn lemma_halving_signedness(word: u32, features: FeatureSet)
    requires
        field(word, 24, 8) == 0x44,
        field(word, 21, 1) == 0,
        field(word, 19, 3) == 0b010,
        field(word, 13, 3) == 0b100,
    ensures
        int_form(word, features) matches Some(f) && f.0 == Code::SveHalvingZpzz && f.1 == match field(word, 16, 3) {
            0 => Mnemonic::Shadd,
            1 => Mnemonic::Uhadd,
            2 => Mnemonic::Shsub,
            3 => Mnemonic::Uhsub,
            4 => Mnemonic::Srhadd,
            5 => Mnemonic::Urhadd,
            6 => Mnemonic::Shsubr,
            _ => Mnemonic::Uhsubr,
        },
        int_form(word, features) matches Some(f) && (field(word, 16, 1) == 0 <==> (f.1 == Mnemonic::Shadd || f.1
            == Mnemonic::Shsub || f.1 == Mnemonic::Srhadd || f.1 == Mnemonic::Shsubr)),
{
    crate::bits::lemma_field3_bits(word, 13);
    crate::bits::lemma_field3_bits(word, 16);
}

} // verus!
