use vstd::prelude::*;
use crate::bits::{bit, bits, bits64, field, field64, low_mask, sext_spec, sign_extend};
use crate::code::{Code, Mnemonic};
use crate::decode::{decode_post, insn, install0, install1_as, install2_as, install3, install4, installed, mnemonic_of, pushed, yields};
use crate::decode::ops::{reg_op, arr, arr_spec, gpr, gpr_spec, gpr_sp, gpr_sp_spec, preg, preg_q, preg_q_spec, preg_spec, preg_sz, preg_sz_spec, scalar_fp, scalar_fp_spec, va_neon, va_neon_spec, vreg, vreg_spec, zidx, zidx_spec, zlist1, zlist1_spec, zlist2, zlist2_spec, zreg, zreg_idx, zreg_idx_spec, zreg_q, zreg_q_spec, zreg_spec};
use crate::features::{Feature, FeatureSet};
use crate::instruction::{Instruction, MAX_OPERANDS};
use crate::operand::{FpConst, Operand};
use crate::types::{gp_register, gp_spec, reg_of, ExtendType, PredQual, RegKind, RegWidth, Register, SveMemMode, VectorArrangement as VA};
verus! {
// ---------------------------------------------------------------------------
// Small operand constructors.
// ---------------------------------------------------------------------------


// ---------------------------------------------------------------------------
// Top-level entry.
// ---------------------------------------------------------------------------

/// Decode an SVE permute / predicate / compare instruction into `out`.
///
/// Dispatches on `word<31:24>` (the SVE top byte). Total and panic-free; leaves
/// `out` [`Code::Invalid`] for anything it does not own (so the caller's earlier
/// `sve_int` result, if any, is preserved by the `is_invalid` guard in the family
/// dispatcher).
pub fn decode(word: u32, ip: u64, features: FeatureSet, out: &mut Instruction)
    requires
        features.contains(Feature::Sve) ==> old(out).is_blank(),
    ensures
        features.contains(Feature::Sve) ==> decode_post(*old(out), *final(out)),
        !features.contains(Feature::Sve) ==> *final(out) == *old(out),
        features.contains(Feature::Sve) && field(word, 24, 8) == 0x05 ==> yields(*old(out), *final(out), perm_form(word, features)),
        features.contains(Feature::Sve) && field(word, 24, 8) == 0x25 ==> yields(*old(out), *final(out), pred25_form(word, features)),
        field(word, 24, 8) != 0x05 && field(word, 24, 8) != 0x25 ==> *final(out) == *old(out),
{
    let _ = ip;
    if !features.has(Feature::Sve) {
        return;
    }
    match bits(word, 24, 8) {
        // 0x05: SVE permute (vector + predicate), unpack, splice, ext, tbl, rev,
        //       clast/last, compact (quadrant 000).
        0x05 => decode_perm(word, features, out),
        // 0x25: predicate logical / generation / FFR / break, WHILE, CTERM, and
        //       the predicate-indexed DUP (quadrant 001).
        0x25 => decode_pred(word, features, out),
        _ => {}
    }
}

/// `zero` when the bit `b` is clear, `one` when it is set.
pub open spec fn pick(b: u32, zero: Mnemonic, one: Mnemonic) -> Mnemonic {
    if b == 0 {
        zero
    } else {
        one
    }
}

fn pick_mn(b: u32, zero: Mnemonic, one: Mnemonic) -> (m: Mnemonic)
    ensures
        m == pick(b, zero, one),
{
    if b == 0 {
        zero
    } else {
        one
    }
}

/// `ZIP1`, `ZIP2`, `UZP1`, `UZP2`, `TRN1`, `TRN2` for `sel` 0 to 5.
pub open spec fn zip_mnemonic(sel: u32) -> Mnemonic {
    if sel == 0 {
        Mnemonic::Zip1
    } else if sel == 1 {
        Mnemonic::Zip2
    } else if sel == 2 {
        Mnemonic::Uzp1
    } else if sel == 3 {
        Mnemonic::Uzp2
    } else if sel == 4 {
        Mnemonic::Trn1
    } else {
        Mnemonic::Trn2
    }
}

fn zip_mn(sel: u32) -> (m: Mnemonic)
    ensures
        m == zip_mnemonic(sel),
{
    match sel {
        0 => Mnemonic::Zip1,
        1 => Mnemonic::Zip2,
        2 => Mnemonic::Uzp1,
        3 => Mnemonic::Uzp2,
        4 => Mnemonic::Trn1,
        _ => Mnemonic::Trn2,
    }
}

/// `Zd.<T>, Zn.<T>, Zm.<T>` with one arrangement.
pub open spec fn zzz_same(zd: u32, zn: u32, zm: u32, a: VA) -> Seq<Operand> {
    seq![zreg_spec(zd, a), zreg_spec(zn, a), zreg_spec(zm, a)]
}

/// The half-width source arrangement of an unpack (`size` 1 to 3).
pub open spec fn unpk_src(size: u32) -> Option<VA> {
    if size == 1 {
        Some(VA::Sb)
    } else if size == 2 {
        Some(VA::Sh)
    } else if size == 3 {
        Some(VA::Ss)
    } else {
        None
    }
}

/// The 128-bit `.Q` permutes: `size == 10`, `<21>=1`, family `<12:11>` one
/// of `00` (ZIP), `01` (UZP), `11` (TRN).
pub open spec fn is_q_perm_spec(word: u32) -> bool {
    let fam = field(word, 11, 2);
    field(word, 22, 2) == 0b10 && field(word, 21, 1) == 1 && (fam == 0 || fam == 1 || fam == 3)
}

/// The EXT immediate `imm8h:imm8l` (`<20:16>:<12:10>`).
pub open spec fn ext_imm(word: u32) -> Operand {
    Operand::ImmUnsigned((field(word, 16, 5) * 8 + field(word, 10, 3)) as u64)
}

/// The instruction a top-byte `0x05` predicate permute word (`<15:13>=010`)
/// encodes, or `None`.
pub open spec fn pred_perm_form(word: u32) -> Option<(Code, Mnemonic, Seq<Operand>)> {
    let size = field(word, 22, 2);
    let a = arr_spec(size);
    let pn = field(word, 5, 4);
    let pd = field(word, 0, 4);
    if field(word, 4, 1) != 0 || field(word, 9, 1) != 0 {
        None
    } else if field(word, 20, 1) == 0 {
        let sel = field(word, 10, 3);
        if sel >= 6 {
            None
        } else {
            Some((
                Code::SveZipUzpTrnPpp,
                zip_mnemonic(sel),
                seq![preg_sz_spec(pd, a), preg_sz_spec(pn, a), preg_sz_spec(field(word, 16, 4), a)],
            ))
        }
    } else if field(word, 10, 3) != 0 {
        None
    } else if field(word, 16, 5) == 0b10100 {
        Some((Code::SveRevP, Mnemonic::Rev, seq![preg_sz_spec(pd, a), preg_sz_spec(pn, a)]))
    } else if field(word, 17, 4) == 0b1000 && size == 0 {
        Some((
            Code::SvePunpk,
            pick(field(word, 16, 1), Mnemonic::Punpklo, Mnemonic::Punpkhi),
            seq![preg_sz_spec(pd, VA::Sh), preg_sz_spec(pn, VA::Sb)],
        ))
    } else {
        None
    }
}

/// The instruction a top-byte `0x05` COMPACT / SPLICE / CLAST / LAST / REV*
/// word (`<15:13>` = `100` or `101`) encodes, or `None`.
pub open spec fn perm_misc_form(word: u32, features: FeatureSet) -> Option<(Code, Mnemonic, Seq<Operand>)> {
    let size = field(word, 22, 2);
    let a = arr_spec(size);
    let op = field(word, 16, 5);
    let pg = field(word, 10, 3);
    let s1 = field(word, 5, 5);
    let d = field(word, 0, 5);
    let b = field(word, 16, 1);
    let w = if size == 3 { RegWidth::X64 } else { RegWidth::W32 };
    if field(word, 13, 3) == 0b101 {
        if op == 0b10000 || op == 0b10001 {
            Some((
                Code::SveClastR,
                pick(b, Mnemonic::Clasta, Mnemonic::Clastb),
                seq![gpr_spec(d, w), preg_spec(pg), gpr_spec(d, w), zreg_spec(s1, a)],
            ))
        } else if op == 0 || op == 1 {
            Some((Code::SveLastR, pick(b, Mnemonic::Lasta, Mnemonic::Lastb), seq![gpr_spec(d, w), preg_spec(pg), zreg_spec(s1, a)]))
        } else if op == 0b01110 && size == 0 && field(word, 21, 1) == 1 && features.contains(Feature::Sve2p1) {
            Some((
                Code::SveRevdZpzZero,
                Mnemonic::Revd,
                seq![zreg_q_spec(d), preg_q_spec(pg, PredQual::Zeroing), zreg_q_spec(s1)],
            ))
        } else {
            None
        }
    } else if op == 0b00001 {
        let ca = if field(word, 22, 1) == 0 { VA::Ss } else { VA::Sd };
        Some((Code::SveCompact, Mnemonic::Compact, seq![zreg_spec(d, ca), preg_spec(pg), zreg_spec(s1, ca)]))
    } else if op == 0b01100 {
        Some((Code::SveSpliceDes, Mnemonic::Splice, seq![zreg_spec(d, a), preg_spec(pg), zreg_spec(d, a), zreg_spec(s1, a)]))
    } else if op == 0b01101 {
        Some((Code::SveSpliceCon, Mnemonic::Splice, seq![zreg_spec(d, a), preg_spec(pg), zlist2_spec(s1, a)]))
    } else if op == 0b01000 || op == 0b01001 {
        Some((
            Code::SveClastZ,
            pick(b, Mnemonic::Clasta, Mnemonic::Clastb),
            seq![zreg_spec(d, a), preg_spec(pg), zreg_spec(d, a), zreg_spec(s1, a)],
        ))
    } else if op == 0b01010 || op == 0b01011 {
        Some((
            Code::SveClastV,
            pick(b, Mnemonic::Clasta, Mnemonic::Clastb),
            seq![scalar_fp_spec(d, size), preg_spec(pg), scalar_fp_spec(d, size), zreg_spec(s1, a)],
        ))
    } else if op == 0b00010 || op == 0b00011 {
        Some((Code::SveLastV, pick(b, Mnemonic::Lasta, Mnemonic::Lastb), seq![scalar_fp_spec(d, size), preg_spec(pg), zreg_spec(s1, a)]))
    } else if 0b00100 <= op && op <= 0b00110 {
        if size < op - 3 {
            None
        } else {
            Some((
                Code::SveRevbhw,
                if op == 0b00100 { Mnemonic::Revb } else if op == 0b00101 { Mnemonic::Revh } else { Mnemonic::Revw },
                seq![zreg_spec(d, a), preg_q_spec(pg, PredQual::Merging), zreg_spec(s1, a)],
            ))
        }
    } else if op == 0b01110 {
        if size != 0 || field(word, 21, 1) != 1 {
            None
        } else {
            Some((Code::RevdZPZ, Mnemonic::Revd, seq![zreg_q_spec(d), preg_q_spec(pg, PredQual::Merging), zreg_q_spec(s1)]))
        }
    } else {
        None
    }
}

/// `#imm` of an EXT word: `imm8h:imm8l` (`<20:16>:<12:10>`).
fn ext_imm_of(word: u32) -> (r: Operand)
    ensures
        r == ext_imm(word),
{
    Operand::ImmUnsigned((bits(word, 16, 5) * 8 + bits(word, 10, 3)) as u64)
}

/// EXT (destructive): `EXT <Zdn>.B, <Zdn>.B, <Zm>.B, #imm`.
fn decode_ext_des(word: u32, out: &mut Instruction)
    requires
        old(out).is_blank(),
    ensures
        decode_post(*old(out), *final(out)),
        installed(
            *old(out),
            *final(out),
            Code::SveExtDes,
            Mnemonic::Ext,
            seq![zreg_spec(field(word, 0, 5), VA::Sb), zreg_spec(field(word, 0, 5), VA::Sb), zreg_spec(field(word, 5, 5), VA::Sb), ext_imm(word)],
        ),
{
    let zm: u32 = bits(word, 5, 5);
    let zdn: u32 = bits(word, 0, 5);
    install4(out, Code::SveExtDes, Mnemonic::Ext, zreg(zdn, VA::Sb), zreg(zdn, VA::Sb), zreg(zm, VA::Sb), ext_imm_of(word));
}

/// EXT (constructive): `EXT <Zd>.B, { <Zn1>.B, <Zn2>.B }, #imm`, written with
/// an extra `z0.b` operand between the register pair and the immediate.
fn decode_ext_con(word: u32, out: &mut Instruction)
    requires
        old(out).is_blank(),
    ensures
        decode_post(*old(out), *final(out)),
        installed(
            *old(out),
            *final(out),
            Code::SveExtCon,
            Mnemonic::Ext,
            seq![zreg_spec(field(word, 0, 5), VA::Sb), zlist2_spec(field(word, 5, 5), VA::Sb), zreg_spec(0, VA::Sb), ext_imm(word)],
        ),
{
    let zn: u32 = bits(word, 5, 5);
    let zd: u32 = bits(word, 0, 5);
    install4(out, Code::SveExtCon, Mnemonic::Ext, zreg(zd, VA::Sb), zlist2(zn, VA::Sb), zreg(0, VA::Sb), ext_imm_of(word));
}

/// Every permute instruction the specification describes has a code.
pub proof fn lemma_perm_form(word: u32, features: FeatureSet)
    ensures
        perm_form(word, features) matches Some(f) ==> f.0 != Code::Invalid,
        pred25_form(word, features) matches Some(f) ==> f.0 != Code::Invalid,
{
    assert(pred_gen_form(word) matches Some(f) ==> f.0 != Code::Invalid);
    assert(psel_form(word) matches Some(f) ==> f.0 != Code::Invalid);
    assert(pred_logical_form(word) matches Some(f) ==> f.0 != Code::Invalid);
}

/// The instruction a top-byte `0x05` permute word encodes, or `None`.
pub open spec fn perm_form(word: u32, features: FeatureSet) -> Option<(Code, Mnemonic, Seq<Operand>)> {
    let size = field(word, 22, 2);
    let a = arr_spec(size);
    let op = field(word, 13, 3);
    let b21 = field(word, 21, 1);
    let zm = field(word, 16, 5);
    let zn = field(word, 5, 5);
    let zd = field(word, 0, 5);
    if op == 0b011 && b21 == 1 {
        let sel = field(word, 10, 3);
        if sel >= 6 {
            None
        } else {
            Some((Code::SveZipUzpTrnZzz, zip_mnemonic(sel), zzz_same(zd, zn, zm, a)))
        }
    } else if op == 0b001 && b21 == 1 {
        let f = field(word, 10, 6);
        if f == 0b001100 {
            Some((Code::SveTbl, Mnemonic::Tbl, seq![zreg_spec(zd, a), zlist1_spec(zn, a), zreg_spec(zm, a)]))
        } else if f == 0b001010 {
            Some((Code::SveTbl2, Mnemonic::Tbl, seq![zreg_spec(zd, a), zlist2_spec(zn, a), zreg_spec(zm, a)]))
        } else if f == 0b001011 {
            Some((Code::SveTbx, Mnemonic::Tbx, zzz_same(zd, zn, zm, a)))
        } else if f == 0b001101 {
            Some((Code::SveTbxq, Mnemonic::Tbxq, zzz_same(zd, zn, zm, a)))
        } else if f == 0b001110 {
            if zm == 0b11000 {
                Some((Code::SveRevZz, Mnemonic::Rev, seq![zreg_spec(zd, a), zreg_spec(zn, a)]))
            } else if field(word, 18, 3) == 0b100 {
                match unpk_src(size) {
                    Some(src) => Some((
                        Code::SveUnpk,
                        pick(
                            field(word, 17, 1),
                            pick(field(word, 16, 1), Mnemonic::Sunpklo, Mnemonic::Sunpkhi),
                            pick(field(word, 16, 1), Mnemonic::Uunpklo, Mnemonic::Uunpkhi),
                        ),
                        seq![zreg_spec(zd, a), zreg_spec(zn, src)],
                    )),
                    None => None,
                }
            } else {
                None
            }
        } else {
            None
        }
    } else if op == 0b000 {
        if is_q_perm_spec(word) {
            let fam = field(word, 11, 2);
            Some((
                Code::SveZipUzpTrnQ,
                zip_mnemonic(if fam == 3 { 4 + field(word, 10, 1) } else { fam * 2 + field(word, 10, 1) } as u32),
                seq![zreg_q_spec(zd), zreg_q_spec(zn), zreg_q_spec(zm)],
            ))
        } else if field(word, 23, 1) != 0 || b21 != 1 {
            None
        } else if field(word, 22, 1) == 0 {
            Some((Code::SveExtDes, Mnemonic::Ext, seq![zreg_spec(zd, VA::Sb), zreg_spec(zd, VA::Sb), zreg_spec(zn, VA::Sb), ext_imm(word)]))
        } else {
            Some((
                Code::SveExtCon,
                Mnemonic::Ext,
                seq![zreg_spec(zd, VA::Sb), zlist2_spec(zn, VA::Sb), zreg_spec(0, VA::Sb), ext_imm(word)],
            ))
        }
    } else if op == 0b010 && b21 == 1 {
        pred_perm_form(word)
    } else if (op == 0b100 || op == 0b101) && b21 == 1 {
        perm_misc_form(word, features)
    } else {
        None
    }
}

// ===========================================================================
// Top byte 0x05 — SVE permute family.
// ===========================================================================

fn decode_perm(word: u32, features: FeatureSet, out: &mut Instruction)
    requires
        old(out).is_blank(),
    ensures
        decode_post(*old(out), *final(out)),
        yields(*old(out), *final(out), perm_form(word, features)),
{
    let size: u32 = bits(word, 22, 2);
    let a = arr(size);
    let op: u32 = bits(word, 13, 3); // word<15:13>
    let b21: u32 = bit(word, 21);
    let zm: u32 = bits(word, 16, 5);
    let zn: u32 = bits(word, 5, 5);
    let zd: u32 = bits(word, 0, 5);
    if op == 0b011 && b21 == 1 {
        // ZIP/UZP/TRN element-size permute: `<15:10>=0110xx`, `<12:10>` selects op.
        // Like the TBL/REV leaf below, every member fixes `<21>=1`; words with
        // `<21>=0` belong to the CPY-imm / logical-immediate / EXT regions that
        // `sve_int` owns (a `<21>=0` word here is a reserved CPY-imm slot, e.g.
        // `05156075`, that must stay Invalid rather than mis-decode as `ZIP1`).
        let sel: u32 = bits(word, 10, 3);
        if sel >= 6 {
            return;
        }
        install3(out, Code::SveZipUzpTrnZzz, zip_mn(sel), zreg(zd, a), zreg(zn, a), zreg(zm, a));
    } else if op == 0b001 && b21 == 1 {
        // `<15:13>=001`: TBL/TBX (`<15:11>=00110`/`00101`), TBXQ (`001101`),
        // REV (vector), SUNPK/UUNPK (`<15:10>=001110`). Every member of this leaf
        // fixes `<21>=1`; words with `<21>=0` are not part of this family (they
        // belong to the logical-immediate / EXT regions handled by `sve_int`).
        let f: u32 = bits(word, 10, 6);
        if f == 0b001100 {
            // TBL single-table.
            install3(out, Code::SveTbl, Mnemonic::Tbl, zreg(zd, a), zlist1(zn, a), zreg(zm, a));
        } else if f == 0b001010 {
            // TBL two-table (`<15:11>=00101`, `<10>=0`).
            install3(out, Code::SveTbl2, Mnemonic::Tbl, zreg(zd, a), zlist2(zn, a), zreg(zm, a));
        } else if f == 0b001011 {
            // TBX (`<10>=1`).
            install3(out, Code::SveTbx, Mnemonic::Tbx, zreg(zd, a), zreg(zn, a), zreg(zm, a));
        } else if f == 0b001101 {
            // TBXQ (SVE2.1 128-bit-segment table lookup with base).
            install3(out, Code::SveTbxq, Mnemonic::Tbxq, zreg(zd, a), zreg(zn, a), zreg(zm, a));
        } else if f == 0b001110 {
            // REV (vector) and SUNPK/UUNPK, distinguished by `<20:16>`
            // (REV=11000, unpack=100UH).
            if zm == 0b11000 {
                install2_as(out, Code::SveRevZz, Mnemonic::Rev, zreg(zd, a), zreg(zn, a));
            } else if bits(word, 18, 3) == 0b100 {
                // SUNPK/UUNPK: U=<17>, H=<16>. Source is half-width.
                let src = match size {
                    1 => VA::Sb,
                    2 => VA::Sh,
                    3 => VA::Ss,
                    _ => return,
                };
                let h: u32 = bit(word, 16);
                let mnem = pick_mn(bit(word, 17), pick_mn(h, Mnemonic::Sunpklo, Mnemonic::Sunpkhi), pick_mn(h, Mnemonic::Uunpklo, Mnemonic::Uunpkhi));
                install2_as(out, Code::SveUnpk, mnem, zreg(zd, a), zreg(zn, src));
            }
        }
    } else if op == 0b000 {
        // `<15:13>=000`: the 128-bit `.Q` permutes (`<23:22>=10`, `<12:11>`
        // family, `<10>=H`) and EXT.
        if is_q_perm(word) {
            let fam: u32 = bits(word, 11, 2);
            let h: u32 = bit(word, 10);
            let sel: u32 = if fam == 3 { 4 + h } else { fam * 2 + h };
            install3(out, Code::SveZipUzpTrnQ, zip_mn(sel), zreg_q(zd), zreg_q(zn), zreg_q(zm));
            return;
        }
        // EXT: `<23:21>` is `001` (destructive) or `011` (constructive) — i.e.
        // `<23> == 0` and `<21> == 1`, with `<22>` selecting des(0)/con(1). The
        // `<23> == 1` slots (e.g. `05AF14C1`) and the `<21> == 0` slots (e.g.
        // `050007E1`) are UNDEFINED; the valid `<21> == 0` logical-immediate /
        // CPY-imm words are claimed by `sve_int` before this fallback runs.
        if bit(word, 23) != 0 || b21 != 1 {
            return;
        }
        if bit(word, 22) == 0 {
            decode_ext_des(word, out);
        } else {
            decode_ext_con(word, out);
        }
    } else if op == 0b010 && b21 == 1 {
        // `<15:13>=010`: predicate permute (ZIP/UZP/TRN/REV predicate, PUNPK).
        // Every member fixes `<21>=1`; a `<21>=0` word here is a reserved
        // logical-immediate slot (e.g. `050055E0`).
        decode_pred_perm(word, out);
    } else if (op == 0b100 || op == 0b101) && b21 == 1 {
        // `<15:13>=100` / `101`: COMPACT, SPLICE, CLAST/LAST, REVB/H/W, REVD.
        // These also fix `<21>=1`; a `<21>=0` word is a reserved logical-immediate
        // / LAST*-to-GP slot (e.g. `0500A7AE`).
        decode_perm_misc(word, features, out);
    }
}

/// `true` when the `<15:13>=000` word is a 128-bit `.Q` ZIP/UZP/TRN permute
/// (`<23:22>=10`, `<21>=1`, `<12:11>` in {00,01,11}).
fn is_q_perm(word: u32) -> (r: bool)
    ensures
        r == is_q_perm_spec(word),
{
    let fam: u32 = bits(word, 11, 2);
    bits(word, 22, 2) == 0b10 && bit(word, 21) == 1 && (fam == 0 || fam == 1 || fam == 3)
}

/// Predicate permute (`<15:13>=010`): ZIP/UZP/TRN predicate (`<20>=0`, Pm present)
/// and the unary REV (predicate) / PUNPK{HI,LO} (`<20>=1`).
fn decode_pred_perm(word: u32, out: &mut Instruction)
    requires
        old(out).is_blank(),
    ensures
        decode_post(*old(out), *final(out)),
        yields(*old(out), *final(out), pred_perm_form(word)),
{
    let size: u32 = bits(word, 22, 2);
    let a = arr(size);
    let pn: u32 = bits(word, 5, 4);
    let pd: u32 = bits(word, 0, 4);
    if bit(word, 4) != 0 || bit(word, 9) != 0 {
        return;
    }
    if bit(word, 20) == 0 {
        // ZIP/UZP/TRN predicate: `<12:10>` selects the op.
        let sel: u32 = bits(word, 10, 3);
        if sel >= 6 {
            return;
        }
        install3(out, Code::SveZipUzpTrnPpp, zip_mn(sel), preg_sz(pd, a), preg_sz(pn, a), preg_sz(bits(word, 16, 4), a));
        return;
    }
    // `<20>=1`: REV (predicate) `<20:16>=10100`, PUNPK `<20:16>=1000H`. Both are
    // unary (no `Pm`) and fix `<12:10>=000`; a non-zero `<12:10>` is reserved
    // (e.g. `05744501` next to `05744101 rev p1.h,p8.h` is unallocated).
    if bits(word, 10, 3) != 0 {
        return;
    }
    if bits(word, 16, 5) == 0b10100 {
        install2_as(out, Code::SveRevP, Mnemonic::Rev, preg_sz(pd, a), preg_sz(pn, a));
    } else if bits(word, 17, 4) == 0b1000 && size == 0 {
        // PUNPKHI/LO: H=<16>. Dest `.H`, source `.B`.
        let mnem = pick_mn(bit(word, 16), Mnemonic::Punpklo, Mnemonic::Punpkhi);
        install2_as(out, Code::SvePunpk, mnem, preg_sz(pd, VA::Sh), preg_sz(pn, VA::Sb));
    }
}

/// COMPACT / SPLICE / CLAST / LAST / REVB / REVH / REVW / REVD
/// (`<15:13>=100` or `101`). All carry a governing predicate `<12:10>` and a
/// distinguishing `<20:16>` opcode.
fn decode_perm_misc(word: u32, features: FeatureSet, out: &mut Instruction)
    requires
        old(out).is_blank(),
    ensures
        decode_post(*old(out), *final(out)),
        yields(*old(out), *final(out), perm_misc_form(word, features)),
{
    let size: u32 = bits(word, 22, 2);
    let a = arr(size);
    let op: u32 = bits(word, 16, 5);
    let pg: u32 = bits(word, 10, 3);
    let s1: u32 = bits(word, 5, 5);
    let d: u32 = bits(word, 0, 5);
    let b: u32 = bit(word, 16);
    let w = if size == 3 { RegWidth::X64 } else { RegWidth::W32 };
    if bits(word, 13, 3) == 0b101 {
        // `<15:13>=101` group: CLASTA/B and LASTA/B to a GP register, REVD /z.
        if op == 0b10000 || op == 0b10001 {
            // CLASTA/CLASTB to GP register: `<20:16>=1000 B`.
            install4(out, Code::SveClastR, pick_mn(b, Mnemonic::Clasta, Mnemonic::Clastb), gpr(d, w), preg(pg), gpr(d, w), zreg(s1, a));
        } else if op == 0 || op == 1 {
            // LASTA/LASTB to GP register: `<20:16>=0000 B`.
            install3(out, Code::SveLastR, pick_mn(b, Mnemonic::Lasta, Mnemonic::Lastb), gpr(d, w), preg(pg), zreg(s1, a));
        } else if op == 0b01110 && size == 0 && bit(word, 21) == 1 && features.has(Feature::Sve2p1) {
            // REVD zeroing (`/z`, FEAT_SVE2p1): the `<15:13>=101` sibling of
            // the merging form below.
            install3(out, Code::SveRevdZpzZero, Mnemonic::Revd, zreg_q(d), preg_q(pg, PredQual::Zeroing), zreg_q(s1));
        }
        return;
    }
    // `<15:13>=100` group.
    if op == 0b00001 {
        // COMPACT: `<20:16>=00001`, size in `<22>` (.s/.d).
        let ca = if bit(word, 22) == 0 { VA::Ss } else { VA::Sd };
        install3(out, Code::SveCompact, Mnemonic::Compact, zreg(d, ca), preg(pg), zreg(s1, ca));
    } else if op == 0b01100 {
        // SPLICE destructive: `<20:16>=01100`.
        install4(out, Code::SveSpliceDes, Mnemonic::Splice, zreg(d, a), preg(pg), zreg(d, a), zreg(s1, a));
    } else if op == 0b01101 {
        // SPLICE constructive (2-list): `<20:16>=01101`.
        install3(out, Code::SveSpliceCon, Mnemonic::Splice, zreg(d, a), preg(pg), zlist2(s1, a));
    } else if op == 0b01000 || op == 0b01001 {
        // CLASTA/CLASTB to vector (destructive): `<20:16>=01000 B`.
        install4(out, Code::SveClastZ, pick_mn(b, Mnemonic::Clasta, Mnemonic::Clastb), zreg(d, a), preg(pg), zreg(d, a), zreg(s1, a));
    } else if op == 0b01010 || op == 0b01011 {
        // CLASTA/CLASTB to SIMD scalar: `<20:16>=01010 B`.
        install4(out, Code::SveClastV, pick_mn(b, Mnemonic::Clasta, Mnemonic::Clastb), scalar_fp(d, size), preg(pg), scalar_fp(d, size), zreg(s1, a));
    } else if op == 0b00010 || op == 0b00011 {
        // LASTA/LASTB to SIMD scalar: `<20:16>=00010 B`.
        install3(out, Code::SveLastV, pick_mn(b, Mnemonic::Lasta, Mnemonic::Lastb), scalar_fp(d, size), preg(pg), zreg(s1, a));
    } else if 0b00100 <= op && op <= 0b00110 {
        // REVB/REVH/REVW (predicated): `<20:16>=00100/00101/00110`; the
        // element must be wider than the reversed unit.
        if size < op - 3 {
            return;
        }
        let mnem = if op == 0b00100 { Mnemonic::Revb } else if op == 0b00101 { Mnemonic::Revh } else { Mnemonic::Revw };
        install3(out, Code::SveRevbhw, mnem, zreg(d, a), preg_q(pg, PredQual::Merging), zreg(s1, a));
    } else if op == 0b01110 {
        // REVD merging (`/m`, `.Q`): `<21>=1`, `<23:22>=00` (size != 00 is
        // UNDEFINED).
        if size != 0 || bit(word, 21) != 1 {
            return;
        }
        install3(out, Code::RevdZPZ, Mnemonic::Revd, zreg_q(d), preg_q(pg, PredQual::Merging), zreg_q(s1));
    }
}




// ===========================================================================
// Top byte 0x25 — predicate logical / generation / FFR / break, WHILE, CTERM.
// ===========================================================================

/// The instruction a top-byte `0x25` predicate word encodes under
/// `features`, or `None`. `<15:14>=00` holds WHILE<cc> (`<13>=0`),
/// WHILERW/WR (`<12:10>=100`) and CTERM; the other values hold the SVE2.1
/// WHILE pair / counter forms (with FEAT_SVE2p1) and then the predicate
/// generation, break, PSEL and logical groups.
pub open spec fn pred25_form(word: u32, features: FeatureSet) -> Option<(Code, Mnemonic, Seq<Operand>)> {
    if field(word, 14, 2) == 0 {
        if field(word, 13, 1) == 0 {
            while_form(word)
        } else if field(word, 10, 3) == 0b100 {
            while_rw_form(word)
        } else {
            cterm_form(word)
        }
    } else if features.contains(Feature::Sve2p1) && while_pair_form(word) is Some {
        while_pair_form(word)
    } else {
        pred_misc_form(word)
    }
}

fn decode_pred(word: u32, features: FeatureSet, out: &mut Instruction)
    requires
        old(out).is_blank(),
    ensures
        decode_post(*old(out), *final(out)),
        yields(*old(out), *final(out), pred25_form(word, features)),
{
    // The predicate region is keyed by `<15:14>`; within `00` the `<13>` bit
    // splits the WHILE<cc>/compare region (0) from CTERM/WHILERW (1).
    if bits(word, 14, 2) == 0b00 {
        if bit(word, 13) == 0 {
            decode_while_dup(word, out);
        } else if bits(word, 10, 3) == 0b100 {
            // WHILERW / WHILEWR: `<15:10>=001100`.
            decode_while_rw(word, out);
        } else {
            // CTERMEQ / CTERMNE: `<15:10>=001000`.
            decode_cterm(word, out);
        }
    } else {
        // 01/10/11: predicate gen/logical/FFR/break/SEL, BRKP, PTRUE/PFALSE/...,
        // and the SVE2.1 WHILE predicate-pair / predicate-as-counter forms (which
        // share `<15:14>=01`, distinguished by `<21:20>=10`, `<15:13>` in {010,011}).
        if features.has(Feature::Sve2p1) {
            decode_while_pair_pn(word, out);
        }
        if out.is_invalid() {
            decode_pred_misc(word, out);
        }
    }
}

/// The WHILE condition from `(U, lt, eq)`.
pub open spec fn while_cond(u: u32, lt: u32, eq: u32) -> Mnemonic {
    if lt == 1 {
        if u == 0 {
            if eq == 0 { Mnemonic::Whilelt } else { Mnemonic::Whilele }
        } else {
            if eq == 0 { Mnemonic::Whilelo } else { Mnemonic::Whilels }
        }
    } else if u == 0 {
        if eq == 0 { Mnemonic::Whilege } else { Mnemonic::Whilegt }
    } else {
        if eq == 1 { Mnemonic::Whilehi } else { Mnemonic::Whilehs }
    }
}

fn while_cond_of(u: u32, lt: u32, eq: u32) -> (m: Mnemonic)
    ensures
        m == while_cond(u, lt, eq),
{
    if lt == 1 {
        if u == 0 {
            if eq == 0 { Mnemonic::Whilelt } else { Mnemonic::Whilele }
        } else {
            if eq == 0 { Mnemonic::Whilelo } else { Mnemonic::Whilels }
        }
    } else if u == 0 {
        if eq == 0 { Mnemonic::Whilege } else { Mnemonic::Whilegt }
    } else {
        if eq == 1 { Mnemonic::Whilehi } else { Mnemonic::Whilehs }
    }
}

/// The predicate pair `{P(first).T, P(first+1).T}`.
pub open spec fn pred_pair_spec(first: u32, a: VA) -> Operand {
    Operand::MultiReg {
        regs: [
            reg_of(RegKind::P, first, 0xf),
            reg_of(RegKind::P, ((first & 0xf) + 1) as u32, 0xf),
            Register { kind: RegKind::Absent, num: 0 },
            Register { kind: RegKind::Absent, num: 0 },
        ],
        count: 2,
        arr: Some(a),
        lane: None,
    }
}

/// The instruction an SVE2.1 WHILE<cc> word with a predicate-pair
/// (`<12>=1`, `<13>=0`) or predicate-as-counter (`<12>=0`) result encodes,
/// or `None`. The skeleton is `<15:13>` in `{010, 011}`, `<21>=1`, `<4>=1`;
/// the pair is `P(2*<3:1>)`, `P(2*<3:1>+1)` and the counter `PN(8+<2:0>)`
/// with `VLx2` (`<13>=0`) or `VLx4`.
pub open spec fn while_pair_form(word: u32) -> Option<(Code, Mnemonic, Seq<Operand>)> {
    let s = field(word, 13, 3);
    let is_pair = field(word, 12, 1) == 1;
    let a = arr_spec(field(word, 22, 2));
    let rn = gpr_spec(field(word, 5, 5), RegWidth::X64);
    let rm = gpr_spec(field(word, 16, 5), RegWidth::X64);
    if (s != 0b010 && s != 0b011) || field(word, 21, 1) != 1 || field(word, 4, 1) != 1 {
        None
    } else if is_pair && field(word, 13, 1) != 0 {
        None
    } else {
        let m = while_cond(field(word, 11, 1), field(word, 10, 1), if is_pair { field(word, 0, 1) } else { field(word, 3, 1) });
        if is_pair {
            Some((Code::SveWhilePair, m, seq![pred_pair_spec((2 * field(word, 1, 3)) as u32 & 0xf, a), rn, rm]))
        } else {
            Some((Code::SveWhilePn, m, seq![
                Operand::PredCounter { reg: reg_of(RegKind::P, (8 + field(word, 0, 3)) as u32, 0xf), zeroing: false, arr: Some(a) },
                rn,
                rm,
                Operand::VlMul(if field(word, 13, 1) == 1 { 4 } else { 2 }),
            ]))
        }
    }
}

/// SVE2.1 `WHILE<cc>` with a predicate-PAIR result (`{Pd.T, Pd+1.T}`) or a
/// predicate-as-counter result (`PNd.T, ..., VLx{2,4}`). Layout (top byte 0x25):
/// `00100101 size 1 Rm 010 ...`, both operands 64-bit X registers.
///
/// * `<12>=1` selects the **predicate-pair** form: condition `(U<11>, lt<10>,
///   eq<0>)`, the result pair is `P(2*<3:1>)`/`P(2*<3:1>+1)` and `<4>=1`.
/// * `<12>=0` selects the **predicate-as-counter** form: condition `(U<11>,
///   lt<10>, eq<3>)`, `<13>` selects `VLx2`(0)/`VLx4`(1), result `PN(8+<2:0>)`
///   and `<4>=1`.
fn decode_while_pair_pn(word: u32, out: &mut Instruction)
    requires
        old(out).is_blank(),
    ensures
        decode_post(*old(out), *final(out)),
        yields(*old(out), *final(out), while_pair_form(word)),
{
    // Skeleton: `<15:13>=010` (pair / counter-x2) or `011` (counter-x4),
    // `<21>=1` (`Rm`-region marker; `<20:16>` is the free `Rm` field), `<4>=1`.
    if bits(word, 13, 3) != 0b010 && bits(word, 13, 3) != 0b011 {
        return;
    }
    if bit(word, 21) != 1 || bit(word, 4) != 1 {
        return;
    }
    let size: u32 = bits(word, 22, 2);
    let a = arr(size);
    let rm: u32 = bits(word, 16, 5);
    let rn: u32 = bits(word, 5, 5);
    let is_pair = bit(word, 12) == 1;
    // `<13>` must be 0 for the pair form (it has no VL multiplier).
    if is_pair && bit(word, 13) != 0 {
        return;
    }
    let eq = if is_pair { bit(word, 0) } else { bit(word, 3) };
    let mnem = while_cond_of(bit(word, 11), bit(word, 10), eq);
    if is_pair {
        // Predicate pair: `{P(2k).T, P(2k+1).T}`, k = <3:1>.
        let k: u32 = bits(word, 1, 3);
        let first = (2 * k) & 0xf;
        install3(out, Code::SveWhilePair, mnem, pred_pair(first, a), gpr(rn, RegWidth::X64), gpr(rm, RegWidth::X64));
    } else {
        // Predicate-as-counter: `PN(8 + <2:0>).T`, with a VLx2/VLx4 multiplier.
        let pn = 8 + bits(word, 0, 3);
        let mul = if bit(word, 13) == 1 { 4 } else { 2 };
        install4(out, Code::SveWhilePn, mnem,
            Operand::PredCounter { reg: Register::p(pn), zeroing: false, arr: Some(a) },
            gpr(rn, RegWidth::X64), gpr(rm, RegWidth::X64), Operand::VlMul(mul));
    }
}

/// A predicate-pair `{P(first).T, P(first+1).T}` rendered via [`Operand::MultiReg`].
fn pred_pair(first: u32, a: VA) -> (r: Operand)
    ensures
        r == pred_pair_spec(first, a),
{
    let f0 = first & 0xf;
    assert(f0 <= 15) by (bit_vector)
        requires
            f0 == first & 0xf,
    ;
    Operand::MultiReg {
        regs: [Register::p(first), Register::p(f0 + 1), Register::none(), Register::none()],
        count: 2,
        arr: Some(a),
        lane: None,
    }
}

/// The instruction a WHILE<cc> word (`<15:13>=000`, `<21>=1`) encodes, or
/// `None`: `<Pd>.<T>, <R><n>, <R><m>` with `<12>=sf` choosing X or W.
pub open spec fn while_form(word: u32) -> Option<(Code, Mnemonic, Seq<Operand>)> {
    let a = arr_spec(field(word, 22, 2));
    let w = if field(word, 12, 1) == 1 { RegWidth::X64 } else { RegWidth::W32 };
    if field(word, 21, 1) != 1 {
        None
    } else {
        Some((Code::SveWhile, while_cond(field(word, 11, 1), field(word, 10, 1), field(word, 4, 1)), seq![
            preg_sz_spec(field(word, 0, 4), a),
            gpr_spec(field(word, 5, 5), w),
            gpr_spec(field(word, 16, 5), w),
        ]))
    }
}

/// WHILE<cc> (`<15:13>=000`, `<21>=1`): `00100101 size 1 Rm 000 sf U lt Rn eq Pd`.
///
/// `sve_int` owns the signed-immediate compares sharing `<15:13>=000` (they have
/// `<21>=0`); the WHILE forms have `<21>=1`. `<12>=sf` selects the GP-register
/// width, `(U<11>, lt<10>, eq<4>)` select the condition.
fn decode_while_dup(word: u32, out: &mut Instruction)
    requires
        old(out).is_blank(),
    ensures
        decode_post(*old(out), *final(out)),
        yields(*old(out), *final(out), while_form(word)),
{
    if bit(word, 21) != 1 {
        return;
    }
    let size: u32 = bits(word, 22, 2);
    let a = arr(size);
    let rm: u32 = bits(word, 16, 5);
    let rn: u32 = bits(word, 5, 5);
    let pd: u32 = bits(word, 0, 4);
    let sf: u32 = bit(word, 12);
    let w = if sf == 1 { RegWidth::X64 } else { RegWidth::W32 };
    let mnem = while_cond_of(bit(word, 11), bit(word, 10), bit(word, 4));
    install3(out, Code::SveWhile, mnem, preg_sz(pd, a), gpr(rn, w), gpr(rm, w));
}

/// The instruction a WHILERW / WHILEWR word encodes, or `None` when
/// `<21>=0`.
pub open spec fn while_rw_form(word: u32) -> Option<(Code, Mnemonic, Seq<Operand>)> {
    if field(word, 21, 1) != 1 {
        None
    } else {
        Some((Code::SveWhileRw, if field(word, 4, 1) == 1 { Mnemonic::Whilerw } else { Mnemonic::Whilewr }, seq![
            preg_sz_spec(field(word, 0, 4), arr_spec(field(word, 22, 2))),
            gpr_spec(field(word, 5, 5), RegWidth::X64),
            gpr_spec(field(word, 16, 5), RegWidth::X64),
        ]))
    }
}

/// WHILERW / WHILEWR (`<15:10>=001100`, `<21>=1`): the address-dependency checks.
/// Both operands are 64-bit X registers; `rw<4>` selects RW(1)/WR(0).
fn decode_while_rw(word: u32, out: &mut Instruction)
    requires
        old(out).is_blank(),
    ensures
        decode_post(*old(out), *final(out)),
        yields(*old(out), *final(out), while_rw_form(word)),
{
    if bit(word, 21) != 1 {
        return;
    }
    let a = arr(bits(word, 22, 2));
    let rm: u32 = bits(word, 16, 5);
    let rn: u32 = bits(word, 5, 5);
    let pd: u32 = bits(word, 0, 4);
    let m = if bit(word, 4) == 1 { Mnemonic::Whilerw } else { Mnemonic::Whilewr };
    install3(out, Code::SveWhileRw, m, preg_sz(pd, a), gpr(rn, RegWidth::X64), gpr(rm, RegWidth::X64));
}

/// The instruction a CTERMEQ / CTERMNE word encodes, or `None` off the
/// skeleton `<15:10>=001000`, `<3:0>=0000`.
pub open spec fn cterm_form(word: u32) -> Option<(Code, Mnemonic, Seq<Operand>)> {
    let w = if field(word, 22, 1) == 1 { RegWidth::X64 } else { RegWidth::W32 };
    if field(word, 10, 6) != 0b001000 || field(word, 0, 4) != 0 {
        None
    } else {
        Some((Code::SveCterm, if field(word, 4, 1) == 0 { Mnemonic::Ctermeq } else { Mnemonic::Ctermne }, seq![
            gpr_spec(field(word, 5, 5), w),
            gpr_spec(field(word, 16, 5), w),
        ]))
    }
}

/// CTERMEQ / CTERMNE: `00100101 1 sz 1 Rm 001000 Rn op 0000`.
///
/// `sz<22>` selects the X (1) vs W (0) operand width; `op<4>` selects EQ(0)/NE(1).
fn decode_cterm(word: u32, out: &mut Instruction)
    requires
        old(out).is_blank(),
    ensures
        decode_post(*old(out), *final(out)),
        yields(*old(out), *final(out), cterm_form(word)),
{
    // Skeleton check: `<15:10>=001000`, `<3:0>=0000`.
    if bits(word, 10, 6) != 0b001000 || bits(word, 0, 4) != 0 {
        return;
    }
    let w = if bit(word, 22) == 1 { RegWidth::X64 } else { RegWidth::W32 };
    let rm: u32 = bits(word, 16, 5);
    let rn: u32 = bits(word, 5, 5);
    let m = if bit(word, 4) == 0 { Mnemonic::Ctermeq } else { Mnemonic::Ctermne };
    install2_as(out, Code::SveCterm, m, gpr(rn, w), gpr(rm, w));
}

/// The instruction a predicate generation / logical / FFR / break / PSEL /
/// SEL word encodes, or `None`: the fixed generation skeletons first, then
/// BRKP (`<15:14>=11`), the break family, PSEL (`<21>=1`) and the logical
/// group.
pub open spec fn pred_misc_form(word: u32) -> Option<(Code, Mnemonic, Seq<Operand>)> {
    if pred_gen_form(word) is Some {
        pred_gen_form(word)
    } else if field(word, 14, 2) == 0b11 {
        brkp_form(word)
    } else if break_form(word) is Some {
        break_form(word)
    } else if field(word, 21, 1) == 1 && psel_form(word) is Some {
        psel_form(word)
    } else {
        pred_logical_form(word)
    }
}

/// Predicate generation / logical / FFR / break / SEL (`<15:14>=01` or `=11`).
///
/// The members of this region overlap in `<15:14>`, so the more specific groups
/// (DUP-of-predicate, the fixed-field generation/FFR ops, the break family, and
/// the `<15:14>=11` BRKP group) are tried first; the generic predicate-logical
/// group (which has the free `Pm` field at `<19:16>` and `<21:20>=00`) is the
/// final fallthrough.
fn decode_pred_misc(word: u32, out: &mut Instruction)
    requires
        old(out).is_blank(),
    ensures
        decode_post(*old(out), *final(out)),
        yields(*old(out), *final(out), pred_misc_form(word)),
{
    // The fixed-pattern generation / FFR ops (PTRUE/PFALSE/PTEST/PFIRST/PNEXT/
    // RDFFR/WRFFR/SETFFR) have fully-fixed skeletons, so try them first.
    decode_pred_gen(word, out);
    if !out.is_invalid() {
        return;
    }
    // BRKP{A,B}{S} live at `<15:14>=11`.
    if bits(word, 14, 2) == 0b11 {
        decode_brkp(word, out);
        return;
    }
    // The break-unary family (BRKA/BRKB/BRKN) and their fixed `<20:16>` patterns.
    decode_break(word, out);
    if !out.is_invalid() {
        return;
    }
    // Predicate select PSEL (`<21>=1`, `<15:14>=01`).
    if bit(word, 21) == 1 && decode_dup_pred(word, out) {
        return;
    }
    decode_pred_logical(word, out);
}

/// The mnemonic of a predicate logical operation `key = op:S:o2:o3`
/// (`<23>`, `<22>`, `<9>`, `<4>`), SEL (`0011`) aside, or `None`.
pub open spec fn pred_logical_mn(key: u32) -> Option<Mnemonic> {
    match key {
        0b0000 => Some(Mnemonic::And),
        0b0001 => Some(Mnemonic::Bic),
        0b0010 => Some(Mnemonic::Eor),
        0b0100 => Some(Mnemonic::Ands),
        0b0101 => Some(Mnemonic::Bics),
        0b0110 => Some(Mnemonic::Eors),
        0b1000 => Some(Mnemonic::Orr),
        0b1001 => Some(Mnemonic::Orn),
        0b1010 => Some(Mnemonic::Nor),
        0b1011 => Some(Mnemonic::Nand),
        0b1100 => Some(Mnemonic::Orrs),
        0b1101 => Some(Mnemonic::Orns),
        0b1110 => Some(Mnemonic::Nors),
        0b1111 => Some(Mnemonic::Nands),
        _ => None,
    }
}

/// The instruction a predicate-logical word encodes, or `None`: the group
/// is `<15:14>=01`, `<21:20>=00`; SEL (`key 0011`) is written MOV with
/// `Pg/M` when `Pm == Pd`.
pub open spec fn pred_logical_form(word: u32) -> Option<(Code, Mnemonic, Seq<Operand>)> {
    let pm = field(word, 16, 4);
    let pg = field(word, 10, 4);
    let pn = field(word, 5, 4);
    let pd = field(word, 0, 4);
    let key = (field(word, 23, 1) * 8 + field(word, 22, 1) * 4 + field(word, 9, 1) * 2 + field(word, 4, 1)) as u32;
    if field(word, 14, 2) != 0b01 || field(word, 20, 2) != 0b00 {
        None
    } else if key == 0b0011 {
        if pm == pd {
            Some((Code::SveSelPred, Mnemonic::Mov, seq![
                preg_sz_spec(pd, VA::Sb),
                preg_q_spec(pg, PredQual::Merging),
                preg_sz_spec(pn, VA::Sb),
            ]))
        } else {
            Some((Code::SveSelPred, Mnemonic::Sel, seq![
                preg_sz_spec(pd, VA::Sb),
                preg_spec(pg),
                preg_sz_spec(pn, VA::Sb),
                preg_sz_spec(pm, VA::Sb),
            ]))
        }
    } else {
        match pred_logical_mn(key) {
            Some(m) => Some(pred_logical_insn(m, pd, pg, pn, pm)),
            None => None,
        }
    }
}

/// Predicate logical (`Pd.B, Pg/Z, Pn.B, Pm.B`) and SEL.
fn decode_pred_logical(word: u32, out: &mut Instruction)
    requires
        old(out).is_blank(),
    ensures
        decode_post(*old(out), *final(out)),
        yields(*old(out), *final(out), pred_logical_form(word)),
{
    // Skeleton: `0010010 op S 00 Pm 01 Pg o2 Pn o3 Pd`, with the opcode formed by
    //   (op<23>, S<22>, o2<9>, o3<4>). The free Pm field is `<19:16>`; the group
    //   is gated by `<21:20>==00` (the break/generation ops have `<20>` set).
    if bits(word, 14, 2) != 0b01 || bits(word, 20, 2) != 0b00 {
        return;
    }
    let pm: u32 = bits(word, 16, 4);
    let pg: u32 = bits(word, 10, 4);
    let pn: u32 = bits(word, 5, 4);
    let pd: u32 = bits(word, 0, 4);
    let key = bit(word, 23) * 8 + bit(word, 22) * 4 + bit(word, 9) * 2 + bit(word, 4);

    // SEL (predicate): `op=0, S=0, o2=1, o3=1`.
    if key == 0b0011 {
        if pm == pd {
            // MOV alias: SEL Pd, Pg, Pn, Pd  ->  MOV Pd.B, Pg/M, Pn.B.
            install3(out, Code::SveSelPred, Mnemonic::Mov, preg_sz(pd, VA::Sb), preg_q(pg, PredQual::Merging),
                preg_sz(pn, VA::Sb));
        } else {
            install4(out, Code::SveSelPred, Mnemonic::Sel, preg_sz(pd, VA::Sb), preg(pg), preg_sz(pn, VA::Sb),
                preg_sz(pm, VA::Sb));
        }
        return;
    }

    let mnem = match key {
        0b0000 => Mnemonic::And,
        0b0001 => Mnemonic::Bic,
        0b0010 => Mnemonic::Eor,
        0b0100 => Mnemonic::Ands,
        0b0101 => Mnemonic::Bics,
        0b0110 => Mnemonic::Eors,
        0b1000 => Mnemonic::Orr,
        0b1001 => Mnemonic::Orn,
        0b1010 => Mnemonic::Nor,
        0b1011 => Mnemonic::Nand,
        0b1100 => Mnemonic::Orrs,
        0b1101 => Mnemonic::Orns,
        0b1110 => Mnemonic::Nors,
        0b1111 => Mnemonic::Nands,
        _ => return,
    };
    emit_pred_logical(out, mnem, pd, pg, pn, pm);
}

/// The element of a PSEL `tszh:tszl` field: the lowest set bit gives the
/// element size, the bits above it the index; `None` when no bit among the
/// low four is set.
pub open spec fn psel_elem(tsz: u32) -> Option<(VA, u32)> {
    if tsz & 1 == 1 {
        Some((VA::Sb, tsz >> 1))
    } else if tsz & 2 == 2 {
        Some((VA::Sh, tsz >> 2))
    } else if tsz & 4 == 4 {
        Some((VA::Ss, tsz >> 3))
    } else if tsz & 8 == 8 {
        Some((VA::Sd, tsz >> 4))
    } else {
        None
    }
}

/// The instruction a PSEL word encodes, or `None`: `PSEL <Pd>, <Pn>,
/// <Pm>.<T>[<Wv>, #imm]` with `tsz = <23:22>:<20:18>` and `Wv = W(12 +
/// <17:16>)`; the markers are `<15:14>=01`, `<9>=0`, `<4>=0`.
pub open spec fn psel_form(word: u32) -> Option<(Code, Mnemonic, Seq<Operand>)> {
    let tsz = (field(word, 22, 2) * 8 + field(word, 18, 3)) as u32;
    if field(word, 14, 2) != 0b01 || field(word, 9, 1) != 0 || field(word, 4, 1) != 0 {
        None
    } else {
        match psel_elem(tsz) {
            Some(e) => insn(Code::SvePsel, seq![
                preg_spec(field(word, 0, 4)),
                preg_spec(field(word, 10, 4)),
                Operand::IndexedElement {
                    reg: reg_of(RegKind::P, field(word, 5, 4), 0xf),
                    arr: Some(e.0),
                    index: gp_spec(false, RegWidth::W32, (12 + field(word, 16, 2)) as u8),
                    imm: e.1 as i64,
                },
            ]),
            None => None,
        }
    }
}

/// Predicate select (`PSEL <Pd>, <Pn>, <Pm>.<T>[<Wv>{, #imm}]`).
///
/// Returns `true` if it matched. The element-index field is `i1:tszh:tszl`
/// (`<23>`, `<22>`, `<20:18>`); the lowest set bit of `tszh:tszl` gives the
/// element size; the slice register is `W12 + <17:16>`; and the immediate
/// index is the upper part of the index field above the size bit. The fixed
/// markers are `<21>=1`, `<15:14>=01`, `<9>=0`, `<4>=0`.
fn decode_dup_pred(word: u32, out: &mut Instruction) -> (r: bool)
    requires
        old(out).is_blank(),
    ensures
        decode_post(*old(out), *final(out)),
        yields(*old(out), *final(out), psel_form(word)),
        r == (psel_form(word) is Some),
{
    // `<15:14>` is a fixed `01` marker. A `<15:14>` of `10`/`11` reaches here only
    // when the generation / break decoders decline, and is reserved.
    if bits(word, 14, 2) != 0b01 || bit(word, 9) != 0 || bit(word, 4) != 0 {
        return false;
    }
    // The element / index live in the SVE `tszh:tszl` field `<23:22>:<20:18>` (5
    // bits): the lowest set bit gives the element size, the bits above it the
    // index. A field without a set bit among the low four is reserved.
    let tsz = bits(word, 22, 2) * 8 + bits(word, 18, 3);
    let (a, idx) = if tsz & 1 == 1 {
        (VA::Sb, tsz >> 1)
    } else if tsz & 2 == 2 {
        (VA::Sh, tsz >> 2)
    } else if tsz & 4 == 4 {
        (VA::Ss, tsz >> 3)
    } else if tsz & 8 == 8 {
        (VA::Sd, tsz >> 4)
    } else {
        return false;
    };
    let wv = 12 + bits(word, 16, 2); // W12..W15
    let pm: u32 = bits(word, 5, 4);
    let pn: u32 = bits(word, 10, 4);
    let pd: u32 = bits(word, 0, 4);
    install3(out, Code::SvePsel, mnemonic_of(Code::SvePsel), preg(pd), preg(pn), Operand::IndexedElement {
        reg: Register::p(pm),
        arr: Some(a),
        index: gp_register(false, RegWidth::W32, wv as u8),
        imm: idx as i64,
    });
    true
}

/// A predicate-logical instruction `op <Pd>.B, <Pg>/Z, <Pn>.B, <Pm>.B`, with
/// the preferred aliases: ORR(S) with `Pg == Pn == Pm` is MOV(S) `Pd.B,
/// Pn.B`; AND(S) with `Pn == Pm` is MOV(S) `Pd.B, Pg/Z, Pn.B`; EOR(S) with
/// `Pm == Pg` is NOT(S) `Pd.B, Pg/Z, Pn.B`.
pub open spec fn pred_logical_insn(m: Mnemonic, pd: u32, pg: u32, pn: u32, pm: u32) -> (Code, Mnemonic, Seq<Operand>) {
    let d = preg_sz_spec(pd, VA::Sb);
    let g = preg_q_spec(pg, PredQual::Zeroing);
    let n = preg_sz_spec(pn, VA::Sb);
    if m == Mnemonic::Orr && pg == pn && pn == pm {
        (Code::SvePredLogical, Mnemonic::Mov, seq![d, n])
    } else if m == Mnemonic::Orrs && pg == pn && pn == pm {
        (Code::SvePredLogical, Mnemonic::Movs, seq![d, n])
    } else if m == Mnemonic::And && pn == pm {
        (Code::SvePredLogical, Mnemonic::Mov, seq![d, g, n])
    } else if m == Mnemonic::Ands && pn == pm {
        (Code::SvePredLogical, Mnemonic::Movs, seq![d, g, n])
    } else if m == Mnemonic::Eor && pm == pg {
        (Code::SvePredLogical, Mnemonic::Not, seq![d, g, n])
    } else if m == Mnemonic::Eors && pm == pg {
        (Code::SvePredLogical, Mnemonic::Nots, seq![d, g, n])
    } else {
        (Code::SvePredLogical, m, seq![d, g, n, preg_sz_spec(pm, VA::Sb)])
    }
}

/// Emit a predicate-logical instruction (`op <Pd>.B, <Pg>/Z, <Pn>.B, <Pm>.B`),
/// applying the preferred `MOV`/`MOVS`/`NOT`/`NOTS` aliases. The
/// governing predicate `<Pg>/Z` prints with the `/z` qualifier but no `.b` size.
fn emit_pred_logical(out: &mut Instruction, mnem: Mnemonic, pd: u32, pg: u32, pn: u32, pm: u32)
    requires
        old(out).is_blank(),
    ensures
        decode_post(*old(out), *final(out)),
        yields(*old(out), *final(out), Some(pred_logical_insn(mnem, pd, pg, pn, pm))),
{
    let d = preg_sz(pd, VA::Sb);
    let n = preg_sz(pn, VA::Sb);
    let c = Code::SvePredLogical;
    match mnem {
        Mnemonic::Orr if pg == pn && pn == pm => install2_as(out, c, Mnemonic::Mov, d, n),
        Mnemonic::Orrs if pg == pn && pn == pm => install2_as(out, c, Mnemonic::Movs, d, n),
        Mnemonic::And if pn == pm => install3(out, c, Mnemonic::Mov, d, preg_q(pg, PredQual::Zeroing), n),
        Mnemonic::Ands if pn == pm => install3(out, c, Mnemonic::Movs, d, preg_q(pg, PredQual::Zeroing), n),
        Mnemonic::Eor if pm == pg => install3(out, c, Mnemonic::Not, d, preg_q(pg, PredQual::Zeroing), n),
        Mnemonic::Eors if pm == pg => install3(out, c, Mnemonic::Nots, d, preg_q(pg, PredQual::Zeroing), n),
        _ => install4(out, c, mnem, d, preg_q(pg, PredQual::Zeroing), n, preg_sz(pm, VA::Sb)),
    }
}

/// The BRKP mnemonic from `B<4>` and `S<22>`.
pub open spec fn brkp_mn(b: u32, s: u32) -> Mnemonic {
    if b == 0 {
        if s == 0 { Mnemonic::Brkpa } else { Mnemonic::Brkpas }
    } else {
        if s == 0 { Mnemonic::Brkpb } else { Mnemonic::Brkpbs }
    }
}

/// The instruction a BRKP{A,B}{S} word encodes, or `None` off its
/// skeleton (`<23>=0`, `<21:20>=00`, `<9>=0`).
pub open spec fn brkp_form(word: u32) -> Option<(Code, Mnemonic, Seq<Operand>)> {
    if field(word, 20, 2) != 0b00 || field(word, 23, 1) != 0 || field(word, 9, 1) != 0 {
        None
    } else {
        Some((Code::SveBrkpPred, brkp_mn(field(word, 4, 1), field(word, 22, 1)), seq![
            preg_sz_spec(field(word, 0, 4), VA::Sb),
            preg_q_spec(field(word, 10, 4), PredQual::Zeroing),
            preg_sz_spec(field(word, 5, 4), VA::Sb),
            preg_sz_spec(field(word, 16, 4), VA::Sb),
        ]))
    }
}

/// BRKP{A,B}{S} (binary, `<15:14>=11`): `00100101 0 S 00 Pm 11 Pg 0 Pn B 0 Pd`.
///   `<23>=0, <22>=S, <21:20>=00, <19:16>=Pm, <13:10>=Pg, <8:5>=Pn, <4>=B`.
fn decode_brkp(word: u32, out: &mut Instruction)
    requires
        old(out).is_blank(),
    ensures
        decode_post(*old(out), *final(out)),
        yields(*old(out), *final(out), brkp_form(word)),
{
    if bits(word, 20, 2) != 0b00 || bit(word, 23) != 0 || bit(word, 9) != 0 {
        return;
    }
    let s: u32 = bit(word, 22);
    let b: u32 = bit(word, 4);
    let pm: u32 = bits(word, 16, 4);
    let pg: u32 = bits(word, 10, 4);
    let pn: u32 = bits(word, 5, 4);
    let pd: u32 = bits(word, 0, 4);
    let mnem = if b == 0 {
        if s == 0 { Mnemonic::Brkpa } else { Mnemonic::Brkpas }
    } else {
        if s == 0 { Mnemonic::Brkpb } else { Mnemonic::Brkpbs }
    };
    install4(out, Code::SveBrkpPred, mnem, preg_sz(pd, VA::Sb), preg_q(pg, PredQual::Zeroing), preg_sz(pn, VA::Sb),
        preg_sz(pm, VA::Sb));
}

/// The BRKA/BRKB mnemonic from `B<23>` and `S<22>`.
pub open spec fn brk_mn(b: u32, s: u32) -> Mnemonic {
    if b == 0 {
        if s == 0 { Mnemonic::Brka } else { Mnemonic::Brkas }
    } else {
        if s == 0 { Mnemonic::Brkb } else { Mnemonic::Brkbs }
    }
}

/// The instruction a BRKA/BRKB(S) (`<21:16>=010000`) or BRKN(S)
/// (`<21:16>=011000`, `<23>=0`, `<4>=0`) word encodes, or `None`; both need
/// `<15:14>=01`, `<9>=0`, and the flag-setting BRKAS/BRKBS are
/// zeroing-only (`<4>=0`).
pub open spec fn break_form(word: u32) -> Option<(Code, Mnemonic, Seq<Operand>)> {
    let pg = field(word, 10, 4);
    let d = preg_sz_spec(field(word, 0, 4), VA::Sb);
    let n = preg_sz_spec(field(word, 5, 4), VA::Sb);
    let s = field(word, 22, 1);
    let m = field(word, 4, 1);
    if field(word, 16, 6) == 0b010000 && field(word, 14, 2) == 0b01 && field(word, 9, 1) == 0 {
        if s == 1 && m == 1 {
            None
        } else {
            Some((Code::SveBrkPred, brk_mn(field(word, 23, 1), s), seq![
                d,
                preg_q_spec(pg, if s == 0 && m == 1 { PredQual::Merging } else { PredQual::Zeroing }),
                n,
            ]))
        }
    } else if field(word, 16, 6) == 0b011000 && field(word, 14, 2) == 0b01 && field(word, 9, 1) == 0 && m == 0
        && field(word, 23, 1) == 0 {
        Some((Code::SveBrkn, if s == 0 { Mnemonic::Brkn } else { Mnemonic::Brkns }, seq![
            d,
            preg_q_spec(pg, PredQual::Zeroing),
            n,
            d,
        ]))
    } else {
        None
    }
}

/// Break group: BRKA/BRKAS/BRKB/BRKBS (unary) and BRKN/BRKNS (`<15:14>=01`).
fn decode_break(word: u32, out: &mut Instruction)
    requires
        old(out).is_blank(),
    ensures
        decode_post(*old(out), *final(out)),
        yields(*old(out), *final(out), break_form(word)),
{
    let pg: u32 = bits(word, 10, 4);
    let pn: u32 = bits(word, 5, 4);
    let pd: u32 = bits(word, 0, 4);

    // BRKA/BRKAS/BRKB/BRKBS: `00100101 B S 01000 0 01 Pg M Pn 0 Pd`.
    //   <23>=B(A=0/B=1), <22>=S, <21:16>=010000, <15:14>=01, <13:10>=Pg,
    //   <9>=0, <8:5>=Pn, <4>=M (merge select; flag-setting S=1 forms are
    //   zeroing-only with M=0), Pd=<3:0>.
    if bits(word, 16, 6) == 0b010000 && bits(word, 14, 2) == 0b01 && bit(word, 9) == 0 {
        let bb: u32 = bit(word, 23); // 0=A,1=B
        let s: u32 = bit(word, 22);
        let mnem = if bb == 0 {
            if s == 0 { Mnemonic::Brka } else { Mnemonic::Brkas }
        } else {
            if s == 0 { Mnemonic::Brkb } else { Mnemonic::Brkbs }
        };
        let m: u32 = bit(word, 4);
        // The flag-setting forms (BRKAS/BRKBS, `S=1`) are zeroing-only: `M=1`
        // with `S=1` is unallocated.
        if s == 1 && m == 1 {
            return;
        }
        let q = if s == 0 && m == 1 { PredQual::Merging } else { PredQual::Zeroing };
        install3(out, Code::SveBrkPred, mnem, preg_sz(pd, VA::Sb), preg_q(pg, q), preg_sz(pn, VA::Sb));
        return;
    }

    // BRKN/BRKNS: `00100101 0 S 011000 01 Pg 0 Pn 0 Pdm`.
    if bits(word, 16, 6) == 0b011000 && bits(word, 14, 2) == 0b01 && bit(word, 9) == 0 && bit(word, 4) == 0
        && bit(word, 23) == 0 {
        let m = if bit(word, 22) == 0 { Mnemonic::Brkn } else { Mnemonic::Brkns };
        install4(out, Code::SveBrkn, m, preg_sz(pd, VA::Sb), preg_q(pg, PredQual::Zeroing), preg_sz(pn, VA::Sb),
            preg_sz(pd, VA::Sb));
    }
}

/// The optional predicate pattern operand: none for `all` (`0x1f`).
pub open spec fn pattern_ops(pattern: u32) -> Seq<Operand> {
    if pattern & 0x1f != 0x1f {
        seq![Operand::SvePattern((pattern & 0x1f) as u8)]
    } else {
        Seq::empty()
    }
}

/// The instruction a predicate generation / FFR word encodes, or `None`:
/// SETFFR, WRFFR, PFALSE, RDFFR (unpredicated and predicated), PTEST,
/// PFIRST, PNEXT and PTRUE(S), each by its fixed skeleton.
pub open spec fn pred_gen_form(word: u32) -> Option<(Code, Mnemonic, Seq<Operand>)> {
    let a = arr_spec(field(word, 22, 2));
    let pd = field(word, 0, 4);
    let s22 = field(word, 22, 1);
    if word & 0x00FF_FFFF == 0x002C_9000 {
        Some((Code::SveSetffr, Mnemonic::Setffr, Seq::empty()))
    } else if field(word, 12, 12) == 0b001010001001 && field(word, 0, 5) == 0 {
        Some((Code::SveWrffr, Mnemonic::Wrffr, seq![preg_sz_spec(field(word, 5, 4), VA::Sb)]))
    } else if field(word, 4, 20) == 0b00011000111001000000 {
        Some((Code::SvePfalse, Mnemonic::Pfalse, seq![preg_sz_spec(pd, VA::Sb)]))
    } else if field(word, 4, 20) == 0b00011001111100000000 {
        Some((Code::SveRdffr, Mnemonic::Rdffr, seq![preg_sz_spec(pd, VA::Sb)]))
    } else if field(word, 16, 6) == 0b011000 && field(word, 9, 7) == 0b1111000 && field(word, 4, 1) == 0 {
        Some((Code::SveRdffrPred, if s22 == 0 { Mnemonic::Rdffr } else { Mnemonic::Rdffrs }, seq![
            preg_sz_spec(pd, VA::Sb),
            preg_q_spec(field(word, 5, 4), PredQual::Zeroing),
        ]))
    } else if field(word, 16, 8) == 0b01010000 && field(word, 14, 2) == 0b11 && field(word, 9, 1) == 0 && field(
        word,
        0,
        5,
    ) == 0 {
        Some((Code::SvePtest, Mnemonic::Ptest, seq![preg_spec(field(word, 10, 4)), preg_sz_spec(field(word, 5, 4), VA::Sb)]))
    } else if field(word, 16, 8) == 0b01011000 && field(word, 9, 7) == 0b1100000 && field(word, 4, 1) == 0 {
        Some((Code::SvePfirst, Mnemonic::Pfirst, seq![
            preg_sz_spec(pd, VA::Sb),
            preg_spec(field(word, 5, 4)),
            preg_sz_spec(pd, VA::Sb),
        ]))
    } else if field(word, 16, 6) == 0b011001 && field(word, 11, 5) == 0b11000 && field(word, 10, 1) == 1 && field(
        word,
        9,
        1,
    ) == 0 && field(word, 4, 1) == 0 {
        Some((Code::SvePnext, Mnemonic::Pnext, seq![preg_sz_spec(pd, a), preg_spec(field(word, 5, 4)), preg_sz_spec(pd, a)]))
    } else if field(word, 17, 4) == 0b1100 && field(word, 11, 5) == 0b11100 && field(word, 10, 1) == 0 && field(
        word,
        4,
        1,
    ) == 0 {
        Some((
            Code::SvePtrue,
            if field(word, 16, 1) == 0 { Mnemonic::Ptrue } else { Mnemonic::Ptrues },
            seq![preg_sz_spec(pd, a)] + pattern_ops(field(word, 5, 5)),
        ))
    } else {
        None
    }
}

/// Predicate generation: PTRUE/PTRUES/PFALSE/PTEST/PFIRST/PNEXT/RDFFR/RDFFRS/
/// WRFFR/SETFFR.
fn decode_pred_gen(word: u32, out: &mut Instruction)
    requires
        old(out).is_blank(),
    ensures
        decode_post(*old(out), *final(out)),
        yields(*old(out), *final(out), pred_gen_form(word)),
{
    let size: u32 = bits(word, 22, 2);

    // SETFFR: `00100101 0010 1100 1001 0000 0000 0000` (fully fixed).
    if word & 0x00FF_FFFF == 0x002C_9000 {
        install0(out, Code::SveSetffr, Mnemonic::Setffr);
        return;
    }
    // WRFFR: `00100101 0010 1000 1001 000 Pn 0 0000`.
    if bits(word, 12, 12) == 0b001010001001 && bits(word, 0, 5) == 0 {
        let pn: u32 = bits(word, 5, 4);
        install1_as(out, Code::SveWrffr, Mnemonic::Wrffr, preg_sz(pn, VA::Sb));
        return;
    }
    // PFALSE: `00100101 0001 1000 1110 0100 0000 Pd`.
    if bits(word, 4, 20) == 0b00011000111001000000 {
        let pd: u32 = bits(word, 0, 4);
        install1_as(out, Code::SvePfalse, Mnemonic::Pfalse, preg_sz(pd, VA::Sb));
        return;
    }
    // RDFFR (unpredicated): `00100101 0001 1001 1111 0000 0000 Pd`.
    if bits(word, 4, 20) == 0b00011001111100000000 {
        let pd: u32 = bits(word, 0, 4);
        install1_as(out, Code::SveRdffr, Mnemonic::Rdffr, preg_sz(pd, VA::Sb));
        return;
    }
    // RDFFR/RDFFRS (predicated): `00100101 0 S 011000 1111 000 Pg 0 Pd`.
    if bits(word, 16, 6) == 0b011000 && bits(word, 9, 7) == 0b1111000 && bit(word, 4) == 0 {
        let pg: u32 = bits(word, 5, 4);
        let pd: u32 = bits(word, 0, 4);
        let m = if bit(word, 22) == 0 { Mnemonic::Rdffr } else { Mnemonic::Rdffrs };
        install2_as(out, Code::SveRdffrPred, m, preg_sz(pd, VA::Sb), preg_q(pg, PredQual::Zeroing));
        return;
    }
    // PTEST: `00100101 0101 0000 11 Pg 0 Pn 0 0000`.
    if bits(word, 16, 8) == 0b01010000 && bits(word, 14, 2) == 0b11 && bit(word, 9) == 0 && bits(word, 0, 5) == 0 {
        let pg: u32 = bits(word, 10, 4);
        let pn: u32 = bits(word, 5, 4);
        install2_as(out, Code::SvePtest, Mnemonic::Ptest, preg(pg), preg_sz(pn, VA::Sb));
        return;
    }
    // PFIRST: `00100101 0101 1000 1100 000 Pg 0 Pdn`.
    if bits(word, 16, 8) == 0b01011000 && bits(word, 9, 7) == 0b1100000 && bit(word, 4) == 0 {
        let pg: u32 = bits(word, 5, 4);
        let pdn: u32 = bits(word, 0, 4);
        install3(out, Code::SvePfirst, Mnemonic::Pfirst, preg_sz(pdn, VA::Sb), preg(pg), preg_sz(pdn, VA::Sb));
        return;
    }
    // PNEXT: `00100101 size 011001 11000 1 0 Pg 0 Pdn`.
    if bits(word, 16, 6) == 0b011001 && bits(word, 11, 5) == 0b11000 && bit(word, 10) == 1 && bit(word, 9) == 0
        && bit(word, 4) == 0 {
        let a = arr(size);
        let pg: u32 = bits(word, 5, 4);
        let pdn: u32 = bits(word, 0, 4);
        install3(out, Code::SvePnext, Mnemonic::Pnext, preg_sz(pdn, a), preg(pg), preg_sz(pdn, a));
        return;
    }
    // PTRUE/PTRUES: `00100101 size 011 00 S 1110 0 pattern 0 Pd`; the pattern
    // operand is elided when it is `all` (0x1f).
    if bits(word, 17, 4) == 0b1100 && bits(word, 11, 5) == 0b11100 && bit(word, 10) == 0 && bit(word, 4) == 0 {
        let a = arr(size);
        let pattern: u32 = bits(word, 5, 5);
        let pd: u32 = bits(word, 0, 4);
        let m = if bit(word, 16) == 0 { Mnemonic::Ptrue } else { Mnemonic::Ptrues };
        if pattern & 0x1f != 0x1f {
            install2_as(out, Code::SvePtrue, m, preg_sz(pd, a), Operand::SvePattern((pattern & 0x1f) as u8));
        } else {
            install1_as(out, Code::SvePtrue, m, preg_sz(pd, a));
        }
    }
}


/// The arrangement of an operand, when it is a register.
pub open spec fn operand_arr(o: Operand) -> Option<VA> {
    match o {
        Operand::Reg { arr, .. } => arr,
        _ => None,
    }
}

/// COMPACT (`0x05`, `<21>=1`, `<20:16>=00001`, `<15:13>=100`) packs words or
/// doublewords: both vector operands are `.d` when `<22>` is set and `.s`
/// when it is clear.
pub proof fn lemma_compact_arrangement(word: u32, features: FeatureSet)
    requires
        field(word, 24, 8) == 0x05,
        field(word, 21, 1) == 1,
        field(word, 16, 5) == 0b00001,
        field(word, 13, 3) == 0b100,
    ensures
        perm_form(word, features) matches Some(f) && f.0 == Code::SveCompact && f.1 == Mnemonic::Compact && f.2.len()
            == 3 && operand_arr(f.2[0]) == Some(if field(word, 22, 1) == 1 { VA::Sd } else { VA::Ss })
            && operand_arr(f.2[2]) == Some(if field(word, 22, 1) == 1 { VA::Sd } else { VA::Ss }),
{
    crate::bits::lemma_field3_bits(word, 20);
}

} // verus!
