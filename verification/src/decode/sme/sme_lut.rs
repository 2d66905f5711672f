//! SME2 lookup-table reads from the ZT0 table: `LUTI2` / `LUTI4` / `LUTI6`
//! (FEAT_LUT).
//!
//! They live in the SME `110` quadrant (top byte `0xC0`, `word<24> == 0`). The
//! destination is a 1-, 2- or 4-register `Z` group with element size
//! `.B`/`.H`/`.S`; the table is the fixed `ZT0`; the third operand is the index
//! source `Z<n>[<index>]`.
//!
//! * `word<23>` is fixed `1`; `word<21> == 0`; `word<19> == 1`.
//! * `word<22>` (`R`): `1` single-register destination, `0` multi (2/4).
//! * `word<20>` (`St`): `0` consecutive, `1` strided (`{Zd, Zd+8}` for two
//!   registers, `{Zd, Zd+4, ..}` for four).
//! * `word<18>` (`L`): `1` `LUTI2` (2-bit indices), `0` `LUTI4` (4-bit); `LUTI4`
//!   also fixes `word<17> == 1`.
//! * The element size is `word<13:12>`. For multi-register forms a count
//!   marker sits above it: `word<14> == 1` two registers (index from
//!   `word<15>`), `word<14> == 0, word<15> == 1` four (index from `word<16>`);
//!   the single-register index starts at `word<14>`. The index field ends at
//!   `word<17>` (`LUTI2`) or `word<16>` (`LUTI4`).
//! * `word<11:10>` are reserved zero; `Zn = word<9:5>`; `Zd = word<4:0>`.
//!
//! `LUTI4` also has a four-register form with a register-pair source
//! `{Zn, Zn+1}` (`.B` only).
use vstd::prelude::*;
use crate::bits::{bit, bits, field};
use crate::code::{code_mnemonic, default_mnemonic, Code, Mnemonic};
use crate::decode::{decode_post, install3, installed};
use crate::decode::ops::{vgroup, vgroup_spec, zidx, zidx_spec, zreg, zreg_spec};
use crate::instruction::Instruction;
use crate::operand::Operand;
use crate::types::{reg_of, RegKind, Register, VectorArrangement as VA};

verus! {

/// The fixed `ZT0` lookup-table operand.
pub open spec fn zt0_spec() -> Operand {
    Operand::Reg { reg: Register { kind: RegKind::Zt, num: 0 }, arr: None, lane: None, pred: None }
}

fn zt0() -> (r: Operand)
    ensures
        r == zt0_spec(),
{
    Operand::Reg { reg: Register::zt0(), arr: None, lane: None, pred: None }
}

/// A bare `Z<n>` (no arrangement).
pub open spec fn zbare_spec(n: u32) -> Operand {
    Operand::Reg { reg: reg_of(RegKind::Z, n, 0x1f), arr: None, lane: None, pred: None }
}

fn zbare(n: u32) -> (r: Operand)
    ensures
        r == zbare_spec(n),
{
    Operand::Reg { reg: Register::z(n), arr: None, lane: None, pred: None }
}

/// The instruction a ZT0 lookup word encodes, as (code, mnemonic, operands),
/// or `None`.
pub open spec fn lut_zt_form(word: u32) -> Option<(Code, Mnemonic, Seq<Operand>)> {
    let single = field(word, 22, 1) == 1;
    let strided = field(word, 20, 1) == 1;
    let is_l2 = field(word, 18, 1) == 1;
    let zn = field(word, 5, 5);
    let zd = field(word, 0, 5);
    let sz = field(word, 12, 2);
    let a = if sz == 0 { VA::Sb } else if sz == 1 { VA::Sh } else { VA::Ss };
    let top: u32 = if is_l2 { 17 } else { 16 };
    // (register count, lowest index bit); count 0 marks no count marker.
    let shape: (u8, u32) = if single {
        (1, 14)
    } else if field(word, 14, 1) == 1 {
        (2, 15)
    } else if field(word, 15, 1) == 1 {
        (4, 16)
    } else {
        (0, 0)
    };
    let count = shape.0;
    let idx_lsb = shape.1;
    let stride: u8 = if !strided { 1 } else if count == 2 { 8 } else { 4 };
    if field(word, 24, 8) != 0xC0 || field(word, 23, 1) != 1 || field(word, 21, 1) != 0 || field(word, 19, 1) != 1
        || field(word, 10, 2) != 0 {
        None
    } else if field(word, 16, 8) == 0xC8 && field(word, 10, 6) == 0b010000 {
        // Single-vector LUTI6: `luti6 <Zd>.b, zt0, <Zn>`.
        Some((Code::SmeLuti6Single, code_mnemonic(Code::SmeLuti6Single), seq![zreg_spec(zd, VA::Sb), zt0_spec(), zbare_spec(zn)]))
    } else if !is_l2 && field(word, 17, 1) != 1 {
        None
    } else if !is_l2 && !single && field(word, 16, 1) == 1 && field(word, 14, 2) == 0 && field(word, 12, 2) == 0 {
        // LUTI4 four registers from a register pair (`.B`).
        if zn % 2 != 0 || (!strided && zd % 4 != 0) || (strided && (zd / 4) % 4 != 0) {
            None
        } else {
            Some((Code::SmeLuti4Zt, Mnemonic::Luti4, seq![
                vgroup_spec(zd, 4, Some(VA::Sb), if strided { 4 } else { 1 }),
                zt0_spec(),
                vgroup_spec(zn, 2, None, 1),
            ]))
        }
    } else if sz == 3 || count == 0 || (single && strided) || idx_lsb > top {
        None
    } else if !is_l2 && count == 4 && a == VA::Sb {
        None
    } else if strided && (a == VA::Ss || (!is_l2 && count == 4 && a != VA::Sh)) {
        None
    } else if (!strided && zd % (count as u32) != 0) || (strided && count == 2 && (zd / 8) % 2 != 0)
        || (strided && count == 4 && (zd / 4) % 4 != 0) {
        None
    } else {
        let index = field(word, idx_lsb, (top - idx_lsb + 1) as u32);
        Some((
            if is_l2 { Code::SmeLuti2Zt } else { Code::SmeLuti4Zt },
            if is_l2 { Mnemonic::Luti2 } else { Mnemonic::Luti4 },
            seq![
                if count == 1 { zreg_spec(zd, a) } else { vgroup_spec(zd, count, Some(a), stride) },
                zt0_spec(),
                zidx_spec(zn, index),
            ],
        ))
    }
}

/// Decode an SME2 `LUTI2` / `LUTI4` / `LUTI6` (ZT0) lookup-table read into
/// `out`: exactly the instruction of [`lut_zt_form`], or nothing.
pub fn decode(word: u32, out: &mut Instruction)
    requires
        old(out).is_blank(),
    ensures
        decode_post(*old(out), *final(out)),
        lut_zt_form(word) matches Some(f) ==> installed(*old(out), *final(out), f.0, f.1, f.2),
        lut_zt_form(word) is None ==> *final(out) == *old(out),
{
    // Shell: word<31:24> == 0xC0, word<23> == 1, word<21> == 0, word<19> == 1;
    // word<11:10> reserved zero.
    if bits(word, 24, 8) != 0xC0 || bit(word, 23) != 1 || bit(word, 21) != 0 || bit(word, 19) != 1 {
        return;
    }
    if bits(word, 10, 2) != 0 {
        return;
    }
    let zn: u32 = bits(word, 5, 5);
    let zd: u32 = bits(word, 0, 5);

    // Single-vector `LUTI6` (ZT0): `luti6 <Zd>.b, zt0, <Zn>`, opcode
    // `word<23:16> == 0xC8`, `word<15:10> == 010000`; `.b` only, no index.
    if bits(word, 16, 8) == 0xC8 && bits(word, 10, 6) == 0b010000 {
        install3(out, Code::SmeLuti6Single, code_mnemonic_of(Code::SmeLuti6Single), zreg(zd, VA::Sb), zt0(), zbare(zn));
        return;
    }

    let single = bit(word, 22) == 1;
    let strided = bit(word, 20) == 1;
    let is_l2 = bit(word, 18) == 1;
    // `LUTI4` (word<18> == 0) fixes word<17> == 1; word<17> == 0 is the
    // multi-register `LUTI6` family, decoded elsewhere.
    if !is_l2 && bit(word, 17) != 1 {
        return;
    }

    // `LUTI4` four-register form with a register-pair source (`.B` only):
    // word<16> == 1, word<15:14> == 00, size `.B`. The destination is
    // consecutive (base a multiple of four) or strided (step 4, base
    // `word<3:2> == 0`); the pair base is even.
    if !is_l2 && !single && bit(word, 16) == 1 && bits(word, 14, 2) == 0 && bits(word, 12, 2) == 0 {
        if zn % 2 != 0 {
            return;
        }
        if !strided && zd % 4 != 0 {
            return;
        }
        if strided && (zd / 4) % 4 != 0 {
            return;
        }
        let stride: u8 = if strided { 4 } else { 1 };
        install3(out, Code::SmeLuti4Zt, Mnemonic::Luti4, vgroup(zd, 4, Some(VA::Sb), stride), zt0(), vgroup(zn, 2, None, 1));
        return;
    }

    // Element size: word<13:12> (.b, .h, .s; 11 unallocated).
    let sz: u32 = bits(word, 12, 2);
    if sz == 3 {
        return;
    }
    let a = if sz == 0 { VA::Sb } else if sz == 1 { VA::Sh } else { VA::Ss };

    // The register count and the lowest index bit; the index field ends at
    // word<17> (LUTI2) or word<16> (LUTI4).
    let top: u32 = if is_l2 { 17 } else { 16 };
    let (count, idx_lsb): (u8, u32) = if single {
        (1, 14)
    } else if bit(word, 14) == 1 {
        (2, 15)
    } else if bit(word, 15) == 1 {
        (4, 16)
    } else {
        return;
    };
    // The single-register form has no strided variant.
    if single && strided {
        return;
    }
    if idx_lsb > top {
        return;
    }
    // LUTI4 four registers is never `.b`; strided forms are never `.s`, and
    // LUTI4 four registers strided is `.h` only.
    if !is_l2 && count == 4 && a == VA::Sb {
        return;
    }
    if strided && (a == VA::Ss || (!is_l2 && count == 4 && a != VA::Sh)) {
        return;
    }
    // Consecutive groups are count-aligned; a strided pair steps by 8 with
    // `word<3> == 0`, a strided quad by 4 with `word<3:2> == 0`.
    if !strided && zd % (count as u32) != 0 {
        return;
    }
    if strided && count == 2 && (zd / 8) % 2 != 0 {
        return;
    }
    if strided && count == 4 && (zd / 4) % 4 != 0 {
        return;
    }
    let stride: u8 = if !strided { 1 } else if count == 2 { 8 } else { 4 };
    let index: u32 = bits(word, idx_lsb, top - idx_lsb + 1);
    let dst = if count == 1 { zreg(zd, a) } else { vgroup(zd, count, Some(a), stride) };
    install3(
        out,
        if is_l2 { Code::SmeLuti2Zt } else { Code::SmeLuti4Zt },
        if is_l2 { Mnemonic::Luti2 } else { Mnemonic::Luti4 },
        dst,
        zt0(),
        zidx(zn, index),
    );
}

/// The default mnemonic of `code`.
fn code_mnemonic_of(code: Code) -> (m: Mnemonic)
    ensures
        m == code_mnemonic(code),
{
    default_mnemonic(code)
}

} // verus!
