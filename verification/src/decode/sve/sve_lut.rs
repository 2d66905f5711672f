//! FEAT_LUT lookup-table reads: SVE `LUTI2` / `LUTI4`.
//!
//! They live at top byte `0x45` with the `<21>=1`, `<15:13>=101` skeleton.
//! `<10>` picks the family (0 = `LUTI2`, 1 = `LUTI4`); `<12>` and `<11>` pick
//! the element size and the number of table registers. The third operand is a
//! vector-element selector `Zm[index]` whose index is spread over `<23:22>`
//! (and `<12>` for `LUTI2 .H`):
//!
//! | Form               | `<12>` | `<11>` | `<10>` | index bits        |
//! |--------------------|--------|--------|--------|-------------------|
//! | `LUTI2 .B`         | `1`    | `0`    | `0`    | `<23>:<22>`       |
//! | `LUTI2 .H`         | idx    | `1`    | `0`    | `<23>:<22>:<12>`  |
//! | `LUTI4 .B`         | `0`    | `0`    | `1`    | `<23>` (`<22>=1`) |
//! | `LUTI4 .H`         | `1`    | `1`    | `1`    | `<23>:<22>`       |
//! | `LUTI4 .H` 2-table | `1`    | `0`    | `1`    | `<23>:<22>`       |
use vstd::prelude::*;
use crate::bits::{bit, bits, field};
use crate::code::{Code, Mnemonic};
use crate::decode::ops::{zidx, zidx_spec, zlist1, zlist1_spec, zlist2, zlist2_spec, zreg, zreg_spec};
use crate::features::{Feature, FeatureSet};
use crate::instruction::Instruction;
use crate::operand::Operand;
use crate::types::VectorArrangement as VA;

verus! {

/// The instruction a FEAT_LUT word encodes, as (code, mnemonic, operands), or
/// `None` when the word is not one of the five forms of the table above.
pub open spec fn lut_form(word: u32) -> Option<(Code, Mnemonic, Seq<Operand>)> {
    let zm = field(word, 16, 5);
    let zn = field(word, 5, 5);
    let zd = field(word, 0, 5);
    let b23 = field(word, 23, 1);
    let b22 = field(word, 22, 1);
    let b12 = field(word, 12, 1);
    let b11 = field(word, 11, 1);
    if field(word, 24, 8) != 0x45 || field(word, 21, 1) != 1 || field(word, 13, 3) != 0b101 {
        None
    } else if field(word, 10, 1) == 0 {
        if b11 == 0 {
            if b12 != 1 {
                None
            } else {
                Some((Code::SveLuti2, Mnemonic::Luti2, seq![
                    zreg_spec(zd, VA::Sb),
                    zlist1_spec(zn, VA::Sb),
                    zidx_spec(zm, (2 * b23 + b22) as u32),
                ]))
            }
        } else {
            Some((Code::SveLuti2, Mnemonic::Luti2, seq![
                zreg_spec(zd, VA::Sh),
                zlist1_spec(zn, VA::Sh),
                zidx_spec(zm, (4 * b23 + 2 * b22 + b12) as u32),
            ]))
        }
    } else if b12 == 0 && b11 == 0 {
        if b22 != 1 {
            None
        } else {
            Some((Code::SveLuti4, Mnemonic::Luti4, seq![
                zreg_spec(zd, VA::Sb),
                zlist1_spec(zn, VA::Sb),
                zidx_spec(zm, b23),
            ]))
        }
    } else if b12 == 1 && b11 == 1 {
        Some((Code::SveLuti4, Mnemonic::Luti4, seq![
            zreg_spec(zd, VA::Sh),
            zlist1_spec(zn, VA::Sh),
            zidx_spec(zm, (2 * b23 + b22) as u32),
        ]))
    } else if b12 == 1 && b11 == 0 {
        Some((Code::SveLuti4Two, Mnemonic::Luti4, seq![
            zreg_spec(zd, VA::Sh),
            zlist2_spec(zn, VA::Sh),
            zidx_spec(zm, (2 * b23 + b22) as u32),
        ]))
    } else {
        None
    }
}

/// `out` holds exactly the instruction `form` on top of `before`.
pub open spec fn holds_form(before: Instruction, after: Instruction, form: (Code, Mnemonic, Seq<Operand>)) -> bool {
    &&& after.code == form.0
    &&& after.mnemonic == form.1
    &&& after.operands() =~= form.2
    &&& after.len == form.2.len()
    &&& after.ip == before.ip
}

/// Install a three-operand instruction into a blank `out`.
fn put3(out: &mut Instruction, code: Code, mnemonic: Mnemonic, a: Operand, b: Operand, c: Operand)
    requires
        old(out).is_blank(),
    ensures
        final(out).wf(),
        holds_form(*old(out), *final(out), (code, mnemonic, seq![a, b, c])),
{
    out.set(code);
    out.set_mnemonic(mnemonic);
    out.push_operand(a);
    out.push_operand(b);
    out.push_operand(c);
}

/// Decode an SVE `LUTI2`/`LUTI4` lookup-table read into `out`.
///
/// Recognises exactly the forms of [`lut_form`], and only when FEAT_LUT is
/// enabled; anything else leaves `out` untouched.
pub fn decode(word: u32, features: FeatureSet, out: &mut Instruction)
    requires
        features.contains(Feature::Lut) ==> old(out).is_blank(),
    ensures
        features.contains(Feature::Lut) ==> final(out).wf(),
        features.contains(Feature::Lut) && lut_form(word) is Some ==> holds_form(
            *old(out),
            *final(out),
            lut_form(word)->0,
        ),
        !(features.contains(Feature::Lut) && lut_form(word) is Some) ==> *final(out) == *old(out),
{
    if bits(word, 24, 8) != 0b0100_0101 || bit(word, 21) != 1 || bits(word, 13, 3) != 0b101 {
        return;
    }
    if !features.has(Feature::Lut) {
        return;
    }
    let zm: u32 = bits(word, 16, 5);
    let zn: u32 = bits(word, 5, 5);
    let zd: u32 = bits(word, 0, 5);
    let b23: u32 = bit(word, 23);
    let b22: u32 = bit(word, 22);
    let b12: u32 = bit(word, 12);
    let b11: u32 = bit(word, 11);

    if bit(word, 10) == 0 {
        if b11 == 0 {
            // LUTI2 .B: 2-bit index at <23:22>; <12> is a fixed 1.
            if b12 != 1 {
                return;
            }
            let index: u32 = b23 * 2 + b22;
            put3(out, Code::SveLuti2, Mnemonic::Luti2, zreg(zd, VA::Sb), zlist1(zn, VA::Sb), zidx(zm, index));
        } else {
            // LUTI2 .H: 3-bit index = <23>:<22>:<12>.
            let index: u32 = b23 * 4 + b22 * 2 + b12;
            put3(out, Code::SveLuti2, Mnemonic::Luti2, zreg(zd, VA::Sh), zlist1(zn, VA::Sh), zidx(zm, index));
        }
    } else if b12 == 0 && b11 == 0 {
        // LUTI4 .B single table: 1-bit index at <23>; <22> is a fixed 1.
        if b22 != 1 {
            return;
        }
        put3(out, Code::SveLuti4, Mnemonic::Luti4, zreg(zd, VA::Sb), zlist1(zn, VA::Sb), zidx(zm, b23));
    } else if b12 == 1 && b11 == 1 {
        // LUTI4 .H single table: 2-bit index at <23:22>.
        let index: u32 = b23 * 2 + b22;
        put3(out, Code::SveLuti4, Mnemonic::Luti4, zreg(zd, VA::Sh), zlist1(zn, VA::Sh), zidx(zm, index));
    } else if b12 == 1 && b11 == 0 {
        // LUTI4 .H with two table registers: 2-bit index at <23:22>.
        let index: u32 = b23 * 2 + b22;
        put3(out, Code::SveLuti4Two, Mnemonic::Luti4, zreg(zd, VA::Sh), zlist2(zn, VA::Sh), zidx(zm, index));
    }
    // (<12>, <11>) = (0, 1) is unallocated.
}

} // verus!
