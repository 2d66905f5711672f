//! The SVE / SVE2 encoding group (`op0 = word<28:25> = 0b0010`).
//!
//! The eight quadrants are selected by `word<31:29>`: `000`/`001` integer,
//! permute and predicate forms, `010` SVE2 integer multiply-add and table
//! lookups, `011` floating point, `100`..`111` memory.
use vstd::prelude::*;
use crate::bits::{bits, field, low_mask};
use crate::decode::{decode_post, installed, yields};
use crate::features::{Feature, FeatureSet};
use crate::instruction::Instruction;
use crate::code::{code_mnemonic, Code, Mnemonic};
use crate::operand::Operand;

pub mod sve_fp;
pub mod sve_int;
pub mod sve_lut;
pub mod sve_mem;
pub mod sve_perm;

verus! {

/// A floating-point form given as (code, operands), with the code's own
/// mnemonic.
pub open spec fn with_code_mnemonic(f: Option<(Code, Seq<Operand>)>) -> Option<(Code, Mnemonic, Seq<Operand>)> {
    match f {
        Some(p) => Some((p.0, code_mnemonic(p.0), p.1)),
        None => None,
    }
}

/// An `FMOV` immediate form of `code` with the operands `ops`.
pub open spec fn fmov_form(code: Code, ops: Option<Seq<Operand>>) -> Option<(Code, Mnemonic, Seq<Operand>)> {
    match ops {
        Some(o) => Some((code, Mnemonic::Fmov, o)),
        None => None,
    }
}

/// The instruction an SVE word (`op0 == 0010`) encodes under `features`, or
/// `None`. In the `000`/`001` quadrants the integer form comes first, then
/// the permute / predicate form (top bytes `0x05`, `0x25`), then the few
/// floating-point leaves sharing those bytes; in the `010` quadrant the
/// integer form, then the FEAT_LUT reads; `011` is the floating-point
/// group and `100`..`111` the memory group. Without FEAT_SVE only the
/// FEAT_LUT reads remain.
#[verifier::opaque]
pub open spec fn sve_form(word: u32, features: FeatureSet) -> Option<(Code, Mnemonic, Seq<Operand>)> {
    let sve = features.contains(Feature::Sve);
    let quad = field(word, 29, 3);
    let hi = field(word, 24, 8);
    if field(word, 25, 4) != 0b0010 {
        None
    } else if quad == 0b000 || quad == 0b001 {
        if !sve {
            None
        } else if sve_int::int_form(word, features) is Some {
            sve_int::int_form(word, features)
        } else if hi == 0x05 {
            if sve_perm::perm_form(word, features) is Some {
                sve_perm::perm_form(word, features)
            } else {
                fmov_form(Code::SveFcpy, sve_fp::fcpy_05_form(word))
            }
        } else if hi == 0x25 {
            if sve_perm::pred25_form(word, features) is Some {
                sve_perm::pred25_form(word, features)
            } else {
                fmov_form(Code::SveFdup, sve_fp::fdup_25_form(word))
            }
        } else if hi == 0x04 {
            with_code_mnemonic(sve_fp::fp_misc_04_form(word))
        } else {
            None
        }
    } else if quad == 0b010 {
        if sve && sve_int::int_form(word, features) is Some {
            sve_int::int_form(word, features)
        } else if features.contains(Feature::Lut) {
            sve_lut::lut_form(word)
        } else {
            None
        }
    } else if quad == 0b011 {
        sve_fp::fp_form(word, features)
    } else if sve {
        sve_mem::mem_form(word, features)
    } else {
        None
    }
}

/// The top bytes of the SVE quadrants: with `op0 == 0010`, quadrant `q`
/// holds the top bytes `q:0010:0` and `q:0010:1`.
pub proof fn lemma_sve_tops(word: u32)
    ensures
        field(word, 25, 4) == 0b0010 ==> {
            let q = field(word, 29, 3);
            let hi = field(word, 24, 8);
            &&& q == 0 ==> hi == 0x04 || hi == 0x05
            &&& q == 1 ==> hi == 0x24 || hi == 0x25
            &&& q == 2 ==> hi == 0x44 || hi == 0x45
        },
{
    assert(((word >> 25u32) & low_mask(4)) == 0b0010 ==> {
        let q = (word >> 29u32) & low_mask(3);
        let hi = (word >> 24u32) & low_mask(8);
        &&& q == 0 ==> hi == 0x04 || hi == 0x05
        &&& q == 1 ==> hi == 0x24 || hi == 0x25
        &&& q == 2 ==> hi == 0x44 || hi == 0x45
    }) by (bit_vector)
        requires
            low_mask(8) == 0xff,
            low_mask(3) == 0x7,
            low_mask(4) == 0xf,
    ;
}

/// Decode a single SVE/SVE2 instruction `word` at `ip` into `out`.
///
/// The integer quadrants try the integer decoder first and fall back to the
/// permute/predicate decoder, then to the few floating-point leaves (or the
/// FEAT_LUT reads) that share them.
pub fn decode(word: u32, ip: u64, features: FeatureSet, out: &mut Instruction)
    requires
        old(out).is_blank(),
    ensures
        decode_post(*old(out), *final(out)),
        !features.contains(Feature::Sve) && !features.contains(Feature::Lut) ==> *final(out) == *old(out),
        field(word, 25, 4) == 0b0010 ==> yields(*old(out), *final(out), sve_form(word, features)),
        field(word, 25, 4) != 0b0010 ==> *final(out) == *old(out),
{
    proof {
        sve_int::lemma_int_form(word, features);
        sve_perm::lemma_perm_form(word, features);
        sve_fp::lemma_fp_form(word, features);
        sve_mem::lemma_mem_form_group(word, features);
        lemma_sve_tops(word);
        reveal(sve_form);
    }
    match bits(word, 29, 3) {
        0b000 | 0b001 => {
            sve_int::decode(word, ip, features, out);
            if out.is_invalid() {
                sve_perm::decode(word, ip, features, out);
            }
            if out.is_invalid() {
                match bits(word, 24, 8) {
                    0x04 => sve_fp::decode_fp_misc_04(word, features, out),
                    0x05 => sve_fp::decode_fcpy_05(word, features, out),
                    0x25 => sve_fp::decode_fdup_25(word, features, out),
                    _ => {},
                }
            }
        },
        0b010 => {
            sve_int::decode(word, ip, features, out);
            if out.is_invalid() {
                sve_perm::decode(word, ip, features, out);
            }
            if out.is_invalid() {
                sve_lut::decode(word, features, out);
            }
        },
        0b011 => sve_fp::decode(word, ip, features, out),
        _ => sve_mem::decode(word, ip, features, out),
    }
}

} // verus!
