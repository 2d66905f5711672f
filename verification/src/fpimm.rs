//! Exact floating-point immediates.
use vstd::prelude::*;
use crate::bits::{bits, field};
use crate::operand::FpConst;

verus! {

/// The non-negative constant `mant / 2^scale`.
pub fn fp_const(mant: u8, scale: u8) -> (r: FpConst)
    ensures
        r == (FpConst { neg: false, mant, scale }),
{
    FpConst { neg: false, mant, scale }
}

/// The constant encoded by an 8-bit floating-point immediate `a:b:cd:efgh`:
/// `(-1)^a * (16 + efgh) * 2^(k - 4)` with `k = cd + 1` when `b == 0` and
/// `k = cd - 3` when `b == 1` (the same value at every element width).
pub open spec fn fp_imm8_spec(imm8: u32) -> FpConst {
    let cd = field(imm8, 4, 2);
    FpConst {
        neg: field(imm8, 7, 1) == 1,
        mant: (16 + field(imm8, 0, 4)) as u8,
        scale: (if field(imm8, 6, 1) == 0 { 3 - cd } else { 7 - cd }) as u8,
    }
}

/// Expand an 8-bit floating-point immediate.
pub fn fp_expand_imm8(imm8: u32) -> (r: FpConst)
    ensures
        r == fp_imm8_spec(imm8),
{
    let cd = bits(imm8, 4, 2);
    let efgh = bits(imm8, 0, 4);
    let scale: u32 = if bits(imm8, 6, 1) == 0 { 3 - cd } else { 7 - cd };
    FpConst { neg: bits(imm8, 7, 1) == 1, mant: (16 + efgh) as u8, scale: scale as u8 }
}

} // verus!
