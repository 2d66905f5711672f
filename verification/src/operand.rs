//! Instruction operands.
use vstd::prelude::*;
use crate::types::{ExtendType, PredQual, Register, SliceIndicator, SveMemMode, VectorArrangement};

verus! {

/// A floating-point immediate held exactly as `(-1)^neg * mant / 2^scale`.
#[derive(Clone, Copy, PartialEq, Eq, Debug, Structural)]
pub struct FpConst {
    pub neg: bool,
    pub mant: u8,
    pub scale: u8,
}

/// One operand of a decoded instruction.
#[derive(Clone, Copy, PartialEq, Eq, Debug)]
pub enum Operand {
    /// An empty operand slot.
    Empty,
    /// A register, optionally with an arrangement, an element index and a
    /// predicate qualifier.
    Reg {
        reg: Register,
        arr: Option<VectorArrangement>,
        lane: Option<u8>,
        pred: Option<PredQual>,
    },
    /// An unsigned immediate (`#0x..`).
    ImmUnsigned(u64),
    /// A signed immediate: hexadecimal when non-negative, decimal when negative.
    ImmSignedDec(i64),
    /// A zero immediate with an explicit left shift (`#0x0, lsl #0x8`).
    ImmShiftedMove { imm: u64, lsl: u8 },
    /// A floating-point immediate.
    FpImm(FpConst),
    /// A decimal shift amount (`#31`).
    ShiftAmount(u8),
    /// An SVE predicate-constraint pattern (`vl4`, `pow2`, `all`, ...).
    SvePattern(u8),
    /// An SVE `mul #imm` multiplier.
    SveMul(u8),
    /// A vector-length multiplier (`vlx2` / `vlx4`).
    VlMul(u8),
    /// A brace register list without padding (`{z0.s, z1.s}`).
    MultiReg {
        regs: [Register; 4],
        count: u8,
        arr: Option<VectorArrangement>,
        lane: Option<u8>,
    },
    /// A padded register group (`{ z0.b, z1.b }` or `{ z0.b - z3.b }`).
    SveVecGroup {
        first: Register,
        count: u8,
        arr: Option<VectorArrangement>,
        range: bool,
        stride: u8,
        lane: Option<u8>,
    },
    /// A predicate-as-counter (`pn8`, `pn8/z`, `pn8.b`).
    PredCounter { reg: Register, zeroing: bool, arr: Option<VectorArrangement> },
    /// A predicate element selected by a W register and an immediate
    /// (`p0.b[w12, 0]`).
    IndexedElement { reg: Register, arr: Option<VectorArrangement>, index: Register, imm: i64 },
    /// A scalar-plus-scalar address (`[Xn, Xm{, lsl #amt}]`); the high bit of
    /// `shift` marks that the shift is shown, the low bits hold the amount.
    MemExt { base: Register, index: Register, extend: ExtendType, shift: u8 },
    /// An SVE address.
    SveMem {
        base: Register,
        offset: Register,
        arr: Option<VectorArrangement>,
        extend: ExtendType,
        imm: i32,
        amount: u8,
        mode: SveMemMode,
    },
    /// An SVE prefetch operation (`pldl1keep`, ...), by its 4-bit encoding.
    PrefetchOp(u8),
    /// A ZA tile (`za3.s`) with an optional slice direction.
    SmeTile { tile: u8, arr: Option<VectorArrangement> },
    /// A ZA tile slice (`z0v.b[w14, #0x5]`).
    SmeTileSlice {
        reg: Register,
        slice: SliceIndicator,
        arr: Option<VectorArrangement>,
        sel: Register,
        imm: u8,
        has_imm: bool,
    },
    /// A ZA array vector group (`za.s[w8, 0:3, vgx2]`).
    SmeZaSlice {
        arr: Option<VectorArrangement>,
        sel: Register,
        off: u8,
        span: u8,
        vg: u8,
        tile: u8,
        slice: SliceIndicator,
    },
    /// The tile mask of `ZERO` (`{za0.d, za1.d}`), or `{ zt0 }`.
    SmeZaMask { mask: u8, zt0: bool },
    /// `zt0[imm{, mul vl}]`.
    SmeZt0Index { index: u8, mul_vl: bool },
}

} // verus!
