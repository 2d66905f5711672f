//! Registers, vector arrangements and the small enumerations operands carry.
use vstd::prelude::*;

verus! {

/// Element arrangement of a vector operand (`.b`/`.h`/`.s`/`.d`/`.q` for the
/// scalable forms, `.16b`/`.8h`/`.4s`/`.2d` for full NEON registers).
#[derive(Clone, Copy, PartialEq, Eq, Debug, Structural)]
pub enum VectorArrangement {
    Sb,
    Sh,
    Ss,
    Sd,
    Sq,
    V16B,
    V8H,
    V4S,
    V2D,
}

/// Extend / shift modifier of a register offset in an address.
#[derive(Clone, Copy, PartialEq, Eq, Debug, Structural)]
pub enum ExtendType {
    Uxtw,
    Sxtw,
    Uxtx,
}

/// The qualifier of a governing predicate (`/m`, `/z`, or none).
#[derive(Clone, Copy, PartialEq, Eq, Debug, Structural)]
pub enum PredQual {
    Plain,
    Merging,
    Zeroing,
}

/// How an SVE address operand is rendered.
#[derive(Clone, Copy, PartialEq, Eq, Debug, Structural)]
pub enum SveMemMode {
    /// `[Xn{, #imm, mul vl}]`
    ScalarImmMulVl,
    /// `[Xn{, #imm}]` with a hexadecimal immediate.
    ScalarImm,
    /// `[Xn{, #imm}]` with a decimal immediate.
    ScalarImmDec,
    /// `[Xn, Zm.T{, <mod> #amt}]`
    ScalarVec,
    /// `[Zn.T{, #imm}]`
    VecImm,
    /// `[Zn.T{, Xm}]`
    VecScalar,
    /// `[Zn.T, Zm.T{, <mod> #amt}]`
    VecVec,
}

/// Horizontal / vertical selector of a ZA tile slice.
#[derive(Clone, Copy, PartialEq, Eq, Debug, Structural)]
pub enum SliceIndicator {
    Neither,
    Horizontal,
    Vertical,
}

/// Width of a general-purpose register.
#[derive(Clone, Copy, PartialEq, Eq, Debug, Structural)]
pub enum RegWidth {
    W32,
    X64,
}

/// The bank a register belongs to.
#[derive(Clone, Copy, PartialEq, Eq, Debug, Structural)]
pub enum RegKind {
    /// No register.
    Absent,
    X,
    W,
    Sp,
    Wsp,
    Xzr,
    Wzr,
    B,
    H,
    S,
    D,
    Q,
    V,
    Z,
    P,
    Pn,
    Zt,
}

/// A register: its bank and its number within the bank.
#[derive(Clone, Copy, PartialEq, Eq, Debug, Structural)]
pub struct Register {
    pub kind: RegKind,
    pub num: u8,
}

/// The register of bank `kind` numbered by the low `bits_mask` bits of `n`.
pub open spec fn reg_of(kind: RegKind, n: u32, bits_mask: u32) -> Register {
    Register { kind, num: (n & bits_mask) as u8 }
}

impl Register {
    /// The absent register.
    pub fn none() -> (r: Register)
        ensures
            r == (Register { kind: RegKind::Absent, num: 0 }),
    {
        Register { kind: RegKind::Absent, num: 0 }
    }

    /// `Z<n & 31>`.
    pub fn z(n: u32) -> (r: Register)
        ensures
            r == reg_of(RegKind::Z, n, 0x1f),
    {
        Register { kind: RegKind::Z, num: (n & 0x1f) as u8 }
    }

    /// `P<n & 15>`.
    pub fn p(n: u32) -> (r: Register)
        ensures
            r == reg_of(RegKind::P, n, 0xf),
    {
        Register { kind: RegKind::P, num: (n & 0xf) as u8 }
    }

    /// `PN<n & 15>` (a predicate used as a counter).
    pub fn pn(n: u32) -> (r: Register)
        ensures
            r == reg_of(RegKind::Pn, n, 0xf),
    {
        Register { kind: RegKind::Pn, num: (n & 0xf) as u8 }
    }

    /// `B<n & 31>`.
    pub fn b(n: u32) -> (r: Register)
        ensures
            r == reg_of(RegKind::B, n, 0x1f),
    {
        Register { kind: RegKind::B, num: (n & 0x1f) as u8 }
    }

    /// `H<n & 31>`.
    pub fn h(n: u32) -> (r: Register)
        ensures
            r == reg_of(RegKind::H, n, 0x1f),
    {
        Register { kind: RegKind::H, num: (n & 0x1f) as u8 }
    }

    /// `S<n & 31>`.
    pub fn s(n: u32) -> (r: Register)
        ensures
            r == reg_of(RegKind::S, n, 0x1f),
    {
        Register { kind: RegKind::S, num: (n & 0x1f) as u8 }
    }

    /// `D<n & 31>`.
    pub fn d(n: u32) -> (r: Register)
        ensures
            r == reg_of(RegKind::D, n, 0x1f),
    {
        Register { kind: RegKind::D, num: (n & 0x1f) as u8 }
    }

    /// `Q<n & 31>`.
    pub fn q(n: u32) -> (r: Register)
        ensures
            r == reg_of(RegKind::Q, n, 0x1f),
    {
        Register { kind: RegKind::Q, num: (n & 0x1f) as u8 }
    }

    /// `V<n & 31>`.
    pub fn v(n: u32) -> (r: Register)
        ensures
            r == reg_of(RegKind::V, n, 0x1f),
    {
        Register { kind: RegKind::V, num: (n & 0x1f) as u8 }
    }

    /// `ZT0`.
    pub fn zt0() -> (r: Register)
        ensures
            r == (Register { kind: RegKind::Zt, num: 0 }),
    {
        Register { kind: RegKind::Zt, num: 0 }
    }
}

/// The general-purpose register numbered `n` of the given width; number 31
/// names the stack pointer where `allow_sp` holds and the zero register
/// otherwise.
pub open spec fn gp_spec(allow_sp: bool, width: RegWidth, n: u8) -> Register {
    let m = n & 0x1f;
    if m == 31 {
        Register {
            kind: match (allow_sp, width) {
                (true, RegWidth::X64) => RegKind::Sp,
                (true, RegWidth::W32) => RegKind::Wsp,
                (false, RegWidth::X64) => RegKind::Xzr,
                (false, RegWidth::W32) => RegKind::Wzr,
            },
            num: 31,
        }
    } else {
        Register {
            kind: match width {
                RegWidth::X64 => RegKind::X,
                RegWidth::W32 => RegKind::W,
            },
            num: m,
        }
    }
}

/// Executable form of [`gp_spec`].
pub fn gp_register(allow_sp: bool, width: RegWidth, n: u8) -> (r: Register)
    ensures
        r == gp_spec(allow_sp, width, n),
{
    let m = n & 0x1f;
    if m == 31 {
        let kind = match (allow_sp, width) {
            (true, RegWidth::X64) => RegKind::Sp,
            (true, RegWidth::W32) => RegKind::Wsp,
            (false, RegWidth::X64) => RegKind::Xzr,
            (false, RegWidth::W32) => RegKind::Wzr,
        };
        Register { kind, num: 31 }
    } else {
        let kind = match width {
            RegWidth::X64 => RegKind::X,
            RegWidth::W32 => RegKind::W,
        };
        Register { kind, num: m }
    }
}

} // verus!
