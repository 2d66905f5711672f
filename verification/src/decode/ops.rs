//! Operand constructors shared by the SVE / SME decoders, each with the exact
//! operand it builds.
use vstd::prelude::*;
use crate::operand::Operand;
use crate::types::{gp_register, gp_spec, reg_of, PredQual, RegKind, RegWidth, Register, VectorArrangement as VA};

verus! {

/// Element arrangement `.b`/`.h`/`.s`/`.d` selected by a 2-bit `size`.
pub open spec fn arr_spec(size: u32) -> VA {
    if size & 3 == 0 {
        VA::Sb
    } else if size & 3 == 1 {
        VA::Sh
    } else if size & 3 == 2 {
        VA::Ss
    } else {
        VA::Sd
    }
}

/// Element-size arrangement (`.b`/`.h`/`.s`/`.d`) from a 2-bit `size`.
pub fn arr(size: u32) -> (r: VA)
    ensures
        r == arr_spec(size),
{
    match size & 3 {
        0 => VA::Sb,
        1 => VA::Sh,
        2 => VA::Ss,
        _ => VA::Sd,
    }
}

/// A plain register operand.
pub open spec fn reg_op(reg: Register, arr: Option<VA>, lane: Option<u8>, pred: Option<PredQual>) -> Operand {
    Operand::Reg { reg, arr, lane, pred }
}

/// `Z<n>.<T>`.
pub open spec fn zreg_spec(n: u32, a: VA) -> Operand {
    reg_op(reg_of(RegKind::Z, n, 0x1f), Some(a), None, None)
}

/// A scalable `Z{n}` operand with arrangement `a`.
pub fn zreg(n: u32, a: VA) -> (r: Operand)
    ensures
        r == zreg_spec(n, a),
{
    Operand::Reg { reg: Register::z(n), arr: Some(a), lane: None, pred: None }
}

/// `Z<n>.<T>[lane]`.
pub open spec fn zreg_idx_spec(n: u32, a: VA, lane: u8) -> Operand {
    reg_op(reg_of(RegKind::Z, n, 0x1f), Some(a), Some(lane), None)
}

/// A scalable `Z{n}` operand with arrangement `a` and an element-index lane.
pub fn zreg_idx(n: u32, a: VA, lane: u8) -> (r: Operand)
    ensures
        r == zreg_idx_spec(n, a, lane),
{
    Operand::Reg { reg: Register::z(n), arr: Some(a), lane: Some(lane), pred: None }
}

/// `P<n>/<q>`.
pub open spec fn preg_q_spec(n: u32, q: PredQual) -> Operand {
    reg_op(reg_of(RegKind::P, n, 0xf), None, None, Some(q))
}

/// A governing predicate `P{n}` with a `/z` or `/m` qualifier.
pub fn preg_q(n: u32, q: PredQual) -> (r: Operand)
    ensures
        r == preg_q_spec(n, q),
{
    Operand::Reg { reg: Register::p(n), arr: None, lane: None, pred: Some(q) }
}

/// `P<n>`.
pub open spec fn preg_spec(n: u32) -> Operand {
    reg_op(reg_of(RegKind::P, n, 0xf), None, None, None)
}

/// A bare predicate `P{n}` (no qualifier, no size).
pub fn preg(n: u32) -> (r: Operand)
    ensures
        r == preg_spec(n),
{
    Operand::Reg { reg: Register::p(n), arr: None, lane: None, pred: None }
}

/// `P<n>.<T>`.
pub open spec fn preg_sz_spec(n: u32, a: VA) -> Operand {
    reg_op(reg_of(RegKind::P, n, 0xf), Some(a), None, None)
}

/// A sized predicate `P{n}.<T>`.
pub fn preg_sz(n: u32, a: VA) -> (r: Operand)
    ensures
        r == preg_sz_spec(n, a),
{
    Operand::Reg { reg: Register::p(n), arr: Some(a), lane: None, pred: None }
}

/// A general-purpose register, number 31 being the zero register.
pub open spec fn gpr_spec(n: u32, w: RegWidth) -> Operand {
    reg_op(gp_spec(false, w, n as u8), None, None, None)
}

/// A bare general-purpose register operand (`X`/`W`), reg-31 as ZR.
pub fn gpr(n: u32, w: RegWidth) -> (r: Operand)
    ensures
        r == gpr_spec(n, w),
{
    Operand::Reg { reg: gp_register(false, w, n as u8), arr: None, lane: None, pred: None }
}

/// A general-purpose register, number 31 being the stack pointer.
pub open spec fn gpr_sp_spec(n: u32, w: RegWidth) -> Operand {
    reg_op(gp_spec(true, w, n as u8), None, None, None)
}

/// A general-purpose register operand with reg-31 resolved to SP.
pub fn gpr_sp(n: u32, w: RegWidth) -> (r: Operand)
    ensures
        r == gpr_sp_spec(n, w),
{
    Operand::Reg { reg: gp_register(true, w, n as u8), arr: None, lane: None, pred: None }
}

/// `V<n>.<T>`.
pub open spec fn vreg_spec(n: u32, a: VA) -> Operand {
    reg_op(reg_of(RegKind::V, n, 0x1f), Some(a), None, None)
}

/// A NEON `V{n}` operand with a full-128-bit arrangement.
pub fn vreg(n: u32, a: VA) -> (r: Operand)
    ensures
        r == vreg_spec(n, a),
{
    Operand::Reg { reg: Register::v(n), arr: Some(a), lane: None, pred: None }
}

/// The 128-bit NEON arrangement of the element `size` (`.8h`/`.4s`/`.2d`).
pub open spec fn va_neon_spec(size: u32) -> VA {
    if size & 3 == 1 {
        VA::V8H
    } else if size & 3 == 2 {
        VA::V4S
    } else {
        VA::V2D
    }
}

/// The full-128-bit NEON arrangement matching element `size`.
pub fn va_neon(size: u32) -> (r: VA)
    ensures
        r == va_neon_spec(size),
{
    match size & 3 {
        1 => VA::V8H,
        2 => VA::V4S,
        _ => VA::V2D,
    }
}

/// The 128-bit NEON arrangement of an integer element `size`
/// (`.16b`/`.8h`/`.4s`/`.2d`).
pub open spec fn va_neon_int_spec(size: u32) -> VA {
    if size & 3 == 0 {
        VA::V16B
    } else {
        va_neon_spec(size)
    }
}

/// The full-128-bit NEON arrangement matching integer element `size`.
pub fn va_neon_int(size: u32) -> (r: VA)
    ensures
        r == va_neon_int_spec(size),
{
    match size & 3 {
        0 => VA::V16B,
        1 => VA::V8H,
        2 => VA::V4S,
        _ => VA::V2D,
    }
}

/// The scalar SIMD&FP register bank of an element `size` (`B`/`H`/`S`/`D`).
pub open spec fn scalar_kind(size: u32) -> RegKind {
    if size & 3 == 0 {
        RegKind::B
    } else if size & 3 == 1 {
        RegKind::H
    } else if size & 3 == 2 {
        RegKind::S
    } else {
        RegKind::D
    }
}

/// `B<n>`/`H<n>`/`S<n>`/`D<n>` by element size.
pub open spec fn scalar_fp_spec(n: u32, size: u32) -> Operand {
    reg_op(reg_of(scalar_kind(size), n, 0x1f), None, None, None)
}

/// A scalar SIMD `B/H/S/D` operand of the element width for `size`.
pub fn scalar_fp(n: u32, size: u32) -> (r: Operand)
    ensures
        r == scalar_fp_spec(n, size),
{
    let reg = match size & 3 {
        0 => Register::b(n),
        1 => Register::h(n),
        2 => Register::s(n),
        _ => Register::d(n),
    };
    Operand::Reg { reg, arr: None, lane: None, pred: None }
}

/// `Z<n>.Q`.
pub open spec fn zreg_q_spec(n: u32) -> Operand {
    reg_op(reg_of(RegKind::Z, n, 0x1f), Some(VA::Sq), None, None)
}

/// A scalable `Z{n}.Q` operand (128-bit element).
pub fn zreg_q(n: u32) -> (r: Operand)
    ensures
        r == zreg_q_spec(n),
{
    Operand::Reg { reg: Register::z(n), arr: Some(VA::Sq), lane: None, pred: None }
}

/// `Z<n>[index]` without an arrangement.
pub open spec fn zidx_spec(m: u32, index: u32) -> Operand {
    reg_op(reg_of(RegKind::Z, m, 0x1f), None, Some(index as u8), None)
}

/// A bare `Z{m}[index]` operand.
pub fn zidx(m: u32, index: u32) -> (r: Operand)
    ensures
        r == zidx_spec(m, index),
{
    Operand::Reg { reg: Register::z(m), arr: None, lane: Some(index as u8), pred: None }
}

/// `{Z<n>.T}`.
pub open spec fn zlist1_spec(n: u32, a: VA) -> Operand {
    Operand::MultiReg {
        regs: [reg_of(RegKind::Z, n, 0x1f), Register { kind: RegKind::Absent, num: 0 }, Register {
            kind: RegKind::Absent,
            num: 0,
        }, Register { kind: RegKind::Absent, num: 0 }],
        count: 1,
        arr: Some(a),
        lane: None,
    }
}

/// A single-register Z list `{Z{n}.<T>}`.
pub fn zlist1(n: u32, a: VA) -> (r: Operand)
    ensures
        r == zlist1_spec(n, a),
{
    Operand::MultiReg { regs: [Register::z(n), Register::none(), Register::none(), Register::none()], count: 1, arr: Some(a), lane: None }
}

/// `{Z<n>.T, Z<n+1>.T}` (register numbers modulo 32).
pub open spec fn zlist2_spec(n: u32, a: VA) -> Operand {
    Operand::MultiReg {
        regs: [reg_of(RegKind::Z, n, 0x1f), reg_of(RegKind::Z, ((n & 0x1f) + 1) as u32, 0x1f), Register {
            kind: RegKind::Absent,
            num: 0,
        }, Register { kind: RegKind::Absent, num: 0 }],
        count: 2,
        arr: Some(a),
        lane: None,
    }
}

/// A two-register Z list `{Z{n}.<T>, Z{n+1}.<T>}`.
pub fn zlist2(n: u32, a: VA) -> (r: Operand)
    ensures
        r == zlist2_spec(n, a),
{
    let n0 = n & 0x1f;
    assert(n0 <= 31) by (bit_vector)
        requires
            n0 == n & 0x1f,
    ;
    Operand::MultiReg {
        regs: [Register::z(n), Register::z(n0 + 1), Register::none(), Register::none()],
        count: 2,
        arr: Some(a),
        lane: None,
    }
}

/// Register `i` of a consecutive Z list of `n` registers starting at `zt`
/// (numbers modulo 32), or the absent register past the end.
pub open spec fn zl_reg(zt: u32, i: u32, n: u8) -> Register {
    if (i as int) < (n as int) {
        reg_of(RegKind::Z, ((zt & 0x1f) + i) as u32, 0x1f)
    } else {
        Register { kind: RegKind::Absent, num: 0 }
    }
}

/// `{Z<zt>.T, ..., Z<zt+n-1>.T}` for `n` up to four registers.
pub open spec fn zlist_spec(zt: u32, n: u8, a: VA) -> Operand {
    Operand::MultiReg {
        regs: [zl_reg(zt, 0, n), zl_reg(zt, 1, n), zl_reg(zt, 2, n), zl_reg(zt, 3, n)],
        count: if n > 4 { 4 } else { n },
        arr: Some(a),
        lane: None,
    }
}

/// A list of `n` consecutive Z registers (at most four) starting at `zt`.
pub fn zlist(zt: u32, n: u8, a: VA) -> (r: Operand)
    ensures
        r == zlist_spec(zt, n, a),
{
    let z0 = zt & 0x1f;
    assert(z0 <= 31) by (bit_vector)
        requires
            z0 == zt & 0x1f,
    ;
    let r0 = if n > 0 { Register::z(z0) } else { Register::none() };
    let r1 = if n > 1 { Register::z(z0 + 1) } else { Register::none() };
    let r2 = if n > 2 { Register::z(z0 + 2) } else { Register::none() };
    let r3 = if n > 3 { Register::z(z0 + 3) } else { Register::none() };
    assert((z0 & 0x1f) == z0) by (bit_vector)
        requires
            z0 <= 31,
    ;
    let count = if n > 4 { 4 } else { n };
    Operand::MultiReg { regs: [r0, r1, r2, r3], count, arr: Some(a), lane: None }
}

/// `{ Z<first>.T, Z<first+stride>.T, ... }` with `count` registers (numbers
/// modulo 32); a consecutive group of four that does not wrap is written as
/// the range `{ Z<first>.T - Z<first+3>.T }`.
pub open spec fn vgroup_spec(first: u32, count: u8, arr: Option<VA>, stride: u8) -> Operand {
    Operand::SveVecGroup {
        first: reg_of(RegKind::Z, first, 0x1f),
        count,
        arr,
        range: stride == 1 && count == 4 && (first as int) + 3 < 32,
        stride,
        lane: None,
    }
}

/// A register group of `count` Z registers, `stride` apart, from `first`.
pub fn vgroup(first: u32, count: u8, arr: Option<VA>, stride: u8) -> (r: Operand)
    ensures
        r == vgroup_spec(first, count, arr, stride),
{
    Operand::SveVecGroup {
        first: Register::z(first),
        count,
        arr,
        range: stride == 1 && count == 4 && first < 29,
        stride,
        lane: None,
    }
}

/// A consecutive register group `{ Z<first>.T, ... }` of `count` registers.
pub fn zgroup(first: u32, count: u8, arr: VA) -> (r: Operand)
    ensures
        r == vgroup_spec(first, count, Some(arr), 1),
{
    vgroup(first, count, Some(arr), 1)
}

} // verus!
