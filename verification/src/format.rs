//! Textual rendering of decoded instructions (lower-case, mnemonic padded to
//! eight columns, operands separated by `", "`).
use vstd::prelude::*;
use vstd::string::StringSliceAdditionalSpecFns;
use crate::code::{mnemonic_spelling, mnemonic_text, Code, Mnemonic};
use crate::decode::shows;
use crate::instruction::{Instruction, MAX_OPERANDS};
use crate::operand::{FpConst, Operand};
use crate::types::{ExtendType, PredQual, RegKind, Register, SliceIndicator, SveMemMode, VectorArrangement as VA};

verus! {

/// The ASCII digit of a value below 16 (lower-case hexadecimal).
pub open spec fn digit_spec(d: u64) -> u8 {
    if d < 10 {
        (48 + d) as u8
    } else {
        (87 + d) as u8
    }
}

/// Hexadecimal digits of `v`, most significant first, without leading zeros.
pub open spec fn hex_spec(v: u64) -> Seq<u8>
    decreases v,
{
    if v < 16 {
        seq![digit_spec(v)]
    } else {
        hex_spec(v / 16).push(digit_spec(v % 16))
    }
}

/// Decimal digits of `v`, most significant first, without leading zeros.
pub open spec fn dec_spec(v: u64) -> Seq<u8>
    decreases v,
{
    if v < 10 {
        seq![digit_spec(v)]
    } else {
        dec_spec(v / 10).push(digit_spec(v % 10))
    }
}

fn digit(d: u64) -> (c: u8)
    requires
        d < 16,
    ensures
        c == digit_spec(d),
{
    if d < 10 {
        (48 + d) as u8
    } else {
        (87 + d) as u8
    }
}

/// Append the bytes of `s`.
pub fn push_str(out: &mut Vec<u8>, s: &str)
    ensures
        final(out)@ == old(out)@ + s.spec_bytes(),
{
    let b = s.as_bytes();
    let mut i: usize = 0;
    while i < b.len()
        invariant
            0 <= i <= b@.len(),
            b@ == s.spec_bytes(),
            out@ == old(out)@ + b@.take(i as int),
        decreases b@.len() - i,
    {
        out.push(b[i]);
        i = i + 1;
        assert(b@.take(i as int) == b@.take(i - 1 as int).push(b@[i - 1]));
    }
    assert(b@.take(b@.len() as int) == b@);
}

/// Append `v` in lower-case hexadecimal without prefix.
pub fn push_hex(out: &mut Vec<u8>, v: u64)
    ensures
        final(out)@ == old(out)@ + hex_spec(v),
    decreases v,
{
    if v >= 16 {
        push_hex(out, v / 16);
    }
    out.push(digit(v % 16));
    assert(v < 16 ==> v % 16 == v);
}

/// Append `v` in decimal.
pub fn push_dec(out: &mut Vec<u8>, v: u64)
    ensures
        final(out)@ == old(out)@ + dec_spec(v),
    decreases v,
{
    if v >= 10 {
        push_dec(out, v / 10);
    }
    out.push(digit(v % 10));
    assert(v < 10 ==> v % 10 == v);
}

/// `#0x<hex>`.
pub open spec fn imm_hex_text(v: u64) -> Seq<u8> {
    seq![35u8, 48u8, 120u8] + hex_spec(v)
}

/// `#0x<hex>`.
fn push_imm_hex(out: &mut Vec<u8>, v: u64)
    ensures
        final(out)@ == old(out)@ + imm_hex_text(v),
{
    out.push(35);
    out.push(48);
    out.push(120);
    push_hex(out, v);
}

/// The magnitude of a signed value.
pub open spec fn magnitude(v: i64) -> u64 {
    if v < 0 {
        (0 - v) as u64
    } else {
        v as u64
    }
}

fn abs64(v: i64) -> (r: u64)
    ensures
        r == magnitude(v),
{
    if v < 0 {
        if v == i64::MIN {
            0x8000_0000_0000_0000
        } else {
            (0 - v) as u64
        }
    } else {
        v as u64
    }
}

/// `#0x<hex>` for a non-negative value, `#-<decimal>` for a negative one.
pub open spec fn signed_text(v: i64) -> Seq<u8> {
    if v >= 0 {
        imm_hex_text(v as u64)
    } else {
        seq![35u8, 45u8] + dec_spec(magnitude(v))
    }
}

/// `-` for a negative value.
pub open spec fn minus(v: i64) -> Seq<u8> {
    if v < 0 {
        seq![45u8]
    } else {
        Seq::empty()
    }
}

/// `#0x<hex>` / `#-0x<hex>`.
pub open spec fn signed_hex_text(v: i64) -> Seq<u8> {
    seq![35u8] + minus(v) + seq![48u8, 120u8] + hex_spec(magnitude(v))
}

/// `#<decimal>` / `#-<decimal>`.
pub open spec fn signed_dec_text(v: i64) -> Seq<u8> {
    seq![35u8] + minus(v) + dec_spec(magnitude(v))
}

/// `#0x<hex>` for a non-negative value, `#-<decimal>` for a negative one.
fn push_signed(out: &mut Vec<u8>, v: i64)
    ensures
        final(out)@ == old(out)@ + signed_text(v),
{
    if v >= 0 {
        push_imm_hex(out, v as u64);
    } else {
        out.push(35);
        out.push(45);
        push_dec(out, abs64(v));
    }
}

/// `#0x<hex>` / `#-0x<hex>`.
fn push_signed_hex(out: &mut Vec<u8>, v: i64)
    ensures
        final(out)@ == old(out)@ + signed_hex_text(v),
{
    out.push(35);
    if v < 0 {
        out.push(45);
    }
    out.push(48);
    out.push(120);
    push_hex(out, abs64(v));
}

/// `#<decimal>` / `#-<decimal>`.
fn push_signed_dec(out: &mut Vec<u8>, v: i64)
    ensures
        final(out)@ == old(out)@ + signed_dec_text(v),
{
    out.push(35);
    if v < 0 {
        out.push(45);
    }
    push_dec(out, abs64(v));
}

/// The register-name prefix of a bank (`x`, `w`, `z`, `p`, ...); the banks
/// that are named without a number (`sp`, `wsp`, `xzr`, `wzr`, `zt0`) are
/// spelled out whole.
pub open spec fn kind_prefix(k: RegKind) -> &'static str {
    match k {
        RegKind::Absent => "",
        RegKind::X => "x",
        RegKind::W => "w",
        RegKind::Sp => "sp",
        RegKind::Wsp => "wsp",
        RegKind::Xzr => "xzr",
        RegKind::Wzr => "wzr",
        RegKind::B => "b",
        RegKind::H => "h",
        RegKind::S => "s",
        RegKind::D => "d",
        RegKind::Q => "q",
        RegKind::V => "v",
        RegKind::Z => "z",
        RegKind::P => "p",
        RegKind::Pn => "pn",
        RegKind::Zt => "zt0",
    }
}

/// Banks whose registers are spelled with their number.
pub open spec fn numbered(k: RegKind) -> bool {
    match k {
        RegKind::Absent | RegKind::Sp | RegKind::Wsp | RegKind::Xzr | RegKind::Wzr | RegKind::Zt => false,
        _ => true,
    }
}

/// The spelling of a register.
pub open spec fn reg_spelling(r: Register) -> Seq<u8> {
    kind_prefix(r.kind).spec_bytes() + if numbered(r.kind) { dec_spec(r.num as u64) } else { Seq::empty() }
}

fn prefix(k: RegKind) -> (s: &'static str)
    ensures
        s == kind_prefix(k),
{
    match k {
        RegKind::Absent => "",
        RegKind::X => "x",
        RegKind::W => "w",
        RegKind::Sp => "sp",
        RegKind::Wsp => "wsp",
        RegKind::Xzr => "xzr",
        RegKind::Wzr => "wzr",
        RegKind::B => "b",
        RegKind::H => "h",
        RegKind::S => "s",
        RegKind::D => "d",
        RegKind::Q => "q",
        RegKind::V => "v",
        RegKind::Z => "z",
        RegKind::P => "p",
        RegKind::Pn => "pn",
        RegKind::Zt => "zt0",
    }
}

/// Append the name of `r`.
pub fn push_reg(out: &mut Vec<u8>, r: Register)
    ensures
        final(out)@ == old(out)@ + reg_spelling(r),
{
    push_str(out, prefix(r.kind));
    let numbered = match r.kind {
        RegKind::Absent | RegKind::Sp | RegKind::Wsp | RegKind::Xzr | RegKind::Wzr | RegKind::Zt => false,
        _ => true,
    };
    if numbered {
        push_dec(out, r.num as u64);
    } else {
        assert(old(out)@ + kind_prefix(r.kind).spec_bytes() + Seq::<u8>::empty() == old(out)@ + kind_prefix(r.kind).spec_bytes());
    }
}

/// The arrangement suffix without its dot (`b`, `h`, `16b`, ...).
pub open spec fn arr_name(a: VA) -> &'static str {
    match a {
        VA::Sb => "b",
        VA::Sh => "h",
        VA::Ss => "s",
        VA::Sd => "d",
        VA::Sq => "q",
        VA::V16B => "16b",
        VA::V8H => "8h",
        VA::V4S => "4s",
        VA::V2D => "2d",
    }
}

fn arr_text(a: VA) -> (s: &'static str)
    ensures
        s == arr_name(a),
{
    match a {
        VA::Sb => "b",
        VA::Sh => "h",
        VA::Ss => "s",
        VA::Sd => "d",
        VA::Sq => "q",
        VA::V16B => "16b",
        VA::V8H => "8h",
        VA::V4S => "4s",
        VA::V2D => "2d",
    }
}

/// `.<arrangement>` when present.
pub open spec fn arr_suffix(a: Option<VA>) -> Seq<u8> {
    match a {
        Some(x) => seq![46u8] + arr_name(x).spec_bytes(),
        None => Seq::empty(),
    }
}

/// `.<arrangement>` when present.
fn push_arr(out: &mut Vec<u8>, a: Option<VA>)
    ensures
        final(out)@ == old(out)@ + arr_suffix(a),
{
    if let Some(a) = a {
        out.push(46);
        push_str(out, arr_text(a));
    }
}

/// `[<decimal>]` when present.
pub open spec fn lane_text(lane: Option<u8>) -> Seq<u8> {
    match lane {
        Some(l) => seq![91u8] + dec_spec(l as u64) + seq![93u8],
        None => Seq::empty(),
    }
}

/// `[<decimal>]` when present.
fn push_lane(out: &mut Vec<u8>, lane: Option<u8>)
    ensures
        final(out)@ == old(out)@ + lane_text(lane),
{
    if let Some(l) = lane {
        out.push(91);
        push_dec(out, l as u64);
        out.push(93);
    }
}

/// A register with its arrangement.
pub open spec fn reg_arr_text(r: Register, a: Option<VA>) -> Seq<u8> {
    reg_spelling(r) + arr_suffix(a)
}

/// A register with its arrangement.
fn push_reg_arr(out: &mut Vec<u8>, r: Register, a: Option<VA>)
    ensures
        final(out)@ == old(out)@ + reg_arr_text(r, a),
{
    push_reg(out, r);
    push_arr(out, a);
}

/// The SVE predicate-constraint pattern names; an unnamed pattern is
/// written as its number.
pub open spec fn pattern_text(p: u8) -> Seq<u8> {
    if p == 0 {
        "pow2".spec_bytes()
    } else if 1 <= p <= 8 {
        "vl".spec_bytes() + dec_spec(p as u64)
    } else if p == 9 {
        "vl16".spec_bytes()
    } else if p == 10 {
        "vl32".spec_bytes()
    } else if p == 11 {
        "vl64".spec_bytes()
    } else if p == 12 {
        "vl128".spec_bytes()
    } else if p == 13 {
        "vl256".spec_bytes()
    } else if p == 29 {
        "mul4".spec_bytes()
    } else if p == 30 {
        "mul3".spec_bytes()
    } else if p == 31 {
        "all".spec_bytes()
    } else {
        imm_hex_text(p as u64)
    }
}

/// The SVE predicate-constraint pattern names.
fn push_pattern(out: &mut Vec<u8>, p: u8)
    ensures
        final(out)@ == old(out)@ + pattern_text(p),
{
    if p == 0 {
        push_str(out, "pow2");
    } else if 1 <= p && p <= 8 {
        push_str(out, "vl");
        push_dec(out, p as u64);
    } else if p == 9 {
        push_str(out, "vl16");
    } else if p == 10 {
        push_str(out, "vl32");
    } else if p == 11 {
        push_str(out, "vl64");
    } else if p == 12 {
        push_str(out, "vl128");
    } else if p == 13 {
        push_str(out, "vl256");
    } else if p == 29 {
        push_str(out, "mul4");
    } else if p == 30 {
        push_str(out, "mul3");
    } else if p == 31 {
        push_str(out, "all");
    } else {
        push_imm_hex(out, p as u64);
    }
}

/// The name of a prefetch operation (`pldl1keep` .. `pstl3strm`); an unnamed
/// operation is written as its number.
pub open spec fn prfop_name(p: u8) -> Option<&'static str> {
    if p == 0 {
        Some("pldl1keep")
    } else if p == 1 {
        Some("pldl1strm")
    } else if p == 2 {
        Some("pldl2keep")
    } else if p == 3 {
        Some("pldl2strm")
    } else if p == 4 {
        Some("pldl3keep")
    } else if p == 5 {
        Some("pldl3strm")
    } else if p == 8 {
        Some("pstl1keep")
    } else if p == 9 {
        Some("pstl1strm")
    } else if p == 10 {
        Some("pstl2keep")
    } else if p == 11 {
        Some("pstl2strm")
    } else if p == 12 {
        Some("pstl3keep")
    } else if p == 13 {
        Some("pstl3strm")
    } else {
        None
    }
}

/// The text of a prefetch operation.
pub open spec fn prfop_text(p: u8) -> Seq<u8> {
    match prfop_name(p) {
        Some(n) => n.spec_bytes(),
        None => imm_hex_text(p as u64),
    }
}

fn prfop_of(p: u8) -> (r: Option<&'static str>)
    ensures
        r == prfop_name(p),
{
    if p == 0 {
        Some("pldl1keep")
    } else if p == 1 {
        Some("pldl1strm")
    } else if p == 2 {
        Some("pldl2keep")
    } else if p == 3 {
        Some("pldl2strm")
    } else if p == 4 {
        Some("pldl3keep")
    } else if p == 5 {
        Some("pldl3strm")
    } else if p == 8 {
        Some("pstl1keep")
    } else if p == 9 {
        Some("pstl1strm")
    } else if p == 10 {
        Some("pstl2keep")
    } else if p == 11 {
        Some("pstl2strm")
    } else if p == 12 {
        Some("pstl3keep")
    } else if p == 13 {
        Some("pstl3strm")
    } else {
        None
    }
}

/// The SVE prefetch operation names.
fn push_prfop(out: &mut Vec<u8>, p: u8)
    ensures
        final(out)@ == old(out)@ + prfop_text(p),
{
    match prfop_of(p) {
        Some(n) => push_str(out, n),
        None => push_imm_hex(out, p as u64),
    }
}

/// `, <extend>` and the optional `#amount` of a vector offset (`0xff`
/// suppresses the amount; `Uxtx` is written `lsl`, and a zero `lsl` is
/// dropped).
pub open spec fn extend_text(e: ExtendType, amount: u8) -> Seq<u8> {
    let amt = if amount != 0xff { seq![32u8] + imm_hex_text(amount as u64) } else { Seq::empty() };
    match e {
        ExtendType::Uxtx => if amount != 0xff && amount != 0 {
            ", lsl ".spec_bytes() + imm_hex_text(amount as u64)
        } else {
            Seq::empty()
        },
        ExtendType::Uxtw => ", uxtw".spec_bytes() + amt,
        ExtendType::Sxtw => ", sxtw".spec_bytes() + amt,
    }
}

/// `, <extend>` and the optional `#amount` of a vector offset.
fn push_extend(out: &mut Vec<u8>, e: ExtendType, amount: u8)
    ensures
        final(out)@ == old(out)@ + extend_text(e, amount),
{
    match e {
        ExtendType::Uxtx => {
            if amount != 0xff && amount != 0 {
                push_str(out, ", lsl ");
                push_imm_hex(out, amount as u64);
            }
        },
        ExtendType::Uxtw => {
            push_str(out, ", uxtw");
            if amount != 0xff {
                out.push(32);
                push_imm_hex(out, amount as u64);
            }
        },
        ExtendType::Sxtw => {
            push_str(out, ", sxtw");
            if amount != 0xff {
                out.push(32);
                push_imm_hex(out, amount as u64);
            }
        },
    }
}

/// The decimal digits of `f / den` after the point, from the `n`-th on, at
/// most nine in all: each step writes `(10 f) / den` and keeps the
/// remainder.
pub open spec fn frac_digits(f: u32, den: u32, n: u32) -> Seq<u8>
    decreases 9 - n,
{
    if f == 0 || n >= 9 || den == 0 {
        Seq::empty()
    } else {
        let t = f as int * 10;
        seq![(48 + (t / den as int) % 10) as u8] + frac_digits((t % den as int) as u32, den, (n + 1) as u32)
    }
}

/// The digits after the decimal point of `frac / 2^scale`: `0` when there
/// is no fraction, else its digits.
pub open spec fn fraction_text(frac: u32, scale: u8) -> Seq<u8> {
    let den = 1u32 << scale;
    if frac == 0 || frac >= den {
        seq![48u8]
    } else {
        frac_digits(frac, den, 0)
    }
}

/// The digits after the decimal point of `frac / 2^scale` (`frac < 2^scale`),
/// at least one.
fn push_fraction(out: &mut Vec<u8>, frac: u32, scale: u8)
    requires
        scale <= 8,
    ensures
        final(out)@ == old(out)@ + fraction_text(frac, scale),
{
    let den: u32 = 1u32 << scale;
    assert(den <= 256 && den >= 1) by (bit_vector)
        requires
            den == 1u32 << scale,
            scale <= 8,
    ;
    if frac == 0 || frac >= den {
        out.push(48);
        return;
    }
    let mut f = frac;
    let mut n: u32 = 0;
    while f != 0 && n < 9
        invariant
            f < den,
            den == 1u32 << scale,
            1 <= den <= 256,
            n <= 9,
            out@ + frac_digits(f, den, n) == old(out)@ + frac_digits(frac, den, 0),
        decreases 9 - n,
    {
        let t = f * 10;
        let d = t / den;
        let ghost before = out@;
        out.push((48 + d % 10) as u8);
        proof {
            assert(out@ + frac_digits((t % den) as u32, den, (n + 1) as u32) =~= before + frac_digits(f, den, n));
        }
        f = t % den;
        n = n + 1;
    }
    assert(out@ + frac_digits(f, den, n) =~= out@);
}

/// A floating-point constant: `#<int>.<fraction>` of `mant / 2^scale` (the
/// scale capped at 8), with `-` when negative.
pub open spec fn fp_text(c: FpConst) -> Seq<u8> {
    let scale: u8 = if c.scale > 8 { 8 } else { c.scale };
    let int_part = (c.mant as u32) >> scale;
    let frac = (c.mant as u32) & (((1u32 << scale) - 1) as u32);
    seq![35u8] + (if c.neg { seq![45u8] } else { Seq::empty() }) + dec_spec(int_part as u64) + seq![46u8] + fraction_text(
        frac,
        scale,
    )
}

/// A floating-point constant: `#<int>.<fraction>`.
fn push_fp(out: &mut Vec<u8>, c: FpConst)
    ensures
        final(out)@ == old(out)@ + fp_text(c),
{
    out.push(35);
    if c.neg {
        out.push(45);
    }
    let scale = if c.scale > 8 { 8 } else { c.scale };
    assert(scale <= 8);
    let int_part = (c.mant as u32) >> scale;
    let one_shifted: u32 = 1u32 << scale;
    assert(one_shifted >= 1) by (bit_vector)
        requires
            one_shifted == 1u32 << scale,
            scale <= 8,
    ;
    let mask: u32 = one_shifted - 1;
    let frac = (c.mant as u32) & mask;
    push_dec(out, int_part as u64);
    out.push(46);
    push_fraction(out, frac, scale);
}

/// `, ` before every item but the first.
pub open spec fn sep(i: int) -> Seq<u8> {
    if i > 0 {
        ", ".spec_bytes()
    } else {
        Seq::empty()
    }
}

/// The registers `regs[i..n]` of a list, comma-separated.
pub open spec fn multireg_items(regs: [Register; 4], a: Option<VA>, i: int, n: int) -> Seq<u8>
    decreases n - i,
{
    if i >= n || i < 0 {
        Seq::empty()
    } else {
        sep(i) + reg_arr_text(regs@[i], a) + multireg_items(regs, a, i + 1, n)
    }
}

/// A register list `{z0.s, z1.s}` of the first `count` (at most four)
/// registers, then the lane.
pub open spec fn multireg_text(regs: [Register; 4], count: u8, a: Option<VA>, lane: Option<u8>) -> Seq<u8> {
    seq![123u8] + multireg_items(regs, a, 0, if count > 4 { 4 } else { count as int }) + seq![125u8] + lane_text(lane)
}

/// A register list: `{z0.s, z1.s}`.
fn push_multireg(out: &mut Vec<u8>, regs: [Register; 4], count: u8, a: Option<VA>, lane: Option<u8>)
    ensures
        final(out)@ == old(out)@ + multireg_text(regs, count, a, lane),
{
    out.push(123);
    let n: usize = if count > 4 { 4 } else { count as usize };
    let ghost start = out@;
    let mut i: usize = 0;
    while i < n
        invariant
            n <= 4,
            i <= n,
            out@ + multireg_items(regs, a, i as int, n as int) == start + multireg_items(regs, a, 0, n as int),
        decreases n - i,
    {
        let ghost before = out@;
        if i > 0 {
            push_str(out, ", ");
        }
        push_reg_arr(out, regs[i], a);
        proof {
            assert(out@ =~= before + sep(i as int) + reg_arr_text(regs@[i as int], a));
            assert(out@ + multireg_items(regs, a, i + 1, n as int) =~= before + multireg_items(regs, a, i as int, n as int));
        }
        i = i + 1;
    }
    assert(out@ + multireg_items(regs, a, i as int, n as int) =~= out@);
    out.push(125);
    push_lane(out, lane);
}

/// The `i`-th register of a group: `first` plus `i * stride`, modulo 32.
pub open spec fn group_reg(first: Register, i: int, stride: u8) -> Register {
    Register { kind: first.kind, num: ((first.num as int + i * stride as int) % 32) as u8 }
}

/// The registers `i..count` of a group, comma-separated.
pub open spec fn group_items(first: Register, a: Option<VA>, stride: u8, i: int, count: int) -> Seq<u8>
    decreases count - i,
{
    if i >= count || i < 0 {
        Seq::empty()
    } else {
        sep(i) + reg_arr_text(group_reg(first, i, stride), a) + group_items(first, a, stride, i + 1, count)
    }
}

/// A register group: `{ z0.b, z1.b }`, the range `{ z0.b - z3.b }`, or a
/// strided `{ z16.d, z24.d }`, then the lane.
pub open spec fn group_text(first: Register, count: u8, a: Option<VA>, range: bool, stride: u8, lane: Option<u8>) -> Seq<u8> {
    "{ ".spec_bytes() + (if range && count > 0 {
        reg_arr_text(first, a) + " - ".spec_bytes() + reg_arr_text(group_reg(first, count - 1, 1), a)
    } else {
        group_items(first, a, stride, 0, count as int)
    }) + " }".spec_bytes() + lane_text(lane)
}

/// The registers of a group, comma-separated.
fn push_group_items(out: &mut Vec<u8>, first: Register, count: u8, a: Option<VA>, stride: u8)
    ensures
        final(out)@ == old(out)@ + group_items(first, a, stride, 0, count as int),
{
    let mut i: u32 = 0;
    while i < count as u32
        invariant
            count <= 255,
            i <= count,
            out@ + group_items(first, a, stride, i as int, count as int) == old(out)@ + group_items(first, a, stride, 0, count as int),
        decreases count as u32 - i,
    {
        let ghost before = out@;
        if i > 0 {
            push_str(out, ", ");
        }
        assert(i * stride as u32 <= 255 * 255) by (nonlinear_arith)
            requires
                i < count as u32,
                count <= 255,
                stride <= 255,
        ;
        let r = Register { kind: first.kind, num: ((first.num as u32 + i * stride as u32) % 32) as u8 };
        assert(r == group_reg(first, i as int, stride));
        push_reg_arr(out, r, a);
        proof {
            assert(out@ =~= before + sep(i as int) + reg_arr_text(r, a));
            assert(out@ + group_items(first, a, stride, i + 1, count as int) =~= before + group_items(first, a, stride, i as int, count as int));
        }
        i = i + 1;
    }
    assert(out@ + group_items(first, a, stride, i as int, count as int) =~= out@);
}

/// A register range `<first> - <last>`.
fn push_group_range(out: &mut Vec<u8>, first: Register, count: u8, a: Option<VA>)
    requires
        count > 0,
    ensures
        final(out)@ == old(out)@ + reg_arr_text(first, a) + " - ".spec_bytes() + reg_arr_text(group_reg(first, count - 1, 1), a),
{
    push_reg_arr(out, first, a);
    push_str(out, " - ");
    let last = Register { kind: first.kind, num: ((first.num as u32 + count as u32 - 1) % 32) as u8 };
    assert(last == group_reg(first, count - 1, 1));
    push_reg_arr(out, last, a);
}

/// A register group: `{ z0.b, z1.b }`, `{ z0.b - z3.b }`, `{ z16.d, z24.d }`.
fn push_group(out: &mut Vec<u8>, first: Register, count: u8, a: Option<VA>, range: bool, stride: u8, lane: Option<u8>)
    ensures
        final(out)@ == old(out)@ + group_text(first, count, a, range, stride, lane),
{
    push_str(out, "{ ");
    if range && count > 0 {
        push_group_range(out, first, count, a);
    } else {
        push_group_items(out, first, count, a, stride);
    }
    push_str(out, " }");
    push_lane(out, lane);
}

/// `, ` followed by `text` when `cond` holds.
pub open spec fn opt_text(cond: bool, text: Seq<u8>) -> Seq<u8> {
    if cond {
        ", ".spec_bytes() + text
    } else {
        Seq::empty()
    }
}

/// A scalar base with an optional immediate: `<base>{, <imm>}`.
pub open spec fn scalar_imm_text(base: Register, imm_text: Seq<u8>, has: bool) -> Seq<u8> {
    reg_spelling(base) + opt_text(has, imm_text)
}

/// A base, `, <offset>.<T>` and the extend of a vector offset.
pub open spec fn vec_offset_text(head: Seq<u8>, offset: Register, a: Option<VA>, e: ExtendType, amount: u8) -> Seq<u8> {
    head + ", ".spec_bytes() + reg_arr_text(offset, a) + extend_text(e, amount)
}

/// The inside of an SVE address operand in its addressing mode.
pub open spec fn sve_mem_body(base: Register, offset: Register, a: Option<VA>, e: ExtendType, imm: i32, amount: u8, mode: SveMemMode) -> Seq<u8> {
    match mode {
        SveMemMode::ScalarImmMulVl => scalar_imm_text(base, signed_text(imm as i64) + ", mul vl".spec_bytes(), imm != 0),
        SveMemMode::ScalarImm => scalar_imm_text(base, signed_hex_text(imm as i64), imm != 0),
        SveMemMode::ScalarImmDec => scalar_imm_text(base, signed_dec_text(imm as i64), imm != 0),
        SveMemMode::ScalarVec => vec_offset_text(reg_spelling(base), offset, a, e, amount),
        SveMemMode::VecImm => reg_arr_text(base, a) + opt_text(imm != 0, signed_text(imm as i64)),
        SveMemMode::VecScalar => reg_arr_text(base, a) + opt_text(
            offset.kind != RegKind::Xzr && offset.kind != RegKind::Absent,
            reg_spelling(offset),
        ),
        SveMemMode::VecVec => vec_offset_text(reg_arr_text(base, a), offset, a, e, amount),
    }
}

/// An SVE address operand `[...]` in its addressing mode.
pub open spec fn sve_mem_text(base: Register, offset: Register, a: Option<VA>, e: ExtendType, imm: i32, amount: u8, mode: SveMemMode) -> Seq<u8> {
    seq![91u8] + sve_mem_body(base, offset, a, e, imm, amount, mode) + seq![93u8]
}

/// `, <imm>` in one of the three immediate styles when `imm != 0`.
fn push_opt_signed(out: &mut Vec<u8>, imm: i32, style: u8)
    requires
        style <= 2,
    ensures
        style == 0 ==> final(out)@ == old(out)@ + opt_text(imm != 0, signed_text(imm as i64) + ", mul vl".spec_bytes()),
        style == 1 ==> final(out)@ == old(out)@ + opt_text(imm != 0, signed_hex_text(imm as i64)),
        style == 2 ==> final(out)@ == old(out)@ + opt_text(imm != 0, signed_dec_text(imm as i64)),
{
    if imm != 0 {
        let ghost before = out@;
        push_str(out, ", ");
        if style == 0 {
            push_signed(out, imm as i64);
            push_str(out, ", mul vl");
            assert(out@ =~= before + (", ".spec_bytes() + (signed_text(imm as i64) + ", mul vl".spec_bytes())));
        } else if style == 1 {
            push_signed_hex(out, imm as i64);
        } else {
            push_signed_dec(out, imm as i64);
        }
    } else {
        assert(out@ =~= old(out)@ + Seq::<u8>::empty());
    }
}

/// `, <offset>.<T>` and the extend of a vector offset.
fn push_vec_offset(out: &mut Vec<u8>, offset: Register, a: Option<VA>, e: ExtendType, amount: u8)
    ensures
        final(out)@ == old(out)@ + ", ".spec_bytes() + reg_arr_text(offset, a) + extend_text(e, amount),
{
    push_str(out, ", ");
    push_reg_arr(out, offset, a);
    push_extend(out, e, amount);
}

/// `<base>{, <imm>}` in one of the three immediate styles.
fn push_scalar_imm(out: &mut Vec<u8>, base: Register, imm: i32, style: u8)
    requires
        style <= 2,
    ensures
        style == 0 ==> final(out)@ == old(out)@ + scalar_imm_text(base, signed_text(imm as i64) + ", mul vl".spec_bytes(), imm != 0),
        style == 1 ==> final(out)@ == old(out)@ + scalar_imm_text(base, signed_hex_text(imm as i64), imm != 0),
        style == 2 ==> final(out)@ == old(out)@ + scalar_imm_text(base, signed_dec_text(imm as i64), imm != 0),
{
    push_reg(out, base);
    push_opt_signed(out, imm, style);
}

/// `<base>.<T>{, <imm>}`.
fn push_vec_imm(out: &mut Vec<u8>, base: Register, a: Option<VA>, imm: i32)
    ensures
        final(out)@ == old(out)@ + reg_arr_text(base, a) + opt_text(imm != 0, signed_text(imm as i64)),
{
    push_reg_arr(out, base, a);
    if imm != 0 {
        push_str(out, ", ");
        push_signed(out, imm as i64);
    } else {
        assert(out@ =~= old(out)@ + reg_arr_text(base, a) + Seq::<u8>::empty());
    }
}

/// `<base>.<T>{, <Xm>}` (no offset for `xzr`).
fn push_vec_scalar(out: &mut Vec<u8>, base: Register, a: Option<VA>, offset: Register)
    ensures
        final(out)@ == old(out)@ + reg_arr_text(base, a) + opt_text(
            offset.kind != RegKind::Xzr && offset.kind != RegKind::Absent,
            reg_spelling(offset),
        ),
{
    push_reg_arr(out, base, a);
    if offset.kind != RegKind::Xzr && offset.kind != RegKind::Absent {
        push_str(out, ", ");
        push_reg(out, offset);
    } else {
        assert(out@ =~= old(out)@ + reg_arr_text(base, a) + Seq::<u8>::empty());
    }
}

/// The inside of an SVE address operand.
fn push_sve_mem_body(out: &mut Vec<u8>, base: Register, offset: Register, a: Option<VA>, e: ExtendType, imm: i32, amount: u8, mode: SveMemMode)
    ensures
        final(out)@ == old(out)@ + sve_mem_body(base, offset, a, e, imm, amount, mode),
{
    match mode {
        SveMemMode::ScalarImmMulVl => push_scalar_imm(out, base, imm, 0),
        SveMemMode::ScalarImm => push_scalar_imm(out, base, imm, 1),
        SveMemMode::ScalarImmDec => push_scalar_imm(out, base, imm, 2),
        SveMemMode::ScalarVec => {
            push_reg(out, base);
            push_vec_offset(out, offset, a, e, amount);
        },
        SveMemMode::VecImm => push_vec_imm(out, base, a, imm),
        SveMemMode::VecScalar => push_vec_scalar(out, base, a, offset),
        SveMemMode::VecVec => {
            push_reg_arr(out, base, a);
            push_vec_offset(out, offset, a, e, amount);
        },
    }
}

/// An SVE address operand.
fn push_sve_mem(out: &mut Vec<u8>, base: Register, offset: Register, a: Option<VA>, e: ExtendType, imm: i32, amount: u8, mode: SveMemMode)
    ensures
        final(out)@ == old(out)@ + sve_mem_text(base, offset, a, e, imm, amount, mode),
{
    out.push(91);
    push_sve_mem_body(out, base, offset, a, e, imm, amount, mode);
    out.push(93);
}

/// The slice direction letter of a tile slice (`h` / `v`).
pub open spec fn slice_text(slice: SliceIndicator) -> Seq<u8> {
    match slice {
        SliceIndicator::Horizontal => seq![104u8],
        SliceIndicator::Vertical => seq![118u8],
        SliceIndicator::Neither => Seq::empty(),
    }
}

/// The slice direction letter of a tile slice (`h` / `v`).
fn push_slice(out: &mut Vec<u8>, slice: SliceIndicator)
    ensures
        final(out)@ == old(out)@ + slice_text(slice),
{
    match slice {
        SliceIndicator::Horizontal => out.push(104),
        SliceIndicator::Vertical => out.push(118),
        SliceIndicator::Neither => {},
    }
}

/// The tiles `za<i><sfx>` for the set bits `i` of `bits` from `i` below
/// `n`, comma-separated (`first` says whether one has been written).
pub open spec fn tiles_from(bits: u8, i: u8, n: u8, first: bool, sfx: Seq<u8>) -> Seq<u8>
    decreases n - i,
{
    if i >= n {
        Seq::empty()
    } else if (bits >> i) & 1 == 1 {
        (if first { Seq::empty() } else { ", ".spec_bytes() }) + "za".spec_bytes() + dec_spec(i as u64) + sfx + tiles_from(
            bits,
            (i + 1) as u8,
            n,
            false,
            sfx,
        )
    } else {
        tiles_from(bits, (i + 1) as u8, n, first, sfx)
    }
}

/// The tile list of a `ZERO` mask: `{}` for none, `{ za }` for all, else the
/// tiles of the widest of `.h`, `.s`, `.d` that covers the mask exactly;
/// `{ zt0 }` for ZT0.
pub open spec fn za_mask_text(mask: u8, zt0: bool) -> Seq<u8> {
    if zt0 {
        "{ zt0 }".spec_bytes()
    } else if mask == 0 {
        "{}".spec_bytes()
    } else if mask == 0xff {
        "{ za }".spec_bytes()
    } else {
        "{ ".spec_bytes() + (if mask == 0x55 {
            "za0.h".spec_bytes()
        } else if mask == 0xaa {
            "za1.h".spec_bytes()
        } else if mask & 0x0f == mask >> 4 {
            tiles_from(mask & 0x0f, 0, 4, true, ".s".spec_bytes())
        } else {
            tiles_from(mask, 0, 8, true, ".d".spec_bytes())
        }) + " }".spec_bytes()
    }
}

/// Append the tiles of `bits` below `n`, with the suffix `sfx`.
fn push_tiles(out: &mut Vec<u8>, bits: u8, n: u8, sfx: &str)
    requires
        n <= 8,
    ensures
        final(out)@ == old(out)@ + tiles_from(bits, 0, n, true, sfx.spec_bytes()),
{
    let mut first = true;
    let mut i: u8 = 0;
    while i < n
        invariant
            n <= 8,
            i <= n,
            out@ + tiles_from(bits, i, n, first, sfx.spec_bytes()) == old(out)@ + tiles_from(bits, 0, n, true, sfx.spec_bytes()),
        decreases n - i,
    {
        let ghost before = out@;
        let ghost was_first = first;
        if (bits >> i) & 1 == 1 {
            if !first {
                push_str(out, ", ");
            }
            push_str(out, "za");
            push_dec(out, i as u64);
            push_str(out, sfx);
            first = false;
            proof {
                assert(out@ + tiles_from(bits, (i + 1) as u8, n, first, sfx.spec_bytes()) =~= before + tiles_from(bits, i, n, was_first, sfx.spec_bytes()));
            }
        }
        i = i + 1;
    }
    assert(out@ + tiles_from(bits, i, n, first, sfx.spec_bytes()) =~= out@);
}

/// The tile list of a `ZERO` mask: `{}` for none, `{ za }` for all, else the
/// tiles of the widest of `.h`, `.s`, `.d` that covers the mask exactly.
fn push_za_mask(out: &mut Vec<u8>, mask: u8, zt0: bool)
    ensures
        final(out)@ == old(out)@ + za_mask_text(mask, zt0),
{
    if zt0 {
        push_str(out, "{ zt0 }");
        return;
    }
    if mask == 0 {
        push_str(out, "{}");
        return;
    }
    if mask == 0xff {
        push_str(out, "{ za }");
        return;
    }
    push_str(out, "{ ");
    if mask == 0x55 {
        push_str(out, "za0.h");
    } else if mask == 0xaa {
        push_str(out, "za1.h");
    } else if mask & 0x0f == mask >> 4 {
        // Each `.s` tile `i` is the mask `0x11 << i`.
        push_tiles(out, mask & 0x0f, 4, ".s");
    } else {
        // Each `.d` tile `i` is the mask `1 << i`.
        push_tiles(out, mask, 8, ".d");
    }
    push_str(out, " }");
}

/// The `/m` or `/z` of a predicate qualifier.
pub open spec fn pred_text(pred: Option<PredQual>) -> Seq<u8> {
    match pred {
        Some(PredQual::Merging) => "/m".spec_bytes(),
        Some(PredQual::Zeroing) => "/z".spec_bytes(),
        _ => Seq::empty(),
    }
}

/// A register operand: the register, its arrangement, lane and predicate
/// qualifier.
pub open spec fn reg_operand_text(reg: Register, arr: Option<VA>, lane: Option<u8>, pred: Option<PredQual>) -> Seq<u8> {
    reg_arr_text(reg, arr) + lane_text(lane) + pred_text(pred)
}

/// `<imm>, lsl <lsl>`.
pub open spec fn shifted_move_text(imm: u64, lsl: u8) -> Seq<u8> {
    imm_hex_text(imm) + ", lsl ".spec_bytes() + imm_hex_text(lsl as u64)
}

/// A predicate-as-counter `pn<n>{.<T>}{/z}`.
pub open spec fn pred_counter_text(reg: Register, zeroing: bool, arr: Option<VA>) -> Seq<u8> {
    reg_arr_text(reg, arr) + (if zeroing { "/z".spec_bytes() } else { Seq::empty() })
}

/// An indexed element `<reg>.<T>[<index>, <imm>]`.
pub open spec fn indexed_text(reg: Register, arr: Option<VA>, index: Register, imm: i64) -> Seq<u8> {
    reg_arr_text(reg, arr) + seq![91u8] + reg_spelling(index) + ", ".spec_bytes() + dec_spec(magnitude(imm)) + seq![93u8]
}

/// `[<base>, <index>{, lsl <amount>}]`: bit 7 of `shift` shows the amount
/// in its low seven bits.
pub open spec fn mem_ext_text(base: Register, index: Register, shift: u8) -> Seq<u8> {
    seq![91u8] + reg_spelling(base) + ", ".spec_bytes() + reg_spelling(index) + (if shift & 0x80 != 0 {
        ", lsl ".spec_bytes() + imm_hex_text((shift & 0x7f) as u64)
    } else {
        Seq::empty()
    }) + seq![93u8]
}

/// A ZA tile `za<tile>{.<T>}`.
pub open spec fn sme_tile_text(tile: u8, arr: Option<VA>) -> Seq<u8> {
    "za".spec_bytes() + dec_spec(tile as u64) + arr_suffix(arr)
}

/// The head of a tile slice: `<tile><h|v>.<T>` (`za` for the whole
/// array).
pub open spec fn tile_slice_head(reg: Register, slice: SliceIndicator, arr: Option<VA>) -> Seq<u8> {
    (if reg.kind == RegKind::Absent {
        "za".spec_bytes()
    } else {
        reg_spelling(reg)
    }) + slice_text(slice) + arr_suffix(arr)
}

/// The index of a tile slice: `[<sel>{, <imm>}]`.
pub open spec fn tile_slice_index(sel: Register, imm: u8, has_imm: bool) -> Seq<u8> {
    seq![91u8] + reg_spelling(sel) + opt_text(has_imm, imm_hex_text(imm as u64)) + seq![93u8]
}

/// A tile slice `<tile><h|v>.<T>[<sel>{, <imm>}]` (`za` for the whole
/// array).
pub open spec fn tile_slice_text(reg: Register, slice: SliceIndicator, arr: Option<VA>, sel: Register, imm: u8, has_imm: bool) -> Seq<u8> {
    tile_slice_head(reg, slice, arr) + tile_slice_index(sel, imm, has_imm)
}

/// The head of a ZA array slice: `za`, then `<tile><h|v>` for a tile
/// slice, then the arrangement.
pub open spec fn za_slice_head(arr: Option<VA>, tile: u8, slice: SliceIndicator) -> Seq<u8> {
    "za".spec_bytes() + (if slice != SliceIndicator::Neither {
        dec_spec(tile as u64) + slice_text(slice)
    } else {
        Seq::empty()
    }) + arr_suffix(arr)
}

/// The index of a ZA array slice: `[<sel>, <off>{:<last>}{, vgx<vg>}]`.
pub open spec fn za_slice_index(sel: Register, off: u8, span: u8, vg: u8) -> Seq<u8> {
    seq![91u8] + reg_spelling(sel) + ", ".spec_bytes() + dec_spec(off as u64) + (if span > 1 {
        seq![58u8] + dec_spec((off + span - 1) as u64)
    } else {
        Seq::empty()
    }) + (if vg > 0 {
        ", vgx".spec_bytes() + dec_spec(vg as u64)
    } else {
        Seq::empty()
    }) + seq![93u8]
}

/// A ZA array slice `za{<tile><h|v>}.<T>[<sel>, <off>{:<last>}{, vgx<vg>}]`.
pub open spec fn za_slice_text(arr: Option<VA>, sel: Register, off: u8, span: u8, vg: u8, tile: u8, slice: SliceIndicator) -> Seq<u8> {
    za_slice_head(arr, tile, slice) + za_slice_index(sel, off, span, vg)
}

/// `zt0[<index>{, mul vl}]`.
pub open spec fn zt0_index_text(index: u8, mul_vl: bool) -> Seq<u8> {
    "zt0[".spec_bytes() + dec_spec(index as u64) + (if mul_vl { ", mul vl".spec_bytes() } else { Seq::empty() }) + seq![93u8]
}

/// The text of one operand.
pub open spec fn operand_text(op: Operand) -> Seq<u8> {
    match op {
        Operand::Empty => Seq::empty(),
        Operand::Reg { reg, arr, lane, pred } => reg_operand_text(reg, arr, lane, pred),
        Operand::ImmUnsigned(v) => imm_hex_text(v),
        Operand::ImmSignedDec(v) => signed_text(v),
        Operand::ImmShiftedMove { imm, lsl } => shifted_move_text(imm, lsl),
        Operand::FpImm(c) => fp_text(c),
        Operand::ShiftAmount(n) => seq![35u8] + dec_spec(n as u64),
        Operand::SvePattern(p) => pattern_text(p),
        Operand::SveMul(m) => "mul ".spec_bytes() + imm_hex_text(m as u64),
        Operand::VlMul(m) => "vlx".spec_bytes() + dec_spec(m as u64),
        Operand::MultiReg { regs, count, arr, lane } => multireg_text(regs, count, arr, lane),
        Operand::SveVecGroup { first, count, arr, range, stride, lane } => group_text(first, count, arr, range, stride, lane),
        Operand::PredCounter { reg, zeroing, arr } => pred_counter_text(reg, zeroing, arr),
        Operand::IndexedElement { reg, arr, index, imm } => indexed_text(reg, arr, index, imm),
        Operand::MemExt { base, index, extend, shift } => mem_ext_text(base, index, shift),
        Operand::SveMem { base, offset, arr, extend, imm, amount, mode } => sve_mem_text(base, offset, arr, extend, imm, amount, mode),
        Operand::PrefetchOp(p) => prfop_text(p),
        Operand::SmeTile { tile, arr } => sme_tile_text(tile, arr),
        Operand::SmeTileSlice { reg, slice, arr, sel, imm, has_imm } => tile_slice_text(reg, slice, arr, sel, imm, has_imm),
        Operand::SmeZaSlice { arr, sel, off, span, vg, tile, slice } => za_slice_text(arr, sel, off, span, vg, tile, slice),
        Operand::SmeZaMask { mask, zt0 } => za_mask_text(mask, zt0),
        Operand::SmeZt0Index { index, mul_vl } => zt0_index_text(index, mul_vl),
    }
}

fn push_reg_operand(out: &mut Vec<u8>, reg: Register, arr: Option<VA>, lane: Option<u8>, pred: Option<PredQual>)
    ensures
        final(out)@ == old(out)@ + reg_operand_text(reg, arr, lane, pred),
{
    push_reg_arr(out, reg, arr);
    push_lane(out, lane);
    match pred {
        Some(PredQual::Merging) => push_str(out, "/m"),
        Some(PredQual::Zeroing) => push_str(out, "/z"),
        _ => {},
    }
}

fn push_shifted_move(out: &mut Vec<u8>, imm: u64, lsl: u8)
    ensures
        final(out)@ == old(out)@ + shifted_move_text(imm, lsl),
{
    push_imm_hex(out, imm);
    push_str(out, ", lsl ");
    push_imm_hex(out, lsl as u64);
}

fn push_pred_counter(out: &mut Vec<u8>, reg: Register, zeroing: bool, arr: Option<VA>)
    ensures
        final(out)@ == old(out)@ + pred_counter_text(reg, zeroing, arr),
{
    push_reg_arr(out, reg, arr);
    if zeroing {
        push_str(out, "/z");
    }
}

fn push_indexed(out: &mut Vec<u8>, reg: Register, arr: Option<VA>, index: Register, imm: i64)
    ensures
        final(out)@ == old(out)@ + indexed_text(reg, arr, index, imm),
{
    push_reg_arr(out, reg, arr);
    out.push(91);
    push_reg(out, index);
    push_str(out, ", ");
    push_dec(out, abs64(imm));
    out.push(93);
}

fn push_mem_ext(out: &mut Vec<u8>, base: Register, index: Register, shift: u8)
    ensures
        final(out)@ == old(out)@ + mem_ext_text(base, index, shift),
{
    out.push(91);
    push_reg(out, base);
    push_str(out, ", ");
    push_reg(out, index);
    if shift & 0x80 != 0 {
        push_str(out, ", lsl ");
        push_imm_hex(out, (shift & 0x7f) as u64);
    }
    out.push(93);
}

fn push_sme_tile(out: &mut Vec<u8>, tile: u8, arr: Option<VA>)
    ensures
        final(out)@ == old(out)@ + sme_tile_text(tile, arr),
{
    push_str(out, "za");
    push_dec(out, tile as u64);
    push_arr(out, arr);
}

fn push_tile_slice_head(out: &mut Vec<u8>, reg: Register, slice: SliceIndicator, arr: Option<VA>)
    ensures
        final(out)@ == old(out)@ + tile_slice_head(reg, slice, arr),
{
    if reg.kind == RegKind::Absent {
        push_str(out, "za");
    } else {
        push_reg(out, reg);
    }
    push_slice(out, slice);
    push_arr(out, arr);
}

fn push_tile_slice_index(out: &mut Vec<u8>, sel: Register, imm: u8, has_imm: bool)
    ensures
        final(out)@ == old(out)@ + tile_slice_index(sel, imm, has_imm),
{
    let ghost start = out@;
    out.push(91);
    push_reg(out, sel);
    let ghost mid = out@;
    if has_imm {
        push_str(out, ", ");
        push_imm_hex(out, imm as u64);
    }
    assert(out@ =~= mid + opt_text(has_imm, imm_hex_text(imm as u64)));
    out.push(93);
}

fn push_tile_slice(out: &mut Vec<u8>, reg: Register, slice: SliceIndicator, arr: Option<VA>, sel: Register, imm: u8, has_imm: bool)
    ensures
        final(out)@ == old(out)@ + tile_slice_text(reg, slice, arr, sel, imm, has_imm),
{
    push_tile_slice_head(out, reg, slice, arr);
    push_tile_slice_index(out, sel, imm, has_imm);
}

fn push_za_slice_head(out: &mut Vec<u8>, arr: Option<VA>, tile: u8, slice: SliceIndicator)
    ensures
        final(out)@ == old(out)@ + za_slice_head(arr, tile, slice),
{
    push_str(out, "za");
    if slice != SliceIndicator::Neither {
        push_dec(out, tile as u64);
        push_slice(out, slice);
    }
    push_arr(out, arr);
}

#[verifier::rlimit(40)]
fn push_za_slice_index(out: &mut Vec<u8>, sel: Register, off: u8, span: u8, vg: u8)
    ensures
        final(out)@ == old(out)@ + za_slice_index(sel, off, span, vg),
{
    out.push(91);
    push_reg(out, sel);
    push_str(out, ", ");
    push_dec(out, off as u64);
    if span > 1 {
        out.push(58);
        push_dec(out, off as u64 + span as u64 - 1);
    }
    if vg > 0 {
        push_str(out, ", vgx");
        push_dec(out, vg as u64);
    }
    out.push(93);
}

fn push_za_slice(out: &mut Vec<u8>, arr: Option<VA>, sel: Register, off: u8, span: u8, vg: u8, tile: u8, slice: SliceIndicator)
    ensures
        final(out)@ == old(out)@ + za_slice_text(arr, sel, off, span, vg, tile, slice),
{
    push_za_slice_head(out, arr, tile, slice);
    push_za_slice_index(out, sel, off, span, vg);
}

fn push_zt0_index(out: &mut Vec<u8>, index: u8, mul_vl: bool)
    ensures
        final(out)@ == old(out)@ + zt0_index_text(index, mul_vl),
{
    push_str(out, "zt0[");
    push_dec(out, index as u64);
    if mul_vl {
        push_str(out, ", mul vl");
    }
    out.push(93);
}

/// Append the rendering of one operand.
pub fn push_operand(out: &mut Vec<u8>, op: Operand)
    ensures
        final(out)@ == old(out)@ + operand_text(op),
{
    match op {
        Operand::Empty => {
            assert(out@ =~= old(out)@ + operand_text(op));
        },
        Operand::Reg { reg, arr, lane, pred } => push_reg_operand(out, reg, arr, lane, pred),
        Operand::ImmUnsigned(v) => push_imm_hex(out, v),
        Operand::ImmSignedDec(v) => push_signed(out, v),
        Operand::ImmShiftedMove { imm, lsl } => push_shifted_move(out, imm, lsl),
        Operand::FpImm(c) => push_fp(out, c),
        Operand::ShiftAmount(n) => {
            out.push(35);
            push_dec(out, n as u64);
        },
        Operand::SvePattern(p) => push_pattern(out, p),
        Operand::SveMul(m) => {
            push_str(out, "mul ");
            push_imm_hex(out, m as u64);
        },
        Operand::VlMul(m) => {
            push_str(out, "vlx");
            push_dec(out, m as u64);
        },
        Operand::MultiReg { regs, count, arr, lane } => push_multireg(out, regs, count, arr, lane),
        Operand::SveVecGroup { first, count, arr, range, stride, lane } => push_group(out, first, count, arr, range, stride, lane),
        Operand::PredCounter { reg, zeroing, arr } => push_pred_counter(out, reg, zeroing, arr),
        Operand::IndexedElement { reg, arr, index, imm } => push_indexed(out, reg, arr, index, imm),
        Operand::MemExt { base, index, extend, shift } => push_mem_ext(out, base, index, shift),
        Operand::SveMem { base, offset, arr, extend, imm, amount, mode } => push_sve_mem(out, base, offset, arr, extend, imm, amount, mode),
        Operand::PrefetchOp(p) => push_prfop(out, p),
        Operand::SmeTile { tile, arr } => push_sme_tile(out, tile, arr),
        Operand::SmeTileSlice { reg, slice, arr, sel, imm, has_imm } => push_tile_slice(out, reg, slice, arr, sel, imm, has_imm),
        Operand::SmeZaSlice { arr, sel, off, span, vg, tile, slice } => push_za_slice(out, arr, sel, off, span, vg, tile, slice),
        Operand::SmeZaMask { mask, zt0 } => push_za_mask(out, mask, zt0),
        Operand::SmeZt0Index { index, mul_vl } => push_zt0_index(out, index, mul_vl),
    }
}

/// `n` spaces.
pub open spec fn spaces(n: int) -> Seq<u8> {
    Seq::new(n as nat, |i: int| 32u8)
}

/// The operands `ops[i..]`, separated by `", "`.
pub open spec fn ops_text(ops: Seq<Operand>, i: int) -> Seq<u8>
    decreases ops.len() - i,
{
    if i >= ops.len() || i < 0 {
        Seq::empty()
    } else {
        sep(i) + operand_text(ops[i]) + ops_text(ops, i + 1)
    }
}

/// The text of an instruction: its mnemonic, then (when it has operands)
/// spaces up to column eight (at least one) and the operands separated by
/// `", "`.
pub open spec fn insn_text(insn: Instruction) -> Seq<u8> {
    let m = mnemonic_spelling(insn.mnemonic).spec_bytes();
    m + if insn.len > 0 {
        spaces(if m.len() < 7 { 8 - m.len() } else { 1 }) + ops_text(insn.operands(), 0)
    } else {
        Seq::empty()
    }
}

/// The text of an instruction form (code, mnemonic, operands), as
/// [`insn_text`] writes an instruction holding it.
pub open spec fn form_text(f: (Code, Mnemonic, Seq<Operand>)) -> Seq<u8> {
    let m = mnemonic_spelling(f.1).spec_bytes();
    m + if f.2.len() > 0 {
        spaces(if m.len() < 7 { 8 - m.len() } else { 1 }) + ops_text(f.2, 0)
    } else {
        Seq::empty()
    }
}

/// An instruction that holds a form is written as the form's text: with
/// [`crate::decode::word_form`], the text of a decoded word depends on the
/// word and the features alone.
pub proof fn lemma_text_of_form(insn: Instruction, f: (Code, Mnemonic, Seq<Operand>))
    requires
        shows(insn, f),
    ensures
        insn_text(insn) == form_text(f),
{
    assert(insn.operands() == f.2);
}

/// Renders instructions as text.
pub struct FmtFormatter {}

impl FmtFormatter {
    /// A formatter with the default style.
    pub fn new() -> (f: FmtFormatter) {
        FmtFormatter {}
    }

    /// Append the text of `insn` ([`insn_text`]): its mnemonic, then (when
    /// it has operands) a pad to column eight and the operands separated by
    /// `", "`.
    pub fn format(&self, insn: &Instruction, out: &mut Vec<u8>)
        requires
            insn.wf(),
        ensures
            final(out)@ == old(out)@ + insn_text(*insn),
    {
        let ghost start_v = out@;
        let start = out.len();
        push_str(out, mnemonic_text(insn.mnemonic));
        let ghost m = mnemonic_spelling(insn.mnemonic).spec_bytes();
        let n = insn.op_count();
        if n > 0 {
            let mut tail: Vec<u8> = Vec::new();
            let mut col: usize = out.len() - start;
            let ghost col0 = col as int;
            while col < 7
                invariant
                    col0 <= col,
                    col0 >= 7 ==> col == col0,
                    col0 < 7 ==> col <= 7,
                    tail@ == spaces(col - col0),
                decreases 7 - col,
            {
                tail.push(32);
                col = col + 1;
                assert(tail@ =~= spaces(col - col0));
            }
            tail.push(32);
            assert(tail@ =~= spaces(if col0 < 7 { 8 - col0 } else { 1 }));
            let ghost pad = tail@;
            let mut i: usize = 0;
            while i < n
                invariant
                    n == insn.len,
                    n <= MAX_OPERANDS,
                    insn.wf(),
                    i <= n,
                    tail@ + ops_text(insn.operands(), i as int) == pad + ops_text(insn.operands(), 0),
                decreases n - i,
            {
                let ghost before = tail@;
                if i > 0 {
                    push_str(&mut tail, ", ");
                }
                push_operand(&mut tail, insn.operand(i));
                proof {
                    assert(tail@ =~= before + sep(i as int) + operand_text(insn.operands()[i as int]));
                    assert(tail@ + ops_text(insn.operands(), i + 1) =~= before + ops_text(insn.operands(), i as int));
                }
                i = i + 1;
            }
            assert(tail@ + ops_text(insn.operands(), i as int) =~= tail@);
            let ghost head = out@;
            out.append(&mut tail);
            assert(out@ =~= start_v + insn_text(*insn));
        } else {
            assert(out@ =~= start_v + insn_text(*insn));
        }
    }
}

} // verus!
