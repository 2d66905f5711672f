//! SME2 multi-vector ZA accumulate / multiply-into-ZA family, the `*TMOPA`
//! selective outer products, the multi-vector ALU forms and the contiguous
//! multi-vector loads and stores.
//!
//! Entry points, dispatched by the SME decoder on the quadrant `word<31:29>`:
//!
//! * [`decode_tmopa`]: quadrant `100` with the outer-product size field
//!   `word<23:22> == 01`.
//! * [`decode_mul`]: quadrant `110` with `word<24> == 1` (the `0xC1` region).
//! * [`decode_mem`]: quadrant `101` with `word<23> == 0`.
//!
//! The `0xC1` region is densely packed, so each multiply-into-ZA encoding is
//! matched by an exact `(mask, val)` opcode key in the table [`sme2_form`];
//! the keys are pairwise disjoint. Each row also carries the operand-field bit
//! masks (`ws`, `off`, `zn`, `zm`, `idx`, `za`, `zk`); operand values are
//! gathered with [`pext`], whose inverse is [`pdep`]. The ascending bit order
//! reproduces the architecture's split index fields.
use vstd::prelude::*;
use crate::bits::{bit, bits, field, sext_spec, sign_extend};
use crate::code::{code_mnemonic, default_mnemonic, Code, Mnemonic};
use crate::decode::{decode_post, insn, install3, installed, mnemonic_of, yields};
use crate::decode::ops::{arr, arr_spec, vgroup, vgroup_spec, zgroup, zreg, zreg_idx, zreg_idx_spec, zreg_spec};
use crate::features::{Feature, FeatureSet};
use crate::instruction::Instruction;
use crate::operand::Operand;
use crate::decode::sme::sme2_keys::{alu_hit, lemma_alu_lookup_unique, lemma_mul_lookup_unique, lemma_tables_keys_disjoint, mul_hit};
use crate::types::{gp_register, gp_spec, reg_of, ExtendType, RegKind, RegWidth, Register, SliceIndicator, SveMemMode, VectorArrangement as VA};

verus! {

// ---------------------------------------------------------------------------
// Parallel bit extract / deposit.
// ---------------------------------------------------------------------------

/// `2^n`.
pub open spec fn pow2n(n: nat) -> nat
    decreases n,
{
    if n == 0 {
        1
    } else {
        2 * pow2n((n - 1) as nat)
    }
}

/// The number of set bits of `m`.
pub open spec fn popcount(m: nat) -> nat
    decreases m,
{
    if m == 0 {
        0
    } else {
        m % 2 + popcount(m / 2)
    }
}

/// The bits of `w` at the set positions of `m`, packed densely from bit 0
/// upward in ascending bit order.
pub open spec fn pext_spec(w: nat, m: nat) -> nat
    decreases m,
{
    if m == 0 {
        0
    } else if m % 2 == 1 {
        w % 2 + 2 * pext_spec(w / 2, m / 2)
    } else {
        pext_spec(w / 2, m / 2)
    }
}

/// The low bits of `v`, from bit 0 upward, spread over the set positions of
/// `m` in ascending bit order.
pub open spec fn pdep_spec(v: nat, m: nat) -> nat
    decreases m,
{
    if m == 0 {
        0
    } else if m % 2 == 1 {
        v % 2 + 2 * pdep_spec(v / 2, m / 2)
    } else {
        2 * pdep_spec(v, m / 2)
    }
}

/// The bits of `w` at the set positions of `m`, left in place.
pub open spec fn select_bits(w: nat, m: nat) -> nat
    decreases m,
{
    if m == 0 {
        0
    } else {
        (w % 2) * (m % 2) + 2 * select_bits(w / 2, m / 2)
    }
}

/// A packed extract of `m` has fewer bits than `m` has set bits.
proof fn lemma_pext_bound(w: nat, m: nat)
    ensures
        pext_spec(w, m) < pow2n(popcount(m)),
    decreases m,
{
    if m != 0 {
        lemma_pext_bound(w / 2, m / 2);
    }
}

/// Gather the bits of `word` selected by `mask` into a dense value, in
/// ascending bit order (the lowest mask bit becomes bit 0 of the result).
pub fn pext(word: u32, mask: u32) -> (r: u32)
    ensures
        r as nat == pext_spec(word as nat, mask as nat),
{
    let mut w: u32 = word;
    let mut m: u32 = mask;
    let mut out: u64 = 0;
    let mut place: u64 = 1;
    while m != 0
        invariant
            pext_spec(word as nat, mask as nat) == out + place * pext_spec(w as nat, m as nat),
            1 <= place,
            out < place,
            place * (m as int + 1) <= 0x1_0000_0000,
        decreases m,
    {
        let b: u64 = (w % 2) as u64;
        let ghost p_rest = pext_spec((w / 2) as nat, (m / 2) as nat);
        if m % 2 == 1 {
            assert(pext_spec(w as nat, m as nat) == b + 2 * p_rest);
            assert(out + place * (b + 2 * p_rest) == (out + b * place) + (2 * place) * p_rest) by (nonlinear_arith);
            assert((2 * place) * ((m / 2) as int + 1) == place * (m as int + 1)) by (nonlinear_arith)
                requires
                    m % 2 == 1,
            ;
            assert(out + b * place < 2 * place) by (nonlinear_arith)
                requires
                    out < place,
                    b <= 1,
            ;
            assert(place <= 0x1_0000_0000) by (nonlinear_arith)
                requires
                    place * (m as int + 1) <= 0x1_0000_0000,
                    m >= 1,
            ;
            out = out + b * place;
            place = place * 2;
        } else {
            assert(pext_spec(w as nat, m as nat) == p_rest);
            assert(place * ((m / 2) as int + 1) <= place * (m as int + 1)) by (nonlinear_arith)
                requires
                    place >= 1,
            ;
        }
        w = w / 2;
        m = m / 2;
    }
    assert(pext_spec(w as nat, 0) == 0);
    assert(place <= 0x1_0000_0000);
    out as u32
}

/// Scatter the low bits of `val` into the positions selected by `mask`, in
/// ascending bit order (the inverse of [`pext`]).
pub fn pdep(val: u32, mask: u32) -> (r: u32)
    ensures
        r as nat == pdep_spec(val as nat, mask as nat),
{
    let mut v: u32 = val;
    let mut m: u32 = mask;
    let mut out: u64 = 0;
    let mut place: u64 = 1;
    while m != 0
        invariant
            pdep_spec(val as nat, mask as nat) == out + place * pdep_spec(v as nat, m as nat),
            1 <= place,
            out < place,
            out + place * m <= mask,
        decreases m,
    {
        if m % 2 == 1 {
            let b: u64 = (v % 2) as u64;
            let ghost d_rest = pdep_spec((v / 2) as nat, (m / 2) as nat);
            assert(pdep_spec(v as nat, m as nat) == b + 2 * d_rest);
            assert(out + place * (b + 2 * d_rest) == (out + b * place) + (2 * place) * d_rest) by (nonlinear_arith);
            assert((out + b * place) + (2 * place) * ((m / 2) as int) <= out + place * m) by (nonlinear_arith)
                requires
                    m % 2 == 1,
                    b <= 1,
                    place >= 1,
            ;
            assert(out + b * place < 2 * place) by (nonlinear_arith)
                requires
                    out < place,
                    b <= 1,
            ;
            assert(place <= mask) by (nonlinear_arith)
                requires
                    out + place * m <= mask,
                    m >= 1,
            ;
            out = out + b * place;
            place = place * 2;
            v = v / 2;
        } else {
            let ghost d_rest = pdep_spec(v as nat, (m / 2) as nat);
            assert(pdep_spec(v as nat, m as nat) == 2 * d_rest);
            assert(place * (2 * d_rest) == (2 * place) * d_rest) by (nonlinear_arith);
            assert((2 * place) * ((m / 2) as int) == place * m) by (nonlinear_arith)
                requires
                    m % 2 == 0,
            ;
            assert(place <= mask) by (nonlinear_arith)
                requires
                    out + place * m <= mask,
                    m >= 2,
            ;
            place = place * 2;
        }
        m = m / 2;
    }
    assert(pdep_spec(v as nat, 0) == 0);
    out as u32
}

/// `pdep` undoes `pext` on the selected bits: depositing what was extracted
/// from `w` through `m` gives back exactly the bits of `w` that `m` selects.
pub proof fn lemma_pdep_of_pext(w: u32, m: u32)
    ensures
        pdep_spec(pext_spec(w as nat, m as nat), m as nat) == (w & m) as nat,
    decreases m,
{
    lemma_pdep_of_pext_nat(w as nat, m as nat);
    lemma_select_is_and(w, m);
}

/// `pext` undoes `pdep`: extracting through `m` what was deposited from `v`
/// gives back the low `popcount(m)` bits of `v`.
pub proof fn lemma_pext_of_pdep(v: u32, m: u32)
    ensures
        pext_spec(pdep_spec(v as nat, m as nat), m as nat) == (v as nat) % pow2n(popcount(m as nat)),
{
    lemma_pext_of_pdep_nat(v as nat, m as nat);
}

/// `pext` undoes `pdep` in mask form: with `k` the number of set bits of
/// `mask`, extracting through `mask` what was deposited from `val` gives `val`
/// itself when `k == 32`, else `val & ((1 << k) - 1)`.
pub proof fn lemma_pext_undoes_pdep(val: u32, mask: u32)
    ensures
        popcount(mask as nat) <= 32,
        popcount(mask as nat) == 32 ==> pext_spec(pdep_spec(val as nat, mask as nat), mask as nat) == val as nat,
        popcount(mask as nat) < 32 ==> pext_spec(pdep_spec(val as nat, mask as nat), mask as nat) == (val & (((1u32 << (
        popcount(mask as nat) as u32)) - 1) as u32)) as nat,
{
    let k = popcount(mask as nat);
    lemma_pext_of_pdep_nat(val as nat, mask as nat);
    reveal_with_fuel(pow2n, 33);
    assert(pow2n(32) == 0x1_0000_0000);
    lemma_popcount_bound(mask as nat, 32);
    lemma_pow2n_is_pow2(k);
    if k < 32 {
        vstd::bits::lemma_u32_pow2_no_overflow(k);
        vstd::bits::lemma_u32_shl_is_mul(1u32, k as u32);
        vstd::bits::lemma_u32_low_bits_mask_is_mod(val, k);
        assert(((1u32 << (k as u32)) - 1) as u32 == vstd::bits::low_bits_mask(k) as u32);
    } else {
        assert((val as nat) % 0x1_0000_0000 == val as nat);
    }
}

/// What `pdep` deposits lies inside its mask: for every `val`, no bit of
/// `pdep(val, mask)` is outside `mask`.
pub proof fn lemma_pdep_within_mask(val: u32, mask: u32)
    ensures
        pdep_spec(val as nat, mask as nat) <= mask,
        (pdep_spec(val as nat, mask as nat) as u32) & !mask == 0,
{
    lemma_pdep_in_mask_nat(val as nat, mask as nat);
    let d = pdep_spec(val as nat, mask as nat) as u32;
    lemma_select_is_and(d, mask);
    assert(d & mask == d ==> d & !mask == 0) by (bit_vector);
}

proof fn lemma_pdep_in_mask_nat(v: nat, m: nat)
    ensures
        select_bits(pdep_spec(v, m), m) == pdep_spec(v, m),
        pdep_spec(v, m) <= m,
    decreases m,
{
    if m != 0 {
        if m % 2 == 1 {
            lemma_pdep_in_mask_nat(v / 2, m / 2);
            let d = pdep_spec(v / 2, m / 2);
            let x = v % 2 + 2 * d;
            assert(pdep_spec(v, m) == x);
            assert(x % 2 == v % 2);
            assert(x / 2 == d);
            assert(select_bits(x, m) == (x % 2) * (m % 2) + 2 * select_bits(x / 2, m / 2));
        } else {
            lemma_pdep_in_mask_nat(v, m / 2);
            let d = pdep_spec(v, m / 2);
            assert(pdep_spec(v, m) == 2 * d);
            assert((2 * d) % 2 == 0);
            assert((2 * d) / 2 == d);
            assert(select_bits(2 * d, m) == ((2 * d) % 2) * (m % 2) + 2 * select_bits((2 * d) / 2, m / 2));
        }
    }
}

proof fn lemma_pow2n_is_pow2(n: nat)
    ensures
        pow2n(n) == vstd::arithmetic::power2::pow2(n),
    decreases n,
{
    if n == 0 {
        vstd::arithmetic::power2::lemma2_to64();
    } else {
        lemma_pow2n_is_pow2((n - 1) as nat);
        vstd::arithmetic::power2::lemma_pow2_unfold(n);
    }
}

proof fn lemma_pdep_of_pext_nat(w: nat, m: nat)
    ensures
        pdep_spec(pext_spec(w, m), m) == select_bits(w, m),
    decreases m,
{
    if m != 0 {
        lemma_pdep_of_pext_nat(w / 2, m / 2);
        let e = pext_spec(w / 2, m / 2);
        assert(pdep_spec(e, m / 2) == select_bits(w / 2, m / 2));
        assert(select_bits(w, m) == (w % 2) * (m % 2) + 2 * select_bits(w / 2, m / 2));
        if m % 2 == 1 {
            let x = w % 2 + 2 * e;
            assert(pext_spec(w, m) == x);
            assert(x % 2 == w % 2);
            assert(x / 2 == e);
            assert(pdep_spec(x, m) == x % 2 + 2 * pdep_spec(x / 2, m / 2));
            assert((w % 2) * (m % 2) == w % 2);
        } else {
            assert(pext_spec(w, m) == e);
            assert(pdep_spec(e, m) == 2 * pdep_spec(e, m / 2));
            assert((w % 2) * (m % 2) == 0) by (nonlinear_arith)
                requires
                    m % 2 == 0,
            ;
        }
    }
}

proof fn lemma_pext_of_pdep_nat(v: nat, m: nat)
    ensures
        pext_spec(pdep_spec(v, m), m) == v % pow2n(popcount(m)),
    decreases m,
{
    if m == 0 {
        assert(v % 1 == 0);
    } else {
        let pc = popcount(m / 2);
        lemma_pow2n_pos(pc);
        if m % 2 == 1 {
            lemma_pext_of_pdep_nat(v / 2, m / 2);
            let d = pdep_spec(v / 2, m / 2);
            assert((v % 2 + 2 * d) % 2 == v % 2);
            assert((v % 2 + 2 * d) / 2 == d);
            assert(popcount(m) == 1 + pc);
            assert(pow2n(popcount(m)) == 2 * pow2n(pc));
            vstd::arithmetic::div_mod::lemma_mod_breakdown(v as int, 2, pow2n(pc) as int);
        } else {
            lemma_pext_of_pdep_nat(v, m / 2);
            let d = pdep_spec(v, m / 2);
            assert((2 * d) % 2 == 0);
            assert((2 * d) / 2 == d);
        }
    }
}

proof fn lemma_pow2n_pos(n: nat)
    ensures
        pow2n(n) >= 1,
    decreases n,
{
    if n > 0 {
        lemma_pow2n_pos((n - 1) as nat);
    }
}

/// On 32-bit values, [`select_bits`] is the bitwise and.
proof fn lemma_select_is_and(w: u32, m: u32)
    ensures
        select_bits(w as nat, m as nat) == (w & m) as nat,
    decreases m,
{
    if m != 0 {
        lemma_select_is_and(w / 2, m / 2);
        assert((w & m) % 2 == (w % 2) * (m % 2)) by (bit_vector);
        assert((w & m) / 2 == (w / 2) & (m / 2)) by (bit_vector);
    } else {
        assert(w & 0 == 0) by (bit_vector);
    }
}

/// A value below `2^k` has at most `k` set bits.
proof fn lemma_popcount_bound(x: nat, k: nat)
    requires
        x < pow2n(k),
    ensures
        popcount(x) <= k,
    decreases k,
{
    if x != 0 {
        assert(k > 0);
        lemma_popcount_bound(x / 2, (k - 1) as nat);
    }
}

/// The number of set bits of `m`.
fn popcount32(m: u32) -> (r: u32)
    ensures
        r as nat == popcount(m as nat),
        r <= 32,
{
    let mut x: u32 = m;
    let mut n: u32 = 0;
    proof {
        reveal_with_fuel(pow2n, 33);
        assert(pow2n(32) == 0x1_0000_0000);
        lemma_popcount_bound(m as nat, 32);
    }
    while x != 0
        invariant
            popcount(m as nat) == n + popcount(x as nat),
            n + popcount(x as nat) <= 32,
        decreases x,
    {
        n = n + x % 2;
        x = x / 2;
    }
    n
}

// ---------------------------------------------------------------------------
// The multiply-into-ZA / `*TMOPA` forms.
// ---------------------------------------------------------------------------

/// Operand-shape of an SME2 multiply / outer-product form: how the source
/// operands after the `za` destination are laid out.
#[derive(Clone, Copy, PartialEq, Eq, Debug, Structural)]
pub enum Sh {
    /// `<Zn>.<T>, <Zm>.<T>` — two single vectors.
    SingleSingle,
    /// `<Zn>.<T>, <Zm>.<T>[<idx>]` — single vector, indexed single.
    SingleIdx,
    /// `{ <Zn>.. }, <Zm>.<T>` — a vector group and a single vector.
    GroupSingle,
    /// `{ <Zn>.. }, <Zm>.<T>[<idx>]` — a vector group and an indexed single.
    GroupIdx,
    /// `{ <Zn>.. }, { <Zm>.. }` — two vector groups.
    GroupGroup,
    /// `{ <Zn>.. }` — a single vector group, no second source (the SME2
    /// `ADD`/`SUB`/`FADD`/`FSUB` accumulate-into-ZA two-operand forms).
    GroupOnly,
    /// `{ <Zn>, <Zn+1> }, <Zm>.<T>[<idx>]` — a **two-register** vector group and
    /// an indexed single, used by the FP8 `FVDOTB`/`FVDOTT` whose `za.<T>[...]`
    /// destination carries the `vgx4` qualifier ([`Form::vg`] is `4`) even though
    /// the source group lists only two registers.
    GroupIdxB,
    /// `<ZAda>, { <Zn>, <Zn+1> }.<T>, <Zm>.<T>, <Zk>[<idx>]` — `*TMOPA`.
    Tmopa,
}

/// One SME2 encoding row: an exact `(mask, val)` opcode key plus the operand
/// layout and per-field bitmasks used to gather/scatter operand values.
#[derive(Clone, Copy, Debug)]
pub struct Form {
    /// Opcode mask: the bits that must equal [`val`](Form::val) to match.
    pub mask: u32,
    /// Opcode value the masked word must equal.
    pub val: u32,
    /// The [`Code`] this row decodes to.
    pub code: Code,
    /// Operand layout.
    pub shape: Sh,
    /// Accumulator (`za`) element arrangement.
    pub acc: VA,
    /// Source element arrangement.
    pub src: VA,
    /// ZA-array slice span (1/2/4); the rendered offset is `pext(off)*span`.
    pub span: u8,
    /// Multi-vector qualifier (`0`/`2`/`4`).
    pub vg: u8,
    /// `Ws` slice-select field bits.
    pub ws: u32,
    /// Slice-offset field bits (value is the slice offset divided by `span`).
    pub off: u32,
    /// `Zn` (single or group base) field bits.
    pub zn: u32,
    /// `Zm` (single or group base) field bits.
    pub zm: u32,
    /// Element-index field bits (split fields gathered in ascending bit order).
    pub idx: u32,
    /// `ZAda` tile-number field bits (`*TMOPA`).
    pub za: u32,
    /// Restricted `Zk` field bits (`*TMOPA`).
    pub zk: u32,
}

/// `pext` of a 32-bit word, as a `u32`.
pub open spec fn pext32(word: u32, mask: u32) -> u32 {
    pext_spec(word as nat, mask as nat) as u32
}

/// The ZA array slice `za.<T>[w<8+ws>, <off>{:<off+span-1>}{, vgx<vg>}]` of
/// row `f` for `word`: the rendered offset is the gathered offset field
/// times the span.
pub open spec fn za_slice_spec(f: Form, word: u32) -> Operand {
    Operand::SmeZaSlice {
        arr: Some(f.acc),
        sel: gp_spec(false, RegWidth::W32, (8 + (pext32(word, f.ws) & 0xff)) as u8),
        off: ((pext32(word, f.off) & 0xff) * f.span) as u8,
        span: f.span,
        vg: f.vg,
        tile: 0,
        slice: SliceIndicator::Neither,
    }
}

/// The ZA array slice `za.<T>[w<8+ws>, <off>{:<off+span-1>}{, vgx<vg>}]` of a
/// matched row.
fn za_slice(f: Form, word: u32) -> (r: Operand)
    ensures
        r == za_slice_spec(f, word),
{
    let sel = (8 + low_byte(pext(word, f.ws))) as u8;
    let lo = low_byte(pext(word, f.off));
    assert(lo * (f.span as u32) <= 255 * 255) by (nonlinear_arith)
        requires
            lo <= 255,
            f.span <= 255,
    ;
    let off = (lo * f.span as u32) as u8;
    Operand::SmeZaSlice {
        arr: Some(f.acc),
        sel: gp_register(false, RegWidth::W32, sel),
        off,
        span: f.span,
        vg: f.vg,
        tile: 0,
        slice: SliceIndicator::Neither,
    }
}

/// The low eight bits of `x`.
fn low_byte(x: u32) -> (r: u32)
    ensures
        r == x & 0xff,
        r <= 0xff,
{
    let r = x & 0xff;
    assert(r <= 0xff) by (bit_vector)
        requires
            r == x & 0xff,
    ;
    r
}

/// The base register of a multi-vector group whose field is `mask`:
/// `pext(word, mask) * 2^(5 - popcount(mask))`, the scale giving the stride of
/// the encodable bases (a 5-bit field any base, a 4-bit field even bases, a
/// 3-bit field multiples of four). A field of more than five bits is not
/// scaled.
pub open spec fn group_base_spec(word: u32, mask: u32) -> u32 {
    let pc = popcount(mask as nat);
    let p = pext32(word, mask);
    if pc == 0 {
        (p * 32) as u32
    } else if pc == 1 {
        (p * 16) as u32
    } else if pc == 2 {
        (p * 8) as u32
    } else if pc == 3 {
        (p * 4) as u32
    } else if pc == 4 {
        (p * 2) as u32
    } else {
        p
    }
}

fn group_base(word: u32, mask: u32) -> (r: u32)
    ensures
        r == group_base_spec(word, mask),
        r < 32 || popcount(mask as nat) > 5,
{
    let pc = popcount32(mask);
    let p = pext(word, mask);
    proof {
        lemma_pext_bound(word as nat, mask as nat);
        reveal_with_fuel(pow2n, 6);
    }
    if pc == 0 {
        p * 32
    } else if pc == 1 {
        p * 16
    } else if pc == 2 {
        p * 8
    } else if pc == 3 {
        p * 4
    } else if pc == 4 {
        p * 2
    } else {
        p
    }
}

/// `Z<zk>[<idx>]` for the restricted `*TMOPA` `Zk` field: `0..3` name
/// `z20..z23`, `4..7` name `z28..z31`; written with a lane and no arrangement.
pub open spec fn tmopa_zk_spec(zkf: u32, idx: u32) -> Operand {
    Operand::Reg {
        reg: reg_of(RegKind::Z, (if zkf < 4 { 20 + (zkf & 0xff) } else { 24 + (zkf & 0xff) }) as u32, 0x1f),
        arr: None,
        lane: Some(idx as u8),
        pred: None,
    }
}

fn tmopa_zk(zkf: u32, idx: u32) -> (r: Operand)
    ensures
        r == tmopa_zk_spec(zkf, idx),
{
    let low = low_byte(zkf);
    let zk: u32 = if zkf < 4 { 20 + low } else { 24 + low };
    Operand::Reg { reg: Register::z(zk), arr: None, lane: Some(idx as u8), pred: None }
}

/// The operands of row `f` for `word`: the `*TMOPA` tile, pair, `Zm` and
/// `Zk[idx]`, or the ZA slice followed by the sources of the row's shape.
pub open spec fn build_ops(f: Form, word: u32) -> Seq<Operand> {
    let zn = zreg_spec(pext32(word, f.zn), f.src);
    let zm = zreg_spec(pext32(word, f.zm), f.src);
    let zm_idx = zreg_idx_spec(pext32(word, f.zm), f.src, pext32(word, f.idx) as u8);
    let gn = vgroup_spec(group_base_spec(word, f.zn), f.vg, Some(f.src), 1);
    let gm = vgroup_spec(group_base_spec(word, f.zm), f.vg, Some(f.src), 1);
    if f.shape == Sh::Tmopa {
        seq![
            Operand::SmeTile { tile: pext32(word, f.za) as u8, arr: Some(f.acc) },
            vgroup_spec(group_base_spec(word, f.zn), 2, Some(f.src), 1),
            zm,
            tmopa_zk_spec(pext32(word, f.zk), pext32(word, f.idx)),
        ]
    } else {
        seq![za_slice_spec(f, word)] + match f.shape {
            Sh::SingleSingle => seq![zn, zm],
            Sh::SingleIdx => seq![zn, zm_idx],
            Sh::GroupSingle => seq![gn, zm],
            Sh::GroupIdx => seq![gn, zm_idx],
            Sh::GroupGroup => seq![gn, gm],
            Sh::GroupOnly => seq![gn],
            Sh::GroupIdxB => seq![vgroup_spec(group_base_spec(word, f.zn), 2, Some(f.src), 1), zm_idx],
            Sh::Tmopa => Seq::empty(),
        }
    }
}

/// Install the operands of a matched [`Form`] for `word` into a blank `out`.
fn build(f: Form, word: u32, out: &mut Instruction)
    requires
        old(out).is_blank(),
        f.code != Code::Invalid,
    ensures
        decode_post(*old(out), *final(out)),
        installed(*old(out), *final(out), f.code, code_mnemonic(f.code), build_ops(f, word)),
{
    out.set(f.code);
    if f.shape == Sh::Tmopa {
        // ZAda, { Zn, Zn+1 }.<src>, Zm.<src>, Zk[idx].
        out.push_operand(Operand::SmeTile { tile: pext(word, f.za) as u8, arr: Some(f.acc) });
        out.push_operand(zgroup(group_base(word, f.zn), 2, f.src));
        out.push_operand(zreg(pext(word, f.zm), f.src));
        out.push_operand(tmopa_zk(pext(word, f.zk), pext(word, f.idx)));
        return;
    }
    out.push_operand(za_slice(f, word));
    // Single sources read the register field directly; group sources scale by
    // the field width (see `group_base`).
    match f.shape {
        Sh::SingleSingle => {
            out.push_operand(zreg(pext(word, f.zn), f.src));
            out.push_operand(zreg(pext(word, f.zm), f.src));
        },
        Sh::SingleIdx => {
            out.push_operand(zreg(pext(word, f.zn), f.src));
            out.push_operand(zreg_idx(pext(word, f.zm), f.src, pext(word, f.idx) as u8));
        },
        Sh::GroupSingle => {
            out.push_operand(zgroup(group_base(word, f.zn), f.vg, f.src));
            out.push_operand(zreg(pext(word, f.zm), f.src));
        },
        Sh::GroupIdx => {
            out.push_operand(zgroup(group_base(word, f.zn), f.vg, f.src));
            out.push_operand(zreg_idx(pext(word, f.zm), f.src, pext(word, f.idx) as u8));
        },
        Sh::GroupGroup => {
            out.push_operand(zgroup(group_base(word, f.zn), f.vg, f.src));
            out.push_operand(zgroup(group_base(word, f.zm), f.vg, f.src));
        },
        Sh::GroupOnly => {
            out.push_operand(zgroup(group_base(word, f.zn), f.vg, f.src));
        },
        Sh::GroupIdxB => {
            // FP8 FVDOTB/FVDOTT: the source list is always a two-register
            // group although the `za` destination is `vgx4`.
            out.push_operand(zgroup(group_base(word, f.zn), 2, f.src));
            out.push_operand(zreg_idx(pext(word, f.zm), f.src, pext(word, f.idx) as u8));
        },
        Sh::Tmopa => {},
    }
}

/// The first row of [`sme2_row`], from row `i` on, whose `(mask, val)` key
/// matches `word`.
pub open spec fn first_match(word: u32, i: usize) -> Option<Form>
    decreases SME2_FORMS_LEN - i,
{
    if i >= SME2_FORMS_LEN {
        None
    } else {
        match sme2_row(i) {
            Some(f) => if word & f.mask == f.val {
                Some(f)
            } else {
                first_match(word, (i + 1) as usize)
            },
            None => first_match(word, (i + 1) as usize),
        }
    }
}

/// The instruction the multiply-into-ZA / `*TMOPA` table gives `word`: the
/// code of its first matching row with that row's operands, or `None`.
pub open spec fn table_insn(word: u32) -> Option<(Code, Mnemonic, Seq<Operand>)> {
    match first_match(word, 0) {
        Some(f) => insn(f.code, build_ops(f, word)),
        None => None,
    }
}

/// The row of [`sme2_form`] whose `(mask, val)` key matches `word`: the keys
/// are disjoint, so it is the only one, and `None` when no row matches.
pub fn lookup(word: u32) -> (r: Option<Form>)
    ensures
        r matches Some(f) ==> (word & f.mask) == f.val && f.code != Code::Invalid,
        r == first_match(word, 0),
        forall|i: int| #[trigger] mul_hit(word, i) ==> r == sme2_row(i as usize),
        (forall|i: int| !#[trigger] mul_hit(word, i)) ==> r is None,
{
    proof {
        lemma_mul_lookup_unique(word);
    }
    let mut i: usize = 0;
    while i < SME2_FORMS_LEN
        invariant
            i <= SME2_FORMS_LEN,
            first_match(word, 0) == first_match(word, i),
            forall|j: int| #[trigger] mul_hit(word, j) ==> first_match(word, 0) == sme2_row(j as usize),
            (forall|j: int| !#[trigger] mul_hit(word, j)) ==> first_match(word, 0) is None,
        decreases SME2_FORMS_LEN - i,
    {
        match sme2_form(i) {
            Some(f) => {
                if word & f.mask == f.val {
                    return Some(f);
                }
            },
            None => {},
        }
        i = i + 1;
    }
    None
}

/// Decode an SME2 `*TMOPA` outer product (quadrant `100`, size field `01`).
pub fn decode_tmopa(word: u32, out: &mut Instruction)
    requires
        old(out).is_blank(),
    ensures
        decode_post(*old(out), *final(out)),
        yields(*old(out), *final(out), table_insn(word)),
{
    if let Some(f) = lookup(word) {
        build(f, word, out);
    }
}

/// Decode an SME2 multi-vector form of the `0xC1` region (quadrant `110`,
/// `word<24> == 1`).
///
/// The function-decoded families are tried first; then the multiply-into-ZA
/// table [`sme2_form`]; then the multi-vector ALU table [`alu_form`], whose
/// keys are disjoint from the first table's.
pub fn decode_mul(word: u32, features: FeatureSet, out: &mut Instruction)
    requires
        old(out).is_blank(),
    ensures
        decode_post(*old(out), *final(out)),
        yields(*old(out), *final(out), mul_form(word, features)),
{
    if decode_luti6(word, features, out) {
        // The multi-vector LUTI6 (FEAT_LUT), strided or consecutive.
    } else if decode_narrow_shift(word, out) {
        // The shift-right-narrow family (4-vector source).
    } else if decode_narrow_shift2(word, out) {
        // The shift-right-narrow family (2-vector source).
    } else if decode_mvm_alu(word, features, out) {
        // The multi-vector by multi-vector in-place ALU family.
    } else if decode_mvs_alu(word, features, out) {
        // The multi-vector by single-vector in-place ALU family.
    } else if decode_unpk(word, out) {
        // UUNPK / SUNPK.
    } else if decode_fp_cvt(word, features, out) {
        // FCVT / FCVTN / BFCVT / BFCVTN / FCVTL.
    } else if decode_fp_cvt2(word, features, out) {
        // The FP8 narrow / widen converts, FP round and integer converts.
    } else if decode_cvt_narrow(word, out) {
        // The saturating extract-narrow family.
    } else if let Some(f) = lookup(word) {
        // The BF16 `BFADD`/`BFSUB` ZA-array accumulate rows require
        // FEAT_SME_B16B16.
        if (f.code == Code::SmeBfaddV2Go || f.code == Code::SmeBfaddV4Go || f.code == Code::SmeBfsubV2Go
            || f.code == Code::SmeBfsubV4Go) && !features.has(Feature::SmeB16b16) {
            return;
        }
        build(f, word, out);
    } else if let Some(f) = alu_lookup(word) {
        // The BF16 `BFMUL` rows (the `size == 00` case of the FMUL slot)
        // require FEAT_SME_B16B16.
        if (f.code == Code::SmeBfmulMV2 || f.code == Code::SmeBfmulMV4 || f.code == Code::SmeBfmulMVS2
            || f.code == Code::SmeBfmulMVS4) && !features.has(Feature::SmeB16b16) {
            return;
        }
        build_alu(f, word, out);
    }
}


// ---------------------------------------------------------------------------
// What the function-decoded families of the `0xC1` region claim.
// ---------------------------------------------------------------------------

/// The instruction of a claim: a family that claims a word (`Some`) either
/// decodes it (`Some(Some(f))`) or rejects it for a missing feature
/// (`Some(None)`); `None` leaves the word to the next family.
pub open spec fn claimed(c: Option<Option<(Code, Mnemonic, Seq<Operand>)>>) -> Option<(Code, Mnemonic, Seq<Operand>)> {
    match c {
        Some(o) => o,
        None => None,
    }
}

/// A consecutive group of `count` Z registers from `first`.
pub open spec fn zgroup_spec(first: int, count: u8, a: VA) -> Operand {
    vgroup_spec(first as u32, count, Some(a), 1)
}

/// The claim of `UUNPK` / `SUNPK`: vgx2 `{Zd, Zd+1}, Zn` (base `word<4:1>*2`)
/// or vgx4 `{Zd..Zd+3}, {Zn, Zn+1}` (bases `word<4:2>*4`, `word<9:6>*2`,
/// with `word<1>` and `word<5>` zero); the size `word<23:22>` is not `00`.
pub open spec fn unpk_claim(word: u32) -> Option<Option<(Code, Mnemonic, Seq<Operand>)>> {
    let sz = field(word, 22, 2);
    let dst = if sz == 1 { VA::Sh } else if sz == 2 { VA::Ss } else { VA::Sd };
    let src = if sz == 1 { VA::Sb } else if sz == 2 { VA::Sh } else { VA::Ss };
    let code = if field(word, 0, 1) == 1 { Code::SmeUunpk } else { Code::SmeSunpk };
    if word & 0xff2f_fc00 != 0xc125_e000 || sz == 0 {
        None
    } else if field(word, 20, 1) == 0 {
        Some(insn(code, seq![zgroup_spec(field(word, 1, 4) * 2, 2, dst), zreg_spec(field(word, 5, 5), src)]))
    } else if field(word, 1, 1) != 0 || field(word, 5, 1) != 0 {
        None
    } else {
        Some(insn(code, seq![zgroup_spec(field(word, 2, 3) * 4, 4, dst), zgroup_spec(field(word, 6, 4) * 2, 2, src)]))
    }
}

/// The claim of the FP16 / BF16 ↔ FP32 converts: narrow (`sz` `00` FCVT /
/// FCVTN, `01` BFCVT / BFCVTN by `word<5>`) `Zd.h, {Zn.s, Zn+1.s}`, widen
/// (`sz == 10`, FCVT / FCVTL by `word<0>`) `{Zd.s, Zd+1.s}, Zn.h`; the
/// interleaving forms and the widen need FEAT_SME_F16F16, `sz == 11` is
/// reserved.
pub open spec fn fp_cvt_claim(word: u32, features: FeatureSet) -> Option<Option<(Code, Mnemonic, Seq<Operand>)>> {
    let sz = field(word, 22, 2);
    let half_fp = features.contains(Feature::SmeF16f16);
    let inter = field(word, 5, 1) == 1;
    if word & 0xff3f_fc00 != 0xc120_e000 {
        None
    } else if sz <= 1 {
        if inter && !half_fp {
            Some(None)
        } else {
            Some(insn(
                if sz == 0 && !inter {
                    Code::SmeFcvtNarrow
                } else if sz == 0 {
                    Code::SmeFcvtnNarrowFp
                } else if !inter {
                    Code::SmeBfcvtNarrow
                } else {
                    Code::SmeBfcvtnNarrowFp
                },
                seq![zreg_spec(field(word, 0, 5), VA::Sh), zgroup_spec(field(word, 6, 4) * 2, 2, VA::Ss)],
            ))
        }
    } else if sz == 2 && half_fp {
        Some(insn(
            if field(word, 0, 1) == 0 { Code::SmeFcvtWiden } else { Code::SmeFcvtlWiden },
            seq![zgroup_spec(field(word, 1, 4) * 2, 2, VA::Ss), zreg_spec(field(word, 5, 5), VA::Sh)],
        ))
    } else {
        Some(None)
    }
}

/// The FP8 widening converts of `word<23:16>`: (code, long-variant code).
pub open spec fn fp8_widen(op: u32) -> Option<(Code, Code)> {
    if op == 0x26 {
        Some((Code::SmeF1cvtWiden, Code::SmeF1cvtlWiden))
    } else if op == 0xa6 {
        Some((Code::SmeF2cvtWiden, Code::SmeF2cvtlWiden))
    } else if op == 0x66 {
        Some((Code::SmeBf1cvtWiden, Code::SmeBf1cvtlWiden))
    } else if op == 0xe6 {
        Some((Code::SmeBf2cvtWiden, Code::SmeBf2cvtlWiden))
    } else {
        None
    }
}

/// The FP round / integer convert of `word<23:16>` without the vgx4 bit,
/// with `word<5>` selecting the unsigned convert.
pub open spec fn round_cvt_code(base_op: u32, usel: u32) -> Option<Code> {
    if base_op == 0xa8 {
        Some(Code::SmeFrintn)
    } else if base_op == 0xa9 {
        Some(Code::SmeFrintp)
    } else if base_op == 0xaa {
        Some(Code::SmeFrintm)
    } else if base_op == 0xac {
        Some(Code::SmeFrinta)
    } else if base_op == 0x22 {
        Some(if usel == 0 { Code::SmeScvtf } else { Code::SmeUcvtf })
    } else if base_op == 0x21 {
        Some(if usel == 0 { Code::SmeFcvtzs } else { Code::SmeFcvtzu })
    } else {
        None
    }
}

/// The claim of the FP8 narrow / widen converts (FEAT_SME_F8F16) and the
/// `.s` FP round / integer converts (FEAT_SME2, vgx2 / vgx4 by `word<20>`)
/// in the `0xC1 .. 111000` slot.
pub open spec fn fp_cvt2_claim(word: u32, features: FeatureSet) -> Option<Option<(Code, Mnemonic, Seq<Operand>)>> {
    let op = field(word, 16, 8);
    let zd = field(word, 0, 5);
    let f8 = features.contains(Feature::SmeF8f16);
    let usel = field(word, 5, 1);
    let vg: u8 = if field(word, 20, 1) == 0 { 2 } else { 4 };
    if word & 0xff00_fc00 != 0xc100_e000 {
        None
    } else if op == 0x24 || op == 0x64 {
        if field(word, 5, 1) != 0 {
            None
        } else if !f8 {
            Some(None)
        } else {
            Some(insn(
                if op == 0x24 { Code::SmeFcvtNarrowFp8 } else { Code::SmeBfcvtNarrowFp8 },
                seq![zreg_spec(zd, VA::Sb), zgroup_spec(field(word, 6, 4) * 2, 2, VA::Sh)],
            ))
        }
    } else if op == 0x34 {
        if field(word, 6, 1) != 0 {
            None
        } else if !f8 {
            Some(None)
        } else {
            Some(insn(
                if field(word, 5, 1) == 0 { Code::SmeFcvtNarrowFp8 } else { Code::SmeFcvtnNarrowFp8 },
                seq![zreg_spec(zd, VA::Sb), zgroup_spec(field(word, 7, 3) * 4, 4, VA::Ss)],
            ))
        }
    } else if fp8_widen(op) is Some {
        if !f8 {
            Some(None)
        } else {
            let w = fp8_widen(op).unwrap();
            Some(insn(
                if field(word, 0, 1) == 0 { w.0 } else { w.1 },
                seq![zgroup_spec(field(word, 1, 4) * 2, 2, VA::Sh), zreg_spec(field(word, 5, 5), VA::Sb)],
            ))
        }
    } else {
        match round_cvt_code(op & 0xef, usel) {
            Some(c) => if (c == Code::SmeFrintn || c == Code::SmeFrintp || c == Code::SmeFrintm || c == Code::SmeFrinta)
                && usel != 0 {
                None
            } else if !features.contains(Feature::Sme2) {
                Some(None)
            } else if vg == 4 && (field(word, 1, 1) != 0 || field(word, 6, 1) != 0) {
                None
            } else if field(word, 0, 1) != 0 {
                None
            } else if vg == 2 {
                Some(insn(c, seq![
                    zgroup_spec(field(word, 1, 4) * 2, 2, VA::Ss),
                    zgroup_spec(field(word, 6, 4) * 2, 2, VA::Ss),
                ]))
            } else {
                Some(insn(c, seq![
                    zgroup_spec(field(word, 2, 3) * 4, 4, VA::Ss),
                    zgroup_spec(field(word, 7, 3) * 4, 4, VA::Ss),
                ]))
            },
            None => None,
        }
    }
}

/// The claim of the saturating extract-narrow family: the 2-register source
/// form `Zd.h, {Zn.s, Zn+1.s}` (`word<20> == 0`, `word<23>` zero) and the
/// 4-register source form `Zd.<b|h>, {Zn..Zn+3}.<s|d>`.
pub open spec fn cvt_narrow_claim(word: u32) -> Option<Option<(Code, Mnemonic, Seq<Operand>)>> {
    let zd = field(word, 0, 5);
    let usel = field(word, 5, 1);
    let op = field(word, 5, 2);
    let signed_family = field(word, 22, 1) == 0;
    if word & 0xff2f_fc00 != 0xc123_e000 {
        None
    } else if field(word, 20, 1) == 0 {
        if field(word, 23, 1) != 0 || (!signed_family && usel != 0) {
            None
        } else {
            Some(insn(
                if !signed_family { Code::SmeSqcvtu } else if usel == 0 { Code::SmeSqcvt } else { Code::SmeUqcvt },
                seq![zreg_spec(zd, VA::Sh), zgroup_spec(field(word, 6, 4) * 2, 2, VA::Ss)],
            ))
        }
    } else if !signed_family && op != 0 && op != 2 {
        None
    } else {
        let wide = field(word, 23, 1) == 1;
        Some(insn(
            if signed_family {
                if op == 0 {
                    Code::SmeSqcvt
                } else if op == 1 {
                    Code::SmeUqcvt
                } else if op == 2 {
                    Code::SmeSqcvtnNarrow
                } else {
                    Code::SmeUqcvtnNarrow
                }
            } else if op == 0 {
                Code::SmeSqcvtu
            } else {
                Code::SmeSqcvtunNarrow
            },
            seq![
                zreg_spec(zd, if wide { VA::Sh } else { VA::Sb }),
                zgroup_spec(field(word, 7, 3) * 4, 4, if wide { VA::Sd } else { VA::Ss }),
            ],
        ))
    }
}

/// The claim of the multi-vector `LUTI6` (FEAT_LUT): the stride-4
/// (`word<15:10> == 111111`, base `word<4>:word<1:0>`, `word<3:2>` zero) or
/// consecutive (`111101`, base `word<4:0>`, low two bits zero) `.h`
/// destination, `{Zn, Zn+1}.h` and the table pair `{Zt, Zt+1}[word<22>]`.
pub open spec fn luti6_claim(word: u32, features: FeatureSet) -> Option<Option<(Code, Mnemonic, Seq<Operand>)>> {
    let strided = word & 0xff20_fc00 == 0xc120_fc00;
    let consec = word & 0xff20_fc00 == 0xc120_f400;
    if !(strided || consec) || !features.contains(Feature::Lut) || field(word, 23, 1) != 0 {
        None
    } else if strided && field(word, 2, 2) != 0 {
        None
    } else if !strided && field(word, 0, 2) != 0 {
        None
    } else {
        Some(insn(if strided { Code::SmeLuti6 } else { Code::SmeLuti6Consec }, seq![
            if strided {
                vgroup_spec((field(word, 4, 1) * 16 + field(word, 0, 2)) as u32, 4, Some(VA::Sh), 4)
            } else {
                vgroup_spec(field(word, 0, 5), 4, Some(VA::Sh), 1)
            },
            zgroup_spec(field(word, 5, 5) as int, 2, VA::Sh),
            Operand::SveVecGroup {
                first: reg_of(RegKind::Z, field(word, 16, 5), 0x1f),
                count: 2,
                arr: None,
                range: false,
                stride: 1,
                lane: Some(field(word, 22, 1) as u8),
            },
        ]))
    }
}

/// The shift-right-narrow code of `(unsigned result, unsigned input, n)`.
pub open spec fn narrow_shift_code(ur: u32, ui: u32, n: u32) -> Code {
    if ur == 0 {
        if ui == 0 {
            if n == 0 { Code::SmeSqrshr } else { Code::SmeSqrshrn }
        } else {
            if n == 0 { Code::SmeUqrshr } else { Code::SmeUqrshrn }
        }
    } else {
        if n == 0 { Code::SmeSqrshru } else { Code::SmeSqrshrun }
    }
}

/// The claim of the 4-vector shift-right-narrow family: `Zd.<b|h>,
/// {Zn..Zn+3}.<s|d>, #shift`, the size and shift from `word<23:21>`
/// (`011`: `.b`/`.s`, `32 - imm5`; `101`: `.h`/`.d`, `64 - imm5`; `111`:
/// `.h`/`.d`, `32 - imm5`); an unsigned result needs a signed input.
pub open spec fn narrow_shift_claim(word: u32) -> Option<Option<(Code, Mnemonic, Seq<Operand>)>> {
    let ur = field(word, 6, 1);
    let ui = field(word, 5, 1);
    let imm5 = field(word, 16, 5);
    let t = field(word, 21, 3);
    if word & 0xff00_f800 != 0xc100_d800 || (ur == 1 && ui == 1) || (t != 0b011 && t != 0b101 && t != 0b111) {
        None
    } else {
        let dst = if t == 0b011 { VA::Sb } else { VA::Sh };
        let src = if t == 0b011 { VA::Ss } else { VA::Sd };
        let shift = if t == 0b101 { 64 - imm5 } else { 32 - imm5 };
        Some(insn(narrow_shift_code(ur, ui, field(word, 10, 1)), seq![
            zreg_spec(field(word, 0, 5), dst),
            zgroup_spec(field(word, 7, 3) * 4, 4, src),
            Operand::ShiftAmount(shift as u8),
        ]))
    }
}

/// The claim of the 2-vector shift-right-narrow family: `Zd.h, {Zn, Zn+1}.s,
/// #(16 - word<19:16>)`; unsigned result and unsigned input together are
/// unallocated.
pub open spec fn narrow_shift2_claim(word: u32) -> Option<Option<(Code, Mnemonic, Seq<Operand>)>> {
    let ui = field(word, 5, 1);
    let ur = field(word, 20, 1);
    if word & 0xffe0_fc00 != 0xc1e0_d400 || (ui == 1 && ur == 1) {
        None
    } else {
        Some(insn(
            if ur == 1 { Code::SmeSqrshruV2 } else if ui == 1 { Code::SmeUqrshrV2 } else { Code::SmeSqrshrV2 },
            seq![
                zreg_spec(field(word, 0, 5), VA::Sh),
                zgroup_spec(field(word, 6, 4) * 2, 2, VA::Ss),
                Operand::ShiftAmount((16 - field(word, 16, 4)) as u8),
            ],
        ))
    }
}

/// The BF16 accumulate rows of the multiply-into-ZA table, which need
/// FEAT_SME_B16B16.
pub open spec fn is_bf_add(c: Code) -> bool {
    c == Code::SmeBfaddV2Go || c == Code::SmeBfaddV4Go || c == Code::SmeBfsubV2Go || c == Code::SmeBfsubV4Go
}

/// The BF16 multiply rows of the ALU table, which need FEAT_SME_B16B16.
pub open spec fn is_bf_mul(c: Code) -> bool {
    c == Code::SmeBfmulMV2 || c == Code::SmeBfmulMV4 || c == Code::SmeBfmulMVS2 || c == Code::SmeBfmulMVS4
}

/// The instruction an SME2 word of the `0xC1` region encodes under
/// `features`: the claim of a function-decoded family, else the first
/// matching row of the multiply-into-ZA table, else of the ALU table (the
/// BF16 rows of both need FEAT_SME_B16B16), else `None`.
pub open spec fn mul_form(word: u32, features: FeatureSet) -> Option<(Code, Mnemonic, Seq<Operand>)> {
    let b16 = features.contains(Feature::SmeB16b16);
    if mul_claim(word, features) is Some {
        claimed(mul_claim(word, features))
    } else {
        match first_match(word, 0) {
            Some(f) => if is_bf_add(f.code) && !b16 {
                None
            } else {
                insn(f.code, build_ops(f, word))
            },
            None => match alu_first_match(word, 0) {
                Some(f) => if is_bf_mul(f.code) && !b16 {
                    None
                } else {
                    alu_insn(f, word)
                },
                None => None,
            },
        }
    }
}

/// What the function-decoded families of the `0xC1` region claim of `word`,
/// tried in the decoder's order: LUTI6, the two shift-right-narrow
/// families, the multi×multi and multi×single ALU families, UNPK, the FP
/// converts and the extract-narrow family. `None` when none claims it (the
/// table-driven rows then decide, which this does not state).
pub open spec fn mul_claim(word: u32, features: FeatureSet) -> Option<Option<(Code, Mnemonic, Seq<Operand>)>> {
    if luti6_claim(word, features) is Some {
        luti6_claim(word, features)
    } else if narrow_shift_claim(word) is Some {
        narrow_shift_claim(word)
    } else if narrow_shift2_claim(word) is Some {
        narrow_shift2_claim(word)
    } else if mvm_alu_form(word, features) is Some {
        Some(mvm_alu_form(word, features))
    } else if mvs_alu_form(word, features) is Some {
        Some(mvs_alu_form(word, features))
    } else if unpk_claim(word) is Some {
        unpk_claim(word)
    } else if fp_cvt_claim(word, features) is Some {
        fp_cvt_claim(word, features)
    } else if fp_cvt2_claim(word, features) is Some {
        fp_cvt2_claim(word, features)
    } else {
        cvt_narrow_claim(word)
    }
}

// ---------------------------------------------------------------------------
// The function-decoded multi-vector families of the `0xC1` region.
// ---------------------------------------------------------------------------

/// The arrangement policy of an in-place ALU opcode: integer ops take all
/// four sizes, floating-point ops `.h`/`.s`/`.d` (with `.b` re-typed to their
/// BF16 siblings), BF16-only ops just the `.b` slot written `.h`.
#[derive(Clone, Copy, PartialEq, Eq, Structural)]
pub enum SizePolicy {
    Int,
    Fp,
    Bf,
}

/// The code of a `word<0>`-selected pair in a vgx2 / vgx4 family: `s2`/`s4`
/// for `b0 == 0`, `u2`/`u4` for `b0 == 1`.
pub open spec fn sel4(b0: u32, vg: u8, s2: Code, s4: Code, u2: Code, u4: Code) -> Code {
    if b0 == 0 {
        if vg == 2 { s2 } else { s4 }
    } else {
        if vg == 2 { u2 } else { u4 }
    }
}

fn sel4_code(b0: u32, vg: u8, s2: Code, s4: Code, u2: Code, u4: Code) -> (c: Code)
    ensures
        c == sel4(b0, vg, s2, s4, u2, u4),
{
    if b0 == 0 {
        if vg == 2 { s2 } else { s4 }
    } else {
        if vg == 2 { u2 } else { u4 }
    }
}

/// The vgx2 / vgx4 code of an op without a `word<0>` selector.
pub open spec fn sel2(vg: u8, c2: Code, c4: Code) -> Code {
    if vg == 2 {
        c2
    } else {
        c4
    }
}

fn sel2_code(vg: u8, c2: Code, c4: Code) -> (c: Code)
    ensures
        c == sel2(vg, c2, c4),
{
    if vg == 2 {
        c2
    } else {
        c4
    }
}

/// The `(code, size policy)` of a multi×single ALU opcode
/// (`table = word<10>`, `sub = word<9:5>`, `b0 = word<0>`), or `None`.
pub open spec fn mvs_select(table: u32, sub: u32, b0: u32, vg: u8) -> Option<(Code, SizePolicy)> {
    if table == 1 {
        if sub != 0 || b0 != 0 {
            None
        } else {
            Some((sel2(vg, Code::SmeSqdmulhMVS2, Code::SmeSqdmulhMVS4), SizePolicy::Int))
        }
    } else if sub == 0 {
        Some((sel4(b0, vg, Code::SmeSmaxMVS2, Code::SmeSmaxMVS4, Code::SmeUmaxMVS2, Code::SmeUmaxMVS4), SizePolicy::Int))
    } else if sub == 1 {
        Some((sel4(b0, vg, Code::SmeSminMVS2, Code::SmeSminMVS4, Code::SmeUminMVS2, Code::SmeUminMVS4), SizePolicy::Int))
    } else if sub == 8 {
        Some((sel4(b0, vg, Code::SmeFmaxMVS2, Code::SmeFmaxMVS4, Code::SmeFminMVS2, Code::SmeFminMVS4), SizePolicy::Fp))
    } else if sub == 9 {
        Some((sel4(b0, vg, Code::SmeFmaxnmMVS2, Code::SmeFmaxnmMVS4, Code::SmeFminnmMVS2, Code::SmeFminnmMVS4), SizePolicy::Fp))
    } else if sub == 12 {
        if b0 != 0 {
            None
        } else {
            Some((sel2(vg, Code::SmeFscaleMVS2, Code::SmeFscaleMVS4), SizePolicy::Fp))
        }
    } else if sub == 17 {
        Some((sel4(b0, vg, Code::SmeSrshlMVS2, Code::SmeSrshlMVS4, Code::SmeUrshlMVS2, Code::SmeUrshlMVS4), SizePolicy::Int))
    } else if sub == 24 {
        if b0 != 0 {
            None
        } else {
            Some((sel2(vg, Code::SmeAddMVS2, Code::SmeAddMVS4), SizePolicy::Int))
        }
    } else {
        None
    }
}

fn mvs_select_of(table: u32, sub: u32, b0: u32, vg: u8) -> (r: Option<(Code, SizePolicy)>)
    ensures
        r == mvs_select(table, sub, b0, vg),
{
    if table == 1 {
        // Sub-table 1: only `SQDMULH` (sub 0, integer, no `word<0>` selector).
        if sub != 0 || b0 != 0 {
            None
        } else {
            Some((sel2_code(vg, Code::SmeSqdmulhMVS2, Code::SmeSqdmulhMVS4), SizePolicy::Int))
        }
    } else if sub == 0 {
        Some((sel4_code(b0, vg, Code::SmeSmaxMVS2, Code::SmeSmaxMVS4, Code::SmeUmaxMVS2, Code::SmeUmaxMVS4), SizePolicy::Int))
    } else if sub == 1 {
        Some((sel4_code(b0, vg, Code::SmeSminMVS2, Code::SmeSminMVS4, Code::SmeUminMVS2, Code::SmeUminMVS4), SizePolicy::Int))
    } else if sub == 8 {
        Some((sel4_code(b0, vg, Code::SmeFmaxMVS2, Code::SmeFmaxMVS4, Code::SmeFminMVS2, Code::SmeFminMVS4), SizePolicy::Fp))
    } else if sub == 9 {
        Some((sel4_code(b0, vg, Code::SmeFmaxnmMVS2, Code::SmeFmaxnmMVS4, Code::SmeFminnmMVS2, Code::SmeFminnmMVS4), SizePolicy::Fp))
    } else if sub == 12 {
        // FSCALE has no `word<0>` selector.
        if b0 != 0 {
            None
        } else {
            Some((sel2_code(vg, Code::SmeFscaleMVS2, Code::SmeFscaleMVS4), SizePolicy::Fp))
        }
    } else if sub == 17 {
        Some((sel4_code(b0, vg, Code::SmeSrshlMVS2, Code::SmeSrshlMVS4, Code::SmeUrshlMVS2, Code::SmeUrshlMVS4), SizePolicy::Int))
    } else if sub == 24 {
        // ADD has no `word<0>` selector.
        if b0 != 0 {
            None
        } else {
            Some((sel2_code(vg, Code::SmeAddMVS2, Code::SmeAddMVS4), SizePolicy::Int))
        }
    } else {
        None
    }
}

/// The BF16 sibling of a multi×single floating-point code, if it has one.
pub open spec fn mvs_bf16(code: Code) -> Option<Code> {
    match code {
        Code::SmeFmaxMVS2 => Some(Code::SmeBfmaxMVS2),
        Code::SmeFmaxMVS4 => Some(Code::SmeBfmaxMVS4),
        Code::SmeFminMVS2 => Some(Code::SmeBfminMVS2),
        Code::SmeFminMVS4 => Some(Code::SmeBfminMVS4),
        Code::SmeFmaxnmMVS2 => Some(Code::SmeBfmaxnmMVS2),
        Code::SmeFmaxnmMVS4 => Some(Code::SmeBfmaxnmMVS4),
        Code::SmeFminnmMVS2 => Some(Code::SmeBfminnmMVS2),
        Code::SmeFminnmMVS4 => Some(Code::SmeBfminnmMVS4),
        Code::SmeFscaleMVS2 => Some(Code::SmeBfscaleMVS2),
        Code::SmeFscaleMVS4 => Some(Code::SmeBfscaleMVS4),
        _ => None,
    }
}

fn mvs_bf16_of(code: Code) -> (r: Option<Code>)
    ensures
        r == mvs_bf16(code),
{
    match code {
        Code::SmeFmaxMVS2 => Some(Code::SmeBfmaxMVS2),
        Code::SmeFmaxMVS4 => Some(Code::SmeBfmaxMVS4),
        Code::SmeFminMVS2 => Some(Code::SmeBfminMVS2),
        Code::SmeFminMVS4 => Some(Code::SmeBfminMVS4),
        Code::SmeFmaxnmMVS2 => Some(Code::SmeBfmaxnmMVS2),
        Code::SmeFmaxnmMVS4 => Some(Code::SmeBfmaxnmMVS4),
        Code::SmeFminnmMVS2 => Some(Code::SmeBfminnmMVS2),
        Code::SmeFminnmMVS4 => Some(Code::SmeBfminnmMVS4),
        Code::SmeFscaleMVS2 => Some(Code::SmeBfscaleMVS2),
        Code::SmeFscaleMVS4 => Some(Code::SmeBfscaleMVS4),
        _ => None,
    }
}

/// The `.h`/`.s`/`.d` arrangement of a floating-point size `1`/`2`/`3`.
pub open spec fn fp_arr(size: u32) -> VA {
    if size == 1 {
        VA::Sh
    } else if size == 2 {
        VA::Ss
    } else {
        VA::Sd
    }
}

/// The instruction a multi×single in-place ALU word encodes under
/// `features`, or `None`.
pub open spec fn mvs_alu_form(word: u32, features: FeatureSet) -> Option<(Code, Mnemonic, Seq<Operand>)> {
    let vg: u8 = if field(word, 11, 1) == 0 { 2 } else { 4 };
    let zdn = if vg == 2 { field(word, 1, 4) * 2 } else { field(word, 2, 3) * 4 };
    let lo_reserved = if vg == 2 { 0 } else { field(word, 1, 1) };
    let size = field(word, 22, 2);
    let zm = field(word, 16, 4);
    if word & 0xff30_f000 != 0xc120_a000 {
        None
    } else {
        match mvs_select(field(word, 10, 1), field(word, 5, 5), field(word, 0, 1), vg) {
            None => None,
            Some(sel) => {
                let ac: Option<(VA, Code)> = if lo_reserved != 0 {
                    None
                } else if sel.1 == SizePolicy::Int {
                    Some((arr_spec(size), sel.0))
                } else if sel.1 == SizePolicy::Bf {
                    None
                } else if size == 0 {
                    if !features.contains(Feature::SmeB16b16) {
                        None
                    } else {
                        match mvs_bf16(sel.0) {
                            Some(bf) => Some((VA::Sh, bf)),
                            None => None,
                        }
                    }
                } else {
                    Some((fp_arr(size), sel.0))
                };
                match ac {
                    Some(x) => if !features.contains(Feature::Sme2) {
                        None
                    } else {
                        Some((
                            x.1,
                            code_mnemonic(x.1),
                            seq![
                                vgroup_spec((zdn) as u32, vg, Some(x.0), 1),
                                vgroup_spec((zdn) as u32, vg, Some(x.0), 1),
                                zreg_spec(zm, x.0),
                            ],
                        ))
                    },
                    None => None,
                }
            },
        }
    }
}

/// The `(code, size policy)` of a multi×multi ALU opcode, or `None`.
pub open spec fn mvm_select(table: u32, sub: u32, b0: u32, vg: u8) -> Option<(Code, SizePolicy)> {
    if table == 1 {
        if sub != 0 || b0 != 0 {
            None
        } else {
            Some((sel2(vg, Code::SmeSqdmulhMV2, Code::SmeSqdmulhMV4), SizePolicy::Int))
        }
    } else if sub == 0 {
        Some((sel4(b0, vg, Code::SmeSmaxMV2, Code::SmeSmaxMV4, Code::SmeUmaxMV2, Code::SmeUmaxMV4), SizePolicy::Int))
    } else if sub == 1 {
        Some((sel4(b0, vg, Code::SmeSminMV2, Code::SmeSminMV4, Code::SmeUminMV2, Code::SmeUminMV4), SizePolicy::Int))
    } else if sub == 8 {
        Some((sel4(b0, vg, Code::SmeBfmaxMV2, Code::SmeBfmaxMV4, Code::SmeBfminMV2, Code::SmeBfminMV4), SizePolicy::Bf))
    } else if sub == 9 {
        Some((sel4(b0, vg, Code::SmeBfmaxnmMV2, Code::SmeBfmaxnmMV4, Code::SmeBfminnmMV2, Code::SmeBfminnmMV4), SizePolicy::Bf))
    } else if sub == 10 {
        Some((sel4(b0, vg, Code::SmeFamaxMV2, Code::SmeFamaxMV4, Code::SmeFaminMV2, Code::SmeFaminMV4), SizePolicy::Fp))
    } else if sub == 12 {
        if b0 != 0 {
            None
        } else {
            Some((sel2(vg, Code::SmeFscaleMVMV2, Code::SmeFscaleMVMV4), SizePolicy::Fp))
        }
    } else if sub == 17 {
        Some((sel4(b0, vg, Code::SmeSrshlMV2, Code::SmeSrshlMV4, Code::SmeUrshlMV2, Code::SmeUrshlMV4), SizePolicy::Int))
    } else {
        None
    }
}

fn mvm_select_of(table: u32, sub: u32, b0: u32, vg: u8) -> (r: Option<(Code, SizePolicy)>)
    ensures
        r == mvm_select(table, sub, b0, vg),
{
    if table == 1 {
        // Sub-table 1: only `SQDMULH` (sub 0, integer, no `word<0>` selector).
        if sub != 0 || b0 != 0 {
            None
        } else {
            Some((sel2_code(vg, Code::SmeSqdmulhMV2, Code::SmeSqdmulhMV4), SizePolicy::Int))
        }
    } else if sub == 0 {
        Some((sel4_code(b0, vg, Code::SmeSmaxMV2, Code::SmeSmaxMV4, Code::SmeUmaxMV2, Code::SmeUmaxMV4), SizePolicy::Int))
    } else if sub == 1 {
        Some((sel4_code(b0, vg, Code::SmeSminMV2, Code::SmeSminMV4, Code::SmeUminMV2, Code::SmeUminMV4), SizePolicy::Int))
    } else if sub == 8 {
        Some((sel4_code(b0, vg, Code::SmeBfmaxMV2, Code::SmeBfmaxMV4, Code::SmeBfminMV2, Code::SmeBfminMV4), SizePolicy::Bf))
    } else if sub == 9 {
        Some((sel4_code(b0, vg, Code::SmeBfmaxnmMV2, Code::SmeBfmaxnmMV4, Code::SmeBfminnmMV2, Code::SmeBfminnmMV4), SizePolicy::Bf))
    } else if sub == 10 {
        // FAMAX/FAMIN exist only in the multi×multi form.
        Some((sel4_code(b0, vg, Code::SmeFamaxMV2, Code::SmeFamaxMV4, Code::SmeFaminMV2, Code::SmeFaminMV4), SizePolicy::Fp))
    } else if sub == 12 {
        // FSCALE has no `word<0>` selector; its `.b` case is BFSCALE.
        if b0 != 0 {
            None
        } else {
            Some((sel2_code(vg, Code::SmeFscaleMVMV2, Code::SmeFscaleMVMV4), SizePolicy::Fp))
        }
    } else if sub == 17 {
        Some((sel4_code(b0, vg, Code::SmeSrshlMV2, Code::SmeSrshlMV4, Code::SmeUrshlMV2, Code::SmeUrshlMV4), SizePolicy::Int))
    } else {
        None
    }
}

/// The BF16 sibling of a multi×multi floating-point code: only FSCALE has one.
pub open spec fn mvm_bf16(code: Code) -> Option<Code> {
    match code {
        Code::SmeFscaleMVMV2 => Some(Code::SmeBfscaleMV2),
        Code::SmeFscaleMVMV4 => Some(Code::SmeBfscaleMV4),
        _ => None,
    }
}

fn mvm_bf16_of(code: Code) -> (r: Option<Code>)
    ensures
        r == mvm_bf16(code),
{
    match code {
        Code::SmeFscaleMVMV2 => Some(Code::SmeBfscaleMV2),
        Code::SmeFscaleMVMV4 => Some(Code::SmeBfscaleMV4),
        _ => None,
    }
}

/// The instruction a multi×multi in-place ALU word encodes under `features`,
/// or `None`.
pub open spec fn mvm_alu_form(word: u32, features: FeatureSet) -> Option<(Code, Mnemonic, Seq<Operand>)> {
    let vg: u8 = if field(word, 11, 1) == 0 { 2 } else { 4 };
    let zdn = if vg == 2 { field(word, 1, 4) * 2 } else { field(word, 2, 3) * 4 };
    let zm = if vg == 2 { field(word, 17, 4) * 2 } else { field(word, 18, 3) * 4 };
    let lo_reserved = if vg == 2 { field(word, 16, 1) } else { field(word, 1, 1) | field(word, 16, 2) };
    let size = field(word, 22, 2);
    if word & 0xff20_f000 != 0xc120_b000 {
        None
    } else {
        match mvm_select(field(word, 10, 1), field(word, 5, 5), field(word, 0, 1), vg) {
            None => None,
            Some(sel) => {
                let ac: Option<(VA, Code)> = if lo_reserved != 0 {
                    None
                } else if sel.1 == SizePolicy::Int {
                    Some((arr_spec(size), sel.0))
                } else if sel.1 == SizePolicy::Bf {
                    if size != 0 || !features.contains(Feature::SmeB16b16) {
                        None
                    } else {
                        Some((VA::Sh, sel.0))
                    }
                } else if size == 0 {
                    if !features.contains(Feature::SmeB16b16) {
                        None
                    } else {
                        match mvm_bf16(sel.0) {
                            Some(bf) => Some((VA::Sh, bf)),
                            None => None,
                        }
                    }
                } else {
                    Some((fp_arr(size), sel.0))
                };
                match ac {
                    Some(x) => if !features.contains(Feature::Sme2) {
                        None
                    } else {
                        Some((
                            x.1,
                            code_mnemonic(x.1),
                            seq![
                                vgroup_spec(zdn as u32, vg, Some(x.0), 1),
                                vgroup_spec(zdn as u32, vg, Some(x.0), 1),
                                vgroup_spec(zm as u32, vg, Some(x.0), 1),
                            ],
                        ))
                    },
                    None => None,
                }
            },
        }
    }
}


/// Decode the SME2 multi-vector × single-vector **in-place** ALU family:
/// `<op> { Zdn..Zdn+vg-1 }, { Zdn..Zdn+vg-1 }, Zm`.
///
/// Slot key: `word<31:24> == 0xC1`, `word<15:11> == 10100` (`word<10>` selects the
/// `sqdmulh` sub-table from the `smax`/... sub-table). `word<11>` selects
/// vgx2(0)/vgx4(1); the destination/first-source share the group field
/// `word<4:1>` (vgx2, stride 2) / `word<4:2>` (vgx4, stride 4). The single
/// multiplier `Zm = word<19:16>` (`z0..z15`). The sub-opcode is `word<9:5>` and
/// `word<0>` selects signed/unsigned (or max/min). Element size is `word<23:22>`
/// (`.b` re-types the floating-point ops to their BF16 `bf*` siblings).
///
/// Returns `true` (and fills `out`) on a match, `false` otherwise.
fn decode_mvs_alu(word: u32, features: FeatureSet, out: &mut Instruction) -> (r: bool)
    requires
        old(out).is_blank(),
    ensures
        decode_post(*old(out), *final(out)),
        yields(*old(out), *final(out), mvs_alu_form(word, features)),
        r == mvs_alu_form(word, features) is Some,
{
    // Slot: `word<31:24> == 0xC1`, `word<21> == 1`, `word<20> == 0`,
    // `word<15:12> == 1010` (`word<11>` is the vgx2/vgx4 selector and `word<10>`
    // the sub-table selector, both decoded below). The single multiplier `Zm` is a
    // `z0..z15` register (`word<19:16>`), so `word<20>` is RES0; both `word<21>`
    // and `word<20>` are part of the key (not masked away) to avoid over-decoding
    // the reserved `word<21> == 0` / `word<20> == 1` slots.
    if word & 0xff30_f000 != 0xc120_a000 {
        return false;
    }
    let vg: u8 = if bit(word, 11) == 0 { 2 } else { 4 };
    // Destination/first-source group: vgx2 base `word<4:1>` (stride 2), vgx4 base
    // `word<4:2>` (stride 4). `word<0>` is the signed/unsigned (or max/min)
    // selector for the ops that have one, so the only RES0 low bit is `word<1>`
    // (set for vgx4, where the base starts at `word<2>`).
    let (zdn, lo_reserved): (u32, u32) = if vg == 2 {
        (bits(word, 1, 4) * 2, 0)
    } else {
        (bits(word, 2, 3) * 4, bit(word, 1))
    };
    let size: u32 = bits(word, 22, 2);
    let zm: u32 = bits(word, 16, 4);
    // (Code, element-arrangement policy). The integer ops take all four sizes; the
    // `f*` ops take `.h`/`.s`/`.d` (and the `.b == BF16` re-type).
    let Some((code, pol)) = mvs_select_of(bit(word, 10), bits(word, 5, 5), bit(word, 0), vg) else { return false };
    // The low bits of the group field (above the encodable base) are RES0.
    if lo_reserved != 0 {
        return false;
    }
    // Recover the element arrangement (and, for the `.b` floating-point case, the
    // BF16 re-typed `bf*` code).
    let (a, code): (VA, Code) = match pol {
        SizePolicy::Int => (arr(size), code),
        SizePolicy::Bf => return false,
        SizePolicy::Fp => if size == 0 {
            // BF16 re-type (FEAT_SME_B16B16): `.b` size renders `.h`.
            if !features.has(Feature::SmeB16b16) {
                return false;
            }
            match mvs_bf16_of(code) {
                Some(bf) => (VA::Sh, bf),
                None => return false,
            }
        } else if size == 1 {
            (VA::Sh, code)
        } else if size == 2 {
            (VA::Ss, code)
        } else {
            (VA::Sd, code)
        },
    };
    if !features.has(Feature::Sme2) {
        return false;
    }
    install3(out, code, mnemonic_of(code), zgroup(zdn, vg, a), zgroup(zdn, vg, a), zreg(zm, a));
    true
}

/// Decode the SME2 multi-vector × **multi-vector** in-place ALU family:
/// `<op> { Zdn..Zdn+vg-1 }, { Zdn..Zdn+vg-1 }, { Zm..Zm+vg-1 }`.
///
/// This is the multi×MULTI sibling of [`decode_mvs_alu`]: same sub-opcode scheme
/// (so the `(table, sub, b0)` selectors match exactly), but it lives one opcode
/// slot higher (`word<15:11> == 10110` vs the multi×single `1010x`) and the second
/// source is a 2-/4-register group `Zm` rather than a `z0..z15` single.
///
/// Slot key: `word<31:24> == 0xC1`, `word<21> == 1`, `word<15:12> == 1011`.
/// `word<11>` selects vgx2(0)/vgx4(1); `word<10>` selects the `sqdmulh` sub-table.
/// The destination/first-source group is `word<4:1>` (vgx2, stride 2) /
/// `word<4:2>` (vgx4, stride 4); the second-source group `Zm` is `word<20:17>`
/// (vgx2, stride 2) / `word<20:18>` (vgx4, stride 4). `word<16>` is RES0 in vgx2;
/// `word<17>`/`word<1>` are RES0 in vgx4. The sub-opcode is `word<9:5>` and
/// `word<0>` selects signed/unsigned (or max/min); element size is `word<23:22>`
/// (`.b` re-types the floating-point ops to their BF16 `bf*` siblings).
///
/// The op set is the same as multi×single minus `ADD` (no multi×multi `add`) plus
/// `FAMAX`/`FAMIN` (sub 10), which exist only here. Returns `true` (and fills
/// `out`) on a match, `false` otherwise.
fn decode_mvm_alu(word: u32, features: FeatureSet, out: &mut Instruction) -> (r: bool)
    requires
        old(out).is_blank(),
    ensures
        decode_post(*old(out), *final(out)),
        yields(*old(out), *final(out), mvm_alu_form(word, features)),
        r == mvm_alu_form(word, features) is Some,
{
    // Slot: `word<31:24> == 0xC1`, `word<21> == 1`, `word<15:12> == 1011`. Both
    // `word<21>` and `word<20>` are *not* part of the key (word<20:17> is the Zm
    // group field); `word<11>` (vgx) and `word<10>` (sub-table) are decoded below.
    if word & 0xff20_f000 != 0xc120_b000 {
        return false;
    }
    let vg: u8 = if bit(word, 11) == 0 { 2 } else { 4 };
    // Destination/first-source group and second-source group, with the reserved
    // low/Zm bits. vgx2: zdn = word<4:1>*2 (word<0> is the selector), zm =
    // word<20:17>*2 (word<16> RES0). vgx4: zdn = word<4:2>*4 (word<1> RES0), zm =
    // word<20:18>*4 (word<17:16> RES0).
    let (zdn, zm, lo_reserved): (u32, u32, u32) = if vg == 2 {
        (bits(word, 1, 4) * 2, bits(word, 17, 4) * 2, bit(word, 16))
    } else {
        (bits(word, 2, 3) * 4, bits(word, 18, 3) * 4, bit(word, 1) | bits(word, 16, 2))
    };
    let size: u32 = bits(word, 22, 2);
    // Operand-size policy: `Int` takes all four sizes; `Fp` rejects `.b` (size 00)
    // unless it has a BF16 sibling; `Bf` is the BF16 `.b`→`.h` re-type
    // (FEAT_SME_B16B16) and exists *only* at size 00 — the non-`.b`
    // floating-point `fmax`/`fmin`/`fmaxnm`/`fminnm` multi×multi forms (sub
    // 8/9) are decoded by the in-place table, so this function decodes only
    // their BF16 siblings (size 00) and returns `false` for the FP sizes.
    let Some((code, pol)) = mvm_select_of(bit(word, 10), bits(word, 5, 5), bit(word, 0), vg) else { return false };
    // The reserved low/Zm bits above the encodable bases must be zero.
    if lo_reserved != 0 {
        return false;
    }
    let (a, code): (VA, Code) = match pol {
        SizePolicy::Int => (arr(size), code),
        SizePolicy::Bf => {
            if size != 0 || !features.has(Feature::SmeB16b16) {
                return false;
            }
            (VA::Sh, code)
        },
        SizePolicy::Fp => if size == 0 {
            // BF16 re-type (FEAT_SME_B16B16): `.b` size renders `.h`. Only
            // `fscale` has a BF16 sibling; `famax`/`famin` (sub 10) have none.
            if !features.has(Feature::SmeB16b16) {
                return false;
            }
            match mvm_bf16_of(code) {
                Some(bf) => (VA::Sh, bf),
                None => return false,
            }
        } else if size == 1 {
            (VA::Sh, code)
        } else if size == 2 {
            (VA::Ss, code)
        } else {
            (VA::Sd, code)
        },
    };
    if !features.has(Feature::Sme2) {
        return false;
    }
    install3(out, code, mnemonic_of(code), zgroup(zdn, vg, a), zgroup(zdn, vg, a), zgroup(zm, vg, a));
    true
}

/// Decode the SME2 multi-vector unpack `UUNPK`/`SUNPK`, two-count or four-count.
/// The source element is half the destination element; `word<0>` selects
/// `SUNPK`(0)/`UUNPK`(1); size `word<23:22>` selects `.h`/`.s`/`.d` (`00`
/// unallocated). FEAT_SME2.
///
/// * vgx2 (`word<20:16> == 00101`): `{ Zd, Zd+1 }.<T>, Zn.<Tsrc>` — a 2-register
///   destination group (base `word<4:1>`, stride 2) and a single source `Zn =
///   word<9:5>`.
/// * vgx4 (`word<20:16> == 10101`): `{ Zd - Zd+3 }.<T>, { Zn, Zn+1 }.<Tsrc>` — a
///   4-register destination group (base `word<4:2>`, stride 4; `word<1>` RES0,
///   `word<0>` is the opcode) and a 2-register source group (base `word<9:6>`,
///   stride 2; `word<5>` RES0).
fn decode_unpk(word: u32, out: &mut Instruction) -> (r: bool)
    requires
        old(out).is_blank(),
    ensures
        decode_post(*old(out), *final(out)),
        r == unpk_claim(word) is Some,
        yields(*old(out), *final(out), claimed(unpk_claim(word))),
{
    // `word<21> == 1`, `word<19:16> == 0101`, `word<15:10> == 111000`. `word<20>`
    // is the vgx2(0)/vgx4(4) count selector, decoded below.
    if word & 0xff2f_fc00 != 0xc125_e000 {
        return false;
    }
    let (dst, src): (VA, VA) = match bits(word, 22, 2) {
        0b01 => (VA::Sh, VA::Sb),
        0b10 => (VA::Ss, VA::Sh),
        0b11 => (VA::Sd, VA::Ss),
        _ => return false,
    };
    let unsigned = bit(word, 0) == 1;
    let code = if unsigned { Code::SmeUunpk } else { Code::SmeSunpk };
    if bit(word, 20) == 0 {
        // vgx2: 2-register destination group, single source.
        let zd: u32 = bits(word, 1, 4) * 2;
        let zn: u32 = bits(word, 5, 5);
        out.set(code);
        out.push_operand(zgroup(zd, 2, dst));
        out.push_operand(zreg(zn, src));
    } else {
        // vgx4: 4-register destination group, 2-register source group. The dest
        // base is `word<4:2>` (stride 4); `word<1>` and `word<5>` are RES0
        // (`word<0>` is the `sunpk`/`uunpk` selector).
        if bit(word, 1) != 0 || bit(word, 5) != 0 {
            return false;
        }
        let zd: u32 = bits(word, 2, 3) * 4;
        let zn: u32 = bits(word, 6, 4) * 2;
        out.set(code);
        out.push_operand(zgroup(zd, 4, dst));
        out.push_operand(zgroup(zn, 2, src));
    }
    true
}

/// Decode the SME2 multi-vector **FP convert** between FP16/BF16 and FP32 (`FCVT`/
/// `FCVTN`/`BFCVT`/`BFCVTN` narrow, `FCVT`/`FCVTL` widen). All members pin
/// `word<31:24> == 0xC1`, `word<21> == 1`, `word<20:16> == 00000`,
/// `word<15:10> == 111000`; `word<23:22>` size picks the family:
///
/// | sz `<23:22>` | direction | `<bit>` | mnemonics | operands | feature |
/// |-|-|-|-|-|-|
/// | `00` | narrow | `<5>` | FCVT(0)/FCVTN(1) | `Zd.h, { Zn.s, Zn+1.s }` | SME2 (FCVTN: SME_F16F16) |
/// | `01` | narrow | `<5>` | BFCVT(0)/BFCVTN(1) | `Zd.h, { Zn.s, Zn+1.s }` | SME2 (BFCVTN: SME_F16F16) |
/// | `10` | widen | `<0>` | FCVT(0)/FCVTL(1) | `{ Zd.s, Zd+1.s }, Zn.h` | SME_F16F16 |
/// | `11` | — | — | reserved | — | — |
///
/// For the narrow forms the destination is a single `Zd = word<4:0>` `.h` register
/// and the source is a consecutive 2-register `.s` group with base `word<9:6> * 2`
/// (`word<5>` is the FCVT/FCVTN selector). For the widen form the destination is a
/// consecutive 2-register `.s` group with base `word<4:1> * 2` (`word<0>` is the
/// FCVT/FCVTL selector) and the source is a single `Zn = word<9:5>` `.h` register.
///
/// The interleaving variants (`FCVTN`/`BFCVTN`/`FCVTL`) and the whole widen
/// direction require FEAT_SME_F16F16; the plain narrow `FCVT`/`BFCVT` need only
/// FEAT_SME2. Returns `true` (and fills/leaves `out`) on a slot match.
fn decode_fp_cvt(word: u32, features: FeatureSet, out: &mut Instruction) -> (r: bool)
    requires
        old(out).is_blank(),
    ensures
        decode_post(*old(out), *final(out)),
        r == fp_cvt_claim(word, features) is Some,
        yields(*old(out), *final(out), claimed(fp_cvt_claim(word, features))),
{
    if word & 0xff3f_fc00 != 0xc120_e000 {
        return false;
    }
    let has_f16f16 = features.has(Feature::SmeF16f16);
    let sz: u32 = bits(word, 22, 2);
    match sz {
        // Narrow: FP32 group -> FP16/BF16 single. `<5>` picks the interleaving
        // variant (FCVTN/BFCVTN, FEAT_SME_F16F16); `word<5>==0` is FCVT/BFCVT.
        0b00 | 0b01 => {
            let interleave = bit(word, 5) == 1;
            if interleave && !has_f16f16 {
                return true; // recognised; gated off.
            }
            let zd: u32 = bits(word, 0, 5);
            let zn: u32 = bits(word, 6, 4) * 2;
            let code = if sz == 0b00 && !interleave {
                Code::SmeFcvtNarrow
            } else if sz == 0b00 {
                Code::SmeFcvtnNarrowFp
            } else if !interleave {
                Code::SmeBfcvtNarrow
            } else {
                Code::SmeBfcvtnNarrowFp
            };
            out.set(code);
            out.push_operand(zreg(zd, VA::Sh));
            out.push_operand(zgroup(zn, 2, VA::Ss));
            true
        }
        // Widen: FP16 single -> FP32 group (FEAT_SME_F16F16). `<0>` picks FCVT/FCVTL.
        0b10 => {
            if !has_f16f16 {
                return true;
            }
            let zd: u32 = bits(word, 1, 4) * 2;
            let zn: u32 = bits(word, 5, 5);
            let code = if bit(word, 0) == 0 { Code::SmeFcvtWiden } else { Code::SmeFcvtlWiden };
            out.set(code);
            out.push_operand(zgroup(zd, 2, VA::Ss));
            out.push_operand(zreg(zn, VA::Sh));
            true
        }
        // `<23:22> == 11` is reserved.
        _ => true,
    }
}

/// Decode the SME2 multi-vector FP8 convert + FP round / int-convert families that
/// share the `word<31:24> == 0xC1`, `word<15:10> == 111000` slot with
/// [`decode_fp_cvt`] but use a different `word<23:16>` opcode (so they are tried
/// after it). Three sub-families, selected by `word<23:16>`:
///
/// * **FP8 narrow** (`Zd.b, { Zn.. }`): `0x24` FCVT (2-reg `.h` src), `0x34`
///   FCVT(`<5>=0`)/FCVTN(`<5>=1`) (4-reg `.s` src), `0x64` BFCVT (2-reg `.h` src).
///   FEAT_SME_F8F16.
/// * **FP8 widen** (`{ Zd.h, Zd+1.h }, Zn.b`): `0x26` F1CVT, `0xa6` F2CVT, `0x66`
///   BF1CVT, `0xe6` BF2CVT; `word<0>` adds the long-`l` variant. FEAT_SME_F8F16.
/// * **FP round / int-convert** (`{ Zd.s.. }, { Zn.s.. }`, `.s`-only, vgx2/vgx4 by
///   `word<20>`): `0xa8/9/a/c` FRINTN/P/M/A, `0x22` SCVTF(`<5>=0`)/UCVTF(`<5>=1`),
///   `0x21` FCVTZS(`<5>=0`)/FCVTZU(`<5>=1`). FEAT_SME2.
///
/// Returns `true` (and fills/leaves `out`) on a slot+opcode match, `false`
/// otherwise (so the caller falls through to the multiply / ALU tables).
fn decode_fp_cvt2(word: u32, features: FeatureSet, out: &mut Instruction) -> (r: bool)
    requires
        old(out).is_blank(),
    ensures
        decode_post(*old(out), *final(out)),
        r == fp_cvt2_claim(word, features) is Some,
        yields(*old(out), *final(out), claimed(fp_cvt2_claim(word, features))),
{
    // Slot: `word<31:24> == 0xC1`, `word<15:10> == 111000`.
    if word & 0xff00_fc00 != 0xc100_e000 {
        return false;
    }
    let op: u32 = bits(word, 16, 8); // word<23:16>
    let zd: u32 = bits(word, 0, 5);
    let has_f8f16 = features.has(Feature::SmeF8f16);

    // --- FP8 narrow: Zd.b <- group. ---
    match op {
        0x24 | 0x64 => {
            // 2-register `.h` source group, base word<9:6>*2; word<5:0> RES0 except
            // the register-base bits below word<6>. word<5> must be 0.
            if bit(word, 5) != 0 {
                return false;
            }
            if !has_f8f16 {
                return true;
            }
            let zn: u32 = bits(word, 6, 4) * 2;
            out.set(if op == 0x24 { Code::SmeFcvtNarrowFp8 } else { Code::SmeBfcvtNarrowFp8 });
            out.push_operand(zreg(zd, VA::Sb));
            out.push_operand(zgroup(zn, 2, VA::Sh));
            return true;
        }
        0x34 => {
            // 4-register `.s` source group, base word<9:7>*4; word<5> selects
            // FCVT(0)/FCVTN(1); word<6> RES0.
            if bit(word, 6) != 0 {
                return false;
            }
            if !has_f8f16 {
                return true;
            }
            let zn: u32 = bits(word, 7, 3) * 4;
            out.set(if bit(word, 5) == 0 { Code::SmeFcvtNarrowFp8 } else { Code::SmeFcvtnNarrowFp8 });
            out.push_operand(zreg(zd, VA::Sb));
            out.push_operand(zgroup(zn, 4, VA::Ss));
            return true;
        }
        _ => {}
    }

    // --- FP8 widen: { Zd.h, Zd+1.h } <- Zn.b; word<0> = cvt/cvtl. ---
    let widen = match op {
        0x26 => Some((Code::SmeF1cvtWiden, Code::SmeF1cvtlWiden)),
        0xa6 => Some((Code::SmeF2cvtWiden, Code::SmeF2cvtlWiden)),
        0x66 => Some((Code::SmeBf1cvtWiden, Code::SmeBf1cvtlWiden)),
        0xe6 => Some((Code::SmeBf2cvtWiden, Code::SmeBf2cvtlWiden)),
        _ => None,
    };
    if let Some((cvt, cvtl)) = widen {
        // Dest 2-register `.h` group base word<4:1>*2; src single `.b` word<9:5>.
        if !has_f8f16 {
            return true;
        }
        let zdg: u32 = bits(word, 1, 4) * 2;
        let zn: u32 = bits(word, 5, 5);
        out.set(if bit(word, 0) == 0 { cvt } else { cvtl });
        out.push_operand(zgroup(zdg, 2, VA::Sh));
        out.push_operand(zreg(zn, VA::Sb));
        return true;
    }

    // --- FP round / int-convert: { Zd.s.. } <- { Zn.s.. }, vgx2/vgx4 (word<20>). ---
    // The opcode minus the vgx4 bit (`word<20>`); reject any other size/opcode.
    let vg: u8 = if bit(word, 20) == 0 { 2 } else { 4 };
    let base_op: u32 = op & 0xef; // clear word<20>
    let usel: u32 = bit(word, 5);
    let code = match base_op {
        0xa8 => Code::SmeFrintn,
        0xa9 => Code::SmeFrintp,
        0xaa => Code::SmeFrintm,
        0xac => Code::SmeFrinta,
        0x22 => {
            if usel == 0 {
                Code::SmeScvtf
            } else {
                Code::SmeUcvtf
            }
        }
        0x21 => {
            if usel == 0 {
                Code::SmeFcvtzs
            } else {
                Code::SmeFcvtzu
            }
        }
        _ => return false,
    };
    // For frint, word<5> is RES0; for scvtf/cvt-int it is the signed selector.
    if (code == Code::SmeFrintn || code == Code::SmeFrintp || code == Code::SmeFrintm || code == Code::SmeFrinta)
        && usel != 0
    {
        return false;
    }
    if !features.has(Feature::Sme2) {
        return true;
    }
    let (zd_base, zn_base): (u32, u32) = if vg == 2 {
        // word<6> RES0 in vgx2 (the src group base is word<9:6>*2, so word<6> is the
        // low base bit — not reserved). word<1> is the low dest base bit. The only
        // RES0 low bits are word<0> and the unused selector bits, already handled.
        (bits(word, 1, 4) * 2, bits(word, 6, 4) * 2)
    } else {
        // vgx4: dest base word<4:2>*4 (word<1> RES0), src base word<9:7>*4
        // (word<6> RES0).
        if bit(word, 1) != 0 || bit(word, 6) != 0 {
            return false;
        }
        (bits(word, 2, 3) * 4, bits(word, 7, 3) * 4)
    };
    // word<0> RES0 for all of these.
    if bit(word, 0) != 0 {
        return false;
    }
    out.set(code);
    out.push_operand(zgroup(zd_base, vg, VA::Ss));
    out.push_operand(zgroup(zn_base, vg, VA::Ss));
    true
}

/// Decode the SME2 multi-vector saturating extract-narrow family: `<op> Zd.<th>,
/// { Zn.. }.<ts>` — a single destination and a 2- or 4-register consecutive source
/// group whose element is twice the destination element.
///
/// Slot: `word<31:24> == 0xC1`, `word<21> == 1`, `word<19:16> == 0011`,
/// `word<15:10> == 111000`; `word<20>` selects the count (`0` → 2-register
/// source, `1` → 4-register source). For the 4-register form `word<6:5>` selects
/// the operation within the size-dependent signedness family (`sqcvt`/`uqcvt`/
/// `sqcvtn`/`uqcvtn` and the signed→unsigned `sqcvtu`/`sqcvtun`), the source group
/// base is `word<9:7> * 4`, and the size `word<23:22>` chooses the element widths
/// (`00`/`01` → `.b`/`.s`, `10`/`11` → `.h`/`.d`) and the signed (`word<22> == 0`)
/// vs signed→unsigned (`word<22> == 1`) family. For the 2-register form only the
/// `.h`/`.s` `sqcvt`/`uqcvt`/`sqcvtu` forms exist: `word<5>` selects signed(0)/
/// unsigned(1), the source group base is `word<9:6> * 2`, and `word<23:22>` is
/// `00` (`sqcvt`/`uqcvt`) or `01` (`sqcvtu`). FEAT_SME2.
fn decode_cvt_narrow(word: u32, out: &mut Instruction) -> (r: bool)
    requires
        old(out).is_blank(),
    ensures
        decode_post(*old(out), *final(out)),
        r == cvt_narrow_claim(word) is Some,
        yields(*old(out), *final(out), claimed(cvt_narrow_claim(word))),
{
    if word & 0xff2f_fc00 != 0xc123_e000 {
        return false;
    }
    let zd: u32 = bits(word, 0, 5);
    if bit(word, 20) == 0 {
        // 2-register source form: dst `.h`, src `.s`. `word<22> == 0` → `sqcvt`/
        // `uqcvt` (`word<5>`), `word<22> == 1` → `sqcvtu` (`word<5> == 0` only);
        // `word<23>` is RES0.
        if bit(word, 23) != 0 {
            return false;
        }
        let usel: u32 = bit(word, 5);
        let code = if bit(word, 22) == 0 {
            if usel == 0 {
                Code::SmeSqcvt
            } else {
                Code::SmeUqcvt
            }
        } else if usel == 0 {
            Code::SmeSqcvtu
        } else {
            return false;
        };
        let zn: u32 = bits(word, 6, 4) * 2;
        out.set(code);
        out.push_operand(zreg(zd, VA::Sh));
        out.push_operand(zgroup(zn, 2, VA::Ss));
        return true;
    }
    let op: u32 = bits(word, 5, 2);
    // Destination element / source element from the size field: even size → `.b`/
    // `.s`, odd/high size → `.h`/`.d`.
    let (dst, src): (VA, VA) = if bit(word, 23) == 0 {
        (VA::Sb, VA::Ss)
    } else {
        (VA::Sh, VA::Sd)
    };
    // `(size, word<6:5>)` → mnemonic. Sizes `00`/`10` (`word<22> == 0`) name the
    // signed family (`sqcvt`/`uqcvt`/`sqcvtn`/`uqcvtn`); `01`/`11` (`word<22> == 1`)
    // name the signed→unsigned family (`sqcvtu`/`sqcvtun`, only `word<5> == 0`).
    let code = if bit(word, 22) == 0 {
        match op {
            0 => Code::SmeSqcvt,
            1 => Code::SmeUqcvt,
            2 => Code::SmeSqcvtnNarrow,
            _ => Code::SmeUqcvtnNarrow,
        }
    } else {
        match op {
            0 => Code::SmeSqcvtu,
            2 => Code::SmeSqcvtunNarrow,
            _ => return false,
        }
    };
    let zn: u32 = bits(word, 7, 3) * 4;
    out.set(code);
    out.push_operand(zreg(zd, dst));
    out.push_operand(zgroup(zn, 4, src));
    true
}

/// Decode the SME2 multi-vector `LUTI6` (FEAT_LUT): a four-register strided
/// destination group, a two-register consecutive source group, and a
/// two-register table-pair selector with a single-bit element index.
///
/// Shape: `{ Zd, Zd+4, Zd+8, Zd+12 }.H, { Zn, Zn+1 }.H, { Zt, Zt+1 }[<index>]`.
/// Fields: the destination group base is `word<4>:word<1:0>` (a stride-4
/// group of four `.H` registers, so the base is in `{0..3, 16..19}` and
/// `word<3:2>` is RES0); `Zn = word<9:5>` (2-register consecutive, wraps); the
/// table-pair base is `word<20:16>` (a 2-register consecutive group rendered
/// without an element suffix); the element index is `word<22>` (1 bit, `word<23>`
/// RES0). The opcode pins `word<21> == 1` and `word<15:10> == 111111`.
///
/// Returns `true` (and fills `out`) on a match, `false` otherwise.
fn decode_luti6(word: u32, features: FeatureSet, out: &mut Instruction) -> (r: bool)
    requires
        old(out).is_blank(),
    ensures
        decode_post(*old(out), *final(out)),
        r == luti6_claim(word, features) is Some,
        yields(*old(out), *final(out), claimed(luti6_claim(word, features))),
{
    // Both LUTI6 forms share `word<31:24> == 0xC1`, `word<21> == 1`,
    // `word<23> == 0` (RES0), `word<15:12> == 1111`; they differ in
    // `word<11:10>`: `11` (`word<15:10> == 111111`) is the stride-4 destination,
    // `01` (`word<15:10> == 111101`) the 4-register consecutive destination. Both
    // keep the `{ Zn, Zn+1 }` source pair and `{ Zt, Zt+1 }[index]` table pair.
    let strided = word & 0xff20_fc00 == 0xc120_fc00; // word<15:10> == 111111
    let consec = word & 0xff20_fc00 == 0xc120_f400; // word<15:10> == 111101
    if !(strided || consec) {
        return false;
    }
    if !features.has(Feature::Lut) {
        return false;
    }
    // `word<23>` is RES0; the element index is the single bit `word<22>`.
    if bit(word, 23) != 0 {
        return false;
    }
    // Validate the destination-base RES0 bits *before* touching `out`, so a
    // reserved encoding leaves the instruction untouched (the caller falls
    // through). The strided form's base packs `word<4>` (high) and `word<1:0>`
    // (low), with `word<3:2>` RES0; the consecutive form's base is `word<4:0>`
    // with the low two bits RES0 (a 4-register group steps by 4).
    let dest = if strided {
        if bits(word, 2, 2) != 0 {
            return false;
        }
        vgroup(bit(word, 4) * 16 + bits(word, 0, 2), 4, Some(VA::Sh), 4)
    } else {
        if bits(word, 0, 2) != 0 {
            return false;
        }
        zgroup(bits(word, 0, 5), 4, VA::Sh)
    };
    let index: u8 = bit(word, 22) as u8;
    let zn: u32 = bits(word, 5, 5);
    let table: u32 = bits(word, 16, 5);
    out.set(if strided { Code::SmeLuti6 } else { Code::SmeLuti6Consec });
    out.push_operand(dest);
    // Source: 2-register consecutive group, `.h`.
    out.push_operand(zgroup(zn, 2, VA::Sh));
    // Table pair `{ Zt, Zt+1 }[index]` — no element suffix, bracketed index.
    out.push_operand(Operand::SveVecGroup {
        first: Register::z(table),
        count: 2,
        arr: None,
        range: false,
        stride: 1,
        lane: Some(index),
    });
    true
}

/// Decode the SME2 multi-vector saturating rounding shift-right-narrow-by-
/// immediate family: `SQRSHR`/`UQRSHR`/`SQRSHRN`/`UQRSHRN`/`SQRSHRU`/`SQRSHRUN`.
///
/// Shape: a single destination `Zd.<b|h>`, a 4-register consecutive source group
/// `{ Zn.s - Zn+3.s }` (or `.d`), and a `#shift` immediate. The destination
/// element / source element / shift range come from `word<23:21>` (a `tsz`-style
/// "highest set bit" size selector): `011` → `.b`/`.s`, shift `1..32`; `101` →
/// `.h`/`.d`, shift `33..64`; `111` → `.h`/`.d`, shift `1..32`. The mnemonic is
/// chosen by `word<10>` (`n` interleave), `word<6>` (unsigned result) and
/// `word<5>` (unsigned input); `word<6> == word<5> == 1` is unallocated.
///
/// Returns `true` (and fills `out`) on a match, `false` otherwise (leaving `out`
/// untouched so the caller can fall through to the multiply / ALU tables).
fn decode_narrow_shift(word: u32, out: &mut Instruction) -> (r: bool)
    requires
        old(out).is_blank(),
    ensures
        decode_post(*old(out), *final(out)),
        r == narrow_shift_claim(word) is Some,
        yields(*old(out), *final(out), claimed(narrow_shift_claim(word))),
{
    // Family key: `word<31:24> == 0xC1` and `word<15:11> == 11011`.
    if word & 0xff00_f800 != 0xc100_d800 {
        return false;
    }
    let n: u32 = bit(word, 10);
    let uresult: u32 = bit(word, 6);
    let uinput: u32 = bit(word, 5);
    // Unsigned result is only defined for a signed input (`SQRSHRU`/`SQRSHRUN`).
    if uresult == 1 && uinput == 1 {
        return false;
    }
    // Size + shift amount (`tsz`-style); an out-of-set size rejects the word so a
    // neighbouring `SDOT`/`FDOT`/... (other sizes) falls through.
    let imm5: u32 = bits(word, 16, 5);
    let (dst, src, shift): (VA, VA, u32) = match bits(word, 21, 3) {
        0b011 => (VA::Sb, VA::Ss, 32 - imm5),
        0b101 => (VA::Sh, VA::Sd, 64 - imm5),
        0b111 => (VA::Sh, VA::Sd, 32 - imm5),
        _ => return false,
    };
    let code = match (uresult, uinput, n) {
        (0, 0, 0) => Code::SmeSqrshr,
        (0, 1, 0) => Code::SmeUqrshr,
        (0, 0, 1) => Code::SmeSqrshrn,
        (0, 1, 1) => Code::SmeUqrshrn,
        (1, 0, 0) => Code::SmeSqrshru,
        _ /* (1, 0, 1) */ => Code::SmeSqrshrun,
    };
    let zd: u32 = bits(word, 0, 5);
    // Source 4-register consecutive group, base = `word<9:7> * 4`.
    let zn: u32 = bits(word, 7, 3) * 4;
    out.set(code);
    out.push_operand(zreg(zd, dst));
    out.push_operand(zgroup(zn, 4, src));
    out.push_operand(Operand::ShiftAmount(shift as u8));
    true
}

/// Decode the SME2 multi-vector saturating rounding shift-right-narrow with a
/// **2-vector** source: `SQRSHR`/`UQRSHR`/`SQRSHRU` `Zd.h, { Zn, Zn+1 }.s,
/// #shift`.
///
/// Slot key: `word<31:24> == 0xC1`, `word<15:11> == 11010`, `word<10> == 1`,
/// `word<23:21> == 111` (the only allocated size — destination `.h`, source `.s`).
/// `word<5>` is the unsigned input (`SQRSHR`→`UQRSHR`), `word<20>` the unsigned
/// result (`SQRSHR`→`SQRSHRU`); `word<5> == word<20> == 1` is unallocated. The
/// shift is `16 - word<19:16>` (`#1`..`#16`). The source 2-register consecutive
/// group base is `word<9:6> * 2`; `Zd = word<4:0>`. FEAT_SME2.
///
/// Returns `true` (and fills `out`) on a match, `false` otherwise.
fn decode_narrow_shift2(word: u32, out: &mut Instruction) -> (r: bool)
    requires
        old(out).is_blank(),
    ensures
        decode_post(*old(out), *final(out)),
        r == narrow_shift2_claim(word) is Some,
        yields(*old(out), *final(out), claimed(narrow_shift2_claim(word))),
{
    // Family key: `word<31:24> == 0xC1`, `word<15:11> == 11010`, `word<10> == 1`,
    // `word<23:21> == 111`.
    if word & 0xffe0_fc00 != 0xc1e0_d400 {
        return false;
    }
    let uinput: u32 = bit(word, 5);
    let uresult: u32 = bit(word, 20);
    // `SQRSHR`(0,0) / `UQRSHR`(uinput) / `SQRSHRU`(uresult); both set is
    // unallocated.
    let code = match (uresult, uinput) {
        (0, 0) => Code::SmeSqrshrV2,
        (0, 1) => Code::SmeUqrshrV2,
        (1, 0) => Code::SmeSqrshruV2,
        _ => return false,
    };
    let shift: u32 = 16 - bits(word, 16, 4);
    let zd: u32 = bits(word, 0, 5);
    // Source 2-register consecutive group, base = `word<9:6> * 2`.
    let zn: u32 = bits(word, 6, 4) * 2;
    out.set(code);
    out.push_operand(zreg(zd, VA::Sh));
    out.push_operand(zgroup(zn, 2, VA::Ss));
    out.push_operand(Operand::ShiftAmount(shift as u8));
    true
}

// ---------------------------------------------------------------------------
// The multi-vector ALU forms: SEL (predicate-as-counter), S/U/F/BF CLAMP,
// ZIP/UZP, FMUL and FP min/max, in the `0xC1` region.
// ---------------------------------------------------------------------------

/// Operand layout of an SME2 multi-vector ALU form.
#[derive(Clone, Copy, PartialEq, Eq, Debug, Structural)]
pub enum AluSh {
    /// `{ Zd.. }, PNg, { Zn.. }, { Zm.. }` — `SEL` (predicate-as-counter, two
    /// vector groups in and out).
    SelGroup,
    /// `{ Zd.. }, Zn.<T>, Zm.<T>` — `CLAMP` / 2-register `ZIP`/`UZP` (a vector
    /// group destination and two single-vector sources).
    TwoSingle,
    /// `{ Zd.. }, { Zn.. }` — 4-register `ZIP`/`UZP` (a vector group in and out).
    ZipGroup,
    /// `{ Zd.. }, { Zn.. }, { Zm.. }` — three vector groups, no predicate
    /// (SME2/SVE2 multi-vector `FMUL`).
    GroupGroup3,
    /// `{ Zd.. }, { Zn.. }, Zm.<T>` — two vector groups and a single multiplier
    /// (SME2 multi-vector × single-multiplier `FMUL`, `Zm` in `z0..z15`).
    GroupGroupSingle,
}

/// How a form's element-size suffix is recovered from the encoding.
#[derive(Clone, Copy, PartialEq, Eq, Debug, Structural)]
pub enum AluArr {
    /// `word<23:22>` → `.b`/`.h`/`.s`/`.d`.
    Bhsd,
    /// `word<23:22>` → `.h`/`.s`/`.d` (floating-point clamp: `.b` is invalid).
    Fp,
    /// Always `.h` (BFloat16 clamp; the size field is fixed to `00` by the key).
    BfH,
    /// `word<23:22>` → `.b`/`.h`/`.s`/`.d`, or `.q` when `word<10> == 1` (the
    /// 2-register `ZIP`/`UZP` `Q` form; valid only with `word<23:22> == 00`).
    Zip2,
    /// `word<23:22>` → `.b`/`.h`/`.s`/`.d`, or `.q` when `word<16> == 1` (the
    /// 4-register `ZIP`/`UZP` `Q` form; valid only with `word<23:22> == 00`).
    Zip4,
}

/// One SME2 multi-vector ALU encoding row: an exact `(mask, val)` opcode key plus
/// the operand layout, element-size policy, multi-vector count and per-field
/// bitmasks (gathered with [`pext`], re-scattered with [`pdep`]).
#[derive(Clone, Copy, Debug)]
pub struct AluForm {
    /// Opcode mask: the bits that must equal [`val`](AluForm::val) to match.
    pub mask: u32,
    /// Opcode value the masked word must equal.
    pub val: u32,
    /// The [`Code`] this row decodes to.
    pub code: Code,
    /// Operand layout.
    pub shape: AluSh,
    /// Element-size recovery policy.
    pub arr: AluArr,
    /// Multi-vector count of the register groups (`2` or `4`).
    pub vg: u8,
    /// `Zd` (destination group base) field bits.
    pub zd: u32,
    /// `PNg` predicate-as-counter field bits (`SEL` only; `0` otherwise).
    pub pn: u32,
    /// `Zn` (first source) field bits.
    pub zn: u32,
    /// `Zm` (second source) field bits (`0` for the 4-register `ZIP`/`UZP`).
    pub zm: u32,
}

/// The first row of [`alu_row`], from row `i` on, whose `(mask, val)` key
/// matches `word`.
pub open spec fn alu_first_match(word: u32, i: usize) -> Option<AluForm>
    decreases ALU_FORMS_LEN - i,
{
    if i >= ALU_FORMS_LEN {
        None
    } else {
        match alu_row(i) {
            Some(f) => if word & f.mask == f.val {
                Some(f)
            } else {
                alu_first_match(word, (i + 1) as usize)
            },
            None => alu_first_match(word, (i + 1) as usize),
        }
    }
}

/// The row of [`alu_form`] whose `(mask, val)` key matches `word`: the keys
/// are disjoint, among themselves and from those of [`sme2_form`], so it is
/// the only one, and `None` when no row matches.
pub fn alu_lookup(word: u32) -> (r: Option<AluForm>)
    ensures
        r matches Some(f) ==> (word & f.mask) == f.val && f.code != Code::Invalid,
        r == alu_first_match(word, 0),
        forall|i: int| #[trigger] alu_hit(word, i) ==> r == alu_row(i as usize),
        (forall|i: int| !#[trigger] alu_hit(word, i)) ==> r is None,
        forall|i: int, j: int| #[trigger] alu_hit(word, i) ==> !#[trigger] mul_hit(word, j),
{
    proof {
        lemma_alu_lookup_unique(word);
        assert forall|i: int, j: int| #[trigger] alu_hit(word, i) implies !#[trigger] mul_hit(word, j) by {
            lemma_tables_keys_disjoint(word, j, i);
        }
    }
    let mut i: usize = 0;
    while i < ALU_FORMS_LEN
        invariant
            i <= ALU_FORMS_LEN,
            alu_first_match(word, 0) == alu_first_match(word, i),
            forall|j: int| #[trigger] alu_hit(word, j) ==> alu_first_match(word, 0) == alu_row(j as usize),
            (forall|j: int| !#[trigger] alu_hit(word, j)) ==> alu_first_match(word, 0) is None,
            forall|j: int, k: int| #[trigger] alu_hit(word, j) ==> !#[trigger] mul_hit(word, k),
        decreases ALU_FORMS_LEN - i,
    {
        match alu_form(i) {
            Some(f) => {
                if word & f.mask == f.val {
                    return Some(f);
                }
            },
            None => {},
        }
        i = i + 1;
    }
    None
}

/// The first row of [`alu_row`], from row `i` on, for `code`.
pub open spec fn alu_row_for_code(code: Code, i: usize) -> Option<AluForm>
    decreases ALU_FORMS_LEN - i,
{
    if i >= ALU_FORMS_LEN {
        None
    } else {
        match alu_row(i) {
            Some(f) => if f.code == code {
                Some(f)
            } else {
                alu_row_for_code(code, (i + 1) as usize)
            },
            None => alu_row_for_code(code, (i + 1) as usize),
        }
    }
}

/// The first row of [`alu_form`] for `code`, if any.
pub fn alu_form_for_code(code: Code) -> (r: Option<AluForm>)
    ensures
        r == alu_row_for_code(code, 0),
        r matches Some(f) ==> f.code == code,
        code == Code::Invalid ==> r is None,
{
    let mut i: usize = 0;
    while i < ALU_FORMS_LEN
        invariant
            i <= ALU_FORMS_LEN,
            alu_row_for_code(code, 0) == alu_row_for_code(code, i),
        decreases ALU_FORMS_LEN - i,
    {
        match alu_form(i) {
            Some(f) => {
                if f.code == code {
                    return Some(f);
                }
            },
            None => {},
        }
        i = i + 1;
    }
    None
}

/// The first row of [`sme2_row`], from row `i` on, for `code`.
pub open spec fn row_for_code(code: Code, i: usize) -> Option<Form>
    decreases SME2_FORMS_LEN - i,
{
    if i >= SME2_FORMS_LEN {
        None
    } else {
        match sme2_row(i) {
            Some(f) => if f.code == code {
                Some(f)
            } else {
                row_for_code(code, (i + 1) as usize)
            },
            None => row_for_code(code, (i + 1) as usize),
        }
    }
}

/// The first row of [`sme2_form`] for `code`, if any.
pub fn form_for_code(code: Code) -> (r: Option<Form>)
    ensures
        r == row_for_code(code, 0),
        r matches Some(f) ==> f.code == code,
        code == Code::Invalid ==> r is None,
{
    let mut i: usize = 0;
    while i < SME2_FORMS_LEN
        invariant
            i <= SME2_FORMS_LEN,
            row_for_code(code, 0) == row_for_code(code, i),
        decreases SME2_FORMS_LEN - i,
    {
        match sme2_form(i) {
            Some(f) => {
                if f.code == code {
                    return Some(f);
                }
            },
            None => {},
        }
        i = i + 1;
    }
    None
}

/// The element arrangement a form reads from `word<23:22>` (and, for the
/// `.q` `ZIP`/`UZP` forms, `word<10>` or `word<16>`), or `None` when the size
/// field names no arrangement of the form (floating-point `.b`, or `.q` with a
/// non-zero size field).
pub open spec fn alu_arrangement_spec(f: AluForm, word: u32) -> Option<VA> {
    let size = field(word, 22, 2);
    match f.arr {
        AluArr::Bhsd => Some(arr_spec(size)),
        AluArr::Fp => if size == 1 {
            Some(VA::Sh)
        } else if size == 2 {
            Some(VA::Ss)
        } else if size == 3 {
            Some(VA::Sd)
        } else {
            None
        },
        AluArr::BfH => Some(VA::Sh),
        AluArr::Zip2 | AluArr::Zip4 => {
            let qbit = if f.arr == AluArr::Zip2 { field(word, 10, 1) } else { field(word, 16, 1) };
            if qbit == 1 {
                if size == 0 { Some(VA::Sq) } else { None }
            } else {
                Some(arr_spec(size))
            }
        },
    }
}

/// Recover a form's element arrangement from `word`; see
/// [`alu_arrangement_spec`].
pub fn alu_arrangement(f: &AluForm, word: u32) -> (r: Option<VA>)
    ensures
        r == alu_arrangement_spec(*f, word),
{
    let size: u32 = bits(word, 22, 2);
    match f.arr {
        AluArr::Bhsd => Some(arr(size)),
        AluArr::Fp => {
            if size == 1 {
                Some(VA::Sh)
            } else if size == 2 {
                Some(VA::Ss)
            } else if size == 3 {
                Some(VA::Sd)
            } else {
                None
            }
        },
        AluArr::BfH => Some(VA::Sh),
        AluArr::Zip2 | AluArr::Zip4 => {
            let qbit: u32 = if f.arr == AluArr::Zip2 { bit(word, 10) } else { bit(word, 16) };
            if qbit == 1 {
                if size == 0 {
                    Some(VA::Sq)
                } else {
                    None
                }
            } else {
                Some(arr(size))
            }
        },
    }
}

/// `pn8`..`pn15` from a 3-bit `PNg` field, optionally zeroing (`/z`).
fn pn_counter(v: u32, zeroing: bool) -> (r: Operand)
    ensures
        r == (Operand::PredCounter { reg: reg_of(RegKind::Pn, (8 + (v & 7)) as u32, 0xf), zeroing, arr: None }),
{
    let k = v & 7;
    assert(k <= 7) by (bit_vector)
        requires
            k == v & 7,
    ;
    Operand::PredCounter { reg: Register::pn(8 + k), zeroing, arr: None }
}

/// Install the operands of a matched [`AluForm`] for `word` into a blank
/// `out`; a size field that names no arrangement of the form leaves `out`
/// untouched.
/// The instruction ALU row `f` gives `word`, or `None` when the size field
/// names no arrangement of the row.
pub open spec fn alu_insn(f: AluForm, word: u32) -> Option<(Code, Mnemonic, Seq<Operand>)> {
    match alu_arrangement_spec(f, word) {
        Some(a) => {
            let gd = vgroup_spec(group_base_spec(word, f.zd), f.vg, Some(a), 1);
            let gn = vgroup_spec(group_base_spec(word, f.zn), f.vg, Some(a), 1);
            let gm = vgroup_spec(group_base_spec(word, f.zm), f.vg, Some(a), 1);
            insn(f.code, match f.shape {
                AluSh::SelGroup => seq![gd, pn_counter_spec(pext32(word, f.pn), false), gn, gm],
                AluSh::TwoSingle => seq![gd, zreg_spec(pext32(word, f.zn), a), zreg_spec(pext32(word, f.zm), a)],
                AluSh::ZipGroup => seq![gd, gn],
                AluSh::GroupGroup3 => seq![gd, gn, gm],
                AluSh::GroupGroupSingle => seq![gd, gn, zreg_spec(pext32(word, f.zm), a)],
            })
        },
        None => None,
    }
}

fn build_alu(f: AluForm, word: u32, out: &mut Instruction)
    requires
        old(out).is_blank(),
        f.code != Code::Invalid,
    ensures
        decode_post(*old(out), *final(out)),
        alu_arrangement_spec(f, word) is Some ==> final(out).code == f.code,
        yields(*old(out), *final(out), alu_insn(f, word)),
{
    let a = match alu_arrangement(&f, word) {
        Some(a) => a,
        None => return,
    };
    out.set(f.code);
    match f.shape {
        AluSh::SelGroup => {
            out.push_operand(zgroup(group_base(word, f.zd), f.vg, a));
            out.push_operand(pn_counter(pext(word, f.pn), false));
            out.push_operand(zgroup(group_base(word, f.zn), f.vg, a));
            out.push_operand(zgroup(group_base(word, f.zm), f.vg, a));
        },
        AluSh::TwoSingle => {
            out.push_operand(zgroup(group_base(word, f.zd), f.vg, a));
            out.push_operand(zreg(pext(word, f.zn), a));
            out.push_operand(zreg(pext(word, f.zm), a));
        },
        AluSh::ZipGroup => {
            out.push_operand(zgroup(group_base(word, f.zd), f.vg, a));
            out.push_operand(zgroup(group_base(word, f.zn), f.vg, a));
        },
        AluSh::GroupGroup3 => {
            out.push_operand(zgroup(group_base(word, f.zd), f.vg, a));
            out.push_operand(zgroup(group_base(word, f.zn), f.vg, a));
            out.push_operand(zgroup(group_base(word, f.zm), f.vg, a));
        },
        AluSh::GroupGroupSingle => {
            out.push_operand(zgroup(group_base(word, f.zd), f.vg, a));
            out.push_operand(zgroup(group_base(word, f.zn), f.vg, a));
            // The single multiplier `Zm` is a plain `z0..z15` register.
            out.push_operand(zreg(pext(word, f.zm), a));
        },
    }
}

// ---------------------------------------------------------------------------
// Contiguous and strided multi-vector loads and stores.
// ---------------------------------------------------------------------------

/// The code of a multi-vector load / store: `LD1*`, `LDNT1*`, `ST1*` or
/// `STNT1*` by element size `msz`.
pub open spec fn mem_code(store: bool, nt: bool, msz: u32) -> Code {
    if !store && !nt {
        if msz == 0 { Code::SmeLd1bMV } else if msz == 1 { Code::SmeLd1hMV } else if msz == 2 { Code::SmeLd1wMV } else { Code::SmeLd1dMV }
    } else if !store {
        if msz == 0 { Code::SmeLdnt1bMV } else if msz == 1 { Code::SmeLdnt1hMV } else if msz == 2 { Code::SmeLdnt1wMV } else { Code::SmeLdnt1dMV }
    } else if !nt {
        if msz == 0 { Code::SmeSt1bMV } else if msz == 1 { Code::SmeSt1hMV } else if msz == 2 { Code::SmeSt1wMV } else { Code::SmeSt1dMV }
    } else {
        if msz == 0 { Code::SmeStnt1bMV } else if msz == 1 { Code::SmeStnt1hMV } else if msz == 2 { Code::SmeStnt1wMV } else { Code::SmeStnt1dMV }
    }
}

fn mem_code_exec(store: bool, nt: bool, msz: u32) -> (c: Code)
    ensures
        c == mem_code(store, nt, msz),
{
    if !store && !nt {
        if msz == 0 { Code::SmeLd1bMV } else if msz == 1 { Code::SmeLd1hMV } else if msz == 2 { Code::SmeLd1wMV } else { Code::SmeLd1dMV }
    } else if !store {
        if msz == 0 { Code::SmeLdnt1bMV } else if msz == 1 { Code::SmeLdnt1hMV } else if msz == 2 { Code::SmeLdnt1wMV } else { Code::SmeLdnt1dMV }
    } else if !nt {
        if msz == 0 { Code::SmeSt1bMV } else if msz == 1 { Code::SmeSt1hMV } else if msz == 2 { Code::SmeSt1wMV } else { Code::SmeSt1dMV }
    } else {
        if msz == 0 { Code::SmeStnt1bMV } else if msz == 1 { Code::SmeStnt1hMV } else if msz == 2 { Code::SmeStnt1wMV } else { Code::SmeStnt1dMV }
    }
}

/// `pn<8+v>`, optionally zeroing (`/z`).
pub open spec fn pn_counter_spec(v: u32, zeroing: bool) -> Operand {
    Operand::PredCounter { reg: reg_of(RegKind::Pn, (8 + (v & 7)) as u32, 0xf), zeroing, arr: None }
}

/// The instruction a multi-vector load / store word encodes, as (code,
/// operands), or `None`.
///
/// * `word<24>` selects the strided register lists; `word<15>` two (0) or four
///   (1) registers; `word<14:13>` the element size; `word<21>` store;
///   `word<22>` the immediate form; `word<12:10>` the `pn8..pn15` counter.
/// * Consecutive lists: base `word<4:1> * 2` (two) or `word<4:2> * 4` (four,
///   `word<1>` reserved); `word<0>` is the non-temporal flag.
/// * Strided lists: base `word<4>:word<2:0>` stepping by 8 (two) or
///   `word<4>:word<1:0>` stepping by 4 (four, `word<2>` reserved); `word<3>` is
///   the non-temporal flag.
/// * The immediate form `[Xn{, #imm, mul vl}]` has the offset `imm4 * count`
///   and `word<20>` reserved; the register form is `[Xn, Xm{, lsl #msz}]`.
pub open spec fn mem_form(word: u32) -> Option<(Code, Seq<Operand>)> {
    let strided = field(word, 24, 1) == 1;
    let is_imm = field(word, 22, 1) == 1;
    let is_store = field(word, 21, 1) == 1;
    let msz = field(word, 13, 2);
    let count: u8 = if field(word, 15, 1) == 1 { 4 } else { 2 };
    let a = arr_spec(msz);
    let rn = field(word, 5, 5);
    let nt = if strided { field(word, 3, 1) == 1 } else { field(word, 0, 1) == 1 };
    let group = if strided {
        if count == 4 {
            vgroup_spec((field(word, 4, 1) * 16 + field(word, 0, 2)) as u32, 4, Some(a), 4)
        } else {
            vgroup_spec((field(word, 4, 1) * 16 + field(word, 0, 3)) as u32, 2, Some(a), 8)
        }
    } else {
        if count == 4 {
            vgroup_spec((field(word, 2, 3) * 4) as u32, 4, Some(a), 1)
        } else {
            vgroup_spec((field(word, 1, 4) * 2) as u32, 2, Some(a), 1)
        }
    };
    let reserved = count == 4 && (if strided { field(word, 2, 1) != 0 } else { field(word, 1, 1) != 0 });
    let mem = if is_imm {
        Operand::SveMem {
            base: gp_spec(true, RegWidth::X64, rn as u8),
            offset: Register { kind: RegKind::Absent, num: 0 },
            arr: None,
            extend: ExtendType::Uxtx,
            imm: (sext_spec(field(word, 16, 4) as u64, 4) * count) as i32,
            amount: 0,
            mode: SveMemMode::ScalarImmMulVl,
        }
    } else {
        Operand::MemExt {
            base: gp_spec(true, RegWidth::X64, rn as u8),
            index: gp_spec(false, RegWidth::X64, field(word, 16, 5) as u8),
            extend: ExtendType::Uxtx,
            shift: if msz == 0 { 0 } else { (0x80 | msz) as u8 },
        }
    };
    if reserved || (is_imm && field(word, 20, 1) != 0) {
        None
    } else {
        Some((mem_code(is_store, nt, msz), seq![group, pn_counter_spec(field(word, 10, 3), !is_store), mem]))
    }
}

/// Decode an SME2 contiguous or strided multi-vector load / store
/// (`word<31:29> == 101`, `word<23> == 0`): exactly the instruction of
/// [`mem_form`], or nothing.
pub fn decode_mem(word: u32, out: &mut Instruction)
    requires
        old(out).is_blank(),
    ensures
        decode_post(*old(out), *final(out)),
        mem_form(word) matches Some(f) ==> installed(*old(out), *final(out), f.0, code_mnemonic(f.0), f.1),
        mem_form(word) is None ==> *final(out) == *old(out),
{
    let strided = bit(word, 24) == 1;
    let is_imm = bit(word, 22) == 1;
    let is_store = bit(word, 21) == 1;
    let msz: u32 = bits(word, 13, 2);
    let count: u8 = if bit(word, 15) == 1 { 4 } else { 2 };
    let pn: u32 = bits(word, 10, 3);
    let rn: u32 = bits(word, 5, 5);
    let a = arr(msz);

    // The data register list and the non-temporal flag.
    let (group, is_nt): (Operand, bool) = if strided {
        let is_nt = bit(word, 3) == 1;
        if count == 4 {
            // Four registers leave word<2> reserved.
            if bit(word, 2) != 0 {
                return;
            }
            let base: u32 = bit(word, 4) * 16 + bits(word, 0, 2);
            (vgroup(base, 4, Some(a), 4), is_nt)
        } else {
            let base: u32 = bit(word, 4) * 16 + bits(word, 0, 3);
            (vgroup(base, 2, Some(a), 8), is_nt)
        }
    } else {
        let is_nt = bit(word, 0) == 1;
        if count == 4 {
            // Four registers leave word<1> reserved.
            if bit(word, 1) != 0 {
                return;
            }
            (zgroup(bits(word, 2, 3) * 4, 4, a), is_nt)
        } else {
            (zgroup(bits(word, 1, 4) * 2, 2, a), is_nt)
        }
    };

    let mem = if is_imm {
        // `[Xn{, #imm, mul vl}]`: a signed 4-bit multiple of the register
        // count; word<20> is reserved here.
        if bit(word, 20) != 0 {
            return;
        }
        let imm4: i32 = sign_extend(bits(word, 16, 4) as u64, 4) as i32;
        Operand::SveMem {
            base: gp_register(true, RegWidth::X64, rn as u8),
            offset: Register::none(),
            arr: None,
            extend: ExtendType::Uxtx,
            imm: if count == 4 { imm4 * 4 } else { imm4 * 2 },
            amount: 0,
            mode: SveMemMode::ScalarImmMulVl,
        }
    } else {
        // `[Xn, Xm{, lsl #msz}]`; the shift is written for the scaled sizes.
        let rm: u32 = bits(word, 16, 5);
        let shift: u8 = if msz == 0 { 0 } else { 0x80 | msz as u8 };
        assert(msz <= 3 ==> (0x80 | msz) as u8 == 0x80 | (msz as u8)) by (bit_vector);
        Operand::MemExt {
            base: gp_register(true, RegWidth::X64, rn as u8),
            index: gp_register(false, RegWidth::X64, rm as u8),
            extend: ExtendType::Uxtx,
            shift,
        }
    };
    let code = mem_code_exec(is_store, is_nt, msz);
    install3(out, code, code_mnemonic_of(code), group, pn_counter(pn, !is_store), mem);
}

/// The default mnemonic of `code`.
fn code_mnemonic_of(code: Code) -> (m: Mnemonic)
    ensures
        m == code_mnemonic(code),
{
    default_mnemonic(code)
}

// ---------------------------------------------------------------------------
// Encoding tables.
// ---------------------------------------------------------------------------

/// The number of rows of [`sme2_form`].
pub const SME2_FORMS_LEN: usize = 341;

/// The number of rows of [`alu_form`].
pub const ALU_FORMS_LEN: usize = 36;

/// Row `i` of the SME2 multiply-into-ZA / `*TMOPA` encoding table, or `None`
/// past its end. The rows' `(mask, val)` keys are disjoint.
pub fn sme2_form(i: usize) -> (r: Option<Form>)
    ensures
        r == sme2_row(i),
        r matches Some(f) ==> f.code != Code::Invalid,
        (r is Some) == (i < 341),
{
    match i {
        0 => Some(Form { mask: 0xffe19c38, val: 0xc1e01008, code: Code::SmeBfmlaHHOV2Gg, shape: Sh::GroupGroup, acc: VA::Sh, src: VA::Sh, span: 1, vg: 2, ws: 0x6000, off: 0x7, zn: 0x3c0, zm: 0x1e0000, idx: 0x0, za: 0x0, zk: 0x0 }),
        1 => Some(Form { mask: 0xfff09030, val: 0xc1101020, code: Code::SmeBfmlaHHOV2Gi, shape: Sh::GroupIdx, acc: VA::Sh, src: VA::Sh, span: 1, vg: 2, ws: 0x6000, off: 0x7, zn: 0x3c0, zm: 0xf0000, idx: 0xc08, za: 0x0, zk: 0x0 }),
        2 => Some(Form { mask: 0xfff09c18, val: 0xc1601c00, code: Code::SmeBfmlaHHOV2Gs, shape: Sh::GroupSingle, acc: VA::Sh, src: VA::Sh, span: 1, vg: 2, ws: 0x6000, off: 0x7, zn: 0x3e0, zm: 0xf0000, idx: 0x0, za: 0x0, zk: 0x0 }),
        3 => Some(Form { mask: 0xffe39c78, val: 0xc1e11008, code: Code::SmeBfmlaHHOV4Gg, shape: Sh::GroupGroup, acc: VA::Sh, src: VA::Sh, span: 1, vg: 4, ws: 0x6000, off: 0x7, zn: 0x380, zm: 0x1c0000, idx: 0x0, za: 0x0, zk: 0x0 }),
        4 => Some(Form { mask: 0xfff09070, val: 0xc1109020, code: Code::SmeBfmlaHHOV4Gi, shape: Sh::GroupIdx, acc: VA::Sh, src: VA::Sh, span: 1, vg: 4, ws: 0x6000, off: 0x7, zn: 0x380, zm: 0xf0000, idx: 0xc08, za: 0x0, zk: 0x0 }),
        5 => Some(Form { mask: 0xfff09c18, val: 0xc1701c00, code: Code::SmeBfmlaHHOV4Gs, shape: Sh::GroupSingle, acc: VA::Sh, src: VA::Sh, span: 1, vg: 4, ws: 0x6000, off: 0x7, zn: 0x3e0, zm: 0xf0000, idx: 0x0, za: 0x0, zk: 0x0 }),
        6 => Some(Form { mask: 0xfff01018, val: 0xc1801010, code: Code::SmeBfmlalSHTSi, shape: Sh::SingleIdx, acc: VA::Ss, src: VA::Sh, span: 2, vg: 0, ws: 0x6000, off: 0x7, zn: 0x3e0, zm: 0xf0000, idx: 0x8c00, za: 0x0, zk: 0x0 }),
        7 => Some(Form { mask: 0xfff09c18, val: 0xc1200c10, code: Code::SmeBfmlalSHTSs, shape: Sh::SingleSingle, acc: VA::Ss, src: VA::Sh, span: 2, vg: 0, ws: 0x6000, off: 0x7, zn: 0x3e0, zm: 0xf0000, idx: 0x0, za: 0x0, zk: 0x0 }),
        8 => Some(Form { mask: 0xffe19c3c, val: 0xc1a00810, code: Code::SmeBfmlalSHTV2Gg, shape: Sh::GroupGroup, acc: VA::Ss, src: VA::Sh, span: 2, vg: 2, ws: 0x6000, off: 0x3, zn: 0x3c0, zm: 0x1e0000, idx: 0x0, za: 0x0, zk: 0x0 }),
        9 => Some(Form { mask: 0xfff09038, val: 0xc1901010, code: Code::SmeBfmlalSHTV2Gi, shape: Sh::GroupIdx, acc: VA::Ss, src: VA::Sh, span: 2, vg: 2, ws: 0x6000, off: 0x3, zn: 0x3c0, zm: 0xf0000, idx: 0xc04, za: 0x0, zk: 0x0 }),
        10 => Some(Form { mask: 0xfff09c1c, val: 0xc1200810, code: Code::SmeBfmlalSHTV2Gs, shape: Sh::GroupSingle, acc: VA::Ss, src: VA::Sh, span: 2, vg: 2, ws: 0x6000, off: 0x3, zn: 0x3e0, zm: 0xf0000, idx: 0x0, za: 0x0, zk: 0x0 }),
        11 => Some(Form { mask: 0xffe39c7c, val: 0xc1a10810, code: Code::SmeBfmlalSHTV4Gg, shape: Sh::GroupGroup, acc: VA::Ss, src: VA::Sh, span: 2, vg: 4, ws: 0x6000, off: 0x3, zn: 0x380, zm: 0x1c0000, idx: 0x0, za: 0x0, zk: 0x0 }),
        12 => Some(Form { mask: 0xfff09078, val: 0xc1909010, code: Code::SmeBfmlalSHTV4Gi, shape: Sh::GroupIdx, acc: VA::Ss, src: VA::Sh, span: 2, vg: 4, ws: 0x6000, off: 0x3, zn: 0x380, zm: 0xf0000, idx: 0xc04, za: 0x0, zk: 0x0 }),
        13 => Some(Form { mask: 0xfff09c1c, val: 0xc1300810, code: Code::SmeBfmlalSHTV4Gs, shape: Sh::GroupSingle, acc: VA::Ss, src: VA::Sh, span: 2, vg: 4, ws: 0x6000, off: 0x3, zn: 0x3e0, zm: 0xf0000, idx: 0x0, za: 0x0, zk: 0x0 }),
        14 => Some(Form { mask: 0xffe19c38, val: 0xc1e01018, code: Code::SmeBfmlsHHOV2Gg, shape: Sh::GroupGroup, acc: VA::Sh, src: VA::Sh, span: 1, vg: 2, ws: 0x6000, off: 0x7, zn: 0x3c0, zm: 0x1e0000, idx: 0x0, za: 0x0, zk: 0x0 }),
        15 => Some(Form { mask: 0xfff09030, val: 0xc1101030, code: Code::SmeBfmlsHHOV2Gi, shape: Sh::GroupIdx, acc: VA::Sh, src: VA::Sh, span: 1, vg: 2, ws: 0x6000, off: 0x7, zn: 0x3c0, zm: 0xf0000, idx: 0xc08, za: 0x0, zk: 0x0 }),
        16 => Some(Form { mask: 0xfff09c18, val: 0xc1601c08, code: Code::SmeBfmlsHHOV2Gs, shape: Sh::GroupSingle, acc: VA::Sh, src: VA::Sh, span: 1, vg: 2, ws: 0x6000, off: 0x7, zn: 0x3e0, zm: 0xf0000, idx: 0x0, za: 0x0, zk: 0x0 }),
        17 => Some(Form { mask: 0xffe39c78, val: 0xc1e11018, code: Code::SmeBfmlsHHOV4Gg, shape: Sh::GroupGroup, acc: VA::Sh, src: VA::Sh, span: 1, vg: 4, ws: 0x6000, off: 0x7, zn: 0x380, zm: 0x1c0000, idx: 0x0, za: 0x0, zk: 0x0 }),
        18 => Some(Form { mask: 0xfff09070, val: 0xc1109030, code: Code::SmeBfmlsHHOV4Gi, shape: Sh::GroupIdx, acc: VA::Sh, src: VA::Sh, span: 1, vg: 4, ws: 0x6000, off: 0x7, zn: 0x380, zm: 0xf0000, idx: 0xc08, za: 0x0, zk: 0x0 }),
        19 => Some(Form { mask: 0xfff09c18, val: 0xc1701c08, code: Code::SmeBfmlsHHOV4Gs, shape: Sh::GroupSingle, acc: VA::Sh, src: VA::Sh, span: 1, vg: 4, ws: 0x6000, off: 0x7, zn: 0x3e0, zm: 0xf0000, idx: 0x0, za: 0x0, zk: 0x0 }),
        20 => Some(Form { mask: 0xfff01018, val: 0xc1801018, code: Code::SmeBfmlslSHTSi, shape: Sh::SingleIdx, acc: VA::Ss, src: VA::Sh, span: 2, vg: 0, ws: 0x6000, off: 0x7, zn: 0x3e0, zm: 0xf0000, idx: 0x8c00, za: 0x0, zk: 0x0 }),
        21 => Some(Form { mask: 0xfff09c18, val: 0xc1200c18, code: Code::SmeBfmlslSHTSs, shape: Sh::SingleSingle, acc: VA::Ss, src: VA::Sh, span: 2, vg: 0, ws: 0x6000, off: 0x7, zn: 0x3e0, zm: 0xf0000, idx: 0x0, za: 0x0, zk: 0x0 }),
        22 => Some(Form { mask: 0xffe19c3c, val: 0xc1a00818, code: Code::SmeBfmlslSHTV2Gg, shape: Sh::GroupGroup, acc: VA::Ss, src: VA::Sh, span: 2, vg: 2, ws: 0x6000, off: 0x3, zn: 0x3c0, zm: 0x1e0000, idx: 0x0, za: 0x0, zk: 0x0 }),
        23 => Some(Form { mask: 0xfff09038, val: 0xc1901018, code: Code::SmeBfmlslSHTV2Gi, shape: Sh::GroupIdx, acc: VA::Ss, src: VA::Sh, span: 2, vg: 2, ws: 0x6000, off: 0x3, zn: 0x3c0, zm: 0xf0000, idx: 0xc04, za: 0x0, zk: 0x0 }),
        24 => Some(Form { mask: 0xfff09c1c, val: 0xc1200818, code: Code::SmeBfmlslSHTV2Gs, shape: Sh::GroupSingle, acc: VA::Ss, src: VA::Sh, span: 2, vg: 2, ws: 0x6000, off: 0x3, zn: 0x3e0, zm: 0xf0000, idx: 0x0, za: 0x0, zk: 0x0 }),
        25 => Some(Form { mask: 0xffe39c7c, val: 0xc1a10818, code: Code::SmeBfmlslSHTV4Gg, shape: Sh::GroupGroup, acc: VA::Ss, src: VA::Sh, span: 2, vg: 4, ws: 0x6000, off: 0x3, zn: 0x380, zm: 0x1c0000, idx: 0x0, za: 0x0, zk: 0x0 }),
        26 => Some(Form { mask: 0xfff09078, val: 0xc1909018, code: Code::SmeBfmlslSHTV4Gi, shape: Sh::GroupIdx, acc: VA::Ss, src: VA::Sh, span: 2, vg: 4, ws: 0x6000, off: 0x3, zn: 0x380, zm: 0xf0000, idx: 0xc04, za: 0x0, zk: 0x0 }),
        27 => Some(Form { mask: 0xfff09c1c, val: 0xc1300818, code: Code::SmeBfmlslSHTV4Gs, shape: Sh::GroupSingle, acc: VA::Ss, src: VA::Sh, span: 2, vg: 4, ws: 0x6000, off: 0x3, zn: 0x3e0, zm: 0xf0000, idx: 0x0, za: 0x0, zk: 0x0 }),
        28 => Some(Form { mask: 0xffe0e00e, val: 0x81600008, code: Code::SmeBftmopaHH, shape: Sh::Tmopa, acc: VA::Sh, src: VA::Sh, span: 0, vg: 0, ws: 0x0, off: 0x0, zn: 0x3c0, zm: 0x1f0000, idx: 0x30, za: 0x1, zk: 0x1c00 }),
        29 => Some(Form { mask: 0xffe0e00c, val: 0x81400000, code: Code::SmeBftmopaSH, shape: Sh::Tmopa, acc: VA::Ss, src: VA::Sh, span: 0, vg: 0, ws: 0x0, off: 0x0, zn: 0x3c0, zm: 0x1f0000, idx: 0x30, za: 0x3, zk: 0x1c00 }),
        30 => Some(Form { mask: 0xffe19c38, val: 0xc1e01800, code: Code::SmeFmlaDDOV2Gg, shape: Sh::GroupGroup, acc: VA::Sd, src: VA::Sd, span: 1, vg: 2, ws: 0x6000, off: 0x7, zn: 0x3c0, zm: 0x1e0000, idx: 0x0, za: 0x0, zk: 0x0 }),
        31 => Some(Form { mask: 0xfff09838, val: 0xc1d00000, code: Code::SmeFmlaDDOV2Gi, shape: Sh::GroupIdx, acc: VA::Sd, src: VA::Sd, span: 1, vg: 2, ws: 0x6000, off: 0x7, zn: 0x3c0, zm: 0xf0000, idx: 0x400, za: 0x0, zk: 0x0 }),
        32 => Some(Form { mask: 0xfff09c18, val: 0xc1601800, code: Code::SmeFmlaDDOV2Gs, shape: Sh::GroupSingle, acc: VA::Sd, src: VA::Sd, span: 1, vg: 2, ws: 0x6000, off: 0x7, zn: 0x3e0, zm: 0xf0000, idx: 0x0, za: 0x0, zk: 0x0 }),
        33 => Some(Form { mask: 0xffe39c78, val: 0xc1e11800, code: Code::SmeFmlaDDOV4Gg, shape: Sh::GroupGroup, acc: VA::Sd, src: VA::Sd, span: 1, vg: 4, ws: 0x6000, off: 0x7, zn: 0x380, zm: 0x1c0000, idx: 0x0, za: 0x0, zk: 0x0 }),
        34 => Some(Form { mask: 0xfff09878, val: 0xc1d08000, code: Code::SmeFmlaDDOV4Gi, shape: Sh::GroupIdx, acc: VA::Sd, src: VA::Sd, span: 1, vg: 4, ws: 0x6000, off: 0x7, zn: 0x380, zm: 0xf0000, idx: 0x400, za: 0x0, zk: 0x0 }),
        35 => Some(Form { mask: 0xfff09c18, val: 0xc1701800, code: Code::SmeFmlaDDOV4Gs, shape: Sh::GroupSingle, acc: VA::Sd, src: VA::Sd, span: 1, vg: 4, ws: 0x6000, off: 0x7, zn: 0x3e0, zm: 0xf0000, idx: 0x0, za: 0x0, zk: 0x0 }),
        36 => Some(Form { mask: 0xffe19c38, val: 0xc1a01008, code: Code::SmeFmlaHHOV2Gg, shape: Sh::GroupGroup, acc: VA::Sh, src: VA::Sh, span: 1, vg: 2, ws: 0x6000, off: 0x7, zn: 0x3c0, zm: 0x1e0000, idx: 0x0, za: 0x0, zk: 0x0 }),
        37 => Some(Form { mask: 0xfff09030, val: 0xc1101000, code: Code::SmeFmlaHHOV2Gi, shape: Sh::GroupIdx, acc: VA::Sh, src: VA::Sh, span: 1, vg: 2, ws: 0x6000, off: 0x7, zn: 0x3c0, zm: 0xf0000, idx: 0xc08, za: 0x0, zk: 0x0 }),
        38 => Some(Form { mask: 0xfff09c18, val: 0xc1201c00, code: Code::SmeFmlaHHOV2Gs, shape: Sh::GroupSingle, acc: VA::Sh, src: VA::Sh, span: 1, vg: 2, ws: 0x6000, off: 0x7, zn: 0x3e0, zm: 0xf0000, idx: 0x0, za: 0x0, zk: 0x0 }),
        39 => Some(Form { mask: 0xffe39c78, val: 0xc1a11008, code: Code::SmeFmlaHHOV4Gg, shape: Sh::GroupGroup, acc: VA::Sh, src: VA::Sh, span: 1, vg: 4, ws: 0x6000, off: 0x7, zn: 0x380, zm: 0x1c0000, idx: 0x0, za: 0x0, zk: 0x0 }),
        40 => Some(Form { mask: 0xfff09070, val: 0xc1109000, code: Code::SmeFmlaHHOV4Gi, shape: Sh::GroupIdx, acc: VA::Sh, src: VA::Sh, span: 1, vg: 4, ws: 0x6000, off: 0x7, zn: 0x380, zm: 0xf0000, idx: 0xc08, za: 0x0, zk: 0x0 }),
        41 => Some(Form { mask: 0xfff09c18, val: 0xc1301c00, code: Code::SmeFmlaHHOV4Gs, shape: Sh::GroupSingle, acc: VA::Sh, src: VA::Sh, span: 1, vg: 4, ws: 0x6000, off: 0x7, zn: 0x3e0, zm: 0xf0000, idx: 0x0, za: 0x0, zk: 0x0 }),
        42 => Some(Form { mask: 0xffe19c38, val: 0xc1a01800, code: Code::SmeFmlaSSOV2Gg, shape: Sh::GroupGroup, acc: VA::Ss, src: VA::Ss, span: 1, vg: 2, ws: 0x6000, off: 0x7, zn: 0x3c0, zm: 0x1e0000, idx: 0x0, za: 0x0, zk: 0x0 }),
        43 => Some(Form { mask: 0xfff09038, val: 0xc1500000, code: Code::SmeFmlaSSOV2Gi, shape: Sh::GroupIdx, acc: VA::Ss, src: VA::Ss, span: 1, vg: 2, ws: 0x6000, off: 0x7, zn: 0x3c0, zm: 0xf0000, idx: 0xc00, za: 0x0, zk: 0x0 }),
        44 => Some(Form { mask: 0xfff09c18, val: 0xc1201800, code: Code::SmeFmlaSSOV2Gs, shape: Sh::GroupSingle, acc: VA::Ss, src: VA::Ss, span: 1, vg: 2, ws: 0x6000, off: 0x7, zn: 0x3e0, zm: 0xf0000, idx: 0x0, za: 0x0, zk: 0x0 }),
        45 => Some(Form { mask: 0xffe39c78, val: 0xc1a11800, code: Code::SmeFmlaSSOV4Gg, shape: Sh::GroupGroup, acc: VA::Ss, src: VA::Ss, span: 1, vg: 4, ws: 0x6000, off: 0x7, zn: 0x380, zm: 0x1c0000, idx: 0x0, za: 0x0, zk: 0x0 }),
        46 => Some(Form { mask: 0xfff09078, val: 0xc1508000, code: Code::SmeFmlaSSOV4Gi, shape: Sh::GroupIdx, acc: VA::Ss, src: VA::Ss, span: 1, vg: 4, ws: 0x6000, off: 0x7, zn: 0x380, zm: 0xf0000, idx: 0xc00, za: 0x0, zk: 0x0 }),
        47 => Some(Form { mask: 0xfff09c18, val: 0xc1301800, code: Code::SmeFmlaSSOV4Gs, shape: Sh::GroupSingle, acc: VA::Ss, src: VA::Ss, span: 1, vg: 4, ws: 0x6000, off: 0x7, zn: 0x3e0, zm: 0xf0000, idx: 0x0, za: 0x0, zk: 0x0 }),
        48 => Some(Form { mask: 0xfff01010, val: 0xc1c00000, code: Code::SmeFmlalHBTSi, shape: Sh::SingleIdx, acc: VA::Sh, src: VA::Sb, span: 2, vg: 0, ws: 0x6000, off: 0x7, zn: 0x3e0, zm: 0xf0000, idx: 0x8c08, za: 0x0, zk: 0x0 }),
        49 => Some(Form { mask: 0xfff09c18, val: 0xc1300c00, code: Code::SmeFmlalHBTSs, shape: Sh::SingleSingle, acc: VA::Sh, src: VA::Sb, span: 2, vg: 0, ws: 0x6000, off: 0x7, zn: 0x3e0, zm: 0xf0000, idx: 0x0, za: 0x0, zk: 0x0 }),
        50 => Some(Form { mask: 0xffe19c3c, val: 0xc1a00820, code: Code::SmeFmlalHBTV2Gg, shape: Sh::GroupGroup, acc: VA::Sh, src: VA::Sb, span: 2, vg: 2, ws: 0x6000, off: 0x3, zn: 0x3c0, zm: 0x1e0000, idx: 0x0, za: 0x0, zk: 0x0 }),
        51 => Some(Form { mask: 0xfff09030, val: 0xc1901030, code: Code::SmeFmlalHBTV2Gi, shape: Sh::GroupIdx, acc: VA::Sh, src: VA::Sb, span: 2, vg: 2, ws: 0x6000, off: 0x3, zn: 0x3c0, zm: 0xf0000, idx: 0xc0c, za: 0x0, zk: 0x0 }),
        52 => Some(Form { mask: 0xfff09c1c, val: 0xc1200804, code: Code::SmeFmlalHBTV2Gs, shape: Sh::GroupSingle, acc: VA::Sh, src: VA::Sb, span: 2, vg: 2, ws: 0x6000, off: 0x3, zn: 0x3e0, zm: 0xf0000, idx: 0x0, za: 0x0, zk: 0x0 }),
        53 => Some(Form { mask: 0xffe39c7c, val: 0xc1a10820, code: Code::SmeFmlalHBTV4Gg, shape: Sh::GroupGroup, acc: VA::Sh, src: VA::Sb, span: 2, vg: 4, ws: 0x6000, off: 0x3, zn: 0x380, zm: 0x1c0000, idx: 0x0, za: 0x0, zk: 0x0 }),
        54 => Some(Form { mask: 0xfff09070, val: 0xc1909020, code: Code::SmeFmlalHBTV4Gi, shape: Sh::GroupIdx, acc: VA::Sh, src: VA::Sb, span: 2, vg: 4, ws: 0x6000, off: 0x3, zn: 0x380, zm: 0xf0000, idx: 0xc0c, za: 0x0, zk: 0x0 }),
        55 => Some(Form { mask: 0xfff09c1c, val: 0xc1300804, code: Code::SmeFmlalHBTV4Gs, shape: Sh::GroupSingle, acc: VA::Sh, src: VA::Sb, span: 2, vg: 4, ws: 0x6000, off: 0x3, zn: 0x3e0, zm: 0xf0000, idx: 0x0, za: 0x0, zk: 0x0 }),
        56 => Some(Form { mask: 0xfff01018, val: 0xc1801000, code: Code::SmeFmlalSHTSi, shape: Sh::SingleIdx, acc: VA::Ss, src: VA::Sh, span: 2, vg: 0, ws: 0x6000, off: 0x7, zn: 0x3e0, zm: 0xf0000, idx: 0x8c00, za: 0x0, zk: 0x0 }),
        57 => Some(Form { mask: 0xfff09c18, val: 0xc1200c00, code: Code::SmeFmlalSHTSs, shape: Sh::SingleSingle, acc: VA::Ss, src: VA::Sh, span: 2, vg: 0, ws: 0x6000, off: 0x7, zn: 0x3e0, zm: 0xf0000, idx: 0x0, za: 0x0, zk: 0x0 }),
        58 => Some(Form { mask: 0xffe19c3c, val: 0xc1a00800, code: Code::SmeFmlalSHTV2Gg, shape: Sh::GroupGroup, acc: VA::Ss, src: VA::Sh, span: 2, vg: 2, ws: 0x6000, off: 0x3, zn: 0x3c0, zm: 0x1e0000, idx: 0x0, za: 0x0, zk: 0x0 }),
        59 => Some(Form { mask: 0xfff09038, val: 0xc1901000, code: Code::SmeFmlalSHTV2Gi, shape: Sh::GroupIdx, acc: VA::Ss, src: VA::Sh, span: 2, vg: 2, ws: 0x6000, off: 0x3, zn: 0x3c0, zm: 0xf0000, idx: 0xc04, za: 0x0, zk: 0x0 }),
        60 => Some(Form { mask: 0xfff09c1c, val: 0xc1200800, code: Code::SmeFmlalSHTV2Gs, shape: Sh::GroupSingle, acc: VA::Ss, src: VA::Sh, span: 2, vg: 2, ws: 0x6000, off: 0x3, zn: 0x3e0, zm: 0xf0000, idx: 0x0, za: 0x0, zk: 0x0 }),
        61 => Some(Form { mask: 0xffe39c7c, val: 0xc1a10800, code: Code::SmeFmlalSHTV4Gg, shape: Sh::GroupGroup, acc: VA::Ss, src: VA::Sh, span: 2, vg: 4, ws: 0x6000, off: 0x3, zn: 0x380, zm: 0x1c0000, idx: 0x0, za: 0x0, zk: 0x0 }),
        62 => Some(Form { mask: 0xfff09078, val: 0xc1909000, code: Code::SmeFmlalSHTV4Gi, shape: Sh::GroupIdx, acc: VA::Ss, src: VA::Sh, span: 2, vg: 4, ws: 0x6000, off: 0x3, zn: 0x380, zm: 0xf0000, idx: 0xc04, za: 0x0, zk: 0x0 }),
        63 => Some(Form { mask: 0xfff09c1c, val: 0xc1300800, code: Code::SmeFmlalSHTV4Gs, shape: Sh::GroupSingle, acc: VA::Ss, src: VA::Sh, span: 2, vg: 4, ws: 0x6000, off: 0x3, zn: 0x3e0, zm: 0xf0000, idx: 0x0, za: 0x0, zk: 0x0 }),
        64 => Some(Form { mask: 0xfff0001c, val: 0xc1400000, code: Code::SmeFmlallSBQSi, shape: Sh::SingleIdx, acc: VA::Ss, src: VA::Sb, span: 4, vg: 0, ws: 0x6000, off: 0x3, zn: 0x3e0, zm: 0xf0000, idx: 0x9c00, za: 0x0, zk: 0x0 }),
        65 => Some(Form { mask: 0xfff09c1c, val: 0xc1300400, code: Code::SmeFmlallSBQSs, shape: Sh::SingleSingle, acc: VA::Ss, src: VA::Sb, span: 4, vg: 0, ws: 0x6000, off: 0x3, zn: 0x3e0, zm: 0xf0000, idx: 0x0, za: 0x0, zk: 0x0 }),
        66 => Some(Form { mask: 0xffe19c3e, val: 0xc1a00020, code: Code::SmeFmlallSBQV2Gg, shape: Sh::GroupGroup, acc: VA::Ss, src: VA::Sb, span: 4, vg: 2, ws: 0x6000, off: 0x1, zn: 0x3c0, zm: 0x1e0000, idx: 0x0, za: 0x0, zk: 0x0 }),
        67 => Some(Form { mask: 0xfff09038, val: 0xc1900020, code: Code::SmeFmlallSBQV2Gi, shape: Sh::GroupIdx, acc: VA::Ss, src: VA::Sb, span: 4, vg: 2, ws: 0x6000, off: 0x1, zn: 0x3c0, zm: 0xf0000, idx: 0xc06, za: 0x0, zk: 0x0 }),
        68 => Some(Form { mask: 0xfff09c1e, val: 0xc1200002, code: Code::SmeFmlallSBQV2Gs, shape: Sh::GroupSingle, acc: VA::Ss, src: VA::Sb, span: 4, vg: 2, ws: 0x6000, off: 0x1, zn: 0x3e0, zm: 0xf0000, idx: 0x0, za: 0x0, zk: 0x0 }),
        69 => Some(Form { mask: 0xffe39c7e, val: 0xc1a10020, code: Code::SmeFmlallSBQV4Gg, shape: Sh::GroupGroup, acc: VA::Ss, src: VA::Sb, span: 4, vg: 4, ws: 0x6000, off: 0x1, zn: 0x380, zm: 0x1c0000, idx: 0x0, za: 0x0, zk: 0x0 }),
        70 => Some(Form { mask: 0xfff09078, val: 0xc1108040, code: Code::SmeFmlallSBQV4Gi, shape: Sh::GroupIdx, acc: VA::Ss, src: VA::Sb, span: 4, vg: 4, ws: 0x6000, off: 0x1, zn: 0x380, zm: 0xf0000, idx: 0xc06, za: 0x0, zk: 0x0 }),
        71 => Some(Form { mask: 0xfff09c1e, val: 0xc1300002, code: Code::SmeFmlallSBQV4Gs, shape: Sh::GroupSingle, acc: VA::Ss, src: VA::Sb, span: 4, vg: 4, ws: 0x6000, off: 0x1, zn: 0x3e0, zm: 0xf0000, idx: 0x0, za: 0x0, zk: 0x0 }),
        72 => Some(Form { mask: 0xffe19c38, val: 0xc1e01808, code: Code::SmeFmlsDDOV2Gg, shape: Sh::GroupGroup, acc: VA::Sd, src: VA::Sd, span: 1, vg: 2, ws: 0x6000, off: 0x7, zn: 0x3c0, zm: 0x1e0000, idx: 0x0, za: 0x0, zk: 0x0 }),
        73 => Some(Form { mask: 0xfff09838, val: 0xc1d00010, code: Code::SmeFmlsDDOV2Gi, shape: Sh::GroupIdx, acc: VA::Sd, src: VA::Sd, span: 1, vg: 2, ws: 0x6000, off: 0x7, zn: 0x3c0, zm: 0xf0000, idx: 0x400, za: 0x0, zk: 0x0 }),
        74 => Some(Form { mask: 0xfff09c18, val: 0xc1601808, code: Code::SmeFmlsDDOV2Gs, shape: Sh::GroupSingle, acc: VA::Sd, src: VA::Sd, span: 1, vg: 2, ws: 0x6000, off: 0x7, zn: 0x3e0, zm: 0xf0000, idx: 0x0, za: 0x0, zk: 0x0 }),
        75 => Some(Form { mask: 0xffe39c78, val: 0xc1e11808, code: Code::SmeFmlsDDOV4Gg, shape: Sh::GroupGroup, acc: VA::Sd, src: VA::Sd, span: 1, vg: 4, ws: 0x6000, off: 0x7, zn: 0x380, zm: 0x1c0000, idx: 0x0, za: 0x0, zk: 0x0 }),
        76 => Some(Form { mask: 0xfff09878, val: 0xc1d08010, code: Code::SmeFmlsDDOV4Gi, shape: Sh::GroupIdx, acc: VA::Sd, src: VA::Sd, span: 1, vg: 4, ws: 0x6000, off: 0x7, zn: 0x380, zm: 0xf0000, idx: 0x400, za: 0x0, zk: 0x0 }),
        77 => Some(Form { mask: 0xfff09c18, val: 0xc1701808, code: Code::SmeFmlsDDOV4Gs, shape: Sh::GroupSingle, acc: VA::Sd, src: VA::Sd, span: 1, vg: 4, ws: 0x6000, off: 0x7, zn: 0x3e0, zm: 0xf0000, idx: 0x0, za: 0x0, zk: 0x0 }),
        78 => Some(Form { mask: 0xffe19c38, val: 0xc1a01018, code: Code::SmeFmlsHHOV2Gg, shape: Sh::GroupGroup, acc: VA::Sh, src: VA::Sh, span: 1, vg: 2, ws: 0x6000, off: 0x7, zn: 0x3c0, zm: 0x1e0000, idx: 0x0, za: 0x0, zk: 0x0 }),
        79 => Some(Form { mask: 0xfff09030, val: 0xc1101010, code: Code::SmeFmlsHHOV2Gi, shape: Sh::GroupIdx, acc: VA::Sh, src: VA::Sh, span: 1, vg: 2, ws: 0x6000, off: 0x7, zn: 0x3c0, zm: 0xf0000, idx: 0xc08, za: 0x0, zk: 0x0 }),
        80 => Some(Form { mask: 0xfff09c18, val: 0xc1201c08, code: Code::SmeFmlsHHOV2Gs, shape: Sh::GroupSingle, acc: VA::Sh, src: VA::Sh, span: 1, vg: 2, ws: 0x6000, off: 0x7, zn: 0x3e0, zm: 0xf0000, idx: 0x0, za: 0x0, zk: 0x0 }),
        81 => Some(Form { mask: 0xffe39c78, val: 0xc1a11018, code: Code::SmeFmlsHHOV4Gg, shape: Sh::GroupGroup, acc: VA::Sh, src: VA::Sh, span: 1, vg: 4, ws: 0x6000, off: 0x7, zn: 0x380, zm: 0x1c0000, idx: 0x0, za: 0x0, zk: 0x0 }),
        82 => Some(Form { mask: 0xfff09070, val: 0xc1109010, code: Code::SmeFmlsHHOV4Gi, shape: Sh::GroupIdx, acc: VA::Sh, src: VA::Sh, span: 1, vg: 4, ws: 0x6000, off: 0x7, zn: 0x380, zm: 0xf0000, idx: 0xc08, za: 0x0, zk: 0x0 }),
        83 => Some(Form { mask: 0xfff09c18, val: 0xc1301c08, code: Code::SmeFmlsHHOV4Gs, shape: Sh::GroupSingle, acc: VA::Sh, src: VA::Sh, span: 1, vg: 4, ws: 0x6000, off: 0x7, zn: 0x3e0, zm: 0xf0000, idx: 0x0, za: 0x0, zk: 0x0 }),
        84 => Some(Form { mask: 0xffe19c38, val: 0xc1a01808, code: Code::SmeFmlsSSOV2Gg, shape: Sh::GroupGroup, acc: VA::Ss, src: VA::Ss, span: 1, vg: 2, ws: 0x6000, off: 0x7, zn: 0x3c0, zm: 0x1e0000, idx: 0x0, za: 0x0, zk: 0x0 }),
        85 => Some(Form { mask: 0xfff09038, val: 0xc1500010, code: Code::SmeFmlsSSOV2Gi, shape: Sh::GroupIdx, acc: VA::Ss, src: VA::Ss, span: 1, vg: 2, ws: 0x6000, off: 0x7, zn: 0x3c0, zm: 0xf0000, idx: 0xc00, za: 0x0, zk: 0x0 }),
        86 => Some(Form { mask: 0xfff09c18, val: 0xc1201808, code: Code::SmeFmlsSSOV2Gs, shape: Sh::GroupSingle, acc: VA::Ss, src: VA::Ss, span: 1, vg: 2, ws: 0x6000, off: 0x7, zn: 0x3e0, zm: 0xf0000, idx: 0x0, za: 0x0, zk: 0x0 }),
        87 => Some(Form { mask: 0xffe39c78, val: 0xc1a11808, code: Code::SmeFmlsSSOV4Gg, shape: Sh::GroupGroup, acc: VA::Ss, src: VA::Ss, span: 1, vg: 4, ws: 0x6000, off: 0x7, zn: 0x380, zm: 0x1c0000, idx: 0x0, za: 0x0, zk: 0x0 }),
        88 => Some(Form { mask: 0xfff09078, val: 0xc1508010, code: Code::SmeFmlsSSOV4Gi, shape: Sh::GroupIdx, acc: VA::Ss, src: VA::Ss, span: 1, vg: 4, ws: 0x6000, off: 0x7, zn: 0x380, zm: 0xf0000, idx: 0xc00, za: 0x0, zk: 0x0 }),
        89 => Some(Form { mask: 0xfff09c18, val: 0xc1301808, code: Code::SmeFmlsSSOV4Gs, shape: Sh::GroupSingle, acc: VA::Ss, src: VA::Ss, span: 1, vg: 4, ws: 0x6000, off: 0x7, zn: 0x3e0, zm: 0xf0000, idx: 0x0, za: 0x0, zk: 0x0 }),
        90 => Some(Form { mask: 0xfff01018, val: 0xc1801008, code: Code::SmeFmlslSHTSi, shape: Sh::SingleIdx, acc: VA::Ss, src: VA::Sh, span: 2, vg: 0, ws: 0x6000, off: 0x7, zn: 0x3e0, zm: 0xf0000, idx: 0x8c00, za: 0x0, zk: 0x0 }),
        91 => Some(Form { mask: 0xfff09c18, val: 0xc1200c08, code: Code::SmeFmlslSHTSs, shape: Sh::SingleSingle, acc: VA::Ss, src: VA::Sh, span: 2, vg: 0, ws: 0x6000, off: 0x7, zn: 0x3e0, zm: 0xf0000, idx: 0x0, za: 0x0, zk: 0x0 }),
        92 => Some(Form { mask: 0xffe19c3c, val: 0xc1a00808, code: Code::SmeFmlslSHTV2Gg, shape: Sh::GroupGroup, acc: VA::Ss, src: VA::Sh, span: 2, vg: 2, ws: 0x6000, off: 0x3, zn: 0x3c0, zm: 0x1e0000, idx: 0x0, za: 0x0, zk: 0x0 }),
        93 => Some(Form { mask: 0xfff09038, val: 0xc1901008, code: Code::SmeFmlslSHTV2Gi, shape: Sh::GroupIdx, acc: VA::Ss, src: VA::Sh, span: 2, vg: 2, ws: 0x6000, off: 0x3, zn: 0x3c0, zm: 0xf0000, idx: 0xc04, za: 0x0, zk: 0x0 }),
        94 => Some(Form { mask: 0xfff09c1c, val: 0xc1200808, code: Code::SmeFmlslSHTV2Gs, shape: Sh::GroupSingle, acc: VA::Ss, src: VA::Sh, span: 2, vg: 2, ws: 0x6000, off: 0x3, zn: 0x3e0, zm: 0xf0000, idx: 0x0, za: 0x0, zk: 0x0 }),
        95 => Some(Form { mask: 0xffe39c7c, val: 0xc1a10808, code: Code::SmeFmlslSHTV4Gg, shape: Sh::GroupGroup, acc: VA::Ss, src: VA::Sh, span: 2, vg: 4, ws: 0x6000, off: 0x3, zn: 0x380, zm: 0x1c0000, idx: 0x0, za: 0x0, zk: 0x0 }),
        96 => Some(Form { mask: 0xfff09078, val: 0xc1909008, code: Code::SmeFmlslSHTV4Gi, shape: Sh::GroupIdx, acc: VA::Ss, src: VA::Sh, span: 2, vg: 4, ws: 0x6000, off: 0x3, zn: 0x380, zm: 0xf0000, idx: 0xc04, za: 0x0, zk: 0x0 }),
        97 => Some(Form { mask: 0xfff09c1c, val: 0xc1300808, code: Code::SmeFmlslSHTV4Gs, shape: Sh::GroupSingle, acc: VA::Ss, src: VA::Sh, span: 2, vg: 4, ws: 0x6000, off: 0x3, zn: 0x3e0, zm: 0xf0000, idx: 0x0, za: 0x0, zk: 0x0 }),
        98 => Some(Form { mask: 0xffe0e00e, val: 0x80600008, code: Code::SmeFtmopaHB, shape: Sh::Tmopa, acc: VA::Sh, src: VA::Sb, span: 0, vg: 0, ws: 0x0, off: 0x0, zn: 0x3c0, zm: 0x1f0000, idx: 0x30, za: 0x1, zk: 0x1c00 }),
        99 => Some(Form { mask: 0xffe0e00e, val: 0x81400008, code: Code::SmeFtmopaHH, shape: Sh::Tmopa, acc: VA::Sh, src: VA::Sh, span: 0, vg: 0, ws: 0x0, off: 0x0, zn: 0x3c0, zm: 0x1f0000, idx: 0x30, za: 0x1, zk: 0x1c00 }),
        100 => Some(Form { mask: 0xffe0e00c, val: 0x80600000, code: Code::SmeFtmopaSB, shape: Sh::Tmopa, acc: VA::Ss, src: VA::Sb, span: 0, vg: 0, ws: 0x0, off: 0x0, zn: 0x3c0, zm: 0x1f0000, idx: 0x30, za: 0x3, zk: 0x1c00 }),
        101 => Some(Form { mask: 0xffe0e00c, val: 0x81600000, code: Code::SmeFtmopaSH, shape: Sh::Tmopa, acc: VA::Ss, src: VA::Sh, span: 0, vg: 0, ws: 0x0, off: 0x0, zn: 0x3c0, zm: 0x1f0000, idx: 0x30, za: 0x3, zk: 0x1c00 }),
        102 => Some(Form { mask: 0xffe0e00c, val: 0x80400000, code: Code::SmeFtmopaSS, shape: Sh::Tmopa, acc: VA::Ss, src: VA::Ss, span: 0, vg: 0, ws: 0x0, off: 0x0, zn: 0x3c0, zm: 0x1f0000, idx: 0x30, za: 0x3, zk: 0x1c00 }),
        103 => Some(Form { mask: 0xfff01018, val: 0xc1c01000, code: Code::SmeSmlalSHTSi, shape: Sh::SingleIdx, acc: VA::Ss, src: VA::Sh, span: 2, vg: 0, ws: 0x6000, off: 0x7, zn: 0x3e0, zm: 0xf0000, idx: 0x8c00, za: 0x0, zk: 0x0 }),
        104 => Some(Form { mask: 0xfff09c18, val: 0xc1600c00, code: Code::SmeSmlalSHTSs, shape: Sh::SingleSingle, acc: VA::Ss, src: VA::Sh, span: 2, vg: 0, ws: 0x6000, off: 0x7, zn: 0x3e0, zm: 0xf0000, idx: 0x0, za: 0x0, zk: 0x0 }),
        105 => Some(Form { mask: 0xffe19c3c, val: 0xc1e00800, code: Code::SmeSmlalSHTV2Gg, shape: Sh::GroupGroup, acc: VA::Ss, src: VA::Sh, span: 2, vg: 2, ws: 0x6000, off: 0x3, zn: 0x3c0, zm: 0x1e0000, idx: 0x0, za: 0x0, zk: 0x0 }),
        106 => Some(Form { mask: 0xfff09038, val: 0xc1d01000, code: Code::SmeSmlalSHTV2Gi, shape: Sh::GroupIdx, acc: VA::Ss, src: VA::Sh, span: 2, vg: 2, ws: 0x6000, off: 0x3, zn: 0x3c0, zm: 0xf0000, idx: 0xc04, za: 0x0, zk: 0x0 }),
        107 => Some(Form { mask: 0xfff09c1c, val: 0xc1600800, code: Code::SmeSmlalSHTV2Gs, shape: Sh::GroupSingle, acc: VA::Ss, src: VA::Sh, span: 2, vg: 2, ws: 0x6000, off: 0x3, zn: 0x3e0, zm: 0xf0000, idx: 0x0, za: 0x0, zk: 0x0 }),
        108 => Some(Form { mask: 0xffe39c7c, val: 0xc1e10800, code: Code::SmeSmlalSHTV4Gg, shape: Sh::GroupGroup, acc: VA::Ss, src: VA::Sh, span: 2, vg: 4, ws: 0x6000, off: 0x3, zn: 0x380, zm: 0x1c0000, idx: 0x0, za: 0x0, zk: 0x0 }),
        109 => Some(Form { mask: 0xfff09078, val: 0xc1d09000, code: Code::SmeSmlalSHTV4Gi, shape: Sh::GroupIdx, acc: VA::Ss, src: VA::Sh, span: 2, vg: 4, ws: 0x6000, off: 0x3, zn: 0x380, zm: 0xf0000, idx: 0xc04, za: 0x0, zk: 0x0 }),
        110 => Some(Form { mask: 0xfff09c1c, val: 0xc1700800, code: Code::SmeSmlalSHTV4Gs, shape: Sh::GroupSingle, acc: VA::Ss, src: VA::Sh, span: 2, vg: 4, ws: 0x6000, off: 0x3, zn: 0x3e0, zm: 0xf0000, idx: 0x0, za: 0x0, zk: 0x0 }),
        111 => Some(Form { mask: 0xfff0101c, val: 0xc1800000, code: Code::SmeSmlallDHQSi, shape: Sh::SingleIdx, acc: VA::Sd, src: VA::Sh, span: 4, vg: 0, ws: 0x6000, off: 0x3, zn: 0x3e0, zm: 0xf0000, idx: 0x8c00, za: 0x0, zk: 0x0 }),
        112 => Some(Form { mask: 0xfff09c1c, val: 0xc1600400, code: Code::SmeSmlallDHQSs, shape: Sh::SingleSingle, acc: VA::Sd, src: VA::Sh, span: 4, vg: 0, ws: 0x6000, off: 0x3, zn: 0x3e0, zm: 0xf0000, idx: 0x0, za: 0x0, zk: 0x0 }),
        113 => Some(Form { mask: 0xffe19c3e, val: 0xc1e00000, code: Code::SmeSmlallDHQV2Gg, shape: Sh::GroupGroup, acc: VA::Sd, src: VA::Sh, span: 4, vg: 2, ws: 0x6000, off: 0x1, zn: 0x3c0, zm: 0x1e0000, idx: 0x0, za: 0x0, zk: 0x0 }),
        114 => Some(Form { mask: 0xfff09838, val: 0xc1900000, code: Code::SmeSmlallDHQV2Gi, shape: Sh::GroupIdx, acc: VA::Sd, src: VA::Sh, span: 4, vg: 2, ws: 0x6000, off: 0x1, zn: 0x3c0, zm: 0xf0000, idx: 0x406, za: 0x0, zk: 0x0 }),
        115 => Some(Form { mask: 0xfff09c1e, val: 0xc1600000, code: Code::SmeSmlallDHQV2Gs, shape: Sh::GroupSingle, acc: VA::Sd, src: VA::Sh, span: 4, vg: 2, ws: 0x6000, off: 0x1, zn: 0x3e0, zm: 0xf0000, idx: 0x0, za: 0x0, zk: 0x0 }),
        116 => Some(Form { mask: 0xffe39c7e, val: 0xc1e10000, code: Code::SmeSmlallDHQV4Gg, shape: Sh::GroupGroup, acc: VA::Sd, src: VA::Sh, span: 4, vg: 4, ws: 0x6000, off: 0x1, zn: 0x380, zm: 0x1c0000, idx: 0x0, za: 0x0, zk: 0x0 }),
        117 => Some(Form { mask: 0xfff09878, val: 0xc1908000, code: Code::SmeSmlallDHQV4Gi, shape: Sh::GroupIdx, acc: VA::Sd, src: VA::Sh, span: 4, vg: 4, ws: 0x6000, off: 0x1, zn: 0x380, zm: 0xf0000, idx: 0x406, za: 0x0, zk: 0x0 }),
        118 => Some(Form { mask: 0xfff09c1e, val: 0xc1700000, code: Code::SmeSmlallDHQV4Gs, shape: Sh::GroupSingle, acc: VA::Sd, src: VA::Sh, span: 4, vg: 4, ws: 0x6000, off: 0x1, zn: 0x3e0, zm: 0xf0000, idx: 0x0, za: 0x0, zk: 0x0 }),
        119 => Some(Form { mask: 0xfff0001c, val: 0xc1000000, code: Code::SmeSmlallSBQSi, shape: Sh::SingleIdx, acc: VA::Ss, src: VA::Sb, span: 4, vg: 0, ws: 0x6000, off: 0x3, zn: 0x3e0, zm: 0xf0000, idx: 0x9c00, za: 0x0, zk: 0x0 }),
        _ => sme2_form_1(i),
    }
}

/// Rows 120 onwards of [`sme2_form`].
fn sme2_form_1(i: usize) -> (r: Option<Form>)
    requires
        i >= 120,
    ensures
        r == sme2_row_1(i),
        r matches Some(f) ==> f.code != Code::Invalid,
        (r is Some) == (i < 341),
{
    match i {
        120 => Some(Form { mask: 0xfff09c1c, val: 0xc1200400, code: Code::SmeSmlallSBQSs, shape: Sh::SingleSingle, acc: VA::Ss, src: VA::Sb, span: 4, vg: 0, ws: 0x6000, off: 0x3, zn: 0x3e0, zm: 0xf0000, idx: 0x0, za: 0x0, zk: 0x0 }),
        121 => Some(Form { mask: 0xffe19c3e, val: 0xc1a00000, code: Code::SmeSmlallSBQV2Gg, shape: Sh::GroupGroup, acc: VA::Ss, src: VA::Sb, span: 4, vg: 2, ws: 0x6000, off: 0x1, zn: 0x3c0, zm: 0x1e0000, idx: 0x0, za: 0x0, zk: 0x0 }),
        122 => Some(Form { mask: 0xfff09038, val: 0xc1100000, code: Code::SmeSmlallSBQV2Gi, shape: Sh::GroupIdx, acc: VA::Ss, src: VA::Sb, span: 4, vg: 2, ws: 0x6000, off: 0x1, zn: 0x3c0, zm: 0xf0000, idx: 0xc06, za: 0x0, zk: 0x0 }),
        123 => Some(Form { mask: 0xfff09c1e, val: 0xc1200000, code: Code::SmeSmlallSBQV2Gs, shape: Sh::GroupSingle, acc: VA::Ss, src: VA::Sb, span: 4, vg: 2, ws: 0x6000, off: 0x1, zn: 0x3e0, zm: 0xf0000, idx: 0x0, za: 0x0, zk: 0x0 }),
        124 => Some(Form { mask: 0xffe39c7e, val: 0xc1a10000, code: Code::SmeSmlallSBQV4Gg, shape: Sh::GroupGroup, acc: VA::Ss, src: VA::Sb, span: 4, vg: 4, ws: 0x6000, off: 0x1, zn: 0x380, zm: 0x1c0000, idx: 0x0, za: 0x0, zk: 0x0 }),
        125 => Some(Form { mask: 0xfff09078, val: 0xc1108000, code: Code::SmeSmlallSBQV4Gi, shape: Sh::GroupIdx, acc: VA::Ss, src: VA::Sb, span: 4, vg: 4, ws: 0x6000, off: 0x1, zn: 0x380, zm: 0xf0000, idx: 0xc06, za: 0x0, zk: 0x0 }),
        126 => Some(Form { mask: 0xfff09c1e, val: 0xc1300000, code: Code::SmeSmlallSBQV4Gs, shape: Sh::GroupSingle, acc: VA::Ss, src: VA::Sb, span: 4, vg: 4, ws: 0x6000, off: 0x1, zn: 0x3e0, zm: 0xf0000, idx: 0x0, za: 0x0, zk: 0x0 }),
        127 => Some(Form { mask: 0xfff01018, val: 0xc1c01008, code: Code::SmeSmlslSHTSi, shape: Sh::SingleIdx, acc: VA::Ss, src: VA::Sh, span: 2, vg: 0, ws: 0x6000, off: 0x7, zn: 0x3e0, zm: 0xf0000, idx: 0x8c00, za: 0x0, zk: 0x0 }),
        128 => Some(Form { mask: 0xfff09c18, val: 0xc1600c08, code: Code::SmeSmlslSHTSs, shape: Sh::SingleSingle, acc: VA::Ss, src: VA::Sh, span: 2, vg: 0, ws: 0x6000, off: 0x7, zn: 0x3e0, zm: 0xf0000, idx: 0x0, za: 0x0, zk: 0x0 }),
        129 => Some(Form { mask: 0xffe19c3c, val: 0xc1e00808, code: Code::SmeSmlslSHTV2Gg, shape: Sh::GroupGroup, acc: VA::Ss, src: VA::Sh, span: 2, vg: 2, ws: 0x6000, off: 0x3, zn: 0x3c0, zm: 0x1e0000, idx: 0x0, za: 0x0, zk: 0x0 }),
        130 => Some(Form { mask: 0xfff09038, val: 0xc1d01008, code: Code::SmeSmlslSHTV2Gi, shape: Sh::GroupIdx, acc: VA::Ss, src: VA::Sh, span: 2, vg: 2, ws: 0x6000, off: 0x3, zn: 0x3c0, zm: 0xf0000, idx: 0xc04, za: 0x0, zk: 0x0 }),
        131 => Some(Form { mask: 0xfff09c1c, val: 0xc1600808, code: Code::SmeSmlslSHTV2Gs, shape: Sh::GroupSingle, acc: VA::Ss, src: VA::Sh, span: 2, vg: 2, ws: 0x6000, off: 0x3, zn: 0x3e0, zm: 0xf0000, idx: 0x0, za: 0x0, zk: 0x0 }),
        132 => Some(Form { mask: 0xffe39c7c, val: 0xc1e10808, code: Code::SmeSmlslSHTV4Gg, shape: Sh::GroupGroup, acc: VA::Ss, src: VA::Sh, span: 2, vg: 4, ws: 0x6000, off: 0x3, zn: 0x380, zm: 0x1c0000, idx: 0x0, za: 0x0, zk: 0x0 }),
        133 => Some(Form { mask: 0xfff09078, val: 0xc1d09008, code: Code::SmeSmlslSHTV4Gi, shape: Sh::GroupIdx, acc: VA::Ss, src: VA::Sh, span: 2, vg: 4, ws: 0x6000, off: 0x3, zn: 0x380, zm: 0xf0000, idx: 0xc04, za: 0x0, zk: 0x0 }),
        134 => Some(Form { mask: 0xfff09c1c, val: 0xc1700808, code: Code::SmeSmlslSHTV4Gs, shape: Sh::GroupSingle, acc: VA::Ss, src: VA::Sh, span: 2, vg: 4, ws: 0x6000, off: 0x3, zn: 0x3e0, zm: 0xf0000, idx: 0x0, za: 0x0, zk: 0x0 }),
        135 => Some(Form { mask: 0xfff0101c, val: 0xc1800008, code: Code::SmeSmlsllDHQSi, shape: Sh::SingleIdx, acc: VA::Sd, src: VA::Sh, span: 4, vg: 0, ws: 0x6000, off: 0x3, zn: 0x3e0, zm: 0xf0000, idx: 0x8c00, za: 0x0, zk: 0x0 }),
        136 => Some(Form { mask: 0xfff09c1c, val: 0xc1600408, code: Code::SmeSmlsllDHQSs, shape: Sh::SingleSingle, acc: VA::Sd, src: VA::Sh, span: 4, vg: 0, ws: 0x6000, off: 0x3, zn: 0x3e0, zm: 0xf0000, idx: 0x0, za: 0x0, zk: 0x0 }),
        137 => Some(Form { mask: 0xffe19c3e, val: 0xc1e00008, code: Code::SmeSmlsllDHQV2Gg, shape: Sh::GroupGroup, acc: VA::Sd, src: VA::Sh, span: 4, vg: 2, ws: 0x6000, off: 0x1, zn: 0x3c0, zm: 0x1e0000, idx: 0x0, za: 0x0, zk: 0x0 }),
        138 => Some(Form { mask: 0xfff09838, val: 0xc1900008, code: Code::SmeSmlsllDHQV2Gi, shape: Sh::GroupIdx, acc: VA::Sd, src: VA::Sh, span: 4, vg: 2, ws: 0x6000, off: 0x1, zn: 0x3c0, zm: 0xf0000, idx: 0x406, za: 0x0, zk: 0x0 }),
        139 => Some(Form { mask: 0xfff09c1e, val: 0xc1600008, code: Code::SmeSmlsllDHQV2Gs, shape: Sh::GroupSingle, acc: VA::Sd, src: VA::Sh, span: 4, vg: 2, ws: 0x6000, off: 0x1, zn: 0x3e0, zm: 0xf0000, idx: 0x0, za: 0x0, zk: 0x0 }),
        140 => Some(Form { mask: 0xffe39c7e, val: 0xc1e10008, code: Code::SmeSmlsllDHQV4Gg, shape: Sh::GroupGroup, acc: VA::Sd, src: VA::Sh, span: 4, vg: 4, ws: 0x6000, off: 0x1, zn: 0x380, zm: 0x1c0000, idx: 0x0, za: 0x0, zk: 0x0 }),
        141 => Some(Form { mask: 0xfff09878, val: 0xc1908008, code: Code::SmeSmlsllDHQV4Gi, shape: Sh::GroupIdx, acc: VA::Sd, src: VA::Sh, span: 4, vg: 4, ws: 0x6000, off: 0x1, zn: 0x380, zm: 0xf0000, idx: 0x406, za: 0x0, zk: 0x0 }),
        142 => Some(Form { mask: 0xfff09c1e, val: 0xc1700008, code: Code::SmeSmlsllDHQV4Gs, shape: Sh::GroupSingle, acc: VA::Sd, src: VA::Sh, span: 4, vg: 4, ws: 0x6000, off: 0x1, zn: 0x3e0, zm: 0xf0000, idx: 0x0, za: 0x0, zk: 0x0 }),
        143 => Some(Form { mask: 0xfff0001c, val: 0xc1000008, code: Code::SmeSmlsllSBQSi, shape: Sh::SingleIdx, acc: VA::Ss, src: VA::Sb, span: 4, vg: 0, ws: 0x6000, off: 0x3, zn: 0x3e0, zm: 0xf0000, idx: 0x9c00, za: 0x0, zk: 0x0 }),
        144 => Some(Form { mask: 0xfff09c1c, val: 0xc1200408, code: Code::SmeSmlsllSBQSs, shape: Sh::SingleSingle, acc: VA::Ss, src: VA::Sb, span: 4, vg: 0, ws: 0x6000, off: 0x3, zn: 0x3e0, zm: 0xf0000, idx: 0x0, za: 0x0, zk: 0x0 }),
        145 => Some(Form { mask: 0xffe19c3e, val: 0xc1a00008, code: Code::SmeSmlsllSBQV2Gg, shape: Sh::GroupGroup, acc: VA::Ss, src: VA::Sb, span: 4, vg: 2, ws: 0x6000, off: 0x1, zn: 0x3c0, zm: 0x1e0000, idx: 0x0, za: 0x0, zk: 0x0 }),
        146 => Some(Form { mask: 0xfff09038, val: 0xc1100008, code: Code::SmeSmlsllSBQV2Gi, shape: Sh::GroupIdx, acc: VA::Ss, src: VA::Sb, span: 4, vg: 2, ws: 0x6000, off: 0x1, zn: 0x3c0, zm: 0xf0000, idx: 0xc06, za: 0x0, zk: 0x0 }),
        147 => Some(Form { mask: 0xfff09c1e, val: 0xc1200008, code: Code::SmeSmlsllSBQV2Gs, shape: Sh::GroupSingle, acc: VA::Ss, src: VA::Sb, span: 4, vg: 2, ws: 0x6000, off: 0x1, zn: 0x3e0, zm: 0xf0000, idx: 0x0, za: 0x0, zk: 0x0 }),
        148 => Some(Form { mask: 0xffe39c7e, val: 0xc1a10008, code: Code::SmeSmlsllSBQV4Gg, shape: Sh::GroupGroup, acc: VA::Ss, src: VA::Sb, span: 4, vg: 4, ws: 0x6000, off: 0x1, zn: 0x380, zm: 0x1c0000, idx: 0x0, za: 0x0, zk: 0x0 }),
        149 => Some(Form { mask: 0xfff09078, val: 0xc1108008, code: Code::SmeSmlsllSBQV4Gi, shape: Sh::GroupIdx, acc: VA::Ss, src: VA::Sb, span: 4, vg: 4, ws: 0x6000, off: 0x1, zn: 0x380, zm: 0xf0000, idx: 0xc06, za: 0x0, zk: 0x0 }),
        150 => Some(Form { mask: 0xfff09c1e, val: 0xc1300008, code: Code::SmeSmlsllSBQV4Gs, shape: Sh::GroupSingle, acc: VA::Ss, src: VA::Sb, span: 4, vg: 4, ws: 0x6000, off: 0x1, zn: 0x3e0, zm: 0xf0000, idx: 0x0, za: 0x0, zk: 0x0 }),
        151 => Some(Form { mask: 0xffe0e00c, val: 0x80408000, code: Code::SmeStmopaSB, shape: Sh::Tmopa, acc: VA::Ss, src: VA::Sb, span: 0, vg: 0, ws: 0x0, off: 0x0, zn: 0x3c0, zm: 0x1f0000, idx: 0x30, za: 0x3, zk: 0x1c00 }),
        152 => Some(Form { mask: 0xffe0e00c, val: 0x80408008, code: Code::SmeStmopaSH, shape: Sh::Tmopa, acc: VA::Ss, src: VA::Sh, span: 0, vg: 0, ws: 0x0, off: 0x0, zn: 0x3c0, zm: 0x1f0000, idx: 0x30, za: 0x3, zk: 0x1c00 }),
        153 => Some(Form { mask: 0xfff0001c, val: 0xc1000014, code: Code::SmeSumlallSBQSi, shape: Sh::SingleIdx, acc: VA::Ss, src: VA::Sb, span: 4, vg: 0, ws: 0x6000, off: 0x3, zn: 0x3e0, zm: 0xf0000, idx: 0x9c00, za: 0x0, zk: 0x0 }),
        154 => Some(Form { mask: 0xfff09038, val: 0xc1100030, code: Code::SmeSumlallSBQV2Gi, shape: Sh::GroupIdx, acc: VA::Ss, src: VA::Sb, span: 4, vg: 2, ws: 0x6000, off: 0x1, zn: 0x3c0, zm: 0xf0000, idx: 0xc06, za: 0x0, zk: 0x0 }),
        155 => Some(Form { mask: 0xfff09c1e, val: 0xc1200014, code: Code::SmeSumlallSBQV2Gs, shape: Sh::GroupSingle, acc: VA::Ss, src: VA::Sb, span: 4, vg: 2, ws: 0x6000, off: 0x1, zn: 0x3e0, zm: 0xf0000, idx: 0x0, za: 0x0, zk: 0x0 }),
        156 => Some(Form { mask: 0xfff09078, val: 0xc1108030, code: Code::SmeSumlallSBQV4Gi, shape: Sh::GroupIdx, acc: VA::Ss, src: VA::Sb, span: 4, vg: 4, ws: 0x6000, off: 0x1, zn: 0x380, zm: 0xf0000, idx: 0xc06, za: 0x0, zk: 0x0 }),
        157 => Some(Form { mask: 0xfff09c1e, val: 0xc1300014, code: Code::SmeSumlallSBQV4Gs, shape: Sh::GroupSingle, acc: VA::Ss, src: VA::Sb, span: 4, vg: 4, ws: 0x6000, off: 0x1, zn: 0x3e0, zm: 0xf0000, idx: 0x0, za: 0x0, zk: 0x0 }),
        158 => Some(Form { mask: 0xffe0e00c, val: 0x80608000, code: Code::SmeSutmopaSB, shape: Sh::Tmopa, acc: VA::Ss, src: VA::Sb, span: 0, vg: 0, ws: 0x0, off: 0x0, zn: 0x3c0, zm: 0x1f0000, idx: 0x30, za: 0x3, zk: 0x1c00 }),
        159 => Some(Form { mask: 0xfff01018, val: 0xc1c01010, code: Code::SmeUmlalSHTSi, shape: Sh::SingleIdx, acc: VA::Ss, src: VA::Sh, span: 2, vg: 0, ws: 0x6000, off: 0x7, zn: 0x3e0, zm: 0xf0000, idx: 0x8c00, za: 0x0, zk: 0x0 }),
        160 => Some(Form { mask: 0xfff09c18, val: 0xc1600c10, code: Code::SmeUmlalSHTSs, shape: Sh::SingleSingle, acc: VA::Ss, src: VA::Sh, span: 2, vg: 0, ws: 0x6000, off: 0x7, zn: 0x3e0, zm: 0xf0000, idx: 0x0, za: 0x0, zk: 0x0 }),
        161 => Some(Form { mask: 0xffe19c3c, val: 0xc1e00810, code: Code::SmeUmlalSHTV2Gg, shape: Sh::GroupGroup, acc: VA::Ss, src: VA::Sh, span: 2, vg: 2, ws: 0x6000, off: 0x3, zn: 0x3c0, zm: 0x1e0000, idx: 0x0, za: 0x0, zk: 0x0 }),
        162 => Some(Form { mask: 0xfff09038, val: 0xc1d01010, code: Code::SmeUmlalSHTV2Gi, shape: Sh::GroupIdx, acc: VA::Ss, src: VA::Sh, span: 2, vg: 2, ws: 0x6000, off: 0x3, zn: 0x3c0, zm: 0xf0000, idx: 0xc04, za: 0x0, zk: 0x0 }),
        163 => Some(Form { mask: 0xfff09c1c, val: 0xc1600810, code: Code::SmeUmlalSHTV2Gs, shape: Sh::GroupSingle, acc: VA::Ss, src: VA::Sh, span: 2, vg: 2, ws: 0x6000, off: 0x3, zn: 0x3e0, zm: 0xf0000, idx: 0x0, za: 0x0, zk: 0x0 }),
        164 => Some(Form { mask: 0xffe39c7c, val: 0xc1e10810, code: Code::SmeUmlalSHTV4Gg, shape: Sh::GroupGroup, acc: VA::Ss, src: VA::Sh, span: 2, vg: 4, ws: 0x6000, off: 0x3, zn: 0x380, zm: 0x1c0000, idx: 0x0, za: 0x0, zk: 0x0 }),
        165 => Some(Form { mask: 0xfff09078, val: 0xc1d09010, code: Code::SmeUmlalSHTV4Gi, shape: Sh::GroupIdx, acc: VA::Ss, src: VA::Sh, span: 2, vg: 4, ws: 0x6000, off: 0x3, zn: 0x380, zm: 0xf0000, idx: 0xc04, za: 0x0, zk: 0x0 }),
        166 => Some(Form { mask: 0xfff09c1c, val: 0xc1700810, code: Code::SmeUmlalSHTV4Gs, shape: Sh::GroupSingle, acc: VA::Ss, src: VA::Sh, span: 2, vg: 4, ws: 0x6000, off: 0x3, zn: 0x3e0, zm: 0xf0000, idx: 0x0, za: 0x0, zk: 0x0 }),
        167 => Some(Form { mask: 0xfff0101c, val: 0xc1800010, code: Code::SmeUmlallDHQSi, shape: Sh::SingleIdx, acc: VA::Sd, src: VA::Sh, span: 4, vg: 0, ws: 0x6000, off: 0x3, zn: 0x3e0, zm: 0xf0000, idx: 0x8c00, za: 0x0, zk: 0x0 }),
        168 => Some(Form { mask: 0xfff09c1c, val: 0xc1600410, code: Code::SmeUmlallDHQSs, shape: Sh::SingleSingle, acc: VA::Sd, src: VA::Sh, span: 4, vg: 0, ws: 0x6000, off: 0x3, zn: 0x3e0, zm: 0xf0000, idx: 0x0, za: 0x0, zk: 0x0 }),
        169 => Some(Form { mask: 0xffe19c3e, val: 0xc1e00010, code: Code::SmeUmlallDHQV2Gg, shape: Sh::GroupGroup, acc: VA::Sd, src: VA::Sh, span: 4, vg: 2, ws: 0x6000, off: 0x1, zn: 0x3c0, zm: 0x1e0000, idx: 0x0, za: 0x0, zk: 0x0 }),
        170 => Some(Form { mask: 0xfff09838, val: 0xc1900010, code: Code::SmeUmlallDHQV2Gi, shape: Sh::GroupIdx, acc: VA::Sd, src: VA::Sh, span: 4, vg: 2, ws: 0x6000, off: 0x1, zn: 0x3c0, zm: 0xf0000, idx: 0x406, za: 0x0, zk: 0x0 }),
        171 => Some(Form { mask: 0xfff09c1e, val: 0xc1600010, code: Code::SmeUmlallDHQV2Gs, shape: Sh::GroupSingle, acc: VA::Sd, src: VA::Sh, span: 4, vg: 2, ws: 0x6000, off: 0x1, zn: 0x3e0, zm: 0xf0000, idx: 0x0, za: 0x0, zk: 0x0 }),
        172 => Some(Form { mask: 0xffe39c7e, val: 0xc1e10010, code: Code::SmeUmlallDHQV4Gg, shape: Sh::GroupGroup, acc: VA::Sd, src: VA::Sh, span: 4, vg: 4, ws: 0x6000, off: 0x1, zn: 0x380, zm: 0x1c0000, idx: 0x0, za: 0x0, zk: 0x0 }),
        173 => Some(Form { mask: 0xfff09878, val: 0xc1908010, code: Code::SmeUmlallDHQV4Gi, shape: Sh::GroupIdx, acc: VA::Sd, src: VA::Sh, span: 4, vg: 4, ws: 0x6000, off: 0x1, zn: 0x380, zm: 0xf0000, idx: 0x406, za: 0x0, zk: 0x0 }),
        174 => Some(Form { mask: 0xfff09c1e, val: 0xc1700010, code: Code::SmeUmlallDHQV4Gs, shape: Sh::GroupSingle, acc: VA::Sd, src: VA::Sh, span: 4, vg: 4, ws: 0x6000, off: 0x1, zn: 0x3e0, zm: 0xf0000, idx: 0x0, za: 0x0, zk: 0x0 }),
        175 => Some(Form { mask: 0xfff0001c, val: 0xc1000010, code: Code::SmeUmlallSBQSi, shape: Sh::SingleIdx, acc: VA::Ss, src: VA::Sb, span: 4, vg: 0, ws: 0x6000, off: 0x3, zn: 0x3e0, zm: 0xf0000, idx: 0x9c00, za: 0x0, zk: 0x0 }),
        176 => Some(Form { mask: 0xfff09c1c, val: 0xc1200410, code: Code::SmeUmlallSBQSs, shape: Sh::SingleSingle, acc: VA::Ss, src: VA::Sb, span: 4, vg: 0, ws: 0x6000, off: 0x3, zn: 0x3e0, zm: 0xf0000, idx: 0x0, za: 0x0, zk: 0x0 }),
        177 => Some(Form { mask: 0xffe19c3e, val: 0xc1a00010, code: Code::SmeUmlallSBQV2Gg, shape: Sh::GroupGroup, acc: VA::Ss, src: VA::Sb, span: 4, vg: 2, ws: 0x6000, off: 0x1, zn: 0x3c0, zm: 0x1e0000, idx: 0x0, za: 0x0, zk: 0x0 }),
        178 => Some(Form { mask: 0xfff09038, val: 0xc1100010, code: Code::SmeUmlallSBQV2Gi, shape: Sh::GroupIdx, acc: VA::Ss, src: VA::Sb, span: 4, vg: 2, ws: 0x6000, off: 0x1, zn: 0x3c0, zm: 0xf0000, idx: 0xc06, za: 0x0, zk: 0x0 }),
        179 => Some(Form { mask: 0xfff09c1e, val: 0xc1200010, code: Code::SmeUmlallSBQV2Gs, shape: Sh::GroupSingle, acc: VA::Ss, src: VA::Sb, span: 4, vg: 2, ws: 0x6000, off: 0x1, zn: 0x3e0, zm: 0xf0000, idx: 0x0, za: 0x0, zk: 0x0 }),
        180 => Some(Form { mask: 0xffe39c7e, val: 0xc1a10010, code: Code::SmeUmlallSBQV4Gg, shape: Sh::GroupGroup, acc: VA::Ss, src: VA::Sb, span: 4, vg: 4, ws: 0x6000, off: 0x1, zn: 0x380, zm: 0x1c0000, idx: 0x0, za: 0x0, zk: 0x0 }),
        181 => Some(Form { mask: 0xfff09078, val: 0xc1108010, code: Code::SmeUmlallSBQV4Gi, shape: Sh::GroupIdx, acc: VA::Ss, src: VA::Sb, span: 4, vg: 4, ws: 0x6000, off: 0x1, zn: 0x380, zm: 0xf0000, idx: 0xc06, za: 0x0, zk: 0x0 }),
        182 => Some(Form { mask: 0xfff09c1e, val: 0xc1300010, code: Code::SmeUmlallSBQV4Gs, shape: Sh::GroupSingle, acc: VA::Ss, src: VA::Sb, span: 4, vg: 4, ws: 0x6000, off: 0x1, zn: 0x3e0, zm: 0xf0000, idx: 0x0, za: 0x0, zk: 0x0 }),
        183 => Some(Form { mask: 0xfff01018, val: 0xc1c01018, code: Code::SmeUmlslSHTSi, shape: Sh::SingleIdx, acc: VA::Ss, src: VA::Sh, span: 2, vg: 0, ws: 0x6000, off: 0x7, zn: 0x3e0, zm: 0xf0000, idx: 0x8c00, za: 0x0, zk: 0x0 }),
        184 => Some(Form { mask: 0xfff09c18, val: 0xc1600c18, code: Code::SmeUmlslSHTSs, shape: Sh::SingleSingle, acc: VA::Ss, src: VA::Sh, span: 2, vg: 0, ws: 0x6000, off: 0x7, zn: 0x3e0, zm: 0xf0000, idx: 0x0, za: 0x0, zk: 0x0 }),
        185 => Some(Form { mask: 0xffe19c3c, val: 0xc1e00818, code: Code::SmeUmlslSHTV2Gg, shape: Sh::GroupGroup, acc: VA::Ss, src: VA::Sh, span: 2, vg: 2, ws: 0x6000, off: 0x3, zn: 0x3c0, zm: 0x1e0000, idx: 0x0, za: 0x0, zk: 0x0 }),
        186 => Some(Form { mask: 0xfff09038, val: 0xc1d01018, code: Code::SmeUmlslSHTV2Gi, shape: Sh::GroupIdx, acc: VA::Ss, src: VA::Sh, span: 2, vg: 2, ws: 0x6000, off: 0x3, zn: 0x3c0, zm: 0xf0000, idx: 0xc04, za: 0x0, zk: 0x0 }),
        187 => Some(Form { mask: 0xfff09c1c, val: 0xc1600818, code: Code::SmeUmlslSHTV2Gs, shape: Sh::GroupSingle, acc: VA::Ss, src: VA::Sh, span: 2, vg: 2, ws: 0x6000, off: 0x3, zn: 0x3e0, zm: 0xf0000, idx: 0x0, za: 0x0, zk: 0x0 }),
        188 => Some(Form { mask: 0xffe39c7c, val: 0xc1e10818, code: Code::SmeUmlslSHTV4Gg, shape: Sh::GroupGroup, acc: VA::Ss, src: VA::Sh, span: 2, vg: 4, ws: 0x6000, off: 0x3, zn: 0x380, zm: 0x1c0000, idx: 0x0, za: 0x0, zk: 0x0 }),
        189 => Some(Form { mask: 0xfff09078, val: 0xc1d09018, code: Code::SmeUmlslSHTV4Gi, shape: Sh::GroupIdx, acc: VA::Ss, src: VA::Sh, span: 2, vg: 4, ws: 0x6000, off: 0x3, zn: 0x380, zm: 0xf0000, idx: 0xc04, za: 0x0, zk: 0x0 }),
        190 => Some(Form { mask: 0xfff09c1c, val: 0xc1700818, code: Code::SmeUmlslSHTV4Gs, shape: Sh::GroupSingle, acc: VA::Ss, src: VA::Sh, span: 2, vg: 4, ws: 0x6000, off: 0x3, zn: 0x3e0, zm: 0xf0000, idx: 0x0, za: 0x0, zk: 0x0 }),
        191 => Some(Form { mask: 0xfff0101c, val: 0xc1800018, code: Code::SmeUmlsllDHQSi, shape: Sh::SingleIdx, acc: VA::Sd, src: VA::Sh, span: 4, vg: 0, ws: 0x6000, off: 0x3, zn: 0x3e0, zm: 0xf0000, idx: 0x8c00, za: 0x0, zk: 0x0 }),
        192 => Some(Form { mask: 0xfff09c1c, val: 0xc1600418, code: Code::SmeUmlsllDHQSs, shape: Sh::SingleSingle, acc: VA::Sd, src: VA::Sh, span: 4, vg: 0, ws: 0x6000, off: 0x3, zn: 0x3e0, zm: 0xf0000, idx: 0x0, za: 0x0, zk: 0x0 }),
        193 => Some(Form { mask: 0xffe19c3e, val: 0xc1e00018, code: Code::SmeUmlsllDHQV2Gg, shape: Sh::GroupGroup, acc: VA::Sd, src: VA::Sh, span: 4, vg: 2, ws: 0x6000, off: 0x1, zn: 0x3c0, zm: 0x1e0000, idx: 0x0, za: 0x0, zk: 0x0 }),
        194 => Some(Form { mask: 0xfff09838, val: 0xc1900018, code: Code::SmeUmlsllDHQV2Gi, shape: Sh::GroupIdx, acc: VA::Sd, src: VA::Sh, span: 4, vg: 2, ws: 0x6000, off: 0x1, zn: 0x3c0, zm: 0xf0000, idx: 0x406, za: 0x0, zk: 0x0 }),
        195 => Some(Form { mask: 0xfff09c1e, val: 0xc1600018, code: Code::SmeUmlsllDHQV2Gs, shape: Sh::GroupSingle, acc: VA::Sd, src: VA::Sh, span: 4, vg: 2, ws: 0x6000, off: 0x1, zn: 0x3e0, zm: 0xf0000, idx: 0x0, za: 0x0, zk: 0x0 }),
        196 => Some(Form { mask: 0xffe39c7e, val: 0xc1e10018, code: Code::SmeUmlsllDHQV4Gg, shape: Sh::GroupGroup, acc: VA::Sd, src: VA::Sh, span: 4, vg: 4, ws: 0x6000, off: 0x1, zn: 0x380, zm: 0x1c0000, idx: 0x0, za: 0x0, zk: 0x0 }),
        197 => Some(Form { mask: 0xfff09878, val: 0xc1908018, code: Code::SmeUmlsllDHQV4Gi, shape: Sh::GroupIdx, acc: VA::Sd, src: VA::Sh, span: 4, vg: 4, ws: 0x6000, off: 0x1, zn: 0x380, zm: 0xf0000, idx: 0x406, za: 0x0, zk: 0x0 }),
        198 => Some(Form { mask: 0xfff09c1e, val: 0xc1700018, code: Code::SmeUmlsllDHQV4Gs, shape: Sh::GroupSingle, acc: VA::Sd, src: VA::Sh, span: 4, vg: 4, ws: 0x6000, off: 0x1, zn: 0x3e0, zm: 0xf0000, idx: 0x0, za: 0x0, zk: 0x0 }),
        199 => Some(Form { mask: 0xfff0001c, val: 0xc1000018, code: Code::SmeUmlsllSBQSi, shape: Sh::SingleIdx, acc: VA::Ss, src: VA::Sb, span: 4, vg: 0, ws: 0x6000, off: 0x3, zn: 0x3e0, zm: 0xf0000, idx: 0x9c00, za: 0x0, zk: 0x0 }),
        200 => Some(Form { mask: 0xfff09c1c, val: 0xc1200418, code: Code::SmeUmlsllSBQSs, shape: Sh::SingleSingle, acc: VA::Ss, src: VA::Sb, span: 4, vg: 0, ws: 0x6000, off: 0x3, zn: 0x3e0, zm: 0xf0000, idx: 0x0, za: 0x0, zk: 0x0 }),
        201 => Some(Form { mask: 0xffe19c3e, val: 0xc1a00018, code: Code::SmeUmlsllSBQV2Gg, shape: Sh::GroupGroup, acc: VA::Ss, src: VA::Sb, span: 4, vg: 2, ws: 0x6000, off: 0x1, zn: 0x3c0, zm: 0x1e0000, idx: 0x0, za: 0x0, zk: 0x0 }),
        202 => Some(Form { mask: 0xfff09038, val: 0xc1100018, code: Code::SmeUmlsllSBQV2Gi, shape: Sh::GroupIdx, acc: VA::Ss, src: VA::Sb, span: 4, vg: 2, ws: 0x6000, off: 0x1, zn: 0x3c0, zm: 0xf0000, idx: 0xc06, za: 0x0, zk: 0x0 }),
        203 => Some(Form { mask: 0xfff09c1e, val: 0xc1200018, code: Code::SmeUmlsllSBQV2Gs, shape: Sh::GroupSingle, acc: VA::Ss, src: VA::Sb, span: 4, vg: 2, ws: 0x6000, off: 0x1, zn: 0x3e0, zm: 0xf0000, idx: 0x0, za: 0x0, zk: 0x0 }),
        204 => Some(Form { mask: 0xffe39c7e, val: 0xc1a10018, code: Code::SmeUmlsllSBQV4Gg, shape: Sh::GroupGroup, acc: VA::Ss, src: VA::Sb, span: 4, vg: 4, ws: 0x6000, off: 0x1, zn: 0x380, zm: 0x1c0000, idx: 0x0, za: 0x0, zk: 0x0 }),
        205 => Some(Form { mask: 0xfff09078, val: 0xc1108018, code: Code::SmeUmlsllSBQV4Gi, shape: Sh::GroupIdx, acc: VA::Ss, src: VA::Sb, span: 4, vg: 4, ws: 0x6000, off: 0x1, zn: 0x380, zm: 0xf0000, idx: 0xc06, za: 0x0, zk: 0x0 }),
        206 => Some(Form { mask: 0xfff09c1e, val: 0xc1300018, code: Code::SmeUmlsllSBQV4Gs, shape: Sh::GroupSingle, acc: VA::Ss, src: VA::Sb, span: 4, vg: 4, ws: 0x6000, off: 0x1, zn: 0x3e0, zm: 0xf0000, idx: 0x0, za: 0x0, zk: 0x0 }),
        207 => Some(Form { mask: 0xfff0001c, val: 0xc1000004, code: Code::SmeUsmlallSBQSi, shape: Sh::SingleIdx, acc: VA::Ss, src: VA::Sb, span: 4, vg: 0, ws: 0x6000, off: 0x3, zn: 0x3e0, zm: 0xf0000, idx: 0x9c00, za: 0x0, zk: 0x0 }),
        208 => Some(Form { mask: 0xfff09c1c, val: 0xc1200404, code: Code::SmeUsmlallSBQSs, shape: Sh::SingleSingle, acc: VA::Ss, src: VA::Sb, span: 4, vg: 0, ws: 0x6000, off: 0x3, zn: 0x3e0, zm: 0xf0000, idx: 0x0, za: 0x0, zk: 0x0 }),
        209 => Some(Form { mask: 0xffe19c3e, val: 0xc1a00004, code: Code::SmeUsmlallSBQV2Gg, shape: Sh::GroupGroup, acc: VA::Ss, src: VA::Sb, span: 4, vg: 2, ws: 0x6000, off: 0x1, zn: 0x3c0, zm: 0x1e0000, idx: 0x0, za: 0x0, zk: 0x0 }),
        210 => Some(Form { mask: 0xfff09038, val: 0xc1100020, code: Code::SmeUsmlallSBQV2Gi, shape: Sh::GroupIdx, acc: VA::Ss, src: VA::Sb, span: 4, vg: 2, ws: 0x6000, off: 0x1, zn: 0x3c0, zm: 0xf0000, idx: 0xc06, za: 0x0, zk: 0x0 }),
        211 => Some(Form { mask: 0xfff09c1e, val: 0xc1200004, code: Code::SmeUsmlallSBQV2Gs, shape: Sh::GroupSingle, acc: VA::Ss, src: VA::Sb, span: 4, vg: 2, ws: 0x6000, off: 0x1, zn: 0x3e0, zm: 0xf0000, idx: 0x0, za: 0x0, zk: 0x0 }),
        212 => Some(Form { mask: 0xffe39c7e, val: 0xc1a10004, code: Code::SmeUsmlallSBQV4Gg, shape: Sh::GroupGroup, acc: VA::Ss, src: VA::Sb, span: 4, vg: 4, ws: 0x6000, off: 0x1, zn: 0x380, zm: 0x1c0000, idx: 0x0, za: 0x0, zk: 0x0 }),
        213 => Some(Form { mask: 0xfff09078, val: 0xc1108020, code: Code::SmeUsmlallSBQV4Gi, shape: Sh::GroupIdx, acc: VA::Ss, src: VA::Sb, span: 4, vg: 4, ws: 0x6000, off: 0x1, zn: 0x380, zm: 0xf0000, idx: 0xc06, za: 0x0, zk: 0x0 }),
        214 => Some(Form { mask: 0xfff09c1e, val: 0xc1300004, code: Code::SmeUsmlallSBQV4Gs, shape: Sh::GroupSingle, acc: VA::Ss, src: VA::Sb, span: 4, vg: 4, ws: 0x6000, off: 0x1, zn: 0x3e0, zm: 0xf0000, idx: 0x0, za: 0x0, zk: 0x0 }),
        215 => Some(Form { mask: 0xffe0e00c, val: 0x81408000, code: Code::SmeUstmopaSB, shape: Sh::Tmopa, acc: VA::Ss, src: VA::Sb, span: 0, vg: 0, ws: 0x0, off: 0x0, zn: 0x3c0, zm: 0x1f0000, idx: 0x30, za: 0x3, zk: 0x1c00 }),
        216 => Some(Form { mask: 0xffe0e00c, val: 0x81608000, code: Code::SmeUtmopaSB, shape: Sh::Tmopa, acc: VA::Ss, src: VA::Sb, span: 0, vg: 0, ws: 0x0, off: 0x0, zn: 0x3c0, zm: 0x1f0000, idx: 0x30, za: 0x3, zk: 0x1c00 }),
        217 => Some(Form { mask: 0xffe0e00c, val: 0x81408008, code: Code::SmeUtmopaSH, shape: Sh::Tmopa, acc: VA::Ss, src: VA::Sh, span: 0, vg: 0, ws: 0x0, off: 0x0, zn: 0x3c0, zm: 0x1f0000, idx: 0x30, za: 0x3, zk: 0x1c00 }),
        218 => Some(Form { mask: 0xffe19c38, val: 0xc1e01810, code: Code::SmeAddDDV2Gg, shape: Sh::GroupGroup, acc: VA::Sd, src: VA::Sd, span: 1, vg: 2, ws: 0x6000, off: 0x7, zn: 0x3c0, zm: 0x1e0000, idx: 0x0, za: 0x0, zk: 0x0 }),
        219 => Some(Form { mask: 0xffff9c38, val: 0xc1e01c10, code: Code::SmeAddDDV2Go, shape: Sh::GroupOnly, acc: VA::Sd, src: VA::Sd, span: 1, vg: 2, ws: 0x6000, off: 0x7, zn: 0x3c0, zm: 0x0, idx: 0x0, za: 0x0, zk: 0x0 }),
        220 => Some(Form { mask: 0xfff09c18, val: 0xc1601810, code: Code::SmeAddDDV2Gs, shape: Sh::GroupSingle, acc: VA::Sd, src: VA::Sd, span: 1, vg: 2, ws: 0x6000, off: 0x7, zn: 0x3e0, zm: 0xf0000, idx: 0x0, za: 0x0, zk: 0x0 }),
        221 => Some(Form { mask: 0xffe39c78, val: 0xc1e11810, code: Code::SmeAddDDV4Gg, shape: Sh::GroupGroup, acc: VA::Sd, src: VA::Sd, span: 1, vg: 4, ws: 0x6000, off: 0x7, zn: 0x380, zm: 0x1c0000, idx: 0x0, za: 0x0, zk: 0x0 }),
        222 => Some(Form { mask: 0xffff9c78, val: 0xc1e11c10, code: Code::SmeAddDDV4Go, shape: Sh::GroupOnly, acc: VA::Sd, src: VA::Sd, span: 1, vg: 4, ws: 0x6000, off: 0x7, zn: 0x380, zm: 0x0, idx: 0x0, za: 0x0, zk: 0x0 }),
        223 => Some(Form { mask: 0xfff09c18, val: 0xc1701810, code: Code::SmeAddDDV4Gs, shape: Sh::GroupSingle, acc: VA::Sd, src: VA::Sd, span: 1, vg: 4, ws: 0x6000, off: 0x7, zn: 0x3e0, zm: 0xf0000, idx: 0x0, za: 0x0, zk: 0x0 }),
        224 => Some(Form { mask: 0xffe19c38, val: 0xc1a01810, code: Code::SmeAddSSV2Gg, shape: Sh::GroupGroup, acc: VA::Ss, src: VA::Ss, span: 1, vg: 2, ws: 0x6000, off: 0x7, zn: 0x3c0, zm: 0x1e0000, idx: 0x0, za: 0x0, zk: 0x0 }),
        225 => Some(Form { mask: 0xffff9c38, val: 0xc1a01c10, code: Code::SmeAddSSV2Go, shape: Sh::GroupOnly, acc: VA::Ss, src: VA::Ss, span: 1, vg: 2, ws: 0x6000, off: 0x7, zn: 0x3c0, zm: 0x0, idx: 0x0, za: 0x0, zk: 0x0 }),
        226 => Some(Form { mask: 0xfff09c18, val: 0xc1201810, code: Code::SmeAddSSV2Gs, shape: Sh::GroupSingle, acc: VA::Ss, src: VA::Ss, span: 1, vg: 2, ws: 0x6000, off: 0x7, zn: 0x3e0, zm: 0xf0000, idx: 0x0, za: 0x0, zk: 0x0 }),
        227 => Some(Form { mask: 0xffe39c78, val: 0xc1a11810, code: Code::SmeAddSSV4Gg, shape: Sh::GroupGroup, acc: VA::Ss, src: VA::Ss, span: 1, vg: 4, ws: 0x6000, off: 0x7, zn: 0x380, zm: 0x1c0000, idx: 0x0, za: 0x0, zk: 0x0 }),
        228 => Some(Form { mask: 0xffff9c78, val: 0xc1a11c10, code: Code::SmeAddSSV4Go, shape: Sh::GroupOnly, acc: VA::Ss, src: VA::Ss, span: 1, vg: 4, ws: 0x6000, off: 0x7, zn: 0x380, zm: 0x0, idx: 0x0, za: 0x0, zk: 0x0 }),
        229 => Some(Form { mask: 0xfff09c18, val: 0xc1301810, code: Code::SmeAddSSV4Gs, shape: Sh::GroupSingle, acc: VA::Ss, src: VA::Ss, span: 1, vg: 4, ws: 0x6000, off: 0x7, zn: 0x3e0, zm: 0xf0000, idx: 0x0, za: 0x0, zk: 0x0 }),
        230 => Some(Form { mask: 0xffe19c38, val: 0xc1a01010, code: Code::SmeBfdotSHV2Gg, shape: Sh::GroupGroup, acc: VA::Ss, src: VA::Sh, span: 1, vg: 2, ws: 0x6000, off: 0x7, zn: 0x3c0, zm: 0x1e0000, idx: 0x0, za: 0x0, zk: 0x0 }),
        231 => Some(Form { mask: 0xfff09038, val: 0xc1501018, code: Code::SmeBfdotSHV2Gi, shape: Sh::GroupIdx, acc: VA::Ss, src: VA::Sh, span: 1, vg: 2, ws: 0x6000, off: 0x7, zn: 0x3c0, zm: 0xf0000, idx: 0xc00, za: 0x0, zk: 0x0 }),
        232 => Some(Form { mask: 0xfff09c18, val: 0xc1201010, code: Code::SmeBfdotSHV2Gs, shape: Sh::GroupSingle, acc: VA::Ss, src: VA::Sh, span: 1, vg: 2, ws: 0x6000, off: 0x7, zn: 0x3e0, zm: 0xf0000, idx: 0x0, za: 0x0, zk: 0x0 }),
        233 => Some(Form { mask: 0xffe39c78, val: 0xc1a11010, code: Code::SmeBfdotSHV4Gg, shape: Sh::GroupGroup, acc: VA::Ss, src: VA::Sh, span: 1, vg: 4, ws: 0x6000, off: 0x7, zn: 0x380, zm: 0x1c0000, idx: 0x0, za: 0x0, zk: 0x0 }),
        234 => Some(Form { mask: 0xfff09078, val: 0xc1509018, code: Code::SmeBfdotSHV4Gi, shape: Sh::GroupIdx, acc: VA::Ss, src: VA::Sh, span: 1, vg: 4, ws: 0x6000, off: 0x7, zn: 0x380, zm: 0xf0000, idx: 0xc00, za: 0x0, zk: 0x0 }),
        235 => Some(Form { mask: 0xfff09c18, val: 0xc1301010, code: Code::SmeBfdotSHV4Gs, shape: Sh::GroupSingle, acc: VA::Ss, src: VA::Sh, span: 1, vg: 4, ws: 0x6000, off: 0x7, zn: 0x3e0, zm: 0xf0000, idx: 0x0, za: 0x0, zk: 0x0 }),
        236 => Some(Form { mask: 0xfff09038, val: 0xc1500018, code: Code::SmeBfvdotSHV2Gi, shape: Sh::GroupIdx, acc: VA::Ss, src: VA::Sh, span: 1, vg: 2, ws: 0x6000, off: 0x7, zn: 0x3c0, zm: 0xf0000, idx: 0xc00, za: 0x0, zk: 0x0 }),
        237 => Some(Form { mask: 0xffff9c38, val: 0xc1e01c00, code: Code::SmeFaddDDV2Go, shape: Sh::GroupOnly, acc: VA::Sd, src: VA::Sd, span: 1, vg: 2, ws: 0x6000, off: 0x7, zn: 0x3c0, zm: 0x0, idx: 0x0, za: 0x0, zk: 0x0 }),
        238 => Some(Form { mask: 0xffff9c78, val: 0xc1e11c00, code: Code::SmeFaddDDV4Go, shape: Sh::GroupOnly, acc: VA::Sd, src: VA::Sd, span: 1, vg: 4, ws: 0x6000, off: 0x7, zn: 0x380, zm: 0x0, idx: 0x0, za: 0x0, zk: 0x0 }),
        239 => Some(Form { mask: 0xffff9c38, val: 0xc1a41c00, code: Code::SmeFaddHHV2Go, shape: Sh::GroupOnly, acc: VA::Sh, src: VA::Sh, span: 1, vg: 2, ws: 0x6000, off: 0x7, zn: 0x3c0, zm: 0x0, idx: 0x0, za: 0x0, zk: 0x0 }),
        _ => sme2_form_2(i),
    }
}

/// Rows 240 onwards of [`sme2_form`].
fn sme2_form_2(i: usize) -> (r: Option<Form>)
    requires
        i >= 240,
    ensures
        r == sme2_row_2(i),
        r matches Some(f) ==> f.code != Code::Invalid,
        (r is Some) == (i < 341),
{
    match i {
        240 => Some(Form { mask: 0xffff9c78, val: 0xc1a51c00, code: Code::SmeFaddHHV4Go, shape: Sh::GroupOnly, acc: VA::Sh, src: VA::Sh, span: 1, vg: 4, ws: 0x6000, off: 0x7, zn: 0x380, zm: 0x0, idx: 0x0, za: 0x0, zk: 0x0 }),
        241 => Some(Form { mask: 0xffff9c38, val: 0xc1a01c00, code: Code::SmeFaddSSV2Go, shape: Sh::GroupOnly, acc: VA::Ss, src: VA::Ss, span: 1, vg: 2, ws: 0x6000, off: 0x7, zn: 0x3c0, zm: 0x0, idx: 0x0, za: 0x0, zk: 0x0 }),
        242 => Some(Form { mask: 0xffff9c78, val: 0xc1a11c00, code: Code::SmeFaddSSV4Go, shape: Sh::GroupOnly, acc: VA::Ss, src: VA::Ss, span: 1, vg: 4, ws: 0x6000, off: 0x7, zn: 0x380, zm: 0x0, idx: 0x0, za: 0x0, zk: 0x0 }),
        243 => Some(Form { mask: 0xffe19c38, val: 0xc1a01020, code: Code::SmeFdotHBV2Gg, shape: Sh::GroupGroup, acc: VA::Sh, src: VA::Sb, span: 1, vg: 2, ws: 0x6000, off: 0x7, zn: 0x3c0, zm: 0x1e0000, idx: 0x0, za: 0x0, zk: 0x0 }),
        244 => Some(Form { mask: 0xfff09030, val: 0xc1d00020, code: Code::SmeFdotHBV2Gi, shape: Sh::GroupIdx, acc: VA::Sh, src: VA::Sb, span: 1, vg: 2, ws: 0x6000, off: 0x7, zn: 0x3c0, zm: 0xf0000, idx: 0xc08, za: 0x0, zk: 0x0 }),
        245 => Some(Form { mask: 0xfff09c18, val: 0xc1201008, code: Code::SmeFdotHBV2Gs, shape: Sh::GroupSingle, acc: VA::Sh, src: VA::Sb, span: 1, vg: 2, ws: 0x6000, off: 0x7, zn: 0x3e0, zm: 0xf0000, idx: 0x0, za: 0x0, zk: 0x0 }),
        246 => Some(Form { mask: 0xffe39c78, val: 0xc1a11020, code: Code::SmeFdotHBV4Gg, shape: Sh::GroupGroup, acc: VA::Sh, src: VA::Sb, span: 1, vg: 4, ws: 0x6000, off: 0x7, zn: 0x380, zm: 0x1c0000, idx: 0x0, za: 0x0, zk: 0x0 }),
        247 => Some(Form { mask: 0xfff09070, val: 0xc1109040, code: Code::SmeFdotHBV4Gi, shape: Sh::GroupIdx, acc: VA::Sh, src: VA::Sb, span: 1, vg: 4, ws: 0x6000, off: 0x7, zn: 0x380, zm: 0xf0000, idx: 0xc08, za: 0x0, zk: 0x0 }),
        248 => Some(Form { mask: 0xfff09c18, val: 0xc1301008, code: Code::SmeFdotHBV4Gs, shape: Sh::GroupSingle, acc: VA::Sh, src: VA::Sb, span: 1, vg: 4, ws: 0x6000, off: 0x7, zn: 0x3e0, zm: 0xf0000, idx: 0x0, za: 0x0, zk: 0x0 }),
        249 => Some(Form { mask: 0xffe19c38, val: 0xc1a01000, code: Code::SmeFdotSHV2Gg, shape: Sh::GroupGroup, acc: VA::Ss, src: VA::Sh, span: 1, vg: 2, ws: 0x6000, off: 0x7, zn: 0x3c0, zm: 0x1e0000, idx: 0x0, za: 0x0, zk: 0x0 }),
        250 => Some(Form { mask: 0xfff09038, val: 0xc1501008, code: Code::SmeFdotSHV2Gi, shape: Sh::GroupIdx, acc: VA::Ss, src: VA::Sh, span: 1, vg: 2, ws: 0x6000, off: 0x7, zn: 0x3c0, zm: 0xf0000, idx: 0xc00, za: 0x0, zk: 0x0 }),
        251 => Some(Form { mask: 0xfff09c18, val: 0xc1201000, code: Code::SmeFdotSHV2Gs, shape: Sh::GroupSingle, acc: VA::Ss, src: VA::Sh, span: 1, vg: 2, ws: 0x6000, off: 0x7, zn: 0x3e0, zm: 0xf0000, idx: 0x0, za: 0x0, zk: 0x0 }),
        252 => Some(Form { mask: 0xffe39c78, val: 0xc1a11000, code: Code::SmeFdotSHV4Gg, shape: Sh::GroupGroup, acc: VA::Ss, src: VA::Sh, span: 1, vg: 4, ws: 0x6000, off: 0x7, zn: 0x380, zm: 0x1c0000, idx: 0x0, za: 0x0, zk: 0x0 }),
        253 => Some(Form { mask: 0xfff09078, val: 0xc1509008, code: Code::SmeFdotSHV4Gi, shape: Sh::GroupIdx, acc: VA::Ss, src: VA::Sh, span: 1, vg: 4, ws: 0x6000, off: 0x7, zn: 0x380, zm: 0xf0000, idx: 0xc00, za: 0x0, zk: 0x0 }),
        254 => Some(Form { mask: 0xfff09c18, val: 0xc1301000, code: Code::SmeFdotSHV4Gs, shape: Sh::GroupSingle, acc: VA::Ss, src: VA::Sh, span: 1, vg: 4, ws: 0x6000, off: 0x7, zn: 0x3e0, zm: 0xf0000, idx: 0x0, za: 0x0, zk: 0x0 }),
        255 => Some(Form { mask: 0xffff9c38, val: 0xc1e01c08, code: Code::SmeFsubDDV2Go, shape: Sh::GroupOnly, acc: VA::Sd, src: VA::Sd, span: 1, vg: 2, ws: 0x6000, off: 0x7, zn: 0x3c0, zm: 0x0, idx: 0x0, za: 0x0, zk: 0x0 }),
        256 => Some(Form { mask: 0xffff9c78, val: 0xc1e11c08, code: Code::SmeFsubDDV4Go, shape: Sh::GroupOnly, acc: VA::Sd, src: VA::Sd, span: 1, vg: 4, ws: 0x6000, off: 0x7, zn: 0x380, zm: 0x0, idx: 0x0, za: 0x0, zk: 0x0 }),
        257 => Some(Form { mask: 0xffff9c38, val: 0xc1a41c08, code: Code::SmeFsubHHV2Go, shape: Sh::GroupOnly, acc: VA::Sh, src: VA::Sh, span: 1, vg: 2, ws: 0x6000, off: 0x7, zn: 0x3c0, zm: 0x0, idx: 0x0, za: 0x0, zk: 0x0 }),
        258 => Some(Form { mask: 0xffff9c78, val: 0xc1a51c08, code: Code::SmeFsubHHV4Go, shape: Sh::GroupOnly, acc: VA::Sh, src: VA::Sh, span: 1, vg: 4, ws: 0x6000, off: 0x7, zn: 0x380, zm: 0x0, idx: 0x0, za: 0x0, zk: 0x0 }),
        259 => Some(Form { mask: 0xffff9c38, val: 0xc1e41c00, code: Code::SmeBfaddV2Go, shape: Sh::GroupOnly, acc: VA::Sh, src: VA::Sh, span: 1, vg: 2, ws: 0x6000, off: 0x7, zn: 0x3c0, zm: 0x0, idx: 0x0, za: 0x0, zk: 0x0 }),
        260 => Some(Form { mask: 0xffff9c78, val: 0xc1e51c00, code: Code::SmeBfaddV4Go, shape: Sh::GroupOnly, acc: VA::Sh, src: VA::Sh, span: 1, vg: 4, ws: 0x6000, off: 0x7, zn: 0x380, zm: 0x0, idx: 0x0, za: 0x0, zk: 0x0 }),
        261 => Some(Form { mask: 0xffff9c38, val: 0xc1e41c08, code: Code::SmeBfsubV2Go, shape: Sh::GroupOnly, acc: VA::Sh, src: VA::Sh, span: 1, vg: 2, ws: 0x6000, off: 0x7, zn: 0x3c0, zm: 0x0, idx: 0x0, za: 0x0, zk: 0x0 }),
        262 => Some(Form { mask: 0xffff9c78, val: 0xc1e51c08, code: Code::SmeBfsubV4Go, shape: Sh::GroupOnly, acc: VA::Sh, src: VA::Sh, span: 1, vg: 4, ws: 0x6000, off: 0x7, zn: 0x380, zm: 0x0, idx: 0x0, za: 0x0, zk: 0x0 }),
        263 => Some(Form { mask: 0xffff9c38, val: 0xc1a01c08, code: Code::SmeFsubSSV2Go, shape: Sh::GroupOnly, acc: VA::Ss, src: VA::Ss, span: 1, vg: 2, ws: 0x6000, off: 0x7, zn: 0x3c0, zm: 0x0, idx: 0x0, za: 0x0, zk: 0x0 }),
        264 => Some(Form { mask: 0xffff9c78, val: 0xc1a11c08, code: Code::SmeFsubSSV4Go, shape: Sh::GroupOnly, acc: VA::Ss, src: VA::Ss, span: 1, vg: 4, ws: 0x6000, off: 0x7, zn: 0x380, zm: 0x0, idx: 0x0, za: 0x0, zk: 0x0 }),
        265 => Some(Form { mask: 0xfff09038, val: 0xc1500008, code: Code::SmeFvdotSHV2Gi, shape: Sh::GroupIdx, acc: VA::Ss, src: VA::Sh, span: 1, vg: 2, ws: 0x6000, off: 0x7, zn: 0x3c0, zm: 0xf0000, idx: 0xc00, za: 0x0, zk: 0x0 }),
        266 => Some(Form { mask: 0xfff09830, val: 0xc1d00800, code: Code::SmeFvdotbSBV4GiB, shape: Sh::GroupIdxB, acc: VA::Ss, src: VA::Sb, span: 1, vg: 4, ws: 0x6000, off: 0x7, zn: 0x3c0, zm: 0xf0000, idx: 0x408, za: 0x0, zk: 0x0 }),
        267 => Some(Form { mask: 0xfff09830, val: 0xc1d00810, code: Code::SmeFvdottSBV4GiB, shape: Sh::GroupIdxB, acc: VA::Ss, src: VA::Sb, span: 1, vg: 4, ws: 0x6000, off: 0x7, zn: 0x3c0, zm: 0xf0000, idx: 0x408, za: 0x0, zk: 0x0 }),
        268 => Some(Form { mask: 0xffe19c38, val: 0xc1e01400, code: Code::SmeSdotDHV2Gg, shape: Sh::GroupGroup, acc: VA::Sd, src: VA::Sh, span: 1, vg: 2, ws: 0x6000, off: 0x7, zn: 0x3c0, zm: 0x1e0000, idx: 0x0, za: 0x0, zk: 0x0 }),
        269 => Some(Form { mask: 0xfff09838, val: 0xc1d00008, code: Code::SmeSdotDHV2Gi, shape: Sh::GroupIdx, acc: VA::Sd, src: VA::Sh, span: 1, vg: 2, ws: 0x6000, off: 0x7, zn: 0x3c0, zm: 0xf0000, idx: 0x400, za: 0x0, zk: 0x0 }),
        270 => Some(Form { mask: 0xfff09c18, val: 0xc1601400, code: Code::SmeSdotDHV2Gs, shape: Sh::GroupSingle, acc: VA::Sd, src: VA::Sh, span: 1, vg: 2, ws: 0x6000, off: 0x7, zn: 0x3e0, zm: 0xf0000, idx: 0x0, za: 0x0, zk: 0x0 }),
        271 => Some(Form { mask: 0xffe39c78, val: 0xc1e11400, code: Code::SmeSdotDHV4Gg, shape: Sh::GroupGroup, acc: VA::Sd, src: VA::Sh, span: 1, vg: 4, ws: 0x6000, off: 0x7, zn: 0x380, zm: 0x1c0000, idx: 0x0, za: 0x0, zk: 0x0 }),
        272 => Some(Form { mask: 0xfff09878, val: 0xc1d08008, code: Code::SmeSdotDHV4Gi, shape: Sh::GroupIdx, acc: VA::Sd, src: VA::Sh, span: 1, vg: 4, ws: 0x6000, off: 0x7, zn: 0x380, zm: 0xf0000, idx: 0x400, za: 0x0, zk: 0x0 }),
        273 => Some(Form { mask: 0xfff09c18, val: 0xc1701400, code: Code::SmeSdotDHV4Gs, shape: Sh::GroupSingle, acc: VA::Sd, src: VA::Sh, span: 1, vg: 4, ws: 0x6000, off: 0x7, zn: 0x3e0, zm: 0xf0000, idx: 0x0, za: 0x0, zk: 0x0 }),
        274 => Some(Form { mask: 0xffe19c38, val: 0xc1a01400, code: Code::SmeSdotSBV2Gg, shape: Sh::GroupGroup, acc: VA::Ss, src: VA::Sb, span: 1, vg: 2, ws: 0x6000, off: 0x7, zn: 0x3c0, zm: 0x1e0000, idx: 0x0, za: 0x0, zk: 0x0 }),
        275 => Some(Form { mask: 0xfff09038, val: 0xc1501020, code: Code::SmeSdotSBV2Gi, shape: Sh::GroupIdx, acc: VA::Ss, src: VA::Sb, span: 1, vg: 2, ws: 0x6000, off: 0x7, zn: 0x3c0, zm: 0xf0000, idx: 0xc00, za: 0x0, zk: 0x0 }),
        276 => Some(Form { mask: 0xfff09c18, val: 0xc1201400, code: Code::SmeSdotSBV2Gs, shape: Sh::GroupSingle, acc: VA::Ss, src: VA::Sb, span: 1, vg: 2, ws: 0x6000, off: 0x7, zn: 0x3e0, zm: 0xf0000, idx: 0x0, za: 0x0, zk: 0x0 }),
        277 => Some(Form { mask: 0xffe39c78, val: 0xc1a11400, code: Code::SmeSdotSBV4Gg, shape: Sh::GroupGroup, acc: VA::Ss, src: VA::Sb, span: 1, vg: 4, ws: 0x6000, off: 0x7, zn: 0x380, zm: 0x1c0000, idx: 0x0, za: 0x0, zk: 0x0 }),
        278 => Some(Form { mask: 0xfff09078, val: 0xc1509020, code: Code::SmeSdotSBV4Gi, shape: Sh::GroupIdx, acc: VA::Ss, src: VA::Sb, span: 1, vg: 4, ws: 0x6000, off: 0x7, zn: 0x380, zm: 0xf0000, idx: 0xc00, za: 0x0, zk: 0x0 }),
        279 => Some(Form { mask: 0xfff09c18, val: 0xc1301400, code: Code::SmeSdotSBV4Gs, shape: Sh::GroupSingle, acc: VA::Ss, src: VA::Sb, span: 1, vg: 4, ws: 0x6000, off: 0x7, zn: 0x3e0, zm: 0xf0000, idx: 0x0, za: 0x0, zk: 0x0 }),
        280 => Some(Form { mask: 0xffe19c38, val: 0xc1e01408, code: Code::SmeSdotSHV2Gg, shape: Sh::GroupGroup, acc: VA::Ss, src: VA::Sh, span: 1, vg: 2, ws: 0x6000, off: 0x7, zn: 0x3c0, zm: 0x1e0000, idx: 0x0, za: 0x0, zk: 0x0 }),
        281 => Some(Form { mask: 0xfff09038, val: 0xc1501000, code: Code::SmeSdotSHV2Gi, shape: Sh::GroupIdx, acc: VA::Ss, src: VA::Sh, span: 1, vg: 2, ws: 0x6000, off: 0x7, zn: 0x3c0, zm: 0xf0000, idx: 0xc00, za: 0x0, zk: 0x0 }),
        282 => Some(Form { mask: 0xfff09c18, val: 0xc1601408, code: Code::SmeSdotSHV2Gs, shape: Sh::GroupSingle, acc: VA::Ss, src: VA::Sh, span: 1, vg: 2, ws: 0x6000, off: 0x7, zn: 0x3e0, zm: 0xf0000, idx: 0x0, za: 0x0, zk: 0x0 }),
        283 => Some(Form { mask: 0xffe39c78, val: 0xc1e11408, code: Code::SmeSdotSHV4Gg, shape: Sh::GroupGroup, acc: VA::Ss, src: VA::Sh, span: 1, vg: 4, ws: 0x6000, off: 0x7, zn: 0x380, zm: 0x1c0000, idx: 0x0, za: 0x0, zk: 0x0 }),
        284 => Some(Form { mask: 0xfff09078, val: 0xc1509000, code: Code::SmeSdotSHV4Gi, shape: Sh::GroupIdx, acc: VA::Ss, src: VA::Sh, span: 1, vg: 4, ws: 0x6000, off: 0x7, zn: 0x380, zm: 0xf0000, idx: 0xc00, za: 0x0, zk: 0x0 }),
        285 => Some(Form { mask: 0xfff09c18, val: 0xc1701408, code: Code::SmeSdotSHV4Gs, shape: Sh::GroupSingle, acc: VA::Ss, src: VA::Sh, span: 1, vg: 4, ws: 0x6000, off: 0x7, zn: 0x3e0, zm: 0xf0000, idx: 0x0, za: 0x0, zk: 0x0 }),
        286 => Some(Form { mask: 0xffe19c38, val: 0xc1e01818, code: Code::SmeSubDDV2Gg, shape: Sh::GroupGroup, acc: VA::Sd, src: VA::Sd, span: 1, vg: 2, ws: 0x6000, off: 0x7, zn: 0x3c0, zm: 0x1e0000, idx: 0x0, za: 0x0, zk: 0x0 }),
        287 => Some(Form { mask: 0xffff9c38, val: 0xc1e01c18, code: Code::SmeSubDDV2Go, shape: Sh::GroupOnly, acc: VA::Sd, src: VA::Sd, span: 1, vg: 2, ws: 0x6000, off: 0x7, zn: 0x3c0, zm: 0x0, idx: 0x0, za: 0x0, zk: 0x0 }),
        288 => Some(Form { mask: 0xfff09c18, val: 0xc1601818, code: Code::SmeSubDDV2Gs, shape: Sh::GroupSingle, acc: VA::Sd, src: VA::Sd, span: 1, vg: 2, ws: 0x6000, off: 0x7, zn: 0x3e0, zm: 0xf0000, idx: 0x0, za: 0x0, zk: 0x0 }),
        289 => Some(Form { mask: 0xffe39c78, val: 0xc1e11818, code: Code::SmeSubDDV4Gg, shape: Sh::GroupGroup, acc: VA::Sd, src: VA::Sd, span: 1, vg: 4, ws: 0x6000, off: 0x7, zn: 0x380, zm: 0x1c0000, idx: 0x0, za: 0x0, zk: 0x0 }),
        290 => Some(Form { mask: 0xffff9c78, val: 0xc1e11c18, code: Code::SmeSubDDV4Go, shape: Sh::GroupOnly, acc: VA::Sd, src: VA::Sd, span: 1, vg: 4, ws: 0x6000, off: 0x7, zn: 0x380, zm: 0x0, idx: 0x0, za: 0x0, zk: 0x0 }),
        291 => Some(Form { mask: 0xfff09c18, val: 0xc1701818, code: Code::SmeSubDDV4Gs, shape: Sh::GroupSingle, acc: VA::Sd, src: VA::Sd, span: 1, vg: 4, ws: 0x6000, off: 0x7, zn: 0x3e0, zm: 0xf0000, idx: 0x0, za: 0x0, zk: 0x0 }),
        292 => Some(Form { mask: 0xffe19c38, val: 0xc1a01818, code: Code::SmeSubSSV2Gg, shape: Sh::GroupGroup, acc: VA::Ss, src: VA::Ss, span: 1, vg: 2, ws: 0x6000, off: 0x7, zn: 0x3c0, zm: 0x1e0000, idx: 0x0, za: 0x0, zk: 0x0 }),
        293 => Some(Form { mask: 0xffff9c38, val: 0xc1a01c18, code: Code::SmeSubSSV2Go, shape: Sh::GroupOnly, acc: VA::Ss, src: VA::Ss, span: 1, vg: 2, ws: 0x6000, off: 0x7, zn: 0x3c0, zm: 0x0, idx: 0x0, za: 0x0, zk: 0x0 }),
        294 => Some(Form { mask: 0xfff09c18, val: 0xc1201818, code: Code::SmeSubSSV2Gs, shape: Sh::GroupSingle, acc: VA::Ss, src: VA::Ss, span: 1, vg: 2, ws: 0x6000, off: 0x7, zn: 0x3e0, zm: 0xf0000, idx: 0x0, za: 0x0, zk: 0x0 }),
        295 => Some(Form { mask: 0xffe39c78, val: 0xc1a11818, code: Code::SmeSubSSV4Gg, shape: Sh::GroupGroup, acc: VA::Ss, src: VA::Ss, span: 1, vg: 4, ws: 0x6000, off: 0x7, zn: 0x380, zm: 0x1c0000, idx: 0x0, za: 0x0, zk: 0x0 }),
        296 => Some(Form { mask: 0xffff9c78, val: 0xc1a11c18, code: Code::SmeSubSSV4Go, shape: Sh::GroupOnly, acc: VA::Ss, src: VA::Ss, span: 1, vg: 4, ws: 0x6000, off: 0x7, zn: 0x380, zm: 0x0, idx: 0x0, za: 0x0, zk: 0x0 }),
        297 => Some(Form { mask: 0xfff09c18, val: 0xc1301818, code: Code::SmeSubSSV4Gs, shape: Sh::GroupSingle, acc: VA::Ss, src: VA::Ss, span: 1, vg: 4, ws: 0x6000, off: 0x7, zn: 0x3e0, zm: 0xf0000, idx: 0x0, za: 0x0, zk: 0x0 }),
        298 => Some(Form { mask: 0xfff09038, val: 0xc1501038, code: Code::SmeSudotSBV2Gi, shape: Sh::GroupIdx, acc: VA::Ss, src: VA::Sb, span: 1, vg: 2, ws: 0x6000, off: 0x7, zn: 0x3c0, zm: 0xf0000, idx: 0xc00, za: 0x0, zk: 0x0 }),
        299 => Some(Form { mask: 0xfff09c18, val: 0xc1201418, code: Code::SmeSudotSBV2Gs, shape: Sh::GroupSingle, acc: VA::Ss, src: VA::Sb, span: 1, vg: 2, ws: 0x6000, off: 0x7, zn: 0x3e0, zm: 0xf0000, idx: 0x0, za: 0x0, zk: 0x0 }),
        300 => Some(Form { mask: 0xfff09078, val: 0xc1509038, code: Code::SmeSudotSBV4Gi, shape: Sh::GroupIdx, acc: VA::Ss, src: VA::Sb, span: 1, vg: 4, ws: 0x6000, off: 0x7, zn: 0x380, zm: 0xf0000, idx: 0xc00, za: 0x0, zk: 0x0 }),
        301 => Some(Form { mask: 0xfff09c18, val: 0xc1301418, code: Code::SmeSudotSBV4Gs, shape: Sh::GroupSingle, acc: VA::Ss, src: VA::Sb, span: 1, vg: 4, ws: 0x6000, off: 0x7, zn: 0x3e0, zm: 0xf0000, idx: 0x0, za: 0x0, zk: 0x0 }),
        302 => Some(Form { mask: 0xfff09078, val: 0xc1508038, code: Code::SmeSuvdotSBV4Gi, shape: Sh::GroupIdx, acc: VA::Ss, src: VA::Sb, span: 1, vg: 4, ws: 0x6000, off: 0x7, zn: 0x380, zm: 0xf0000, idx: 0xc00, za: 0x0, zk: 0x0 }),
        303 => Some(Form { mask: 0xfff09878, val: 0xc1d08808, code: Code::SmeSvdotDHV4Gi, shape: Sh::GroupIdx, acc: VA::Sd, src: VA::Sh, span: 1, vg: 4, ws: 0x6000, off: 0x7, zn: 0x380, zm: 0xf0000, idx: 0x400, za: 0x0, zk: 0x0 }),
        304 => Some(Form { mask: 0xfff09038, val: 0xc1500020, code: Code::SmeSvdotSHV2Gi, shape: Sh::GroupIdx, acc: VA::Ss, src: VA::Sh, span: 1, vg: 2, ws: 0x6000, off: 0x7, zn: 0x3c0, zm: 0xf0000, idx: 0xc00, za: 0x0, zk: 0x0 }),
        305 => Some(Form { mask: 0xffe19c38, val: 0xc1e01410, code: Code::SmeUdotDHV2Gg, shape: Sh::GroupGroup, acc: VA::Sd, src: VA::Sh, span: 1, vg: 2, ws: 0x6000, off: 0x7, zn: 0x3c0, zm: 0x1e0000, idx: 0x0, za: 0x0, zk: 0x0 }),
        306 => Some(Form { mask: 0xfff09838, val: 0xc1d00018, code: Code::SmeUdotDHV2Gi, shape: Sh::GroupIdx, acc: VA::Sd, src: VA::Sh, span: 1, vg: 2, ws: 0x6000, off: 0x7, zn: 0x3c0, zm: 0xf0000, idx: 0x400, za: 0x0, zk: 0x0 }),
        307 => Some(Form { mask: 0xfff09c18, val: 0xc1601410, code: Code::SmeUdotDHV2Gs, shape: Sh::GroupSingle, acc: VA::Sd, src: VA::Sh, span: 1, vg: 2, ws: 0x6000, off: 0x7, zn: 0x3e0, zm: 0xf0000, idx: 0x0, za: 0x0, zk: 0x0 }),
        308 => Some(Form { mask: 0xffe39c78, val: 0xc1e11410, code: Code::SmeUdotDHV4Gg, shape: Sh::GroupGroup, acc: VA::Sd, src: VA::Sh, span: 1, vg: 4, ws: 0x6000, off: 0x7, zn: 0x380, zm: 0x1c0000, idx: 0x0, za: 0x0, zk: 0x0 }),
        309 => Some(Form { mask: 0xfff09878, val: 0xc1d08018, code: Code::SmeUdotDHV4Gi, shape: Sh::GroupIdx, acc: VA::Sd, src: VA::Sh, span: 1, vg: 4, ws: 0x6000, off: 0x7, zn: 0x380, zm: 0xf0000, idx: 0x400, za: 0x0, zk: 0x0 }),
        310 => Some(Form { mask: 0xfff09c18, val: 0xc1701410, code: Code::SmeUdotDHV4Gs, shape: Sh::GroupSingle, acc: VA::Sd, src: VA::Sh, span: 1, vg: 4, ws: 0x6000, off: 0x7, zn: 0x3e0, zm: 0xf0000, idx: 0x0, za: 0x0, zk: 0x0 }),
        311 => Some(Form { mask: 0xffe19c38, val: 0xc1a01410, code: Code::SmeUdotSBV2Gg, shape: Sh::GroupGroup, acc: VA::Ss, src: VA::Sb, span: 1, vg: 2, ws: 0x6000, off: 0x7, zn: 0x3c0, zm: 0x1e0000, idx: 0x0, za: 0x0, zk: 0x0 }),
        312 => Some(Form { mask: 0xfff09038, val: 0xc1501030, code: Code::SmeUdotSBV2Gi, shape: Sh::GroupIdx, acc: VA::Ss, src: VA::Sb, span: 1, vg: 2, ws: 0x6000, off: 0x7, zn: 0x3c0, zm: 0xf0000, idx: 0xc00, za: 0x0, zk: 0x0 }),
        313 => Some(Form { mask: 0xfff09c18, val: 0xc1201410, code: Code::SmeUdotSBV2Gs, shape: Sh::GroupSingle, acc: VA::Ss, src: VA::Sb, span: 1, vg: 2, ws: 0x6000, off: 0x7, zn: 0x3e0, zm: 0xf0000, idx: 0x0, za: 0x0, zk: 0x0 }),
        314 => Some(Form { mask: 0xffe39c78, val: 0xc1a11410, code: Code::SmeUdotSBV4Gg, shape: Sh::GroupGroup, acc: VA::Ss, src: VA::Sb, span: 1, vg: 4, ws: 0x6000, off: 0x7, zn: 0x380, zm: 0x1c0000, idx: 0x0, za: 0x0, zk: 0x0 }),
        315 => Some(Form { mask: 0xfff09078, val: 0xc1509030, code: Code::SmeUdotSBV4Gi, shape: Sh::GroupIdx, acc: VA::Ss, src: VA::Sb, span: 1, vg: 4, ws: 0x6000, off: 0x7, zn: 0x380, zm: 0xf0000, idx: 0xc00, za: 0x0, zk: 0x0 }),
        316 => Some(Form { mask: 0xfff09c18, val: 0xc1301410, code: Code::SmeUdotSBV4Gs, shape: Sh::GroupSingle, acc: VA::Ss, src: VA::Sb, span: 1, vg: 4, ws: 0x6000, off: 0x7, zn: 0x3e0, zm: 0xf0000, idx: 0x0, za: 0x0, zk: 0x0 }),
        317 => Some(Form { mask: 0xffe19c38, val: 0xc1e01418, code: Code::SmeUdotSHV2Gg, shape: Sh::GroupGroup, acc: VA::Ss, src: VA::Sh, span: 1, vg: 2, ws: 0x6000, off: 0x7, zn: 0x3c0, zm: 0x1e0000, idx: 0x0, za: 0x0, zk: 0x0 }),
        318 => Some(Form { mask: 0xfff09038, val: 0xc1501010, code: Code::SmeUdotSHV2Gi, shape: Sh::GroupIdx, acc: VA::Ss, src: VA::Sh, span: 1, vg: 2, ws: 0x6000, off: 0x7, zn: 0x3c0, zm: 0xf0000, idx: 0xc00, za: 0x0, zk: 0x0 }),
        319 => Some(Form { mask: 0xfff09c18, val: 0xc1601418, code: Code::SmeUdotSHV2Gs, shape: Sh::GroupSingle, acc: VA::Ss, src: VA::Sh, span: 1, vg: 2, ws: 0x6000, off: 0x7, zn: 0x3e0, zm: 0xf0000, idx: 0x0, za: 0x0, zk: 0x0 }),
        320 => Some(Form { mask: 0xffe39c78, val: 0xc1e11418, code: Code::SmeUdotSHV4Gg, shape: Sh::GroupGroup, acc: VA::Ss, src: VA::Sh, span: 1, vg: 4, ws: 0x6000, off: 0x7, zn: 0x380, zm: 0x1c0000, idx: 0x0, za: 0x0, zk: 0x0 }),
        321 => Some(Form { mask: 0xfff09078, val: 0xc1509010, code: Code::SmeUdotSHV4Gi, shape: Sh::GroupIdx, acc: VA::Ss, src: VA::Sh, span: 1, vg: 4, ws: 0x6000, off: 0x7, zn: 0x380, zm: 0xf0000, idx: 0xc00, za: 0x0, zk: 0x0 }),
        322 => Some(Form { mask: 0xfff09c18, val: 0xc1701418, code: Code::SmeUdotSHV4Gs, shape: Sh::GroupSingle, acc: VA::Ss, src: VA::Sh, span: 1, vg: 4, ws: 0x6000, off: 0x7, zn: 0x3e0, zm: 0xf0000, idx: 0x0, za: 0x0, zk: 0x0 }),
        323 => Some(Form { mask: 0xffe19c38, val: 0xc1a01408, code: Code::SmeUsdotSBV2Gg, shape: Sh::GroupGroup, acc: VA::Ss, src: VA::Sb, span: 1, vg: 2, ws: 0x6000, off: 0x7, zn: 0x3c0, zm: 0x1e0000, idx: 0x0, za: 0x0, zk: 0x0 }),
        324 => Some(Form { mask: 0xfff09038, val: 0xc1501028, code: Code::SmeUsdotSBV2Gi, shape: Sh::GroupIdx, acc: VA::Ss, src: VA::Sb, span: 1, vg: 2, ws: 0x6000, off: 0x7, zn: 0x3c0, zm: 0xf0000, idx: 0xc00, za: 0x0, zk: 0x0 }),
        325 => Some(Form { mask: 0xfff09c18, val: 0xc1201408, code: Code::SmeUsdotSBV2Gs, shape: Sh::GroupSingle, acc: VA::Ss, src: VA::Sb, span: 1, vg: 2, ws: 0x6000, off: 0x7, zn: 0x3e0, zm: 0xf0000, idx: 0x0, za: 0x0, zk: 0x0 }),
        326 => Some(Form { mask: 0xffe39c78, val: 0xc1a11408, code: Code::SmeUsdotSBV4Gg, shape: Sh::GroupGroup, acc: VA::Ss, src: VA::Sb, span: 1, vg: 4, ws: 0x6000, off: 0x7, zn: 0x380, zm: 0x1c0000, idx: 0x0, za: 0x0, zk: 0x0 }),
        327 => Some(Form { mask: 0xfff09078, val: 0xc1509028, code: Code::SmeUsdotSBV4Gi, shape: Sh::GroupIdx, acc: VA::Ss, src: VA::Sb, span: 1, vg: 4, ws: 0x6000, off: 0x7, zn: 0x380, zm: 0xf0000, idx: 0xc00, za: 0x0, zk: 0x0 }),
        328 => Some(Form { mask: 0xfff09c18, val: 0xc1301408, code: Code::SmeUsdotSBV4Gs, shape: Sh::GroupSingle, acc: VA::Ss, src: VA::Sb, span: 1, vg: 4, ws: 0x6000, off: 0x7, zn: 0x3e0, zm: 0xf0000, idx: 0x0, za: 0x0, zk: 0x0 }),
        329 => Some(Form { mask: 0xfff09078, val: 0xc1508028, code: Code::SmeUsvdotSBV4Gi, shape: Sh::GroupIdx, acc: VA::Ss, src: VA::Sb, span: 1, vg: 4, ws: 0x6000, off: 0x7, zn: 0x380, zm: 0xf0000, idx: 0xc00, za: 0x0, zk: 0x0 }),
        330 => Some(Form { mask: 0xfff09878, val: 0xc1d08818, code: Code::SmeUvdotDHV4Gi, shape: Sh::GroupIdx, acc: VA::Sd, src: VA::Sh, span: 1, vg: 4, ws: 0x6000, off: 0x7, zn: 0x380, zm: 0xf0000, idx: 0x400, za: 0x0, zk: 0x0 }),
        331 => Some(Form { mask: 0xfff09038, val: 0xc1500030, code: Code::SmeUvdotSHV2Gi, shape: Sh::GroupIdx, acc: VA::Ss, src: VA::Sh, span: 1, vg: 2, ws: 0x6000, off: 0x7, zn: 0x3c0, zm: 0xf0000, idx: 0xc00, za: 0x0, zk: 0x0 }),
        332 => Some(Form { mask: 0xffe19c38, val: 0xc1a01030, code: Code::SmeFdotSBV2Gg, shape: Sh::GroupGroup, acc: VA::Ss, src: VA::Sb, span: 1, vg: 2, ws: 0x6000, off: 0x7, zn: 0x3c0, zm: 0x1e0000, idx: 0x0, za: 0x0, zk: 0x0 }),
        333 => Some(Form { mask: 0xfff09038, val: 0xc1500038, code: Code::SmeFdotSBV2Gi, shape: Sh::GroupIdx, acc: VA::Ss, src: VA::Sb, span: 1, vg: 2, ws: 0x6000, off: 0x7, zn: 0x3c0, zm: 0xf0000, idx: 0xc00, za: 0x0, zk: 0x0 }),
        334 => Some(Form { mask: 0xfff09c18, val: 0xc1201018, code: Code::SmeFdotSBV2Gs, shape: Sh::GroupSingle, acc: VA::Ss, src: VA::Sb, span: 1, vg: 2, ws: 0x6000, off: 0x7, zn: 0x3e0, zm: 0xf0000, idx: 0x0, za: 0x0, zk: 0x0 }),
        335 => Some(Form { mask: 0xffe39c78, val: 0xc1a11030, code: Code::SmeFdotSBV4Gg, shape: Sh::GroupGroup, acc: VA::Ss, src: VA::Sb, span: 1, vg: 4, ws: 0x6000, off: 0x7, zn: 0x380, zm: 0x1c0000, idx: 0x0, za: 0x0, zk: 0x0 }),
        336 => Some(Form { mask: 0xfff09078, val: 0xc1508008, code: Code::SmeFdotSBV4Gi, shape: Sh::GroupIdx, acc: VA::Ss, src: VA::Sb, span: 1, vg: 4, ws: 0x6000, off: 0x7, zn: 0x380, zm: 0xf0000, idx: 0xc00, za: 0x0, zk: 0x0 }),
        337 => Some(Form { mask: 0xfff09c18, val: 0xc1301018, code: Code::SmeFdotSBV4Gs, shape: Sh::GroupSingle, acc: VA::Ss, src: VA::Sb, span: 1, vg: 4, ws: 0x6000, off: 0x7, zn: 0x3e0, zm: 0xf0000, idx: 0x0, za: 0x0, zk: 0x0 }),
        338 => Some(Form { mask: 0xfff09030, val: 0xc1d01020, code: Code::SmeFvdotHBV2Gi, shape: Sh::GroupIdx, acc: VA::Sh, src: VA::Sb, span: 1, vg: 2, ws: 0x6000, off: 0x7, zn: 0x3c0, zm: 0xf0000, idx: 0xc08, za: 0x0, zk: 0x0 }),
        339 => Some(Form { mask: 0xfff09078, val: 0xc1508020, code: Code::SmeSvdotSBV4Gi, shape: Sh::GroupIdx, acc: VA::Ss, src: VA::Sb, span: 1, vg: 4, ws: 0x6000, off: 0x7, zn: 0x380, zm: 0xf0000, idx: 0xc00, za: 0x0, zk: 0x0 }),
        340 => Some(Form { mask: 0xfff09078, val: 0xc1508030, code: Code::SmeUvdotSBV4Gi, shape: Sh::GroupIdx, acc: VA::Ss, src: VA::Sb, span: 1, vg: 4, ws: 0x6000, off: 0x7, zn: 0x380, zm: 0xf0000, idx: 0xc00, za: 0x0, zk: 0x0 }),
        _ => None,
    }
}

/// Row `i` of the SME2 multi-vector ALU encoding table, or `None` past its
/// end. The rows' `(mask, val)` keys are disjoint, and disjoint from those of
/// [`sme2_form`]: the floating-point clamp and multiply rows take the size
/// fields `01` / `11` (one row) and `10` (another), leaving `00` to their
/// BFloat16 rows.
pub fn alu_form(i: usize) -> (r: Option<AluForm>)
    ensures
        r == alu_row(i),
        r matches Some(f) ==> f.code != Code::Invalid,
        (r is Some) == (i < 36),
{
    match i {
        0 => Some(AluForm { mask: 0xff21e021, val: 0xc1208000, code: Code::SmeSelMV2, shape: AluSh::SelGroup, arr: AluArr::Bhsd, vg: 2, zd: 0x1e, pn: 0x1c00, zn: 0x3c0, zm: 0x1e0000 }),
        1 => Some(AluForm { mask: 0xff23e063, val: 0xc1218000, code: Code::SmeSelMV4, shape: AluSh::SelGroup, arr: AluArr::Bhsd, vg: 4, zd: 0x1c, pn: 0x1c00, zn: 0x380, zm: 0x1c0000 }),
        2 => Some(AluForm { mask: 0xff20fc01, val: 0xc120c400, code: Code::SmeSclampMV2, shape: AluSh::TwoSingle, arr: AluArr::Bhsd, vg: 2, zd: 0x1e, pn: 0x0, zn: 0x3e0, zm: 0x1f0000 }),
        3 => Some(AluForm { mask: 0xff20fc01, val: 0xc120c401, code: Code::SmeUclampMV2, shape: AluSh::TwoSingle, arr: AluArr::Bhsd, vg: 2, zd: 0x1e, pn: 0x0, zn: 0x3e0, zm: 0x1f0000 }),
        4 => Some(AluForm { mask: 0xff20fc03, val: 0xc120cc00, code: Code::SmeSclampMV4, shape: AluSh::TwoSingle, arr: AluArr::Bhsd, vg: 4, zd: 0x1c, pn: 0x0, zn: 0x3e0, zm: 0x1f0000 }),
        5 => Some(AluForm { mask: 0xff20fc03, val: 0xc120cc01, code: Code::SmeUclampMV4, shape: AluSh::TwoSingle, arr: AluArr::Bhsd, vg: 4, zd: 0x1c, pn: 0x0, zn: 0x3e0, zm: 0x1f0000 }),
        6 => Some(AluForm { mask: 0xffe0fc01, val: 0xc120c000, code: Code::SmeBfclampMV2, shape: AluSh::TwoSingle, arr: AluArr::BfH, vg: 2, zd: 0x1e, pn: 0x0, zn: 0x3e0, zm: 0x1f0000 }),
        7 => Some(AluForm { mask: 0xffe0fc03, val: 0xc120c800, code: Code::SmeBfclampMV4, shape: AluSh::TwoSingle, arr: AluArr::BfH, vg: 4, zd: 0x1c, pn: 0x0, zn: 0x3e0, zm: 0x1f0000 }),
        8 => Some(AluForm { mask: 0xff60fc01, val: 0xc160c000, code: Code::SmeFclampMV2, shape: AluSh::TwoSingle, arr: AluArr::Fp, vg: 2, zd: 0x1e, pn: 0x0, zn: 0x3e0, zm: 0x1f0000 }),
        9 => Some(AluForm { mask: 0xffe0fc01, val: 0xc1a0c000, code: Code::SmeFclampMV2, shape: AluSh::TwoSingle, arr: AluArr::Fp, vg: 2, zd: 0x1e, pn: 0x0, zn: 0x3e0, zm: 0x1f0000 }),
        10 => Some(AluForm { mask: 0xff60fc03, val: 0xc160c800, code: Code::SmeFclampMV4, shape: AluSh::TwoSingle, arr: AluArr::Fp, vg: 4, zd: 0x1c, pn: 0x0, zn: 0x3e0, zm: 0x1f0000 }),
        11 => Some(AluForm { mask: 0xffe0fc03, val: 0xc1a0c800, code: Code::SmeFclampMV4, shape: AluSh::TwoSingle, arr: AluArr::Fp, vg: 4, zd: 0x1c, pn: 0x0, zn: 0x3e0, zm: 0x1f0000 }),
        12 => Some(AluForm { mask: 0xff20f801, val: 0xc120d000, code: Code::SmeZipMV2, shape: AluSh::TwoSingle, arr: AluArr::Zip2, vg: 2, zd: 0x1e, pn: 0x0, zn: 0x3e0, zm: 0x1f0000 }),
        13 => Some(AluForm { mask: 0xff20f801, val: 0xc120d001, code: Code::SmeUzpMV2, shape: AluSh::TwoSingle, arr: AluArr::Zip2, vg: 2, zd: 0x1e, pn: 0x0, zn: 0x3e0, zm: 0x1f0000 }),
        14 => Some(AluForm { mask: 0xff3efc63, val: 0xc136e000, code: Code::SmeZipMV4, shape: AluSh::ZipGroup, arr: AluArr::Zip4, vg: 4, zd: 0x1c, pn: 0x0, zn: 0x380, zm: 0x0 }),
        15 => Some(AluForm { mask: 0xff3efc63, val: 0xc136e002, code: Code::SmeUzpMV4, shape: AluSh::ZipGroup, arr: AluArr::Zip4, vg: 4, zd: 0x1c, pn: 0x0, zn: 0x380, zm: 0x0 }),
        16 => Some(AluForm { mask: 0xffe1fc21, val: 0xc120e400, code: Code::SmeBfmulMV2, shape: AluSh::GroupGroup3, arr: AluArr::BfH, vg: 2, zd: 0x1e, pn: 0x0, zn: 0x3c0, zm: 0x1e0000 }),
        17 => Some(AluForm { mask: 0xffe3fc63, val: 0xc121e400, code: Code::SmeBfmulMV4, shape: AluSh::GroupGroup3, arr: AluArr::BfH, vg: 4, zd: 0x1c, pn: 0x0, zn: 0x380, zm: 0x1c0000 }),
        18 => Some(AluForm { mask: 0xffe1fc21, val: 0xc120e800, code: Code::SmeBfmulMVS2, shape: AluSh::GroupGroupSingle, arr: AluArr::BfH, vg: 2, zd: 0x1e, pn: 0x0, zn: 0x3c0, zm: 0x1e0000 }),
        19 => Some(AluForm { mask: 0xffe1fc63, val: 0xc121e800, code: Code::SmeBfmulMVS4, shape: AluSh::GroupGroupSingle, arr: AluArr::BfH, vg: 4, zd: 0x1c, pn: 0x0, zn: 0x380, zm: 0x1e0000 }),
        20 => Some(AluForm { mask: 0xff61fc21, val: 0xc160e400, code: Code::SmeFmulMV2, shape: AluSh::GroupGroup3, arr: AluArr::Fp, vg: 2, zd: 0x1e, pn: 0x0, zn: 0x3c0, zm: 0x1e0000 }),
        21 => Some(AluForm { mask: 0xffe1fc21, val: 0xc1a0e400, code: Code::SmeFmulMV2, shape: AluSh::GroupGroup3, arr: AluArr::Fp, vg: 2, zd: 0x1e, pn: 0x0, zn: 0x3c0, zm: 0x1e0000 }),
        22 => Some(AluForm { mask: 0xff63fc63, val: 0xc161e400, code: Code::SmeFmulMV4, shape: AluSh::GroupGroup3, arr: AluArr::Fp, vg: 4, zd: 0x1c, pn: 0x0, zn: 0x380, zm: 0x1c0000 }),
        23 => Some(AluForm { mask: 0xffe3fc63, val: 0xc1a1e400, code: Code::SmeFmulMV4, shape: AluSh::GroupGroup3, arr: AluArr::Fp, vg: 4, zd: 0x1c, pn: 0x0, zn: 0x380, zm: 0x1c0000 }),
        24 => Some(AluForm { mask: 0xff21ffe1, val: 0xc120b100, code: Code::SmeFmaxMV2,   shape: AluSh::GroupGroup3, arr: AluArr::Fp, vg: 2, zd: 0x1e, pn: 0x0, zn: 0x1e, zm: 0x1e0000 }),
        25 => Some(AluForm { mask: 0xff21ffe1, val: 0xc120b101, code: Code::SmeFminMV2,   shape: AluSh::GroupGroup3, arr: AluArr::Fp, vg: 2, zd: 0x1e, pn: 0x0, zn: 0x1e, zm: 0x1e0000 }),
        26 => Some(AluForm { mask: 0xff21ffe1, val: 0xc120b120, code: Code::SmeFmaxnmMV2, shape: AluSh::GroupGroup3, arr: AluArr::Fp, vg: 2, zd: 0x1e, pn: 0x0, zn: 0x1e, zm: 0x1e0000 }),
        27 => Some(AluForm { mask: 0xff21ffe1, val: 0xc120b121, code: Code::SmeFminnmMV2, shape: AluSh::GroupGroup3, arr: AluArr::Fp, vg: 2, zd: 0x1e, pn: 0x0, zn: 0x1e, zm: 0x1e0000 }),
        28 => Some(AluForm { mask: 0xff23ffe3, val: 0xc120b900, code: Code::SmeFmaxMV4,   shape: AluSh::GroupGroup3, arr: AluArr::Fp, vg: 4, zd: 0x1c, pn: 0x0, zn: 0x1c, zm: 0x1c0000 }),
        29 => Some(AluForm { mask: 0xff23ffe3, val: 0xc120b901, code: Code::SmeFminMV4,   shape: AluSh::GroupGroup3, arr: AluArr::Fp, vg: 4, zd: 0x1c, pn: 0x0, zn: 0x1c, zm: 0x1c0000 }),
        30 => Some(AluForm { mask: 0xff23ffe3, val: 0xc120b920, code: Code::SmeFmaxnmMV4, shape: AluSh::GroupGroup3, arr: AluArr::Fp, vg: 4, zd: 0x1c, pn: 0x0, zn: 0x1c, zm: 0x1c0000 }),
        31 => Some(AluForm { mask: 0xff23ffe3, val: 0xc120b921, code: Code::SmeFminnmMV4, shape: AluSh::GroupGroup3, arr: AluArr::Fp, vg: 4, zd: 0x1c, pn: 0x0, zn: 0x1c, zm: 0x1c0000 }),
        32 => Some(AluForm { mask: 0xff61fc21, val: 0xc160e800, code: Code::SmeFmulMVS2, shape: AluSh::GroupGroupSingle, arr: AluArr::Fp, vg: 2, zd: 0x1e, pn: 0x0, zn: 0x3c0, zm: 0x1e0000 }),
        33 => Some(AluForm { mask: 0xffe1fc21, val: 0xc1a0e800, code: Code::SmeFmulMVS2, shape: AluSh::GroupGroupSingle, arr: AluArr::Fp, vg: 2, zd: 0x1e, pn: 0x0, zn: 0x3c0, zm: 0x1e0000 }),
        34 => Some(AluForm { mask: 0xff61fc63, val: 0xc161e800, code: Code::SmeFmulMVS4, shape: AluSh::GroupGroupSingle, arr: AluArr::Fp, vg: 4, zd: 0x1c, pn: 0x0, zn: 0x380, zm: 0x1e0000 }),
        35 => Some(AluForm { mask: 0xffe1fc63, val: 0xc1a1e800, code: Code::SmeFmulMVS4, shape: AluSh::GroupGroupSingle, arr: AluArr::Fp, vg: 4, zd: 0x1c, pn: 0x0, zn: 0x380, zm: 0x1e0000 }),
        _ => None,
    }
}
/// Row `i` of the SME2 multiply-into-ZA / `*TMOPA` encoding table, or `None`
/// past its end.
pub open spec fn sme2_row(i: usize) -> Option<Form> {
    match i {
        0 => Some(Form { mask: 0xffe19c38, val: 0xc1e01008, code: Code::SmeBfmlaHHOV2Gg, shape: Sh::GroupGroup, acc: VA::Sh, src: VA::Sh, span: 1, vg: 2, ws: 0x6000, off: 0x7, zn: 0x3c0, zm: 0x1e0000, idx: 0x0, za: 0x0, zk: 0x0 }),
        1 => Some(Form { mask: 0xfff09030, val: 0xc1101020, code: Code::SmeBfmlaHHOV2Gi, shape: Sh::GroupIdx, acc: VA::Sh, src: VA::Sh, span: 1, vg: 2, ws: 0x6000, off: 0x7, zn: 0x3c0, zm: 0xf0000, idx: 0xc08, za: 0x0, zk: 0x0 }),
        2 => Some(Form { mask: 0xfff09c18, val: 0xc1601c00, code: Code::SmeBfmlaHHOV2Gs, shape: Sh::GroupSingle, acc: VA::Sh, src: VA::Sh, span: 1, vg: 2, ws: 0x6000, off: 0x7, zn: 0x3e0, zm: 0xf0000, idx: 0x0, za: 0x0, zk: 0x0 }),
        3 => Some(Form { mask: 0xffe39c78, val: 0xc1e11008, code: Code::SmeBfmlaHHOV4Gg, shape: Sh::GroupGroup, acc: VA::Sh, src: VA::Sh, span: 1, vg: 4, ws: 0x6000, off: 0x7, zn: 0x380, zm: 0x1c0000, idx: 0x0, za: 0x0, zk: 0x0 }),
        4 => Some(Form { mask: 0xfff09070, val: 0xc1109020, code: Code::SmeBfmlaHHOV4Gi, shape: Sh::GroupIdx, acc: VA::Sh, src: VA::Sh, span: 1, vg: 4, ws: 0x6000, off: 0x7, zn: 0x380, zm: 0xf0000, idx: 0xc08, za: 0x0, zk: 0x0 }),
        5 => Some(Form { mask: 0xfff09c18, val: 0xc1701c00, code: Code::SmeBfmlaHHOV4Gs, shape: Sh::GroupSingle, acc: VA::Sh, src: VA::Sh, span: 1, vg: 4, ws: 0x6000, off: 0x7, zn: 0x3e0, zm: 0xf0000, idx: 0x0, za: 0x0, zk: 0x0 }),
        6 => Some(Form { mask: 0xfff01018, val: 0xc1801010, code: Code::SmeBfmlalSHTSi, shape: Sh::SingleIdx, acc: VA::Ss, src: VA::Sh, span: 2, vg: 0, ws: 0x6000, off: 0x7, zn: 0x3e0, zm: 0xf0000, idx: 0x8c00, za: 0x0, zk: 0x0 }),
        7 => Some(Form { mask: 0xfff09c18, val: 0xc1200c10, code: Code::SmeBfmlalSHTSs, shape: Sh::SingleSingle, acc: VA::Ss, src: VA::Sh, span: 2, vg: 0, ws: 0x6000, off: 0x7, zn: 0x3e0, zm: 0xf0000, idx: 0x0, za: 0x0, zk: 0x0 }),
        8 => Some(Form { mask: 0xffe19c3c, val: 0xc1a00810, code: Code::SmeBfmlalSHTV2Gg, shape: Sh::GroupGroup, acc: VA::Ss, src: VA::Sh, span: 2, vg: 2, ws: 0x6000, off: 0x3, zn: 0x3c0, zm: 0x1e0000, idx: 0x0, za: 0x0, zk: 0x0 }),
        9 => Some(Form { mask: 0xfff09038, val: 0xc1901010, code: Code::SmeBfmlalSHTV2Gi, shape: Sh::GroupIdx, acc: VA::Ss, src: VA::Sh, span: 2, vg: 2, ws: 0x6000, off: 0x3, zn: 0x3c0, zm: 0xf0000, idx: 0xc04, za: 0x0, zk: 0x0 }),
        10 => Some(Form { mask: 0xfff09c1c, val: 0xc1200810, code: Code::SmeBfmlalSHTV2Gs, shape: Sh::GroupSingle, acc: VA::Ss, src: VA::Sh, span: 2, vg: 2, ws: 0x6000, off: 0x3, zn: 0x3e0, zm: 0xf0000, idx: 0x0, za: 0x0, zk: 0x0 }),
        11 => Some(Form { mask: 0xffe39c7c, val: 0xc1a10810, code: Code::SmeBfmlalSHTV4Gg, shape: Sh::GroupGroup, acc: VA::Ss, src: VA::Sh, span: 2, vg: 4, ws: 0x6000, off: 0x3, zn: 0x380, zm: 0x1c0000, idx: 0x0, za: 0x0, zk: 0x0 }),
        12 => Some(Form { mask: 0xfff09078, val: 0xc1909010, code: Code::SmeBfmlalSHTV4Gi, shape: Sh::GroupIdx, acc: VA::Ss, src: VA::Sh, span: 2, vg: 4, ws: 0x6000, off: 0x3, zn: 0x380, zm: 0xf0000, idx: 0xc04, za: 0x0, zk: 0x0 }),
        13 => Some(Form { mask: 0xfff09c1c, val: 0xc1300810, code: Code::SmeBfmlalSHTV4Gs, shape: Sh::GroupSingle, acc: VA::Ss, src: VA::Sh, span: 2, vg: 4, ws: 0x6000, off: 0x3, zn: 0x3e0, zm: 0xf0000, idx: 0x0, za: 0x0, zk: 0x0 }),
        14 => Some(Form { mask: 0xffe19c38, val: 0xc1e01018, code: Code::SmeBfmlsHHOV2Gg, shape: Sh::GroupGroup, acc: VA::Sh, src: VA::Sh, span: 1, vg: 2, ws: 0x6000, off: 0x7, zn: 0x3c0, zm: 0x1e0000, idx: 0x0, za: 0x0, zk: 0x0 }),
        15 => Some(Form { mask: 0xfff09030, val: 0xc1101030, code: Code::SmeBfmlsHHOV2Gi, shape: Sh::GroupIdx, acc: VA::Sh, src: VA::Sh, span: 1, vg: 2, ws: 0x6000, off: 0x7, zn: 0x3c0, zm: 0xf0000, idx: 0xc08, za: 0x0, zk: 0x0 }),
        16 => Some(Form { mask: 0xfff09c18, val: 0xc1601c08, code: Code::SmeBfmlsHHOV2Gs, shape: Sh::GroupSingle, acc: VA::Sh, src: VA::Sh, span: 1, vg: 2, ws: 0x6000, off: 0x7, zn: 0x3e0, zm: 0xf0000, idx: 0x0, za: 0x0, zk: 0x0 }),
        17 => Some(Form { mask: 0xffe39c78, val: 0xc1e11018, code: Code::SmeBfmlsHHOV4Gg, shape: Sh::GroupGroup, acc: VA::Sh, src: VA::Sh, span: 1, vg: 4, ws: 0x6000, off: 0x7, zn: 0x380, zm: 0x1c0000, idx: 0x0, za: 0x0, zk: 0x0 }),
        18 => Some(Form { mask: 0xfff09070, val: 0xc1109030, code: Code::SmeBfmlsHHOV4Gi, shape: Sh::GroupIdx, acc: VA::Sh, src: VA::Sh, span: 1, vg: 4, ws: 0x6000, off: 0x7, zn: 0x380, zm: 0xf0000, idx: 0xc08, za: 0x0, zk: 0x0 }),
        19 => Some(Form { mask: 0xfff09c18, val: 0xc1701c08, code: Code::SmeBfmlsHHOV4Gs, shape: Sh::GroupSingle, acc: VA::Sh, src: VA::Sh, span: 1, vg: 4, ws: 0x6000, off: 0x7, zn: 0x3e0, zm: 0xf0000, idx: 0x0, za: 0x0, zk: 0x0 }),
        20 => Some(Form { mask: 0xfff01018, val: 0xc1801018, code: Code::SmeBfmlslSHTSi, shape: Sh::SingleIdx, acc: VA::Ss, src: VA::Sh, span: 2, vg: 0, ws: 0x6000, off: 0x7, zn: 0x3e0, zm: 0xf0000, idx: 0x8c00, za: 0x0, zk: 0x0 }),
        21 => Some(Form { mask: 0xfff09c18, val: 0xc1200c18, code: Code::SmeBfmlslSHTSs, shape: Sh::SingleSingle, acc: VA::Ss, src: VA::Sh, span: 2, vg: 0, ws: 0x6000, off: 0x7, zn: 0x3e0, zm: 0xf0000, idx: 0x0, za: 0x0, zk: 0x0 }),
        22 => Some(Form { mask: 0xffe19c3c, val: 0xc1a00818, code: Code::SmeBfmlslSHTV2Gg, shape: Sh::GroupGroup, acc: VA::Ss, src: VA::Sh, span: 2, vg: 2, ws: 0x6000, off: 0x3, zn: 0x3c0, zm: 0x1e0000, idx: 0x0, za: 0x0, zk: 0x0 }),
        23 => Some(Form { mask: 0xfff09038, val: 0xc1901018, code: Code::SmeBfmlslSHTV2Gi, shape: Sh::GroupIdx, acc: VA::Ss, src: VA::Sh, span: 2, vg: 2, ws: 0x6000, off: 0x3, zn: 0x3c0, zm: 0xf0000, idx: 0xc04, za: 0x0, zk: 0x0 }),
        24 => Some(Form { mask: 0xfff09c1c, val: 0xc1200818, code: Code::SmeBfmlslSHTV2Gs, shape: Sh::GroupSingle, acc: VA::Ss, src: VA::Sh, span: 2, vg: 2, ws: 0x6000, off: 0x3, zn: 0x3e0, zm: 0xf0000, idx: 0x0, za: 0x0, zk: 0x0 }),
        25 => Some(Form { mask: 0xffe39c7c, val: 0xc1a10818, code: Code::SmeBfmlslSHTV4Gg, shape: Sh::GroupGroup, acc: VA::Ss, src: VA::Sh, span: 2, vg: 4, ws: 0x6000, off: 0x3, zn: 0x380, zm: 0x1c0000, idx: 0x0, za: 0x0, zk: 0x0 }),
        26 => Some(Form { mask: 0xfff09078, val: 0xc1909018, code: Code::SmeBfmlslSHTV4Gi, shape: Sh::GroupIdx, acc: VA::Ss, src: VA::Sh, span: 2, vg: 4, ws: 0x6000, off: 0x3, zn: 0x380, zm: 0xf0000, idx: 0xc04, za: 0x0, zk: 0x0 }),
        27 => Some(Form { mask: 0xfff09c1c, val: 0xc1300818, code: Code::SmeBfmlslSHTV4Gs, shape: Sh::GroupSingle, acc: VA::Ss, src: VA::Sh, span: 2, vg: 4, ws: 0x6000, off: 0x3, zn: 0x3e0, zm: 0xf0000, idx: 0x0, za: 0x0, zk: 0x0 }),
        28 => Some(Form { mask: 0xffe0e00e, val: 0x81600008, code: Code::SmeBftmopaHH, shape: Sh::Tmopa, acc: VA::Sh, src: VA::Sh, span: 0, vg: 0, ws: 0x0, off: 0x0, zn: 0x3c0, zm: 0x1f0000, idx: 0x30, za: 0x1, zk: 0x1c00 }),
        29 => Some(Form { mask: 0xffe0e00c, val: 0x81400000, code: Code::SmeBftmopaSH, shape: Sh::Tmopa, acc: VA::Ss, src: VA::Sh, span: 0, vg: 0, ws: 0x0, off: 0x0, zn: 0x3c0, zm: 0x1f0000, idx: 0x30, za: 0x3, zk: 0x1c00 }),
        30 => Some(Form { mask: 0xffe19c38, val: 0xc1e01800, code: Code::SmeFmlaDDOV2Gg, shape: Sh::GroupGroup, acc: VA::Sd, src: VA::Sd, span: 1, vg: 2, ws: 0x6000, off: 0x7, zn: 0x3c0, zm: 0x1e0000, idx: 0x0, za: 0x0, zk: 0x0 }),
        31 => Some(Form { mask: 0xfff09838, val: 0xc1d00000, code: Code::SmeFmlaDDOV2Gi, shape: Sh::GroupIdx, acc: VA::Sd, src: VA::Sd, span: 1, vg: 2, ws: 0x6000, off: 0x7, zn: 0x3c0, zm: 0xf0000, idx: 0x400, za: 0x0, zk: 0x0 }),
        32 => Some(Form { mask: 0xfff09c18, val: 0xc1601800, code: Code::SmeFmlaDDOV2Gs, shape: Sh::GroupSingle, acc: VA::Sd, src: VA::Sd, span: 1, vg: 2, ws: 0x6000, off: 0x7, zn: 0x3e0, zm: 0xf0000, idx: 0x0, za: 0x0, zk: 0x0 }),
        33 => Some(Form { mask: 0xffe39c78, val: 0xc1e11800, code: Code::SmeFmlaDDOV4Gg, shape: Sh::GroupGroup, acc: VA::Sd, src: VA::Sd, span: 1, vg: 4, ws: 0x6000, off: 0x7, zn: 0x380, zm: 0x1c0000, idx: 0x0, za: 0x0, zk: 0x0 }),
        34 => Some(Form { mask: 0xfff09878, val: 0xc1d08000, code: Code::SmeFmlaDDOV4Gi, shape: Sh::GroupIdx, acc: VA::Sd, src: VA::Sd, span: 1, vg: 4, ws: 0x6000, off: 0x7, zn: 0x380, zm: 0xf0000, idx: 0x400, za: 0x0, zk: 0x0 }),
        35 => Some(Form { mask: 0xfff09c18, val: 0xc1701800, code: Code::SmeFmlaDDOV4Gs, shape: Sh::GroupSingle, acc: VA::Sd, src: VA::Sd, span: 1, vg: 4, ws: 0x6000, off: 0x7, zn: 0x3e0, zm: 0xf0000, idx: 0x0, za: 0x0, zk: 0x0 }),
        36 => Some(Form { mask: 0xffe19c38, val: 0xc1a01008, code: Code::SmeFmlaHHOV2Gg, shape: Sh::GroupGroup, acc: VA::Sh, src: VA::Sh, span: 1, vg: 2, ws: 0x6000, off: 0x7, zn: 0x3c0, zm: 0x1e0000, idx: 0x0, za: 0x0, zk: 0x0 }),
        37 => Some(Form { mask: 0xfff09030, val: 0xc1101000, code: Code::SmeFmlaHHOV2Gi, shape: Sh::GroupIdx, acc: VA::Sh, src: VA::Sh, span: 1, vg: 2, ws: 0x6000, off: 0x7, zn: 0x3c0, zm: 0xf0000, idx: 0xc08, za: 0x0, zk: 0x0 }),
        38 => Some(Form { mask: 0xfff09c18, val: 0xc1201c00, code: Code::SmeFmlaHHOV2Gs, shape: Sh::GroupSingle, acc: VA::Sh, src: VA::Sh, span: 1, vg: 2, ws: 0x6000, off: 0x7, zn: 0x3e0, zm: 0xf0000, idx: 0x0, za: 0x0, zk: 0x0 }),
        39 => Some(Form { mask: 0xffe39c78, val: 0xc1a11008, code: Code::SmeFmlaHHOV4Gg, shape: Sh::GroupGroup, acc: VA::Sh, src: VA::Sh, span: 1, vg: 4, ws: 0x6000, off: 0x7, zn: 0x380, zm: 0x1c0000, idx: 0x0, za: 0x0, zk: 0x0 }),
        40 => Some(Form { mask: 0xfff09070, val: 0xc1109000, code: Code::SmeFmlaHHOV4Gi, shape: Sh::GroupIdx, acc: VA::Sh, src: VA::Sh, span: 1, vg: 4, ws: 0x6000, off: 0x7, zn: 0x380, zm: 0xf0000, idx: 0xc08, za: 0x0, zk: 0x0 }),
        41 => Some(Form { mask: 0xfff09c18, val: 0xc1301c00, code: Code::SmeFmlaHHOV4Gs, shape: Sh::GroupSingle, acc: VA::Sh, src: VA::Sh, span: 1, vg: 4, ws: 0x6000, off: 0x7, zn: 0x3e0, zm: 0xf0000, idx: 0x0, za: 0x0, zk: 0x0 }),
        42 => Some(Form { mask: 0xffe19c38, val: 0xc1a01800, code: Code::SmeFmlaSSOV2Gg, shape: Sh::GroupGroup, acc: VA::Ss, src: VA::Ss, span: 1, vg: 2, ws: 0x6000, off: 0x7, zn: 0x3c0, zm: 0x1e0000, idx: 0x0, za: 0x0, zk: 0x0 }),
        43 => Some(Form { mask: 0xfff09038, val: 0xc1500000, code: Code::SmeFmlaSSOV2Gi, shape: Sh::GroupIdx, acc: VA::Ss, src: VA::Ss, span: 1, vg: 2, ws: 0x6000, off: 0x7, zn: 0x3c0, zm: 0xf0000, idx: 0xc00, za: 0x0, zk: 0x0 }),
        44 => Some(Form { mask: 0xfff09c18, val: 0xc1201800, code: Code::SmeFmlaSSOV2Gs, shape: Sh::GroupSingle, acc: VA::Ss, src: VA::Ss, span: 1, vg: 2, ws: 0x6000, off: 0x7, zn: 0x3e0, zm: 0xf0000, idx: 0x0, za: 0x0, zk: 0x0 }),
        45 => Some(Form { mask: 0xffe39c78, val: 0xc1a11800, code: Code::SmeFmlaSSOV4Gg, shape: Sh::GroupGroup, acc: VA::Ss, src: VA::Ss, span: 1, vg: 4, ws: 0x6000, off: 0x7, zn: 0x380, zm: 0x1c0000, idx: 0x0, za: 0x0, zk: 0x0 }),
        46 => Some(Form { mask: 0xfff09078, val: 0xc1508000, code: Code::SmeFmlaSSOV4Gi, shape: Sh::GroupIdx, acc: VA::Ss, src: VA::Ss, span: 1, vg: 4, ws: 0x6000, off: 0x7, zn: 0x380, zm: 0xf0000, idx: 0xc00, za: 0x0, zk: 0x0 }),
        47 => Some(Form { mask: 0xfff09c18, val: 0xc1301800, code: Code::SmeFmlaSSOV4Gs, shape: Sh::GroupSingle, acc: VA::Ss, src: VA::Ss, span: 1, vg: 4, ws: 0x6000, off: 0x7, zn: 0x3e0, zm: 0xf0000, idx: 0x0, za: 0x0, zk: 0x0 }),
        48 => Some(Form { mask: 0xfff01010, val: 0xc1c00000, code: Code::SmeFmlalHBTSi, shape: Sh::SingleIdx, acc: VA::Sh, src: VA::Sb, span: 2, vg: 0, ws: 0x6000, off: 0x7, zn: 0x3e0, zm: 0xf0000, idx: 0x8c08, za: 0x0, zk: 0x0 }),
        49 => Some(Form { mask: 0xfff09c18, val: 0xc1300c00, code: Code::SmeFmlalHBTSs, shape: Sh::SingleSingle, acc: VA::Sh, src: VA::Sb, span: 2, vg: 0, ws: 0x6000, off: 0x7, zn: 0x3e0, zm: 0xf0000, idx: 0x0, za: 0x0, zk: 0x0 }),
        50 => Some(Form { mask: 0xffe19c3c, val: 0xc1a00820, code: Code::SmeFmlalHBTV2Gg, shape: Sh::GroupGroup, acc: VA::Sh, src: VA::Sb, span: 2, vg: 2, ws: 0x6000, off: 0x3, zn: 0x3c0, zm: 0x1e0000, idx: 0x0, za: 0x0, zk: 0x0 }),
        51 => Some(Form { mask: 0xfff09030, val: 0xc1901030, code: Code::SmeFmlalHBTV2Gi, shape: Sh::GroupIdx, acc: VA::Sh, src: VA::Sb, span: 2, vg: 2, ws: 0x6000, off: 0x3, zn: 0x3c0, zm: 0xf0000, idx: 0xc0c, za: 0x0, zk: 0x0 }),
        52 => Some(Form { mask: 0xfff09c1c, val: 0xc1200804, code: Code::SmeFmlalHBTV2Gs, shape: Sh::GroupSingle, acc: VA::Sh, src: VA::Sb, span: 2, vg: 2, ws: 0x6000, off: 0x3, zn: 0x3e0, zm: 0xf0000, idx: 0x0, za: 0x0, zk: 0x0 }),
        53 => Some(Form { mask: 0xffe39c7c, val: 0xc1a10820, code: Code::SmeFmlalHBTV4Gg, shape: Sh::GroupGroup, acc: VA::Sh, src: VA::Sb, span: 2, vg: 4, ws: 0x6000, off: 0x3, zn: 0x380, zm: 0x1c0000, idx: 0x0, za: 0x0, zk: 0x0 }),
        54 => Some(Form { mask: 0xfff09070, val: 0xc1909020, code: Code::SmeFmlalHBTV4Gi, shape: Sh::GroupIdx, acc: VA::Sh, src: VA::Sb, span: 2, vg: 4, ws: 0x6000, off: 0x3, zn: 0x380, zm: 0xf0000, idx: 0xc0c, za: 0x0, zk: 0x0 }),
        55 => Some(Form { mask: 0xfff09c1c, val: 0xc1300804, code: Code::SmeFmlalHBTV4Gs, shape: Sh::GroupSingle, acc: VA::Sh, src: VA::Sb, span: 2, vg: 4, ws: 0x6000, off: 0x3, zn: 0x3e0, zm: 0xf0000, idx: 0x0, za: 0x0, zk: 0x0 }),
        56 => Some(Form { mask: 0xfff01018, val: 0xc1801000, code: Code::SmeFmlalSHTSi, shape: Sh::SingleIdx, acc: VA::Ss, src: VA::Sh, span: 2, vg: 0, ws: 0x6000, off: 0x7, zn: 0x3e0, zm: 0xf0000, idx: 0x8c00, za: 0x0, zk: 0x0 }),
        57 => Some(Form { mask: 0xfff09c18, val: 0xc1200c00, code: Code::SmeFmlalSHTSs, shape: Sh::SingleSingle, acc: VA::Ss, src: VA::Sh, span: 2, vg: 0, ws: 0x6000, off: 0x7, zn: 0x3e0, zm: 0xf0000, idx: 0x0, za: 0x0, zk: 0x0 }),
        58 => Some(Form { mask: 0xffe19c3c, val: 0xc1a00800, code: Code::SmeFmlalSHTV2Gg, shape: Sh::GroupGroup, acc: VA::Ss, src: VA::Sh, span: 2, vg: 2, ws: 0x6000, off: 0x3, zn: 0x3c0, zm: 0x1e0000, idx: 0x0, za: 0x0, zk: 0x0 }),
        59 => Some(Form { mask: 0xfff09038, val: 0xc1901000, code: Code::SmeFmlalSHTV2Gi, shape: Sh::GroupIdx, acc: VA::Ss, src: VA::Sh, span: 2, vg: 2, ws: 0x6000, off: 0x3, zn: 0x3c0, zm: 0xf0000, idx: 0xc04, za: 0x0, zk: 0x0 }),
        60 => Some(Form { mask: 0xfff09c1c, val: 0xc1200800, code: Code::SmeFmlalSHTV2Gs, shape: Sh::GroupSingle, acc: VA::Ss, src: VA::Sh, span: 2, vg: 2, ws: 0x6000, off: 0x3, zn: 0x3e0, zm: 0xf0000, idx: 0x0, za: 0x0, zk: 0x0 }),
        61 => Some(Form { mask: 0xffe39c7c, val: 0xc1a10800, code: Code::SmeFmlalSHTV4Gg, shape: Sh::GroupGroup, acc: VA::Ss, src: VA::Sh, span: 2, vg: 4, ws: 0x6000, off: 0x3, zn: 0x380, zm: 0x1c0000, idx: 0x0, za: 0x0, zk: 0x0 }),
        62 => Some(Form { mask: 0xfff09078, val: 0xc1909000, code: Code::SmeFmlalSHTV4Gi, shape: Sh::GroupIdx, acc: VA::Ss, src: VA::Sh, span: 2, vg: 4, ws: 0x6000, off: 0x3, zn: 0x380, zm: 0xf0000, idx: 0xc04, za: 0x0, zk: 0x0 }),
        63 => Some(Form { mask: 0xfff09c1c, val: 0xc1300800, code: Code::SmeFmlalSHTV4Gs, shape: Sh::GroupSingle, acc: VA::Ss, src: VA::Sh, span: 2, vg: 4, ws: 0x6000, off: 0x3, zn: 0x3e0, zm: 0xf0000, idx: 0x0, za: 0x0, zk: 0x0 }),
        64 => Some(Form { mask: 0xfff0001c, val: 0xc1400000, code: Code::SmeFmlallSBQSi, shape: Sh::SingleIdx, acc: VA::Ss, src: VA::Sb, span: 4, vg: 0, ws: 0x6000, off: 0x3, zn: 0x3e0, zm: 0xf0000, idx: 0x9c00, za: 0x0, zk: 0x0 }),
        65 => Some(Form { mask: 0xfff09c1c, val: 0xc1300400, code: Code::SmeFmlallSBQSs, shape: Sh::SingleSingle, acc: VA::Ss, src: VA::Sb, span: 4, vg: 0, ws: 0x6000, off: 0x3, zn: 0x3e0, zm: 0xf0000, idx: 0x0, za: 0x0, zk: 0x0 }),
        66 => Some(Form { mask: 0xffe19c3e, val: 0xc1a00020, code: Code::SmeFmlallSBQV2Gg, shape: Sh::GroupGroup, acc: VA::Ss, src: VA::Sb, span: 4, vg: 2, ws: 0x6000, off: 0x1, zn: 0x3c0, zm: 0x1e0000, idx: 0x0, za: 0x0, zk: 0x0 }),
        67 => Some(Form { mask: 0xfff09038, val: 0xc1900020, code: Code::SmeFmlallSBQV2Gi, shape: Sh::GroupIdx, acc: VA::Ss, src: VA::Sb, span: 4, vg: 2, ws: 0x6000, off: 0x1, zn: 0x3c0, zm: 0xf0000, idx: 0xc06, za: 0x0, zk: 0x0 }),
        68 => Some(Form { mask: 0xfff09c1e, val: 0xc1200002, code: Code::SmeFmlallSBQV2Gs, shape: Sh::GroupSingle, acc: VA::Ss, src: VA::Sb, span: 4, vg: 2, ws: 0x6000, off: 0x1, zn: 0x3e0, zm: 0xf0000, idx: 0x0, za: 0x0, zk: 0x0 }),
        69 => Some(Form { mask: 0xffe39c7e, val: 0xc1a10020, code: Code::SmeFmlallSBQV4Gg, shape: Sh::GroupGroup, acc: VA::Ss, src: VA::Sb, span: 4, vg: 4, ws: 0x6000, off: 0x1, zn: 0x380, zm: 0x1c0000, idx: 0x0, za: 0x0, zk: 0x0 }),
        70 => Some(Form { mask: 0xfff09078, val: 0xc1108040, code: Code::SmeFmlallSBQV4Gi, shape: Sh::GroupIdx, acc: VA::Ss, src: VA::Sb, span: 4, vg: 4, ws: 0x6000, off: 0x1, zn: 0x380, zm: 0xf0000, idx: 0xc06, za: 0x0, zk: 0x0 }),
        71 => Some(Form { mask: 0xfff09c1e, val: 0xc1300002, code: Code::SmeFmlallSBQV4Gs, shape: Sh::GroupSingle, acc: VA::Ss, src: VA::Sb, span: 4, vg: 4, ws: 0x6000, off: 0x1, zn: 0x3e0, zm: 0xf0000, idx: 0x0, za: 0x0, zk: 0x0 }),
        72 => Some(Form { mask: 0xffe19c38, val: 0xc1e01808, code: Code::SmeFmlsDDOV2Gg, shape: Sh::GroupGroup, acc: VA::Sd, src: VA::Sd, span: 1, vg: 2, ws: 0x6000, off: 0x7, zn: 0x3c0, zm: 0x1e0000, idx: 0x0, za: 0x0, zk: 0x0 }),
        73 => Some(Form { mask: 0xfff09838, val: 0xc1d00010, code: Code::SmeFmlsDDOV2Gi, shape: Sh::GroupIdx, acc: VA::Sd, src: VA::Sd, span: 1, vg: 2, ws: 0x6000, off: 0x7, zn: 0x3c0, zm: 0xf0000, idx: 0x400, za: 0x0, zk: 0x0 }),
        74 => Some(Form { mask: 0xfff09c18, val: 0xc1601808, code: Code::SmeFmlsDDOV2Gs, shape: Sh::GroupSingle, acc: VA::Sd, src: VA::Sd, span: 1, vg: 2, ws: 0x6000, off: 0x7, zn: 0x3e0, zm: 0xf0000, idx: 0x0, za: 0x0, zk: 0x0 }),
        75 => Some(Form { mask: 0xffe39c78, val: 0xc1e11808, code: Code::SmeFmlsDDOV4Gg, shape: Sh::GroupGroup, acc: VA::Sd, src: VA::Sd, span: 1, vg: 4, ws: 0x6000, off: 0x7, zn: 0x380, zm: 0x1c0000, idx: 0x0, za: 0x0, zk: 0x0 }),
        76 => Some(Form { mask: 0xfff09878, val: 0xc1d08010, code: Code::SmeFmlsDDOV4Gi, shape: Sh::GroupIdx, acc: VA::Sd, src: VA::Sd, span: 1, vg: 4, ws: 0x6000, off: 0x7, zn: 0x380, zm: 0xf0000, idx: 0x400, za: 0x0, zk: 0x0 }),
        77 => Some(Form { mask: 0xfff09c18, val: 0xc1701808, code: Code::SmeFmlsDDOV4Gs, shape: Sh::GroupSingle, acc: VA::Sd, src: VA::Sd, span: 1, vg: 4, ws: 0x6000, off: 0x7, zn: 0x3e0, zm: 0xf0000, idx: 0x0, za: 0x0, zk: 0x0 }),
        78 => Some(Form { mask: 0xffe19c38, val: 0xc1a01018, code: Code::SmeFmlsHHOV2Gg, shape: Sh::GroupGroup, acc: VA::Sh, src: VA::Sh, span: 1, vg: 2, ws: 0x6000, off: 0x7, zn: 0x3c0, zm: 0x1e0000, idx: 0x0, za: 0x0, zk: 0x0 }),
        79 => Some(Form { mask: 0xfff09030, val: 0xc1101010, code: Code::SmeFmlsHHOV2Gi, shape: Sh::GroupIdx, acc: VA::Sh, src: VA::Sh, span: 1, vg: 2, ws: 0x6000, off: 0x7, zn: 0x3c0, zm: 0xf0000, idx: 0xc08, za: 0x0, zk: 0x0 }),
        80 => Some(Form { mask: 0xfff09c18, val: 0xc1201c08, code: Code::SmeFmlsHHOV2Gs, shape: Sh::GroupSingle, acc: VA::Sh, src: VA::Sh, span: 1, vg: 2, ws: 0x6000, off: 0x7, zn: 0x3e0, zm: 0xf0000, idx: 0x0, za: 0x0, zk: 0x0 }),
        81 => Some(Form { mask: 0xffe39c78, val: 0xc1a11018, code: Code::SmeFmlsHHOV4Gg, shape: Sh::GroupGroup, acc: VA::Sh, src: VA::Sh, span: 1, vg: 4, ws: 0x6000, off: 0x7, zn: 0x380, zm: 0x1c0000, idx: 0x0, za: 0x0, zk: 0x0 }),
        82 => Some(Form { mask: 0xfff09070, val: 0xc1109010, code: Code::SmeFmlsHHOV4Gi, shape: Sh::GroupIdx, acc: VA::Sh, src: VA::Sh, span: 1, vg: 4, ws: 0x6000, off: 0x7, zn: 0x380, zm: 0xf0000, idx: 0xc08, za: 0x0, zk: 0x0 }),
        83 => Some(Form { mask: 0xfff09c18, val: 0xc1301c08, code: Code::SmeFmlsHHOV4Gs, shape: Sh::GroupSingle, acc: VA::Sh, src: VA::Sh, span: 1, vg: 4, ws: 0x6000, off: 0x7, zn: 0x3e0, zm: 0xf0000, idx: 0x0, za: 0x0, zk: 0x0 }),
        84 => Some(Form { mask: 0xffe19c38, val: 0xc1a01808, code: Code::SmeFmlsSSOV2Gg, shape: Sh::GroupGroup, acc: VA::Ss, src: VA::Ss, span: 1, vg: 2, ws: 0x6000, off: 0x7, zn: 0x3c0, zm: 0x1e0000, idx: 0x0, za: 0x0, zk: 0x0 }),
        85 => Some(Form { mask: 0xfff09038, val: 0xc1500010, code: Code::SmeFmlsSSOV2Gi, shape: Sh::GroupIdx, acc: VA::Ss, src: VA::Ss, span: 1, vg: 2, ws: 0x6000, off: 0x7, zn: 0x3c0, zm: 0xf0000, idx: 0xc00, za: 0x0, zk: 0x0 }),
        86 => Some(Form { mask: 0xfff09c18, val: 0xc1201808, code: Code::SmeFmlsSSOV2Gs, shape: Sh::GroupSingle, acc: VA::Ss, src: VA::Ss, span: 1, vg: 2, ws: 0x6000, off: 0x7, zn: 0x3e0, zm: 0xf0000, idx: 0x0, za: 0x0, zk: 0x0 }),
        87 => Some(Form { mask: 0xffe39c78, val: 0xc1a11808, code: Code::SmeFmlsSSOV4Gg, shape: Sh::GroupGroup, acc: VA::Ss, src: VA::Ss, span: 1, vg: 4, ws: 0x6000, off: 0x7, zn: 0x380, zm: 0x1c0000, idx: 0x0, za: 0x0, zk: 0x0 }),
        88 => Some(Form { mask: 0xfff09078, val: 0xc1508010, code: Code::SmeFmlsSSOV4Gi, shape: Sh::GroupIdx, acc: VA::Ss, src: VA::Ss, span: 1, vg: 4, ws: 0x6000, off: 0x7, zn: 0x380, zm: 0xf0000, idx: 0xc00, za: 0x0, zk: 0x0 }),
        89 => Some(Form { mask: 0xfff09c18, val: 0xc1301808, code: Code::SmeFmlsSSOV4Gs, shape: Sh::GroupSingle, acc: VA::Ss, src: VA::Ss, span: 1, vg: 4, ws: 0x6000, off: 0x7, zn: 0x3e0, zm: 0xf0000, idx: 0x0, za: 0x0, zk: 0x0 }),
        90 => Some(Form { mask: 0xfff01018, val: 0xc1801008, code: Code::SmeFmlslSHTSi, shape: Sh::SingleIdx, acc: VA::Ss, src: VA::Sh, span: 2, vg: 0, ws: 0x6000, off: 0x7, zn: 0x3e0, zm: 0xf0000, idx: 0x8c00, za: 0x0, zk: 0x0 }),
        91 => Some(Form { mask: 0xfff09c18, val: 0xc1200c08, code: Code::SmeFmlslSHTSs, shape: Sh::SingleSingle, acc: VA::Ss, src: VA::Sh, span: 2, vg: 0, ws: 0x6000, off: 0x7, zn: 0x3e0, zm: 0xf0000, idx: 0x0, za: 0x0, zk: 0x0 }),
        92 => Some(Form { mask: 0xffe19c3c, val: 0xc1a00808, code: Code::SmeFmlslSHTV2Gg, shape: Sh::GroupGroup, acc: VA::Ss, src: VA::Sh, span: 2, vg: 2, ws: 0x6000, off: 0x3, zn: 0x3c0, zm: 0x1e0000, idx: 0x0, za: 0x0, zk: 0x0 }),
        93 => Some(Form { mask: 0xfff09038, val: 0xc1901008, code: Code::SmeFmlslSHTV2Gi, shape: Sh::GroupIdx, acc: VA::Ss, src: VA::Sh, span: 2, vg: 2, ws: 0x6000, off: 0x3, zn: 0x3c0, zm: 0xf0000, idx: 0xc04, za: 0x0, zk: 0x0 }),
        94 => Some(Form { mask: 0xfff09c1c, val: 0xc1200808, code: Code::SmeFmlslSHTV2Gs, shape: Sh::GroupSingle, acc: VA::Ss, src: VA::Sh, span: 2, vg: 2, ws: 0x6000, off: 0x3, zn: 0x3e0, zm: 0xf0000, idx: 0x0, za: 0x0, zk: 0x0 }),
        95 => Some(Form { mask: 0xffe39c7c, val: 0xc1a10808, code: Code::SmeFmlslSHTV4Gg, shape: Sh::GroupGroup, acc: VA::Ss, src: VA::Sh, span: 2, vg: 4, ws: 0x6000, off: 0x3, zn: 0x380, zm: 0x1c0000, idx: 0x0, za: 0x0, zk: 0x0 }),
        96 => Some(Form { mask: 0xfff09078, val: 0xc1909008, code: Code::SmeFmlslSHTV4Gi, shape: Sh::GroupIdx, acc: VA::Ss, src: VA::Sh, span: 2, vg: 4, ws: 0x6000, off: 0x3, zn: 0x380, zm: 0xf0000, idx: 0xc04, za: 0x0, zk: 0x0 }),
        97 => Some(Form { mask: 0xfff09c1c, val: 0xc1300808, code: Code::SmeFmlslSHTV4Gs, shape: Sh::GroupSingle, acc: VA::Ss, src: VA::Sh, span: 2, vg: 4, ws: 0x6000, off: 0x3, zn: 0x3e0, zm: 0xf0000, idx: 0x0, za: 0x0, zk: 0x0 }),
        98 => Some(Form { mask: 0xffe0e00e, val: 0x80600008, code: Code::SmeFtmopaHB, shape: Sh::Tmopa, acc: VA::Sh, src: VA::Sb, span: 0, vg: 0, ws: 0x0, off: 0x0, zn: 0x3c0, zm: 0x1f0000, idx: 0x30, za: 0x1, zk: 0x1c00 }),
        99 => Some(Form { mask: 0xffe0e00e, val: 0x81400008, code: Code::SmeFtmopaHH, shape: Sh::Tmopa, acc: VA::Sh, src: VA::Sh, span: 0, vg: 0, ws: 0x0, off: 0x0, zn: 0x3c0, zm: 0x1f0000, idx: 0x30, za: 0x1, zk: 0x1c00 }),
        100 => Some(Form { mask: 0xffe0e00c, val: 0x80600000, code: Code::SmeFtmopaSB, shape: Sh::Tmopa, acc: VA::Ss, src: VA::Sb, span: 0, vg: 0, ws: 0x0, off: 0x0, zn: 0x3c0, zm: 0x1f0000, idx: 0x30, za: 0x3, zk: 0x1c00 }),
        101 => Some(Form { mask: 0xffe0e00c, val: 0x81600000, code: Code::SmeFtmopaSH, shape: Sh::Tmopa, acc: VA::Ss, src: VA::Sh, span: 0, vg: 0, ws: 0x0, off: 0x0, zn: 0x3c0, zm: 0x1f0000, idx: 0x30, za: 0x3, zk: 0x1c00 }),
        102 => Some(Form { mask: 0xffe0e00c, val: 0x80400000, code: Code::SmeFtmopaSS, shape: Sh::Tmopa, acc: VA::Ss, src: VA::Ss, span: 0, vg: 0, ws: 0x0, off: 0x0, zn: 0x3c0, zm: 0x1f0000, idx: 0x30, za: 0x3, zk: 0x1c00 }),
        103 => Some(Form { mask: 0xfff01018, val: 0xc1c01000, code: Code::SmeSmlalSHTSi, shape: Sh::SingleIdx, acc: VA::Ss, src: VA::Sh, span: 2, vg: 0, ws: 0x6000, off: 0x7, zn: 0x3e0, zm: 0xf0000, idx: 0x8c00, za: 0x0, zk: 0x0 }),
        104 => Some(Form { mask: 0xfff09c18, val: 0xc1600c00, code: Code::SmeSmlalSHTSs, shape: Sh::SingleSingle, acc: VA::Ss, src: VA::Sh, span: 2, vg: 0, ws: 0x6000, off: 0x7, zn: 0x3e0, zm: 0xf0000, idx: 0x0, za: 0x0, zk: 0x0 }),
        105 => Some(Form { mask: 0xffe19c3c, val: 0xc1e00800, code: Code::SmeSmlalSHTV2Gg, shape: Sh::GroupGroup, acc: VA::Ss, src: VA::Sh, span: 2, vg: 2, ws: 0x6000, off: 0x3, zn: 0x3c0, zm: 0x1e0000, idx: 0x0, za: 0x0, zk: 0x0 }),
        106 => Some(Form { mask: 0xfff09038, val: 0xc1d01000, code: Code::SmeSmlalSHTV2Gi, shape: Sh::GroupIdx, acc: VA::Ss, src: VA::Sh, span: 2, vg: 2, ws: 0x6000, off: 0x3, zn: 0x3c0, zm: 0xf0000, idx: 0xc04, za: 0x0, zk: 0x0 }),
        107 => Some(Form { mask: 0xfff09c1c, val: 0xc1600800, code: Code::SmeSmlalSHTV2Gs, shape: Sh::GroupSingle, acc: VA::Ss, src: VA::Sh, span: 2, vg: 2, ws: 0x6000, off: 0x3, zn: 0x3e0, zm: 0xf0000, idx: 0x0, za: 0x0, zk: 0x0 }),
        108 => Some(Form { mask: 0xffe39c7c, val: 0xc1e10800, code: Code::SmeSmlalSHTV4Gg, shape: Sh::GroupGroup, acc: VA::Ss, src: VA::Sh, span: 2, vg: 4, ws: 0x6000, off: 0x3, zn: 0x380, zm: 0x1c0000, idx: 0x0, za: 0x0, zk: 0x0 }),
        109 => Some(Form { mask: 0xfff09078, val: 0xc1d09000, code: Code::SmeSmlalSHTV4Gi, shape: Sh::GroupIdx, acc: VA::Ss, src: VA::Sh, span: 2, vg: 4, ws: 0x6000, off: 0x3, zn: 0x380, zm: 0xf0000, idx: 0xc04, za: 0x0, zk: 0x0 }),
        110 => Some(Form { mask: 0xfff09c1c, val: 0xc1700800, code: Code::SmeSmlalSHTV4Gs, shape: Sh::GroupSingle, acc: VA::Ss, src: VA::Sh, span: 2, vg: 4, ws: 0x6000, off: 0x3, zn: 0x3e0, zm: 0xf0000, idx: 0x0, za: 0x0, zk: 0x0 }),
        111 => Some(Form { mask: 0xfff0101c, val: 0xc1800000, code: Code::SmeSmlallDHQSi, shape: Sh::SingleIdx, acc: VA::Sd, src: VA::Sh, span: 4, vg: 0, ws: 0x6000, off: 0x3, zn: 0x3e0, zm: 0xf0000, idx: 0x8c00, za: 0x0, zk: 0x0 }),
        112 => Some(Form { mask: 0xfff09c1c, val: 0xc1600400, code: Code::SmeSmlallDHQSs, shape: Sh::SingleSingle, acc: VA::Sd, src: VA::Sh, span: 4, vg: 0, ws: 0x6000, off: 0x3, zn: 0x3e0, zm: 0xf0000, idx: 0x0, za: 0x0, zk: 0x0 }),
        113 => Some(Form { mask: 0xffe19c3e, val: 0xc1e00000, code: Code::SmeSmlallDHQV2Gg, shape: Sh::GroupGroup, acc: VA::Sd, src: VA::Sh, span: 4, vg: 2, ws: 0x6000, off: 0x1, zn: 0x3c0, zm: 0x1e0000, idx: 0x0, za: 0x0, zk: 0x0 }),
        114 => Some(Form { mask: 0xfff09838, val: 0xc1900000, code: Code::SmeSmlallDHQV2Gi, shape: Sh::GroupIdx, acc: VA::Sd, src: VA::Sh, span: 4, vg: 2, ws: 0x6000, off: 0x1, zn: 0x3c0, zm: 0xf0000, idx: 0x406, za: 0x0, zk: 0x0 }),
        115 => Some(Form { mask: 0xfff09c1e, val: 0xc1600000, code: Code::SmeSmlallDHQV2Gs, shape: Sh::GroupSingle, acc: VA::Sd, src: VA::Sh, span: 4, vg: 2, ws: 0x6000, off: 0x1, zn: 0x3e0, zm: 0xf0000, idx: 0x0, za: 0x0, zk: 0x0 }),
        116 => Some(Form { mask: 0xffe39c7e, val: 0xc1e10000, code: Code::SmeSmlallDHQV4Gg, shape: Sh::GroupGroup, acc: VA::Sd, src: VA::Sh, span: 4, vg: 4, ws: 0x6000, off: 0x1, zn: 0x380, zm: 0x1c0000, idx: 0x0, za: 0x0, zk: 0x0 }),
        117 => Some(Form { mask: 0xfff09878, val: 0xc1908000, code: Code::SmeSmlallDHQV4Gi, shape: Sh::GroupIdx, acc: VA::Sd, src: VA::Sh, span: 4, vg: 4, ws: 0x6000, off: 0x1, zn: 0x380, zm: 0xf0000, idx: 0x406, za: 0x0, zk: 0x0 }),
        118 => Some(Form { mask: 0xfff09c1e, val: 0xc1700000, code: Code::SmeSmlallDHQV4Gs, shape: Sh::GroupSingle, acc: VA::Sd, src: VA::Sh, span: 4, vg: 4, ws: 0x6000, off: 0x1, zn: 0x3e0, zm: 0xf0000, idx: 0x0, za: 0x0, zk: 0x0 }),
        119 => Some(Form { mask: 0xfff0001c, val: 0xc1000000, code: Code::SmeSmlallSBQSi, shape: Sh::SingleIdx, acc: VA::Ss, src: VA::Sb, span: 4, vg: 0, ws: 0x6000, off: 0x3, zn: 0x3e0, zm: 0xf0000, idx: 0x9c00, za: 0x0, zk: 0x0 }),
        _ => sme2_row_1(i),
    }
}

/// Rows 120 onwards of [`sme2_row`].
pub open spec fn sme2_row_1(i: usize) -> Option<Form> {
    match i {
        120 => Some(Form { mask: 0xfff09c1c, val: 0xc1200400, code: Code::SmeSmlallSBQSs, shape: Sh::SingleSingle, acc: VA::Ss, src: VA::Sb, span: 4, vg: 0, ws: 0x6000, off: 0x3, zn: 0x3e0, zm: 0xf0000, idx: 0x0, za: 0x0, zk: 0x0 }),
        121 => Some(Form { mask: 0xffe19c3e, val: 0xc1a00000, code: Code::SmeSmlallSBQV2Gg, shape: Sh::GroupGroup, acc: VA::Ss, src: VA::Sb, span: 4, vg: 2, ws: 0x6000, off: 0x1, zn: 0x3c0, zm: 0x1e0000, idx: 0x0, za: 0x0, zk: 0x0 }),
        122 => Some(Form { mask: 0xfff09038, val: 0xc1100000, code: Code::SmeSmlallSBQV2Gi, shape: Sh::GroupIdx, acc: VA::Ss, src: VA::Sb, span: 4, vg: 2, ws: 0x6000, off: 0x1, zn: 0x3c0, zm: 0xf0000, idx: 0xc06, za: 0x0, zk: 0x0 }),
        123 => Some(Form { mask: 0xfff09c1e, val: 0xc1200000, code: Code::SmeSmlallSBQV2Gs, shape: Sh::GroupSingle, acc: VA::Ss, src: VA::Sb, span: 4, vg: 2, ws: 0x6000, off: 0x1, zn: 0x3e0, zm: 0xf0000, idx: 0x0, za: 0x0, zk: 0x0 }),
        124 => Some(Form { mask: 0xffe39c7e, val: 0xc1a10000, code: Code::SmeSmlallSBQV4Gg, shape: Sh::GroupGroup, acc: VA::Ss, src: VA::Sb, span: 4, vg: 4, ws: 0x6000, off: 0x1, zn: 0x380, zm: 0x1c0000, idx: 0x0, za: 0x0, zk: 0x0 }),
        125 => Some(Form { mask: 0xfff09078, val: 0xc1108000, code: Code::SmeSmlallSBQV4Gi, shape: Sh::GroupIdx, acc: VA::Ss, src: VA::Sb, span: 4, vg: 4, ws: 0x6000, off: 0x1, zn: 0x380, zm: 0xf0000, idx: 0xc06, za: 0x0, zk: 0x0 }),
        126 => Some(Form { mask: 0xfff09c1e, val: 0xc1300000, code: Code::SmeSmlallSBQV4Gs, shape: Sh::GroupSingle, acc: VA::Ss, src: VA::Sb, span: 4, vg: 4, ws: 0x6000, off: 0x1, zn: 0x3e0, zm: 0xf0000, idx: 0x0, za: 0x0, zk: 0x0 }),
        127 => Some(Form { mask: 0xfff01018, val: 0xc1c01008, code: Code::SmeSmlslSHTSi, shape: Sh::SingleIdx, acc: VA::Ss, src: VA::Sh, span: 2, vg: 0, ws: 0x6000, off: 0x7, zn: 0x3e0, zm: 0xf0000, idx: 0x8c00, za: 0x0, zk: 0x0 }),
        128 => Some(Form { mask: 0xfff09c18, val: 0xc1600c08, code: Code::SmeSmlslSHTSs, shape: Sh::SingleSingle, acc: VA::Ss, src: VA::Sh, span: 2, vg: 0, ws: 0x6000, off: 0x7, zn: 0x3e0, zm: 0xf0000, idx: 0x0, za: 0x0, zk: 0x0 }),
        129 => Some(Form { mask: 0xffe19c3c, val: 0xc1e00808, code: Code::SmeSmlslSHTV2Gg, shape: Sh::GroupGroup, acc: VA::Ss, src: VA::Sh, span: 2, vg: 2, ws: 0x6000, off: 0x3, zn: 0x3c0, zm: 0x1e0000, idx: 0x0, za: 0x0, zk: 0x0 }),
        130 => Some(Form { mask: 0xfff09038, val: 0xc1d01008, code: Code::SmeSmlslSHTV2Gi, shape: Sh::GroupIdx, acc: VA::Ss, src: VA::Sh, span: 2, vg: 2, ws: 0x6000, off: 0x3, zn: 0x3c0, zm: 0xf0000, idx: 0xc04, za: 0x0, zk: 0x0 }),
        131 => Some(Form { mask: 0xfff09c1c, val: 0xc1600808, code: Code::SmeSmlslSHTV2Gs, shape: Sh::GroupSingle, acc: VA::Ss, src: VA::Sh, span: 2, vg: 2, ws: 0x6000, off: 0x3, zn: 0x3e0, zm: 0xf0000, idx: 0x0, za: 0x0, zk: 0x0 }),
        132 => Some(Form { mask: 0xffe39c7c, val: 0xc1e10808, code: Code::SmeSmlslSHTV4Gg, shape: Sh::GroupGroup, acc: VA::Ss, src: VA::Sh, span: 2, vg: 4, ws: 0x6000, off: 0x3, zn: 0x380, zm: 0x1c0000, idx: 0x0, za: 0x0, zk: 0x0 }),
        133 => Some(Form { mask: 0xfff09078, val: 0xc1d09008, code: Code::SmeSmlslSHTV4Gi, shape: Sh::GroupIdx, acc: VA::Ss, src: VA::Sh, span: 2, vg: 4, ws: 0x6000, off: 0x3, zn: 0x380, zm: 0xf0000, idx: 0xc04, za: 0x0, zk: 0x0 }),
        134 => Some(Form { mask: 0xfff09c1c, val: 0xc1700808, code: Code::SmeSmlslSHTV4Gs, shape: Sh::GroupSingle, acc: VA::Ss, src: VA::Sh, span: 2, vg: 4, ws: 0x6000, off: 0x3, zn: 0x3e0, zm: 0xf0000, idx: 0x0, za: 0x0, zk: 0x0 }),
        135 => Some(Form { mask: 0xfff0101c, val: 0xc1800008, code: Code::SmeSmlsllDHQSi, shape: Sh::SingleIdx, acc: VA::Sd, src: VA::Sh, span: 4, vg: 0, ws: 0x6000, off: 0x3, zn: 0x3e0, zm: 0xf0000, idx: 0x8c00, za: 0x0, zk: 0x0 }),
        136 => Some(Form { mask: 0xfff09c1c, val: 0xc1600408, code: Code::SmeSmlsllDHQSs, shape: Sh::SingleSingle, acc: VA::Sd, src: VA::Sh, span: 4, vg: 0, ws: 0x6000, off: 0x3, zn: 0x3e0, zm: 0xf0000, idx: 0x0, za: 0x0, zk: 0x0 }),
        137 => Some(Form { mask: 0xffe19c3e, val: 0xc1e00008, code: Code::SmeSmlsllDHQV2Gg, shape: Sh::GroupGroup, acc: VA::Sd, src: VA::Sh, span: 4, vg: 2, ws: 0x6000, off: 0x1, zn: 0x3c0, zm: 0x1e0000, idx: 0x0, za: 0x0, zk: 0x0 }),
        138 => Some(Form { mask: 0xfff09838, val: 0xc1900008, code: Code::SmeSmlsllDHQV2Gi, shape: Sh::GroupIdx, acc: VA::Sd, src: VA::Sh, span: 4, vg: 2, ws: 0x6000, off: 0x1, zn: 0x3c0, zm: 0xf0000, idx: 0x406, za: 0x0, zk: 0x0 }),
        139 => Some(Form { mask: 0xfff09c1e, val: 0xc1600008, code: Code::SmeSmlsllDHQV2Gs, shape: Sh::GroupSingle, acc: VA::Sd, src: VA::Sh, span: 4, vg: 2, ws: 0x6000, off: 0x1, zn: 0x3e0, zm: 0xf0000, idx: 0x0, za: 0x0, zk: 0x0 }),
        140 => Some(Form { mask: 0xffe39c7e, val: 0xc1e10008, code: Code::SmeSmlsllDHQV4Gg, shape: Sh::GroupGroup, acc: VA::Sd, src: VA::Sh, span: 4, vg: 4, ws: 0x6000, off: 0x1, zn: 0x380, zm: 0x1c0000, idx: 0x0, za: 0x0, zk: 0x0 }),
        141 => Some(Form { mask: 0xfff09878, val: 0xc1908008, code: Code::SmeSmlsllDHQV4Gi, shape: Sh::GroupIdx, acc: VA::Sd, src: VA::Sh, span: 4, vg: 4, ws: 0x6000, off: 0x1, zn: 0x380, zm: 0xf0000, idx: 0x406, za: 0x0, zk: 0x0 }),
        142 => Some(Form { mask: 0xfff09c1e, val: 0xc1700008, code: Code::SmeSmlsllDHQV4Gs, shape: Sh::GroupSingle, acc: VA::Sd, src: VA::Sh, span: 4, vg: 4, ws: 0x6000, off: 0x1, zn: 0x3e0, zm: 0xf0000, idx: 0x0, za: 0x0, zk: 0x0 }),
        143 => Some(Form { mask: 0xfff0001c, val: 0xc1000008, code: Code::SmeSmlsllSBQSi, shape: Sh::SingleIdx, acc: VA::Ss, src: VA::Sb, span: 4, vg: 0, ws: 0x6000, off: 0x3, zn: 0x3e0, zm: 0xf0000, idx: 0x9c00, za: 0x0, zk: 0x0 }),
        144 => Some(Form { mask: 0xfff09c1c, val: 0xc1200408, code: Code::SmeSmlsllSBQSs, shape: Sh::SingleSingle, acc: VA::Ss, src: VA::Sb, span: 4, vg: 0, ws: 0x6000, off: 0x3, zn: 0x3e0, zm: 0xf0000, idx: 0x0, za: 0x0, zk: 0x0 }),
        145 => Some(Form { mask: 0xffe19c3e, val: 0xc1a00008, code: Code::SmeSmlsllSBQV2Gg, shape: Sh::GroupGroup, acc: VA::Ss, src: VA::Sb, span: 4, vg: 2, ws: 0x6000, off: 0x1, zn: 0x3c0, zm: 0x1e0000, idx: 0x0, za: 0x0, zk: 0x0 }),
        146 => Some(Form { mask: 0xfff09038, val: 0xc1100008, code: Code::SmeSmlsllSBQV2Gi, shape: Sh::GroupIdx, acc: VA::Ss, src: VA::Sb, span: 4, vg: 2, ws: 0x6000, off: 0x1, zn: 0x3c0, zm: 0xf0000, idx: 0xc06, za: 0x0, zk: 0x0 }),
        147 => Some(Form { mask: 0xfff09c1e, val: 0xc1200008, code: Code::SmeSmlsllSBQV2Gs, shape: Sh::GroupSingle, acc: VA::Ss, src: VA::Sb, span: 4, vg: 2, ws: 0x6000, off: 0x1, zn: 0x3e0, zm: 0xf0000, idx: 0x0, za: 0x0, zk: 0x0 }),
        148 => Some(Form { mask: 0xffe39c7e, val: 0xc1a10008, code: Code::SmeSmlsllSBQV4Gg, shape: Sh::GroupGroup, acc: VA::Ss, src: VA::Sb, span: 4, vg: 4, ws: 0x6000, off: 0x1, zn: 0x380, zm: 0x1c0000, idx: 0x0, za: 0x0, zk: 0x0 }),
        149 => Some(Form { mask: 0xfff09078, val: 0xc1108008, code: Code::SmeSmlsllSBQV4Gi, shape: Sh::GroupIdx, acc: VA::Ss, src: VA::Sb, span: 4, vg: 4, ws: 0x6000, off: 0x1, zn: 0x380, zm: 0xf0000, idx: 0xc06, za: 0x0, zk: 0x0 }),
        150 => Some(Form { mask: 0xfff09c1e, val: 0xc1300008, code: Code::SmeSmlsllSBQV4Gs, shape: Sh::GroupSingle, acc: VA::Ss, src: VA::Sb, span: 4, vg: 4, ws: 0x6000, off: 0x1, zn: 0x3e0, zm: 0xf0000, idx: 0x0, za: 0x0, zk: 0x0 }),
        151 => Some(Form { mask: 0xffe0e00c, val: 0x80408000, code: Code::SmeStmopaSB, shape: Sh::Tmopa, acc: VA::Ss, src: VA::Sb, span: 0, vg: 0, ws: 0x0, off: 0x0, zn: 0x3c0, zm: 0x1f0000, idx: 0x30, za: 0x3, zk: 0x1c00 }),
        152 => Some(Form { mask: 0xffe0e00c, val: 0x80408008, code: Code::SmeStmopaSH, shape: Sh::Tmopa, acc: VA::Ss, src: VA::Sh, span: 0, vg: 0, ws: 0x0, off: 0x0, zn: 0x3c0, zm: 0x1f0000, idx: 0x30, za: 0x3, zk: 0x1c00 }),
        153 => Some(Form { mask: 0xfff0001c, val: 0xc1000014, code: Code::SmeSumlallSBQSi, shape: Sh::SingleIdx, acc: VA::Ss, src: VA::Sb, span: 4, vg: 0, ws: 0x6000, off: 0x3, zn: 0x3e0, zm: 0xf0000, idx: 0x9c00, za: 0x0, zk: 0x0 }),
        154 => Some(Form { mask: 0xfff09038, val: 0xc1100030, code: Code::SmeSumlallSBQV2Gi, shape: Sh::GroupIdx, acc: VA::Ss, src: VA::Sb, span: 4, vg: 2, ws: 0x6000, off: 0x1, zn: 0x3c0, zm: 0xf0000, idx: 0xc06, za: 0x0, zk: 0x0 }),
        155 => Some(Form { mask: 0xfff09c1e, val: 0xc1200014, code: Code::SmeSumlallSBQV2Gs, shape: Sh::GroupSingle, acc: VA::Ss, src: VA::Sb, span: 4, vg: 2, ws: 0x6000, off: 0x1, zn: 0x3e0, zm: 0xf0000, idx: 0x0, za: 0x0, zk: 0x0 }),
        156 => Some(Form { mask: 0xfff09078, val: 0xc1108030, code: Code::SmeSumlallSBQV4Gi, shape: Sh::GroupIdx, acc: VA::Ss, src: VA::Sb, span: 4, vg: 4, ws: 0x6000, off: 0x1, zn: 0x380, zm: 0xf0000, idx: 0xc06, za: 0x0, zk: 0x0 }),
        157 => Some(Form { mask: 0xfff09c1e, val: 0xc1300014, code: Code::SmeSumlallSBQV4Gs, shape: Sh::GroupSingle, acc: VA::Ss, src: VA::Sb, span: 4, vg: 4, ws: 0x6000, off: 0x1, zn: 0x3e0, zm: 0xf0000, idx: 0x0, za: 0x0, zk: 0x0 }),
        158 => Some(Form { mask: 0xffe0e00c, val: 0x80608000, code: Code::SmeSutmopaSB, shape: Sh::Tmopa, acc: VA::Ss, src: VA::Sb, span: 0, vg: 0, ws: 0x0, off: 0x0, zn: 0x3c0, zm: 0x1f0000, idx: 0x30, za: 0x3, zk: 0x1c00 }),
        159 => Some(Form { mask: 0xfff01018, val: 0xc1c01010, code: Code::SmeUmlalSHTSi, shape: Sh::SingleIdx, acc: VA::Ss, src: VA::Sh, span: 2, vg: 0, ws: 0x6000, off: 0x7, zn: 0x3e0, zm: 0xf0000, idx: 0x8c00, za: 0x0, zk: 0x0 }),
        160 => Some(Form { mask: 0xfff09c18, val: 0xc1600c10, code: Code::SmeUmlalSHTSs, shape: Sh::SingleSingle, acc: VA::Ss, src: VA::Sh, span: 2, vg: 0, ws: 0x6000, off: 0x7, zn: 0x3e0, zm: 0xf0000, idx: 0x0, za: 0x0, zk: 0x0 }),
        161 => Some(Form { mask: 0xffe19c3c, val: 0xc1e00810, code: Code::SmeUmlalSHTV2Gg, shape: Sh::GroupGroup, acc: VA::Ss, src: VA::Sh, span: 2, vg: 2, ws: 0x6000, off: 0x3, zn: 0x3c0, zm: 0x1e0000, idx: 0x0, za: 0x0, zk: 0x0 }),
        162 => Some(Form { mask: 0xfff09038, val: 0xc1d01010, code: Code::SmeUmlalSHTV2Gi, shape: Sh::GroupIdx, acc: VA::Ss, src: VA::Sh, span: 2, vg: 2, ws: 0x6000, off: 0x3, zn: 0x3c0, zm: 0xf0000, idx: 0xc04, za: 0x0, zk: 0x0 }),
        163 => Some(Form { mask: 0xfff09c1c, val: 0xc1600810, code: Code::SmeUmlalSHTV2Gs, shape: Sh::GroupSingle, acc: VA::Ss, src: VA::Sh, span: 2, vg: 2, ws: 0x6000, off: 0x3, zn: 0x3e0, zm: 0xf0000, idx: 0x0, za: 0x0, zk: 0x0 }),
        164 => Some(Form { mask: 0xffe39c7c, val: 0xc1e10810, code: Code::SmeUmlalSHTV4Gg, shape: Sh::GroupGroup, acc: VA::Ss, src: VA::Sh, span: 2, vg: 4, ws: 0x6000, off: 0x3, zn: 0x380, zm: 0x1c0000, idx: 0x0, za: 0x0, zk: 0x0 }),
        165 => Some(Form { mask: 0xfff09078, val: 0xc1d09010, code: Code::SmeUmlalSHTV4Gi, shape: Sh::GroupIdx, acc: VA::Ss, src: VA::Sh, span: 2, vg: 4, ws: 0x6000, off: 0x3, zn: 0x380, zm: 0xf0000, idx: 0xc04, za: 0x0, zk: 0x0 }),
        166 => Some(Form { mask: 0xfff09c1c, val: 0xc1700810, code: Code::SmeUmlalSHTV4Gs, shape: Sh::GroupSingle, acc: VA::Ss, src: VA::Sh, span: 2, vg: 4, ws: 0x6000, off: 0x3, zn: 0x3e0, zm: 0xf0000, idx: 0x0, za: 0x0, zk: 0x0 }),
        167 => Some(Form { mask: 0xfff0101c, val: 0xc1800010, code: Code::SmeUmlallDHQSi, shape: Sh::SingleIdx, acc: VA::Sd, src: VA::Sh, span: 4, vg: 0, ws: 0x6000, off: 0x3, zn: 0x3e0, zm: 0xf0000, idx: 0x8c00, za: 0x0, zk: 0x0 }),
        168 => Some(Form { mask: 0xfff09c1c, val: 0xc1600410, code: Code::SmeUmlallDHQSs, shape: Sh::SingleSingle, acc: VA::Sd, src: VA::Sh, span: 4, vg: 0, ws: 0x6000, off: 0x3, zn: 0x3e0, zm: 0xf0000, idx: 0x0, za: 0x0, zk: 0x0 }),
        169 => Some(Form { mask: 0xffe19c3e, val: 0xc1e00010, code: Code::SmeUmlallDHQV2Gg, shape: Sh::GroupGroup, acc: VA::Sd, src: VA::Sh, span: 4, vg: 2, ws: 0x6000, off: 0x1, zn: 0x3c0, zm: 0x1e0000, idx: 0x0, za: 0x0, zk: 0x0 }),
        170 => Some(Form { mask: 0xfff09838, val: 0xc1900010, code: Code::SmeUmlallDHQV2Gi, shape: Sh::GroupIdx, acc: VA::Sd, src: VA::Sh, span: 4, vg: 2, ws: 0x6000, off: 0x1, zn: 0x3c0, zm: 0xf0000, idx: 0x406, za: 0x0, zk: 0x0 }),
        171 => Some(Form { mask: 0xfff09c1e, val: 0xc1600010, code: Code::SmeUmlallDHQV2Gs, shape: Sh::GroupSingle, acc: VA::Sd, src: VA::Sh, span: 4, vg: 2, ws: 0x6000, off: 0x1, zn: 0x3e0, zm: 0xf0000, idx: 0x0, za: 0x0, zk: 0x0 }),
        172 => Some(Form { mask: 0xffe39c7e, val: 0xc1e10010, code: Code::SmeUmlallDHQV4Gg, shape: Sh::GroupGroup, acc: VA::Sd, src: VA::Sh, span: 4, vg: 4, ws: 0x6000, off: 0x1, zn: 0x380, zm: 0x1c0000, idx: 0x0, za: 0x0, zk: 0x0 }),
        173 => Some(Form { mask: 0xfff09878, val: 0xc1908010, code: Code::SmeUmlallDHQV4Gi, shape: Sh::GroupIdx, acc: VA::Sd, src: VA::Sh, span: 4, vg: 4, ws: 0x6000, off: 0x1, zn: 0x380, zm: 0xf0000, idx: 0x406, za: 0x0, zk: 0x0 }),
        174 => Some(Form { mask: 0xfff09c1e, val: 0xc1700010, code: Code::SmeUmlallDHQV4Gs, shape: Sh::GroupSingle, acc: VA::Sd, src: VA::Sh, span: 4, vg: 4, ws: 0x6000, off: 0x1, zn: 0x3e0, zm: 0xf0000, idx: 0x0, za: 0x0, zk: 0x0 }),
        175 => Some(Form { mask: 0xfff0001c, val: 0xc1000010, code: Code::SmeUmlallSBQSi, shape: Sh::SingleIdx, acc: VA::Ss, src: VA::Sb, span: 4, vg: 0, ws: 0x6000, off: 0x3, zn: 0x3e0, zm: 0xf0000, idx: 0x9c00, za: 0x0, zk: 0x0 }),
        176 => Some(Form { mask: 0xfff09c1c, val: 0xc1200410, code: Code::SmeUmlallSBQSs, shape: Sh::SingleSingle, acc: VA::Ss, src: VA::Sb, span: 4, vg: 0, ws: 0x6000, off: 0x3, zn: 0x3e0, zm: 0xf0000, idx: 0x0, za: 0x0, zk: 0x0 }),
        177 => Some(Form { mask: 0xffe19c3e, val: 0xc1a00010, code: Code::SmeUmlallSBQV2Gg, shape: Sh::GroupGroup, acc: VA::Ss, src: VA::Sb, span: 4, vg: 2, ws: 0x6000, off: 0x1, zn: 0x3c0, zm: 0x1e0000, idx: 0x0, za: 0x0, zk: 0x0 }),
        178 => Some(Form { mask: 0xfff09038, val: 0xc1100010, code: Code::SmeUmlallSBQV2Gi, shape: Sh::GroupIdx, acc: VA::Ss, src: VA::Sb, span: 4, vg: 2, ws: 0x6000, off: 0x1, zn: 0x3c0, zm: 0xf0000, idx: 0xc06, za: 0x0, zk: 0x0 }),
        179 => Some(Form { mask: 0xfff09c1e, val: 0xc1200010, code: Code::SmeUmlallSBQV2Gs, shape: Sh::GroupSingle, acc: VA::Ss, src: VA::Sb, span: 4, vg: 2, ws: 0x6000, off: 0x1, zn: 0x3e0, zm: 0xf0000, idx: 0x0, za: 0x0, zk: 0x0 }),
        180 => Some(Form { mask: 0xffe39c7e, val: 0xc1a10010, code: Code::SmeUmlallSBQV4Gg, shape: Sh::GroupGroup, acc: VA::Ss, src: VA::Sb, span: 4, vg: 4, ws: 0x6000, off: 0x1, zn: 0x380, zm: 0x1c0000, idx: 0x0, za: 0x0, zk: 0x0 }),
        181 => Some(Form { mask: 0xfff09078, val: 0xc1108010, code: Code::SmeUmlallSBQV4Gi, shape: Sh::GroupIdx, acc: VA::Ss, src: VA::Sb, span: 4, vg: 4, ws: 0x6000, off: 0x1, zn: 0x380, zm: 0xf0000, idx: 0xc06, za: 0x0, zk: 0x0 }),
        182 => Some(Form { mask: 0xfff09c1e, val: 0xc1300010, code: Code::SmeUmlallSBQV4Gs, shape: Sh::GroupSingle, acc: VA::Ss, src: VA::Sb, span: 4, vg: 4, ws: 0x6000, off: 0x1, zn: 0x3e0, zm: 0xf0000, idx: 0x0, za: 0x0, zk: 0x0 }),
        183 => Some(Form { mask: 0xfff01018, val: 0xc1c01018, code: Code::SmeUmlslSHTSi, shape: Sh::SingleIdx, acc: VA::Ss, src: VA::Sh, span: 2, vg: 0, ws: 0x6000, off: 0x7, zn: 0x3e0, zm: 0xf0000, idx: 0x8c00, za: 0x0, zk: 0x0 }),
        184 => Some(Form { mask: 0xfff09c18, val: 0xc1600c18, code: Code::SmeUmlslSHTSs, shape: Sh::SingleSingle, acc: VA::Ss, src: VA::Sh, span: 2, vg: 0, ws: 0x6000, off: 0x7, zn: 0x3e0, zm: 0xf0000, idx: 0x0, za: 0x0, zk: 0x0 }),
        185 => Some(Form { mask: 0xffe19c3c, val: 0xc1e00818, code: Code::SmeUmlslSHTV2Gg, shape: Sh::GroupGroup, acc: VA::Ss, src: VA::Sh, span: 2, vg: 2, ws: 0x6000, off: 0x3, zn: 0x3c0, zm: 0x1e0000, idx: 0x0, za: 0x0, zk: 0x0 }),
        186 => Some(Form { mask: 0xfff09038, val: 0xc1d01018, code: Code::SmeUmlslSHTV2Gi, shape: Sh::GroupIdx, acc: VA::Ss, src: VA::Sh, span: 2, vg: 2, ws: 0x6000, off: 0x3, zn: 0x3c0, zm: 0xf0000, idx: 0xc04, za: 0x0, zk: 0x0 }),
        187 => Some(Form { mask: 0xfff09c1c, val: 0xc1600818, code: Code::SmeUmlslSHTV2Gs, shape: Sh::GroupSingle, acc: VA::Ss, src: VA::Sh, span: 2, vg: 2, ws: 0x6000, off: 0x3, zn: 0x3e0, zm: 0xf0000, idx: 0x0, za: 0x0, zk: 0x0 }),
        188 => Some(Form { mask: 0xffe39c7c, val: 0xc1e10818, code: Code::SmeUmlslSHTV4Gg, shape: Sh::GroupGroup, acc: VA::Ss, src: VA::Sh, span: 2, vg: 4, ws: 0x6000, off: 0x3, zn: 0x380, zm: 0x1c0000, idx: 0x0, za: 0x0, zk: 0x0 }),
        189 => Some(Form { mask: 0xfff09078, val: 0xc1d09018, code: Code::SmeUmlslSHTV4Gi, shape: Sh::GroupIdx, acc: VA::Ss, src: VA::Sh, span: 2, vg: 4, ws: 0x6000, off: 0x3, zn: 0x380, zm: 0xf0000, idx: 0xc04, za: 0x0, zk: 0x0 }),
        190 => Some(Form { mask: 0xfff09c1c, val: 0xc1700818, code: Code::SmeUmlslSHTV4Gs, shape: Sh::GroupSingle, acc: VA::Ss, src: VA::Sh, span: 2, vg: 4, ws: 0x6000, off: 0x3, zn: 0x3e0, zm: 0xf0000, idx: 0x0, za: 0x0, zk: 0x0 }),
        191 => Some(Form { mask: 0xfff0101c, val: 0xc1800018, code: Code::SmeUmlsllDHQSi, shape: Sh::SingleIdx, acc: VA::Sd, src: VA::Sh, span: 4, vg: 0, ws: 0x6000, off: 0x3, zn: 0x3e0, zm: 0xf0000, idx: 0x8c00, za: 0x0, zk: 0x0 }),
        192 => Some(Form { mask: 0xfff09c1c, val: 0xc1600418, code: Code::SmeUmlsllDHQSs, shape: Sh::SingleSingle, acc: VA::Sd, src: VA::Sh, span: 4, vg: 0, ws: 0x6000, off: 0x3, zn: 0x3e0, zm: 0xf0000, idx: 0x0, za: 0x0, zk: 0x0 }),
        193 => Some(Form { mask: 0xffe19c3e, val: 0xc1e00018, code: Code::SmeUmlsllDHQV2Gg, shape: Sh::GroupGroup, acc: VA::Sd, src: VA::Sh, span: 4, vg: 2, ws: 0x6000, off: 0x1, zn: 0x3c0, zm: 0x1e0000, idx: 0x0, za: 0x0, zk: 0x0 }),
        194 => Some(Form { mask: 0xfff09838, val: 0xc1900018, code: Code::SmeUmlsllDHQV2Gi, shape: Sh::GroupIdx, acc: VA::Sd, src: VA::Sh, span: 4, vg: 2, ws: 0x6000, off: 0x1, zn: 0x3c0, zm: 0xf0000, idx: 0x406, za: 0x0, zk: 0x0 }),
        195 => Some(Form { mask: 0xfff09c1e, val: 0xc1600018, code: Code::SmeUmlsllDHQV2Gs, shape: Sh::GroupSingle, acc: VA::Sd, src: VA::Sh, span: 4, vg: 2, ws: 0x6000, off: 0x1, zn: 0x3e0, zm: 0xf0000, idx: 0x0, za: 0x0, zk: 0x0 }),
        196 => Some(Form { mask: 0xffe39c7e, val: 0xc1e10018, code: Code::SmeUmlsllDHQV4Gg, shape: Sh::GroupGroup, acc: VA::Sd, src: VA::Sh, span: 4, vg: 4, ws: 0x6000, off: 0x1, zn: 0x380, zm: 0x1c0000, idx: 0x0, za: 0x0, zk: 0x0 }),
        197 => Some(Form { mask: 0xfff09878, val: 0xc1908018, code: Code::SmeUmlsllDHQV4Gi, shape: Sh::GroupIdx, acc: VA::Sd, src: VA::Sh, span: 4, vg: 4, ws: 0x6000, off: 0x1, zn: 0x380, zm: 0xf0000, idx: 0x406, za: 0x0, zk: 0x0 }),
        198 => Some(Form { mask: 0xfff09c1e, val: 0xc1700018, code: Code::SmeUmlsllDHQV4Gs, shape: Sh::GroupSingle, acc: VA::Sd, src: VA::Sh, span: 4, vg: 4, ws: 0x6000, off: 0x1, zn: 0x3e0, zm: 0xf0000, idx: 0x0, za: 0x0, zk: 0x0 }),
        199 => Some(Form { mask: 0xfff0001c, val: 0xc1000018, code: Code::SmeUmlsllSBQSi, shape: Sh::SingleIdx, acc: VA::Ss, src: VA::Sb, span: 4, vg: 0, ws: 0x6000, off: 0x3, zn: 0x3e0, zm: 0xf0000, idx: 0x9c00, za: 0x0, zk: 0x0 }),
        200 => Some(Form { mask: 0xfff09c1c, val: 0xc1200418, code: Code::SmeUmlsllSBQSs, shape: Sh::SingleSingle, acc: VA::Ss, src: VA::Sb, span: 4, vg: 0, ws: 0x6000, off: 0x3, zn: 0x3e0, zm: 0xf0000, idx: 0x0, za: 0x0, zk: 0x0 }),
        201 => Some(Form { mask: 0xffe19c3e, val: 0xc1a00018, code: Code::SmeUmlsllSBQV2Gg, shape: Sh::GroupGroup, acc: VA::Ss, src: VA::Sb, span: 4, vg: 2, ws: 0x6000, off: 0x1, zn: 0x3c0, zm: 0x1e0000, idx: 0x0, za: 0x0, zk: 0x0 }),
        202 => Some(Form { mask: 0xfff09038, val: 0xc1100018, code: Code::SmeUmlsllSBQV2Gi, shape: Sh::GroupIdx, acc: VA::Ss, src: VA::Sb, span: 4, vg: 2, ws: 0x6000, off: 0x1, zn: 0x3c0, zm: 0xf0000, idx: 0xc06, za: 0x0, zk: 0x0 }),
        203 => Some(Form { mask: 0xfff09c1e, val: 0xc1200018, code: Code::SmeUmlsllSBQV2Gs, shape: Sh::GroupSingle, acc: VA::Ss, src: VA::Sb, span: 4, vg: 2, ws: 0x6000, off: 0x1, zn: 0x3e0, zm: 0xf0000, idx: 0x0, za: 0x0, zk: 0x0 }),
        204 => Some(Form { mask: 0xffe39c7e, val: 0xc1a10018, code: Code::SmeUmlsllSBQV4Gg, shape: Sh::GroupGroup, acc: VA::Ss, src: VA::Sb, span: 4, vg: 4, ws: 0x6000, off: 0x1, zn: 0x380, zm: 0x1c0000, idx: 0x0, za: 0x0, zk: 0x0 }),
        205 => Some(Form { mask: 0xfff09078, val: 0xc1108018, code: Code::SmeUmlsllSBQV4Gi, shape: Sh::GroupIdx, acc: VA::Ss, src: VA::Sb, span: 4, vg: 4, ws: 0x6000, off: 0x1, zn: 0x380, zm: 0xf0000, idx: 0xc06, za: 0x0, zk: 0x0 }),
        206 => Some(Form { mask: 0xfff09c1e, val: 0xc1300018, code: Code::SmeUmlsllSBQV4Gs, shape: Sh::GroupSingle, acc: VA::Ss, src: VA::Sb, span: 4, vg: 4, ws: 0x6000, off: 0x1, zn: 0x3e0, zm: 0xf0000, idx: 0x0, za: 0x0, zk: 0x0 }),
        207 => Some(Form { mask: 0xfff0001c, val: 0xc1000004, code: Code::SmeUsmlallSBQSi, shape: Sh::SingleIdx, acc: VA::Ss, src: VA::Sb, span: 4, vg: 0, ws: 0x6000, off: 0x3, zn: 0x3e0, zm: 0xf0000, idx: 0x9c00, za: 0x0, zk: 0x0 }),
        208 => Some(Form { mask: 0xfff09c1c, val: 0xc1200404, code: Code::SmeUsmlallSBQSs, shape: Sh::SingleSingle, acc: VA::Ss, src: VA::Sb, span: 4, vg: 0, ws: 0x6000, off: 0x3, zn: 0x3e0, zm: 0xf0000, idx: 0x0, za: 0x0, zk: 0x0 }),
        209 => Some(Form { mask: 0xffe19c3e, val: 0xc1a00004, code: Code::SmeUsmlallSBQV2Gg, shape: Sh::GroupGroup, acc: VA::Ss, src: VA::Sb, span: 4, vg: 2, ws: 0x6000, off: 0x1, zn: 0x3c0, zm: 0x1e0000, idx: 0x0, za: 0x0, zk: 0x0 }),
        210 => Some(Form { mask: 0xfff09038, val: 0xc1100020, code: Code::SmeUsmlallSBQV2Gi, shape: Sh::GroupIdx, acc: VA::Ss, src: VA::Sb, span: 4, vg: 2, ws: 0x6000, off: 0x1, zn: 0x3c0, zm: 0xf0000, idx: 0xc06, za: 0x0, zk: 0x0 }),
        211 => Some(Form { mask: 0xfff09c1e, val: 0xc1200004, code: Code::SmeUsmlallSBQV2Gs, shape: Sh::GroupSingle, acc: VA::Ss, src: VA::Sb, span: 4, vg: 2, ws: 0x6000, off: 0x1, zn: 0x3e0, zm: 0xf0000, idx: 0x0, za: 0x0, zk: 0x0 }),
        212 => Some(Form { mask: 0xffe39c7e, val: 0xc1a10004, code: Code::SmeUsmlallSBQV4Gg, shape: Sh::GroupGroup, acc: VA::Ss, src: VA::Sb, span: 4, vg: 4, ws: 0x6000, off: 0x1, zn: 0x380, zm: 0x1c0000, idx: 0x0, za: 0x0, zk: 0x0 }),
        213 => Some(Form { mask: 0xfff09078, val: 0xc1108020, code: Code::SmeUsmlallSBQV4Gi, shape: Sh::GroupIdx, acc: VA::Ss, src: VA::Sb, span: 4, vg: 4, ws: 0x6000, off: 0x1, zn: 0x380, zm: 0xf0000, idx: 0xc06, za: 0x0, zk: 0x0 }),
        214 => Some(Form { mask: 0xfff09c1e, val: 0xc1300004, code: Code::SmeUsmlallSBQV4Gs, shape: Sh::GroupSingle, acc: VA::Ss, src: VA::Sb, span: 4, vg: 4, ws: 0x6000, off: 0x1, zn: 0x3e0, zm: 0xf0000, idx: 0x0, za: 0x0, zk: 0x0 }),
        215 => Some(Form { mask: 0xffe0e00c, val: 0x81408000, code: Code::SmeUstmopaSB, shape: Sh::Tmopa, acc: VA::Ss, src: VA::Sb, span: 0, vg: 0, ws: 0x0, off: 0x0, zn: 0x3c0, zm: 0x1f0000, idx: 0x30, za: 0x3, zk: 0x1c00 }),
        216 => Some(Form { mask: 0xffe0e00c, val: 0x81608000, code: Code::SmeUtmopaSB, shape: Sh::Tmopa, acc: VA::Ss, src: VA::Sb, span: 0, vg: 0, ws: 0x0, off: 0x0, zn: 0x3c0, zm: 0x1f0000, idx: 0x30, za: 0x3, zk: 0x1c00 }),
        217 => Some(Form { mask: 0xffe0e00c, val: 0x81408008, code: Code::SmeUtmopaSH, shape: Sh::Tmopa, acc: VA::Ss, src: VA::Sh, span: 0, vg: 0, ws: 0x0, off: 0x0, zn: 0x3c0, zm: 0x1f0000, idx: 0x30, za: 0x3, zk: 0x1c00 }),
        218 => Some(Form { mask: 0xffe19c38, val: 0xc1e01810, code: Code::SmeAddDDV2Gg, shape: Sh::GroupGroup, acc: VA::Sd, src: VA::Sd, span: 1, vg: 2, ws: 0x6000, off: 0x7, zn: 0x3c0, zm: 0x1e0000, idx: 0x0, za: 0x0, zk: 0x0 }),
        219 => Some(Form { mask: 0xffff9c38, val: 0xc1e01c10, code: Code::SmeAddDDV2Go, shape: Sh::GroupOnly, acc: VA::Sd, src: VA::Sd, span: 1, vg: 2, ws: 0x6000, off: 0x7, zn: 0x3c0, zm: 0x0, idx: 0x0, za: 0x0, zk: 0x0 }),
        220 => Some(Form { mask: 0xfff09c18, val: 0xc1601810, code: Code::SmeAddDDV2Gs, shape: Sh::GroupSingle, acc: VA::Sd, src: VA::Sd, span: 1, vg: 2, ws: 0x6000, off: 0x7, zn: 0x3e0, zm: 0xf0000, idx: 0x0, za: 0x0, zk: 0x0 }),
        221 => Some(Form { mask: 0xffe39c78, val: 0xc1e11810, code: Code::SmeAddDDV4Gg, shape: Sh::GroupGroup, acc: VA::Sd, src: VA::Sd, span: 1, vg: 4, ws: 0x6000, off: 0x7, zn: 0x380, zm: 0x1c0000, idx: 0x0, za: 0x0, zk: 0x0 }),
        222 => Some(Form { mask: 0xffff9c78, val: 0xc1e11c10, code: Code::SmeAddDDV4Go, shape: Sh::GroupOnly, acc: VA::Sd, src: VA::Sd, span: 1, vg: 4, ws: 0x6000, off: 0x7, zn: 0x380, zm: 0x0, idx: 0x0, za: 0x0, zk: 0x0 }),
        223 => Some(Form { mask: 0xfff09c18, val: 0xc1701810, code: Code::SmeAddDDV4Gs, shape: Sh::GroupSingle, acc: VA::Sd, src: VA::Sd, span: 1, vg: 4, ws: 0x6000, off: 0x7, zn: 0x3e0, zm: 0xf0000, idx: 0x0, za: 0x0, zk: 0x0 }),
        224 => Some(Form { mask: 0xffe19c38, val: 0xc1a01810, code: Code::SmeAddSSV2Gg, shape: Sh::GroupGroup, acc: VA::Ss, src: VA::Ss, span: 1, vg: 2, ws: 0x6000, off: 0x7, zn: 0x3c0, zm: 0x1e0000, idx: 0x0, za: 0x0, zk: 0x0 }),
        225 => Some(Form { mask: 0xffff9c38, val: 0xc1a01c10, code: Code::SmeAddSSV2Go, shape: Sh::GroupOnly, acc: VA::Ss, src: VA::Ss, span: 1, vg: 2, ws: 0x6000, off: 0x7, zn: 0x3c0, zm: 0x0, idx: 0x0, za: 0x0, zk: 0x0 }),
        226 => Some(Form { mask: 0xfff09c18, val: 0xc1201810, code: Code::SmeAddSSV2Gs, shape: Sh::GroupSingle, acc: VA::Ss, src: VA::Ss, span: 1, vg: 2, ws: 0x6000, off: 0x7, zn: 0x3e0, zm: 0xf0000, idx: 0x0, za: 0x0, zk: 0x0 }),
        227 => Some(Form { mask: 0xffe39c78, val: 0xc1a11810, code: Code::SmeAddSSV4Gg, shape: Sh::GroupGroup, acc: VA::Ss, src: VA::Ss, span: 1, vg: 4, ws: 0x6000, off: 0x7, zn: 0x380, zm: 0x1c0000, idx: 0x0, za: 0x0, zk: 0x0 }),
        228 => Some(Form { mask: 0xffff9c78, val: 0xc1a11c10, code: Code::SmeAddSSV4Go, shape: Sh::GroupOnly, acc: VA::Ss, src: VA::Ss, span: 1, vg: 4, ws: 0x6000, off: 0x7, zn: 0x380, zm: 0x0, idx: 0x0, za: 0x0, zk: 0x0 }),
        229 => Some(Form { mask: 0xfff09c18, val: 0xc1301810, code: Code::SmeAddSSV4Gs, shape: Sh::GroupSingle, acc: VA::Ss, src: VA::Ss, span: 1, vg: 4, ws: 0x6000, off: 0x7, zn: 0x3e0, zm: 0xf0000, idx: 0x0, za: 0x0, zk: 0x0 }),
        230 => Some(Form { mask: 0xffe19c38, val: 0xc1a01010, code: Code::SmeBfdotSHV2Gg, shape: Sh::GroupGroup, acc: VA::Ss, src: VA::Sh, span: 1, vg: 2, ws: 0x6000, off: 0x7, zn: 0x3c0, zm: 0x1e0000, idx: 0x0, za: 0x0, zk: 0x0 }),
        231 => Some(Form { mask: 0xfff09038, val: 0xc1501018, code: Code::SmeBfdotSHV2Gi, shape: Sh::GroupIdx, acc: VA::Ss, src: VA::Sh, span: 1, vg: 2, ws: 0x6000, off: 0x7, zn: 0x3c0, zm: 0xf0000, idx: 0xc00, za: 0x0, zk: 0x0 }),
        232 => Some(Form { mask: 0xfff09c18, val: 0xc1201010, code: Code::SmeBfdotSHV2Gs, shape: Sh::GroupSingle, acc: VA::Ss, src: VA::Sh, span: 1, vg: 2, ws: 0x6000, off: 0x7, zn: 0x3e0, zm: 0xf0000, idx: 0x0, za: 0x0, zk: 0x0 }),
        233 => Some(Form { mask: 0xffe39c78, val: 0xc1a11010, code: Code::SmeBfdotSHV4Gg, shape: Sh::GroupGroup, acc: VA::Ss, src: VA::Sh, span: 1, vg: 4, ws: 0x6000, off: 0x7, zn: 0x380, zm: 0x1c0000, idx: 0x0, za: 0x0, zk: 0x0 }),
        234 => Some(Form { mask: 0xfff09078, val: 0xc1509018, code: Code::SmeBfdotSHV4Gi, shape: Sh::GroupIdx, acc: VA::Ss, src: VA::Sh, span: 1, vg: 4, ws: 0x6000, off: 0x7, zn: 0x380, zm: 0xf0000, idx: 0xc00, za: 0x0, zk: 0x0 }),
        235 => Some(Form { mask: 0xfff09c18, val: 0xc1301010, code: Code::SmeBfdotSHV4Gs, shape: Sh::GroupSingle, acc: VA::Ss, src: VA::Sh, span: 1, vg: 4, ws: 0x6000, off: 0x7, zn: 0x3e0, zm: 0xf0000, idx: 0x0, za: 0x0, zk: 0x0 }),
        236 => Some(Form { mask: 0xfff09038, val: 0xc1500018, code: Code::SmeBfvdotSHV2Gi, shape: Sh::GroupIdx, acc: VA::Ss, src: VA::Sh, span: 1, vg: 2, ws: 0x6000, off: 0x7, zn: 0x3c0, zm: 0xf0000, idx: 0xc00, za: 0x0, zk: 0x0 }),
        237 => Some(Form { mask: 0xffff9c38, val: 0xc1e01c00, code: Code::SmeFaddDDV2Go, shape: Sh::GroupOnly, acc: VA::Sd, src: VA::Sd, span: 1, vg: 2, ws: 0x6000, off: 0x7, zn: 0x3c0, zm: 0x0, idx: 0x0, za: 0x0, zk: 0x0 }),
        238 => Some(Form { mask: 0xffff9c78, val: 0xc1e11c00, code: Code::SmeFaddDDV4Go, shape: Sh::GroupOnly, acc: VA::Sd, src: VA::Sd, span: 1, vg: 4, ws: 0x6000, off: 0x7, zn: 0x380, zm: 0x0, idx: 0x0, za: 0x0, zk: 0x0 }),
        239 => Some(Form { mask: 0xffff9c38, val: 0xc1a41c00, code: Code::SmeFaddHHV2Go, shape: Sh::GroupOnly, acc: VA::Sh, src: VA::Sh, span: 1, vg: 2, ws: 0x6000, off: 0x7, zn: 0x3c0, zm: 0x0, idx: 0x0, za: 0x0, zk: 0x0 }),
        _ => sme2_row_2(i),
    }
}

/// Rows 240 onwards of [`sme2_row`].
pub open spec fn sme2_row_2(i: usize) -> Option<Form> {
    match i {
        240 => Some(Form { mask: 0xffff9c78, val: 0xc1a51c00, code: Code::SmeFaddHHV4Go, shape: Sh::GroupOnly, acc: VA::Sh, src: VA::Sh, span: 1, vg: 4, ws: 0x6000, off: 0x7, zn: 0x380, zm: 0x0, idx: 0x0, za: 0x0, zk: 0x0 }),
        241 => Some(Form { mask: 0xffff9c38, val: 0xc1a01c00, code: Code::SmeFaddSSV2Go, shape: Sh::GroupOnly, acc: VA::Ss, src: VA::Ss, span: 1, vg: 2, ws: 0x6000, off: 0x7, zn: 0x3c0, zm: 0x0, idx: 0x0, za: 0x0, zk: 0x0 }),
        242 => Some(Form { mask: 0xffff9c78, val: 0xc1a11c00, code: Code::SmeFaddSSV4Go, shape: Sh::GroupOnly, acc: VA::Ss, src: VA::Ss, span: 1, vg: 4, ws: 0x6000, off: 0x7, zn: 0x380, zm: 0x0, idx: 0x0, za: 0x0, zk: 0x0 }),
        243 => Some(Form { mask: 0xffe19c38, val: 0xc1a01020, code: Code::SmeFdotHBV2Gg, shape: Sh::GroupGroup, acc: VA::Sh, src: VA::Sb, span: 1, vg: 2, ws: 0x6000, off: 0x7, zn: 0x3c0, zm: 0x1e0000, idx: 0x0, za: 0x0, zk: 0x0 }),
        244 => Some(Form { mask: 0xfff09030, val: 0xc1d00020, code: Code::SmeFdotHBV2Gi, shape: Sh::GroupIdx, acc: VA::Sh, src: VA::Sb, span: 1, vg: 2, ws: 0x6000, off: 0x7, zn: 0x3c0, zm: 0xf0000, idx: 0xc08, za: 0x0, zk: 0x0 }),
        245 => Some(Form { mask: 0xfff09c18, val: 0xc1201008, code: Code::SmeFdotHBV2Gs, shape: Sh::GroupSingle, acc: VA::Sh, src: VA::Sb, span: 1, vg: 2, ws: 0x6000, off: 0x7, zn: 0x3e0, zm: 0xf0000, idx: 0x0, za: 0x0, zk: 0x0 }),
        246 => Some(Form { mask: 0xffe39c78, val: 0xc1a11020, code: Code::SmeFdotHBV4Gg, shape: Sh::GroupGroup, acc: VA::Sh, src: VA::Sb, span: 1, vg: 4, ws: 0x6000, off: 0x7, zn: 0x380, zm: 0x1c0000, idx: 0x0, za: 0x0, zk: 0x0 }),
        247 => Some(Form { mask: 0xfff09070, val: 0xc1109040, code: Code::SmeFdotHBV4Gi, shape: Sh::GroupIdx, acc: VA::Sh, src: VA::Sb, span: 1, vg: 4, ws: 0x6000, off: 0x7, zn: 0x380, zm: 0xf0000, idx: 0xc08, za: 0x0, zk: 0x0 }),
        248 => Some(Form { mask: 0xfff09c18, val: 0xc1301008, code: Code::SmeFdotHBV4Gs, shape: Sh::GroupSingle, acc: VA::Sh, src: VA::Sb, span: 1, vg: 4, ws: 0x6000, off: 0x7, zn: 0x3e0, zm: 0xf0000, idx: 0x0, za: 0x0, zk: 0x0 }),
        249 => Some(Form { mask: 0xffe19c38, val: 0xc1a01000, code: Code::SmeFdotSHV2Gg, shape: Sh::GroupGroup, acc: VA::Ss, src: VA::Sh, span: 1, vg: 2, ws: 0x6000, off: 0x7, zn: 0x3c0, zm: 0x1e0000, idx: 0x0, za: 0x0, zk: 0x0 }),
        250 => Some(Form { mask: 0xfff09038, val: 0xc1501008, code: Code::SmeFdotSHV2Gi, shape: Sh::GroupIdx, acc: VA::Ss, src: VA::Sh, span: 1, vg: 2, ws: 0x6000, off: 0x7, zn: 0x3c0, zm: 0xf0000, idx: 0xc00, za: 0x0, zk: 0x0 }),
        251 => Some(Form { mask: 0xfff09c18, val: 0xc1201000, code: Code::SmeFdotSHV2Gs, shape: Sh::GroupSingle, acc: VA::Ss, src: VA::Sh, span: 1, vg: 2, ws: 0x6000, off: 0x7, zn: 0x3e0, zm: 0xf0000, idx: 0x0, za: 0x0, zk: 0x0 }),
        252 => Some(Form { mask: 0xffe39c78, val: 0xc1a11000, code: Code::SmeFdotSHV4Gg, shape: Sh::GroupGroup, acc: VA::Ss, src: VA::Sh, span: 1, vg: 4, ws: 0x6000, off: 0x7, zn: 0x380, zm: 0x1c0000, idx: 0x0, za: 0x0, zk: 0x0 }),
        253 => Some(Form { mask: 0xfff09078, val: 0xc1509008, code: Code::SmeFdotSHV4Gi, shape: Sh::GroupIdx, acc: VA::Ss, src: VA::Sh, span: 1, vg: 4, ws: 0x6000, off: 0x7, zn: 0x380, zm: 0xf0000, idx: 0xc00, za: 0x0, zk: 0x0 }),
        254 => Some(Form { mask: 0xfff09c18, val: 0xc1301000, code: Code::SmeFdotSHV4Gs, shape: Sh::GroupSingle, acc: VA::Ss, src: VA::Sh, span: 1, vg: 4, ws: 0x6000, off: 0x7, zn: 0x3e0, zm: 0xf0000, idx: 0x0, za: 0x0, zk: 0x0 }),
        255 => Some(Form { mask: 0xffff9c38, val: 0xc1e01c08, code: Code::SmeFsubDDV2Go, shape: Sh::GroupOnly, acc: VA::Sd, src: VA::Sd, span: 1, vg: 2, ws: 0x6000, off: 0x7, zn: 0x3c0, zm: 0x0, idx: 0x0, za: 0x0, zk: 0x0 }),
        256 => Some(Form { mask: 0xffff9c78, val: 0xc1e11c08, code: Code::SmeFsubDDV4Go, shape: Sh::GroupOnly, acc: VA::Sd, src: VA::Sd, span: 1, vg: 4, ws: 0x6000, off: 0x7, zn: 0x380, zm: 0x0, idx: 0x0, za: 0x0, zk: 0x0 }),
        257 => Some(Form { mask: 0xffff9c38, val: 0xc1a41c08, code: Code::SmeFsubHHV2Go, shape: Sh::GroupOnly, acc: VA::Sh, src: VA::Sh, span: 1, vg: 2, ws: 0x6000, off: 0x7, zn: 0x3c0, zm: 0x0, idx: 0x0, za: 0x0, zk: 0x0 }),
        258 => Some(Form { mask: 0xffff9c78, val: 0xc1a51c08, code: Code::SmeFsubHHV4Go, shape: Sh::GroupOnly, acc: VA::Sh, src: VA::Sh, span: 1, vg: 4, ws: 0x6000, off: 0x7, zn: 0x380, zm: 0x0, idx: 0x0, za: 0x0, zk: 0x0 }),
        259 => Some(Form { mask: 0xffff9c38, val: 0xc1e41c00, code: Code::SmeBfaddV2Go, shape: Sh::GroupOnly, acc: VA::Sh, src: VA::Sh, span: 1, vg: 2, ws: 0x6000, off: 0x7, zn: 0x3c0, zm: 0x0, idx: 0x0, za: 0x0, zk: 0x0 }),
        260 => Some(Form { mask: 0xffff9c78, val: 0xc1e51c00, code: Code::SmeBfaddV4Go, shape: Sh::GroupOnly, acc: VA::Sh, src: VA::Sh, span: 1, vg: 4, ws: 0x6000, off: 0x7, zn: 0x380, zm: 0x0, idx: 0x0, za: 0x0, zk: 0x0 }),
        261 => Some(Form { mask: 0xffff9c38, val: 0xc1e41c08, code: Code::SmeBfsubV2Go, shape: Sh::GroupOnly, acc: VA::Sh, src: VA::Sh, span: 1, vg: 2, ws: 0x6000, off: 0x7, zn: 0x3c0, zm: 0x0, idx: 0x0, za: 0x0, zk: 0x0 }),
        262 => Some(Form { mask: 0xffff9c78, val: 0xc1e51c08, code: Code::SmeBfsubV4Go, shape: Sh::GroupOnly, acc: VA::Sh, src: VA::Sh, span: 1, vg: 4, ws: 0x6000, off: 0x7, zn: 0x380, zm: 0x0, idx: 0x0, za: 0x0, zk: 0x0 }),
        263 => Some(Form { mask: 0xffff9c38, val: 0xc1a01c08, code: Code::SmeFsubSSV2Go, shape: Sh::GroupOnly, acc: VA::Ss, src: VA::Ss, span: 1, vg: 2, ws: 0x6000, off: 0x7, zn: 0x3c0, zm: 0x0, idx: 0x0, za: 0x0, zk: 0x0 }),
        264 => Some(Form { mask: 0xffff9c78, val: 0xc1a11c08, code: Code::SmeFsubSSV4Go, shape: Sh::GroupOnly, acc: VA::Ss, src: VA::Ss, span: 1, vg: 4, ws: 0x6000, off: 0x7, zn: 0x380, zm: 0x0, idx: 0x0, za: 0x0, zk: 0x0 }),
        265 => Some(Form { mask: 0xfff09038, val: 0xc1500008, code: Code::SmeFvdotSHV2Gi, shape: Sh::GroupIdx, acc: VA::Ss, src: VA::Sh, span: 1, vg: 2, ws: 0x6000, off: 0x7, zn: 0x3c0, zm: 0xf0000, idx: 0xc00, za: 0x0, zk: 0x0 }),
        266 => Some(Form { mask: 0xfff09830, val: 0xc1d00800, code: Code::SmeFvdotbSBV4GiB, shape: Sh::GroupIdxB, acc: VA::Ss, src: VA::Sb, span: 1, vg: 4, ws: 0x6000, off: 0x7, zn: 0x3c0, zm: 0xf0000, idx: 0x408, za: 0x0, zk: 0x0 }),
        267 => Some(Form { mask: 0xfff09830, val: 0xc1d00810, code: Code::SmeFvdottSBV4GiB, shape: Sh::GroupIdxB, acc: VA::Ss, src: VA::Sb, span: 1, vg: 4, ws: 0x6000, off: 0x7, zn: 0x3c0, zm: 0xf0000, idx: 0x408, za: 0x0, zk: 0x0 }),
        268 => Some(Form { mask: 0xffe19c38, val: 0xc1e01400, code: Code::SmeSdotDHV2Gg, shape: Sh::GroupGroup, acc: VA::Sd, src: VA::Sh, span: 1, vg: 2, ws: 0x6000, off: 0x7, zn: 0x3c0, zm: 0x1e0000, idx: 0x0, za: 0x0, zk: 0x0 }),
        269 => Some(Form { mask: 0xfff09838, val: 0xc1d00008, code: Code::SmeSdotDHV2Gi, shape: Sh::GroupIdx, acc: VA::Sd, src: VA::Sh, span: 1, vg: 2, ws: 0x6000, off: 0x7, zn: 0x3c0, zm: 0xf0000, idx: 0x400, za: 0x0, zk: 0x0 }),
        270 => Some(Form { mask: 0xfff09c18, val: 0xc1601400, code: Code::SmeSdotDHV2Gs, shape: Sh::GroupSingle, acc: VA::Sd, src: VA::Sh, span: 1, vg: 2, ws: 0x6000, off: 0x7, zn: 0x3e0, zm: 0xf0000, idx: 0x0, za: 0x0, zk: 0x0 }),
        271 => Some(Form { mask: 0xffe39c78, val: 0xc1e11400, code: Code::SmeSdotDHV4Gg, shape: Sh::GroupGroup, acc: VA::Sd, src: VA::Sh, span: 1, vg: 4, ws: 0x6000, off: 0x7, zn: 0x380, zm: 0x1c0000, idx: 0x0, za: 0x0, zk: 0x0 }),
        272 => Some(Form { mask: 0xfff09878, val: 0xc1d08008, code: Code::SmeSdotDHV4Gi, shape: Sh::GroupIdx, acc: VA::Sd, src: VA::Sh, span: 1, vg: 4, ws: 0x6000, off: 0x7, zn: 0x380, zm: 0xf0000, idx: 0x400, za: 0x0, zk: 0x0 }),
        273 => Some(Form { mask: 0xfff09c18, val: 0xc1701400, code: Code::SmeSdotDHV4Gs, shape: Sh::GroupSingle, acc: VA::Sd, src: VA::Sh, span: 1, vg: 4, ws: 0x6000, off: 0x7, zn: 0x3e0, zm: 0xf0000, idx: 0x0, za: 0x0, zk: 0x0 }),
        274 => Some(Form { mask: 0xffe19c38, val: 0xc1a01400, code: Code::SmeSdotSBV2Gg, shape: Sh::GroupGroup, acc: VA::Ss, src: VA::Sb, span: 1, vg: 2, ws: 0x6000, off: 0x7, zn: 0x3c0, zm: 0x1e0000, idx: 0x0, za: 0x0, zk: 0x0 }),
        275 => Some(Form { mask: 0xfff09038, val: 0xc1501020, code: Code::SmeSdotSBV2Gi, shape: Sh::GroupIdx, acc: VA::Ss, src: VA::Sb, span: 1, vg: 2, ws: 0x6000, off: 0x7, zn: 0x3c0, zm: 0xf0000, idx: 0xc00, za: 0x0, zk: 0x0 }),
        276 => Some(Form { mask: 0xfff09c18, val: 0xc1201400, code: Code::SmeSdotSBV2Gs, shape: Sh::GroupSingle, acc: VA::Ss, src: VA::Sb, span: 1, vg: 2, ws: 0x6000, off: 0x7, zn: 0x3e0, zm: 0xf0000, idx: 0x0, za: 0x0, zk: 0x0 }),
        277 => Some(Form { mask: 0xffe39c78, val: 0xc1a11400, code: Code::SmeSdotSBV4Gg, shape: Sh::GroupGroup, acc: VA::Ss, src: VA::Sb, span: 1, vg: 4, ws: 0x6000, off: 0x7, zn: 0x380, zm: 0x1c0000, idx: 0x0, za: 0x0, zk: 0x0 }),
        278 => Some(Form { mask: 0xfff09078, val: 0xc1509020, code: Code::SmeSdotSBV4Gi, shape: Sh::GroupIdx, acc: VA::Ss, src: VA::Sb, span: 1, vg: 4, ws: 0x6000, off: 0x7, zn: 0x380, zm: 0xf0000, idx: 0xc00, za: 0x0, zk: 0x0 }),
        279 => Some(Form { mask: 0xfff09c18, val: 0xc1301400, code: Code::SmeSdotSBV4Gs, shape: Sh::GroupSingle, acc: VA::Ss, src: VA::Sb, span: 1, vg: 4, ws: 0x6000, off: 0x7, zn: 0x3e0, zm: 0xf0000, idx: 0x0, za: 0x0, zk: 0x0 }),
        280 => Some(Form { mask: 0xffe19c38, val: 0xc1e01408, code: Code::SmeSdotSHV2Gg, shape: Sh::GroupGroup, acc: VA::Ss, src: VA::Sh, span: 1, vg: 2, ws: 0x6000, off: 0x7, zn: 0x3c0, zm: 0x1e0000, idx: 0x0, za: 0x0, zk: 0x0 }),
        281 => Some(Form { mask: 0xfff09038, val: 0xc1501000, code: Code::SmeSdotSHV2Gi, shape: Sh::GroupIdx, acc: VA::Ss, src: VA::Sh, span: 1, vg: 2, ws: 0x6000, off: 0x7, zn: 0x3c0, zm: 0xf0000, idx: 0xc00, za: 0x0, zk: 0x0 }),
        282 => Some(Form { mask: 0xfff09c18, val: 0xc1601408, code: Code::SmeSdotSHV2Gs, shape: Sh::GroupSingle, acc: VA::Ss, src: VA::Sh, span: 1, vg: 2, ws: 0x6000, off: 0x7, zn: 0x3e0, zm: 0xf0000, idx: 0x0, za: 0x0, zk: 0x0 }),
        283 => Some(Form { mask: 0xffe39c78, val: 0xc1e11408, code: Code::SmeSdotSHV4Gg, shape: Sh::GroupGroup, acc: VA::Ss, src: VA::Sh, span: 1, vg: 4, ws: 0x6000, off: 0x7, zn: 0x380, zm: 0x1c0000, idx: 0x0, za: 0x0, zk: 0x0 }),
        284 => Some(Form { mask: 0xfff09078, val: 0xc1509000, code: Code::SmeSdotSHV4Gi, shape: Sh::GroupIdx, acc: VA::Ss, src: VA::Sh, span: 1, vg: 4, ws: 0x6000, off: 0x7, zn: 0x380, zm: 0xf0000, idx: 0xc00, za: 0x0, zk: 0x0 }),
        285 => Some(Form { mask: 0xfff09c18, val: 0xc1701408, code: Code::SmeSdotSHV4Gs, shape: Sh::GroupSingle, acc: VA::Ss, src: VA::Sh, span: 1, vg: 4, ws: 0x6000, off: 0x7, zn: 0x3e0, zm: 0xf0000, idx: 0x0, za: 0x0, zk: 0x0 }),
        286 => Some(Form { mask: 0xffe19c38, val: 0xc1e01818, code: Code::SmeSubDDV2Gg, shape: Sh::GroupGroup, acc: VA::Sd, src: VA::Sd, span: 1, vg: 2, ws: 0x6000, off: 0x7, zn: 0x3c0, zm: 0x1e0000, idx: 0x0, za: 0x0, zk: 0x0 }),
        287 => Some(Form { mask: 0xffff9c38, val: 0xc1e01c18, code: Code::SmeSubDDV2Go, shape: Sh::GroupOnly, acc: VA::Sd, src: VA::Sd, span: 1, vg: 2, ws: 0x6000, off: 0x7, zn: 0x3c0, zm: 0x0, idx: 0x0, za: 0x0, zk: 0x0 }),
        288 => Some(Form { mask: 0xfff09c18, val: 0xc1601818, code: Code::SmeSubDDV2Gs, shape: Sh::GroupSingle, acc: VA::Sd, src: VA::Sd, span: 1, vg: 2, ws: 0x6000, off: 0x7, zn: 0x3e0, zm: 0xf0000, idx: 0x0, za: 0x0, zk: 0x0 }),
        289 => Some(Form { mask: 0xffe39c78, val: 0xc1e11818, code: Code::SmeSubDDV4Gg, shape: Sh::GroupGroup, acc: VA::Sd, src: VA::Sd, span: 1, vg: 4, ws: 0x6000, off: 0x7, zn: 0x380, zm: 0x1c0000, idx: 0x0, za: 0x0, zk: 0x0 }),
        290 => Some(Form { mask: 0xffff9c78, val: 0xc1e11c18, code: Code::SmeSubDDV4Go, shape: Sh::GroupOnly, acc: VA::Sd, src: VA::Sd, span: 1, vg: 4, ws: 0x6000, off: 0x7, zn: 0x380, zm: 0x0, idx: 0x0, za: 0x0, zk: 0x0 }),
        291 => Some(Form { mask: 0xfff09c18, val: 0xc1701818, code: Code::SmeSubDDV4Gs, shape: Sh::GroupSingle, acc: VA::Sd, src: VA::Sd, span: 1, vg: 4, ws: 0x6000, off: 0x7, zn: 0x3e0, zm: 0xf0000, idx: 0x0, za: 0x0, zk: 0x0 }),
        292 => Some(Form { mask: 0xffe19c38, val: 0xc1a01818, code: Code::SmeSubSSV2Gg, shape: Sh::GroupGroup, acc: VA::Ss, src: VA::Ss, span: 1, vg: 2, ws: 0x6000, off: 0x7, zn: 0x3c0, zm: 0x1e0000, idx: 0x0, za: 0x0, zk: 0x0 }),
        293 => Some(Form { mask: 0xffff9c38, val: 0xc1a01c18, code: Code::SmeSubSSV2Go, shape: Sh::GroupOnly, acc: VA::Ss, src: VA::Ss, span: 1, vg: 2, ws: 0x6000, off: 0x7, zn: 0x3c0, zm: 0x0, idx: 0x0, za: 0x0, zk: 0x0 }),
        294 => Some(Form { mask: 0xfff09c18, val: 0xc1201818, code: Code::SmeSubSSV2Gs, shape: Sh::GroupSingle, acc: VA::Ss, src: VA::Ss, span: 1, vg: 2, ws: 0x6000, off: 0x7, zn: 0x3e0, zm: 0xf0000, idx: 0x0, za: 0x0, zk: 0x0 }),
        295 => Some(Form { mask: 0xffe39c78, val: 0xc1a11818, code: Code::SmeSubSSV4Gg, shape: Sh::GroupGroup, acc: VA::Ss, src: VA::Ss, span: 1, vg: 4, ws: 0x6000, off: 0x7, zn: 0x380, zm: 0x1c0000, idx: 0x0, za: 0x0, zk: 0x0 }),
        296 => Some(Form { mask: 0xffff9c78, val: 0xc1a11c18, code: Code::SmeSubSSV4Go, shape: Sh::GroupOnly, acc: VA::Ss, src: VA::Ss, span: 1, vg: 4, ws: 0x6000, off: 0x7, zn: 0x380, zm: 0x0, idx: 0x0, za: 0x0, zk: 0x0 }),
        297 => Some(Form { mask: 0xfff09c18, val: 0xc1301818, code: Code::SmeSubSSV4Gs, shape: Sh::GroupSingle, acc: VA::Ss, src: VA::Ss, span: 1, vg: 4, ws: 0x6000, off: 0x7, zn: 0x3e0, zm: 0xf0000, idx: 0x0, za: 0x0, zk: 0x0 }),
        298 => Some(Form { mask: 0xfff09038, val: 0xc1501038, code: Code::SmeSudotSBV2Gi, shape: Sh::GroupIdx, acc: VA::Ss, src: VA::Sb, span: 1, vg: 2, ws: 0x6000, off: 0x7, zn: 0x3c0, zm: 0xf0000, idx: 0xc00, za: 0x0, zk: 0x0 }),
        299 => Some(Form { mask: 0xfff09c18, val: 0xc1201418, code: Code::SmeSudotSBV2Gs, shape: Sh::GroupSingle, acc: VA::Ss, src: VA::Sb, span: 1, vg: 2, ws: 0x6000, off: 0x7, zn: 0x3e0, zm: 0xf0000, idx: 0x0, za: 0x0, zk: 0x0 }),
        300 => Some(Form { mask: 0xfff09078, val: 0xc1509038, code: Code::SmeSudotSBV4Gi, shape: Sh::GroupIdx, acc: VA::Ss, src: VA::Sb, span: 1, vg: 4, ws: 0x6000, off: 0x7, zn: 0x380, zm: 0xf0000, idx: 0xc00, za: 0x0, zk: 0x0 }),
        301 => Some(Form { mask: 0xfff09c18, val: 0xc1301418, code: Code::SmeSudotSBV4Gs, shape: Sh::GroupSingle, acc: VA::Ss, src: VA::Sb, span: 1, vg: 4, ws: 0x6000, off: 0x7, zn: 0x3e0, zm: 0xf0000, idx: 0x0, za: 0x0, zk: 0x0 }),
        302 => Some(Form { mask: 0xfff09078, val: 0xc1508038, code: Code::SmeSuvdotSBV4Gi, shape: Sh::GroupIdx, acc: VA::Ss, src: VA::Sb, span: 1, vg: 4, ws: 0x6000, off: 0x7, zn: 0x380, zm: 0xf0000, idx: 0xc00, za: 0x0, zk: 0x0 }),
        303 => Some(Form { mask: 0xfff09878, val: 0xc1d08808, code: Code::SmeSvdotDHV4Gi, shape: Sh::GroupIdx, acc: VA::Sd, src: VA::Sh, span: 1, vg: 4, ws: 0x6000, off: 0x7, zn: 0x380, zm: 0xf0000, idx: 0x400, za: 0x0, zk: 0x0 }),
        304 => Some(Form { mask: 0xfff09038, val: 0xc1500020, code: Code::SmeSvdotSHV2Gi, shape: Sh::GroupIdx, acc: VA::Ss, src: VA::Sh, span: 1, vg: 2, ws: 0x6000, off: 0x7, zn: 0x3c0, zm: 0xf0000, idx: 0xc00, za: 0x0, zk: 0x0 }),
        305 => Some(Form { mask: 0xffe19c38, val: 0xc1e01410, code: Code::SmeUdotDHV2Gg, shape: Sh::GroupGroup, acc: VA::Sd, src: VA::Sh, span: 1, vg: 2, ws: 0x6000, off: 0x7, zn: 0x3c0, zm: 0x1e0000, idx: 0x0, za: 0x0, zk: 0x0 }),
        306 => Some(Form { mask: 0xfff09838, val: 0xc1d00018, code: Code::SmeUdotDHV2Gi, shape: Sh::GroupIdx, acc: VA::Sd, src: VA::Sh, span: 1, vg: 2, ws: 0x6000, off: 0x7, zn: 0x3c0, zm: 0xf0000, idx: 0x400, za: 0x0, zk: 0x0 }),
        307 => Some(Form { mask: 0xfff09c18, val: 0xc1601410, code: Code::SmeUdotDHV2Gs, shape: Sh::GroupSingle, acc: VA::Sd, src: VA::Sh, span: 1, vg: 2, ws: 0x6000, off: 0x7, zn: 0x3e0, zm: 0xf0000, idx: 0x0, za: 0x0, zk: 0x0 }),
        308 => Some(Form { mask: 0xffe39c78, val: 0xc1e11410, code: Code::SmeUdotDHV4Gg, shape: Sh::GroupGroup, acc: VA::Sd, src: VA::Sh, span: 1, vg: 4, ws: 0x6000, off: 0x7, zn: 0x380, zm: 0x1c0000, idx: 0x0, za: 0x0, zk: 0x0 }),
        309 => Some(Form { mask: 0xfff09878, val: 0xc1d08018, code: Code::SmeUdotDHV4Gi, shape: Sh::GroupIdx, acc: VA::Sd, src: VA::Sh, span: 1, vg: 4, ws: 0x6000, off: 0x7, zn: 0x380, zm: 0xf0000, idx: 0x400, za: 0x0, zk: 0x0 }),
        310 => Some(Form { mask: 0xfff09c18, val: 0xc1701410, code: Code::SmeUdotDHV4Gs, shape: Sh::GroupSingle, acc: VA::Sd, src: VA::Sh, span: 1, vg: 4, ws: 0x6000, off: 0x7, zn: 0x3e0, zm: 0xf0000, idx: 0x0, za: 0x0, zk: 0x0 }),
        311 => Some(Form { mask: 0xffe19c38, val: 0xc1a01410, code: Code::SmeUdotSBV2Gg, shape: Sh::GroupGroup, acc: VA::Ss, src: VA::Sb, span: 1, vg: 2, ws: 0x6000, off: 0x7, zn: 0x3c0, zm: 0x1e0000, idx: 0x0, za: 0x0, zk: 0x0 }),
        312 => Some(Form { mask: 0xfff09038, val: 0xc1501030, code: Code::SmeUdotSBV2Gi, shape: Sh::GroupIdx, acc: VA::Ss, src: VA::Sb, span: 1, vg: 2, ws: 0x6000, off: 0x7, zn: 0x3c0, zm: 0xf0000, idx: 0xc00, za: 0x0, zk: 0x0 }),
        313 => Some(Form { mask: 0xfff09c18, val: 0xc1201410, code: Code::SmeUdotSBV2Gs, shape: Sh::GroupSingle, acc: VA::Ss, src: VA::Sb, span: 1, vg: 2, ws: 0x6000, off: 0x7, zn: 0x3e0, zm: 0xf0000, idx: 0x0, za: 0x0, zk: 0x0 }),
        314 => Some(Form { mask: 0xffe39c78, val: 0xc1a11410, code: Code::SmeUdotSBV4Gg, shape: Sh::GroupGroup, acc: VA::Ss, src: VA::Sb, span: 1, vg: 4, ws: 0x6000, off: 0x7, zn: 0x380, zm: 0x1c0000, idx: 0x0, za: 0x0, zk: 0x0 }),
        315 => Some(Form { mask: 0xfff09078, val: 0xc1509030, code: Code::SmeUdotSBV4Gi, shape: Sh::GroupIdx, acc: VA::Ss, src: VA::Sb, span: 1, vg: 4, ws: 0x6000, off: 0x7, zn: 0x380, zm: 0xf0000, idx: 0xc00, za: 0x0, zk: 0x0 }),
        316 => Some(Form { mask: 0xfff09c18, val: 0xc1301410, code: Code::SmeUdotSBV4Gs, shape: Sh::GroupSingle, acc: VA::Ss, src: VA::Sb, span: 1, vg: 4, ws: 0x6000, off: 0x7, zn: 0x3e0, zm: 0xf0000, idx: 0x0, za: 0x0, zk: 0x0 }),
        317 => Some(Form { mask: 0xffe19c38, val: 0xc1e01418, code: Code::SmeUdotSHV2Gg, shape: Sh::GroupGroup, acc: VA::Ss, src: VA::Sh, span: 1, vg: 2, ws: 0x6000, off: 0x7, zn: 0x3c0, zm: 0x1e0000, idx: 0x0, za: 0x0, zk: 0x0 }),
        318 => Some(Form { mask: 0xfff09038, val: 0xc1501010, code: Code::SmeUdotSHV2Gi, shape: Sh::GroupIdx, acc: VA::Ss, src: VA::Sh, span: 1, vg: 2, ws: 0x6000, off: 0x7, zn: 0x3c0, zm: 0xf0000, idx: 0xc00, za: 0x0, zk: 0x0 }),
        319 => Some(Form { mask: 0xfff09c18, val: 0xc1601418, code: Code::SmeUdotSHV2Gs, shape: Sh::GroupSingle, acc: VA::Ss, src: VA::Sh, span: 1, vg: 2, ws: 0x6000, off: 0x7, zn: 0x3e0, zm: 0xf0000, idx: 0x0, za: 0x0, zk: 0x0 }),
        320 => Some(Form { mask: 0xffe39c78, val: 0xc1e11418, code: Code::SmeUdotSHV4Gg, shape: Sh::GroupGroup, acc: VA::Ss, src: VA::Sh, span: 1, vg: 4, ws: 0x6000, off: 0x7, zn: 0x380, zm: 0x1c0000, idx: 0x0, za: 0x0, zk: 0x0 }),
        321 => Some(Form { mask: 0xfff09078, val: 0xc1509010, code: Code::SmeUdotSHV4Gi, shape: Sh::GroupIdx, acc: VA::Ss, src: VA::Sh, span: 1, vg: 4, ws: 0x6000, off: 0x7, zn: 0x380, zm: 0xf0000, idx: 0xc00, za: 0x0, zk: 0x0 }),
        322 => Some(Form { mask: 0xfff09c18, val: 0xc1701418, code: Code::SmeUdotSHV4Gs, shape: Sh::GroupSingle, acc: VA::Ss, src: VA::Sh, span: 1, vg: 4, ws: 0x6000, off: 0x7, zn: 0x3e0, zm: 0xf0000, idx: 0x0, za: 0x0, zk: 0x0 }),
        323 => Some(Form { mask: 0xffe19c38, val: 0xc1a01408, code: Code::SmeUsdotSBV2Gg, shape: Sh::GroupGroup, acc: VA::Ss, src: VA::Sb, span: 1, vg: 2, ws: 0x6000, off: 0x7, zn: 0x3c0, zm: 0x1e0000, idx: 0x0, za: 0x0, zk: 0x0 }),
        324 => Some(Form { mask: 0xfff09038, val: 0xc1501028, code: Code::SmeUsdotSBV2Gi, shape: Sh::GroupIdx, acc: VA::Ss, src: VA::Sb, span: 1, vg: 2, ws: 0x6000, off: 0x7, zn: 0x3c0, zm: 0xf0000, idx: 0xc00, za: 0x0, zk: 0x0 }),
        325 => Some(Form { mask: 0xfff09c18, val: 0xc1201408, code: Code::SmeUsdotSBV2Gs, shape: Sh::GroupSingle, acc: VA::Ss, src: VA::Sb, span: 1, vg: 2, ws: 0x6000, off: 0x7, zn: 0x3e0, zm: 0xf0000, idx: 0x0, za: 0x0, zk: 0x0 }),
        326 => Some(Form { mask: 0xffe39c78, val: 0xc1a11408, code: Code::SmeUsdotSBV4Gg, shape: Sh::GroupGroup, acc: VA::Ss, src: VA::Sb, span: 1, vg: 4, ws: 0x6000, off: 0x7, zn: 0x380, zm: 0x1c0000, idx: 0x0, za: 0x0, zk: 0x0 }),
        327 => Some(Form { mask: 0xfff09078, val: 0xc1509028, code: Code::SmeUsdotSBV4Gi, shape: Sh::GroupIdx, acc: VA::Ss, src: VA::Sb, span: 1, vg: 4, ws: 0x6000, off: 0x7, zn: 0x380, zm: 0xf0000, idx: 0xc00, za: 0x0, zk: 0x0 }),
        328 => Some(Form { mask: 0xfff09c18, val: 0xc1301408, code: Code::SmeUsdotSBV4Gs, shape: Sh::GroupSingle, acc: VA::Ss, src: VA::Sb, span: 1, vg: 4, ws: 0x6000, off: 0x7, zn: 0x3e0, zm: 0xf0000, idx: 0x0, za: 0x0, zk: 0x0 }),
        329 => Some(Form { mask: 0xfff09078, val: 0xc1508028, code: Code::SmeUsvdotSBV4Gi, shape: Sh::GroupIdx, acc: VA::Ss, src: VA::Sb, span: 1, vg: 4, ws: 0x6000, off: 0x7, zn: 0x380, zm: 0xf0000, idx: 0xc00, za: 0x0, zk: 0x0 }),
        330 => Some(Form { mask: 0xfff09878, val: 0xc1d08818, code: Code::SmeUvdotDHV4Gi, shape: Sh::GroupIdx, acc: VA::Sd, src: VA::Sh, span: 1, vg: 4, ws: 0x6000, off: 0x7, zn: 0x380, zm: 0xf0000, idx: 0x400, za: 0x0, zk: 0x0 }),
        331 => Some(Form { mask: 0xfff09038, val: 0xc1500030, code: Code::SmeUvdotSHV2Gi, shape: Sh::GroupIdx, acc: VA::Ss, src: VA::Sh, span: 1, vg: 2, ws: 0x6000, off: 0x7, zn: 0x3c0, zm: 0xf0000, idx: 0xc00, za: 0x0, zk: 0x0 }),
        332 => Some(Form { mask: 0xffe19c38, val: 0xc1a01030, code: Code::SmeFdotSBV2Gg, shape: Sh::GroupGroup, acc: VA::Ss, src: VA::Sb, span: 1, vg: 2, ws: 0x6000, off: 0x7, zn: 0x3c0, zm: 0x1e0000, idx: 0x0, za: 0x0, zk: 0x0 }),
        333 => Some(Form { mask: 0xfff09038, val: 0xc1500038, code: Code::SmeFdotSBV2Gi, shape: Sh::GroupIdx, acc: VA::Ss, src: VA::Sb, span: 1, vg: 2, ws: 0x6000, off: 0x7, zn: 0x3c0, zm: 0xf0000, idx: 0xc00, za: 0x0, zk: 0x0 }),
        334 => Some(Form { mask: 0xfff09c18, val: 0xc1201018, code: Code::SmeFdotSBV2Gs, shape: Sh::GroupSingle, acc: VA::Ss, src: VA::Sb, span: 1, vg: 2, ws: 0x6000, off: 0x7, zn: 0x3e0, zm: 0xf0000, idx: 0x0, za: 0x0, zk: 0x0 }),
        335 => Some(Form { mask: 0xffe39c78, val: 0xc1a11030, code: Code::SmeFdotSBV4Gg, shape: Sh::GroupGroup, acc: VA::Ss, src: VA::Sb, span: 1, vg: 4, ws: 0x6000, off: 0x7, zn: 0x380, zm: 0x1c0000, idx: 0x0, za: 0x0, zk: 0x0 }),
        336 => Some(Form { mask: 0xfff09078, val: 0xc1508008, code: Code::SmeFdotSBV4Gi, shape: Sh::GroupIdx, acc: VA::Ss, src: VA::Sb, span: 1, vg: 4, ws: 0x6000, off: 0x7, zn: 0x380, zm: 0xf0000, idx: 0xc00, za: 0x0, zk: 0x0 }),
        337 => Some(Form { mask: 0xfff09c18, val: 0xc1301018, code: Code::SmeFdotSBV4Gs, shape: Sh::GroupSingle, acc: VA::Ss, src: VA::Sb, span: 1, vg: 4, ws: 0x6000, off: 0x7, zn: 0x3e0, zm: 0xf0000, idx: 0x0, za: 0x0, zk: 0x0 }),
        338 => Some(Form { mask: 0xfff09030, val: 0xc1d01020, code: Code::SmeFvdotHBV2Gi, shape: Sh::GroupIdx, acc: VA::Sh, src: VA::Sb, span: 1, vg: 2, ws: 0x6000, off: 0x7, zn: 0x3c0, zm: 0xf0000, idx: 0xc08, za: 0x0, zk: 0x0 }),
        339 => Some(Form { mask: 0xfff09078, val: 0xc1508020, code: Code::SmeSvdotSBV4Gi, shape: Sh::GroupIdx, acc: VA::Ss, src: VA::Sb, span: 1, vg: 4, ws: 0x6000, off: 0x7, zn: 0x380, zm: 0xf0000, idx: 0xc00, za: 0x0, zk: 0x0 }),
        340 => Some(Form { mask: 0xfff09078, val: 0xc1508030, code: Code::SmeUvdotSBV4Gi, shape: Sh::GroupIdx, acc: VA::Ss, src: VA::Sb, span: 1, vg: 4, ws: 0x6000, off: 0x7, zn: 0x380, zm: 0xf0000, idx: 0xc00, za: 0x0, zk: 0x0 }),
        _ => None,
    }
}

/// Row `i` of the SME2 multi-vector ALU encoding table, or `None` past its
/// end.
pub open spec fn alu_row(i: usize) -> Option<AluForm> {
    match i {
        0 => Some(AluForm { mask: 0xff21e021, val: 0xc1208000, code: Code::SmeSelMV2, shape: AluSh::SelGroup, arr: AluArr::Bhsd, vg: 2, zd: 0x1e, pn: 0x1c00, zn: 0x3c0, zm: 0x1e0000 }),
        1 => Some(AluForm { mask: 0xff23e063, val: 0xc1218000, code: Code::SmeSelMV4, shape: AluSh::SelGroup, arr: AluArr::Bhsd, vg: 4, zd: 0x1c, pn: 0x1c00, zn: 0x380, zm: 0x1c0000 }),
        2 => Some(AluForm { mask: 0xff20fc01, val: 0xc120c400, code: Code::SmeSclampMV2, shape: AluSh::TwoSingle, arr: AluArr::Bhsd, vg: 2, zd: 0x1e, pn: 0x0, zn: 0x3e0, zm: 0x1f0000 }),
        3 => Some(AluForm { mask: 0xff20fc01, val: 0xc120c401, code: Code::SmeUclampMV2, shape: AluSh::TwoSingle, arr: AluArr::Bhsd, vg: 2, zd: 0x1e, pn: 0x0, zn: 0x3e0, zm: 0x1f0000 }),
        4 => Some(AluForm { mask: 0xff20fc03, val: 0xc120cc00, code: Code::SmeSclampMV4, shape: AluSh::TwoSingle, arr: AluArr::Bhsd, vg: 4, zd: 0x1c, pn: 0x0, zn: 0x3e0, zm: 0x1f0000 }),
        5 => Some(AluForm { mask: 0xff20fc03, val: 0xc120cc01, code: Code::SmeUclampMV4, shape: AluSh::TwoSingle, arr: AluArr::Bhsd, vg: 4, zd: 0x1c, pn: 0x0, zn: 0x3e0, zm: 0x1f0000 }),
        6 => Some(AluForm { mask: 0xffe0fc01, val: 0xc120c000, code: Code::SmeBfclampMV2, shape: AluSh::TwoSingle, arr: AluArr::BfH, vg: 2, zd: 0x1e, pn: 0x0, zn: 0x3e0, zm: 0x1f0000 }),
        7 => Some(AluForm { mask: 0xffe0fc03, val: 0xc120c800, code: Code::SmeBfclampMV4, shape: AluSh::TwoSingle, arr: AluArr::BfH, vg: 4, zd: 0x1c, pn: 0x0, zn: 0x3e0, zm: 0x1f0000 }),
        8 => Some(AluForm { mask: 0xff60fc01, val: 0xc160c000, code: Code::SmeFclampMV2, shape: AluSh::TwoSingle, arr: AluArr::Fp, vg: 2, zd: 0x1e, pn: 0x0, zn: 0x3e0, zm: 0x1f0000 }),
        9 => Some(AluForm { mask: 0xffe0fc01, val: 0xc1a0c000, code: Code::SmeFclampMV2, shape: AluSh::TwoSingle, arr: AluArr::Fp, vg: 2, zd: 0x1e, pn: 0x0, zn: 0x3e0, zm: 0x1f0000 }),
        10 => Some(AluForm { mask: 0xff60fc03, val: 0xc160c800, code: Code::SmeFclampMV4, shape: AluSh::TwoSingle, arr: AluArr::Fp, vg: 4, zd: 0x1c, pn: 0x0, zn: 0x3e0, zm: 0x1f0000 }),
        11 => Some(AluForm { mask: 0xffe0fc03, val: 0xc1a0c800, code: Code::SmeFclampMV4, shape: AluSh::TwoSingle, arr: AluArr::Fp, vg: 4, zd: 0x1c, pn: 0x0, zn: 0x3e0, zm: 0x1f0000 }),
        12 => Some(AluForm { mask: 0xff20f801, val: 0xc120d000, code: Code::SmeZipMV2, shape: AluSh::TwoSingle, arr: AluArr::Zip2, vg: 2, zd: 0x1e, pn: 0x0, zn: 0x3e0, zm: 0x1f0000 }),
        13 => Some(AluForm { mask: 0xff20f801, val: 0xc120d001, code: Code::SmeUzpMV2, shape: AluSh::TwoSingle, arr: AluArr::Zip2, vg: 2, zd: 0x1e, pn: 0x0, zn: 0x3e0, zm: 0x1f0000 }),
        14 => Some(AluForm { mask: 0xff3efc63, val: 0xc136e000, code: Code::SmeZipMV4, shape: AluSh::ZipGroup, arr: AluArr::Zip4, vg: 4, zd: 0x1c, pn: 0x0, zn: 0x380, zm: 0x0 }),
        15 => Some(AluForm { mask: 0xff3efc63, val: 0xc136e002, code: Code::SmeUzpMV4, shape: AluSh::ZipGroup, arr: AluArr::Zip4, vg: 4, zd: 0x1c, pn: 0x0, zn: 0x380, zm: 0x0 }),
        16 => Some(AluForm { mask: 0xffe1fc21, val: 0xc120e400, code: Code::SmeBfmulMV2, shape: AluSh::GroupGroup3, arr: AluArr::BfH, vg: 2, zd: 0x1e, pn: 0x0, zn: 0x3c0, zm: 0x1e0000 }),
        17 => Some(AluForm { mask: 0xffe3fc63, val: 0xc121e400, code: Code::SmeBfmulMV4, shape: AluSh::GroupGroup3, arr: AluArr::BfH, vg: 4, zd: 0x1c, pn: 0x0, zn: 0x380, zm: 0x1c0000 }),
        18 => Some(AluForm { mask: 0xffe1fc21, val: 0xc120e800, code: Code::SmeBfmulMVS2, shape: AluSh::GroupGroupSingle, arr: AluArr::BfH, vg: 2, zd: 0x1e, pn: 0x0, zn: 0x3c0, zm: 0x1e0000 }),
        19 => Some(AluForm { mask: 0xffe1fc63, val: 0xc121e800, code: Code::SmeBfmulMVS4, shape: AluSh::GroupGroupSingle, arr: AluArr::BfH, vg: 4, zd: 0x1c, pn: 0x0, zn: 0x380, zm: 0x1e0000 }),
        20 => Some(AluForm { mask: 0xff61fc21, val: 0xc160e400, code: Code::SmeFmulMV2, shape: AluSh::GroupGroup3, arr: AluArr::Fp, vg: 2, zd: 0x1e, pn: 0x0, zn: 0x3c0, zm: 0x1e0000 }),
        21 => Some(AluForm { mask: 0xffe1fc21, val: 0xc1a0e400, code: Code::SmeFmulMV2, shape: AluSh::GroupGroup3, arr: AluArr::Fp, vg: 2, zd: 0x1e, pn: 0x0, zn: 0x3c0, zm: 0x1e0000 }),
        22 => Some(AluForm { mask: 0xff63fc63, val: 0xc161e400, code: Code::SmeFmulMV4, shape: AluSh::GroupGroup3, arr: AluArr::Fp, vg: 4, zd: 0x1c, pn: 0x0, zn: 0x380, zm: 0x1c0000 }),
        23 => Some(AluForm { mask: 0xffe3fc63, val: 0xc1a1e400, code: Code::SmeFmulMV4, shape: AluSh::GroupGroup3, arr: AluArr::Fp, vg: 4, zd: 0x1c, pn: 0x0, zn: 0x380, zm: 0x1c0000 }),
        24 => Some(AluForm { mask: 0xff21ffe1, val: 0xc120b100, code: Code::SmeFmaxMV2,   shape: AluSh::GroupGroup3, arr: AluArr::Fp, vg: 2, zd: 0x1e, pn: 0x0, zn: 0x1e, zm: 0x1e0000 }),
        25 => Some(AluForm { mask: 0xff21ffe1, val: 0xc120b101, code: Code::SmeFminMV2,   shape: AluSh::GroupGroup3, arr: AluArr::Fp, vg: 2, zd: 0x1e, pn: 0x0, zn: 0x1e, zm: 0x1e0000 }),
        26 => Some(AluForm { mask: 0xff21ffe1, val: 0xc120b120, code: Code::SmeFmaxnmMV2, shape: AluSh::GroupGroup3, arr: AluArr::Fp, vg: 2, zd: 0x1e, pn: 0x0, zn: 0x1e, zm: 0x1e0000 }),
        27 => Some(AluForm { mask: 0xff21ffe1, val: 0xc120b121, code: Code::SmeFminnmMV2, shape: AluSh::GroupGroup3, arr: AluArr::Fp, vg: 2, zd: 0x1e, pn: 0x0, zn: 0x1e, zm: 0x1e0000 }),
        28 => Some(AluForm { mask: 0xff23ffe3, val: 0xc120b900, code: Code::SmeFmaxMV4,   shape: AluSh::GroupGroup3, arr: AluArr::Fp, vg: 4, zd: 0x1c, pn: 0x0, zn: 0x1c, zm: 0x1c0000 }),
        29 => Some(AluForm { mask: 0xff23ffe3, val: 0xc120b901, code: Code::SmeFminMV4,   shape: AluSh::GroupGroup3, arr: AluArr::Fp, vg: 4, zd: 0x1c, pn: 0x0, zn: 0x1c, zm: 0x1c0000 }),
        30 => Some(AluForm { mask: 0xff23ffe3, val: 0xc120b920, code: Code::SmeFmaxnmMV4, shape: AluSh::GroupGroup3, arr: AluArr::Fp, vg: 4, zd: 0x1c, pn: 0x0, zn: 0x1c, zm: 0x1c0000 }),
        31 => Some(AluForm { mask: 0xff23ffe3, val: 0xc120b921, code: Code::SmeFminnmMV4, shape: AluSh::GroupGroup3, arr: AluArr::Fp, vg: 4, zd: 0x1c, pn: 0x0, zn: 0x1c, zm: 0x1c0000 }),
        32 => Some(AluForm { mask: 0xff61fc21, val: 0xc160e800, code: Code::SmeFmulMVS2, shape: AluSh::GroupGroupSingle, arr: AluArr::Fp, vg: 2, zd: 0x1e, pn: 0x0, zn: 0x3c0, zm: 0x1e0000 }),
        33 => Some(AluForm { mask: 0xffe1fc21, val: 0xc1a0e800, code: Code::SmeFmulMVS2, shape: AluSh::GroupGroupSingle, arr: AluArr::Fp, vg: 2, zd: 0x1e, pn: 0x0, zn: 0x3c0, zm: 0x1e0000 }),
        34 => Some(AluForm { mask: 0xff61fc63, val: 0xc161e800, code: Code::SmeFmulMVS4, shape: AluSh::GroupGroupSingle, arr: AluArr::Fp, vg: 4, zd: 0x1c, pn: 0x0, zn: 0x380, zm: 0x1e0000 }),
        35 => Some(AluForm { mask: 0xffe1fc63, val: 0xc1a1e800, code: Code::SmeFmulMVS4, shape: AluSh::GroupGroupSingle, arr: AluArr::Fp, vg: 4, zd: 0x1c, pn: 0x0, zn: 0x380, zm: 0x1e0000 }),
        _ => None,
    }
}


/// The multi-vector × single MAX of `word & 0xff30f000 == 0xc120a000`
/// (`<10>=0`, `<9:5>=0`, FEAT_SME2): `<0>` clear is the signed SMAX, set the
/// unsigned UMAX, over two (`<11>` clear) or four (`<11>` set) registers.
pub proof fn lemma_mvs_max_signedness(word: u32, features: FeatureSet)
    requires
        word & 0xff30_f000 == 0xc120_a000,
        field(word, 10, 1) == 0,
        field(word, 5, 5) == 0,
        features.contains(Feature::Sme2),
        field(word, 11, 1) == 1 ==> field(word, 1, 1) == 0,
    ensures
        mvs_alu_form(word, features) matches Some(f) && f.0 == if field(word, 0, 1) == 0 {
            if field(word, 11, 1) == 0 { Code::SmeSmaxMVS2 } else { Code::SmeSmaxMVS4 }
        } else {
            if field(word, 11, 1) == 0 { Code::SmeUmaxMVS2 } else { Code::SmeUmaxMVS4 }
        },
{
    crate::bits::lemma_field3_bits(word, 9);
    crate::bits::lemma_field3_bits(word, 0);
}


/// The other signed / unsigned pairs of the multi-vector × single group
/// (`word & 0xff30f000 == 0xc120a000`, `<10>=0`, FEAT_SME2): with `<9:5>`
/// selecting MIN (`00001`) or the rounding shift left (`10001`), `<0>` clear
/// is the signed SMIN / SRSHL and set the unsigned UMIN / URSHL.
pub proof fn lemma_mvs_min_rshl_signedness(word: u32, features: FeatureSet)
    requires
        word & 0xff30_f000 == 0xc120_a000,
        field(word, 10, 1) == 0,
        field(word, 5, 5) == 1 || field(word, 5, 5) == 17,
        features.contains(Feature::Sme2),
        field(word, 11, 1) == 1 ==> field(word, 1, 1) == 0,
    ensures
        mvs_alu_form(word, features) matches Some(f) && f.0 == if field(word, 5, 5) == 1 {
            if field(word, 0, 1) == 0 {
                if field(word, 11, 1) == 0 { Code::SmeSminMVS2 } else { Code::SmeSminMVS4 }
            } else {
                if field(word, 11, 1) == 0 { Code::SmeUminMVS2 } else { Code::SmeUminMVS4 }
            }
        } else {
            if field(word, 0, 1) == 0 {
                if field(word, 11, 1) == 0 { Code::SmeSrshlMVS2 } else { Code::SmeSrshlMVS4 }
            } else {
                if field(word, 11, 1) == 0 { Code::SmeUrshlMVS2 } else { Code::SmeUrshlMVS4 }
            }
        },
{
    crate::bits::lemma_field3_bits(word, 9);
    crate::bits::lemma_field3_bits(word, 0);
}
} // verus!
