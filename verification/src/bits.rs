//! Bit-field extraction over 32-bit instruction words.
use vstd::prelude::*;

verus! {

/// The all-ones mask of the low `n` bits of a `u32` (`n` in `0..=32`).
pub open spec fn low_mask(n: u32) -> u32 {
    match n {
        0 => 0x0,
        1 => 0x1,
        2 => 0x3,
        3 => 0x7,
        4 => 0xf,
        5 => 0x1f,
        6 => 0x3f,
        7 => 0x7f,
        8 => 0xff,
        9 => 0x1ff,
        10 => 0x3ff,
        11 => 0x7ff,
        12 => 0xfff,
        13 => 0x1fff,
        14 => 0x3fff,
        15 => 0x7fff,
        16 => 0xffff,
        17 => 0x1_ffff,
        18 => 0x3_ffff,
        19 => 0x7_ffff,
        20 => 0xf_ffff,
        21 => 0x1f_ffff,
        22 => 0x3f_ffff,
        23 => 0x7f_ffff,
        24 => 0xff_ffff,
        25 => 0x1ff_ffff,
        26 => 0x3ff_ffff,
        27 => 0x7ff_ffff,
        28 => 0xfff_ffff,
        29 => 0x1fff_ffff,
        30 => 0x3fff_ffff,
        31 => 0x7fff_ffff,
        _ => 0xffff_ffff,
    }
}

/// The `n`-bit field of `word` starting at bit `lo`, i.e. `word<lo+n-1:lo>`.
pub open spec fn field(word: u32, lo: u32, n: u32) -> u32 {
    (word >> lo) & low_mask(n)
}

fn mask_of(n: u32) -> (m: u32)
    ensures
        m == low_mask(n),
{
    match n {
        0 => 0x0,
        1 => 0x1,
        2 => 0x3,
        3 => 0x7,
        4 => 0xf,
        5 => 0x1f,
        6 => 0x3f,
        7 => 0x7f,
        8 => 0xff,
        9 => 0x1ff,
        10 => 0x3ff,
        11 => 0x7ff,
        12 => 0xfff,
        13 => 0x1fff,
        14 => 0x3fff,
        15 => 0x7fff,
        16 => 0xffff,
        17 => 0x1_ffff,
        18 => 0x3_ffff,
        19 => 0x7_ffff,
        20 => 0xf_ffff,
        21 => 0x1f_ffff,
        22 => 0x3f_ffff,
        23 => 0x7f_ffff,
        24 => 0xff_ffff,
        25 => 0x1ff_ffff,
        26 => 0x3ff_ffff,
        27 => 0x7ff_ffff,
        28 => 0xfff_ffff,
        29 => 0x1fff_ffff,
        30 => 0x3fff_ffff,
        31 => 0x7fff_ffff,
        _ => 0xffff_ffff,
    }
}

/// Extract `word<lo+n-1:lo>` as an unsigned value.
pub fn bits(word: u32, lo: u32, n: u32) -> (r: u32)
    requires
        lo < 32,
    ensures
        r == field(word, lo, n),
        r <= low_mask(n),
{
    let m = mask_of(n);
    let r = (word >> lo) & m;
    assert(r <= m) by (bit_vector)
        requires
            r == (word >> lo) & m,
    ;
    r
}

/// Extract the single bit `word<i>`.
pub fn bit(word: u32, i: u32) -> (r: u32)
    requires
        i < 32,
    ensures
        r == field(word, i, 1),
        r <= 1,
{
    bits(word, i, 1)
}

/// The two's-complement value of the low `n` bits of `v` (`1 <= n <= 32`).
pub open spec fn sext_spec(v: u64, n: u32) -> int {
    let m = (v & (low_mask(n) as u64)) as int;
    if m > low_mask((n - 1) as u32) as int {
        m - (low_mask(n) as int + 1)
    } else {
        m
    }
}

/// Sign-extend the low `n` bits of `v`.
pub fn sign_extend(v: u64, n: u32) -> (r: i64)
    requires
        1 <= n <= 32,
    ensures
        r as int == sext_spec(v, n),
        -(low_mask(n) as int) - 1 <= r <= low_mask(n) as int,
{
    let mask = mask_of(n);
    let half = mask_of(n - 1);
    let m = v & (mask as u64);
    assert(m <= mask as u64) by (bit_vector)
        requires
            m == v & (mask as u64),
    ;
    if m > half as u64 {
        m as i64 - (mask as i64 + 1)
    } else {
        m as i64
    }
}

/// The all-ones mask of the low `n` bits of a `u64` (`n` in `0..=64`).
pub open spec fn ones64_spec(n: u32) -> u64 {
    if n >= 64 {
        0xffff_ffff_ffff_ffff
    } else {
        ((1u64 << n) - 1) as u64
    }
}

/// The all-ones mask of the low `n` bits of a `u64`.
pub fn ones64(n: u32) -> (r: u64)
    ensures
        r == ones64_spec(n),
{
    if n >= 64 {
        0xffff_ffff_ffff_ffff
    } else {
        let one_shifted: u64 = 1u64 << n;
        assert(one_shifted >= 1) by (bit_vector)
            requires
                one_shifted == 1u64 << n,
                n < 64,
        ;
        one_shifted - 1
    }
}

/// The `n`-bit field of a 64-bit value starting at bit `lo`.
pub open spec fn field64(v: u64, lo: u32, n: u32) -> u64 {
    (v >> lo) & ones64_spec(n)
}

/// Extract `v<lo+n-1:lo>` of a 64-bit value.
pub fn bits64(v: u64, lo: u32, n: u32) -> (r: u64)
    requires
        lo < 64,
    ensures
        r == field64(v, lo, n),
{
    (v >> lo) & ones64(n)
}

/// A three-bit field is made of its three one-bit fields: bit `lo` is its
/// lowest bit and bit `lo + 2` its highest.
pub proof fn lemma_field3_bits(w: u32, lo: u32)
    requires
        lo <= 29,
    ensures
        field(w, lo, 3) < 8,
        field(w, lo, 1) == field(w, lo, 3) % 2,
        field(w, (lo + 1) as u32, 1) == (field(w, lo, 3) / 2) % 2,
        field(w, (lo + 2) as u32, 1) == field(w, lo, 3) / 4,
{
    let l1 = (lo + 1) as u32;
    let l2 = (lo + 2) as u32;
    assert(((w >> lo) & 7u32) < 8 && ((w >> lo) & 1u32) == ((w >> lo) & 7u32) % 2 && ((w >> l1) & 1u32) == (((w
        >> lo) & 7u32) / 2) % 2 && ((w >> l2) & 1u32) == ((w >> lo) & 7u32) / 4) by (bit_vector)
        requires
            lo <= 29,
            l1 == lo + 1,
            l2 == lo + 2,
    ;
}
} // verus!
