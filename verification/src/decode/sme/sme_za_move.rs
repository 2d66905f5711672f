//! SME2 moves of multi-vector groups to or from ZA: `MOV` / `MOVAZ`
//! (FEAT_SME2).
//!
//! The tile-slice forms move a 2- or 4-register `Z` group to or from a
//! horizontal / vertical slice group of a ZA tile (`mov za0h.b[w12, 6:7],
//! { z12.b, z13.b }`); the array forms move it to or from a ZA array slice
//! (`mov { z0.d, z1.d }, za.d[w8, 0, vgx2]`). `movaz` is the readout that also
//! zeroes the source slices. Both live in the SME `110` quadrant (top byte
//! `0xC0`, `word<24> == 0`) with the shell `word<21:19> == 000`,
//! `word<18> == 1`, `word<16> == 0`; `word<12:11>` is `00` for the tile-slice
//! forms and `10` for the array forms.
//!
//! Tile-slice fields:
//!
//! * `word<23:22>` is the element size (`.B`=00 .. `.D`=11).
//! * `word<17>` (`D`): `0` vectors to ZA, `1` ZA to vectors.
//! * `word<15>` (`V`): slice direction (`0` horizontal, `1` vertical).
//! * `word<14:13>` (`Ws`): `w12 + Ws` selects the slice.
//! * `word<10>` (`Q`): `0` two registers, `1` four. The slice range written
//!   is `off:off+span-1` with `span` 2 or 4.
//! * Vectors to ZA: `Zn` group base `word<9:5>`, tile:offset field
//!   `word<2:0>`, `word<4:3>` reserved.
//! * ZA to vectors: `word<9>` selects `MOV` (0) / `MOVAZ` (1), `Zd` base
//!   `word<4:0>`, `word<8>` reserved, tile:offset field `word<7:5>`.
//! * The 3-bit tile:offset field holds the tile in its high bits and the slice
//!   offset in its low bits; the written offset is `field_offset * span`.
use vstd::prelude::*;
use crate::bits::{bit, bits, field};
use crate::code::{code_mnemonic, Code};
use crate::decode::{decode_post, install2, installed};
use crate::decode::ops::{vgroup_spec, zgroup};
use crate::instruction::Instruction;
use crate::operand::Operand;
use crate::types::{gp_register, gp_spec, RegWidth, SliceIndicator, VectorArrangement as VA};

verus! {

/// `2^n` for `n <= 3`.
pub open spec fn pow2_3(n: u32) -> u32 {
    if n == 0 { 1 } else if n == 1 { 2 } else if n == 2 { 4 } else { 8 }
}

/// The element arrangement of a 2-bit size.
pub open spec fn size_arr(size: u32) -> VA {
    if size == 0 { VA::Sb } else if size == 1 { VA::Sh } else if size == 2 { VA::Ss } else { VA::Sd }
}

/// The tile-slice group `za<tile><h|v>.<T>[w<12+ws>, <off>:<off+span-1>]`.
pub open spec fn tile_slice_spec(a: VA, ws: u32, tile: u32, off: u32, span: u8, vertical: bool) -> Operand {
    Operand::SmeZaSlice {
        arr: Some(a),
        sel: gp_spec(false, RegWidth::W32, (12 + ws) as u8),
        off: off as u8,
        span,
        vg: 0,
        tile: tile as u8,
        slice: if vertical { SliceIndicator::Vertical } else { SliceIndicator::Horizontal },
    }
}

/// The instruction a tile-slice `MOV`/`MOVAZ` word encodes, as (code,
/// operands), or `None`.
pub open spec fn tile_move_form(word: u32) -> Option<(Code, Seq<Operand>)> {
    let size = field(word, 22, 2);
    let a = size_arr(size);
    let span: u8 = if field(word, 10, 1) == 1 { 4 } else { 2 };
    let wide = 3 - size;
    let off_bits: u32 = if span == 4 { if wide == 0 { 0 } else { (wide - 1) as u32 } } else { wide as u32 };
    let p = pow2_3(off_bits);
    let ws = field(word, 13, 2);
    let vertical = field(word, 15, 1) == 1;
    if field(word, 19, 3) != 0 || field(word, 18, 1) != 1 || field(word, 16, 1) != 0 || field(word, 11, 2) != 0 {
        None
    } else if field(word, 17, 1) == 1 {
        // ZA to vectors.
        let zd = field(word, 0, 5);
        let f = field(word, 5, 3);
        if field(word, 8, 1) != 0 || zd % (span as u32) != 0 || f / p >= pow2_3(size) {
            None
        } else {
            Some((
                if field(word, 9, 1) == 1 { Code::SmeMovazMultiTileToZ } else { Code::SmeMovaMultiTileToZ },
                seq![vgroup_spec(zd, span, Some(a), 1), tile_slice_spec(a, ws, f / p, ((f % p) * (span as u32)) as u32, span, vertical)],
            ))
        }
    } else {
        // Vectors to ZA.
        let zn = field(word, 5, 5);
        let f = field(word, 0, 3);
        if field(word, 3, 2) != 0 || zn % (span as u32) != 0 || f / p >= pow2_3(size) {
            None
        } else {
            Some((
                Code::SmeMovaMultiZToTile,
                seq![tile_slice_spec(a, ws, f / p, ((f % p) * (span as u32)) as u32, span, vertical), vgroup_spec(zn, span, Some(a), 1)],
            ))
        }
    }
}

/// The array slice `za.d[w<8+ws>, <off>, vgx<vg>]`.
pub open spec fn array_slice_spec(ws: u32, off: u32, vg: u8) -> Operand {
    Operand::SmeZaSlice {
        arr: Some(VA::Sd),
        sel: gp_spec(false, RegWidth::W32, (8 + ws) as u8),
        off: off as u8,
        span: 1,
        vg,
        tile: 0,
        slice: SliceIndicator::Neither,
    }
}

/// The instruction a ZA-array `MOV`/`MOVAZ` word encodes (the shell bits
/// `word<21:16>` and `word<12:11>` aside), as (code, operands), or `None`.
pub open spec fn array_move_form(word: u32) -> Option<(Code, Seq<Operand>)> {
    let span: u8 = if field(word, 10, 1) == 1 { 4 } else { 2 };
    let ws = field(word, 13, 2);
    if field(word, 22, 2) != 0 || field(word, 15, 1) != 0 {
        None
    } else if field(word, 17, 1) == 1 {
        // ZA to vectors.
        let zd = if span == 4 { field(word, 2, 3) * 4 } else { field(word, 1, 4) * 2 };
        if field(word, 8, 1) != 0 || field(word, 0, 1) != 0 || (span == 4 && field(word, 1, 1) != 0) {
            None
        } else {
            Some((
                if field(word, 9, 1) == 1 { Code::SmeMovazArrayToVec } else { Code::SmeMovaArrayToVec },
                seq![vgroup_spec(zd as u32, span, Some(VA::Sd), 1), array_slice_spec(ws, field(word, 5, 3), span)],
            ))
        }
    } else {
        // Vectors to ZA.
        let zn = if span == 4 { field(word, 7, 3) * 4 } else { field(word, 6, 4) * 2 };
        if field(word, 3, 3) != 0 || (span == 4 && field(word, 6, 1) != 0) {
            None
        } else {
            Some((
                Code::SmeMovaVecToArray,
                seq![array_slice_spec(ws, field(word, 0, 3), span), vgroup_spec(zn as u32, span, Some(VA::Sd), 1)],
            ))
        }
    }
}

/// The ZA tile-slice group `za<tile><h|v>.<T>[<Ws>, <off>:<off+span-1>]`.
fn za_tile_slice(arr: VA, sel: u32, tile: u32, off: u32, span: u8, vertical: bool) -> (r: Operand)
    requires
        sel <= 3,
    ensures
        r == (Operand::SmeZaSlice {
            arr: Some(arr),
            sel: gp_spec(false, RegWidth::W32, (12 + sel) as u8),
            off: off as u8,
            span,
            vg: 0,
            tile: tile as u8,
            slice: if vertical { SliceIndicator::Vertical } else { SliceIndicator::Horizontal },
        }),
{
    Operand::SmeZaSlice {
        arr: Some(arr),
        sel: gp_register(false, RegWidth::W32, (12 + sel) as u8),
        off: off as u8,
        span,
        vg: 0,
        tile: tile as u8,
        slice: if vertical { SliceIndicator::Vertical } else { SliceIndicator::Horizontal },
    }
}

/// Split a 3-bit `tile:offset` field whose offset part is `off_bits` wide into
/// `(tile, offset * span)`, or `None` when the tile number is not below
/// `num_tiles`.
fn split_tile(field: u32, off_bits: u32, num_tiles: u32, span: u8) -> (r: Option<(u32, u32)>)
    requires
        field < 8,
        off_bits <= 3,
        span <= 4,
    ensures
        ({
            let p: u32 = if off_bits == 0 { 1 } else if off_bits == 1 { 2 } else if off_bits == 2 { 4 } else { 8 };
            &&& field / p >= num_tiles ==> r is None
            &&& field / p < num_tiles ==> r == Some((field / p, ((field % p) * span) as u32))
        }),
{
    let p: u32 = if off_bits == 0 {
        1
    } else if off_bits == 1 {
        2
    } else if off_bits == 2 {
        4
    } else {
        8
    };
    let tile = field / p;
    if tile >= num_tiles {
        return None;
    }
    let off = field % p;
    assert(off * (span as u32) <= 8 * 4) by (nonlinear_arith)
        requires
            off < 8,
            span <= 4,
    ;
    Some((tile, off * span as u32))
}

/// Decode an SME2 ZA tile-slice `MOV`/`MOVAZ` (move multi-vectors) into `out`.
pub fn decode(word: u32, out: &mut Instruction)
    requires
        old(out).is_blank(),
    ensures
        decode_post(*old(out), *final(out)),
        tile_move_form(word) matches Some(f) ==> installed(*old(out), *final(out), f.0, code_mnemonic(f.0), f.1),
        tile_move_form(word) is None ==> *final(out) == *old(out),
{
    // Shell: word<21:19> == 000, word<18> == 1, word<16> == 0, word<12:11> == 00.
    if bits(word, 19, 3) != 0b000 || bit(word, 18) != 1 || bit(word, 16) != 0 || bits(word, 11, 2) != 0 {
        return;
    }

    // (arr, size code 0..3); the tile count is `1 << size` (`.B` 1 .. `.D` 8).
    let size: u32 = bits(word, 22, 2);
    let arr = if size == 0 {
        VA::Sb
    } else if size == 1 {
        VA::Sh
    } else if size == 2 {
        VA::Ss
    } else {
        VA::Sd
    };
    let num_tiles: u32 = if size == 0 {
        1
    } else if size == 1 {
        2
    } else if size == 2 {
        4
    } else {
        8
    };

    let to_vector = bit(word, 17) == 1;
    let vertical = bit(word, 15) == 1;
    let ws: u32 = bits(word, 13, 2);
    let span: u8 = if bit(word, 10) == 1 { 4 } else { 2 };

    // The `Z` group base must be span-aligned (even for two registers, a
    // multiple of four for four).
    let base_mask: u32 = (span as u32) - 1;

    // The offset sub-field is `3 - size` bits wide for two registers and one
    // bit narrower for four (floored at zero); the tile takes the high bits.
    let wide: u32 = 3 - size;
    let off_bits: u32 = if span == 4 {
        if wide == 0 { 0 } else { wide - 1 }
    } else {
        wide
    };

    if to_vector {
        // ZA to vectors: word<9> = MOV(0)/MOVAZ(1); Zd base = word<4:0>;
        // tile:offset at word<7:5>; word<8> reserved zero.
        if bit(word, 8) != 0 {
            return;
        }
        let zd: u32 = bits(word, 0, 5);
        assert((zd & base_mask == 0) == (zd % (span as u32) == 0)) by (bit_vector)
            requires
                base_mask == (span as u32) - 1,
                span == 2 || span == 4,
        ;
        if zd & base_mask != 0 {
            return;
        }
        let movaz = bit(word, 9) == 1;
        let (tile, off): (u32, u32) = match split_tile(bits(word, 5, 3), off_bits, num_tiles, span) {
            Some(v) => v,
            None => return,
        };
        install2(
            out,
            if movaz { Code::SmeMovazMultiTileToZ } else { Code::SmeMovaMultiTileToZ },
            zgroup(zd, span, arr),
            za_tile_slice(arr, ws, tile, off, span, vertical),
        );
    } else {
        // Vectors to ZA: Zn base = word<9:5>; tile:offset at word<2:0>;
        // word<4:3> reserved zero.
        if bits(word, 3, 2) != 0 {
            return;
        }
        let zn: u32 = bits(word, 5, 5);
        assert((zn & base_mask == 0) == (zn % (span as u32) == 0)) by (bit_vector)
            requires
                base_mask == (span as u32) - 1,
                span == 2 || span == 4,
        ;
        if zn & base_mask != 0 {
            return;
        }
        let (tile, off): (u32, u32) = match split_tile(bits(word, 0, 3), off_bits, num_tiles, span) {
            Some(v) => v,
            None => return,
        };
        install2(out, Code::SmeMovaMultiZToTile, za_tile_slice(arr, ws, tile, off, span, vertical), zgroup(zn, span, arr));
    }
}

/// The ZA array slice `za.<T>[<Ws>, <off>, vgxN]`, selected with `w8..w11`.
fn za_array_slice(arr: VA, sel: u32, off: u32, vg: u8) -> (r: Operand)
    requires
        sel <= 3,
        off < 256,
    ensures
        r == (Operand::SmeZaSlice {
            arr: Some(arr),
            sel: gp_spec(false, RegWidth::W32, (8 + sel) as u8),
            off: off as u8,
            span: 1,
            vg,
            tile: 0,
            slice: SliceIndicator::Neither,
        }),
{
    Operand::SmeZaSlice {
        arr: Some(arr),
        sel: gp_register(false, RegWidth::W32, (8 + sel) as u8),
        off: off as u8,
        span: 1,
        vg,
        tile: 0,
        slice: SliceIndicator::Neither,
    }
}

/// Decode an SME2 multi-vector ZA-array `MOV`/`MOVAZ` into `out`.
///
/// `word<23:22> == 00` (always `.d`) and `word<15>` are reserved zero;
/// `word<17>` is the direction, `word<14:13>` selects `w8 + Ws`, `word<10>`
/// picks two (0) or four (1) registers.
///
/// * ZA to vectors: `word<9>` selects `MOV` (0) / `MOVAZ` (1); the group base
///   is `word<4:1>` (two registers) or `word<4:2>` (four); the slice offset is
///   `word<7:5>`; `word<8>` and `word<0>` are reserved zero.
/// * Vectors to ZA: the group base is `word<9:6>` (two) or `word<9:7>` (four);
///   the slice offset is `word<2:0>`; `word<5:3>` (and `word<6>` for four) are
///   reserved zero.
pub fn decode_array(word: u32, out: &mut Instruction)
    requires
        old(out).is_blank(),
    ensures
        decode_post(*old(out), *final(out)),
        array_move_form(word) matches Some(f) ==> installed(*old(out), *final(out), f.0, code_mnemonic(f.0), f.1),
        array_move_form(word) is None ==> *final(out) == *old(out),
{
    if bits(word, 22, 2) != 0 || bit(word, 15) != 0 {
        return;
    }
    let arr = VA::Sd;
    let to_vector = bit(word, 17) == 1;
    let ws: u32 = bits(word, 13, 2);
    let span: u8 = if bit(word, 10) == 1 { 4 } else { 2 };
    let base_mask: u32 = (span as u32) - 1;

    if to_vector {
        if bit(word, 8) != 0 || bit(word, 0) != 0 {
            return;
        }
        let zd: u32 = if span == 4 {
            if bit(word, 1) != 0 {
                return;
            }
            bits(word, 2, 3) * 4
        } else {
            bits(word, 1, 4) * 2
        };
        assert((zd & base_mask == 0) == (zd % (span as u32) == 0)) by (bit_vector)
            requires
                base_mask == (span as u32) - 1,
                span == 2 || span == 4,
        ;
        if zd & base_mask != 0 {
            return;
        }
        let off: u32 = bits(word, 5, 3);
        let movaz = bit(word, 9) == 1;
        install2(
            out,
            if movaz { Code::SmeMovazArrayToVec } else { Code::SmeMovaArrayToVec },
            zgroup(zd, span, arr),
            za_array_slice(arr, ws, off, span),
        );
    } else {
        if bits(word, 3, 3) != 0 {
            return;
        }
        let zn: u32 = if span == 4 {
            if bit(word, 6) != 0 {
                return;
            }
            bits(word, 7, 3) * 4
        } else {
            bits(word, 6, 4) * 2
        };
        assert((zn & base_mask == 0) == (zn % (span as u32) == 0)) by (bit_vector)
            requires
                base_mask == (span as u32) - 1,
                span == 2 || span == 4,
        ;
        if zn & base_mask != 0 {
            return;
        }
        let off: u32 = bits(word, 0, 3);
        install2(out, Code::SmeMovaVecToArray, za_array_slice(arr, ws, off, span), zgroup(zn, span, arr));
    }
}

} // verus!
