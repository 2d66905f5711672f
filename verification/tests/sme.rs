use lib::{Decoder, DecoderOptions, FmtFormatter};
use lib::FeatureSet;


/// Decode `word` at 0x1000 and render it.
fn render(word: u32) -> String {
    let bytes = word.to_le_bytes();
    let mut dec = Decoder::new(&bytes, 0x1000, DecoderOptions::default());
    let insn = dec.decode();
    let mut buf: Vec<u8> = Vec::new();
    FmtFormatter::new().format(&insn, &mut buf);
    String::from_utf8(buf).unwrap_or_default()
}

fn check(word: u32, expected: &str) {
    assert_eq!(render(word), expected, "word={word:#010x}");
}


#[test]
fn outer_product_fp_bf() {
        // FMOPA/FMOPS — FP32, FP64, and FP16→FP32; BFMOPA/BFMOPS.
        check(0x809B4941, "fmopa   z1.s, p2/m, p2/m, z10.s, z27.s");
        check(0x80D69446, "fmopa   z6.d, p5/m, p4/m, z2.d, z22.d");
        check(0x81BB7F43, "fmopa   z3.s, p7/m, p3/m, z26.h, z27.h");
        check(0x80851312, "fmops   z2.s, p4/m, p0/m, z24.s, z5.s");
        check(0x8184B942, "bfmopa  z2.s, p6/m, p5/m, z10.h, z4.h");
        check(0x819EC990, "bfmops  z0.s, p2/m, p6/m, z12.h, z30.h");
    }

#[test]
fn outer_product_int() {
        // The four signedness pairings, accumulate and subtract, 32- and 64-bit.
        check(0xA0822DA1, "smopa   z1.s, p3/m, p1/m, z13.b, z2.b");
        check(0xA1A98383, "umopa   z3.s, p0/m, p4/m, z28.b, z9.b");
        check(0xA0A0AC03, "sumopa  z3.s, p3/m, p5/m, z0.b, z0.b");
        check(0xA19670C1, "usmopa  z1.s, p4/m, p3/m, z6.b, z22.b");
        check(0xA094D912, "smops   z2.s, p6/m, p6/m, z8.b, z20.b");
        check(0xA0CFCB26, "smopa   z6.d, p2/m, p6/m, z25.h, z15.h");
        check(0xA1E301C4, "umopa   z4.d, p0/m, p0/m, z14.h, z3.h");
    }

#[test]
fn addha_addva() {
        check(0xC0909662, "addha   z2.s, p5/m, p4/m, z19.s");
        check(0xC091BA23, "addva   z3.s, p6/m, p5/m, z17.s");
        check(0xC0D053E5, "addha   z5.d, p4/m, p2/m, z31.d");
        check(0xC0D16EE5, "addva   z5.d, p3/m, p3/m, z23.d");
    }

#[test]
fn mova_tile_to_vector() {
        // Z ← ZA tile slice (the tile is written with a `z` prefix).
        check(0xC002D4B0, "mova    z16.b, p5/m, z0v.b[w14, #0x5]");
        check(0xC0825448, "mova    z8.s, p5/m, z0h.s[w14, #0x2]");
        check(0xC042BD71, "mova    z17.h, p7/m, z1v.h[w13, #0x3]");
        // The .Q form has no slice index immediate.
        check(0xC0C350F0, "mova    z16.q, p4/m, z7h.q[w14]");
    }

#[test]
fn mova_vector_to_tile() {
        check(0xC0002F06, "mova    z0h.b[w13, #0x6], p3/m, z24.b");
        check(0xC0803C6A, "mova    z2h.s[w13, #0x2], p7/m, z3.s");
        check(0xC0C0F4E9, "mova    z4v.d[w15, #0x1], p5/m, z7.d");
        check(0xC0C1D2E5, "mova    z5v.q[w14], p4/m, z23.q");
    }

#[test]
fn za_array_load_store() {
        // LD1*/ST1* ZA-array vector: tile always 0, `/z` for loads, bare for
        // stores, index scaled by the element size (elided for byte).
        check(0xE011E5A3, "ld1b    z0v.b[w15, #0x3], p1/z, [x13, x17]");
        check(0xE059A9C2, "ld1h    z0v.h[w13, #0x2], p2/z, [x14, x25, lsl #0x1]");
        check(0xE0D76421, "ld1d    z0h.d[w15, #0x1], p1/z, [x1, x23, lsl #0x3]");
        check(0xE1DE4A4D, "ld1q    z0h.q[w14], p2/z, [x18, x30, lsl #0x4]");
        check(0xE024806B, "st1b    z0v.b[w12, #0xb], p0, [x3, x4]");
        check(0xE1F50B6D, "st1q    z0h.q[w12], p2, [x27, x21, lsl #0x4]");
        // SP base resolves to `sp`.
        check(0xE0B24FE7, "st1w    z0h.s[w14, #0x3], p3, [sp, x18, lsl #0x2]");
    }

#[test]
fn ldr_str_za_whole_array() {
        check(0xE100004D, "ldr     za[w12, #0xd], [x2, #0xd, mul vl]");
        check(0xE1200106, "str     za[w12, #0x6], [x8, #0x6, mul vl]");
        // imm4 == 0 elides both the slice `#imm` and the `, mul vl`.
        check(0xE10062A0, "ldr     za[w15, #0x0], [x21]");
        // SP base.
        check(0xE10043EB, "ldr     za[w14, #0xb], [sp, #0xb, mul vl]");
    }

#[test]
fn sme2_multivector_alu() {
        // SEL (predicate-as-counter): vgx2 comma-list, vgx4 range, plus sizes.
        check(0xC1208452, "sel     { z18.b, z19.b }, pn9, { z2.b, z3.b }, { z0.b, z1.b }");
        check(0xC1258010, "sel     { z16.b - z19.b }, pn8, { z0.b - z3.b }, { z4.b - z7.b }");
        check(0xC1608452, "sel     { z18.h, z19.h }, pn9, { z2.h, z3.h }, { z0.h, z1.h }");
        // S/U/F/BF clamp.
        check(0xC120C40F, "uclamp  { z14.b, z15.b }, z0.b, z0.b");
        check(0xC1A0CC0D, "uclamp  { z12.s - z15.s }, z0.s, z0.s");
        check(0xC120C40E, "sclamp  { z14.b, z15.b }, z0.b, z0.b");
        check(0xC160C00E, "fclamp  { z14.h, z15.h }, z0.h, z0.h");
        check(0xC1A0C80C, "fclamp  { z12.s - z15.s }, z0.s, z0.s");
        check(0xC120C000, "bfclamp { z0.h, z1.h }, z0.h, z0.h");
        check(0xC120C800, "bfclamp { z0.h - z3.h }, z0.h, z0.h");
        // ZIP/UZP: vgx2 (incl .q) and vgx4 (incl .q).
        check(0xC120D000, "zip     { z0.b, z1.b }, z0.b, z0.b");
        check(0xC120D400, "zip     { z0.q, z1.q }, z0.q, z0.q");
        check(0xC120D001, "uzp     { z0.b, z1.b }, z0.b, z0.b");
        check(0xC136E000, "zip     { z0.b - z3.b }, { z0.b - z3.b }");
        check(0xC136E002, "uzp     { z0.b - z3.b }, { z0.b - z3.b }");
        check(0xC137E000, "zip     { z0.q - z3.q }, { z0.q - z3.q }");
    }

#[test]
fn sme2_multivector_mem() {
        // Contiguous multi-vector loads/stores with a predicate-as-counter.
        check(0xA0004014, "ld1w    { z20.s, z21.s }, pn8/z, [x0, x0, lsl #0x2]");
        check(0xA000E814, "ld1d    { z20.d - z23.d }, pn10/z, [x0, x0, lsl #0x3]");
        check(0xA0000000, "ld1b    { z0.b, z1.b }, pn8/z, [x0, x0]");
        check(0xA0414000, "ld1w    { z0.s, z1.s }, pn8/z, [x0, #0x2, mul vl]");
        check(0xA041E000, "ld1d    { z0.d - z3.d }, pn8/z, [x0, #0x4, mul vl]");
        check(0xA0480000, "ld1b    { z0.b, z1.b }, pn8/z, [x0, #-16, mul vl]");
        check(0xA0404000, "ld1w    { z0.s, z1.s }, pn8/z, [x0]");
        check(0xA0004015, "ldnt1w  { z20.s, z21.s }, pn8/z, [x0, x0, lsl #0x2]");
        check(0xA0200001, "stnt1b  { z0.b, z1.b }, pn8, [x0, x0]");
        check(0xA0204014, "st1w    { z20.s, z21.s }, pn8, [x0, x0, lsl #0x2]");
    }

#[test]
fn sme2_multivector_strided() {
        // word<24> == 1: the strided (non-consecutive) register lists. 2-register
        // groups step by 8 (`z16, z24`); 4-register groups step by 4.
        check(0xA1206710, "st1d    { z16.d, z24.d }, pn9, [x24, x0, lsl #0x3]");
        check(0xA1204983, "st1w    { z3.s, z11.s }, pn10, [x12, x0, lsl #0x2]");
        check(0xA1004DB1, "ld1w    { z17.s, z25.s }, pn11/z, [x13, x0, lsl #0x2]");
        check(0xA120A541, "st1h    { z1.h, z5.h, z9.h, z13.h }, pn9, [x10, x0, lsl #0x1]");
        // Strided nontemporal (NT = word<3>), and the byte form (no LSL shown).
        check(0xA1206718, "stnt1d  { z16.d, z24.d }, pn9, [x24, x0, lsl #0x3]");
        check(0xA1004000, "ld1w    { z0.s, z8.s }, pn8/z, [x0, x0, lsl #0x2]");
        // Strided scalar+immediate (`MUL VL`): the offset is `imm4 * count`.
        check(0xA1606710, "st1d    { z16.d, z24.d }, pn9, [x24]");
        check(0xA1414000, "ld1w    { z0.s, z8.s }, pn8/z, [x0, #0x2, mul vl]");
        // vgx4 strided leaves word<2> reserved (must be zero) -> Invalid.
        let bytes = 0xA120E714u32.to_le_bytes();
        let mut dec = Decoder::new(&bytes, 0x1000, DecoderOptions::default());
        assert!(dec.decode().is_invalid());
    }

#[test]
fn sme2_multivector_shift_narrow() {
        // 4-vector -> 1-vector saturating rounding shift right narrow; the dest
        // element (.b/.h), source element (.s/.d) and shift range come from the
        // `tsz` size field. `#shift` renders as a plain decimal.
        check(0xC161D920, "uqrshr  z0.b, { z8.s - z11.s }, #31");
        check(0xC161D998, "sqrshr  z24.b, { z12.s - z15.s }, #31");
        check(0xC160DC9A, "sqrshrn z26.b, { z4.s - z7.s }, #32");
        check(0xC161DE2B, "uqrshrn z11.b, { z16.s - z19.s }, #31");
        check(0xC164DB5D, "sqrshru z29.b, { z24.s - z27.s }, #28");
        check(0xC162DFD7, "sqrshrun z23.b, { z28.s - z31.s }, #30");
        // .h dest / .d source, both shift sub-ranges (`#64`..`#33` and `#32`..`#1`).
        check(0xC1A0D900, "sqrshr  z0.h, { z8.d - z11.d }, #64");
        check(0xC1E0D900, "sqrshr  z0.h, { z8.d - z11.d }, #32");
    }

#[test]
fn mod_feature_gate_off_leaves_invalid() {
        // With FEAT_SME not accepted, the SME reserved-region encodings must not
        // decode (stay Invalid) — but SMSTART/SMSTOP, being PSTATE MSRs in the
        // system group, are unaffected by the SME structural gate.
        let opts = DecoderOptions {
            features: FeatureSet::base(), // no SME accepted
        };
        let bytes = 0x809B4941u32.to_le_bytes(); // fmopa
        let mut dec = Decoder::new(&bytes, 0x1000, opts);
        assert!(dec.decode().is_invalid());
    }

#[test]
fn never_panics_on_sme_space() {
        // Exhaustively exercise the SME reserved-region prefixes (word<31> == 1,
        // op0 == 0000) for panic-freedom across the full low 16 bits.
        for hi in [0x80u32, 0x81, 0xa0, 0xa1, 0xc0, 0xc1, 0xe0, 0xe1] {
            for low in 0u32..=0xffff {
                let word = (hi << 24) | (low << 8) | (low & 0xff);
                let _ = render(word);
            }
        }
    }
