use lib::{Decoder, DecoderOptions, FmtFormatter};

/// Decode `word` at 0x1000 and render it.
fn render(word: u32) -> String {
    let bytes = word.to_le_bytes();
    let mut dec = Decoder::new(&bytes, 0x1000, DecoderOptions::default());
    let insn = dec.decode();
    let mut buf: Vec<u8> = Vec::new();
    FmtFormatter::new().format(&insn, &mut buf);
    String::from_utf8(buf).unwrap_or_default()
}

fn check(word: u32, expected: &str) {
    assert_eq!(render(word), expected, "word={word:#010x}");
}

#[test]
fn arith_unpredicated() {
        check(0x046A03AD, "add     z13.h, z29.h, z10.h");
        check(0x04A50715, "sub     z21.s, z24.s, z5.s");
        check(0x04751130, "sqadd   z16.h, z9.h, z21.h");
        check(0x042D1D6C, "uqsub   z12.b, z11.b, z13.b");
        check(0x04676060, "mul     z0.h, z3.h, z7.h");
        // PMUL: Zd=<4:0>=30.
        check(0x043F661E, "pmul    z30.b, z16.b, z31.b");
    }

#[test]
fn logical_unpredicated_and_mov_alias() {
        check(0x0434317D, "and     z29.d, z11.d, z20.d");
        check(0x04B33111, "eor     z17.d, z8.d, z19.d");
        // ORR Zd,Zn,Zn -> MOV alias.
        check(0x047532B7, "mov     z23.d, z21.d");
    }

#[test]
fn predicated_binary_and_unary() {
        check(0x04C011A5, "add     z5.d, p4/m, z5.d, z13.d");
        check(0x04430FA6, "subr    z6.h, p3/m, z6.h, z29.h");
        check(0x04941FE8, "sdiv    z8.s, p7/m, z8.s, z31.s");
        check(0x0496BFB2, "abs     z18.s, p7/m, z29.s");
        check(0x0490A714, "sxtb    z20.s, p1/m, z24.s");
    }

#[test]
fn mla_mls_mad_msb() {
        check(0x04185317, "mla     z23.b, p4/m, z24.b, z24.b");
        check(0x04137E2D, "mls     z13.b, p7/m, z17.b, z19.b");
        check(0x044CD5EB, "mad     z11.h, p5/m, z12.h, z15.h");
        check(0x04C2EE1F, "msb     z31.d, p3/m, z2.d, z16.d");
    }

#[test]
fn shifts() {
        check(0x042F93EC, "asr     z12.b, z31.b, #0x1");
        check(0x04EE9EEB, "lsl     z11.d, z23.d, #0x2e");
        check(0x04809AA8, "asr     z8.d, p6/m, z8.d, #0x2b");
        check(0x04048E16, "asrd    z22.h, p3/m, z22.h, #0x10");
        check(0x04AB8110, "asr     z16.s, z8.s, z11.d");
        check(0x04D39BEA, "lsl     z10.d, p6/m, z10.d, z31.d");
    }

#[test]
fn reductions_and_movprfx() {
        check(0x04803962, "saddv   d2, p6, z11.s");
        check(0x04083307, "smaxv   b7, p4, z24.b");
        check(0x041A23E7, "andv    b7, p0, z31.b");
        check(0x0420BC18, "movprfx z24, z0");
        check(0x04113549, "movprfx z9.b, p5/m, z10.b");
    }

#[test]
fn index_forms() {
        check(0x04E6411D, "index   z29.d, #0x8, #0x6");
        check(0x04F4429B, "index   z27.d, #-12, #-12");
        check(0x04B949A9, "index   z9.s, #0xd, w25");
        check(0x042447B2, "index   z18.b, w29, #0x4");
        check(0x04734CF5, "index   z21.h, w7, w19");
    }

#[test]
fn cnt_inc_dec() {
        check(0x042DE1A5, "cntb    x5, vl256, mul #0xe");
        check(0x0460E3B0, "cnth    x16, mul4");
        check(0x04B0E3E5, "incw    x5");
        check(0x0434E489, "decb    x9, vl4, mul #0x5");
        check(0x0425FBD1, "sqdecb  x17, w17, mul3, mul #0x6");
        check(0x0432F89F, "sqdecb  xzr, vl4, mul #0x3");
        check(0x0421FDA1, "uqdecb  w1, vl256, mul #0x2");
        check(0x04FBC52A, "decd    z10.d, vl16, mul #0xc");
    }

#[test]
fn addvl_addpl_rdvl() {
        check(0x042D508F, "addvl   x15, x13, #0x4");
        check(0x042756A8, "addvl   x8, x7, #-11");
        check(0x04635315, "addpl   x21, x3, #0x18");
        check(0x04BF52F6, "rdvl    x22, #0x17");
        check(0x04BF54D5, "rdvl    x21, #-26");
        check(0x043F564E, "addvl   x14, sp, #-14");
    }

#[test]
fn dup_cpy_sel_insr() {
        check(0x05E03A66, "mov     z6.d, x19");
        check(0x05203BE0, "mov     z0.b, wsp");
        check(0x05342076, "mov     z22.s, z3.s[2]");
        check(0x05242317, "mov     z23.s, s24");
        check(0x0568B0C1, "mov     z1.h, p4/m, w6");
        check(0x05E09862, "mov     z2.d, p6/m, d3");
        check(0x05F7E857, "mov     z23.d, p10/m, z2.d");
        // CPY (scalar, predicated) for Pg != p4 — the governing predicate is not
        // a discriminator (regression for the `<12:10>==100` over-constraint).
        check(0x0528B60B, "mov     z11.b, p5/m, w16");
        check(0x05A8A3E7, "mov     z7.s, p0/m, wsp");
        check(0x05E8A545, "mov     z5.d, p1/m, x10");
        check(0x05B7F912, "sel     z18.s, p14, z8.s, z23.s");
        check(0x05E03BF3, "mov     z19.d, sp");
        check(0x05A4393D, "insr    z29.s, w9");
    }

#[test]
fn immediates() {
        check(0x2520DCBF, "add     z31.b, z31.b, #0xe5");
        check(0x25E1F685, "sub     z5.d, z5.d, #0xb400");
        check(0x25E8C4F6, "smax    z22.d, z22.d, #0x27");
        check(0x25A8D79C, "smax    z28.s, z28.s, #-68");
        check(0x2530DEC1, "mul     z1.b, z1.b, #-10");
        check(0x25F8E805, "mov     z5.d, #0x4000");
        check(0x2578D8E1, "mov     z1.h, #-57");
        check(0x058165CC, "and     z12.h, z12.h, #0xfff7");
    }

#[test]
fn compares() {
        check(0x251E8E29, "cmpeq   p9.b, p3/z, z17.b, #-2");
        check(0x242E1373, "cmphi   p3.b, p4/z, z27.b, #0x38");
        check(0x2402B9C9, "cmpeq   p9.b, p6/z, z14.b, z2.b");
        check(0x24152B2E, "cmpeq   p14.b, p2/z, z25.b, z21.d");
        check(0x249F5BAE, "cmpge   p14.s, p6/z, z29.s, z31.d");
    }

#[test]
fn pred_count_and_dot() {
        check(0x25A08C01, "cntp    x1, p3, p0.s");
        check(0x252D8986, "decp    x6, p12.b");
        check(0x25AC805E, "incp    z30.s, p2");
        check(0x25E8893D, "sqincp  x29, p9.d, w29");
        check(0x44CB0330, "sdot    z16.d, z25.h, z11.h");
        check(0x4492003B, "sdot    z27.s, z1.b, z18.b");
        check(0x44B201BF, "sdot    z31.s, z13.b, z2.b[2]");
    }

#[test]
fn sve2_sqrdmlah() {
        // Vector form: the element size comes from `size`.
        check(0x440771D1, "sqrdmlah z17.b, z14.b, z7.b");
        check(0x444E74F3, "sqrdmlsh z19.h, z7.h, z14.h");
        check(0x44897555, "sqrdmlsh z21.s, z10.s, z9.s");
        check(0x44C374F6, "sqrdmlsh z22.d, z7.d, z3.d");
        // Indexed form: `.h` (i3h:i3l), `.s` (i2), `.d` (i1).
        check(0x44761078, "sqrdmlah z24.h, z3.h, z6.h[6]");
        check(0x44B8108F, "sqrdmlah z15.s, z4.s, z0.s[3]");
    }

#[test]
fn never_panics_on_sve_space() {
        // Exhaustively exercise the SVE quadrant prefixes for panic-freedom.
        for hi in [0x04u32, 0x05, 0x24, 0x25, 0x44, 0x45] {
            for low in 0u32..=0xffff {
                let word = (hi << 24) | (low << 8) | (low & 0xff);
                let _ = render(word);
            }
        }
    }

/// Decode `word` and assert that it decodes to an instruction.
fn decodes(word: u32) {
    let bytes = word.to_le_bytes();
    let mut dec = Decoder::new(&bytes, 0x1000, DecoderOptions::default());
    assert!(!dec.decode().is_invalid(), "decode left Invalid: word={word:#010x}");
}

#[test]
fn unary_pred_zeroing_sve2p1() {
        // FEAT_SVE2p1 zeroing (`/z`) predicated unary (0x04, <20>=0).
        check(0x0408A016, "cls     z22.b, p0/z, z0.b");
        check(0x0409A069, "clz     z9.b, p0/z, z3.b");
        check(0x040AA036, "cnt     z22.b, p0/z, z1.b");
        check(0x040BA151, "cnot    z17.b, p0/z, z10.b");
        check(0x040EA021, "not     z1.b, p0/z, z1.b");
        check(0x0406A190, "abs     z16.b, p0/z, z12.b");
        check(0x0407A102, "neg     z2.b, p0/z, z8.b");
        check(0x0440A077, "sxtb    z23.h, p0/z, z3.h");
        check(0x0441A11C, "uxtb    z28.h, p0/z, z8.h");
        check(0x0482A059, "sxth    z25.s, p0/z, z2.s");
        check(0x0483A00C, "uxth    z12.s, p0/z, z0.s");
        check(0x04C4A01A, "sxtw    z26.d, p0/z, z0.d");
        check(0x04C5A05B, "uxtw    z27.d, p0/z, z2.d");
        for w in [
            0x0408A016, 0x0409A069, 0x040AA036, 0x040BA151, 0x040EA021, 0x0406A190, 0x0407A102,
            0x0440A077, 0x0441A11C, 0x0482A059, 0x0483A00C, 0x04C4A01A, 0x04C5A05B,
            // merging (`/m`) base-SVE forms.
            0x0496BFB2, 0x0490A714,
        ] {
            decodes(w);
        }
        // Illegal extend element sizes are unallocated, not decoded.
        let inv = [0x0410A09F_u32, 0x0411A0E9, 0x0412A03E, 0x0413A01A, 0x0414A1D7, 0x0415A044];
        for w in inv {
            let b = w.to_le_bytes();
            let mut d = Decoder::new(&b, 0x1000, DecoderOptions::default());
            assert!(d.decode().is_invalid(), "should be Invalid: {w:#010x}");
        }
    }

#[test]
fn rev_rbit_zeroing_sve2p1() {
        check(0x0527A005, "rbit    z5.b, p0/z, z0.b");
        check(0x0564A02B, "revb    z11.h, p0/z, z1.h");
        check(0x05A5A000, "revh    z0.s, p0/z, z0.s");
        check(0x05E6A032, "revw    z18.d, p0/z, z1.d");
        for w in [0x0527A005, 0x0564A02B, 0x05A5A000, 0x05E6A032] {
            decodes(w);
        }
    }

#[test]
fn quadword_reductions_int() {
        check(0x04052027, "addqv   v7.16b, p0, z1.b");
        check(0x040C213E, "smaxqv  v30.16b, p0, z9.b");
        check(0x040D2055, "umaxqv  v21.16b, p0, z2.b");
        check(0x040E2030, "sminqv  v16.16b, p0, z1.b");
        check(0x040F2072, "uminqv  v18.16b, p0, z3.b");
        check(0x041C204C, "orqv    v12.16b, p0, z2.b");
        check(0x041D20C7, "eorqv   v7.16b, p0, z6.b");
        check(0x041E2088, "andqv   v8.16b, p0, z4.b");
        // size variants (.h/.s/.d).
        check(0x04852000, "addqv   v0.4s, p0, z0.s");
        check(0x04CE2000, "sminqv  v0.2d, p0, z0.d");
        for w in [
            0x04052027, 0x040C213E, 0x040D2055, 0x040E2030, 0x040F2072, 0x041C204C, 0x041D20C7,
            0x041E2088, 0x04852000, 0x04CE2000,
        ] {
            decodes(w);
        }
    }

#[test]
fn sve2p1_misc() {
        check(0x05318081, "expand  z1.b, p0, z4.b");
        check(0x05212486, "dupq    z6.b, z4.b[0]");
        check(0x053F2486, "dupq    z6.b, z4.b[15]");
        check(0x05282486, "dupq    z6.d, z4.d[0]");
        check(0x05602401, "extq    z1.b, z1.b, z0.b, #0x0");
        check(0x056F2401, "extq    z1.b, z1.b, z0.b, #0xf");
        check(0x052A3880, "pmov    p0.b, z4");
        check(0x052B3880, "pmov    z0, p4.b");
        check(0x052C3880, "pmov    p0.h, z4[0]");
        check(0x052F3880, "pmov    z0[1], p4.h");
        check(0x05EF3880, "pmov    z0[7], p4.d");
        for w in [
            0x05318081, 0x05212486, 0x053F2486, 0x05282486, 0x05602401, 0x056F2401, 0x052A3880,
            0x052B3880, 0x052C3880, 0x052F3880, 0x05EF3880,
        ] {
            decodes(w);
        }
    }

#[test]
fn addsvl_addspl_rdsvl() {
        // SME streaming-mode analogues (word<11>=1).
        check(0x04205801, "addsvl  x1, x0, #0x0");
        check(0x04205821, "addsvl  x1, x0, #0x1");
        check(0x04205C01, "addsvl  x1, x0, #-32");
        check(0x04605807, "addspl  x7, x0, #0x0");
        check(0x04BF5823, "rdsvl   x3, #0x1");
        check(0x04BF5C23, "rdsvl   x3, #-31");
        for w in [0x04205801, 0x04205C01, 0x04605807, 0x046F5C8F, 0x04BF5823, 0x04BF5C23] {
            decodes(w);
        }
    }
