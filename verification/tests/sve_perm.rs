use lib::{Decoder, DecoderOptions, FmtFormatter};


/// Decode `word` at 0x1000 and render it.
fn render(word: u32) -> String {
    let bytes = word.to_le_bytes();
    let mut dec = Decoder::new(&bytes, 0x1000, DecoderOptions::default());
    let insn = dec.decode();
    let mut buf: Vec<u8> = Vec::new();
    FmtFormatter::new().format(&insn, &mut buf);
    String::from_utf8(buf).unwrap_or_default()
}

fn check(word: u32, expected: &str) {
    assert_eq!(render(word), expected, "word={word:#010x}");
}


#[test]
fn vector_permute_zip_uzp_trn() {
        check(0x053E617B, "zip1    z27.b, z11.b, z30.b");
        check(0x05B96666, "zip2    z6.s, z19.s, z25.s");
        check(0x052A6BA5, "uzp1    z5.b, z29.b, z10.b");
        check(0x05EF6C78, "uzp2    z24.d, z3.d, z15.d");
        check(0x05377273, "trn1    z19.b, z19.b, z23.b");
        check(0x057177B8, "trn2    z24.h, z29.h, z17.h");
        // 128-bit `.Q` permute.
        check(0x05BA1BB0, "trn1    z16.q, z29.q, z26.q");
        check(0x05A900A3, "zip1    z3.q, z5.q, z9.q");
        check(0x05A40ABA, "uzp1    z26.q, z21.q, z4.q");
    }

#[test]
fn predicate_permute() {
        check(0x056E4169, "zip1    p9.h, p11.h, p14.h");
        check(0x05AA4D2A, "uzp2    p10.s, p9.s, p10.s");
        check(0x05215185, "trn1    p5.b, p12.b, p1.b");
        check(0x05B44101, "rev     p1.s, p8.s");
        check(0x05314060, "punpkhi p0.h, p3.b");
        check(0x05304142, "punpklo p2.h, p10.b");
    }

#[test]
fn rev_unpack_compact_splice_ext_tbl() {
        check(0x05F83B9B, "rev     z27.d, z28.d");
        check(0x05E49E31, "revb    z17.d, p7/m, z17.d");
        check(0x05A58CC7, "revh    z7.s, p3/m, z6.s");
        check(0x05E68723, "revw    z3.d, p1/m, z25.d");
        check(0x05B13A5F, "sunpkhi z31.s, z18.h");
        check(0x057039B7, "sunpklo z23.h, z13.b");
        check(0x05B3383E, "uunpkhi z30.s, z1.h");
        check(0x05A182A5, "compact z5.s, p0, z21.s");
        check(0x056C9CBE, "splice  z30.h, p7, z30.h, z5.h");
        check(0x05330A08, "ext     z8.b, z8.b, z16.b, #0x9a");
        check(0x05B833B6, "tbl     z22.s, {z29.s}, z24.s");
        check(0x05712A95, "tbl     z21.h, {z20.h, z21.h}, z17.h");
        check(0x05F22E68, "tbx     z8.d, z19.d, z18.d");
    }

#[test]
fn clast_last() {
        check(0x05E883C0, "clasta  z0.d, p0, z0.d, z30.d");
        check(0x05AA914E, "clasta  s14, p4, s14, z10.s");
        check(0x05B0BBEB, "clasta  w11, p6, w11, z31.s");
        check(0x0571B796, "clastb  w22, p5, w22, z28.h");
        check(0x05E29C08, "lasta   d8, p7, z0.d");
        check(0x05E0BA9F, "lasta   xzr, p6, z20.d");
        check(0x05E1A4DA, "lastb   x26, p1, z6.d");
    }

#[test]
fn predicate_logical_and_aliases() {
        check(0x25054D29, "and     p9.b, p3/z, p9.b, p5.b");
        check(0x254758C8, "ands    p8.b, p6/z, p6.b, p7.b");
        check(0x25097471, "bic     p1.b, p13/z, p3.b, p9.b");
        check(0x2506566A, "eor     p10.b, p5/z, p3.b, p6.b");
        check(0x25846D42, "orr     p2.b, p11/z, p10.b, p4.b");
        check(0x25896D93, "orn     p3.b, p11/z, p12.b, p9.b");
        check(0x25887E9D, "nand    p13.b, p15/z, p4.b, p8.b");
        check(0x258C5F63, "nor     p3.b, p7/z, p11.b, p12.b");
        // Aliases: MOV/MOVS/NOT/NOTS and the predicate SEL.
        check(0x250B7D69, "mov     p9.b, p15/z, p11.b");
        check(0x258554A9, "mov     p9.b, p5.b");
        check(0x2549492A, "movs    p10.b, p2/z, p9.b");
        check(0x25486284, "nots    p4.b, p8/z, p4.b");
        check(0x25025FD9, "sel     p9.b, p7, p14.b, p2.b");
        check(0x250863B8, "mov     p8.b, p8/m, p13.b");
    }

#[test]
fn predicate_gen_ffr() {
        check(0x2558E049, "ptrue   p9.h, vl2");
        check(0x2519E021, "ptrues  p1.b, vl1");
        check(0x2518E409, "pfalse  p9.b");
        check(0x2550F940, "ptest   p14, p10.b");
        check(0x2558C0E8, "pfirst  p8.b, p7, p8.b");
        check(0x25D9C52F, "pnext   p15.d, p9, p15.d");
        check(0x2519F00E, "rdffr   p14.b");
        check(0x2518F04A, "rdffr   p10.b, p2/z");
        check(0x2558F060, "rdffrs  p0.b, p3/z");
        check(0x25289020, "wrffr   p1.b");
        check(0x252C9000, "setffr");
    }

#[test]
fn break_family() {
        check(0x25106589, "brka    p9.b, p9/z, p12.b");
        check(0x259044FA, "brkb    p10.b, p1/m, p7.b");
        check(0x25505426, "brkas   p6.b, p5/z, p1.b");
        check(0x25D070E6, "brkbs   p6.b, p12/z, p7.b");
        check(0x251878C5, "brkn    p5.b, p14/z, p6.b, p5.b");
        check(0x250ADD20, "brkpa   p0.b, p7/z, p9.b, p10.b");
        check(0x250FC4B6, "brkpb   p6.b, p1/z, p5.b, p15.b");
        check(0x254BDDA7, "brkpas  p7.b, p7/z, p13.b, p11.b");
    }

#[test]
fn while_and_cterm() {
        check(0x256D042D, "whilelt p13.h, w1, w13");
        check(0x25FE163C, "whilele p12.d, x17, x30");
        check(0x25E91E0C, "whilelo p12.d, x16, x9");
        check(0x25390C9C, "whilels p12.b, w4, w25");
        check(0x25B510C1, "whilege p1.s, x6, x21");
        check(0x25B00BDA, "whilehi p10.s, w30, w16");
        check(0x25A13152, "whilerw p2.s, x10, x1");
        check(0x252E336D, "whilewr p13.b, x27, x14");
        check(0x25E22300, "ctermeq x24, x2");
        check(0x25B721A0, "ctermeq w13, w23");
        check(0x25E022D0, "ctermne x22, x0");
    }

#[test]
fn never_panics_on_perm_space() {
        // Exhaustively sweep a representative bit-slice of the 0x05 / 0x25 top
        // bytes by varying the operand and opcode fields.
        for hi in [0x05u32, 0x25u32] {
            for mid in 0u32..=0xffff {
                let word = (hi << 24) | (mid << 8) | 0x5a;
                                let _ = render(word);
            }
        }
    }
