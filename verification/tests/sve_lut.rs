use lib::{Decoder, DecoderOptions, FmtFormatter};
use lib::{Code, Mnemonic};


/// Decode `word` at 0x1000 and render it.
fn render(word: u32) -> String {
    let bytes = word.to_le_bytes();
    let mut dec = Decoder::new(&bytes, 0x1000, DecoderOptions::default());
    let insn = dec.decode();
    let mut buf: Vec<u8> = Vec::new();
    FmtFormatter::new().format(&insn, &mut buf);
    String::from_utf8(buf).unwrap_or_default()
}

fn check(word: u32, expected: &str) {
    assert_eq!(render(word), expected, "word={word:#010x}");
}


#[test]
fn luti_decode_matches_llvm() {
        check(0x4520a9ca, "luti2   z10.h, {z14.h}, z0[0]");
        check(0x45e2b020, "luti2   z0.b, {z1.b}, z2[3]"); // .B, 2-bit index max
        check(0x45e5b883, "luti2   z3.h, {z4.h}, z5[7]"); // .H, 3-bit index max
        check(0x4522bd0d, "luti4   z13.h, {z8.h}, z2[0]");
        check(0x45e8a4e6, "luti4   z6.b, {z7.b}, z8[1]"); // .B, 1-bit index
        check(0x45ebbd49, "luti4   z9.h, {z10.h}, z11[3]"); // .H single, 2-bit index
        check(0x4522b50d, "luti4   z13.h, {z8.h, z9.h}, z2[0]"); // two-table
        check(0x45fdb7fe, "luti4   z30.h, {z31.h, z0.h}, z29[3]"); // two-table, wrap
    }

#[test]
fn luti_code_and_mnemonic() {
        let bytes = 0x4522b50d_u32.to_le_bytes();
        let mut dec = Decoder::new(&bytes, 0, DecoderOptions::default());
        let insn = dec.decode();
        assert_eq!(insn.code(), Code::SveLuti4Two);
        assert_eq!(insn.mnemonic(), Mnemonic::Luti4);
        assert_eq!(insn.op_count(), 3);
    }
