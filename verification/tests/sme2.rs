use lib::{Decoder, DecoderOptions, FmtFormatter};
use lib::FeatureSet;


/// Decode `word` at 0x1000 and render it.
fn render(word: u32) -> String {
    let bytes = word.to_le_bytes();
    let mut dec = Decoder::new(&bytes, 0x1000, DecoderOptions::default());
    let insn = dec.decode();
    let mut buf: Vec<u8> = Vec::new();
    FmtFormatter::new().format(&insn, &mut buf);
    String::from_utf8(buf).unwrap_or_default()
}

fn check(word: u32, expected: &str) {
    assert_eq!(render(word), expected, "word={word:#010x}");
}


#[test]
fn mlall_long_long() {
        // Single (indexed / non-indexed), vgx2, vgx4 — `.b` sources into za.s.
        check(0xC1000000, "smlall  za.s[w8, 0:3], z0.b, z0.b[0]");
        check(0xC1200400, "smlall  za.s[w8, 0:3], z0.b, z0.b");
        check(0xC1100000, "smlall  za.s[w8, 0:3, vgx2], { z0.b, z1.b }, z0.b[0]");
        check(0xC1108000, "smlall  za.s[w8, 0:3, vgx4], { z0.b - z3.b }, z0.b[0]");
        // The i16i64 `.h` → za.d long-long form.
        check(0xC1800000, "smlall  za.d[w8, 0:3], z0.h, z0.h[0]");
    }

#[test]
fn mlal_and_fmlal_widening() {
        check(0xC1C01000, "smlal   za.s[w8, 0:1], z0.h, z0.h[0]");
        check(0xC1801000, "fmlal   za.s[w8, 0:1], z0.h, z0.h[0]");
        check(0xC1400000, "fmlall  za.s[w8, 0:3], z0.b, z0.b[0]");
        // FP8 `.b` → za.h widening FMLAL.
        check(0xC1200804, "fmlal   za.h[w8, 0:1, vgx2], { z0.b, z1.b }, z0.b");
    }

#[test]
fn fmla_into_za() {
        check(0xC1A01008, "fmla    za.h[w8, 0, vgx2], { z0.h, z1.h }, { z0.h, z1.h }");
        check(0xC1A11800, "fmla    za.s[w8, 0, vgx4], { z0.s - z3.s }, { z0.s - z3.s }");
        check(0xC1201C00, "fmla    za.h[w8, 0, vgx2], { z0.h, z1.h }, z0.h");
        check(0xC1101000, "fmla    za.h[w8, 0, vgx2], { z0.h, z1.h }, z0.h[0]");
        check(0xC1D00000, "fmla    za.d[w8, 0, vgx2], { z0.d, z1.d }, z0.d[0]");
    }

#[test]
fn tmopa_outer_products() {
        check(0x80400000, "ftmopa  za0.s, { z0.s, z1.s }, z0.s, z20[0]");
        check(0x80408000, "stmopa  za0.s, { z0.b, z1.b }, z0.b, z20[0]");
        check(0x81400008, "ftmopa  za0.h, { z0.h, z1.h }, z0.h, z20[0]");
        check(0x81608000, "utmopa  za0.s, { z0.b, z1.b }, z0.b, z20[0]");
        check(0x80608000, "sutmopa za0.s, { z0.b, z1.b }, z0.b, z20[0]");
    }

#[test]
fn za_dot_add_sub_render() {
        // Representative words (mnemonic padded to 8).
        check(0xc12015d2, "udot    za.s[w8, 2, vgx2], { z14.b, z15.b }, z0.b");
        check(0xc1203560, "sdot    za.s[w9, 0, vgx2], { z11.b, z12.b }, z0.b");
        check(0xc1201429, "usdot   za.s[w8, 1, vgx2], { z1.b, z2.b }, z0.b");
        check(0xc120163d, "sudot   za.s[w8, 5, vgx2], { z17.b, z18.b }, z0.b");
        check(0xc150020c, "fvdot   za.s[w8, 4, vgx2], { z16.h, z17.h }, z0.h[0]");
        check(0xc1500976, "uvdot   za.s[w8, 6, vgx2], { z10.h, z11.h }, z0.h[2]");
        check(0xc15006a7, "svdot   za.s[w8, 7, vgx2], { z20.h, z21.h }, z0.h[1]");
        check(0xc150051c, "bfvdot  za.s[w8, 4, vgx2], { z8.h, z9.h }, z0.h[1]");
        check(0xc1508839, "suvdot  za.s[w8, 1, vgx4], { z0.b - z3.b }, z0.b[2]");
        check(0xc1508128, "usvdot  za.s[w8, 0, vgx4], { z8.b - z11.b }, z0.b[0]");
        check(0xc1203976, "add     za.s[w9, 6, vgx2], { z11.s, z12.s }, z0.s");
        check(0xc1201898, "sub     za.s[w8, 0, vgx2], { z4.s, z5.s }, z0.s");
        check(0xc110bc46, "fdot    za.h[w9, 6, vgx4], { z0.b - z3.b }, z0.b[6]");
        check(0xc1201094, "bfdot   za.s[w8, 4, vgx2], { z4.h, z5.h }, z0.h");
        check(0xc1d00e86, "fvdotb  za.s[w8, 6, vgx4], { z20.b, z21.b }, z0.b[2]");
        check(0xc1d00f5f, "fvdott  za.s[w8, 7, vgx4], { z26.b, z27.b }, z0.b[3]");
    }

#[test]
fn sme2_feature_gate_off_leaves_invalid() {
        // With FEAT_SME2 not accepted, the multi-vector forms must not decode.
        let opts = DecoderOptions { features: FeatureSet::base() };
        let bytes = 0xC1000000u32.to_le_bytes();
        let mut dec = Decoder::new(&bytes, 0x1000, opts);
        assert!(dec.decode().is_invalid());
    }
