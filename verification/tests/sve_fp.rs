use lib::decode::decode_into;
use lib::{FeatureSet, FmtFormatter, Instruction};

fn feats() -> FeatureSet {
    // Accept everything (SVE + BF16 + FP16 included).
    FeatureSet::all()
}

/// Decode `word` and assert it renders to `expected`.
fn check(word: u32, expected: &str) {
    let mut insn = Instruction::default();
    decode_into(word, 0x1000, feats(), &mut insn);
    let mut buf: Vec<u8> = Vec::new();
    FmtFormatter::new().format(&insn, &mut buf);
    assert_eq!(String::from_utf8(buf).unwrap(), expected, "word={word:#010x}");
}

#[test]
fn fadd_unpred() {
        // 65900036 fadd z22.s, z1.s, z16.s
        check(0x65900036, "fadd    z22.s, z1.s, z16.s");
    }

#[test]
fn fadd_pred() {
        // 65C08830 fadd z16.d, p2/m, z16.d, z1.d
        check(0x65C08830, "fadd    z16.d, p2/m, z16.d, z1.d");
    }

#[test]
fn fadd_imm() {
        // 65D89021 fadd z1.d, p4/m, z1.d, #1.0
        check(0x65D89021, "fadd    z1.d, p4/m, z1.d, #1.0");
    }

#[test]
fn fmul_imm_two() {
        // 655A9414 fmul z20.h, p5/m, z20.h, #0.5
        check(0x655A9414, "fmul    z20.h, p5/m, z20.h, #0.5");
    }

#[test]
fn fmla_pred() {
        // 65AD10BC fmla z28.s, p4/m, z5.s, z13.s
        check(0x65AD10BC, "fmla    z28.s, p4/m, z5.s, z13.s");
    }

#[test]
fn fmad_pred() {
        // 65F29337 fmad z23.d, p4/m, z25.d, z18.d
        check(0x65F29337, "fmad    z23.d, p4/m, z25.d, z18.d");
    }

#[test]
fn fcvtzs_d2x() {
        // 65DEB3F7 fcvtzs z23.d, p4/m, z31.d
        check(0x65DEB3F7, "fcvtzs  z23.d, p4/m, z31.d");
    }

#[test]
fn scvtf_w2s() {
        // 6594B1AF scvtf z15.s, p4/m, z13.s
        check(0x6594B1AF, "scvtf   z15.s, p4/m, z13.s");
    }

#[test]
fn fcmeq_zz() {
        // 659B7E0C fcmeq p12.s, p7/z, z16.s, z27.s
        check(0x659B7E0C, "fcmeq   p12.s, p7/z, z16.s, z27.s");
    }

#[test]
fn fcmeq_zero() {
        // 65D23DC8 fcmeq p8.d, p7/z, z14.d, #0.0
        check(0x65D23DC8, "fcmeq   p8.d, p7/z, z14.d, #0.0");
    }

#[test]
fn faddv_reduction() {
        // 65402324 faddv h4, p0, z25.h
        check(0x65402324, "faddv   h4, p0, z25.h");
    }

#[test]
fn fadda_reduction() {
        // 655832AB fadda h11, p4, h11, z21.h
        check(0x655832AB, "fadda   h11, p4, h11, z21.h");
    }

#[test]
fn frecpe_unary() {
        // 654E3147 frecpe z7.h, z10.h
        check(0x654E3147, "frecpe  z7.h, z10.h");
    }

#[test]
fn fsqrt_pred() {
        // 658DAB21 fsqrt z1.s, p2/m, z25.s
        check(0x658DAB21, "fsqrt   z1.s, p2/m, z25.s");
    }

#[test]
fn fabs_pred() {
        // 045CBAF7 fabs z23.h, p6/m, z23.h
        check(0x045CBAF7, "fabs    z23.h, p6/m, z23.h");
    }

#[test]
fn fexpa_unary() {
        // 0460BAFF fexpa z31.h, z23.h
        check(0x0460BAFF, "fexpa   z31.h, z23.h");
    }

#[test]
fn ftssel_vec() {
        // 04A2B140 ftssel z0.s, z10.s, z2.s
        check(0x04A2B140, "ftssel  z0.s, z10.s, z2.s");
    }

#[test]
fn fmul_indexed() {
        // 64F323C5 fmul z5.d, z30.d, z3.d[1]
        check(0x64F323C5, "fmul    z5.d, z30.d, z3.d[1]");
    }

#[test]
fn fmla_indexed_s() {
        // 64AD01C2 fmla z2.s, z14.s, z5.s[1]
        check(0x64AD01C2, "fmla    z2.s, z14.s, z5.s[1]");
    }

#[test]
fn fcadd_complex() {
        // 64418669 fcadd z9.h, p1/m, z9.h, z19.h, #0x10e
        check(0x64418669, "fcadd   z9.h, p1/m, z9.h, z19.h, #0x10e");
    }

#[test]
fn ftmad_imm() {
        // 659483CC ftmad z12.s, z12.s, z30.s, #0x4
        check(0x659483CC, "ftmad   z12.s, z12.s, z30.s, #0x4");
    }

#[test]
fn fmmla_s() {
        // 64A7E5E7 fmmla z7.s, z15.s, z7.s
        check(0x64A7E5E7, "fmmla   z7.s, z15.s, z7.s");
    }

#[test]
fn fmsb_pred() {
        // 657BAD5C fmsb z28.h, p3/m, z10.h, z27.h
        check(0x657BAD5C, "fmsb    z28.h, p3/m, z10.h, z27.h");
    }

#[test]
fn fnmla_pred() {
        // 65A84A16 fnmla z22.s, p2/m, z16.s, z8.s
        check(0x65A84A16, "fnmla   z22.s, p2/m, z16.s, z8.s");
    }

#[test]
fn fnmls_pred() {
        // 65626A37 fnmls z23.h, p2/m, z17.h, z2.h
        check(0x65626A37, "fnmls   z23.h, p2/m, z17.h, z2.h");
    }

#[test]
fn fnmsb_pred() {
        // 6573F235 fnmsb z21.h, p4/m, z17.h, z19.h
        check(0x6573F235, "fnmsb   z21.h, p4/m, z17.h, z19.h");
    }

#[test]
fn fcmuo_vec() {
        // 6542D98A fcmuo p10.h, p6/z, z12.h, z2.h
        check(0x6542D98A, "fcmuo   p10.h, p6/z, z12.h, z2.h");
    }

#[test]
fn fcmne_zero() {
        // 65532D0E fcmne p14.h, p3/z, z8.h, #0.0
        check(0x65532D0E, "fcmne   p14.h, p3/z, z8.h, #0.0");
    }

#[test]
fn fabd_pred() {
        // 65889F72 fabd z18.s, p7/m, z18.s, z27.s
        check(0x65889F72, "fabd    z18.s, p7/m, z18.s, z27.s");
    }

#[test]
fn fscale_pred() {
        // 6549917A fscale z26.h, p4/m, z26.h, z11.h
        check(0x6549917A, "fscale  z26.h, p4/m, z26.h, z11.h");
    }

#[test]
fn fdivr_pred() {
        // 65CC9134 fdivr z20.d, p4/m, z20.d, z9.d
        check(0x65CC9134, "fdivr   z20.d, p4/m, z20.d, z9.d");
    }

#[test]
fn fcmle_zero_vs_fcmlt() {
        // 65D133D7 fcmle p7.d, p4/z, z30.d, #0.0
        check(0x65D133D7, "fcmle   p7.d, p4/z, z30.d, #0.0");
        // 65D13CED fcmlt p13.d, p7/z, z7.d, #0.0
        check(0x65D13CED, "fcmlt   p13.d, p7/z, z7.d, #0.0");
    }

#[test]
fn fmov_fcpy_imm() {
        // 05D0CDDB fmov z27.d, p0/m, #0.9375  (FCPY rendered as FMOV)
        check(0x05D0CDDB, "fmov    z27.d, p0/m, #0.9375");
        // 05D2C535 fmov z21.d, p2/m, #12.5
        check(0x05D2C535, "fmov    z21.d, p2/m, #12.5");
    }

#[test]
fn fmov_fdup_imm() {
        // 25F9D7A8 fmov z8.d, #-29.0  (FDUP rendered as FMOV)
        check(0x25F9D7A8, "fmov    z8.d, #-29.0");
    }

#[test]
fn faddp_pairwise() {
        // 645094C5 faddp z5.h, p5/m, z5.h, z6.h
        check(0x645094C5, "faddp   z5.h, p5/m, z5.h, z6.h");
    }

#[test]
fn fcvtlt_h2s() {
        // 6489B691 fcvtlt z17.s, p5/m, z20.h
        check(0x6489B691, "fcvtlt  z17.s, p5/m, z20.h");
    }

#[test]
fn fcvtxnt_narrow() {
        // 640AA4C9 fcvtxnt z9.s, p1/m, z6.d
        check(0x640AA4C9, "fcvtxnt z9.s, p1/m, z6.d");
    }

#[test]
fn bfcvtnt_narrow() {
        // 648AABAB bfcvtnt z11.h, p2/m, z29.s
        check(0x648AABAB, "bfcvtnt z11.h, p2/m, z29.s");
    }

#[test]
fn bfcvt_pred() {
        // 658AB9BB bfcvt z27.h, p6/m, z13.s
        check(0x658AB9BB, "bfcvt   z27.h, p6/m, z13.s");
    }

#[test]
fn bfdot_vec() {
        // 64698385 bfdot z5.s, z28.h, z9.h
        check(0x64698385, "bfdot   z5.s, z28.h, z9.h");
    }

#[test]
fn fmlalb_long() {
        // 64B083C3 fmlalb z3.s, z30.h, z16.h
        check(0x64B083C3, "fmlalb  z3.s, z30.h, z16.h");
    }

#[test]
fn frecps_unpred() {
        // 65D61BFB frecps z27.d, z31.d, z22.d
        check(0x65D61BFB, "frecps  z27.d, z31.d, z22.d");
    }

#[test]
fn fcmla_indexed() {
        // 64A81101 fcmla z1.h, z8.h, z0.h[1], #0x0
        check(0x64A81101, "fcmla   z1.h, z8.h, z0.h[1], #0x0");
    }

/// Decode `word` and assert that it decodes to an instruction.
fn decodes(word: u32) {
    let mut insn = Instruction::default();
    decode_into(word, 0x1000, feats(), &mut insn);
    assert!(!insn.is_invalid(), "decode left Invalid: word={word:#010x}");
}

#[test]
fn fabs_fneg_zeroing_sve2p1() {
        check(0x044CA180, "fabs    z0.h, p0/z, z12.h");
        check(0x044DA00C, "fneg    z12.h, p0/z, z0.h");
        decodes(0x044CA180);
        decodes(0x044DA00C);
        decodes(0x045CBAF7);
    }

#[test]
fn quadword_reductions_fp() {
        check(0x6450ADE5, "faddqv  v5.8h, p3, z15.h");
        check(0x6457ABCA, "fminqv  v10.8h, p2, z30.h");
        check(0x6454A000, "fmaxnmqv v0.8h, p0, z0.h");
        check(0x6455A000, "fminnmqv v0.8h, p0, z0.h");
        check(0x6456A000, "fmaxqv  v0.8h, p0, z0.h");
        check(0x6490A000, "faddqv  v0.4s, p0, z0.s");
        check(0x64D0A000, "faddqv  v0.2d, p0, z0.d");
        for w in [0x6450ADE5, 0x6457ABCA, 0x6454A000, 0x6455A000, 0x6456A000, 0x6490A000, 0x64D0A000] {
            decodes(w);
        }
    }
