use lib::decode::decode_into;
use lib::decode::sme::sme2::{alu_arrangement, alu_form_for_code, form_for_code, pdep, pext};
use lib::operand::Operand;
use lib::types::VectorArrangement;
use lib::{Code, DecodeError, Decoder, DecoderOptions, FeatureSet, FmtFormatter, Instruction, Mnemonic};

fn render(insn: &Instruction) -> String {
    let mut buf: Vec<u8> = Vec::new();
    FmtFormatter::new().format(insn, &mut buf);
    String::from_utf8(buf).unwrap()
}

fn decode_word(word: u32, features: FeatureSet) -> Instruction {
    let bytes = word.to_le_bytes();
    let mut dec = Decoder::new(&bytes, 0x1000, DecoderOptions { features });
    dec.decode()
}

#[test]
fn pext_gathers_selected_bits() {
    assert_eq!(pext(0b1011_0110, 0b1111_0000), 0b1011);
    assert_eq!(pext(0b1011_0110, 0b0101_0101), 0b0110);
    assert_eq!(pext(0xffff_ffff, 0x8000_0001), 0b11);
    assert_eq!(pext(0x1234_5678, 0), 0);
    assert_eq!(pext(0xdead_beef, 0xffff_ffff), 0xdead_beef);
}

#[test]
fn pdep_scatters_low_bits() {
    assert_eq!(pdep(0b1011, 0b1111_0000), 0b1011_0000);
    assert_eq!(pdep(0b0110, 0b0101_0101), 0b0001_0100);
    assert_eq!(pdep(0xffff_ffff, 0x8000_0001), 0x8000_0001);
    assert_eq!(pdep(0xabc, 0), 0);
}

#[test]
fn pdep_and_pext_undo_each_other() {
    let masks = [0u32, 1, 0x6000, 0x1e0000, 0x8c00, 0xc08, 0xf0f0_f0f0, 0xffff_ffff, 0x8000_0001];
    let values = [0u32, 1, 0x5a5a_5a5a, 0xffff_ffff, 0x1234_5678, 0x8000_0000];
    for &m in &masks {
        let width = m.count_ones();
        for &v in &values {
            let low = if width >= 32 { v } else { v & ((1u32 << width) - 1) };
            assert_eq!(pext(pdep(v, m), m), low);
            assert_eq!(pdep(pext(v, m), m), v & m);
        }
    }
}

#[test]
fn short_tail_is_end_of_instruction() {
    let bytes = [0x00u8, 0x00, 0x20];
    let mut dec = Decoder::new(&bytes, 0x4000, DecoderOptions::default());
    assert!(!dec.can_decode());
    let insn = dec.decode();
    assert!(insn.is_invalid());
    assert_eq!(insn.op_count(), 0);
    assert_eq!(dec.last_error(), DecodeError::EndOfInstruction);
    assert_eq!(dec.position(), 0);
    assert_eq!(dec.ip(), 0x4000);
}

#[test]
fn unmatched_word_advances_and_reports() {
    // A64 NOP: outside the SVE / SME groups.
    let bytes = 0xd503_201fu32.to_le_bytes();
    let mut dec = Decoder::new(&bytes, 0x4000, DecoderOptions::default());
    let insn = dec.decode();
    assert!(insn.is_invalid());
    assert_eq!(insn.ip(), 0x4000);
    assert_eq!(dec.last_error(), DecodeError::Unmatched);
    assert_eq!(dec.position(), 4);
    assert_eq!(dec.ip(), 0x4004);
}

#[test]
fn decoded_word_clears_the_error() {
    let mut bytes = Vec::new();
    bytes.extend_from_slice(&0xd503_201fu32.to_le_bytes());
    bytes.extend_from_slice(&0x046a_03adu32.to_le_bytes());
    let mut dec = Decoder::new(&bytes, 0, DecoderOptions::default());
    assert!(dec.decode().is_invalid());
    assert_eq!(dec.last_error(), DecodeError::Unmatched);
    let insn = dec.decode();
    assert_eq!(dec.last_error(), DecodeError::NoError);
    assert_eq!(insn.code(), Code::SveAddZzz);
    assert_eq!(render(&insn), "add     z13.h, z29.h, z10.h");
}

#[test]
fn address_wraps_modulo_2_64() {
    let bytes = 0x046a_03adu32.to_le_bytes();
    let mut dec = Decoder::new(&bytes, u64::MAX - 1, DecoderOptions::default());
    let insn = dec.decode();
    assert_eq!(insn.ip(), u64::MAX - 1);
    assert_eq!(dec.ip(), 2);
}

#[test]
fn seeking_back_restores_the_address() {
    let bytes = [0u8; 16];
    let mut dec = Decoder::new(&bytes, 0x8000, DecoderOptions::default());
    dec.decode();
    dec.decode();
    assert_eq!(dec.ip(), 0x8008);
    dec.set_position(4);
    assert_eq!(dec.ip(), 0x8004);
    dec.set_position(0);
    assert_eq!(dec.ip(), 0x8000);
    dec.set_ip(0x100);
    assert_eq!(dec.position(), 0);
    dec.set_position(12);
    assert_eq!(dec.ip(), 0x10c);
}

#[test]
fn try_new_always_succeeds() {
    let bytes = [1u8, 2, 3, 4];
    let dec = Decoder::try_new(&bytes, 0x10, DecoderOptions::default()).unwrap();
    assert_eq!(dec.position(), 0);
    assert_eq!(dec.ip(), 0x10);
    assert_eq!(dec.last_error(), DecodeError::NoError);
    assert_eq!(dec.options().features, FeatureSet::all());
}

#[test]
fn iterators_stop_before_a_partial_word() {
    let bytes = [0u8; 10];
    let dec = Decoder::new(&bytes, 0, DecoderOptions::default());
    let mut it = dec.into_iter();
    let mut n = 0;
    while let Some(insn) = it.next() {
        assert_eq!(insn.ip(), 4 * n);
        n += 1;
    }
    assert_eq!(n, 2);

    let mut dec = Decoder::new(&bytes, 0, DecoderOptions::default());
    let mut count = 0;
    {
        let mut it = dec.iter();
        while it.next().is_some() {
            count += 1;
        }
    }
    assert_eq!(count, 2);
    assert_eq!(dec.position(), 8);
    assert!(!dec.can_decode());
}

#[test]
fn feature_gates() {
    // SVE ADD with SVE off.
    assert!(decode_word(0x046a_03ad, FeatureSet::base()).is_invalid());
    assert!(!decode_word(0x046a_03ad, FeatureSet::all()).is_invalid());
    // SME FMOPA with SME off.
    assert!(decode_word(0x809b_4941, FeatureSet::base()).is_invalid());
    assert!(!decode_word(0x809b_4941, FeatureSet::all()).is_invalid());
    // The SVE LUTI2 needs FEAT_LUT.
    let no_lut = FeatureSet { bits: FeatureSet::all().bits & !0x80 };
    assert!(decode_word(0x4520_a9ca, no_lut).is_invalid());
    assert_eq!(decode_word(0x4520_a9ca, FeatureSet::all()).code(), Code::SveLuti2);
}

#[test]
fn decode_into_resets_and_sets_the_address() {
    let mut out = Instruction::new();
    decode_into(0x046a_03ad, 0x20, FeatureSet::all(), &mut out);
    assert_eq!(out.code(), Code::SveAddZzz);
    assert_eq!(out.ip(), 0x20);
    decode_into(0xd503_201f, 0x24, FeatureSet::all(), &mut out);
    assert!(out.is_invalid());
    assert_eq!(out.op_count(), 0);
    assert_eq!(out.ip(), 0x24);
    assert_eq!(out.mnemonic(), Mnemonic::Invalid);
}

#[test]
fn sme2_table_lookups() {
    let f = form_for_code(Code::SmeBfmlaHHOV2Gg).unwrap();
    assert_eq!(f.mask, 0xffe1_9c38);
    assert_eq!(f.val, 0xc1e0_1008);
    assert!(form_for_code(Code::Invalid).is_none());
    assert!(form_for_code(Code::SveAddZzz).is_none());
    let a = alu_form_for_code(Code::SmeZipMV2).unwrap();
    assert_eq!(a.val, 0xc120_d000);
    // `.q` when word<10> is set and the size is zero; nothing for a non-zero size.
    assert_eq!(alu_arrangement(&a, 0xc120_d400), Some(VectorArrangement::Sq));
    assert_eq!(alu_arrangement(&a, 0xc160_d400), None);
    assert_eq!(alu_arrangement(&a, 0xc160_d000), Some(VectorArrangement::Sh));
    assert!(alu_form_for_code(Code::Invalid).is_none());
}

#[test]
fn zero_and_movt_forms() {
    let all = FeatureSet::all();
    assert_eq!(render(&decode_word(0xc008_00ff, all)), "zero    { za }");
    assert_eq!(render(&decode_word(0xc008_0055, all)), "zero    { za0.h }");
    assert_eq!(render(&decode_word(0xc008_0011, all)), "zero    { za0.s }");
    assert_eq!(render(&decode_word(0xc008_0003, all)), "zero    { za0.d, za1.d }");
    assert_eq!(render(&decode_word(0xc048_0001, all)), "zero    { zt0 }");
    let insn = decode_word(0xc04f_33e5, all);
    assert_eq!(insn.code(), Code::SmeMovtZt0Z);
    assert_eq!(render(&insn), "movt    zt0[3, mul vl], z5");
}

#[test]
fn operand_accessors() {
    let insn = decode_word(0x046a_03ad, FeatureSet::all());
    assert_eq!(insn.op_count(), 3);
    assert!(matches!(insn.operand(0), Operand::Reg { .. }));
    assert_eq!(insn.operand(3), Operand::Empty);
    assert_eq!(insn.operand(100), Operand::Empty);
}

#[test]
fn pdep_stays_inside_its_mask() {
    let masks = [0u32, 1, 0x6000, 0x1e0000, 0x8c00, 0xf0f0_f0f0, 0x8000_0001];
    for &m in &masks {
        for &v in &[0u32, 0xffff_ffff, 0x1234_5678] {
            assert_eq!(pdep(v, m) & !m, 0);
        }
    }
    assert_eq!(pdep(0xffff_ffff, 0x0f0f), 0x0f0f);
}

#[test]
fn collecting_walks_every_whole_word() {
    // Two valid words (`rdvl x22, #0x17` twice), one unmatched word, and a
    // two-byte tail.
    let mut bytes: Vec<u8> = Vec::new();
    for w in [0x04BF52F6u32, 0x04BF52F6, 0x0000_0000] {
        bytes.extend_from_slice(&w.to_le_bytes());
    }
    bytes.extend_from_slice(&[0xff, 0xff]);
    let mut dec = Decoder::new(&bytes, 0x4000, DecoderOptions::default());
    let all = {
        let mut it = dec.iter();
        it.collect_rest()
    };
    assert_eq!(all.len(), 3);
    assert_eq!(all[0].ip(), 0x4000);
    assert_eq!(all[1].ip(), 0x4004);
    assert_eq!(all[2].ip(), 0x4008);
    assert!(!all[0].is_invalid());
    assert!(all[2].is_invalid());
    assert_eq!(dec.position(), 12);
    assert_eq!(dec.ip(), 0x400c);
    assert_eq!(dec.last_error(), DecodeError::Unmatched);

    let dec = Decoder::new(&bytes, 0, DecoderOptions::default());
    let mut it = dec.into_iter();
    let again = it.collect_rest();
    assert_eq!(again.len(), 3);
    assert!(it.next().is_none());

    // Nothing to walk: the error is left as it was.
    let short = [0u8; 3];
    let mut dec = Decoder::new(&short, 0, DecoderOptions::default());
    let none = dec.iter().collect_rest();
    assert!(none.is_empty());
    assert_eq!(dec.last_error(), DecodeError::NoError);
}

#[test]
fn bf_and_fp_clamps_are_told_apart_by_size() {
    let all = FeatureSet::all();
    assert_eq!(decode_word(0xC120C000, all).code, Code::SmeBfclampMV2);
    assert_eq!(decode_word(0xC160C000, all).code, Code::SmeFclampMV2);
    assert_eq!(decode_word(0xC1A0C000, all).code, Code::SmeFclampMV2);
    assert_eq!(decode_word(0xC1E0C000, all).code, Code::SmeFclampMV2);
}

#[test]
fn borrowed_decoder_ends_where_the_walk_stops() {
    let mut bytes: Vec<u8> = Vec::new();
    for w in [0x04BF52F6u32, 0x0000_0000] {
        bytes.extend_from_slice(&w.to_le_bytes());
    }
    let mut dec = Decoder::new(&bytes, 0x10, DecoderOptions::default());
    let mut n = 0;
    for _ in dec.iter().collect_rest() {
        n += 1;
    }
    assert_eq!(n, 2);
    assert_eq!(dec.position(), 8);
    assert_eq!(dec.ip(), 0x18);
    assert_eq!(dec.last_error(), DecodeError::Unmatched);
}
