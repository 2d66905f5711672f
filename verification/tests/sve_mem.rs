use lib::{Decoder, DecoderOptions, FmtFormatter};


/// Decode `word` at 0x1000 and render it.
fn render(word: u32) -> String {
    let bytes = word.to_le_bytes();
    let mut dec = Decoder::new(&bytes, 0x1000, DecoderOptions::default());
    let insn = dec.decode();
    let mut buf: Vec<u8> = Vec::new();
    FmtFormatter::new().format(&insn, &mut buf);
    String::from_utf8(buf).unwrap_or_default()
}

fn check(word: u32, expected: &str) {
    assert_eq!(render(word), expected, "word={word:#010x}");
}


#[test]
fn contiguous_scalar_imm_and_scalar() {
        // LD1B scalar+imm (MUL VL) and scalar+scalar; LSL amount = mem size.
        check(0xA40A4000, "ld1b    {z0.b}, p0/z, [x0, x10]");
        check(0xA5E54000, "ld1d    {z0.d}, p0/z, [x0, x5, lsl #0x3]");
        // negative MUL VL immediate renders in decimal (SVE radix).
        check(0xA43AA5D5, "ldnf1b  {z21.h}, p1/z, [x14, #-6, mul vl]");
    }

#[test]
fn replicating_and_broadcast() {
        // LD1RQ scalar+imm scales by 16 and renders the byte offset in decimal.
        check(0xA40E2A74, "ld1rqb  {z20.b}, p2/z, [x19, #-32]");
        // LD1RO scalar+imm renders the raw (signed-hex) multiple.
        check(0xA42F2549, "ld1rob  {z9.b}, p1/z, [x10, #-0x1]");
        // LD1R* broadcast: immediate is imm6 * element size.
        check(0x84408C05, "ld1rb   {z5.b}, p3/z, [x0]");
        check(0x858010A0, "ldr     p0, [x5, #0x4, mul vl]");
    }

#[test]
fn structured_loads_stores() {
        check(0xA522FB80, "ld2w    {z0.s, z1.s}, p6/z, [x28, #0x4, mul vl]");
        check(0xE463F31B, "st1b    {z27.d}, p4, [x24, #0x3, mul vl]");
    }

#[test]
fn gather_and_scatter() {
        // 32-bit gather, scaled (uxtw #1).
        check(0x84BB1101, "ld1sh   {z1.s}, p4/z, [x8, z27.s, uxtw #0x1]");
        // 64-bit gather, plain 64-bit offset.
        check(0xC45B9A1F, "ld1sb   {z31.d}, p6/z, [x16, z27.d]");
        // vector-base gather (no offset).
        check(0x8420C000, "ld1b    {z0.s}, p0/z, [z0.s]");
        // scatter: vector base + scalar, and vector + immediate.
        check(0xE44A2137, "stnt1b  {z23.s}, p0, [z9.s, x10]");
        check(0xE456A5CC, "st1b    {z12.d}, p1, [z14.d, #0x16]");
    }

#[test]
fn prefetch_forms() {
        // PRF gather: byte size shows no `#amt`; dword shows the scale.
        check(0xC4679D42, "prfb    pldl2keep, p7, [x10, z7.d]");
        check(0xC4321D80, "prfb    pldl1keep, p7, [x12, z18.d, uxtw]");
    }

#[test]
fn never_panics_on_sve_mem_space() {
        // Exhaustively exercise the SVE memory quadrant prefixes for
        // panic-freedom across the full low 16 bits.
                for hi in [0x84u32, 0x85, 0xa4, 0xa5, 0xc4, 0xc5, 0xe4, 0xe5] {
            for low in 0u32..=0xffff {
                let word = (hi << 24) | (low << 8) | (low & 0xff);
                let _ = render(word);
            }
        }
    }
