//! The decode tree: top-level classification of a 32-bit word and the SVE /
//! SME encoding groups.
use vstd::prelude::*;
use crate::bits::{bit, bits, field};
use crate::code::{code_mnemonic, default_mnemonic, Code, Mnemonic};
use crate::features::{base_features, Feature, FeatureSet};
use crate::instruction::Instruction;
use crate::operand::Operand;

pub mod ops;
pub mod sme;
pub mod sve;

verus! {

/// What every decoder of an encoding family guarantees about `out`: it stays
/// well formed and keeps its address, and it is left exactly as it was unless
/// an instruction was recognised.
pub open spec fn decode_post(before: Instruction, after: Instruction) -> bool {
    &&& after.wf()
    &&& after.ip == before.ip
    &&& (after.code == Code::Invalid ==> after == before)
}

/// `after` is `before` with `ops` appended and nothing else changed.
pub open spec fn pushed(before: Instruction, after: Instruction, ops: Seq<Operand>) -> bool {
    &&& after.operands() =~= before.operands() + ops
    &&& after.len == before.len + ops.len()
    &&& after.code == before.code
    &&& after.mnemonic == before.mnemonic
    &&& after.ip == before.ip
}

/// `after` holds exactly the instruction `code`, written `mnemonic`, with the
/// operands `ops`, at the address of `before`.
pub open spec fn installed(before: Instruction, after: Instruction, code: Code, mnemonic: Mnemonic, ops: Seq<Operand>) -> bool {
    &&& after.code == code
    &&& after.mnemonic == mnemonic
    &&& after.operands() =~= ops
    &&& after.len == ops.len()
    &&& after.ip == before.ip
}

/// `after` holds the instruction that `form` describes (code, mnemonic,
/// operands) at the address of `before`, or, when `form` is `None`, is
/// `before` unchanged.
pub open spec fn yields(before: Instruction, after: Instruction, form: Option<(Code, Mnemonic, Seq<Operand>)>) -> bool {
    match form {
        Some(f) => installed(before, after, f.0, f.1, f.2),
        None => after == before,
    }
}

/// The instruction `code`, written with its default mnemonic, with the
/// operands `ops`.
pub open spec fn insn(code: Code, ops: Seq<Operand>) -> Option<(Code, Mnemonic, Seq<Operand>)> {
    Some((code, code_mnemonic(code), ops))
}

/// `insn` holds exactly the instruction `form` describes: its code, its
/// mnemonic and its operands.
pub open spec fn shows(insn: Instruction, form: (Code, Mnemonic, Seq<Operand>)) -> bool {
    &&& insn.code == form.0
    &&& insn.mnemonic == form.1
    &&& insn.operands() =~= form.2
    &&& insn.len == form.2.len()
}

/// Install an instruction without operands, written `mnemonic`, into a
/// blank `out`.
pub fn install0(out: &mut Instruction, code: Code, mnemonic: Mnemonic)
    requires
        old(out).is_blank(),
        code != Code::Invalid,
    ensures
        final(out).wf(),
        decode_post(*old(out), *final(out)),
        installed(*old(out), *final(out), code, mnemonic, Seq::empty()),
{
    out.set(code);
    out.set_mnemonic(mnemonic);
    assert(final(out).operands() =~= Seq::<Operand>::empty());
}

/// Install a one-operand instruction, written `mnemonic`, into a blank `out`.
pub fn install1_as(out: &mut Instruction, code: Code, mnemonic: Mnemonic, a: Operand)
    requires
        old(out).is_blank(),
        code != Code::Invalid,
    ensures
        final(out).wf(),
        decode_post(*old(out), *final(out)),
        installed(*old(out), *final(out), code, mnemonic, seq![a]),
{
    out.set(code);
    out.set_mnemonic(mnemonic);
    out.push_operand(a);
}

/// Install a one-operand instruction into a blank `out`.
pub fn install1(out: &mut Instruction, code: Code, a: Operand)
    requires
        old(out).is_blank(),
        code != Code::Invalid,
    ensures
        final(out).wf(),
        decode_post(*old(out), *final(out)),
        installed(*old(out), *final(out), code, code_mnemonic(code), seq![a]),
{
    out.set(code);
    out.push_operand(a);
}

/// Install a two-operand instruction into a blank `out`.
pub fn install2(out: &mut Instruction, code: Code, a: Operand, b: Operand)
    requires
        old(out).is_blank(),
        code != Code::Invalid,
    ensures
        final(out).wf(),
        decode_post(*old(out), *final(out)),
        installed(*old(out), *final(out), code, code_mnemonic(code), seq![a, b]),
{
    out.set(code);
    out.push_operand(a);
    out.push_operand(b);
}

/// Install a two-operand instruction, written `mnemonic`, into a blank `out`.
pub fn install2_as(out: &mut Instruction, code: Code, mnemonic: Mnemonic, a: Operand, b: Operand)
    requires
        old(out).is_blank(),
        code != Code::Invalid,
    ensures
        final(out).wf(),
        decode_post(*old(out), *final(out)),
        installed(*old(out), *final(out), code, mnemonic, seq![a, b]),
{
    out.set(code);
    out.set_mnemonic(mnemonic);
    out.push_operand(a);
    out.push_operand(b);
}

/// The assembler mnemonic a code is written with by default.
pub fn mnemonic_of(code: Code) -> (m: Mnemonic)
    ensures
        m == code_mnemonic(code),
{
    default_mnemonic(code)
}

/// Install a three-operand instruction, written `mnemonic`, into a blank
/// `out`.
pub fn install3(out: &mut Instruction, code: Code, mnemonic: Mnemonic, a: Operand, b: Operand, c: Operand)
    requires
        old(out).is_blank(),
        code != Code::Invalid,
    ensures
        final(out).wf(),
        decode_post(*old(out), *final(out)),
        installed(*old(out), *final(out), code, mnemonic, seq![a, b, c]),
{
    out.set(code);
    out.set_mnemonic(mnemonic);
    out.push_operand(a);
    out.push_operand(b);
    out.push_operand(c);
}

/// Install a four-operand instruction, written `mnemonic`, into a blank
/// `out`.
pub fn install4(out: &mut Instruction, code: Code, mnemonic: Mnemonic, a: Operand, b: Operand, c: Operand, d: Operand)
    requires
        old(out).is_blank(),
        code != Code::Invalid,
    ensures
        final(out).wf(),
        decode_post(*old(out), *final(out)),
        installed(*old(out), *final(out), code, mnemonic, seq![a, b, c, d]),
{
    out.set(code);
    out.set_mnemonic(mnemonic);
    out.push_operand(a);
    out.push_operand(b);
    out.push_operand(c);
    out.push_operand(d);
}

/// Install a five-operand instruction, written `mnemonic`, into a blank
/// `out`.
pub fn install5(out: &mut Instruction, code: Code, mnemonic: Mnemonic, a: Operand, b: Operand, c: Operand, d: Operand, e: Operand)
    requires
        old(out).is_blank(),
        code != Code::Invalid,
    ensures
        final(out).wf(),
        decode_post(*old(out), *final(out)),
        installed(*old(out), *final(out), code, mnemonic, seq![a, b, c, d, e]),
{
    out.set(code);
    out.set_mnemonic(mnemonic);
    out.push_operand(a);
    out.push_operand(b);
    out.push_operand(c);
    out.push_operand(d);
    out.push_operand(e);
}

/// The top-level group of a word: `op0 = word<28:25>`.
pub open spec fn op0(word: u32) -> u32 {
    field(word, 25, 4)
}

/// `word` belongs to a group this decoder covers: SVE (`op0 == 0010`) or SME
/// (`op0 == 0000` with `word<31> == 1`).
pub open spec fn in_scope(word: u32) -> bool {
    ||| op0(word) == 0b0010
    ||| (op0(word) == 0 && field(word, 31, 1) == 1)
}

/// The instruction `word` encodes under `features`, or `None`: the SVE
/// form for the SVE group, the SME form for the SME part of the reserved
/// group, and `None` for every other group.
pub open spec fn word_form(word: u32, features: FeatureSet) -> Option<(Code, Mnemonic, Seq<Operand>)> {
    if op0(word) == 0b0010 {
        sve::sve_form(word, features)
    } else if op0(word) == 0 && field(word, 31, 1) == 1 {
        sme::sme_form(word, features)
    } else {
        None
    }
}

/// With no extension accepted, no word decodes: every word is left blank.
pub proof fn lemma_base_decodes_nothing(word: u32)
    ensures
        word_form(word, base_features()) is None,
{
    crate::features::lemma_all_and_base(Feature::Sve);
    crate::features::lemma_all_and_base(Feature::Sme);
    crate::features::lemma_all_and_base(Feature::Lut);
    reveal(sve::sve_form);
    reveal(sme::sme_form);
    sve::sve_fp::lemma_fp_form(word, base_features());
}

/// Decode `word`, located at `ip`, into `out`.
///
/// The SVE group (`op0 == 0010`) goes to the SVE decoders and the SME part of
/// the reserved group (`op0 == 0000`, `word<31> == 1`) to the SME decoders;
/// every other group is left undecoded. `out` is reset first, so it ends
/// either as a decoded instruction or as a blank instruction at `ip`.
pub fn decode_into(word: u32, ip: u64, features: FeatureSet, out: &mut Instruction)
    ensures
        final(out).wf(),
        final(out).ip == ip,
        final(out).code == Code::Invalid ==> final(out).is_blank(),
        !in_scope(word) ==> final(out).is_blank(),
        op0(word) == 0 && !features.contains(Feature::Sme) ==> final(out).is_blank(),
        op0(word) == 0b0010 && !features.contains(Feature::Sve) && !features.contains(Feature::Lut)
            ==> final(out).is_blank(),
        match word_form(word, features) {
            Some(f) => shows(*final(out), f),
            None => final(out).is_blank(),
        },
{
    proof {
        reveal(sve::sve_form);
        reveal(sme::sme_form);
    }
    *out = Instruction::new();
    out.set_ip(ip);
    let g = bits(word, 25, 4);
    if g == 0b0010 {
        sve::decode(word, ip, features, out);
    } else if g == 0 && bit(word, 31) == 1 {
        sme::decode(word, ip, features, out);
    }
}

} // verus!
