//! The borrowing [`Decoder`]: walks a byte slice four bytes at a time, reads
//! each little-endian word and decodes it. It never panics on malformed input;
//! failures surface as an [`Instruction`] with `Code::Invalid` plus a recorded
//! [`Decoder::last_error`].
use vstd::prelude::*;
use crate::code::Code;
use crate::decode::{decode_into, in_scope, op0, shows, word_form};
use crate::error::DecodeError;
use crate::features::{all_features, Feature, FeatureSet};
use crate::instruction::Instruction;

verus! {

/// The length of every A64 instruction, in bytes.
pub const INSN_LEN: usize = 4;

/// Decode-time options: which extensions are accepted.
#[derive(Clone, Copy, PartialEq, Eq, Debug, Structural)]
pub struct DecoderOptions {
    /// Architecture extensions to accept.
    pub features: FeatureSet,
}

impl Default for DecoderOptions {
    /// Every extension is accepted by default.
    fn default() -> (r: DecoderOptions)
        ensures
            r.features == all_features(),
    {
        DecoderOptions { features: FeatureSet::all() }
    }
}

/// The little-endian word made of the four bytes at `pos`.
pub open spec fn le_word(data: Seq<u8>, pos: int) -> u32 {
    (data[pos] as int + data[pos + 1] as int * 0x100 + data[pos + 2] as int * 0x1_0000 + data[pos + 3] as int
        * 0x100_0000) as u32
}

/// `a + b` modulo 2^64.
pub open spec fn add_mod64(a: int, b: int) -> u64 {
    ((a + b) % 0x1_0000_0000_0000_0000) as u64
}

/// A streaming A64 instruction decoder over a borrowed byte slice; `ip` is
/// the address of the byte at the cursor.
#[derive(Clone, Debug)]
pub struct Decoder<'a> {
    data: &'a [u8],
    pos: usize,
    ip: u64,
    options: DecoderOptions,
    last_error: DecodeError,
}

impl<'a> Decoder<'a> {
    /// The bytes being decoded.
    pub closed spec fn data_view(&self) -> Seq<u8> {
        self.data@
    }

    /// The byte cursor.
    pub closed spec fn pos_view(&self) -> usize {
        self.pos
    }

    /// The address of the byte at the cursor.
    pub closed spec fn ip_view(&self) -> u64 {
        self.ip
    }

    /// The options.
    pub closed spec fn options_view(&self) -> DecoderOptions {
        self.options
    }

    /// The status of the most recent decode.
    pub closed spec fn last_error_view(&self) -> DecodeError {
        self.last_error
    }

    /// A whole word remains at the cursor.
    pub open spec fn has_word(&self) -> bool {
        self.pos_view() + INSN_LEN <= self.data_view().len()
    }

    /// The address of `data[0]` (modulo 2^64): the cursor's address minus the
    /// cursor. Decoding and seeking keep it; only `set_ip` moves it.
    pub open spec fn base(&self) -> u64 {
        add_mod64(self.ip_view() as int, -(self.pos_view() as int))
    }

    /// The number of whole words from the cursor to the end of the data.
    pub open spec fn words_left(&self) -> nat {
        if self.pos_view() <= self.data_view().len() {
            ((self.data_view().len() - self.pos_view()) / INSN_LEN as int) as nat
        } else {
            0
        }
    }

    /// `insn` is the `k`-th instruction decoded from this state: the word `k`
    /// words after the cursor, decoded under the options, at the address `k`
    /// words after the cursor's.
    pub open spec fn decodes_kth(&self, k: int, insn: Instruction) -> bool {
        &&& insn.wf()
        &&& insn.ip == add_mod64(self.ip_view() as int, INSN_LEN * k)
        &&& match word_form(le_word(self.data_view(), self.pos_view() + INSN_LEN * k), self.options_view().features) {
            Some(f) => shows(insn, f),
            None => insn.is_blank(),
        }
    }

    /// A decoder over `data`, treating `data[0]` as address `ip`.
    pub fn new(data: &'a [u8], ip: u64, options: DecoderOptions) -> (d: Decoder<'a>)
        ensures
            d.data_view() == data@,
            d.pos_view() == 0,
            d.ip_view() == ip,
            d.options_view() == options,
            d.last_error_view() == DecodeError::NoError,
    {
        Decoder { data, pos: 0, ip, options, last_error: DecodeError::NoError }
    }

    /// Fallible constructor; every option set is consistent, so it always
    /// succeeds with the same decoder as [`Decoder::new`].
    pub fn try_new(data: &'a [u8], ip: u64, options: DecoderOptions) -> (r: Result<Decoder<'a>, DecodeError>)
        ensures
            r matches Ok(d) && d.data_view() == data@ && d.pos_view() == 0 && d.ip_view() == ip
                && d.options_view() == options && d.last_error_view() == DecodeError::NoError,
    {
        Ok(Decoder::new(data, ip, options))
    }

    /// Decode one instruction, advance, and return it (see
    /// [`Decoder::decode_into`]).
    pub fn decode(&mut self) -> (insn: Instruction)
        ensures
            insn.wf(),
            old(self).has_word() ==> {
                &&& insn.ip == old(self).ip_view()
                &&& final(self).pos_view() == old(self).pos_view() + INSN_LEN
                &&& final(self).ip_view() == add_mod64(old(self).ip_view() as int, INSN_LEN as int)
                &&& final(self).last_error_view() == if insn.code == Code::Invalid {
                    DecodeError::Unmatched
                } else {
                    DecodeError::NoError
                }
                &&& match word_form(le_word(old(self).data_view(), old(self).pos_view() as int), old(self).options_view().features) {
                    Some(f) => shows(insn, f),
                    None => insn.is_blank(),
                }
                &&& !in_scope(le_word(old(self).data_view(), old(self).pos_view() as int)) ==> insn.is_blank()
                &&& op0(le_word(old(self).data_view(), old(self).pos_view() as int)) == 0 && !old(self).options_view().features.contains(Feature::Sme) ==> insn.is_blank()
                &&& op0(le_word(old(self).data_view(), old(self).pos_view() as int)) == 0b0010 && !old(self).options_view().features.contains(Feature::Sve) && !old(self).options_view().features.contains(Feature::Lut)
                    ==> insn.is_blank()
            },
            !old(self).has_word() ==> {
                &&& insn.is_blank()
                &&& insn.ip == 0
                &&& final(self).pos_view() == old(self).pos_view()
                &&& final(self).ip_view() == old(self).ip_view()
                &&& final(self).last_error_view() == DecodeError::EndOfInstruction
            },
            insn.code == Code::Invalid ==> insn.is_blank(),
            final(self).data_view() == old(self).data_view(),
            final(self).options_view() == old(self).options_view(),
            final(self).base() == old(self).base(),
    {
        let mut out = Instruction::new();
        self.decode_into(&mut out);
        out
    }

    /// Decode the word at the cursor into `out`, then advance the cursor and
    /// the address by four. With fewer than four bytes left, `out` becomes a
    /// blank instruction, `last_error` becomes `EndOfInstruction`, and nothing
    /// moves.
    pub fn decode_into(&mut self, out: &mut Instruction)
        ensures
            final(out).wf(),
            old(self).has_word() ==> {
                &&& final(out).ip == old(self).ip_view()
                &&& final(self).pos_view() == old(self).pos_view() + INSN_LEN
                &&& final(self).ip_view() == add_mod64(old(self).ip_view() as int, INSN_LEN as int)
                &&& final(self).last_error_view() == if final(out).code == Code::Invalid {
                    DecodeError::Unmatched
                } else {
                    DecodeError::NoError
                }
                &&& match word_form(le_word(old(self).data_view(), old(self).pos_view() as int), old(self).options_view().features) {
                    Some(f) => shows(*final(out), f),
                    None => final(out).is_blank(),
                }
                &&& !in_scope(le_word(old(self).data_view(), old(self).pos_view() as int)) ==> final(out).is_blank()
                &&& op0(le_word(old(self).data_view(), old(self).pos_view() as int)) == 0 && !old(self).options_view().features.contains(Feature::Sme) ==> final(out).is_blank()
                &&& op0(le_word(old(self).data_view(), old(self).pos_view() as int)) == 0b0010 && !old(self).options_view().features.contains(Feature::Sve) && !old(self).options_view().features.contains(Feature::Lut)
                    ==> final(out).is_blank()
            },
            !old(self).has_word() ==> {
                &&& final(out).is_blank()
                &&& final(out).ip == 0
                &&& final(self).pos_view() == old(self).pos_view()
                &&& final(self).ip_view() == old(self).ip_view()
                &&& final(self).last_error_view() == DecodeError::EndOfInstruction
            },
            final(out).code == Code::Invalid ==> final(out).is_blank(),
            final(self).data_view() == old(self).data_view(),
            final(self).options_view() == old(self).options_view(),
            final(self).base() == old(self).base(),
    {
        let len = self.data.len();
        if self.pos > len || len - self.pos < INSN_LEN {
            *out = Instruction::new();
            self.last_error = DecodeError::EndOfInstruction;
            return;
        }
        let p = self.pos;
        let b0 = self.data[p] as u32;
        let b1 = self.data[p + 1] as u32;
        let b2 = self.data[p + 2] as u32;
        let b3 = self.data[p + 3] as u32;
        let word = b0 | (b1 << 8) | (b2 << 16) | (b3 << 24);
        assert(word == b0 + b1 * 0x100 + b2 * 0x1_0000 + b3 * 0x100_0000) by (bit_vector)
            requires
                word == b0 | (b1 << 8) | (b2 << 16) | (b3 << 24),
                b0 < 256,
                b1 < 256,
                b2 < 256,
                b3 < 256,
        ;
        let ip = self.ip;
        decode_into(word, ip, self.options.features, out);
        self.last_error = if out.is_invalid() {
            DecodeError::Unmatched
        } else {
            DecodeError::NoError
        };
        self.pos = p + INSN_LEN;
        self.ip = self.ip.wrapping_add(INSN_LEN as u64);
    }

    /// `true` iff at least one whole instruction remains.
    pub fn can_decode(&self) -> (r: bool)
        ensures
            r == self.has_word(),
    {
        self.pos <= self.data.len() && self.data.len() - self.pos >= INSN_LEN
    }

    /// The byte cursor.
    pub fn position(&self) -> (r: usize)
        ensures
            r == self.pos_view(),
    {
        self.pos
    }

    /// Move the cursor to `pos`; the address moves by the same amount, so
    /// [`Decoder::base`] is kept.
    pub fn set_position(&mut self, pos: usize)
        ensures
            final(self).pos_view() == pos,
            final(self).ip_view() == add_mod64(old(self).ip_view() as int, pos as int - old(self).pos_view() as int),
            final(self).base() == old(self).base(),
            final(self).data_view() == old(self).data_view(),
            final(self).options_view() == old(self).options_view(),
            final(self).last_error_view() == old(self).last_error_view(),
    {
        let delta = (pos as u64).wrapping_sub(self.pos as u64);
        self.ip = self.ip.wrapping_add(delta);
        self.pos = pos;
    }

    /// The address of the byte at the cursor.
    pub fn ip(&self) -> (r: u64)
        ensures
            r == self.ip_view(),
    {
        self.ip
    }

    /// Set the address of the byte at the cursor (the cursor does not move).
    pub fn set_ip(&mut self, ip: u64)
        ensures
            final(self).ip_view() == ip,
            final(self).pos_view() == old(self).pos_view(),
            final(self).data_view() == old(self).data_view(),
            final(self).options_view() == old(self).options_view(),
            final(self).last_error_view() == old(self).last_error_view(),
    {
        self.ip = ip;
    }

    /// The status of the most recent decode.
    pub fn last_error(&self) -> (r: DecodeError)
        ensures
            r == self.last_error_view(),
    {
        self.last_error
    }

    /// The options this decoder was created with.
    pub fn options(&self) -> (r: &DecoderOptions)
        ensures
            *r == self.options_view(),
    {
        &self.options
    }

    /// A borrowing iterator over the remaining instructions; afterwards the
    /// decoder's cursor and [`Decoder::last_error`] tell where it stopped:
    /// the decoder ends as the iterator's borrow of it ends.
    pub fn iter<'b>(&'b mut self) -> (it: DecoderIter<'a, 'b>)
        ensures
            it.decoder() == *old(self),
            *final(it.dec) == *final(self),
    {
        DecoderIter { dec: self }
    }

    /// A consuming iterator over the remaining instructions.
    pub fn into_iter(self) -> (it: DecoderIntoIter<'a>)
        ensures
            it.decoder() == self,
    {
        DecoderIntoIter { dec: self }
    }
}

/// The address of the cursor is the base address plus the cursor (modulo
/// 2^64): since decoding and seeking keep [`Decoder::base`], moving the cursor
/// to a byte always gives that byte's address relative to the base.
pub proof fn lemma_ip_is_base_plus_pos(d: Decoder)
    ensures
        d.ip_view() == add_mod64(d.base() as int, d.pos_view() as int),
{
    let m: int = 0x1_0000_0000_0000_0000;
    let ip = d.ip_view() as int;
    let pos = d.pos_view() as int;
    vstd::arithmetic::div_mod::lemma_add_mod_noop(ip - pos, pos, m);
    vstd::arithmetic::div_mod::lemma_small_mod(pos as nat, m as nat);
    vstd::arithmetic::div_mod::lemma_small_mod(ip as nat, m as nat);
    vstd::arithmetic::div_mod::lemma_mod_bound(ip - pos, m);
    assert(((ip - pos) % m + pos) % m == ip % m);
}

/// Two decoder states over the same base with the cursor on the same byte
/// have the same address: seeking back to a position after decoding gives the
/// address that position had before.
pub proof fn lemma_same_position_same_address(a: Decoder, b: Decoder)
    requires
        a.base() == b.base(),
        a.pos_view() == b.pos_view(),
    ensures
        a.ip_view() == b.ip_view(),
{
    lemma_ip_is_base_plus_pos(a);
    lemma_ip_is_base_plus_pos(b);
}

/// Adding to an address modulo 2^64 in two steps is adding the sum.
proof fn lemma_add_mod64_step(a: int, b: int, c: int)
    ensures
        add_mod64(add_mod64(a, b) as int, c) == add_mod64(a, b + c),
{
    let m: int = 0x1_0000_0000_0000_0000;
    vstd::arithmetic::div_mod::lemma_add_mod_noop(a + b, c, m);
    vstd::arithmetic::div_mod::lemma_mod_bound(a + b, m);
    vstd::arithmetic::div_mod::lemma_mod_bound(c, m);
    vstd::arithmetic::div_mod::lemma_mod_twice(c, m);
    vstd::arithmetic::div_mod::lemma_mod_bound(a + b + c, m);
    vstd::arithmetic::div_mod::lemma_add_mod_noop((a + b) % m, c, m);
    vstd::arithmetic::div_mod::lemma_mod_twice(a + b, m);
}

/// Consuming iteration over a [`Decoder`]: yields until fewer than four bytes
/// remain.
#[derive(Debug)]
pub struct DecoderIntoIter<'a> {
    dec: Decoder<'a>,
}

impl<'a> DecoderIntoIter<'a> {
    /// The decoder being walked.
    pub closed spec fn decoder(&self) -> Decoder<'a> {
        self.dec
    }

    /// The next instruction, or `None` once fewer than four bytes remain.
    pub fn next(&mut self) -> (r: Option<Instruction>)
        ensures
            r is Some <==> old(self).decoder().has_word(),
            r matches Some(insn) ==> {
                &&& insn.wf()
                &&& insn.ip == old(self).decoder().ip_view()
                &&& match word_form(
                    le_word(old(self).decoder().data_view(), old(self).decoder().pos_view() as int),
                    old(self).decoder().options_view().features,
                ) {
                    Some(f) => shows(insn, f),
                    None => insn.is_blank(),
                }
                &&& final(self).decoder().pos_view() == old(self).decoder().pos_view() + INSN_LEN
                &&& final(self).decoder().ip_view() == add_mod64(old(self).decoder().ip_view() as int, INSN_LEN as int)
            },
            r matches Some(insn) ==> final(self).decoder().last_error_view() == if insn.code == Code::Invalid {
                DecodeError::Unmatched
            } else {
                DecodeError::NoError
            },
            r is None ==> final(self).decoder() == old(self).decoder(),
            final(self).decoder().data_view() == old(self).decoder().data_view(),
            final(self).decoder().options_view() == old(self).decoder().options_view(),
            final(self).decoder().base() == old(self).decoder().base(),
    {
        if self.dec.can_decode() {
            Some(self.dec.decode())
        } else {
            None
        }
    }

    /// Every remaining instruction, in order: what a `for` loop over this
    /// iterator yields. The `k`-th is the word `k` words after the cursor,
    /// decoded at the address `k` words after the cursor's; the walk stops
    /// before a partial word, with the cursor moved by the words read and
    /// `last_error` that of the last one (unchanged when there was none).
    pub fn collect_rest(&mut self) -> (v: Vec<Instruction>)
        ensures
            v.len() == old(self).decoder().words_left(),
            forall|k: int| 0 <= k < v.len() ==> old(self).decoder().decodes_kth(k, #[trigger] v[k]),
            final(self).decoder().pos_view() == old(self).decoder().pos_view() + INSN_LEN * v.len(),
            final(self).decoder().ip_view() == add_mod64(old(self).decoder().ip_view() as int, INSN_LEN * v.len()),
            final(self).decoder().last_error_view() == if v.len() == 0 {
                old(self).decoder().last_error_view()
            } else if v[v.len() - 1].code == Code::Invalid {
                DecodeError::Unmatched
            } else {
                DecodeError::NoError
            },
            !final(self).decoder().has_word(),
            final(self).decoder().data_view() == old(self).decoder().data_view(),
            final(self).decoder().options_view() == old(self).decoder().options_view(),
            final(self).decoder().base() == old(self).decoder().base(),
    {
        let ghost d0 = self.decoder();
        let mut v: Vec<Instruction> = Vec::new();
        proof {
            lemma_add_mod64_step(d0.ip_view() as int, 0, 0);
            vstd::arithmetic::div_mod::lemma_small_mod(d0.ip_view() as nat, 0x1_0000_0000_0000_0000);
        }
        loop
            invariant
                self.decoder().data_view() == d0.data_view(),
                self.decoder().options_view() == d0.options_view(),
                self.decoder().base() == d0.base(),
                self.decoder().pos_view() == d0.pos_view() + INSN_LEN * v.len(),
                self.decoder().ip_view() == add_mod64(d0.ip_view() as int, INSN_LEN * v.len()),
                v.len() <= d0.words_left(),
                v.len() > 0 ==> d0.pos_view() <= d0.data_view().len(),
                forall|k: int| 0 <= k < v.len() ==> d0.decodes_kth(k, #[trigger] v[k]),
                self.decoder().last_error_view() == if v.len() == 0 {
                    d0.last_error_view()
                } else if v[v.len() - 1].code == Code::Invalid {
                    DecodeError::Unmatched
                } else {
                    DecodeError::NoError
                },
            ensures
                v.len() == d0.words_left(),
                !self.decoder().has_word(),
            decreases d0.words_left() - v.len(),
        {
            let ghost k = v.len();
            match self.next() {
                Some(insn) => {
                    proof {
                        lemma_add_mod64_step(d0.ip_view() as int, INSN_LEN * k, INSN_LEN as int);
                    }
                    v.push(insn);
                    assert(d0.decodes_kth(k as int, v[k as int]));
                },
                None => {
                    break;
                },
            }
        }
        v
    }

}

/// Borrowing iteration over a [`Decoder`]: yields until fewer than four bytes
/// remain, moving the borrowed decoder along.
pub struct DecoderIter<'a, 'b> {
    /// The borrowed decoder being walked.
    pub dec: &'b mut Decoder<'a>,
}

impl<'a, 'b> DecoderIter<'a, 'b> {
    /// The decoder as it stands now.
    pub closed spec fn decoder(&self) -> Decoder<'a> {
        *self.dec
    }

    /// The next instruction, or `None` once fewer than four bytes remain.
    pub fn next(&mut self) -> (r: Option<Instruction>)
        ensures
            r is Some <==> old(self).decoder().has_word(),
            r matches Some(insn) ==> {
                &&& insn.wf()
                &&& insn.ip == old(self).decoder().ip_view()
                &&& match word_form(
                    le_word(old(self).decoder().data_view(), old(self).decoder().pos_view() as int),
                    old(self).decoder().options_view().features,
                ) {
                    Some(f) => shows(insn, f),
                    None => insn.is_blank(),
                }
                &&& final(self).decoder().pos_view() == old(self).decoder().pos_view() + INSN_LEN
                &&& final(self).decoder().ip_view() == add_mod64(old(self).decoder().ip_view() as int, INSN_LEN as int)
            },
            r matches Some(insn) ==> final(self).decoder().last_error_view() == if insn.code == Code::Invalid {
                DecodeError::Unmatched
            } else {
                DecodeError::NoError
            },
            r is None ==> final(self).decoder() == old(self).decoder(),
            final(self).decoder().data_view() == old(self).decoder().data_view(),
            final(self).decoder().options_view() == old(self).decoder().options_view(),
            final(self).decoder().base() == old(self).decoder().base(),
            *final(final(self).dec) == *final(old(self).dec),
    {
        if self.dec.can_decode() {
            Some(self.dec.decode())
        } else {
            None
        }
    }

    /// Every remaining instruction, in order: what a `for` loop over this
    /// iterator yields. The `k`-th is the word `k` words after the cursor,
    /// decoded at the address `k` words after the cursor's; the walk stops
    /// before a partial word, with the cursor moved by the words read and
    /// `last_error` that of the last one (unchanged when there was none).
    pub fn collect_rest(&mut self) -> (v: Vec<Instruction>)
        ensures
            v.len() == old(self).decoder().words_left(),
            forall|k: int| 0 <= k < v.len() ==> old(self).decoder().decodes_kth(k, #[trigger] v[k]),
            final(self).decoder().pos_view() == old(self).decoder().pos_view() + INSN_LEN * v.len(),
            final(self).decoder().ip_view() == add_mod64(old(self).decoder().ip_view() as int, INSN_LEN * v.len()),
            final(self).decoder().last_error_view() == if v.len() == 0 {
                old(self).decoder().last_error_view()
            } else if v[v.len() - 1].code == Code::Invalid {
                DecodeError::Unmatched
            } else {
                DecodeError::NoError
            },
            !final(self).decoder().has_word(),
            final(self).decoder().data_view() == old(self).decoder().data_view(),
            final(self).decoder().options_view() == old(self).decoder().options_view(),
            final(self).decoder().base() == old(self).decoder().base(),
            *final(final(self).dec) == *final(old(self).dec),
    {
        let ghost d0 = self.decoder();
        let mut v: Vec<Instruction> = Vec::new();
        proof {
            lemma_add_mod64_step(d0.ip_view() as int, 0, 0);
            vstd::arithmetic::div_mod::lemma_small_mod(d0.ip_view() as nat, 0x1_0000_0000_0000_0000);
        }
        loop
            invariant
                *final(self.dec) == *final(old(self).dec),
                self.decoder().data_view() == d0.data_view(),
                self.decoder().options_view() == d0.options_view(),
                self.decoder().base() == d0.base(),
                self.decoder().pos_view() == d0.pos_view() + INSN_LEN * v.len(),
                self.decoder().ip_view() == add_mod64(d0.ip_view() as int, INSN_LEN * v.len()),
                v.len() <= d0.words_left(),
                v.len() > 0 ==> d0.pos_view() <= d0.data_view().len(),
                forall|k: int| 0 <= k < v.len() ==> d0.decodes_kth(k, #[trigger] v[k]),
                self.decoder().last_error_view() == if v.len() == 0 {
                    d0.last_error_view()
                } else if v[v.len() - 1].code == Code::Invalid {
                    DecodeError::Unmatched
                } else {
                    DecodeError::NoError
                },
            ensures
                v.len() == d0.words_left(),
                !self.decoder().has_word(),
            decreases d0.words_left() - v.len(),
        {
            let ghost k = v.len();
            match self.next() {
                Some(insn) => {
                    proof {
                        lemma_add_mod64_step(d0.ip_view() as int, INSN_LEN * k, INSN_LEN as int);
                    }
                    v.push(insn);
                    assert(d0.decodes_kth(k as int, v[k as int]));
                },
                None => {
                    break;
                },
            }
        }
        v
    }

}

} // verus!
