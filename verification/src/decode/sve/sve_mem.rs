//! SVE / SVE2 memory encodings: loads, stores and prefetches.
//!
//! Contiguous, gather and scatter loads and stores, the replicating
//! (`LD1RQ`/`LD1RO`) and broadcast (`LD1R*`) loads, first-fault (`LDFF1*`)
//! and non-fault (`LDNF1*`) loads, the non-temporal (`LDNT1*`/`STNT1*`) forms,
//! the structured (`LD2-4`/`ST2-4`) forms, the prefetches (`PRFB`..`PRFD`),
//! the vector / predicate register transfers (`LDR`/`STR`) and the SVE2.1
//! quadword (`.q`) forms.
//!
//! The top byte `word<31:24>` picks the quadrant: `0x84/0x85` (32-bit
//! gathers, `LD1R*`, `LDR`), `0xA4/0xA5` (contiguous loads), `0xC4/0xC5`
//! (64-bit gathers, prefetches), `0xE4/0xE5` (stores, scatters, `STR`).
use vstd::prelude::*;
use crate::bits::{bit, bits, field, low_mask, sext_spec, sign_extend};
use crate::code::{code_mnemonic, Code, Mnemonic};
use crate::decode::{decode_post, install2_as, install3, mnemonic_of, yields};
use crate::decode::ops::{arr, arr_spec, preg, preg_q, preg_q_spec, preg_spec, reg_op, zlist, zlist_spec};
use crate::features::{Feature, FeatureSet};
use crate::instruction::Instruction;
use crate::operand::Operand;
use crate::types::{gp_register, gp_spec, reg_of, ExtendType, PredQual, RegKind, RegWidth, Register, SveMemMode, VectorArrangement as VA};

verus! {

/// The SVE addressing [`Operand::SveMem`] / [`Code`] form selector.
#[derive(Clone, Copy, PartialEq, Eq, Structural)]
pub enum Form {
    /// Scalar base + immediate (`MUL VL` or plain), incl. `base`-only.
    Imm,
    /// Scalar + scalar (`[Xn, Xm{, lsl #amt}]`).
    Ss,
    /// 32-bit-element gather/scatter (scalar+vec or vec+imm).
    G32,
    /// 64-bit-element gather/scatter (scalar+vec or vec+imm).
    G64,
    /// Vector + immediate (`[Zn.T{, #imm}]`).
    Vi,
    /// Vector + scalar (`[Zn.T, Xm]`, SVE2 `LDNT1`/`STNT1`).
    Vs,
}

/// The [`Code`] of a (mnemonic, addressing form) pair; unallocated pairs
/// have [`Code::Invalid`]. Each allocated code is named after its pair.
pub open spec fn mem_code(m: Mnemonic, form: Form) -> Code {
    match (m, form) {
        (Mnemonic::Ld1b, Form::Imm) => Code::SveLd1bImm,
        (Mnemonic::Ld1b, Form::Ss) => Code::SveLd1bSs,
        (Mnemonic::Ld1b, Form::G32) => Code::SveLd1bG32,
        (Mnemonic::Ld1b, Form::G64) => Code::SveLd1bG64,
        (Mnemonic::Ld1b, Form::Vi) => Code::SveLd1bVi,
        (Mnemonic::Ld1h, Form::Imm) => Code::SveLd1hImm,
        (Mnemonic::Ld1h, Form::Ss) => Code::SveLd1hSs,
        (Mnemonic::Ld1h, Form::G32) => Code::SveLd1hG32,
        (Mnemonic::Ld1h, Form::G64) => Code::SveLd1hG64,
        (Mnemonic::Ld1h, Form::Vi) => Code::SveLd1hVi,
        (Mnemonic::Ld1w, Form::Imm) => Code::SveLd1wImm,
        (Mnemonic::Ld1w, Form::Ss) => Code::SveLd1wSs,
        (Mnemonic::Ld1w, Form::G32) => Code::SveLd1wG32,
        (Mnemonic::Ld1w, Form::G64) => Code::SveLd1wG64,
        (Mnemonic::Ld1w, Form::Vi) => Code::SveLd1wVi,
        (Mnemonic::Ld1d, Form::Imm) => Code::SveLd1dImm,
        (Mnemonic::Ld1d, Form::Ss) => Code::SveLd1dSs,
        (Mnemonic::Ld1d, Form::G32) => Code::SveLd1dG32,
        (Mnemonic::Ld1d, Form::G64) => Code::SveLd1dG64,
        (Mnemonic::Ld1d, Form::Vi) => Code::SveLd1dVi,
        (Mnemonic::Ld1sb, Form::Imm) => Code::SveLd1sbImm,
        (Mnemonic::Ld1sb, Form::Ss) => Code::SveLd1sbSs,
        (Mnemonic::Ld1sb, Form::G32) => Code::SveLd1sbG32,
        (Mnemonic::Ld1sb, Form::G64) => Code::SveLd1sbG64,
        (Mnemonic::Ld1sb, Form::Vi) => Code::SveLd1sbVi,
        (Mnemonic::Ld1sh, Form::Imm) => Code::SveLd1shImm,
        (Mnemonic::Ld1sh, Form::Ss) => Code::SveLd1shSs,
        (Mnemonic::Ld1sh, Form::G32) => Code::SveLd1shG32,
        (Mnemonic::Ld1sh, Form::G64) => Code::SveLd1shG64,
        (Mnemonic::Ld1sh, Form::Vi) => Code::SveLd1shVi,
        (Mnemonic::Ld1sw, Form::Imm) => Code::SveLd1swImm,
        (Mnemonic::Ld1sw, Form::Ss) => Code::SveLd1swSs,
        (Mnemonic::Ld1sw, Form::G32) => Code::SveLd1swG32,
        (Mnemonic::Ld1sw, Form::G64) => Code::SveLd1swG64,
        (Mnemonic::Ld1sw, Form::Vi) => Code::SveLd1swVi,
        (Mnemonic::Ldff1b, Form::Ss) => Code::SveLdff1bSs,
        (Mnemonic::Ldff1b, Form::G32) => Code::SveLdff1bG32,
        (Mnemonic::Ldff1b, Form::G64) => Code::SveLdff1bG64,
        (Mnemonic::Ldff1b, Form::Vi) => Code::SveLdff1bVi,
        (Mnemonic::Ldff1h, Form::Ss) => Code::SveLdff1hSs,
        (Mnemonic::Ldff1h, Form::G32) => Code::SveLdff1hG32,
        (Mnemonic::Ldff1h, Form::G64) => Code::SveLdff1hG64,
        (Mnemonic::Ldff1h, Form::Vi) => Code::SveLdff1hVi,
        (Mnemonic::Ldff1w, Form::Ss) => Code::SveLdff1wSs,
        (Mnemonic::Ldff1w, Form::G32) => Code::SveLdff1wG32,
        (Mnemonic::Ldff1w, Form::G64) => Code::SveLdff1wG64,
        (Mnemonic::Ldff1w, Form::Vi) => Code::SveLdff1wVi,
        (Mnemonic::Ldff1d, Form::Ss) => Code::SveLdff1dSs,
        (Mnemonic::Ldff1d, Form::G32) => Code::SveLdff1dG32,
        (Mnemonic::Ldff1d, Form::G64) => Code::SveLdff1dG64,
        (Mnemonic::Ldff1d, Form::Vi) => Code::SveLdff1dVi,
        (Mnemonic::Ldff1sb, Form::Ss) => Code::SveLdff1sbSs,
        (Mnemonic::Ldff1sb, Form::G32) => Code::SveLdff1sbG32,
        (Mnemonic::Ldff1sb, Form::G64) => Code::SveLdff1sbG64,
        (Mnemonic::Ldff1sb, Form::Vi) => Code::SveLdff1sbVi,
        (Mnemonic::Ldff1sh, Form::Ss) => Code::SveLdff1shSs,
        (Mnemonic::Ldff1sh, Form::G32) => Code::SveLdff1shG32,
        (Mnemonic::Ldff1sh, Form::G64) => Code::SveLdff1shG64,
        (Mnemonic::Ldff1sh, Form::Vi) => Code::SveLdff1shVi,
        (Mnemonic::Ldff1sw, Form::Ss) => Code::SveLdff1swSs,
        (Mnemonic::Ldff1sw, Form::G32) => Code::SveLdff1swG32,
        (Mnemonic::Ldff1sw, Form::G64) => Code::SveLdff1swG64,
        (Mnemonic::Ldff1sw, Form::Vi) => Code::SveLdff1swVi,
        (Mnemonic::Ldnf1b, Form::Imm) => Code::SveLdnf1bImm,
        (Mnemonic::Ldnf1h, Form::Imm) => Code::SveLdnf1hImm,
        (Mnemonic::Ldnf1w, Form::Imm) => Code::SveLdnf1wImm,
        (Mnemonic::Ldnf1d, Form::Imm) => Code::SveLdnf1dImm,
        (Mnemonic::Ldnf1sb, Form::Imm) => Code::SveLdnf1sbImm,
        (Mnemonic::Ldnf1sh, Form::Imm) => Code::SveLdnf1shImm,
        (Mnemonic::Ldnf1sw, Form::Imm) => Code::SveLdnf1swImm,
        (Mnemonic::Ldnt1b, Form::Imm) => Code::SveLdnt1bImm,
        (Mnemonic::Ldnt1b, Form::Ss) => Code::SveLdnt1bSs,
        (Mnemonic::Ldnt1b, Form::Vs) => Code::SveLdnt1bVs,
        (Mnemonic::Ldnt1h, Form::Imm) => Code::SveLdnt1hImm,
        (Mnemonic::Ldnt1h, Form::Ss) => Code::SveLdnt1hSs,
        (Mnemonic::Ldnt1h, Form::Vs) => Code::SveLdnt1hVs,
        (Mnemonic::Ldnt1w, Form::Imm) => Code::SveLdnt1wImm,
        (Mnemonic::Ldnt1w, Form::Ss) => Code::SveLdnt1wSs,
        (Mnemonic::Ldnt1w, Form::Vs) => Code::SveLdnt1wVs,
        (Mnemonic::Ldnt1d, Form::Imm) => Code::SveLdnt1dImm,
        (Mnemonic::Ldnt1d, Form::Ss) => Code::SveLdnt1dSs,
        (Mnemonic::Ldnt1d, Form::Vs) => Code::SveLdnt1dVs,
        (Mnemonic::Ldnt1sb, Form::Imm) => Code::SveLdnt1sbImm,
        (Mnemonic::Ldnt1sb, Form::Ss) => Code::SveLdnt1sbSs,
        (Mnemonic::Ldnt1sb, Form::Vs) => Code::SveLdnt1sbVs,
        (Mnemonic::Ldnt1sh, Form::Imm) => Code::SveLdnt1shImm,
        (Mnemonic::Ldnt1sh, Form::Ss) => Code::SveLdnt1shSs,
        (Mnemonic::Ldnt1sh, Form::Vs) => Code::SveLdnt1shVs,
        (Mnemonic::Ldnt1sw, Form::Imm) => Code::SveLdnt1swImm,
        (Mnemonic::Ldnt1sw, Form::Ss) => Code::SveLdnt1swSs,
        (Mnemonic::Ldnt1sw, Form::Vs) => Code::SveLdnt1swVs,
        (Mnemonic::Ld1rb, Form::Imm) => Code::SveLd1rbImm,
        (Mnemonic::Ld1rh, Form::Imm) => Code::SveLd1rhImm,
        (Mnemonic::Ld1rw, Form::Imm) => Code::SveLd1rwImm,
        (Mnemonic::Ld1rd, Form::Imm) => Code::SveLd1rdImm,
        (Mnemonic::Ld1rsb, Form::Imm) => Code::SveLd1rsbImm,
        (Mnemonic::Ld1rsh, Form::Imm) => Code::SveLd1rshImm,
        (Mnemonic::Ld1rsw, Form::Imm) => Code::SveLd1rswImm,
        (Mnemonic::Ld1rqb, Form::Imm) => Code::SveLd1rqbImm,
        (Mnemonic::Ld1rqb, Form::Ss) => Code::SveLd1rqbSs,
        (Mnemonic::Ld1rqh, Form::Imm) => Code::SveLd1rqhImm,
        (Mnemonic::Ld1rqh, Form::Ss) => Code::SveLd1rqhSs,
        (Mnemonic::Ld1rqw, Form::Imm) => Code::SveLd1rqwImm,
        (Mnemonic::Ld1rqw, Form::Ss) => Code::SveLd1rqwSs,
        (Mnemonic::Ld1rqd, Form::Imm) => Code::SveLd1rqdImm,
        (Mnemonic::Ld1rqd, Form::Ss) => Code::SveLd1rqdSs,
        (Mnemonic::Ld1rob, Form::Imm) => Code::SveLd1robImm,
        (Mnemonic::Ld1rob, Form::Ss) => Code::SveLd1robSs,
        (Mnemonic::Ld1roh, Form::Imm) => Code::SveLd1rohImm,
        (Mnemonic::Ld1roh, Form::Ss) => Code::SveLd1rohSs,
        (Mnemonic::Ld1row, Form::Imm) => Code::SveLd1rowImm,
        (Mnemonic::Ld1row, Form::Ss) => Code::SveLd1rowSs,
        (Mnemonic::Ld1rod, Form::Imm) => Code::SveLd1rodImm,
        (Mnemonic::Ld1rod, Form::Ss) => Code::SveLd1rodSs,
        (Mnemonic::Ld2b, Form::Imm) => Code::SveLd2bImm,
        (Mnemonic::Ld2b, Form::Ss) => Code::SveLd2bSs,
        (Mnemonic::Ld2h, Form::Imm) => Code::SveLd2hImm,
        (Mnemonic::Ld2h, Form::Ss) => Code::SveLd2hSs,
        (Mnemonic::Ld2w, Form::Imm) => Code::SveLd2wImm,
        (Mnemonic::Ld2w, Form::Ss) => Code::SveLd2wSs,
        (Mnemonic::Ld2d, Form::Imm) => Code::SveLd2dImm,
        (Mnemonic::Ld2d, Form::Ss) => Code::SveLd2dSs,
        (Mnemonic::Ld3b, Form::Imm) => Code::SveLd3bImm,
        (Mnemonic::Ld3b, Form::Ss) => Code::SveLd3bSs,
        (Mnemonic::Ld3h, Form::Imm) => Code::SveLd3hImm,
        (Mnemonic::Ld3h, Form::Ss) => Code::SveLd3hSs,
        (Mnemonic::Ld3w, Form::Imm) => Code::SveLd3wImm,
        (Mnemonic::Ld3w, Form::Ss) => Code::SveLd3wSs,
        (Mnemonic::Ld3d, Form::Imm) => Code::SveLd3dImm,
        (Mnemonic::Ld3d, Form::Ss) => Code::SveLd3dSs,
        (Mnemonic::Ld4b, Form::Imm) => Code::SveLd4bImm,
        (Mnemonic::Ld4b, Form::Ss) => Code::SveLd4bSs,
        (Mnemonic::Ld4h, Form::Imm) => Code::SveLd4hImm,
        (Mnemonic::Ld4h, Form::Ss) => Code::SveLd4hSs,
        (Mnemonic::Ld4w, Form::Imm) => Code::SveLd4wImm,
        (Mnemonic::Ld4w, Form::Ss) => Code::SveLd4wSs,
        (Mnemonic::Ld4d, Form::Imm) => Code::SveLd4dImm,
        (Mnemonic::Ld4d, Form::Ss) => Code::SveLd4dSs,
        (Mnemonic::St1b, Form::Imm) => Code::SveSt1bImm,
        (Mnemonic::St1b, Form::Ss) => Code::SveSt1bSs,
        (Mnemonic::St1b, Form::G32) => Code::SveSt1bG32,
        (Mnemonic::St1b, Form::G64) => Code::SveSt1bG64,
        (Mnemonic::St1b, Form::Vi) => Code::SveSt1bVi,
        (Mnemonic::St1h, Form::Imm) => Code::SveSt1hImm,
        (Mnemonic::St1h, Form::Ss) => Code::SveSt1hSs,
        (Mnemonic::St1h, Form::G32) => Code::SveSt1hG32,
        (Mnemonic::St1h, Form::G64) => Code::SveSt1hG64,
        (Mnemonic::St1h, Form::Vi) => Code::SveSt1hVi,
        (Mnemonic::St1w, Form::Imm) => Code::SveSt1wImm,
        (Mnemonic::St1w, Form::Ss) => Code::SveSt1wSs,
        (Mnemonic::St1w, Form::G32) => Code::SveSt1wG32,
        (Mnemonic::St1w, Form::G64) => Code::SveSt1wG64,
        (Mnemonic::St1w, Form::Vi) => Code::SveSt1wVi,
        (Mnemonic::St1d, Form::Imm) => Code::SveSt1dImm,
        (Mnemonic::St1d, Form::Ss) => Code::SveSt1dSs,
        (Mnemonic::St1d, Form::G32) => Code::SveSt1dG32,
        (Mnemonic::St1d, Form::G64) => Code::SveSt1dG64,
        (Mnemonic::St1d, Form::Vi) => Code::SveSt1dVi,
        (Mnemonic::St2b, Form::Imm) => Code::SveSt2bImm,
        (Mnemonic::St2b, Form::Ss) => Code::SveSt2bSs,
        (Mnemonic::St2h, Form::Imm) => Code::SveSt2hImm,
        (Mnemonic::St2h, Form::Ss) => Code::SveSt2hSs,
        (Mnemonic::St2w, Form::Imm) => Code::SveSt2wImm,
        (Mnemonic::St2w, Form::Ss) => Code::SveSt2wSs,
        (Mnemonic::St2d, Form::Imm) => Code::SveSt2dImm,
        (Mnemonic::St2d, Form::Ss) => Code::SveSt2dSs,
        (Mnemonic::St3b, Form::Imm) => Code::SveSt3bImm,
        (Mnemonic::St3b, Form::Ss) => Code::SveSt3bSs,
        (Mnemonic::St3h, Form::Imm) => Code::SveSt3hImm,
        (Mnemonic::St3h, Form::Ss) => Code::SveSt3hSs,
        (Mnemonic::St3w, Form::Imm) => Code::SveSt3wImm,
        (Mnemonic::St3w, Form::Ss) => Code::SveSt3wSs,
        (Mnemonic::St3d, Form::Imm) => Code::SveSt3dImm,
        (Mnemonic::St3d, Form::Ss) => Code::SveSt3dSs,
        (Mnemonic::St4b, Form::Imm) => Code::SveSt4bImm,
        (Mnemonic::St4b, Form::Ss) => Code::SveSt4bSs,
        (Mnemonic::St4h, Form::Imm) => Code::SveSt4hImm,
        (Mnemonic::St4h, Form::Ss) => Code::SveSt4hSs,
        (Mnemonic::St4w, Form::Imm) => Code::SveSt4wImm,
        (Mnemonic::St4w, Form::Ss) => Code::SveSt4wSs,
        (Mnemonic::St4d, Form::Imm) => Code::SveSt4dImm,
        (Mnemonic::St4d, Form::Ss) => Code::SveSt4dSs,
        (Mnemonic::Stnt1b, Form::Imm) => Code::SveStnt1bImm,
        (Mnemonic::Stnt1b, Form::Ss) => Code::SveStnt1bSs,
        (Mnemonic::Stnt1b, Form::Vs) => Code::SveStnt1bVs,
        (Mnemonic::Stnt1h, Form::Imm) => Code::SveStnt1hImm,
        (Mnemonic::Stnt1h, Form::Ss) => Code::SveStnt1hSs,
        (Mnemonic::Stnt1h, Form::Vs) => Code::SveStnt1hVs,
        (Mnemonic::Stnt1w, Form::Imm) => Code::SveStnt1wImm,
        (Mnemonic::Stnt1w, Form::Ss) => Code::SveStnt1wSs,
        (Mnemonic::Stnt1w, Form::Vs) => Code::SveStnt1wVs,
        (Mnemonic::Stnt1d, Form::Imm) => Code::SveStnt1dImm,
        (Mnemonic::Stnt1d, Form::Ss) => Code::SveStnt1dSs,
        (Mnemonic::Stnt1d, Form::Vs) => Code::SveStnt1dVs,
        (Mnemonic::Prfb, Form::Imm) => Code::SvePrfbImm,
        (Mnemonic::Prfb, Form::Ss) => Code::SvePrfbSs,
        (Mnemonic::Prfb, Form::G32) => Code::SvePrfbG32,
        (Mnemonic::Prfb, Form::G64) => Code::SvePrfbG64,
        (Mnemonic::Prfb, Form::Vi) => Code::SvePrfbVi,
        (Mnemonic::Prfh, Form::Imm) => Code::SvePrfhImm,
        (Mnemonic::Prfh, Form::Ss) => Code::SvePrfhSs,
        (Mnemonic::Prfh, Form::G32) => Code::SvePrfhG32,
        (Mnemonic::Prfh, Form::G64) => Code::SvePrfhG64,
        (Mnemonic::Prfh, Form::Vi) => Code::SvePrfhVi,
        (Mnemonic::Prfw, Form::Imm) => Code::SvePrfwImm,
        (Mnemonic::Prfw, Form::Ss) => Code::SvePrfwSs,
        (Mnemonic::Prfw, Form::G32) => Code::SvePrfwG32,
        (Mnemonic::Prfw, Form::G64) => Code::SvePrfwG64,
        (Mnemonic::Prfw, Form::Vi) => Code::SvePrfwVi,
        (Mnemonic::Prfd, Form::Imm) => Code::SvePrfdImm,
        (Mnemonic::Prfd, Form::Ss) => Code::SvePrfdSs,
        (Mnemonic::Prfd, Form::G32) => Code::SvePrfdG32,
        (Mnemonic::Prfd, Form::G64) => Code::SvePrfdG64,
        (Mnemonic::Prfd, Form::Vi) => Code::SvePrfdVi,
        _ => Code::Invalid,
    }
}

/// The (mnemonic, addressing form) pair of an allocated memory code: the
/// inverse of [`mem_code`].
pub open spec fn mem_code_pair(c: Code) -> Option<(Mnemonic, Form)> {
    match c {
        Code::SveLd1bImm => Some((Mnemonic::Ld1b, Form::Imm)),
        Code::SveLd1bSs => Some((Mnemonic::Ld1b, Form::Ss)),
        Code::SveLd1bG32 => Some((Mnemonic::Ld1b, Form::G32)),
        Code::SveLd1bG64 => Some((Mnemonic::Ld1b, Form::G64)),
        Code::SveLd1bVi => Some((Mnemonic::Ld1b, Form::Vi)),
        Code::SveLd1hImm => Some((Mnemonic::Ld1h, Form::Imm)),
        Code::SveLd1hSs => Some((Mnemonic::Ld1h, Form::Ss)),
        Code::SveLd1hG32 => Some((Mnemonic::Ld1h, Form::G32)),
        Code::SveLd1hG64 => Some((Mnemonic::Ld1h, Form::G64)),
        Code::SveLd1hVi => Some((Mnemonic::Ld1h, Form::Vi)),
        Code::SveLd1wImm => Some((Mnemonic::Ld1w, Form::Imm)),
        Code::SveLd1wSs => Some((Mnemonic::Ld1w, Form::Ss)),
        Code::SveLd1wG32 => Some((Mnemonic::Ld1w, Form::G32)),
        Code::SveLd1wG64 => Some((Mnemonic::Ld1w, Form::G64)),
        Code::SveLd1wVi => Some((Mnemonic::Ld1w, Form::Vi)),
        Code::SveLd1dImm => Some((Mnemonic::Ld1d, Form::Imm)),
        Code::SveLd1dSs => Some((Mnemonic::Ld1d, Form::Ss)),
        Code::SveLd1dG32 => Some((Mnemonic::Ld1d, Form::G32)),
        Code::SveLd1dG64 => Some((Mnemonic::Ld1d, Form::G64)),
        Code::SveLd1dVi => Some((Mnemonic::Ld1d, Form::Vi)),
        Code::SveLd1sbImm => Some((Mnemonic::Ld1sb, Form::Imm)),
        Code::SveLd1sbSs => Some((Mnemonic::Ld1sb, Form::Ss)),
        Code::SveLd1sbG32 => Some((Mnemonic::Ld1sb, Form::G32)),
        Code::SveLd1sbG64 => Some((Mnemonic::Ld1sb, Form::G64)),
        Code::SveLd1sbVi => Some((Mnemonic::Ld1sb, Form::Vi)),
        Code::SveLd1shImm => Some((Mnemonic::Ld1sh, Form::Imm)),
        Code::SveLd1shSs => Some((Mnemonic::Ld1sh, Form::Ss)),
        Code::SveLd1shG32 => Some((Mnemonic::Ld1sh, Form::G32)),
        Code::SveLd1shG64 => Some((Mnemonic::Ld1sh, Form::G64)),
        Code::SveLd1shVi => Some((Mnemonic::Ld1sh, Form::Vi)),
        Code::SveLd1swImm => Some((Mnemonic::Ld1sw, Form::Imm)),
        Code::SveLd1swSs => Some((Mnemonic::Ld1sw, Form::Ss)),
        Code::SveLd1swG32 => Some((Mnemonic::Ld1sw, Form::G32)),
        Code::SveLd1swG64 => Some((Mnemonic::Ld1sw, Form::G64)),
        Code::SveLd1swVi => Some((Mnemonic::Ld1sw, Form::Vi)),
        Code::SveLdff1bSs => Some((Mnemonic::Ldff1b, Form::Ss)),
        Code::SveLdff1bG32 => Some((Mnemonic::Ldff1b, Form::G32)),
        Code::SveLdff1bG64 => Some((Mnemonic::Ldff1b, Form::G64)),
        Code::SveLdff1bVi => Some((Mnemonic::Ldff1b, Form::Vi)),
        Code::SveLdff1hSs => Some((Mnemonic::Ldff1h, Form::Ss)),
        Code::SveLdff1hG32 => Some((Mnemonic::Ldff1h, Form::G32)),
        Code::SveLdff1hG64 => Some((Mnemonic::Ldff1h, Form::G64)),
        Code::SveLdff1hVi => Some((Mnemonic::Ldff1h, Form::Vi)),
        Code::SveLdff1wSs => Some((Mnemonic::Ldff1w, Form::Ss)),
        Code::SveLdff1wG32 => Some((Mnemonic::Ldff1w, Form::G32)),
        Code::SveLdff1wG64 => Some((Mnemonic::Ldff1w, Form::G64)),
        Code::SveLdff1wVi => Some((Mnemonic::Ldff1w, Form::Vi)),
        Code::SveLdff1dSs => Some((Mnemonic::Ldff1d, Form::Ss)),
        Code::SveLdff1dG32 => Some((Mnemonic::Ldff1d, Form::G32)),
        Code::SveLdff1dG64 => Some((Mnemonic::Ldff1d, Form::G64)),
        Code::SveLdff1dVi => Some((Mnemonic::Ldff1d, Form::Vi)),
        Code::SveLdff1sbSs => Some((Mnemonic::Ldff1sb, Form::Ss)),
        Code::SveLdff1sbG32 => Some((Mnemonic::Ldff1sb, Form::G32)),
        Code::SveLdff1sbG64 => Some((Mnemonic::Ldff1sb, Form::G64)),
        Code::SveLdff1sbVi => Some((Mnemonic::Ldff1sb, Form::Vi)),
        Code::SveLdff1shSs => Some((Mnemonic::Ldff1sh, Form::Ss)),
        Code::SveLdff1shG32 => Some((Mnemonic::Ldff1sh, Form::G32)),
        Code::SveLdff1shG64 => Some((Mnemonic::Ldff1sh, Form::G64)),
        Code::SveLdff1shVi => Some((Mnemonic::Ldff1sh, Form::Vi)),
        Code::SveLdff1swSs => Some((Mnemonic::Ldff1sw, Form::Ss)),
        Code::SveLdff1swG32 => Some((Mnemonic::Ldff1sw, Form::G32)),
        Code::SveLdff1swG64 => Some((Mnemonic::Ldff1sw, Form::G64)),
        Code::SveLdff1swVi => Some((Mnemonic::Ldff1sw, Form::Vi)),
        Code::SveLdnf1bImm => Some((Mnemonic::Ldnf1b, Form::Imm)),
        Code::SveLdnf1hImm => Some((Mnemonic::Ldnf1h, Form::Imm)),
        Code::SveLdnf1wImm => Some((Mnemonic::Ldnf1w, Form::Imm)),
        Code::SveLdnf1dImm => Some((Mnemonic::Ldnf1d, Form::Imm)),
        Code::SveLdnf1sbImm => Some((Mnemonic::Ldnf1sb, Form::Imm)),
        Code::SveLdnf1shImm => Some((Mnemonic::Ldnf1sh, Form::Imm)),
        Code::SveLdnf1swImm => Some((Mnemonic::Ldnf1sw, Form::Imm)),
        Code::SveLdnt1bImm => Some((Mnemonic::Ldnt1b, Form::Imm)),
        Code::SveLdnt1bSs => Some((Mnemonic::Ldnt1b, Form::Ss)),
        Code::SveLdnt1bVs => Some((Mnemonic::Ldnt1b, Form::Vs)),
        Code::SveLdnt1hImm => Some((Mnemonic::Ldnt1h, Form::Imm)),
        Code::SveLdnt1hSs => Some((Mnemonic::Ldnt1h, Form::Ss)),
        Code::SveLdnt1hVs => Some((Mnemonic::Ldnt1h, Form::Vs)),
        Code::SveLdnt1wImm => Some((Mnemonic::Ldnt1w, Form::Imm)),
        Code::SveLdnt1wSs => Some((Mnemonic::Ldnt1w, Form::Ss)),
        Code::SveLdnt1wVs => Some((Mnemonic::Ldnt1w, Form::Vs)),
        Code::SveLdnt1dImm => Some((Mnemonic::Ldnt1d, Form::Imm)),
        Code::SveLdnt1dSs => Some((Mnemonic::Ldnt1d, Form::Ss)),
        Code::SveLdnt1dVs => Some((Mnemonic::Ldnt1d, Form::Vs)),
        Code::SveLdnt1sbImm => Some((Mnemonic::Ldnt1sb, Form::Imm)),
        Code::SveLdnt1sbSs => Some((Mnemonic::Ldnt1sb, Form::Ss)),
        Code::SveLdnt1sbVs => Some((Mnemonic::Ldnt1sb, Form::Vs)),
        Code::SveLdnt1shImm => Some((Mnemonic::Ldnt1sh, Form::Imm)),
        Code::SveLdnt1shSs => Some((Mnemonic::Ldnt1sh, Form::Ss)),
        Code::SveLdnt1shVs => Some((Mnemonic::Ldnt1sh, Form::Vs)),
        Code::SveLdnt1swImm => Some((Mnemonic::Ldnt1sw, Form::Imm)),
        Code::SveLdnt1swSs => Some((Mnemonic::Ldnt1sw, Form::Ss)),
        Code::SveLdnt1swVs => Some((Mnemonic::Ldnt1sw, Form::Vs)),
        Code::SveLd1rbImm => Some((Mnemonic::Ld1rb, Form::Imm)),
        Code::SveLd1rhImm => Some((Mnemonic::Ld1rh, Form::Imm)),
        Code::SveLd1rwImm => Some((Mnemonic::Ld1rw, Form::Imm)),
        Code::SveLd1rdImm => Some((Mnemonic::Ld1rd, Form::Imm)),
        Code::SveLd1rsbImm => Some((Mnemonic::Ld1rsb, Form::Imm)),
        Code::SveLd1rshImm => Some((Mnemonic::Ld1rsh, Form::Imm)),
        Code::SveLd1rswImm => Some((Mnemonic::Ld1rsw, Form::Imm)),
        Code::SveLd1rqbImm => Some((Mnemonic::Ld1rqb, Form::Imm)),
        Code::SveLd1rqbSs => Some((Mnemonic::Ld1rqb, Form::Ss)),
        Code::SveLd1rqhImm => Some((Mnemonic::Ld1rqh, Form::Imm)),
        Code::SveLd1rqhSs => Some((Mnemonic::Ld1rqh, Form::Ss)),
        Code::SveLd1rqwImm => Some((Mnemonic::Ld1rqw, Form::Imm)),
        Code::SveLd1rqwSs => Some((Mnemonic::Ld1rqw, Form::Ss)),
        Code::SveLd1rqdImm => Some((Mnemonic::Ld1rqd, Form::Imm)),
        Code::SveLd1rqdSs => Some((Mnemonic::Ld1rqd, Form::Ss)),
        Code::SveLd1robImm => Some((Mnemonic::Ld1rob, Form::Imm)),
        Code::SveLd1robSs => Some((Mnemonic::Ld1rob, Form::Ss)),
        Code::SveLd1rohImm => Some((Mnemonic::Ld1roh, Form::Imm)),
        Code::SveLd1rohSs => Some((Mnemonic::Ld1roh, Form::Ss)),
        Code::SveLd1rowImm => Some((Mnemonic::Ld1row, Form::Imm)),
        Code::SveLd1rowSs => Some((Mnemonic::Ld1row, Form::Ss)),
        Code::SveLd1rodImm => Some((Mnemonic::Ld1rod, Form::Imm)),
        Code::SveLd1rodSs => Some((Mnemonic::Ld1rod, Form::Ss)),
        Code::SveLd2bImm => Some((Mnemonic::Ld2b, Form::Imm)),
        Code::SveLd2bSs => Some((Mnemonic::Ld2b, Form::Ss)),
        Code::SveLd2hImm => Some((Mnemonic::Ld2h, Form::Imm)),
        Code::SveLd2hSs => Some((Mnemonic::Ld2h, Form::Ss)),
        Code::SveLd2wImm => Some((Mnemonic::Ld2w, Form::Imm)),
        Code::SveLd2wSs => Some((Mnemonic::Ld2w, Form::Ss)),
        Code::SveLd2dImm => Some((Mnemonic::Ld2d, Form::Imm)),
        Code::SveLd2dSs => Some((Mnemonic::Ld2d, Form::Ss)),
        Code::SveLd3bImm => Some((Mnemonic::Ld3b, Form::Imm)),
        Code::SveLd3bSs => Some((Mnemonic::Ld3b, Form::Ss)),
        Code::SveLd3hImm => Some((Mnemonic::Ld3h, Form::Imm)),
        Code::SveLd3hSs => Some((Mnemonic::Ld3h, Form::Ss)),
        Code::SveLd3wImm => Some((Mnemonic::Ld3w, Form::Imm)),
        Code::SveLd3wSs => Some((Mnemonic::Ld3w, Form::Ss)),
        Code::SveLd3dImm => Some((Mnemonic::Ld3d, Form::Imm)),
        Code::SveLd3dSs => Some((Mnemonic::Ld3d, Form::Ss)),
        Code::SveLd4bImm => Some((Mnemonic::Ld4b, Form::Imm)),
        Code::SveLd4bSs => Some((Mnemonic::Ld4b, Form::Ss)),
        Code::SveLd4hImm => Some((Mnemonic::Ld4h, Form::Imm)),
        Code::SveLd4hSs => Some((Mnemonic::Ld4h, Form::Ss)),
        Code::SveLd4wImm => Some((Mnemonic::Ld4w, Form::Imm)),
        Code::SveLd4wSs => Some((Mnemonic::Ld4w, Form::Ss)),
        Code::SveLd4dImm => Some((Mnemonic::Ld4d, Form::Imm)),
        Code::SveLd4dSs => Some((Mnemonic::Ld4d, Form::Ss)),
        Code::SveSt1bImm => Some((Mnemonic::St1b, Form::Imm)),
        Code::SveSt1bSs => Some((Mnemonic::St1b, Form::Ss)),
        Code::SveSt1bG32 => Some((Mnemonic::St1b, Form::G32)),
        Code::SveSt1bG64 => Some((Mnemonic::St1b, Form::G64)),
        Code::SveSt1bVi => Some((Mnemonic::St1b, Form::Vi)),
        Code::SveSt1hImm => Some((Mnemonic::St1h, Form::Imm)),
        Code::SveSt1hSs => Some((Mnemonic::St1h, Form::Ss)),
        Code::SveSt1hG32 => Some((Mnemonic::St1h, Form::G32)),
        Code::SveSt1hG64 => Some((Mnemonic::St1h, Form::G64)),
        Code::SveSt1hVi => Some((Mnemonic::St1h, Form::Vi)),
        Code::SveSt1wImm => Some((Mnemonic::St1w, Form::Imm)),
        Code::SveSt1wSs => Some((Mnemonic::St1w, Form::Ss)),
        Code::SveSt1wG32 => Some((Mnemonic::St1w, Form::G32)),
        Code::SveSt1wG64 => Some((Mnemonic::St1w, Form::G64)),
        Code::SveSt1wVi => Some((Mnemonic::St1w, Form::Vi)),
        Code::SveSt1dImm => Some((Mnemonic::St1d, Form::Imm)),
        Code::SveSt1dSs => Some((Mnemonic::St1d, Form::Ss)),
        Code::SveSt1dG32 => Some((Mnemonic::St1d, Form::G32)),
        Code::SveSt1dG64 => Some((Mnemonic::St1d, Form::G64)),
        Code::SveSt1dVi => Some((Mnemonic::St1d, Form::Vi)),
        Code::SveSt2bImm => Some((Mnemonic::St2b, Form::Imm)),
        Code::SveSt2bSs => Some((Mnemonic::St2b, Form::Ss)),
        Code::SveSt2hImm => Some((Mnemonic::St2h, Form::Imm)),
        Code::SveSt2hSs => Some((Mnemonic::St2h, Form::Ss)),
        Code::SveSt2wImm => Some((Mnemonic::St2w, Form::Imm)),
        Code::SveSt2wSs => Some((Mnemonic::St2w, Form::Ss)),
        Code::SveSt2dImm => Some((Mnemonic::St2d, Form::Imm)),
        Code::SveSt2dSs => Some((Mnemonic::St2d, Form::Ss)),
        Code::SveSt3bImm => Some((Mnemonic::St3b, Form::Imm)),
        Code::SveSt3bSs => Some((Mnemonic::St3b, Form::Ss)),
        Code::SveSt3hImm => Some((Mnemonic::St3h, Form::Imm)),
        Code::SveSt3hSs => Some((Mnemonic::St3h, Form::Ss)),
        Code::SveSt3wImm => Some((Mnemonic::St3w, Form::Imm)),
        Code::SveSt3wSs => Some((Mnemonic::St3w, Form::Ss)),
        Code::SveSt3dImm => Some((Mnemonic::St3d, Form::Imm)),
        Code::SveSt3dSs => Some((Mnemonic::St3d, Form::Ss)),
        Code::SveSt4bImm => Some((Mnemonic::St4b, Form::Imm)),
        Code::SveSt4bSs => Some((Mnemonic::St4b, Form::Ss)),
        Code::SveSt4hImm => Some((Mnemonic::St4h, Form::Imm)),
        Code::SveSt4hSs => Some((Mnemonic::St4h, Form::Ss)),
        Code::SveSt4wImm => Some((Mnemonic::St4w, Form::Imm)),
        Code::SveSt4wSs => Some((Mnemonic::St4w, Form::Ss)),
        Code::SveSt4dImm => Some((Mnemonic::St4d, Form::Imm)),
        Code::SveSt4dSs => Some((Mnemonic::St4d, Form::Ss)),
        Code::SveStnt1bImm => Some((Mnemonic::Stnt1b, Form::Imm)),
        Code::SveStnt1bSs => Some((Mnemonic::Stnt1b, Form::Ss)),
        Code::SveStnt1bVs => Some((Mnemonic::Stnt1b, Form::Vs)),
        Code::SveStnt1hImm => Some((Mnemonic::Stnt1h, Form::Imm)),
        Code::SveStnt1hSs => Some((Mnemonic::Stnt1h, Form::Ss)),
        Code::SveStnt1hVs => Some((Mnemonic::Stnt1h, Form::Vs)),
        Code::SveStnt1wImm => Some((Mnemonic::Stnt1w, Form::Imm)),
        Code::SveStnt1wSs => Some((Mnemonic::Stnt1w, Form::Ss)),
        Code::SveStnt1wVs => Some((Mnemonic::Stnt1w, Form::Vs)),
        Code::SveStnt1dImm => Some((Mnemonic::Stnt1d, Form::Imm)),
        Code::SveStnt1dSs => Some((Mnemonic::Stnt1d, Form::Ss)),
        Code::SveStnt1dVs => Some((Mnemonic::Stnt1d, Form::Vs)),
        Code::SvePrfbImm => Some((Mnemonic::Prfb, Form::Imm)),
        Code::SvePrfbSs => Some((Mnemonic::Prfb, Form::Ss)),
        Code::SvePrfbG32 => Some((Mnemonic::Prfb, Form::G32)),
        Code::SvePrfbG64 => Some((Mnemonic::Prfb, Form::G64)),
        Code::SvePrfbVi => Some((Mnemonic::Prfb, Form::Vi)),
        Code::SvePrfhImm => Some((Mnemonic::Prfh, Form::Imm)),
        Code::SvePrfhSs => Some((Mnemonic::Prfh, Form::Ss)),
        Code::SvePrfhG32 => Some((Mnemonic::Prfh, Form::G32)),
        Code::SvePrfhG64 => Some((Mnemonic::Prfh, Form::G64)),
        Code::SvePrfhVi => Some((Mnemonic::Prfh, Form::Vi)),
        Code::SvePrfwImm => Some((Mnemonic::Prfw, Form::Imm)),
        Code::SvePrfwSs => Some((Mnemonic::Prfw, Form::Ss)),
        Code::SvePrfwG32 => Some((Mnemonic::Prfw, Form::G32)),
        Code::SvePrfwG64 => Some((Mnemonic::Prfw, Form::G64)),
        Code::SvePrfwVi => Some((Mnemonic::Prfw, Form::Vi)),
        Code::SvePrfdImm => Some((Mnemonic::Prfd, Form::Imm)),
        Code::SvePrfdSs => Some((Mnemonic::Prfd, Form::Ss)),
        Code::SvePrfdG32 => Some((Mnemonic::Prfd, Form::G32)),
        Code::SvePrfdG64 => Some((Mnemonic::Prfd, Form::G64)),
        Code::SvePrfdVi => Some((Mnemonic::Prfd, Form::Vi)),
        _ => None,
    }
}

/// One code per (mnemonic, addressing form) pair: an allocated code is the
/// code of exactly one pair, which [`mem_code_pair`] gives back.
pub proof fn lemma_mem_code_one_per_pair(m1: Mnemonic, f1: Form, m2: Mnemonic, f2: Form)
    ensures
        mem_code(m1, f1) != Code::Invalid ==> mem_code_pair(mem_code(m1, f1)) == Some((m1, f1)),
        mem_code(m1, f1) != Code::Invalid && mem_code(m1, f1) == mem_code(m2, f2) ==> m1 == m2 && f1 == f2,
{
    lemma_mem_code_inverse(m1, f1);
    lemma_mem_code_inverse(m2, f2);
}

proof fn lemma_mem_code_inverse(m: Mnemonic, f: Form)
    ensures
        mem_code(m, f) != Code::Invalid ==> mem_code_pair(mem_code(m, f)) == Some((m, f)),
{
    match (m, f) {
        (Mnemonic::Ld1b, Form::Imm) => {},
        (Mnemonic::Ld1b, Form::Ss) => {},
        (Mnemonic::Ld1b, Form::G32) => {},
        (Mnemonic::Ld1b, Form::G64) => {},
        (Mnemonic::Ld1b, Form::Vi) => {},
        (Mnemonic::Ld1h, Form::Imm) => {},
        (Mnemonic::Ld1h, Form::Ss) => {},
        (Mnemonic::Ld1h, Form::G32) => {},
        (Mnemonic::Ld1h, Form::G64) => {},
        (Mnemonic::Ld1h, Form::Vi) => {},
        (Mnemonic::Ld1w, Form::Imm) => {},
        (Mnemonic::Ld1w, Form::Ss) => {},
        (Mnemonic::Ld1w, Form::G32) => {},
        (Mnemonic::Ld1w, Form::G64) => {},
        (Mnemonic::Ld1w, Form::Vi) => {},
        (Mnemonic::Ld1d, Form::Imm) => {},
        (Mnemonic::Ld1d, Form::Ss) => {},
        (Mnemonic::Ld1d, Form::G32) => {},
        (Mnemonic::Ld1d, Form::G64) => {},
        (Mnemonic::Ld1d, Form::Vi) => {},
        (Mnemonic::Ld1sb, Form::Imm) => {},
        (Mnemonic::Ld1sb, Form::Ss) => {},
        (Mnemonic::Ld1sb, Form::G32) => {},
        (Mnemonic::Ld1sb, Form::G64) => {},
        (Mnemonic::Ld1sb, Form::Vi) => {},
        (Mnemonic::Ld1sh, Form::Imm) => {},
        (Mnemonic::Ld1sh, Form::Ss) => {},
        (Mnemonic::Ld1sh, Form::G32) => {},
        (Mnemonic::Ld1sh, Form::G64) => {},
        (Mnemonic::Ld1sh, Form::Vi) => {},
        (Mnemonic::Ld1sw, Form::Imm) => {},
        (Mnemonic::Ld1sw, Form::Ss) => {},
        (Mnemonic::Ld1sw, Form::G32) => {},
        (Mnemonic::Ld1sw, Form::G64) => {},
        (Mnemonic::Ld1sw, Form::Vi) => {},
        (Mnemonic::Ldff1b, Form::Ss) => {},
        (Mnemonic::Ldff1b, Form::G32) => {},
        (Mnemonic::Ldff1b, Form::G64) => {},
        (Mnemonic::Ldff1b, Form::Vi) => {},
        (Mnemonic::Ldff1h, Form::Ss) => {},
        (Mnemonic::Ldff1h, Form::G32) => {},
        (Mnemonic::Ldff1h, Form::G64) => {},
        (Mnemonic::Ldff1h, Form::Vi) => {},
        (Mnemonic::Ldff1w, Form::Ss) => {},
        (Mnemonic::Ldff1w, Form::G32) => {},
        (Mnemonic::Ldff1w, Form::G64) => {},
        (Mnemonic::Ldff1w, Form::Vi) => {},
        (Mnemonic::Ldff1d, Form::Ss) => {},
        (Mnemonic::Ldff1d, Form::G32) => {},
        (Mnemonic::Ldff1d, Form::G64) => {},
        (Mnemonic::Ldff1d, Form::Vi) => {},
        (Mnemonic::Ldff1sb, Form::Ss) => {},
        (Mnemonic::Ldff1sb, Form::G32) => {},
        (Mnemonic::Ldff1sb, Form::G64) => {},
        (Mnemonic::Ldff1sb, Form::Vi) => {},
        (Mnemonic::Ldff1sh, Form::Ss) => {},
        (Mnemonic::Ldff1sh, Form::G32) => {},
        (Mnemonic::Ldff1sh, Form::G64) => {},
        (Mnemonic::Ldff1sh, Form::Vi) => {},
        (Mnemonic::Ldff1sw, Form::Ss) => {},
        (Mnemonic::Ldff1sw, Form::G32) => {},
        (Mnemonic::Ldff1sw, Form::G64) => {},
        (Mnemonic::Ldff1sw, Form::Vi) => {},
        (Mnemonic::Ldnf1b, Form::Imm) => {},
        (Mnemonic::Ldnf1h, Form::Imm) => {},
        (Mnemonic::Ldnf1w, Form::Imm) => {},
        (Mnemonic::Ldnf1d, Form::Imm) => {},
        (Mnemonic::Ldnf1sb, Form::Imm) => {},
        (Mnemonic::Ldnf1sh, Form::Imm) => {},
        (Mnemonic::Ldnf1sw, Form::Imm) => {},
        (Mnemonic::Ldnt1b, Form::Imm) => {},
        (Mnemonic::Ldnt1b, Form::Ss) => {},
        (Mnemonic::Ldnt1b, Form::Vs) => {},
        (Mnemonic::Ldnt1h, Form::Imm) => {},
        (Mnemonic::Ldnt1h, Form::Ss) => {},
        (Mnemonic::Ldnt1h, Form::Vs) => {},
        (Mnemonic::Ldnt1w, Form::Imm) => {},
        (Mnemonic::Ldnt1w, Form::Ss) => {},
        (Mnemonic::Ldnt1w, Form::Vs) => {},
        (Mnemonic::Ldnt1d, Form::Imm) => {},
        (Mnemonic::Ldnt1d, Form::Ss) => {},
        (Mnemonic::Ldnt1d, Form::Vs) => {},
        (Mnemonic::Ldnt1sb, Form::Imm) => {},
        (Mnemonic::Ldnt1sb, Form::Ss) => {},
        (Mnemonic::Ldnt1sb, Form::Vs) => {},
        (Mnemonic::Ldnt1sh, Form::Imm) => {},
        (Mnemonic::Ldnt1sh, Form::Ss) => {},
        (Mnemonic::Ldnt1sh, Form::Vs) => {},
        (Mnemonic::Ldnt1sw, Form::Imm) => {},
        (Mnemonic::Ldnt1sw, Form::Ss) => {},
        (Mnemonic::Ldnt1sw, Form::Vs) => {},
        (Mnemonic::Ld1rb, Form::Imm) => {},
        (Mnemonic::Ld1rh, Form::Imm) => {},
        (Mnemonic::Ld1rw, Form::Imm) => {},
        (Mnemonic::Ld1rd, Form::Imm) => {},
        (Mnemonic::Ld1rsb, Form::Imm) => {},
        (Mnemonic::Ld1rsh, Form::Imm) => {},
        (Mnemonic::Ld1rsw, Form::Imm) => {},
        (Mnemonic::Ld1rqb, Form::Imm) => {},
        (Mnemonic::Ld1rqb, Form::Ss) => {},
        (Mnemonic::Ld1rqh, Form::Imm) => {},
        (Mnemonic::Ld1rqh, Form::Ss) => {},
        (Mnemonic::Ld1rqw, Form::Imm) => {},
        (Mnemonic::Ld1rqw, Form::Ss) => {},
        (Mnemonic::Ld1rqd, Form::Imm) => {},
        (Mnemonic::Ld1rqd, Form::Ss) => {},
        (Mnemonic::Ld1rob, Form::Imm) => {},
        (Mnemonic::Ld1rob, Form::Ss) => {},
        (Mnemonic::Ld1roh, Form::Imm) => {},
        (Mnemonic::Ld1roh, Form::Ss) => {},
        (Mnemonic::Ld1row, Form::Imm) => {},
        (Mnemonic::Ld1row, Form::Ss) => {},
        (Mnemonic::Ld1rod, Form::Imm) => {},
        (Mnemonic::Ld1rod, Form::Ss) => {},
        (Mnemonic::Ld2b, Form::Imm) => {},
        (Mnemonic::Ld2b, Form::Ss) => {},
        (Mnemonic::Ld2h, Form::Imm) => {},
        (Mnemonic::Ld2h, Form::Ss) => {},
        (Mnemonic::Ld2w, Form::Imm) => {},
        (Mnemonic::Ld2w, Form::Ss) => {},
        (Mnemonic::Ld2d, Form::Imm) => {},
        (Mnemonic::Ld2d, Form::Ss) => {},
        (Mnemonic::Ld3b, Form::Imm) => {},
        (Mnemonic::Ld3b, Form::Ss) => {},
        (Mnemonic::Ld3h, Form::Imm) => {},
        (Mnemonic::Ld3h, Form::Ss) => {},
        (Mnemonic::Ld3w, Form::Imm) => {},
        (Mnemonic::Ld3w, Form::Ss) => {},
        (Mnemonic::Ld3d, Form::Imm) => {},
        (Mnemonic::Ld3d, Form::Ss) => {},
        (Mnemonic::Ld4b, Form::Imm) => {},
        (Mnemonic::Ld4b, Form::Ss) => {},
        (Mnemonic::Ld4h, Form::Imm) => {},
        (Mnemonic::Ld4h, Form::Ss) => {},
        (Mnemonic::Ld4w, Form::Imm) => {},
        (Mnemonic::Ld4w, Form::Ss) => {},
        (Mnemonic::Ld4d, Form::Imm) => {},
        (Mnemonic::Ld4d, Form::Ss) => {},
        (Mnemonic::St1b, Form::Imm) => {},
        (Mnemonic::St1b, Form::Ss) => {},
        (Mnemonic::St1b, Form::G32) => {},
        (Mnemonic::St1b, Form::G64) => {},
        (Mnemonic::St1b, Form::Vi) => {},
        (Mnemonic::St1h, Form::Imm) => {},
        (Mnemonic::St1h, Form::Ss) => {},
        (Mnemonic::St1h, Form::G32) => {},
        (Mnemonic::St1h, Form::G64) => {},
        (Mnemonic::St1h, Form::Vi) => {},
        (Mnemonic::St1w, Form::Imm) => {},
        (Mnemonic::St1w, Form::Ss) => {},
        (Mnemonic::St1w, Form::G32) => {},
        (Mnemonic::St1w, Form::G64) => {},
        (Mnemonic::St1w, Form::Vi) => {},
        (Mnemonic::St1d, Form::Imm) => {},
        (Mnemonic::St1d, Form::Ss) => {},
        (Mnemonic::St1d, Form::G32) => {},
        (Mnemonic::St1d, Form::G64) => {},
        (Mnemonic::St1d, Form::Vi) => {},
        (Mnemonic::St2b, Form::Imm) => {},
        (Mnemonic::St2b, Form::Ss) => {},
        (Mnemonic::St2h, Form::Imm) => {},
        (Mnemonic::St2h, Form::Ss) => {},
        (Mnemonic::St2w, Form::Imm) => {},
        (Mnemonic::St2w, Form::Ss) => {},
        (Mnemonic::St2d, Form::Imm) => {},
        (Mnemonic::St2d, Form::Ss) => {},
        (Mnemonic::St3b, Form::Imm) => {},
        (Mnemonic::St3b, Form::Ss) => {},
        (Mnemonic::St3h, Form::Imm) => {},
        (Mnemonic::St3h, Form::Ss) => {},
        (Mnemonic::St3w, Form::Imm) => {},
        (Mnemonic::St3w, Form::Ss) => {},
        (Mnemonic::St3d, Form::Imm) => {},
        (Mnemonic::St3d, Form::Ss) => {},
        (Mnemonic::St4b, Form::Imm) => {},
        (Mnemonic::St4b, Form::Ss) => {},
        (Mnemonic::St4h, Form::Imm) => {},
        (Mnemonic::St4h, Form::Ss) => {},
        (Mnemonic::St4w, Form::Imm) => {},
        (Mnemonic::St4w, Form::Ss) => {},
        (Mnemonic::St4d, Form::Imm) => {},
        (Mnemonic::St4d, Form::Ss) => {},
        (Mnemonic::Stnt1b, Form::Imm) => {},
        (Mnemonic::Stnt1b, Form::Ss) => {},
        (Mnemonic::Stnt1b, Form::Vs) => {},
        (Mnemonic::Stnt1h, Form::Imm) => {},
        (Mnemonic::Stnt1h, Form::Ss) => {},
        (Mnemonic::Stnt1h, Form::Vs) => {},
        (Mnemonic::Stnt1w, Form::Imm) => {},
        (Mnemonic::Stnt1w, Form::Ss) => {},
        (Mnemonic::Stnt1w, Form::Vs) => {},
        (Mnemonic::Stnt1d, Form::Imm) => {},
        (Mnemonic::Stnt1d, Form::Ss) => {},
        (Mnemonic::Stnt1d, Form::Vs) => {},
        (Mnemonic::Prfb, Form::Imm) => {},
        (Mnemonic::Prfb, Form::Ss) => {},
        (Mnemonic::Prfb, Form::G32) => {},
        (Mnemonic::Prfb, Form::G64) => {},
        (Mnemonic::Prfb, Form::Vi) => {},
        (Mnemonic::Prfh, Form::Imm) => {},
        (Mnemonic::Prfh, Form::Ss) => {},
        (Mnemonic::Prfh, Form::G32) => {},
        (Mnemonic::Prfh, Form::G64) => {},
        (Mnemonic::Prfh, Form::Vi) => {},
        (Mnemonic::Prfw, Form::Imm) => {},
        (Mnemonic::Prfw, Form::Ss) => {},
        (Mnemonic::Prfw, Form::G32) => {},
        (Mnemonic::Prfw, Form::G64) => {},
        (Mnemonic::Prfw, Form::Vi) => {},
        (Mnemonic::Prfd, Form::Imm) => {},
        (Mnemonic::Prfd, Form::Ss) => {},
        (Mnemonic::Prfd, Form::G32) => {},
        (Mnemonic::Prfd, Form::G64) => {},
        (Mnemonic::Prfd, Form::Vi) => {},
        _ => {
            assert(mem_code(m, f) == Code::Invalid);
        },
    }
}

/// The [`Code`] for a (mnemonic, addressing form) pair; unallocated pairs
/// give [`Code::Invalid`].
pub fn code_for(m: Mnemonic, form: Form) -> (r: Code)
    ensures
        r == mem_code(m, form),
        r != Code::Invalid ==> mem_code_pair(r) == Some((m, form)),
{
    proof {
        lemma_mem_code_inverse(m, form);
    }
    match (m, form) {
        (Mnemonic::Ld1b, Form::Imm) => Code::SveLd1bImm,
        (Mnemonic::Ld1b, Form::Ss) => Code::SveLd1bSs,
        (Mnemonic::Ld1b, Form::G32) => Code::SveLd1bG32,
        (Mnemonic::Ld1b, Form::G64) => Code::SveLd1bG64,
        (Mnemonic::Ld1b, Form::Vi) => Code::SveLd1bVi,
        (Mnemonic::Ld1h, Form::Imm) => Code::SveLd1hImm,
        (Mnemonic::Ld1h, Form::Ss) => Code::SveLd1hSs,
        (Mnemonic::Ld1h, Form::G32) => Code::SveLd1hG32,
        (Mnemonic::Ld1h, Form::G64) => Code::SveLd1hG64,
        (Mnemonic::Ld1h, Form::Vi) => Code::SveLd1hVi,
        (Mnemonic::Ld1w, Form::Imm) => Code::SveLd1wImm,
        (Mnemonic::Ld1w, Form::Ss) => Code::SveLd1wSs,
        (Mnemonic::Ld1w, Form::G32) => Code::SveLd1wG32,
        (Mnemonic::Ld1w, Form::G64) => Code::SveLd1wG64,
        (Mnemonic::Ld1w, Form::Vi) => Code::SveLd1wVi,
        (Mnemonic::Ld1d, Form::Imm) => Code::SveLd1dImm,
        (Mnemonic::Ld1d, Form::Ss) => Code::SveLd1dSs,
        (Mnemonic::Ld1d, Form::G32) => Code::SveLd1dG32,
        (Mnemonic::Ld1d, Form::G64) => Code::SveLd1dG64,
        (Mnemonic::Ld1d, Form::Vi) => Code::SveLd1dVi,
        (Mnemonic::Ld1sb, Form::Imm) => Code::SveLd1sbImm,
        (Mnemonic::Ld1sb, Form::Ss) => Code::SveLd1sbSs,
        (Mnemonic::Ld1sb, Form::G32) => Code::SveLd1sbG32,
        (Mnemonic::Ld1sb, Form::G64) => Code::SveLd1sbG64,
        (Mnemonic::Ld1sb, Form::Vi) => Code::SveLd1sbVi,
        (Mnemonic::Ld1sh, Form::Imm) => Code::SveLd1shImm,
        (Mnemonic::Ld1sh, Form::Ss) => Code::SveLd1shSs,
        (Mnemonic::Ld1sh, Form::G32) => Code::SveLd1shG32,
        (Mnemonic::Ld1sh, Form::G64) => Code::SveLd1shG64,
        (Mnemonic::Ld1sh, Form::Vi) => Code::SveLd1shVi,
        (Mnemonic::Ld1sw, Form::Imm) => Code::SveLd1swImm,
        (Mnemonic::Ld1sw, Form::Ss) => Code::SveLd1swSs,
        (Mnemonic::Ld1sw, Form::G32) => Code::SveLd1swG32,
        (Mnemonic::Ld1sw, Form::G64) => Code::SveLd1swG64,
        (Mnemonic::Ld1sw, Form::Vi) => Code::SveLd1swVi,
        (Mnemonic::Ldff1b, Form::Ss) => Code::SveLdff1bSs,
        (Mnemonic::Ldff1b, Form::G32) => Code::SveLdff1bG32,
        (Mnemonic::Ldff1b, Form::G64) => Code::SveLdff1bG64,
        (Mnemonic::Ldff1b, Form::Vi) => Code::SveLdff1bVi,
        (Mnemonic::Ldff1h, Form::Ss) => Code::SveLdff1hSs,
        (Mnemonic::Ldff1h, Form::G32) => Code::SveLdff1hG32,
        (Mnemonic::Ldff1h, Form::G64) => Code::SveLdff1hG64,
        (Mnemonic::Ldff1h, Form::Vi) => Code::SveLdff1hVi,
        (Mnemonic::Ldff1w, Form::Ss) => Code::SveLdff1wSs,
        (Mnemonic::Ldff1w, Form::G32) => Code::SveLdff1wG32,
        (Mnemonic::Ldff1w, Form::G64) => Code::SveLdff1wG64,
        (Mnemonic::Ldff1w, Form::Vi) => Code::SveLdff1wVi,
        (Mnemonic::Ldff1d, Form::Ss) => Code::SveLdff1dSs,
        (Mnemonic::Ldff1d, Form::G32) => Code::SveLdff1dG32,
        (Mnemonic::Ldff1d, Form::G64) => Code::SveLdff1dG64,
        (Mnemonic::Ldff1d, Form::Vi) => Code::SveLdff1dVi,
        (Mnemonic::Ldff1sb, Form::Ss) => Code::SveLdff1sbSs,
        (Mnemonic::Ldff1sb, Form::G32) => Code::SveLdff1sbG32,
        (Mnemonic::Ldff1sb, Form::G64) => Code::SveLdff1sbG64,
        (Mnemonic::Ldff1sb, Form::Vi) => Code::SveLdff1sbVi,
        (Mnemonic::Ldff1sh, Form::Ss) => Code::SveLdff1shSs,
        (Mnemonic::Ldff1sh, Form::G32) => Code::SveLdff1shG32,
        (Mnemonic::Ldff1sh, Form::G64) => Code::SveLdff1shG64,
        (Mnemonic::Ldff1sh, Form::Vi) => Code::SveLdff1shVi,
        (Mnemonic::Ldff1sw, Form::Ss) => Code::SveLdff1swSs,
        (Mnemonic::Ldff1sw, Form::G32) => Code::SveLdff1swG32,
        (Mnemonic::Ldff1sw, Form::G64) => Code::SveLdff1swG64,
        (Mnemonic::Ldff1sw, Form::Vi) => Code::SveLdff1swVi,
        (Mnemonic::Ldnf1b, Form::Imm) => Code::SveLdnf1bImm,
        (Mnemonic::Ldnf1h, Form::Imm) => Code::SveLdnf1hImm,
        (Mnemonic::Ldnf1w, Form::Imm) => Code::SveLdnf1wImm,
        (Mnemonic::Ldnf1d, Form::Imm) => Code::SveLdnf1dImm,
        (Mnemonic::Ldnf1sb, Form::Imm) => Code::SveLdnf1sbImm,
        (Mnemonic::Ldnf1sh, Form::Imm) => Code::SveLdnf1shImm,
        (Mnemonic::Ldnf1sw, Form::Imm) => Code::SveLdnf1swImm,
        (Mnemonic::Ldnt1b, Form::Imm) => Code::SveLdnt1bImm,
        (Mnemonic::Ldnt1b, Form::Ss) => Code::SveLdnt1bSs,
        (Mnemonic::Ldnt1b, Form::Vs) => Code::SveLdnt1bVs,
        (Mnemonic::Ldnt1h, Form::Imm) => Code::SveLdnt1hImm,
        (Mnemonic::Ldnt1h, Form::Ss) => Code::SveLdnt1hSs,
        (Mnemonic::Ldnt1h, Form::Vs) => Code::SveLdnt1hVs,
        (Mnemonic::Ldnt1w, Form::Imm) => Code::SveLdnt1wImm,
        (Mnemonic::Ldnt1w, Form::Ss) => Code::SveLdnt1wSs,
        (Mnemonic::Ldnt1w, Form::Vs) => Code::SveLdnt1wVs,
        (Mnemonic::Ldnt1d, Form::Imm) => Code::SveLdnt1dImm,
        (Mnemonic::Ldnt1d, Form::Ss) => Code::SveLdnt1dSs,
        (Mnemonic::Ldnt1d, Form::Vs) => Code::SveLdnt1dVs,
        (Mnemonic::Ldnt1sb, Form::Imm) => Code::SveLdnt1sbImm,
        (Mnemonic::Ldnt1sb, Form::Ss) => Code::SveLdnt1sbSs,
        (Mnemonic::Ldnt1sb, Form::Vs) => Code::SveLdnt1sbVs,
        (Mnemonic::Ldnt1sh, Form::Imm) => Code::SveLdnt1shImm,
        (Mnemonic::Ldnt1sh, Form::Ss) => Code::SveLdnt1shSs,
        (Mnemonic::Ldnt1sh, Form::Vs) => Code::SveLdnt1shVs,
        (Mnemonic::Ldnt1sw, Form::Imm) => Code::SveLdnt1swImm,
        (Mnemonic::Ldnt1sw, Form::Ss) => Code::SveLdnt1swSs,
        (Mnemonic::Ldnt1sw, Form::Vs) => Code::SveLdnt1swVs,
        (Mnemonic::Ld1rb, Form::Imm) => Code::SveLd1rbImm,
        (Mnemonic::Ld1rh, Form::Imm) => Code::SveLd1rhImm,
        (Mnemonic::Ld1rw, Form::Imm) => Code::SveLd1rwImm,
        (Mnemonic::Ld1rd, Form::Imm) => Code::SveLd1rdImm,
        (Mnemonic::Ld1rsb, Form::Imm) => Code::SveLd1rsbImm,
        (Mnemonic::Ld1rsh, Form::Imm) => Code::SveLd1rshImm,
        (Mnemonic::Ld1rsw, Form::Imm) => Code::SveLd1rswImm,
        (Mnemonic::Ld1rqb, Form::Imm) => Code::SveLd1rqbImm,
        (Mnemonic::Ld1rqb, Form::Ss) => Code::SveLd1rqbSs,
        (Mnemonic::Ld1rqh, Form::Imm) => Code::SveLd1rqhImm,
        (Mnemonic::Ld1rqh, Form::Ss) => Code::SveLd1rqhSs,
        (Mnemonic::Ld1rqw, Form::Imm) => Code::SveLd1rqwImm,
        (Mnemonic::Ld1rqw, Form::Ss) => Code::SveLd1rqwSs,
        (Mnemonic::Ld1rqd, Form::Imm) => Code::SveLd1rqdImm,
        (Mnemonic::Ld1rqd, Form::Ss) => Code::SveLd1rqdSs,
        (Mnemonic::Ld1rob, Form::Imm) => Code::SveLd1robImm,
        (Mnemonic::Ld1rob, Form::Ss) => Code::SveLd1robSs,
        (Mnemonic::Ld1roh, Form::Imm) => Code::SveLd1rohImm,
        (Mnemonic::Ld1roh, Form::Ss) => Code::SveLd1rohSs,
        (Mnemonic::Ld1row, Form::Imm) => Code::SveLd1rowImm,
        (Mnemonic::Ld1row, Form::Ss) => Code::SveLd1rowSs,
        (Mnemonic::Ld1rod, Form::Imm) => Code::SveLd1rodImm,
        (Mnemonic::Ld1rod, Form::Ss) => Code::SveLd1rodSs,
        (Mnemonic::Ld2b, Form::Imm) => Code::SveLd2bImm,
        (Mnemonic::Ld2b, Form::Ss) => Code::SveLd2bSs,
        (Mnemonic::Ld2h, Form::Imm) => Code::SveLd2hImm,
        (Mnemonic::Ld2h, Form::Ss) => Code::SveLd2hSs,
        (Mnemonic::Ld2w, Form::Imm) => Code::SveLd2wImm,
        (Mnemonic::Ld2w, Form::Ss) => Code::SveLd2wSs,
        (Mnemonic::Ld2d, Form::Imm) => Code::SveLd2dImm,
        (Mnemonic::Ld2d, Form::Ss) => Code::SveLd2dSs,
        (Mnemonic::Ld3b, Form::Imm) => Code::SveLd3bImm,
        (Mnemonic::Ld3b, Form::Ss) => Code::SveLd3bSs,
        (Mnemonic::Ld3h, Form::Imm) => Code::SveLd3hImm,
        (Mnemonic::Ld3h, Form::Ss) => Code::SveLd3hSs,
        (Mnemonic::Ld3w, Form::Imm) => Code::SveLd3wImm,
        (Mnemonic::Ld3w, Form::Ss) => Code::SveLd3wSs,
        (Mnemonic::Ld3d, Form::Imm) => Code::SveLd3dImm,
        (Mnemonic::Ld3d, Form::Ss) => Code::SveLd3dSs,
        (Mnemonic::Ld4b, Form::Imm) => Code::SveLd4bImm,
        (Mnemonic::Ld4b, Form::Ss) => Code::SveLd4bSs,
        (Mnemonic::Ld4h, Form::Imm) => Code::SveLd4hImm,
        (Mnemonic::Ld4h, Form::Ss) => Code::SveLd4hSs,
        (Mnemonic::Ld4w, Form::Imm) => Code::SveLd4wImm,
        (Mnemonic::Ld4w, Form::Ss) => Code::SveLd4wSs,
        (Mnemonic::Ld4d, Form::Imm) => Code::SveLd4dImm,
        (Mnemonic::Ld4d, Form::Ss) => Code::SveLd4dSs,
        (Mnemonic::St1b, Form::Imm) => Code::SveSt1bImm,
        (Mnemonic::St1b, Form::Ss) => Code::SveSt1bSs,
        (Mnemonic::St1b, Form::G32) => Code::SveSt1bG32,
        (Mnemonic::St1b, Form::G64) => Code::SveSt1bG64,
        (Mnemonic::St1b, Form::Vi) => Code::SveSt1bVi,
        (Mnemonic::St1h, Form::Imm) => Code::SveSt1hImm,
        (Mnemonic::St1h, Form::Ss) => Code::SveSt1hSs,
        (Mnemonic::St1h, Form::G32) => Code::SveSt1hG32,
        (Mnemonic::St1h, Form::G64) => Code::SveSt1hG64,
        (Mnemonic::St1h, Form::Vi) => Code::SveSt1hVi,
        (Mnemonic::St1w, Form::Imm) => Code::SveSt1wImm,
        (Mnemonic::St1w, Form::Ss) => Code::SveSt1wSs,
        (Mnemonic::St1w, Form::G32) => Code::SveSt1wG32,
        (Mnemonic::St1w, Form::G64) => Code::SveSt1wG64,
        (Mnemonic::St1w, Form::Vi) => Code::SveSt1wVi,
        (Mnemonic::St1d, Form::Imm) => Code::SveSt1dImm,
        (Mnemonic::St1d, Form::Ss) => Code::SveSt1dSs,
        (Mnemonic::St1d, Form::G32) => Code::SveSt1dG32,
        (Mnemonic::St1d, Form::G64) => Code::SveSt1dG64,
        (Mnemonic::St1d, Form::Vi) => Code::SveSt1dVi,
        (Mnemonic::St2b, Form::Imm) => Code::SveSt2bImm,
        (Mnemonic::St2b, Form::Ss) => Code::SveSt2bSs,
        (Mnemonic::St2h, Form::Imm) => Code::SveSt2hImm,
        (Mnemonic::St2h, Form::Ss) => Code::SveSt2hSs,
        (Mnemonic::St2w, Form::Imm) => Code::SveSt2wImm,
        (Mnemonic::St2w, Form::Ss) => Code::SveSt2wSs,
        (Mnemonic::St2d, Form::Imm) => Code::SveSt2dImm,
        (Mnemonic::St2d, Form::Ss) => Code::SveSt2dSs,
        (Mnemonic::St3b, Form::Imm) => Code::SveSt3bImm,
        (Mnemonic::St3b, Form::Ss) => Code::SveSt3bSs,
        (Mnemonic::St3h, Form::Imm) => Code::SveSt3hImm,
        (Mnemonic::St3h, Form::Ss) => Code::SveSt3hSs,
        (Mnemonic::St3w, Form::Imm) => Code::SveSt3wImm,
        (Mnemonic::St3w, Form::Ss) => Code::SveSt3wSs,
        (Mnemonic::St3d, Form::Imm) => Code::SveSt3dImm,
        (Mnemonic::St3d, Form::Ss) => Code::SveSt3dSs,
        (Mnemonic::St4b, Form::Imm) => Code::SveSt4bImm,
        (Mnemonic::St4b, Form::Ss) => Code::SveSt4bSs,
        (Mnemonic::St4h, Form::Imm) => Code::SveSt4hImm,
        (Mnemonic::St4h, Form::Ss) => Code::SveSt4hSs,
        (Mnemonic::St4w, Form::Imm) => Code::SveSt4wImm,
        (Mnemonic::St4w, Form::Ss) => Code::SveSt4wSs,
        (Mnemonic::St4d, Form::Imm) => Code::SveSt4dImm,
        (Mnemonic::St4d, Form::Ss) => Code::SveSt4dSs,
        (Mnemonic::Stnt1b, Form::Imm) => Code::SveStnt1bImm,
        (Mnemonic::Stnt1b, Form::Ss) => Code::SveStnt1bSs,
        (Mnemonic::Stnt1b, Form::Vs) => Code::SveStnt1bVs,
        (Mnemonic::Stnt1h, Form::Imm) => Code::SveStnt1hImm,
        (Mnemonic::Stnt1h, Form::Ss) => Code::SveStnt1hSs,
        (Mnemonic::Stnt1h, Form::Vs) => Code::SveStnt1hVs,
        (Mnemonic::Stnt1w, Form::Imm) => Code::SveStnt1wImm,
        (Mnemonic::Stnt1w, Form::Ss) => Code::SveStnt1wSs,
        (Mnemonic::Stnt1w, Form::Vs) => Code::SveStnt1wVs,
        (Mnemonic::Stnt1d, Form::Imm) => Code::SveStnt1dImm,
        (Mnemonic::Stnt1d, Form::Ss) => Code::SveStnt1dSs,
        (Mnemonic::Stnt1d, Form::Vs) => Code::SveStnt1dVs,
        (Mnemonic::Prfb, Form::Imm) => Code::SvePrfbImm,
        (Mnemonic::Prfb, Form::Ss) => Code::SvePrfbSs,
        (Mnemonic::Prfb, Form::G32) => Code::SvePrfbG32,
        (Mnemonic::Prfb, Form::G64) => Code::SvePrfbG64,
        (Mnemonic::Prfb, Form::Vi) => Code::SvePrfbVi,
        (Mnemonic::Prfh, Form::Imm) => Code::SvePrfhImm,
        (Mnemonic::Prfh, Form::Ss) => Code::SvePrfhSs,
        (Mnemonic::Prfh, Form::G32) => Code::SvePrfhG32,
        (Mnemonic::Prfh, Form::G64) => Code::SvePrfhG64,
        (Mnemonic::Prfh, Form::Vi) => Code::SvePrfhVi,
        (Mnemonic::Prfw, Form::Imm) => Code::SvePrfwImm,
        (Mnemonic::Prfw, Form::Ss) => Code::SvePrfwSs,
        (Mnemonic::Prfw, Form::G32) => Code::SvePrfwG32,
        (Mnemonic::Prfw, Form::G64) => Code::SvePrfwG64,
        (Mnemonic::Prfw, Form::Vi) => Code::SvePrfwVi,
        (Mnemonic::Prfd, Form::Imm) => Code::SvePrfdImm,
        (Mnemonic::Prfd, Form::Ss) => Code::SvePrfdSs,
        (Mnemonic::Prfd, Form::G32) => Code::SvePrfdG32,
        (Mnemonic::Prfd, Form::G64) => Code::SvePrfdG64,
        (Mnemonic::Prfd, Form::Vi) => Code::SvePrfdVi,
        _ => Code::Invalid,
    }
}

// ---------------------------------------------------------------------------
// Addressing operands.
// ---------------------------------------------------------------------------

/// `[Xn|SP{, #imm, mul vl}]`.
pub open spec fn m_mulvl_spec(rn: u32, imm: i32) -> Operand {
    Operand::SveMem {
        base: gp_spec(true, RegWidth::X64, rn as u8),
        offset: Register { kind: RegKind::Absent, num: 0 },
        arr: None,
        extend: ExtendType::Uxtx,
        imm,
        amount: 0,
        mode: SveMemMode::ScalarImmMulVl,
    }
}

fn m_mulvl(rn: u32, imm: i32) -> (r: Operand)
    ensures
        r == m_mulvl_spec(rn, imm),
{
    Operand::SveMem { base: gp_register(true, RegWidth::X64, rn as u8), offset: Register::none(), arr: None, extend: ExtendType::Uxtx, imm, amount: 0, mode: SveMemMode::ScalarImmMulVl }
}

/// `[Xn|SP{, #imm}]` with a hexadecimal immediate.
pub open spec fn m_imm_hex_spec(rn: u32, imm: i32) -> Operand {
    Operand::SveMem {
        base: gp_spec(true, RegWidth::X64, rn as u8),
        offset: Register { kind: RegKind::Absent, num: 0 },
        arr: None,
        extend: ExtendType::Uxtx,
        imm,
        amount: 0,
        mode: SveMemMode::ScalarImm,
    }
}

fn m_imm_hex(rn: u32, imm: i32) -> (r: Operand)
    ensures
        r == m_imm_hex_spec(rn, imm),
{
    Operand::SveMem { base: gp_register(true, RegWidth::X64, rn as u8), offset: Register::none(), arr: None, extend: ExtendType::Uxtx, imm, amount: 0, mode: SveMemMode::ScalarImm }
}

/// `[Xn|SP{, #imm}]` with a decimal immediate.
pub open spec fn m_imm_dec_spec(rn: u32, imm: i32) -> Operand {
    Operand::SveMem {
        base: gp_spec(true, RegWidth::X64, rn as u8),
        offset: Register { kind: RegKind::Absent, num: 0 },
        arr: None,
        extend: ExtendType::Uxtx,
        imm,
        amount: 0,
        mode: SveMemMode::ScalarImmDec,
    }
}

fn m_imm_dec(rn: u32, imm: i32) -> (r: Operand)
    ensures
        r == m_imm_dec_spec(rn, imm),
{
    Operand::SveMem { base: gp_register(true, RegWidth::X64, rn as u8), offset: Register::none(), arr: None, extend: ExtendType::Uxtx, imm, amount: 0, mode: SveMemMode::ScalarImmDec }
}

/// `[Xn|SP, Xm{, lsl #amt}]`; bit 7 of `shift` marks a shown `lsl`, so the
/// shift is written exactly when `amt != 0`.
pub open spec fn m_ss_spec(rn: u32, rm: u32, amt: u8) -> Operand {
    Operand::MemExt {
        base: gp_spec(true, RegWidth::X64, rn as u8),
        index: gp_spec(false, RegWidth::X64, rm as u8),
        extend: ExtendType::Uxtx,
        shift: if amt != 0 { 0x80 | amt } else { 0 },
    }
}

fn m_ss(rn: u32, rm: u32, amt: u8) -> (r: Operand)
    ensures
        r == m_ss_spec(rn, rm, amt),
{
    let shift = if amt != 0 { 0x80 | amt } else { 0 };
    Operand::MemExt { base: gp_register(true, RegWidth::X64, rn as u8), index: gp_register(false, RegWidth::X64, rm as u8), extend: ExtendType::Uxtx, shift }
}

/// `[Xn|SP, Zm.T{, <mod> #amt}]`; an `amount` of `0xff` hides `#amt`.
pub open spec fn m_xz_spec(rn: u32, zm: u32, a: VA, ext: ExtendType, amount: u8) -> Operand {
    Operand::SveMem {
        base: gp_spec(true, RegWidth::X64, rn as u8),
        offset: reg_of(RegKind::Z, zm, 0x1f),
        arr: Some(a),
        extend: ext,
        imm: 0,
        amount,
        mode: SveMemMode::ScalarVec,
    }
}

fn m_xz(rn: u32, zm: u32, a: VA, ext: ExtendType, amount: u8) -> (r: Operand)
    ensures
        r == m_xz_spec(rn, zm, a, ext, amount),
{
    Operand::SveMem { base: gp_register(true, RegWidth::X64, rn as u8), offset: Register::z(zm), arr: Some(a), extend: ext, imm: 0, amount, mode: SveMemMode::ScalarVec }
}

/// `[Zn.T{, #imm}]`.
pub open spec fn m_vi_spec(zn: u32, a: VA, imm: i32) -> Operand {
    Operand::SveMem {
        base: reg_of(RegKind::Z, zn, 0x1f),
        offset: Register { kind: RegKind::Absent, num: 0 },
        arr: Some(a),
        extend: ExtendType::Uxtx,
        imm,
        amount: 0,
        mode: SveMemMode::VecImm,
    }
}

fn m_vi(zn: u32, a: VA, imm: i32) -> (r: Operand)
    ensures
        r == m_vi_spec(zn, a, imm),
{
    Operand::SveMem { base: Register::z(zn), offset: Register::none(), arr: Some(a), extend: ExtendType::Uxtx, imm, amount: 0, mode: SveMemMode::VecImm }
}

/// `[Zn.T, Xm]`.
pub open spec fn m_vs_spec(zn: u32, a: VA, rm: u32) -> Operand {
    Operand::SveMem {
        base: reg_of(RegKind::Z, zn, 0x1f),
        offset: gp_spec(false, RegWidth::X64, rm as u8),
        arr: Some(a),
        extend: ExtendType::Uxtx,
        imm: 0,
        amount: 0,
        mode: SveMemMode::VecScalar,
    }
}

fn m_vs(zn: u32, a: VA, rm: u32) -> (r: Operand)
    ensures
        r == m_vs_spec(zn, a, rm),
{
    Operand::SveMem { base: Register::z(zn), offset: gp_register(false, RegWidth::X64, rm as u8), arr: Some(a), extend: ExtendType::Uxtx, imm: 0, amount: 0, mode: SveMemMode::VecScalar }
}

/// A bare `Z<n>` (no arrangement).
fn zbare(n: u32) -> (r: Operand)
    ensures
        r == reg_op(reg_of(RegKind::Z, n, 0x1f), None, None, None),
{
    Operand::Reg { reg: Register::z(n), arr: None, lane: None, pred: None }
}

/// The gather/scatter offset modifier and amount: `packed` selects the 64-bit
/// offset (`lsl`), otherwise `xs` selects `sxtw` (1) or `uxtw` (0). The amount
/// is shown only when `scaled && amt != 0`; otherwise it is `0xff` (hidden).
fn gmod(xs: u32, packed: bool, scaled: bool, amt: u32) -> (r: (ExtendType, u8))
    requires
        amt < 256,
    ensures
        r.0 == (if packed { ExtendType::Uxtx } else if xs == 1 { ExtendType::Sxtw } else { ExtendType::Uxtw }),
        r.1 == (if scaled && amt != 0 { amt as u8 } else { 0xff }),
{
    let ext = if packed { ExtendType::Uxtx } else if xs == 1 { ExtendType::Sxtw } else { ExtendType::Uxtw };
    let amount = if scaled && amt != 0 { amt as u8 } else { 0xFF };
    (ext, amount)
}

/// `a * b` for the small factors of an immediate scaling.
fn scaled(a: i32, b: i32) -> (r: i32)
    requires
        -64 <= a <= 64,
        0 <= b <= 16,
    ensures
        r == a * b,
{
    assert(-1024 <= a * b <= 1024) by (nonlinear_arith)
        requires
            -64 <= a <= 64,
            0 <= b <= 16,
    ;
    a * b
}

/// The byte size `1 << msz` of a 2-bit memory-size code.
pub open spec fn msz_bytes_spec(msz: u32) -> int {
    if msz == 0 { 1 } else if msz == 1 { 2 } else if msz == 2 { 4 } else { 8 }
}

fn msz_bytes(msz: u32) -> (r: i32)
    requires
        msz <= 3,
    ensures
        r == msz_bytes_spec(msz),
{
    if msz == 0 {
        1
    } else if msz == 1 {
        2
    } else if msz == 2 {
        4
    } else {
        8
    }
}

// ---------------------------------------------------------------------------
// Mnemonic tables.
// ---------------------------------------------------------------------------

/// Contiguous LOAD dtype table (`word<24:21>`) -> (mnemonic, element arrangement).
pub open spec fn load_dtype_spec(dt: u32) -> (Mnemonic, VA) {
    match dt & 0xf {
        0 => (Mnemonic::Ld1b, VA::Sb), 1 => (Mnemonic::Ld1b, VA::Sh), 2 => (Mnemonic::Ld1b, VA::Ss), 3 => (Mnemonic::Ld1b, VA::Sd),
        4 => (Mnemonic::Ld1sw, VA::Sd), 5 => (Mnemonic::Ld1h, VA::Sh), 6 => (Mnemonic::Ld1h, VA::Ss), 7 => (Mnemonic::Ld1h, VA::Sd),
        8 => (Mnemonic::Ld1sh, VA::Sd), 9 => (Mnemonic::Ld1sh, VA::Ss), 10 => (Mnemonic::Ld1w, VA::Ss), 11 => (Mnemonic::Ld1w, VA::Sd),
        12 => (Mnemonic::Ld1sb, VA::Sd), 13 => (Mnemonic::Ld1sb, VA::Ss), 14 => (Mnemonic::Ld1sb, VA::Sh), _ => (Mnemonic::Ld1d, VA::Sd),
    }
}

fn load_dtype(dt: u32) -> (r: (Mnemonic, VA))
    ensures
        r == load_dtype_spec(dt),
{
    match dt & 0xf {
        0 => (Mnemonic::Ld1b, VA::Sb), 1 => (Mnemonic::Ld1b, VA::Sh), 2 => (Mnemonic::Ld1b, VA::Ss), 3 => (Mnemonic::Ld1b, VA::Sd),
        4 => (Mnemonic::Ld1sw, VA::Sd), 5 => (Mnemonic::Ld1h, VA::Sh), 6 => (Mnemonic::Ld1h, VA::Ss), 7 => (Mnemonic::Ld1h, VA::Sd),
        8 => (Mnemonic::Ld1sh, VA::Sd), 9 => (Mnemonic::Ld1sh, VA::Ss), 10 => (Mnemonic::Ld1w, VA::Ss), 11 => (Mnemonic::Ld1w, VA::Sd),
        12 => (Mnemonic::Ld1sb, VA::Sd), 13 => (Mnemonic::Ld1sb, VA::Ss), 14 => (Mnemonic::Ld1sb, VA::Sh), _ => (Mnemonic::Ld1d, VA::Sd),
    }
}

/// Contiguous STORE dtype table (`word<24:21>`) -> (mnemonic, element); `None` for
/// the unallocated rows and the `STR` rows (handled separately).
pub open spec fn store_dtype_spec(dt: u32) -> Option<(Mnemonic, VA)> {
    match dt & 0xf {
        0 => Some((Mnemonic::St1b, VA::Sb)), 1 => Some((Mnemonic::St1b, VA::Sh)), 2 => Some((Mnemonic::St1b, VA::Ss)), 3 => Some((Mnemonic::St1b, VA::Sd)),
        5 => Some((Mnemonic::St1h, VA::Sh)), 6 => Some((Mnemonic::St1h, VA::Ss)), 7 => Some((Mnemonic::St1h, VA::Sd)),
        10 => Some((Mnemonic::St1w, VA::Ss)), 11 => Some((Mnemonic::St1w, VA::Sd)), 15 => Some((Mnemonic::St1d, VA::Sd)),
        _ => None,
    }
}

fn store_dtype(dt: u32) -> (r: Option<(Mnemonic, VA)>)
    ensures
        r == store_dtype_spec(dt),
{
    match dt & 0xf {
        0 => Some((Mnemonic::St1b, VA::Sb)), 1 => Some((Mnemonic::St1b, VA::Sh)), 2 => Some((Mnemonic::St1b, VA::Ss)), 3 => Some((Mnemonic::St1b, VA::Sd)),
        5 => Some((Mnemonic::St1h, VA::Sh)), 6 => Some((Mnemonic::St1h, VA::Ss)), 7 => Some((Mnemonic::St1h, VA::Sd)),
        10 => Some((Mnemonic::St1w, VA::Ss)), 11 => Some((Mnemonic::St1w, VA::Sd)), 15 => Some((Mnemonic::St1d, VA::Sd)),
        _ => None,
    }
}

/// LSL amount for a contiguous load/store from the mnemonic memory size.
pub open spec fn lsl_spec(m: Mnemonic) -> u8 {
    match m {
        Mnemonic::Ld1b | Mnemonic::Ld1sb | Mnemonic::St1b => 0,
        Mnemonic::Ld1h | Mnemonic::Ld1sh | Mnemonic::St1h => 1,
        Mnemonic::Ld1w | Mnemonic::Ld1sw | Mnemonic::St1w => 2,
        Mnemonic::Ld1d | Mnemonic::St1d => 3,
        _ => 0,
    }
}

fn lsl_of_mnem(m: Mnemonic) -> (r: u8)
    ensures
        r == lsl_spec(m),
{
    match m {
        Mnemonic::Ld1b | Mnemonic::Ld1sb | Mnemonic::St1b => 0,
        Mnemonic::Ld1h | Mnemonic::Ld1sh | Mnemonic::St1h => 1,
        Mnemonic::Ld1w | Mnemonic::Ld1sw | Mnemonic::St1w => 2,
        Mnemonic::Ld1d | Mnemonic::St1d => 3,
        _ => 0,
    }
}

/// Gather loaded-element mnemonics for `(msz, signed, ff)`: the
/// `Ld1{b,h,w,d}` / `Ld1s{b,h,w}` families and their first-fault forms.
pub open spec fn gather_mnem_spec(msz: u32, signed: bool, ff: bool) -> Mnemonic {
    match (msz & 3, signed, ff) {
        (0, false, false) => Mnemonic::Ld1b, (1, false, false) => Mnemonic::Ld1h, (2, false, false) => Mnemonic::Ld1w, (3, false, false) => Mnemonic::Ld1d,
        (0, false, true) => Mnemonic::Ldff1b, (1, false, true) => Mnemonic::Ldff1h, (2, false, true) => Mnemonic::Ldff1w, (3, false, true) => Mnemonic::Ldff1d,
        (0, true, false) => Mnemonic::Ld1sb, (1, true, false) => Mnemonic::Ld1sh, (2, true, false) => Mnemonic::Ld1sw, (3, true, false) => Mnemonic::Ld1d,
        (0, true, true) => Mnemonic::Ldff1sb, (1, true, true) => Mnemonic::Ldff1sh, (2, true, true) => Mnemonic::Ldff1sw, _ => Mnemonic::Ldff1d,
    }
}

fn gather_mnem(msz: u32, signed: bool, ff: bool) -> (r: Mnemonic)
    ensures
        r == gather_mnem_spec(msz, signed, ff),
{
    match (msz & 3, signed, ff) {
        (0, false, false) => Mnemonic::Ld1b, (1, false, false) => Mnemonic::Ld1h, (2, false, false) => Mnemonic::Ld1w, (3, false, false) => Mnemonic::Ld1d,
        (0, false, true) => Mnemonic::Ldff1b, (1, false, true) => Mnemonic::Ldff1h, (2, false, true) => Mnemonic::Ldff1w, (3, false, true) => Mnemonic::Ldff1d,
        (0, true, false) => Mnemonic::Ld1sb, (1, true, false) => Mnemonic::Ld1sh, (2, true, false) => Mnemonic::Ld1sw, (3, true, false) => Mnemonic::Ld1d,
        (0, true, true) => Mnemonic::Ldff1sb, (1, true, true) => Mnemonic::Ldff1sh, (2, true, true) => Mnemonic::Ldff1sw, _ => Mnemonic::Ldff1d,
    }
}

/// `true` if a 32-bit-element gather (`.s` destination, `0x84`/`0x85`) load of
/// `(msz, signed)` would write a 64-bit value — which a `.s` vector cannot hold,
/// so the encoding is reserved → UNDEFINED. This is the `dword` memory size
/// (`msz == 3`: `LD1D`/`LDFF1D`/`LDNT1D`) and the *signed* `word` size (`msz ==
/// 2`, which sign-extends to 64-bit: `LD1SW`/`LDFF1SW`/`LDNT1SW`). The 64-bit
/// gather quadrant (`0xC4`/`0xC5`, `.d` destination) is where those forms live.
pub open spec fn gather32_reserved(msz: u32, signed: bool) -> bool {
    msz == 3 || (msz == 2 && signed)
}

fn gather32_load_reserved(msz: u32, signed: bool) -> (r: bool)
    ensures
        r == gather32_reserved(msz, signed),
{
    msz == 3 || (msz == 2 && signed)
}

/// Scatter `ST1{b,h,w,d}` mnemonic by `msz`.
pub open spec fn st1_spec(msz: u32) -> Mnemonic {
    match msz & 3 { 0 => Mnemonic::St1b, 1 => Mnemonic::St1h, 2 => Mnemonic::St1w, _ => Mnemonic::St1d }
}

fn st1_mnem(msz: u32) -> (r: Mnemonic)
    ensures
        r == st1_spec(msz),
{
    match msz & 3 { 0 => Mnemonic::St1b, 1 => Mnemonic::St1h, 2 => Mnemonic::St1w, _ => Mnemonic::St1d }
}

/// `LDNT1{,s}{b,h,w,d}` mnemonic for the vector-base gather.
pub open spec fn ldnt1_spec(msz: u32, signed: bool) -> Mnemonic {
    match (msz & 3, signed) {
        (0, false) => Mnemonic::Ldnt1b, (1, false) => Mnemonic::Ldnt1h, (2, false) => Mnemonic::Ldnt1w, (3, false) => Mnemonic::Ldnt1d,
        (0, true) => Mnemonic::Ldnt1sb, (1, true) => Mnemonic::Ldnt1sh, _ => Mnemonic::Ldnt1sw,
    }
}

fn ldnt1_mnem(msz: u32, signed: bool) -> (r: Mnemonic)
    ensures
        r == ldnt1_spec(msz, signed),
{
    match (msz & 3, signed) {
        (0, false) => Mnemonic::Ldnt1b, (1, false) => Mnemonic::Ldnt1h, (2, false) => Mnemonic::Ldnt1w, (3, false) => Mnemonic::Ldnt1d,
        (0, true) => Mnemonic::Ldnt1sb, (1, true) => Mnemonic::Ldnt1sh, _ => Mnemonic::Ldnt1sw,
    }
}
/// `STNT1{b,h,w,d}` mnemonic by `msz`.
pub open spec fn stnt1_spec(msz: u32) -> Mnemonic {
    match msz & 3 { 0 => Mnemonic::Stnt1b, 1 => Mnemonic::Stnt1h, 2 => Mnemonic::Stnt1w, _ => Mnemonic::Stnt1d }
}

fn stnt1_mnem(msz: u32) -> (r: Mnemonic)
    ensures
        r == stnt1_spec(msz),
{
    match msz & 3 { 0 => Mnemonic::Stnt1b, 1 => Mnemonic::Stnt1h, 2 => Mnemonic::Stnt1w, _ => Mnemonic::Stnt1d }
}
/// `PRF{b,h,w,d}` mnemonic by size code.
pub open spec fn prf_spec(sz: u32) -> Mnemonic {
    match sz & 3 { 0 => Mnemonic::Prfb, 1 => Mnemonic::Prfh, 2 => Mnemonic::Prfw, _ => Mnemonic::Prfd }
}

fn prf_mnem(sz: u32) -> (r: Mnemonic)
    ensures
        r == prf_spec(sz),
{
    match sz & 3 { 0 => Mnemonic::Prfb, 1 => Mnemonic::Prfh, 2 => Mnemonic::Prfw, _ => Mnemonic::Prfd }
}
/// Structured `LD{2,3,4}{b,h,w,d}` / `ST{2,3,4}{...}` mnemonic for `(nreg, msz)`.
pub open spec fn struct_spec(nreg: u8, msz: u32, store: bool) -> Mnemonic {
    let m = msz & 3;
    match (nreg, store, m) {
        (2, false, 0) => Mnemonic::Ld2b, (2, false, 1) => Mnemonic::Ld2h, (2, false, 2) => Mnemonic::Ld2w, (2, false, 3) => Mnemonic::Ld2d,
        (3, false, 0) => Mnemonic::Ld3b, (3, false, 1) => Mnemonic::Ld3h, (3, false, 2) => Mnemonic::Ld3w, (3, false, 3) => Mnemonic::Ld3d,
        (4, false, 0) => Mnemonic::Ld4b, (4, false, 1) => Mnemonic::Ld4h, (4, false, 2) => Mnemonic::Ld4w, (4, false, 3) => Mnemonic::Ld4d,
        (2, true, 0) => Mnemonic::St2b, (2, true, 1) => Mnemonic::St2h, (2, true, 2) => Mnemonic::St2w, (2, true, 3) => Mnemonic::St2d,
        (3, true, 0) => Mnemonic::St3b, (3, true, 1) => Mnemonic::St3h, (3, true, 2) => Mnemonic::St3w, (3, true, 3) => Mnemonic::St3d,
        (4, true, 0) => Mnemonic::St4b, (4, true, 1) => Mnemonic::St4h, (4, true, 2) => Mnemonic::St4w, _ => Mnemonic::St4d,
    }
}

fn struct_mnem(nreg: u8, msz: u32, store: bool) -> (r: Mnemonic)
    ensures
        r == struct_spec(nreg, msz, store),
{
    let m = msz & 3;
    match (nreg, store, m) {
        (2, false, 0) => Mnemonic::Ld2b, (2, false, 1) => Mnemonic::Ld2h, (2, false, 2) => Mnemonic::Ld2w, (2, false, 3) => Mnemonic::Ld2d,
        (3, false, 0) => Mnemonic::Ld3b, (3, false, 1) => Mnemonic::Ld3h, (3, false, 2) => Mnemonic::Ld3w, (3, false, 3) => Mnemonic::Ld3d,
        (4, false, 0) => Mnemonic::Ld4b, (4, false, 1) => Mnemonic::Ld4h, (4, false, 2) => Mnemonic::Ld4w, (4, false, 3) => Mnemonic::Ld4d,
        (2, true, 0) => Mnemonic::St2b, (2, true, 1) => Mnemonic::St2h, (2, true, 2) => Mnemonic::St2w, (2, true, 3) => Mnemonic::St2d,
        (3, true, 0) => Mnemonic::St3b, (3, true, 1) => Mnemonic::St3h, (3, true, 2) => Mnemonic::St3w, (3, true, 3) => Mnemonic::St3d,
        (4, true, 0) => Mnemonic::St4b, (4, true, 1) => Mnemonic::St4h, (4, true, 2) => Mnemonic::St4w, _ => Mnemonic::St4d,
    }
}
/// LD1R broadcast table (key = `msz * 8 + op`, `op >= 4`) -> (mnemonic, element).
pub open spec fn ld1r_entry_spec(key: u32) -> Option<(Mnemonic, VA)> {
    match key {
        4 => Some((Mnemonic::Ld1rb, VA::Sb)), 5 => Some((Mnemonic::Ld1rb, VA::Sh)), 6 => Some((Mnemonic::Ld1rb, VA::Ss)), 7 => Some((Mnemonic::Ld1rb, VA::Sd)),
        12 => Some((Mnemonic::Ld1rsw, VA::Sd)), 13 => Some((Mnemonic::Ld1rh, VA::Sh)), 14 => Some((Mnemonic::Ld1rh, VA::Ss)), 15 => Some((Mnemonic::Ld1rh, VA::Sd)),
        20 => Some((Mnemonic::Ld1rsh, VA::Sd)), 21 => Some((Mnemonic::Ld1rsh, VA::Ss)), 22 => Some((Mnemonic::Ld1rw, VA::Ss)), 23 => Some((Mnemonic::Ld1rw, VA::Sd)),
        28 => Some((Mnemonic::Ld1rsb, VA::Sd)), 29 => Some((Mnemonic::Ld1rsb, VA::Ss)), 30 => Some((Mnemonic::Ld1rsb, VA::Sh)), 31 => Some((Mnemonic::Ld1rd, VA::Sd)),
        _ => None,
    }
}

fn ld1r_entry(key: u32) -> (r: Option<(Mnemonic, VA)>)
    ensures
        r == ld1r_entry_spec(key),
{
    match key {
        4 => Some((Mnemonic::Ld1rb, VA::Sb)), 5 => Some((Mnemonic::Ld1rb, VA::Sh)), 6 => Some((Mnemonic::Ld1rb, VA::Ss)), 7 => Some((Mnemonic::Ld1rb, VA::Sd)),
        12 => Some((Mnemonic::Ld1rsw, VA::Sd)), 13 => Some((Mnemonic::Ld1rh, VA::Sh)), 14 => Some((Mnemonic::Ld1rh, VA::Ss)), 15 => Some((Mnemonic::Ld1rh, VA::Sd)),
        20 => Some((Mnemonic::Ld1rsh, VA::Sd)), 21 => Some((Mnemonic::Ld1rsh, VA::Ss)), 22 => Some((Mnemonic::Ld1rw, VA::Ss)), 23 => Some((Mnemonic::Ld1rw, VA::Sd)),
        28 => Some((Mnemonic::Ld1rsb, VA::Sd)), 29 => Some((Mnemonic::Ld1rsb, VA::Ss)), 30 => Some((Mnemonic::Ld1rsb, VA::Sh)), 31 => Some((Mnemonic::Ld1rd, VA::Sd)),
        _ => None,
    }
}

/// Memory access size (bytes) for an `LD1R*` mnemonic (the immediate scale).
pub open spec fn ld1r_scale_spec(m: Mnemonic) -> i32 {
    match m {
        Mnemonic::Ld1rb | Mnemonic::Ld1rsb => 1,
        Mnemonic::Ld1rh | Mnemonic::Ld1rsh => 2,
        Mnemonic::Ld1rw | Mnemonic::Ld1rsw => 4,
        _ => 8,
    }
}

fn ld1r_scale(m: Mnemonic) -> (r: i32)
    ensures
        r == ld1r_scale_spec(m),
        1 <= r <= 8,
{
    match m {
        Mnemonic::Ld1rb | Mnemonic::Ld1rsb => 1,
        Mnemonic::Ld1rh | Mnemonic::Ld1rsh => 2,
        Mnemonic::Ld1rw | Mnemonic::Ld1rsw => 4,
        _ => 8,
    }
}

// ---------------------------------------------------------------------------
// Emitting an instruction.
// ---------------------------------------------------------------------------

/// The instruction of the (mnemonic, addressing form) pair `(m, form)` with
/// the operands `ops`, or `None` when the pair has no code.
pub open spec fn mem_insn(m: Mnemonic, form: Form, ops: Seq<Operand>) -> Option<(Code, Mnemonic, Seq<Operand>)> {
    if mem_code(m, form) == Code::Invalid {
        None
    } else {
        Some((mem_code(m, form), m, ops))
    }
}

/// A single-register load: `{Zt.<T>}, Pg/Z, <addr>`.
pub open spec fn ld_insn(m: Mnemonic, form: Form, a: VA, zt: u32, pg: u32, addr: Operand) -> Option<(Code, Mnemonic, Seq<Operand>)> {
    mem_insn(m, form, seq![zlist_spec(zt, 1, a), preg_q_spec(pg, PredQual::Zeroing), addr])
}

/// A single-register store: `{Zt.<T>}, Pg, <addr>`.
pub open spec fn st_insn(m: Mnemonic, form: Form, a: VA, zt: u32, pg: u32, addr: Operand) -> Option<(Code, Mnemonic, Seq<Operand>)> {
    mem_insn(m, form, seq![zlist_spec(zt, 1, a), preg_spec(pg), addr])
}

/// A structured load or store: `{Zt.<T>, ...}, Pg{/Z}, <addr>`.
pub open spec fn struct_insn(m: Mnemonic, form: Form, a: VA, zt: u32, nreg: u8, pg: u32, addr: Operand, store: bool) -> Option<(Code, Mnemonic, Seq<Operand>)> {
    mem_insn(m, form, seq![zlist_spec(zt, nreg, a), if store { preg_spec(pg) } else { preg_q_spec(pg, PredQual::Zeroing) }, addr])
}

/// Three operands under the code of `(m, form)`.
fn emit3(out: &mut Instruction, m: Mnemonic, form: Form, a: Operand, b: Operand, c: Operand)
    requires
        old(out).is_blank(),
    ensures
        decode_post(*old(out), *final(out)),
        yields(*old(out), *final(out), mem_insn(m, form, seq![a, b, c])),
{
    let code = code_for(m, form);
    if code == Code::Invalid {
        return;
    }
    install3(out, code, m, a, b, c);
}

/// A single-register load: `{Zt.<T>}, Pg/Z, <addr>`.
fn ld(out: &mut Instruction, m: Mnemonic, form: Form, a: VA, zt: u32, pg: u32, addr: Operand)
    requires
        old(out).is_blank(),
    ensures
        decode_post(*old(out), *final(out)),
        yields(*old(out), *final(out), ld_insn(m, form, a, zt, pg, addr)),
{
    emit3(out, m, form, zlist(zt, 1, a), preg_q(pg, PredQual::Zeroing), addr);
}

/// A single-register store: `{Zt.<T>}, Pg, <addr>`.
fn st(out: &mut Instruction, m: Mnemonic, form: Form, a: VA, zt: u32, pg: u32, addr: Operand)
    requires
        old(out).is_blank(),
    ensures
        decode_post(*old(out), *final(out)),
        yields(*old(out), *final(out), st_insn(m, form, a, zt, pg, addr)),
{
    emit3(out, m, form, zlist(zt, 1, a), preg(pg), addr);
}

/// A structured load or store: `{Zt.<T>, ...}, Pg{/Z}, <addr>`.
fn structured(out: &mut Instruction, m: Mnemonic, form: Form, a: VA, zt: u32, nreg: u8, pg: u32, addr: Operand, store: bool)
    requires
        old(out).is_blank(),
    ensures
        decode_post(*old(out), *final(out)),
        yields(*old(out), *final(out), struct_insn(m, form, a, zt, nreg, pg, addr, store)),
{
    let g = if store { preg(pg) } else { preg_q(pg, PredQual::Zeroing) };
    emit3(out, m, form, zlist(zt, nreg, a), g, addr);
}

/// A prefetch `<prfop>, Pg, <addr>`, or `None` when the reserved
/// `word<4>` (bit 4 of `zt`) is set.
pub open spec fn prf_insn(m: Mnemonic, form: Form, zt: u32, pg: u32, addr: Operand) -> Option<(Code, Mnemonic, Seq<Operand>)> {
    if zt & 0x10 != 0 {
        None
    } else {
        mem_insn(m, form, seq![Operand::PrefetchOp((zt & 0xf) as u8), preg_spec(pg), addr])
    }
}

/// A prefetch: `<prfop>, Pg, <addr>`. The operation is the 4-bit `word<3:0>`;
/// `word<4>` is reserved and must be clear.
fn prf(out: &mut Instruction, m: Mnemonic, form: Form, zt: u32, pg: u32, addr: Operand)
    requires
        old(out).is_blank(),
    ensures
        decode_post(*old(out), *final(out)),
        zt & 0x10 != 0 ==> *final(out) == *old(out),
        zt & 0x10 == 0 ==> yields(*old(out), *final(out), mem_insn(m, form, seq![Operand::PrefetchOp((zt & 0xf) as u8), preg_spec(pg), addr])),
        yields(*old(out), *final(out), prf_insn(m, form, zt, pg, addr)),
{
    if zt & 0b1_0000 != 0 {
        return;
    }
    emit3(out, m, form, Operand::PrefetchOp((zt & 0xf) as u8), preg(pg), addr);
}

// ===========================================================================
// Top-level dispatch.
// ===========================================================================

/// The top byte of `word` is a contiguous-quadrant one: `0xA4`/`0xA5`
/// (loads) or `0xE4`/`0xE5` (stores).
pub open spec fn contig_top(word: u32) -> bool {
    let top = field(word, 24, 8);
    top == 0xa4 || top == 0xa5 || top == 0xe4 || top == 0xe5
}

/// The instruction an SVE memory word encodes under `features`: the SVE2.1
/// quadword form when FEAT_SVE2p1 is on and one matches, else the
/// contiguous form for a contiguous top byte and the gather form for a
/// gather top byte; `None` for the other top bytes.
pub open spec fn mem_form(word: u32, features: FeatureSet) -> Option<(Code, Mnemonic, Seq<Operand>)> {
    if features.contains(Feature::Sve2p1) && qword_form(word) is Some {
        qword_form(word)
    } else if contig_top(word) {
        contig_form(word)
    } else if gather_top(word) {
        gather_form(word)
    } else {
        None
    }
}

/// Every quadword instruction the specification describes has a code.
pub proof fn lemma_qword_form(word: u32)
    ensures
        qword_form(word) matches Some(f) ==> f.0 != Code::Invalid,
{
}

/// A memory form has one of the eight SVE memory top bytes, so its word lies in
/// the SVE encoding group.
pub proof fn lemma_mem_form_group(word: u32, features: FeatureSet)
    ensures
        mem_form(word, features) is Some ==> field(word, 25, 4) == 0b0010,
{
    let top = (word >> 24u32) & low_mask(8);
    assert(top == 0x84 || top == 0x85 || top == 0xa4 || top == 0xa5 || top == 0xc4 || top == 0xc5 || top == 0xe4
        || top == 0xe5 ==> (word >> 25u32) & low_mask(4) == 0b0010) by (bit_vector)
        requires
            top == (word >> 24u32) & low_mask(8),
            low_mask(8) == 0xff,
            low_mask(4) == 0xf,
    ;
}

/// Decode a single SVE/SVE2 memory instruction `word` at `ip` into `out`.
///
/// Feature-gated on [`Feature::Sve`]; dispatches on the top byte `word<31:24>`.
/// Total and panic-free: unhandled encodings are left [`Code::Invalid`].
pub fn decode(word: u32, ip: u64, features: FeatureSet, out: &mut Instruction)
    requires
        features.contains(Feature::Sve) ==> old(out).is_blank(),
    ensures
        features.contains(Feature::Sve) ==> decode_post(*old(out), *final(out)),
        !features.contains(Feature::Sve) ==> *final(out) == *old(out),
        features.contains(Feature::Sve) ==> yields(*old(out), *final(out), mem_form(word, features)),
{
    proof {
        lemma_qword_form(word);
    }
    let _ = ip;
    if !features.has(Feature::Sve) {
        return;
    }
    // SVE2.1 quadword (`.q`) contiguous structured + gather/scatter forms share
    // the same top bytes as the byte/half/word/dword families; intercept them
    // first (they occupy otherwise-unallocated sub-op slots) before the legacy
    // dispatch. They are individually feature-gated on FEAT_SVE2p1.
    if features.has(Feature::Sve2p1) {
        decode_qword(word, out);
        if !out.is_invalid() {
            return;
        }
    }
    match bits(word, 24, 8) {
        0xa4 | 0xa5 | 0xe4 | 0xe5 => decode_contig(word, out),
        0x84 | 0x85 | 0xc4 | 0xc5 => decode_gather(word, out),
        _ => {}
    }
}

// ===========================================================================
// FEAT_SVE2p1 quadword (`.q`) load/store family.
// ===========================================================================

/// `[Zn.D{, Xm}]` for the quadword gather/scatter forms; an `Xm` of `31`
/// (xzr) is written bare (`[Zn.D]`).
pub open spec fn q_gather_addr_spec(zn: u32, rm: u32) -> Operand {
    if rm == 0b11111 {
        m_vi_spec(zn, VA::Sd, 0)
    } else {
        m_vs_spec(zn, VA::Sd, rm)
    }
}

/// The code of a quadword structured load/store of `nreg` registers, scalar
/// plus scalar (`ss`) or plus immediate.
pub open spec fn qword_struct_code_spec(nreg: u8, store: bool, ss: bool) -> Code {
    match (nreg, store, ss) {
        (2, false, true) => Code::SveLd2qSs,
        (2, false, false) => Code::SveLd2qImm,
        (3, false, true) => Code::SveLd3qSs,
        (3, false, false) => Code::SveLd3qImm,
        (4, false, true) => Code::SveLd4qSs,
        (4, false, false) => Code::SveLd4qImm,
        (2, true, true) => Code::SveSt2qSs,
        (2, true, false) => Code::SveSt2qImm,
        (3, true, true) => Code::SveSt3qSs,
        (3, true, false) => Code::SveSt3qImm,
        (_, true, true) => Code::SveSt4qSs,
        (_, true, false) => Code::SveSt4qImm,
        (_, false, true) => Code::SveLd4qSs,
        (_, false, false) => Code::SveLd4qImm,
    }
}

/// The instruction a single-register quadword load/store word (top byte
/// `0xA5` / `0xE5`) encodes, or `None`.
pub open spec fn qword_single_form(word: u32) -> Option<(Code, Mnemonic, Seq<Operand>)> {
    let top = field(word, 24, 8);
    let sz = field(word, 22, 2);
    let op = field(word, 13, 3);
    let rm = field(word, 16, 5);
    let pg = field(word, 10, 3);
    let rn = field(word, 5, 5);
    let zt = field(word, 0, 5);
    let load = top == 0xa5;
    // (scalar+scalar code, scalar+immediate code, lsl amount).
    let codes: Option<(Code, Code, u8)> = if load {
        if sz == 0 {
            Some((Code::SveLd1wqSs, Code::SveLd1wqImm, 2u8))
        } else if sz == 2 {
            Some((Code::SveLd1dqSs, Code::SveLd1dqImm, 3u8))
        } else {
            None
        }
    } else if sz == 0 {
        Some((Code::SveSt1wqSs, Code::SveSt1wqImm, 2u8))
    } else if sz == 3 {
        Some((Code::SveSt1dqSs, Code::SveSt1dqImm, 3u8))
    } else {
        None
    };
    let g = if load { preg_q_spec(pg, PredQual::Zeroing) } else { preg_spec(pg) };
    if field(word, 21, 1) != 0 || !(top == 0xa5 || top == 0xe5) {
        None
    } else {
        match codes {
            None => None,
            Some(c) => if op == (if load { 0b100u32 } else { 0b010u32 }) {
                if rm == 0b11111 {
                    None
                } else {
                    Some((c.0, code_mnemonic(c.0), seq![zlist_spec(zt, 1, VA::Sq), g, m_ss_spec(rn, rm, c.2)]))
                }
            } else if op == (if load { 0b001u32 } else { 0b111u32 }) && field(word, 20, 1) == (if load { 1u32 } else { 0u32 }) {
                Some((c.1, code_mnemonic(c.1), seq![zlist_spec(zt, 1, VA::Sq), g, m_mulvl_spec(rn, imm4s(word))]))
            } else {
                None
            },
        }
    }
}

/// The instruction a quadword structured load/store word of `nreg`
/// registers encodes, or `None`.
pub open spec fn qword_struct_form(word: u32, nreg: u8, store: bool) -> Option<(Code, Mnemonic, Seq<Operand>)> {
    let pg = field(word, 10, 3);
    let rn = field(word, 5, 5);
    let zt = field(word, 0, 5);
    let rm = field(word, 16, 5);
    let g = if store { preg_spec(pg) } else { preg_q_spec(pg, PredQual::Zeroing) };
    if field(word, 21, 1) == 1 && field(word, 13, 3) == (if store { 0b000u32 } else { 0b100u32 }) {
        if rm == 0b11111 {
            None
        } else {
            let c = qword_struct_code_spec(nreg, store, true);
            Some((c, code_mnemonic(c), seq![zlist_spec(zt, nreg, VA::Sq), g, m_ss_spec(rn, rm, 4)]))
        }
    } else if field(word, 21, 1) == 0 && field(word, 20, 1) == (if store { 0u32 } else { 1u32 }) && field(word, 13, 3) == (
    if store { 0b000u32 } else { 0b111u32 }) {
        let c = qword_struct_code_spec(nreg, store, false);
        Some((c, code_mnemonic(c), seq![zlist_spec(zt, nreg, VA::Sq), g, m_mulvl_spec(rn, (imm4s(word) * nreg) as i32)]))
    } else {
        None
    }
}

/// The instruction an SVE2.1 quadword load/store word encodes, or `None`.
pub open spec fn qword_form(word: u32) -> Option<(Code, Mnemonic, Seq<Operand>)> {
    let top = field(word, 24, 8);
    let pg = field(word, 10, 3);
    let rn = field(word, 5, 5);
    let zt = field(word, 0, 5);
    let rm = field(word, 16, 5);
    if qword_single_form(word) is Some {
        qword_single_form(word)
    } else if top == 0xc4 && field(word, 21, 3) == 0 && field(word, 13, 3) == 0b101 {
        Some((
            Code::SveLd1qG,
            code_mnemonic(Code::SveLd1qG),
            seq![zlist_spec(zt, 1, VA::Sq), preg_q_spec(pg, PredQual::Zeroing), q_gather_addr_spec(rn, rm)],
        ))
    } else if top == 0xe4 && field(word, 21, 3) == 0b001 && field(word, 13, 3) == 0b001 {
        Some((Code::SveSt1qS, code_mnemonic(Code::SveSt1qS), seq![zlist_spec(zt, 1, VA::Sq), preg_spec(pg), q_gather_addr_spec(rn, rm)]))
    } else if (top == 0xa4 || top == 0xa5) && field(word, 22, 1) == 0 {
        let n = field(word, 23, 2);
        if n == 0 {
            None
        } else {
            qword_struct_form(word, (n + 1) as u8, false)
        }
    } else if top == 0xe4 {
        let n = field(word, 22, 3);
        if 1 <= n && n <= 3 {
            qword_struct_form(word, (n + 1) as u8, true)
        } else {
            None
        }
    } else {
        None
    }
}

/// Decode the SVE2.1 quadword load/store forms, or leave `out` untouched.
///
/// Three groups share the SVE memory top bytes:
/// * `LD1Q` gather (`0xC4`) / `ST1Q` scatter (`0xE4`): `[<Zn>.D{, <Xm>}]`.
/// * `LD{2,3,4}Q` contiguous structured loads (`0xA4`/`0xA5`).
/// * `ST{2,3,4}Q` contiguous structured stores (`0xE4`).
///
/// Each path verifies its full skeleton and leaves [`Code::Invalid`] otherwise,
/// so it is safe to run ahead of the legacy contiguous/gather dispatch.
fn decode_qword(word: u32, out: &mut Instruction)
    requires
        old(out).is_blank(),
    ensures
        decode_post(*old(out), *final(out)),
        yields(*old(out), *final(out), qword_form(word)),
{
    let top: u32 = bits(word, 24, 8);
    let pg: u32 = bits(word, 10, 3);
    let rn: u32 = bits(word, 5, 5);
    let zt: u32 = bits(word, 0, 5);
    // SVE2.1 quadword (`.q`) SINGLE-register contiguous loads/stores share these
    // top bytes with `LD1RQ*`/`STNT1*`/`STR`; they sit in otherwise-unallocated
    // sub-op slots. Intercept them first.
    decode_qword_single(word, top, pg, rn, zt, out);
    if !out.is_invalid() {
        return;
    }
    let rm: u32 = bits(word, 16, 5);
    if top == 0xc4 && bits(word, 21, 3) == 0b000 && bits(word, 13, 3) == 0b101 {
        // LD1Q gather: 11000100 000 Rm 101 Pg Zn Zt, base Zn.d + offset Xm.
        install3(out, Code::SveLd1qG, mnemonic_of(Code::SveLd1qG), zlist(zt, 1, VA::Sq), preg_q(pg, PredQual::Zeroing), q_gather_addr(rn, rm));
    } else if top == 0xe4 && bits(word, 21, 3) == 0b001 && bits(word, 13, 3) == 0b001 {
        // ST1Q scatter: 11100100 001 Rm 001 Pg Zn Zt, base Zn.d + offset Xm.
        install3(out, Code::SveSt1qS, mnemonic_of(Code::SveSt1qS), zlist(zt, 1, VA::Sq), preg(pg), q_gather_addr(rn, rm));
    } else if (top == 0xa4 || top == 0xa5) && bit(word, 22) == 0 {
        // LD{2,3,4}Q contiguous structured: 1010010 nreg-1(24:23) 0 form ...
        let n: u32 = bits(word, 23, 2);
        if n == 0 {
            return;
        }
        decode_qword_struct(word, (n + 1) as u8, false, pg, rn, zt, out);
    } else if top == 0xe4 {
        // ST{2,3,4}Q contiguous structured: 1110010 nreg-1(24:22) ...
        let n: u32 = bits(word, 22, 3);
        if n < 1 || n > 3 {
            return;
        }
        decode_qword_struct(word, (n + 1) as u8, true, pg, rn, zt, out);
    }
}

/// Decode the SVE2.1 quadword (`.q`) SINGLE-register contiguous loads/stores.
///
/// These render `{ <Zt>.Q }` and occupy sub-op slots that legacy `decode_contig`
/// either drops or over-decodes as `LD1RQ*` (the `op=1`/`b20=1` imm slot). The
/// element field selects `LD1W`/`ST1W` (W) vs `LD1D`/`ST1D` (D): loads (`0xa5`)
/// use `<23:22>` = `00` -> W, `10` -> D; stores (`0xe5`) use `00` -> W, `11`
/// -> D. Loads sit at `op<15:13>` = `100` (scalar+scalar, `Rm` = `<20:16>`) and
/// `001` with `<20>=1` (scalar+imm, `MUL VL`); stores at `op` = `010` (ss) and
/// `111` with `<20>=0` (imm).
fn decode_qword_single(word: u32, top: u32, pg: u32, rn: u32, zt: u32, out: &mut Instruction)
    requires
        old(out).is_blank(),
        top == field(word, 24, 8),
        pg == field(word, 10, 3),
        rn == field(word, 5, 5),
        zt == field(word, 0, 5),
    ensures
        decode_post(*old(out), *final(out)),
        yields(*old(out), *final(out), qword_single_form(word)),
{
    // Only the `0xa5` (loads) / `0xe5` (stores) top bytes carry these forms.
    // The single-register forms always have `<21> == 0`; `<21> == 1` belongs to
    // the structured `LD{3,4}Q`/`ST{3,4}Q` (which share `op<15:13> == 100`).
    if bit(word, 21) != 0 || !(top == 0xa5 || top == 0xe5) {
        return;
    }
    let load = top == 0xa5;
    let sz: u32 = bits(word, 22, 2); // <23:22>
    let op: u32 = bits(word, 13, 3); // <15:13>
    let rm: u32 = bits(word, 16, 5); // <20:16> (scalar+scalar offset register)
    // Loads: 00 -> W (lsl #2), 10 -> D (lsl #3); stores: 00 -> W, 11 -> D;
    // other sizes are not `.q`.
    let (code_ss, code_imm, lsl): (Code, Code, u8) = if load {
        if sz == 0 {
            (Code::SveLd1wqSs, Code::SveLd1wqImm, 2u8)
        } else if sz == 2 {
            (Code::SveLd1dqSs, Code::SveLd1dqImm, 3u8)
        } else {
            return;
        }
    } else if sz == 0 {
        (Code::SveSt1wqSs, Code::SveSt1wqImm, 2u8)
    } else if sz == 3 {
        (Code::SveSt1dqSs, Code::SveSt1dqImm, 3u8)
    } else {
        return;
    };
    let g = if load { preg_q(pg, PredQual::Zeroing) } else { preg(pg) };
    if op == (if load { 0b100u32 } else { 0b010u32 }) {
        // scalar + scalar, `[Xn, Xm, lsl #lsl]`. `Xm == 31` (xzr) is the
        // no-offset immediate form → UNDEFINED.
        if rm == 0b11111 {
            return;
        }
        install3(out, code_ss, mnemonic_of(code_ss), zlist(zt, 1, VA::Sq), g, m_ss(rn, rm, lsl));
    } else if op == (if load { 0b001u32 } else { 0b111u32 }) && bit(word, 20) == (if load { 1u32 } else { 0u32 }) {
        // scalar + imm `[Xn{, #imm, mul vl}]`.
        let i4: i32 = sign_extend(bits(word, 16, 4) as u64, 4) as i32; // <19:16> imm4
        install3(out, code_imm, mnemonic_of(code_imm), zlist(zt, 1, VA::Sq), g, m_mulvl(rn, i4));
    }
}

/// Decode the scalar+scalar / scalar+imm tail of a quadword structured form.
fn decode_qword_struct(word: u32, nreg: u8, store: bool, pg: u32, rn: u32, zt: u32, out: &mut Instruction)
    requires
        old(out).is_blank(),
        2 <= nreg <= 4,
        pg == field(word, 10, 3),
        rn == field(word, 5, 5),
        zt == field(word, 0, 5),
    ensures
        decode_post(*old(out), *final(out)),
        yields(*old(out), *final(out), qword_struct_form(word, nreg, store)),
{
    let ss_sel: u32 = if store { 0b000 } else { 0b100 };
    let imm_sel: u32 = if store { 0b000 } else { 0b111 };
    let b20: u32 = if store { 0 } else { 1 };
    let g = if store { preg(pg) } else { preg_q(pg, PredQual::Zeroing) };
    if bit(word, 21) == 1 && bits(word, 13, 3) == ss_sel {
        // scalar + scalar, `[Xn, Xm, lsl #4]`. `Xm == 31` (xzr) is UNDEFINED for
        // the structured forms (the no-offset case is the immediate form).
        let rm: u32 = bits(word, 16, 5);
        if rm == 0b11111 {
            return;
        }
        let code = qword_struct_code(nreg, store, true);
        install3(out, code, mnemonic_of(code), zlist(zt, nreg, VA::Sq), g, m_ss(rn, rm, 4));
    } else if bit(word, 21) == 0 && bit(word, 20) == b20 && bits(word, 13, 3) == imm_sel {
        // scalar + imm `[Xn{, #imm, mul vl}]`, imm4 scaled by nreg.
        let i4: i32 = sign_extend(bits(word, 16, 4) as u64, 4) as i32;
        let code = qword_struct_code(nreg, store, false);
        install3(out, code, mnemonic_of(code), zlist(zt, nreg, VA::Sq), g, m_mulvl(rn, scaled(i4, nreg as i32)));
    }
}

/// The [`Code`] for a quadword structured `(nreg, store, ss)` form.
fn qword_struct_code(nreg: u8, store: bool, ss: bool) -> (c: Code)
    ensures
        c == qword_struct_code_spec(nreg, store, ss),
        c != Code::Invalid,
{
    match (nreg, store, ss) {
        (2, false, true) => Code::SveLd2qSs,
        (2, false, false) => Code::SveLd2qImm,
        (3, false, true) => Code::SveLd3qSs,
        (3, false, false) => Code::SveLd3qImm,
        (4, false, true) => Code::SveLd4qSs,
        (4, false, false) => Code::SveLd4qImm,
        (2, true, true) => Code::SveSt2qSs,
        (2, true, false) => Code::SveSt2qImm,
        (3, true, true) => Code::SveSt3qSs,
        (3, true, false) => Code::SveSt3qImm,
        (_, true, true) => Code::SveSt4qSs,
        (_, true, false) => Code::SveSt4qImm,
        (_, false, true) => Code::SveLd4qSs,
        (_, false, false) => Code::SveLd4qImm,
    }
}

/// `[Zn.D{, Xm}]` for the quadword gather/scatter forms; an `Xm` of `31` (xzr)
/// renders bare (`[Zn.D]`).
fn q_gather_addr(zn: u32, rm: u32) -> (r: Operand)
    ensures
        r == q_gather_addr_spec(zn, rm),
{
    if rm == 0b11111 {
        // No offset register: `[Zn.D]` (a vector-base with no immediate).
        m_vi(zn, VA::Sd, 0)
    } else {
        m_vs(zn, VA::Sd, rm)
    }
}

// ===========================================================================
// Contiguous quadrant: 0xA4/0xA5 (loads), 0xE4/0xE5 (stores + scatter).
// ===========================================================================

/// The `LD1RQ*` (`r == 0`) / `LD1RO*` (`r == 1`) mnemonic of a memory size.
pub open spec fn ld1rq_spec(r: u32, msz: u32) -> Mnemonic {
    match (r, msz & 3) {
        (0, 0) => Mnemonic::Ld1rqb, (0, 1) => Mnemonic::Ld1rqh, (0, 2) => Mnemonic::Ld1rqw, (0, 3) => Mnemonic::Ld1rqd,
        (_, 0) => Mnemonic::Ld1rob, (_, 1) => Mnemonic::Ld1roh, (_, 2) => Mnemonic::Ld1row, _ => Mnemonic::Ld1rod,
    }
}

fn ld1rq_mnem(r: u32, msz: u32) -> (m: Mnemonic)
    ensures
        m == ld1rq_spec(r, msz),
{
    match (r, msz & 3) {
        (0, 0) => Mnemonic::Ld1rqb, (0, 1) => Mnemonic::Ld1rqh, (0, 2) => Mnemonic::Ld1rqw, (0, 3) => Mnemonic::Ld1rqd,
        (_, 0) => Mnemonic::Ld1rob, (_, 1) => Mnemonic::Ld1roh, (_, 2) => Mnemonic::Ld1row, _ => Mnemonic::Ld1rod,
    }
}

/// The signed 4-bit immediate `word<19:16>`.
pub open spec fn imm4s(word: u32) -> i32 {
    sext_spec(field(word, 16, 4) as u64, 4) as i32
}

/// The instruction a contiguous-quadrant word (top byte `0xA4`/`0xA5` loads,
/// `0xE4`/`0xE5` stores) encodes, or `None`.
pub open spec fn contig_form(word: u32) -> Option<(Code, Mnemonic, Seq<Operand>)> {
    let top = field(word, 24, 8);
    let msz = field(word, 23, 2);
    let b22 = field(word, 22, 1);
    let b21 = field(word, 21, 1);
    let b20 = field(word, 20, 1);
    let op = field(word, 13, 3);
    let dtype = field(word, 21, 4);
    let pg = field(word, 10, 3);
    let rn = field(word, 5, 5);
    let zt = field(word, 0, 5);
    let rm = field(word, 16, 5);
    let e = arr_spec(msz);
    let i4 = imm4s(word);
    let nr = b22 * 2 + b21;
    let nreg = (nr + 1) as u8;
    if !(top == 0xe4 || top == 0xe5) {
        if op == 0 || op == 1 {
            let m = ld1rq_spec(b21, msz);
            if b22 == 1 {
                None
            } else if op == 0 {
                if rm == 0b11111 {
                    None
                } else {
                    ld_insn(m, Form::Ss, e, zt, pg, m_ss_spec(rn, rm, msz as u8))
                }
            } else if b20 == 1 {
                None
            } else if b21 == 0 {
                ld_insn(m, Form::Imm, e, zt, pg, m_imm_dec_spec(rn, (i4 * 16) as i32))
            } else {
                ld_insn(m, Form::Imm, e, zt, pg, m_imm_hex_spec(rn, i4))
            }
        } else if op == 2 || op == 3 {
            let d = load_dtype_spec(dtype);
            if op == 2 && rm == 0b11111 {
                None
            } else {
                ld_insn(if op == 3 { ff_spec(d.0) } else { d.0 }, Form::Ss, d.1, zt, pg, m_ss_spec(rn, rm, lsl_spec(d.0)))
            }
        } else if op == 5 {
            let d = load_dtype_spec(dtype);
            ld_insn(if b20 == 1 { nf_spec(d.0) } else { d.0 }, Form::Imm, d.1, zt, pg, m_mulvl_spec(rn, i4))
        } else if op == 6 || op == 7 {
            if (op == 6 && rm == 0b11111) || (op == 7 && b20 == 1) {
                None
            } else if nr == 0 {
                if op == 6 {
                    ld_insn(ldnt1_spec(msz, false), Form::Ss, e, zt, pg, m_ss_spec(rn, rm, msz as u8))
                } else {
                    ld_insn(ldnt1_spec(msz, false), Form::Imm, e, zt, pg, m_mulvl_spec(rn, i4))
                }
            } else if op == 6 {
                struct_insn(struct_spec(nreg, msz, false), Form::Ss, e, zt, nreg, pg, m_ss_spec(rn, rm, msz as u8), false)
            } else {
                struct_insn(struct_spec(nreg, msz, false), Form::Imm, e, zt, nreg, pg, m_mulvl_spec(rn, (i4 * nreg) as i32), false)
            }
        } else {
            None
        }
    } else if top == 0xe5 && msz == 3 && b22 == 0 && (op == 0 || op == 2) {
        ldr_str_form(word, true)
    } else if op == 2 {
        if rm == 0b11111 {
            None
        } else {
            match store_dtype_spec(dtype) {
                Some(d) => st_insn(d.0, Form::Ss, d.1, zt, pg, m_ss_spec(rn, rm, lsl_spec(d.0))),
                None => None,
            }
        }
    } else if op == 3 {
        if rm == 0b11111 {
            None
        } else if nr == 0 {
            st_insn(stnt1_spec(msz), Form::Ss, e, zt, pg, m_ss_spec(rn, rm, msz as u8))
        } else {
            struct_insn(struct_spec(nreg, msz, true), Form::Ss, e, zt, nreg, pg, m_ss_spec(rn, rm, msz as u8), true)
        }
    } else if op == 7 {
        if b20 == 0 {
            match store_dtype_spec(dtype) {
                Some(d) => st_insn(d.0, Form::Imm, d.1, zt, pg, m_mulvl_spec(rn, i4)),
                None => None,
            }
        } else if nr == 0 {
            st_insn(stnt1_spec(msz), Form::Imm, e, zt, pg, m_mulvl_spec(rn, i4))
        } else {
            struct_insn(struct_spec(nreg, msz, true), Form::Imm, e, zt, nreg, pg, m_mulvl_spec(rn, (i4 * nreg) as i32), true)
        }
    } else {
        scatter_form(word)
    }
}

fn decode_contig(word: u32, out: &mut Instruction)
    requires
        old(out).is_blank(),
    ensures
        decode_post(*old(out), *final(out)),
        yields(*old(out), *final(out), contig_form(word)),
{
    let top: u32 = bits(word, 24, 8);
    let msz: u32 = bits(word, 23, 2);
    let b22: u32 = bits(word, 22, 1);
    let b21: u32 = bits(word, 21, 1);
    let op: u32 = bits(word, 13, 3);
    let dtype: u32 = bits(word, 21, 4);
    let pg: u32 = bits(word, 10, 3);
    let rn: u32 = bits(word, 5, 5);
    let zt: u32 = bits(word, 0, 5);
    let rm: u32 = bits(word, 16, 5);
    let store = top == 0xe4 || top == 0xe5;
    let e = arr(msz);

    if !store {
        if op == 0 || op == 1 {
            // LD1RQ (b21==0) / LD1RO (b21==1). `word<22>` is RES0 for this
            // replicating-quadword/octword family; non-zero → UNDEFINED.
            let m = ld1rq_mnem(b21, msz);
            if b22 == 1 {
                return;
            }
            if op == 0 {
                // scalar + scalar, lsl #msz. `Xm == 31` (xzr) is the
                // no-offset immediate form → UNDEFINED here.
                if rm == 0b11111 {
                    return;
                }
                ld(out, m, Form::Ss, e, zt, pg, m_ss(rn, rm, msz as u8));
            } else {
                // scalar + imm: LD1RQ scales by 16 (decimal radix); LD1RO is
                // raw (hex). `word<20>` is RES0 for the immediate form →
                // UNDEFINED if set.
                if bits(word, 20, 1) == 1 {
                    return;
                }
                let i4: i32 = sign_extend(bits(word, 16, 4) as u64, 4) as i32;
                if b21 == 0 {
                    ld(out, m, Form::Imm, e, zt, pg, m_imm_dec(rn, i4 * 16));
                } else {
                    ld(out, m, Form::Imm, e, zt, pg, m_imm_hex(rn, i4));
                }
            }
        } else if op == 2 || op == 3 {
            // `Xm == 31` (xzr) is reserved for the non-fault-suppressing
            // `LD1*` scalar+scalar form (`op == 2`): the no-offset case is
            // the immediate form → UNDEFINED. The first-fault `LDFF1*`
            // (`op == 3`) form *does* allow `xzr` (renders `[Xn]`).
            let (m, a) = load_dtype(dtype);
            if op == 2 && rm == 0b11111 {
                return;
            }
            let mn = if op == 3 { ff_of(m) } else { m };
            ld(out, mn, Form::Ss, a, zt, pg, m_ss(rn, rm, lsl_of_mnem(m)));
        } else if op == 5 {
            let (m, a) = load_dtype(dtype);
            let i4: i32 = sign_extend(bits(word, 16, 4) as u64, 4) as i32;
            let mn = if bits(word, 20, 1) == 1 { nf_of(m) } else { m };
            ld(out, mn, Form::Imm, a, zt, pg, m_mulvl(rn, i4));
        } else if op == 6 || op == 7 {
            // The scalar+scalar form (`op == 6`, both `LDNT1*` and the
            // structured `LD{2,3,4}*`) is UNDEFINED with `Xm == 31` (xzr).
            // The scalar+imm form (`op == 7`) has `word<20>` RES0; a set bit
            // is UNDEFINED. (The `.q` `LD{2,3,4}Q` forms that reuse this slot
            // are decoded earlier in `decode_qword`.)
            if (op == 6 && rm == 0b11111) || (op == 7 && bits(word, 20, 1) == 1) {
                return;
            }
            let nr: u8 = (b22 * 2 + b21) as u8; // 0 -> LDNT1, else nreg-1
            if nr == 0 {
                let m = ldnt1_mnem(msz, false);
                if op == 6 {
                    ld(out, m, Form::Ss, e, zt, pg, m_ss(rn, rm, msz as u8));
                } else {
                    let i4: i32 = sign_extend(bits(word, 16, 4) as u64, 4) as i32;
                    ld(out, m, Form::Imm, e, zt, pg, m_mulvl(rn, i4));
                }
            } else {
                let nreg: u8 = nr + 1;
                let m = struct_mnem(nreg, msz, false);
                if op == 6 {
                    structured(out, m, Form::Ss, e, zt, nreg, pg, m_ss(rn, rm, msz as u8), false);
                } else {
                    let i4: i32 = sign_extend(bits(word, 16, 4) as u64, 4) as i32;
                    structured(out, m, Form::Imm, e, zt, nreg, pg, m_mulvl(rn, scaled(i4, nreg as i32)), false);
                }
            }
        }
        return;
    }

    // ----- store quadrant -----
    // STR (vector/predicate): top 0xe5, msz==3, b22==0, op in {0,2}.
    if top == 0xe5 && msz == 3 && b22 == 0 && (op == 0 || op == 2) {
        decode_ldr_str(word, out, true);
        return;
    }
    if op == 2 {
        // `Xm == 31` (xzr) is the no-offset immediate form → UNDEFINED.
        if rm == 0b11111 {
            return;
        }
        if let Some((m, a)) = store_dtype(dtype) {
            st(out, m, Form::Ss, a, zt, pg, m_ss(rn, rm, lsl_of_mnem(m)));
        }
    } else if op == 3 {
        // `Xm == 31` (xzr) UNDEFINED for `STNT1*`/structured scalar+scalar.
        if rm == 0b11111 {
            return;
        }
        let nr: u8 = (b22 * 2 + b21) as u8;
        if nr == 0 {
            st(out, stnt1_mnem(msz), Form::Ss, e, zt, pg, m_ss(rn, rm, msz as u8));
        } else {
            let nreg: u8 = nr + 1;
            structured(out, struct_mnem(nreg, msz, true), Form::Ss, e, zt, nreg, pg, m_ss(rn, rm, msz as u8), true);
        }
    } else if op == 7 {
        let i4: i32 = sign_extend(bits(word, 16, 4) as u64, 4) as i32;
        if bits(word, 20, 1) == 0 {
            // ST1 scalar+imm (dtype-based).
            if let Some((m, a)) = store_dtype(dtype) {
                st(out, m, Form::Imm, a, zt, pg, m_mulvl(rn, i4));
            }
        } else {
            let nr: u8 = (b22 * 2 + b21) as u8;
            if nr == 0 {
                st(out, stnt1_mnem(msz), Form::Imm, e, zt, pg, m_mulvl(rn, i4));
            } else {
                let nreg: u8 = nr + 1;
                structured(out, struct_mnem(nreg, msz, true), Form::Imm, e, zt, nreg, pg, m_mulvl(rn, scaled(i4, nreg as i32)), true);
            }
        }
    } else {
        decode_scatter(word, out);
    }
}

/// First-fault variant of a contiguous load mnemonic.
pub open spec fn ff_spec(m: Mnemonic) -> Mnemonic {
    match m {
        Mnemonic::Ld1b => Mnemonic::Ldff1b, Mnemonic::Ld1h => Mnemonic::Ldff1h, Mnemonic::Ld1w => Mnemonic::Ldff1w, Mnemonic::Ld1d => Mnemonic::Ldff1d,
        Mnemonic::Ld1sb => Mnemonic::Ldff1sb, Mnemonic::Ld1sh => Mnemonic::Ldff1sh, Mnemonic::Ld1sw => Mnemonic::Ldff1sw, other => other,
    }
}

fn ff_of(m: Mnemonic) -> (r: Mnemonic)
    ensures
        r == ff_spec(m),
{
    match m {
        Mnemonic::Ld1b => Mnemonic::Ldff1b, Mnemonic::Ld1h => Mnemonic::Ldff1h, Mnemonic::Ld1w => Mnemonic::Ldff1w, Mnemonic::Ld1d => Mnemonic::Ldff1d,
        Mnemonic::Ld1sb => Mnemonic::Ldff1sb, Mnemonic::Ld1sh => Mnemonic::Ldff1sh, Mnemonic::Ld1sw => Mnemonic::Ldff1sw, other => other,
    }
}

/// Non-fault variant of a contiguous load mnemonic.
pub open spec fn nf_spec(m: Mnemonic) -> Mnemonic {
    match m {
        Mnemonic::Ld1b => Mnemonic::Ldnf1b, Mnemonic::Ld1h => Mnemonic::Ldnf1h, Mnemonic::Ld1w => Mnemonic::Ldnf1w, Mnemonic::Ld1d => Mnemonic::Ldnf1d,
        Mnemonic::Ld1sb => Mnemonic::Ldnf1sb, Mnemonic::Ld1sh => Mnemonic::Ldnf1sh, Mnemonic::Ld1sw => Mnemonic::Ldnf1sw, other => other,
    }
}

fn nf_of(m: Mnemonic) -> (r: Mnemonic)
    ensures
        r == nf_spec(m),
{
    match m {
        Mnemonic::Ld1b => Mnemonic::Ldnf1b, Mnemonic::Ld1h => Mnemonic::Ldnf1h, Mnemonic::Ld1w => Mnemonic::Ldnf1w, Mnemonic::Ld1d => Mnemonic::Ldnf1d,
        Mnemonic::Ld1sb => Mnemonic::Ldnf1sb, Mnemonic::Ld1sh => Mnemonic::Ldnf1sh, Mnemonic::Ld1sw => Mnemonic::Ldnf1sw, other => other,
    }
}

// ===========================================================================
// Scatter (store) quadrant low ops: STNT1 (vector base), ST1 scatter.
// ===========================================================================

/// The gather/scatter modifier of `gmod`: `packed` selects `lsl`, otherwise
/// `xs` selects `sxtw` (1) or `uxtw` (0).
pub open spec fn gmod_ext(xs: u32, packed: bool) -> ExtendType {
    if packed {
        ExtendType::Uxtx
    } else if xs == 1 {
        ExtendType::Sxtw
    } else {
        ExtendType::Uxtw
    }
}

/// The shown shift amount of `gmod`: `amt` when scaled and nonzero, else the
/// hidden `0xff`.
pub open spec fn gmod_amount(scaled: bool, amt: u32) -> u8 {
    if scaled && amt != 0 {
        amt as u8
    } else {
        0xff
    }
}

/// The instruction a store-quadrant scatter / `STNT1` vector-base word
/// encodes, or `None`.
pub open spec fn scatter_form(word: u32) -> Option<(Code, Mnemonic, Seq<Operand>)> {
    let msz = field(word, 23, 2);
    let b22 = field(word, 22, 1);
    let b21 = field(word, 21, 1);
    let op = field(word, 13, 3);
    let pg = field(word, 10, 3);
    let rn = field(word, 5, 5);
    let zt = field(word, 0, 5);
    let zm = field(word, 16, 5);
    let oe22 = if b22 == 1 { VA::Ss } else { VA::Sd };
    if op == 1 {
        if b21 == 1 || (msz == 3 && b22 == 1) {
            None
        } else {
            st_insn(stnt1_spec(msz), Form::Vs, oe22, zt, pg, m_vs_spec(rn, oe22, zm))
        }
    } else if op == 4 || op == 6 {
        if (msz == 0 && b21 == 1) || (msz == 3 && b22 == 1) {
            None
        } else {
            st_insn(
                st1_spec(msz),
                if oe22 == VA::Ss { Form::G32 } else { Form::G64 },
                oe22,
                zt,
                pg,
                m_xz_spec(rn, zm, oe22, gmod_ext(if op == 6 { 1 } else { 0 }, false), gmod_amount(b21 == 1, msz)),
            )
        }
    } else if op == 5 {
        if b22 == 0 {
            if msz == 0 && b21 == 1 {
                None
            } else {
                st_insn(st1_spec(msz), Form::G64, VA::Sd, zt, pg, m_xz_spec(rn, zm, VA::Sd, gmod_ext(0, true), gmod_amount(b21 == 1, msz)))
            }
        } else if msz == 3 && b21 == 1 {
            None
        } else {
            let oe = if b21 == 1 { VA::Ss } else { VA::Sd };
            let bytes: int = if msz == 0 { 1 } else if msz == 1 { 2 } else if msz == 2 { 4 } else { 8 };
            st_insn(
                st1_spec(msz),
                if oe == VA::Ss { Form::G32 } else { Form::G64 },
                oe,
                zt,
                pg,
                m_vi_spec(rn, oe, (field(word, 16, 5) * bytes) as i32),
            )
        }
    } else {
        None
    }
}

fn decode_scatter(word: u32, out: &mut Instruction)
    requires
        old(out).is_blank(),
    ensures
        decode_post(*old(out), *final(out)),
        yields(*old(out), *final(out), scatter_form(word)),
{
    let msz: u32 = bits(word, 23, 2);
    let b22: u32 = bits(word, 22, 1);
    let b21: u32 = bits(word, 21, 1);
    let op: u32 = bits(word, 13, 3);
    let pg: u32 = bits(word, 10, 3);
    let rn: u32 = bits(word, 5, 5);
    let zt: u32 = bits(word, 0, 5);
    let zm: u32 = bits(word, 16, 5);
    if op == 1 {
        // STNT1 vector base + scalar offset: base Zn = Rn, offset Xm = Rm.
        // `b21` (the scale bit) is RES0 here → reserved if set; a `.s`
        // (`b22==1`) offset cannot store a `dword` (`msz==3`).
        if b21 == 1 || (msz == 3 && b22 == 1) {
            return;
        }
        let oe = if b22 == 1 { VA::Ss } else { VA::Sd };
        st(out, stnt1_mnem(msz), Form::Vs, oe, zt, pg, m_vs(rn, oe, zm));
    } else if op == 4 || op == 6 {
        // ST1 scalar+vec, 32-bit-unpacked offset (uxtw/sxtw). element b22?s:d.
        // A `byte` store (`msz==0`) has no scale, so `b21==1` is reserved; a
        // `.s` (`b22==1`) offset cannot store a `dword` (`msz==3`).
        if (msz == 0 && b21 == 1) || (msz == 3 && b22 == 1) {
            return;
        }
        let oe = if b22 == 1 { VA::Ss } else { VA::Sd };
        let xs: u32 = if op == 6 { 1 } else { 0 };
        let (ext, amt): (ExtendType, u8) = gmod(xs, false, b21 == 1, msz);
        let f = if b22 == 1 { Form::G32 } else { Form::G64 };
        st(out, st1_mnem(msz), f, oe, zt, pg, m_xz(rn, zm, oe, ext, amt));
    } else if op == 5 {
        if b22 == 0 {
            // ST1 scalar+vec 64-bit [Xn, Zm.d{, lsl #msz}]. A `byte` store
            // (`msz==0`) has no scale → `b21==1` reserved.
            if msz == 0 && b21 == 1 {
                return;
            }
            let (ext, amt): (ExtendType, u8) = gmod(0, true, b21 == 1, msz);
            st(out, st1_mnem(msz), Form::G64, VA::Sd, zt, pg, m_xz(rn, zm, VA::Sd, ext, amt));
        } else {
            // ST1 vec+imm [Zn.elt, #imm], element b21?s:d. A `.s` element
            // (`b21==1`) cannot store a `dword` (`msz==3`) → reserved.
            if msz == 3 && b21 == 1 {
                return;
            }
            let oe = if b21 == 1 { VA::Ss } else { VA::Sd };
            let imm: i32 = scaled(bits(word, 16, 5) as i32, msz_bytes(msz));
            let f = if b21 == 1 { Form::G32 } else { Form::G64 };
            st(out, st1_mnem(msz), f, oe, zt, pg, m_vi(rn, oe, imm));
        }
    }
}

// ===========================================================================
// Gather quadrant: 0x84/0x85 (32-bit), 0xC4/0xC5 (64-bit). Loads + PRF + LDR.
// ===========================================================================

/// The top byte of `word` is a gather-quadrant one: `0x84`/`0x85` (32-bit
/// elements) or `0xC4`/`0xC5` (64-bit elements).
pub open spec fn gather_top(word: u32) -> bool {
    let top = field(word, 24, 8);
    top == 0x84 || top == 0x85 || top == 0xc4 || top == 0xc5
}

/// The instruction a gather-quadrant word encodes, or `None`: in `0x85`
/// with `msz == 11` the vector / predicate `LDR` and the contiguous `PRF`,
/// otherwise the 32-bit or 64-bit element gathers.
pub open spec fn gather_form(word: u32) -> Option<(Code, Mnemonic, Seq<Operand>)> {
    let top = field(word, 24, 8);
    let msz = field(word, 23, 2);
    let b22 = field(word, 22, 1);
    let op = field(word, 13, 3);
    if top == 0x85 && msz == 3 && (op == 0 || op == 2) && b22 == 0 {
        ldr_str_form(word, false)
    } else if top == 0x85 && msz == 3 && b22 == 1 && op < 4 {
        prf_insn(prf_spec(op), Form::Imm, field(word, 0, 5), field(word, 10, 3), m_mulvl_spec(field(word, 5, 5), sext_spec(
            field(word, 16, 6) as u64,
            6,
        ) as i32))
    } else if top == 0xc4 || top == 0xc5 {
        gather64_form(word)
    } else {
        gather32_form(word)
    }
}

fn decode_gather(word: u32, out: &mut Instruction)
    requires
        old(out).is_blank(),
    ensures
        decode_post(*old(out), *final(out)),
        yields(*old(out), *final(out), gather_form(word)),
{
    let top: u32 = bits(word, 24, 8);
    let msz: u32 = bits(word, 23, 2);
    let b22: u32 = bits(word, 22, 1);
    let b21: u32 = bits(word, 21, 1);
    let op: u32 = bits(word, 13, 3);
    let pg: u32 = bits(word, 10, 3);
    let rn: u32 = bits(word, 5, 5);
    let zt: u32 = bits(word, 0, 5);
    let rm: u32 = bits(word, 16, 5);
    let zm: u32 = bits(word, 16, 5);
    let is64 = top == 0xc4 || top == 0xc5;
    let dst = if is64 { VA::Sd } else { VA::Ss };

    // ---- 0x85 msz==3: LDR (op0/op2, b22==0) and PRF-contiguous (b22==1). ----
    if top == 0x85 && msz == 3 {
        if (op == 0 || op == 2) && b22 == 0 {
            decode_ldr_str(word, out, false);
            return;
        }
        if b22 == 1 && op < 4 {
            let i6: i32 = sign_extend(bits(word, 16, 6) as u64, 6) as i32;
            prf(out, prf_mnem(op), Form::Imm, zt, pg, m_mulvl(rn, i6));
            return;
        }
    }

    if !is64 {
        decode_gather_32(word, msz, b22, b21, op, pg, rn, zt, rm, zm, dst, out);
    } else {
        decode_gather_64(word, msz, b22, b21, op, pg, rn, zt, rm, zm, dst, out);
    }
}

/// The instruction a 32-bit-element gather word (`0x84`/`0x85`) encodes,
/// or `None`. The offsets are 32-bit unpacked; `<22>=1` with `op >= 4` is
/// the LD1R broadcast region; 64-bit-element loads are reserved.
pub open spec fn gather32_form(word: u32) -> Option<(Code, Mnemonic, Seq<Operand>)> {
    let msz = field(word, 23, 2);
    let b22 = field(word, 22, 1);
    let b21 = field(word, 21, 1);
    let op = field(word, 13, 3);
    let pg = field(word, 10, 3);
    let rn = field(word, 5, 5);
    let zt = field(word, 0, 5);
    let zm = field(word, 16, 5);
    let vimm = (field(word, 16, 5) * msz_bytes_spec(msz)) as i32;
    if b22 == 1 && op >= 4 {
        ld1r_form(word)
    } else if msz == 0 && b21 == 1 && op < 4 {
        prf_insn(prf_spec(op), Form::G32, zt, pg, m_xz_spec(rn, zm, VA::Ss, gmod_ext(b22, false), gmod_amount(op > 0, op)))
    } else if b21 == 1 && op >= 4 {
        let signed = op == 4 || op == 5;
        if gather32_reserved(msz, signed) {
            None
        } else {
            ld_insn(gather_mnem_spec(msz, signed, op == 5 || op == 7), Form::Vi, VA::Ss, zt, pg, m_vi_spec(rn, VA::Ss, vimm))
        }
    } else if op <= 3 {
        let signed = op == 0 || op == 1;
        if gather32_reserved(msz, signed) {
            None
        } else {
            ld_insn(gather_mnem_spec(msz, signed, op == 1 || op == 3), Form::G32, VA::Ss, zt, pg, m_xz_spec(
                rn,
                zm,
                VA::Ss,
                gmod_ext(b22, false),
                gmod_amount(b21 == 1, msz),
            ))
        }
    } else if op == 6 {
        if zm != 0b11111 {
            prf_insn(prf_spec(msz), Form::Ss, zt, pg, m_ss_spec(rn, zm, msz as u8))
        } else {
            None
        }
    } else if op == 7 {
        prf_insn(prf_spec(msz), Form::Vi, zt, pg, m_vi_spec(rn, VA::Ss, vimm))
    } else if gather32_reserved(msz, op == 4) {
        None
    } else {
        ld_insn(ldnt1_spec(msz, op == 4), Form::Vs, VA::Ss, zt, pg, m_vs_spec(rn, VA::Ss, zm))
    }
}

/// 32-bit-element gather quadrant (0x84/0x85). Offsets are always 32-bit
/// unpacked (`uxtw`/`sxtw`); `b22==1, op>=4` is the LD1R* broadcast region.
fn decode_gather_32(word: u32, msz: u32, b22: u32, b21: u32, op: u32, pg: u32, rn: u32, zt: u32, rm: u32, zm: u32, dst: VA, out: &mut Instruction)
    requires
        old(out).is_blank(),
        msz == field(word, 23, 2),
        b22 == field(word, 22, 1),
        b21 == field(word, 21, 1),
        op == field(word, 13, 3),
        pg == field(word, 10, 3),
        rn == field(word, 5, 5),
        zt == field(word, 0, 5),
        rm == field(word, 16, 5),
        zm == field(word, 16, 5),
        dst == VA::Ss,
        msz <= 3,
        b22 <= 1,
        b21 <= 1,
        op <= 7,
    ensures
        decode_post(*old(out), *final(out)),
        yields(*old(out), *final(out), gather32_form(word)),
{
    // Region 10/11, op>=4: LD1R* broadcast.
    if b22 == 1 && op >= 4 {
        decode_ld1r(word, out);
        return;
    }
    // PRF scalar+vec (only msz==0) at region 01/11, op0-3.
    if msz == 0 && b21 == 1 && op < 4 {
        let (ext, amt): (ExtendType, u8) = gmod(b22, false, op > 0, op);
        prf(out, prf_mnem(op), Form::G32, zt, pg, m_xz(rn, zm, dst, ext, amt));
        return;
    }
    // Vector+imm gather: region 01 op4-7 (region 11 op>=4 handled as LD1R above).
    if b21 == 1 && op >= 4 {
        let ff = op == 5 || op == 7;
        let signed = op == 4 || op == 5;
        // A 64-bit-element load into a `.s` vector is reserved → UNDEFINED.
        if gather32_load_reserved(msz, signed) {
            return;
        }
        let m = gather_mnem(msz, signed, ff);
        let imm: i32 = scaled(bits(word, 16, 5) as i32, msz_bytes(msz));
        ld(out, m, Form::Vi, dst, zt, pg, m_vi(rn, dst, imm));
        return;
    }
    // Scalar+vec gather op0-3 (xs=b22, scaled=b21).
    if op <= 3 {
        let ff = op == 1 || op == 3;
        let signed = op == 0 || op == 1;
        // A 64-bit-element load into a `.s` vector is reserved → UNDEFINED.
        if gather32_load_reserved(msz, signed) {
            return;
        }
        let m = gather_mnem(msz, signed, ff);
        let (ext, amt): (ExtendType, u8) = gmod(b22, false, b21 == 1, msz);
        ld(out, m, Form::G32, dst, zt, pg, m_xz(rn, zm, dst, ext, amt));
        return;
    }
    // Region 00, op4-7: LDNT1 (vector base) op4/5, PRF scalar+scalar op6, PRF vec+imm op7.
    if op == 6 {
        // PRF scalar+scalar: `Xm == 31` (xzr) is the no-offset immediate form
        // → UNDEFINED (same reservation as the contiguous ld/st ss forms).
        if rm != 0b11111 {
            prf(out, prf_mnem(msz), Form::Ss, zt, pg, m_ss(rn, rm, msz as u8));
        }
    } else if op == 7 {
        let imm: i32 = scaled(bits(word, 16, 5) as i32, msz_bytes(msz));
        prf(out, prf_mnem(msz), Form::Vi, zt, pg, m_vi(rn, dst, imm));
    } else {
        // Vector-base `LDNT1*` into a `.s` vector: a 64-bit-element load is
        // reserved → UNDEFINED (`LDNT1D` msz==3, `LDNT1SW` signed word).
        if gather32_load_reserved(msz, op == 4) {
            return;
        }
        let m = ldnt1_mnem(msz, op == 4);
        ld(out, m, Form::Vs, dst, zt, pg, m_vs(rn, dst, rm));
    }
}

/// The instruction a 64-bit-element gather word (`0xC4`/`0xC5`) encodes, or
/// `None`. The offsets are 32-bit unpacked (`op` 0-3) or 64-bit packed
/// (`op` 4-7 with `<22>=1`); PRF takes the `msz == 00` slots.
pub open spec fn gather64_form(word: u32) -> Option<(Code, Mnemonic, Seq<Operand>)> {
    let msz = field(word, 23, 2);
    let b22 = field(word, 22, 1);
    let b21 = field(word, 21, 1);
    let op = field(word, 13, 3);
    let pg = field(word, 10, 3);
    let rn = field(word, 5, 5);
    let zt = field(word, 0, 5);
    let zm = field(word, 16, 5);
    let vimm = (field(word, 16, 5) * msz_bytes_spec(msz)) as i32;
    if msz == 0 && op < 4 && b21 == 1 {
        prf_insn(prf_spec(op), Form::G64, zt, pg, m_xz_spec(rn, zm, VA::Sd, gmod_ext(b22, false), gmod_amount(true, op)))
    } else if msz == 0 && op >= 4 && b22 == 1 && b21 == 1 {
        let sz = (op - 4) as u32;
        prf_insn(prf_spec(sz), Form::G64, zt, pg, m_xz_spec(rn, zm, VA::Sd, gmod_ext(0, true), gmod_amount(sz > 0, sz)))
    } else if msz == 0 && op == 7 && b22 == 0 && b21 == 0 {
        prf_insn(Mnemonic::Prfb, Form::Vi, zt, pg, m_vi_spec(rn, VA::Sd, field(word, 16, 5) as i32))
    } else if op <= 3 {
        ld_insn(gather_mnem_spec(msz, op == 0 || op == 1, op == 1 || op == 3), Form::G64, VA::Sd, zt, pg, m_xz_spec(
            rn,
            zm,
            VA::Sd,
            gmod_ext(b22, false),
            gmod_amount(b21 == 1, msz),
        ))
    } else if b22 == 0 && b21 == 0 {
        if op == 7 {
            prf_insn(prf_spec(msz), Form::Vi, zt, pg, m_vi_spec(rn, VA::Sd, vimm))
        } else if op == 4 || op == 6 {
            ld_insn(ldnt1_spec(msz, op == 4), Form::Vs, VA::Sd, zt, pg, m_vs_spec(rn, VA::Sd, zm))
        } else {
            None
        }
    } else if b22 == 0 {
        ld_insn(gather_mnem_spec(msz, op == 4 || op == 5, op == 5 || op == 7), Form::Vi, VA::Sd, zt, pg, m_vi_spec(rn, VA::Sd, vimm))
    } else {
        ld_insn(gather_mnem_spec(msz, op == 4 || op == 5, op == 5 || op == 7), Form::G64, VA::Sd, zt, pg, m_xz_spec(
            rn,
            zm,
            VA::Sd,
            gmod_ext(0, true),
            gmod_amount(b21 == 1, msz),
        ))
    }
}

/// 64-bit-element gather quadrant (0xC4/0xC5). Offsets are 32-bit unpacked
/// (`uxtw`/`sxtw`, op0-3) or 64-bit packed (`lsl`/none, op4-7 regions
/// 10/11). PRF occupies `msz==0` slots.
fn decode_gather_64(word: u32, msz: u32, b22: u32, b21: u32, op: u32, pg: u32, rn: u32, zt: u32, rm: u32, zm: u32, dst: VA, out: &mut Instruction)
    requires
        old(out).is_blank(),
        msz == field(word, 23, 2),
        b22 == field(word, 22, 1),
        b21 == field(word, 21, 1),
        op == field(word, 13, 3),
        pg == field(word, 10, 3),
        rn == field(word, 5, 5),
        zt == field(word, 0, 5),
        rm == field(word, 16, 5),
        zm == field(word, 16, 5),
        dst == VA::Sd,
        msz <= 3,
        b22 <= 1,
        b21 <= 1,
        op <= 7,
    ensures
        decode_post(*old(out), *final(out)),
        yields(*old(out), *final(out), gather64_form(word)),
{
    // PRF scalar+vec op0-3 (msz==0, region 01 uxtw# / region 11 sxtw#).
    if msz == 0 && op < 4 && b21 == 1 {
        let (ext, amt): (ExtendType, u8) = gmod(b22, false, true, op);
        prf(out, prf_mnem(op), Form::G64, zt, pg, m_xz(rn, zm, dst, ext, amt));
        return;
    }
    // PRF op4-7 region 11 (64-bit packed: plain/lsl).
    if msz == 0 && op >= 4 && b22 == 1 && b21 == 1 {
        let sz: u32 = op - 4;
        let (ext, amt): (ExtendType, u8) = gmod(0, true, sz > 0, sz);
        prf(out, prf_mnem(sz), Form::G64, zt, pg, m_xz(rn, zm, dst, ext, amt));
        return;
    }
    // PRF vec+imm op7 region 00 (prfb only, msz==0).
    if msz == 0 && op == 7 && b22 == 0 && b21 == 0 {
        let imm: i32 = bits(word, 16, 5) as i32;
        prf(out, Mnemonic::Prfb, Form::Vi, zt, pg, m_vi(rn, dst, imm));
        return;
    }
    // Gather scalar+vec op0-3 (32-bit unpacked: xs=b22, scaled=b21).
    if op <= 3 {
        let ff = op == 1 || op == 3;
        let signed = op == 0 || op == 1;
        let m = gather_mnem(msz, signed, ff);
        let (ext, amt): (ExtendType, u8) = gmod(b22, false, b21 == 1, msz);
        ld(out, m, Form::G64, dst, zt, pg, m_xz(rn, zm, dst, ext, amt));
        return;
    }
    // op4-7:
    if b22 == 0 && b21 == 0 {
        // Region 00: LDNT1 (vector base) op4/6, PRF vec+imm op7 (msz>0).
        if op == 7 {
            let imm: i32 = scaled(bits(word, 16, 5) as i32, msz_bytes(msz));
            prf(out, prf_mnem(msz), Form::Vi, zt, pg, m_vi(rn, dst, imm));
        } else if op == 4 || op == 6 {
            let m = ldnt1_mnem(msz, op == 4);
            ld(out, m, Form::Vs, dst, zt, pg, m_vs(rn, dst, rm));
        }
        return;
    }
    if b22 == 0 && b21 == 1 {
        // Region 01: vector+imm gather op4-7.
        let ff = op == 5 || op == 7;
        let signed = op == 4 || op == 5;
        let m = gather_mnem(msz, signed, ff);
        let imm: i32 = scaled(bits(word, 16, 5) as i32, msz_bytes(msz));
        ld(out, m, Form::Vi, dst, zt, pg, m_vi(rn, dst, imm));
        return;
    }
    // Region 10/11 op4-7: 64-bit packed offset (plain b21==0 / lsl b21==1).
    let ff = op == 5 || op == 7;
    let signed = op == 4 || op == 5;
    let m = gather_mnem(msz, signed, ff);
    let (ext, amt): (ExtendType, u8) = gmod(0, true, b21 == 1, msz);
    ld(out, m, Form::G64, dst, zt, pg, m_xz(rn, zm, dst, ext, amt));
}

/// The instruction an LD1R broadcast word encodes, or `None`:
/// `[<Xn|SP>{, #imm}]` with `imm = imm6 * mem_size`.
pub open spec fn ld1r_form(word: u32) -> Option<(Code, Mnemonic, Seq<Operand>)> {
    match ld1r_entry_spec((field(word, 23, 2) * 8 + field(word, 13, 3)) as u32) {
        Some(e) => ld_insn(e.0, Form::Imm, e.1, field(word, 0, 5), field(word, 10, 3), m_imm_hex_spec(
            field(word, 5, 5),
            (field(word, 16, 6) * ld1r_scale_spec(e.0)) as i32,
        )),
        None => None,
    }
}

/// LD1R* broadcast (scalar + immediate). The immediate is `imm6 * mem_size`.
fn decode_ld1r(word: u32, out: &mut Instruction)
    requires
        old(out).is_blank(),
    ensures
        decode_post(*old(out), *final(out)),
        yields(*old(out), *final(out), ld1r_form(word)),
{
    let key: u32 = bits(word, 23, 2) * 8 + bits(word, 13, 3);
    let (m, a) = match ld1r_entry(key) {
        Some(v) => v,
        None => return,
    };
    let imm: i32 = scaled(bits(word, 16, 6) as i32, ld1r_scale(m));
    ld(out, m, Form::Imm, a, bits(word, 0, 5), bits(word, 10, 3), m_imm_hex(bits(word, 5, 5), imm));
}

// ===========================================================================
// LDR / STR (vector & predicate register).
// ===========================================================================

/// The instruction an `LDR`/`STR` (vector or predicate) word encodes, or
/// `None` (a predicate transfer with `word<4>` set).
pub open spec fn ldr_str_form(word: u32, store: bool) -> Option<(Code, Mnemonic, Seq<Operand>)> {
    let addr = m_mulvl_spec(field(word, 5, 5), sext_spec((field(word, 16, 6) * 8 + field(word, 10, 3)) as u64, 9) as i32);
    let m = if store { Mnemonic::Str } else { Mnemonic::Ldr };
    if field(word, 14, 1) == 1 {
        Some((
            if store { Code::SveStrZ } else { Code::SveLdrZ },
            m,
            seq![reg_op(reg_of(RegKind::Z, field(word, 0, 5), 0x1f), None, None, None), addr],
        ))
    } else if field(word, 4, 1) == 1 {
        None
    } else {
        Some((if store { Code::SveStrP } else { Code::SveLdrP }, m, seq![preg_spec(field(word, 0, 4)), addr]))
    }
}

/// `LDR`/`STR` of a `Z` (vector) or `P` (predicate) register:
/// `[<Xn|SP>{, #imm, MUL VL}]`. `word<14>` selects `Z`(1)/`P`(0); the 9-bit
/// VL-scaled immediate is `word<21:16>:word<12:10>`.
fn decode_ldr_str(word: u32, out: &mut Instruction, store: bool)
    requires
        old(out).is_blank(),
    ensures
        decode_post(*old(out), *final(out)),
        yields(*old(out), *final(out), ldr_str_form(word, store)),
{
    let rn: u32 = bits(word, 5, 5);
    let imm9: i32 = sign_extend((bits(word, 16, 6) * 8 + bits(word, 10, 3)) as u64, 9) as i32;
    let addr = m_mulvl(rn, imm9);
    let m = if store { Mnemonic::Str } else { Mnemonic::Ldr };
    if bits(word, 14, 1) == 1 {
        let code = if store { Code::SveStrZ } else { Code::SveLdrZ };
        install2_as(out, code, m, zbare(bits(word, 0, 5)), addr);
    } else {
        // Predicate register transfer: the target is `Pt<3:0>`; `word<4>` is
        // RES0 and any non-zero value there is UNDEFINED.
        if bits(word, 4, 1) == 1 {
            return;
        }
        let code = if store { Code::SveStrP } else { Code::SveLdrP };
        install2_as(out, code, m, preg(bits(word, 0, 4)), addr);
    }
}


/// The extend of an addressing operand, when it is one.
pub open spec fn addr_extend(o: Operand) -> Option<ExtendType> {
    match o {
        Operand::SveMem { extend, .. } => Some(extend),
        _ => None,
    }
}

/// An ST1 scatter with 32-bit offsets in 64-bit elements or words (store top
/// byte, `<15:13> = 1:xs:0`) sign-extends its offsets (SXTW) exactly when
/// `xs = <14>` is set, and zero-extends them (UXTW) when it is clear.
pub proof fn lemma_scatter_offset_extend(word: u32, features: FeatureSet)
    requires
        field(word, 24, 8) == 0xe4 || field(word, 24, 8) == 0xe5,
        field(word, 15, 1) == 1,
        field(word, 13, 1) == 0,
    ensures
        mem_form(word, features) matches Some(f) ==> f.2.len() == 3 && addr_extend(f.2[2]) == Some(
            if field(word, 14, 1) == 1 {
                ExtendType::Sxtw
            } else {
                ExtendType::Uxtw
            },
        ),
        mem_form(word, features) matches Some(f) ==> f.1 == st1_spec(field(word, 23, 2)),
{
    crate::bits::lemma_field3_bits(word, 13);
}

} // verus!
