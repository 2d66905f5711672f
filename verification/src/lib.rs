//! A64 SVE/SME instruction decoding.
use vstd::prelude::*;

pub mod bits;
pub mod code;
pub mod decoder;
pub mod decode;
pub mod error;
pub mod features;
pub mod format;
pub mod fpimm;
pub mod instruction;
pub mod operand;
pub mod types;

verus! {
}

pub use code::{Code, Mnemonic};
pub use decoder::{Decoder, DecoderIntoIter, DecoderIter, DecoderOptions, INSN_LEN};
pub use error::DecodeError;
pub use features::{Feature, FeatureSet};
pub use format::FmtFormatter;
pub use instruction::Instruction;
