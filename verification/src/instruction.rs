//! The decoded instruction.
use vstd::prelude::*;
use crate::code::{code_mnemonic, default_mnemonic, Code, Mnemonic};
use crate::operand::Operand;

verus! {

/// The most operands an instruction carries.
pub const MAX_OPERANDS: usize = 6;

/// A decoded instruction: its identity, its mnemonic, its operands and the
/// address it was decoded at.
#[derive(Clone, Copy, Debug)]
pub struct Instruction {
    pub code: Code,
    pub mnemonic: Mnemonic,
    pub ops: [Operand; 6],
    pub len: usize,
    pub ip: u64,
}

impl Instruction {
    /// The address the instruction was decoded at.
    pub open spec fn ip_spec(self) -> u64 {
        self.ip
    }

    /// The operands, in order.
    pub open spec fn operands(self) -> Seq<Operand> {
        self.ops@.take(self.len as int)
    }

    /// The invariant: at most [`MAX_OPERANDS`] operands are in use.
    pub open spec fn wf(self) -> bool {
        self.len <= MAX_OPERANDS
    }

    /// An undecoded instruction: code `Invalid`, mnemonic `Invalid`, no
    /// operands.
    pub open spec fn is_blank(self) -> bool {
        &&& self.code == Code::Invalid
        &&& self.mnemonic == Mnemonic::Invalid
        &&& self.len == 0
    }

    /// `a` and `b` hold the same instruction (the unused operand slots aside).
    pub open spec fn same(a: Instruction, b: Instruction) -> bool {
        &&& a.code == b.code
        &&& a.mnemonic == b.mnemonic
        &&& a.operands() == b.operands()
        &&& a.len == b.len
        &&& a.ip == b.ip
    }

    /// A blank instruction at address 0.
    pub fn new() -> (r: Instruction)
        ensures
            r.is_blank(),
            r.wf(),
            r.ip_spec() == 0,
            r.operands() == Seq::<Operand>::empty(),
    {
        Instruction {
            code: Code::Invalid,
            mnemonic: Mnemonic::Invalid,
            ops: [Operand::Empty, Operand::Empty, Operand::Empty, Operand::Empty, Operand::Empty, Operand::Empty],
            len: 0,
            ip: 0,
        }
    }

    /// Set the identity; the mnemonic becomes the code's own spelling.
    pub fn set(&mut self, code: Code)
        ensures
            final(self).code == code,
            final(self).mnemonic == code_mnemonic(code),
            
            final(self).ops == old(self).ops,
            final(self).len == old(self).len,
            final(self).ip == old(self).ip,
    {
        self.code = code;
        self.mnemonic = default_mnemonic(code);
        
    }

    /// Choose the preferred alias spelling.
    pub fn set_mnemonic(&mut self, m: Mnemonic)
        ensures
            final(self).mnemonic == m,
            final(self).code == old(self).code,
            final(self).ops == old(self).ops,
            final(self).len == old(self).len,
            final(self).ip == old(self).ip,
    {
        self.mnemonic = m;
    }

    /// Record the decode address.
    pub fn set_ip(&mut self, ip: u64)
        ensures
            final(self).ip == ip,
            final(self).code == old(self).code,
            final(self).mnemonic == old(self).mnemonic,
            final(self).ops == old(self).ops,
            final(self).len == old(self).len,
    {
        self.ip = ip;
    }

    /// Append an operand.
    pub fn push_operand(&mut self, op: Operand)
        requires
            old(self).len < MAX_OPERANDS,
        ensures
            final(self).operands() == old(self).operands().push(op),
            final(self).len == old(self).len + 1,
            final(self).code == old(self).code,
            final(self).mnemonic == old(self).mnemonic,
            final(self).ip == old(self).ip,
    {
        let i = self.len;
        self.ops[i] = op;
        self.len = i + 1;
        assert(self.operands() =~= old(self).operands().push(op));
    }

    /// The identity of the instruction.
    pub fn code(&self) -> (c: Code)
        ensures
            c == self.code,
    {
        self.code
    }

    /// The mnemonic of the instruction.
    pub fn mnemonic(&self) -> (m: Mnemonic)
        ensures
            m == self.mnemonic,
    {
        self.mnemonic
    }

    /// The address the instruction was decoded at.
    pub fn ip(&self) -> (r: u64)
        ensures
            r == self.ip,
    {
        self.ip
    }

    /// The number of operands.
    pub fn op_count(&self) -> (n: usize)
        ensures
            n == self.len,
    {
        self.len
    }

    /// The operand at `i`, or `Operand::Empty` past the end.
    pub fn operand(&self, i: usize) -> (op: Operand)
        requires
            self.wf(),
        ensures
            i < self.len ==> op == self.operands()[i as int],
            i >= self.len ==> op == Operand::Empty,
    {
        if i < self.len {
            self.ops[i]
        } else {
            Operand::Empty
        }
    }

    /// `true` iff no instruction was decoded.
    pub fn is_invalid(&self) -> (r: bool)
        ensures
            r == (self.code == Code::Invalid),
    {
        self.code == Code::Invalid
    }
}

impl Default for Instruction {
    fn default() -> (r: Instruction)
        ensures
            r.is_blank(),
            r.wf(),
            r.ip_spec() == 0,
    {
        Instruction::new()
    }
}

} // verus!
