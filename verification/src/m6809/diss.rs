//! The disassembly of 6809 instructions. The four instructions that push and pull registers
//! are written here, from their postbyte; every other instruction is written as the
//! disassembler of the `emu6809` crate writes it, which the caller hands in.
use crate::m6809::isa::Insn;
use crate::text::{hex_bytes, hex_bytes_string, push_str};
use vstd::prelude::*;

verus! {

/// `name` and a space when the postbyte `rs` has `bit` set; nothing otherwise.
pub open spec fn reg_if(rs: u8, bit: u8, name: Seq<char>) -> Seq<char> {
    if rs & bit != 0 {
        name + " "@
    } else {
        Seq::empty()
    }
}

/// The registers that the postbyte `rs` of a push or pull selects, in the order the
/// disassembler lists them, each followed by a space. `other_stack` names the stack pointer
/// that the instruction does not use.
pub open spec fn reg_list(rs: u8, other_stack: Seq<char>) -> Seq<char> {
    reg_if(rs, 0x01, "cc"@) + reg_if(rs, 0x02, "a"@) + reg_if(rs, 0x04, "b"@) + reg_if(
        rs,
        0x08,
        "dp"@,
    ) + reg_if(rs, 0x10, "x"@) + reg_if(rs, 0x20, "y"@) + reg_if(rs, 0x40, other_stack) + reg_if(
        rs,
        0x80,
        "pc"@,
    )
}

/// A push or pull instruction as the disassembler writes it: its name, a space, and its
/// register list.
pub open spec fn stack_op(name: Seq<char>, rs: u8, other_stack: Seq<char>) -> Seq<char> {
    name + " "@ + reg_list(rs, other_stack)
}

/// The disassembly of the instruction held in `b`; `decoded` is what the disassembler of the
/// `emu6809` crate writes for it.
pub open spec fn dasm(b: Seq<u8>, decoded: Seq<char>) -> Seq<char> {
    if b[0] == 0x34 {
        stack_op("pshs"@, b[1], "u"@)
    } else if b[0] == 0x35 {
        stack_op("puls"@, b[1], "u"@)
    } else if b[0] == 0x36 {
        stack_op("pshu"@, b[1], "s"@)
    } else if b[0] == 0x37 {
        stack_op("pulu"@, b[1], "s"@)
    } else {
        decoded
    }
}

/// Appends `name` and a space when `rs` has `bit` set.
fn push_reg_if(s: &mut String, rs: u8, bit: u8, name: &str)
    ensures
        final(s)@ == old(s)@ + reg_if(rs, bit, name@),
{
    if rs & bit != 0 {
        push_str(s, name);
        push_str(s, " ");
    } else {
        assert(old(s)@ + Seq::<char>::empty() =~= old(s)@);
    }
}

/// Writes a push or pull instruction.
fn write_stack_op(name: &str, rs: u8, other_stack: &str) -> (r: String)
    ensures
        r@ == stack_op(name@, rs, other_stack@),
{
    let mut s = String::new();
    push_str(&mut s, name);
    push_str(&mut s, " ");
    push_reg_if(&mut s, rs, 0x01, "cc");
    push_reg_if(&mut s, rs, 0x02, "a");
    push_reg_if(&mut s, rs, 0x04, "b");
    push_reg_if(&mut s, rs, 0x08, "dp");
    push_reg_if(&mut s, rs, 0x10, "x");
    push_reg_if(&mut s, rs, 0x20, "y");
    push_reg_if(&mut s, rs, 0x40, other_stack);
    push_reg_if(&mut s, rs, 0x80, "pc");
    assert(s@ =~= stack_op(name@, rs, other_stack@));
    s
}

impl Insn {
    /// The disassembly of the instruction. The instructions that push and pull registers are
    /// written from their postbyte; any other is written as `decoded`, the text that the
    /// disassembler of the `emu6809` crate gives for it.
    pub fn to_string(&self, decoded: &str) -> (r: String)
        ensures
            r@ == dasm(self.bytes(), decoded@),
    {
        if self.0[0] == 0x34 {
            write_stack_op("pshs", self.0[1], "u")
        } else if self.0[0] == 0x35 {
            write_stack_op("puls", self.0[1], "u")
        } else if self.0[0] == 0x36 {
            write_stack_op("pshu", self.0[1], "s")
        } else if self.0[0] == 0x37 {
            write_stack_op("pulu", self.0[1], "s")
        } else {
            decoded.to_string()
        }
    }

    /// The machine code of the instruction in hexadecimal, a byte at a time, separated by
    /// spaces. `size` is the length of the instruction as the decoder of the `emu6809` crate
    /// gives it.
    pub fn debug_string(&self, size: usize) -> (r: String)
        requires
            size <= 5,
        ensures
            r@ == hex_bytes(self.bytes().take(size as int)),
    {
        hex_bytes_string(&self.encode(size))
    }
}

} // verus!
