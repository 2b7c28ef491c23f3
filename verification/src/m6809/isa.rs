//! Module for representing and working with Motorola 6809 machine instructions.
use vstd::prelude::*;

verus! {

/// Whether bytes `0..=offset` of `b` are all 0xff, so that incrementing them would overflow.
pub open spec fn all_ff(b: Seq<u8>, offset: int) -> bool {
    forall|j: int| 0 <= j <= offset ==> b[j] == 0xff
}

/// `b` with the big-endian number in bytes `0..=offset` incremented by one; later bytes are
/// left alone.
pub open spec fn incr_bytes(b: Seq<u8>, offset: int) -> Seq<u8>
    decreases offset + 1,
{
    if offset < 0 {
        b
    } else if b[offset] < 0xff {
        b.update(offset, (b[offset] + 1) as u8)
    } else {
        incr_bytes(b.update(offset, 0), offset - 1)
    }
}

/// The big-endian number held in the first `n` bytes of `b`.
pub open spec fn be_prefix(b: Seq<u8>, n: int) -> int
    decreases n,
{
    if n <= 0 {
        0
    } else {
        be_prefix(b, n - 1) * 256 + b[n - 1]
    }
}

/// The number of values that `n` bytes can hold.
pub open spec fn pow256(n: int) -> int
    decreases n,
{
    if n <= 0 {
        1
    } else {
        pow256(n - 1) * 256
    }
}

/// Two sequences agree on the first `n` bytes.
pub open spec fn same_prefix(a: Seq<u8>, b: Seq<u8>, n: int) -> bool {
    forall|j: int| 0 <= j < n ==> a[j] == b[j]
}

proof fn lemma_be_prefix_same(a: Seq<u8>, b: Seq<u8>, n: int)
    requires
        same_prefix(a, b, n),
    ensures
        be_prefix(a, n) == be_prefix(b, n),
    decreases n,
{
    if n > 0 {
        lemma_be_prefix_same(a, b, n - 1);
    }
}

/// Incrementing bytes `0..=offset` adds one to the big-endian number they hold, and leaves the
/// length and every later byte unchanged.
pub proof fn lemma_incr_bytes(b: Seq<u8>, offset: int)
    requires
        0 <= offset < b.len(),
        !all_ff(b, offset),
    ensures
        incr_bytes(b, offset).len() == b.len(),
        be_prefix(incr_bytes(b, offset), offset + 1) == be_prefix(b, offset + 1) + 1,
        forall|j: int| offset < j < b.len() ==> #[trigger] incr_bytes(b, offset)[j] == b[j],
    decreases offset,
{
    if b[offset] < 0xff {
        let c = b.update(offset, (b[offset] + 1) as u8);
        assert(same_prefix(c, b, offset));
        lemma_be_prefix_same(c, b, offset);
    } else {
        let c = b.update(offset, 0);
        if offset == 0 {
            assert(all_ff(b, offset));
        } else {
            assert(!all_ff(c, offset - 1)) by {
                if all_ff(c, offset - 1) {
                    assert forall|j: int| 0 <= j <= offset implies b[j] == 0xff by {
                        if j < offset {
                            assert(c[j] == 0xff);
                        }
                    }
                }
            }
            lemma_incr_bytes(c, offset - 1);
            assert(same_prefix(c, b, offset));
            lemma_be_prefix_same(c, b, offset);
            let d = incr_bytes(c, offset - 1);
            assert(d[offset] == 0);
        }
    }
}

/// Incrementing bytes `0..=offset` never changes the length or a later byte, and the byte at
/// `offset` goes up by one or wraps round to zero.
pub proof fn lemma_incr_bytes_frame(b: Seq<u8>, offset: int)
    requires
        offset < b.len(),
    ensures
        incr_bytes(b, offset).len() == b.len(),
        forall|j: int| offset < j < b.len() ==> #[trigger] incr_bytes(b, offset)[j] == b[j],
        0 <= offset ==> incr_bytes(b, offset)[offset] == (if b[offset] < 0xff {
            (b[offset] + 1) as u8
        } else {
            0u8
        }),
    decreases offset + 1,
{
    if offset >= 0 && b[offset] == 0xff {
        lemma_incr_bytes_frame(b.update(offset, 0), offset - 1);
    }
}

/// Whether the range `lo..=hi` holds `b`.
pub open spec fn in_range(b: u8, lo: u8, hi: u8) -> bool {
    lo <= b <= hi
}

/// The index postbyte after the runs of unused postbytes have been skipped (before any carry into
/// the byte before it).
pub open spec fn postbyte_skip(b: u8) -> u8 {
    let b = if in_range(b, 0x87, 0x8f) { 0x90u8 } else { b };
    let b = if in_range(b, 0x97, 0x9f) { 0x9fu8 } else { b };
    let b = if in_range(b, 0xa7, 0xaf) { 0xb0u8 } else { b };
    let b = if in_range(b, 0xb7, 0xbf) { 0xc0u8 } else { b };
    let b = if in_range(b, 0xc7, 0xcf) { 0xd0u8 } else { b };
    let b = if in_range(b, 0xd7, 0xdf) { 0xe0u8 } else { b };
    if in_range(b, 0xe7, 0xef) { 0xf0u8 } else { b }
}

/// The bytes after the index postbyte at `offset` has been fixed up: unused postbytes are
/// skipped, and one past 0xf6 becomes zero with a carry into the bytes before it.
pub open spec fn postbyte_fixed(b: Seq<u8>, offset: int) -> Seq<u8> {
    let p = postbyte_skip(b[offset]);
    if p > 0xf6 {
        incr_bytes(b.update(offset, p), offset - 1).update(offset, 0)
    } else {
        b.update(offset, p)
    }
}

/// Whether a transfer/exchange postbyte names an invalid register in its low nibble.
pub open spec fn tfr_nibble_invalid(o: u8) -> bool {
    let n = o & 0x0f;
    n == 0x06 || n == 0x07 || n == 0x0c || n == 0x0d || n == 0x0e || n == 0x0f
}

/// Whether a transfer/exchange postbyte must be skipped: its two registers differ in width, or
/// one of them is invalid.
pub open spec fn tfr_bad(o: u8) -> bool {
    ((o & 0x08 == 0) != ((o >> 4u8) & 0x08 == 0)) || tfr_nibble_invalid(o) || tfr_nibble_invalid(
        o >> 4u8,
    )
}

/// The transfer/exchange postbyte at `offset` after it has been stepped (carrying into the bytes
/// before it) until it names two registers of the same width, both valid.
pub open spec fn tfr_fixed(b: Seq<u8>, offset: int) -> Seq<u8>
    decreases (256 - b[offset]) % 256,
{
    if !(1 <= offset < b.len()) || !tfr_bad(b[offset]) || all_ff(b, offset) {
        b
    } else {
        proof {
            lemma_tfr_bad_not_zero(b[offset]);
            lemma_incr_bytes_frame(b, offset);
        }
        tfr_fixed(incr_bytes(b, offset), offset)
    }
}

/// A transfer postbyte that must be skipped is never zero, and zero is never skipped.
pub proof fn lemma_tfr_bad_not_zero(o: u8)
    ensures
        tfr_bad(o) ==> o != 0,
        !tfr_bad(0),
{
    assert(!tfr_bad(0)) by (bit_vector);
}

/// Walking the ascending list `ops` (from index `i`) for the byte at `pos`: the first opcode not
/// below the byte is put in place. Gives the bytes and whether such an opcode was found.
pub open spec fn list_walk(b: Seq<u8>, ops: Seq<u8>, pos: int, i: int) -> (Seq<u8>, bool)
    decreases ops.len() - i,
{
    if i < 0 || i >= ops.len() {
        (b, false)
    } else if b[pos] <= ops[i] {
        (b.update(pos, ops[i]), true)
    } else {
        list_walk(b, ops, pos, i + 1)
    }
}

/// Walking the ascending list `ops` (from index `i`) of opcodes for the byte at `pos` that take
/// an index postbyte at `pos + 1`: the first opcode not below the byte is put in place and its
/// postbyte fixed up; if that carried into the opcode, the walk goes on from the next opcode.
/// Gives the bytes and whether the walk stopped on an opcode.
pub open spec fn postbyte_walk(b: Seq<u8>, ops: Seq<u8>, pos: int, i: int) -> (Seq<u8>, bool)
    decreases ops.len() - i,
{
    if i < 0 || i >= ops.len() {
        (b, false)
    } else if b[pos] > ops[i] {
        postbyte_walk(b, ops, pos, i + 1)
    } else {
        let c = postbyte_fixed(b.update(pos, ops[i]), pos + 1);
        if c[pos] == ops[i] {
            (c, true)
        } else {
            postbyte_walk(c, ops, pos, i + 1)
        }
    }
}

/// Walking the opcodes `ops` (from index `i`) that take a transfer/exchange postbyte at byte 1.
pub open spec fn tfr_walk(b: Seq<u8>, ops: Seq<u8>, i: int) -> (Seq<u8>, bool)
    decreases ops.len() - i,
{
    if i < 0 || i >= ops.len() {
        (b, false)
    } else if b[0] > ops[i] {
        tfr_walk(b, ops, i + 1)
    } else {
        let c = tfr_fixed(b.update(0, ops[i]), 1);
        if c[0] == ops[i] {
            (c, true)
        } else {
            tfr_walk(c, ops, i + 1)
        }
    }
}

/// A list walk either changes nothing, or puts one of the listed opcodes at `pos`.
pub proof fn lemma_list_walk(b: Seq<u8>, ops: Seq<u8>, pos: int, i: int)
    ensures
        !list_walk(b, ops, pos, i).1 ==> list_walk(b, ops, pos, i).0 == b,
        list_walk(b, ops, pos, i).1 ==> exists|k: int|
            0 <= k < ops.len() && list_walk(b, ops, pos, i).0 == b.update(pos, #[trigger] ops[k]),
    decreases ops.len() - i,
{
    if 0 <= i < ops.len() && b[pos] > ops[i] {
        lemma_list_walk(b, ops, pos, i + 1);
    }
}

/// A walk over second bytes that take an index postbyte never changes the opcode, when every
/// listed second byte is below 0xff.
pub proof fn lemma_postbyte_walk_keeps_opcode(b: Seq<u8>, ops: Seq<u8>, i: int)
    requires
        b.len() == 5,
        forall|k: int| 0 <= k < ops.len() ==> ops[k] < 0xff,
    ensures
        postbyte_walk(b, ops, 1, i).0.len() == 5,
        postbyte_walk(b, ops, 1, i).0[0] == b[0],
    decreases ops.len() - i,
{
    if 0 <= i < ops.len() {
        if b[1] > ops[i] {
            lemma_postbyte_walk_keeps_opcode(b, ops, i + 1);
        } else {
            let u = b.update(1, ops[i]);
            let p = postbyte_skip(u[2]);
            lemma_incr_bytes_frame(u.update(2, p), 1);
            let c = postbyte_fixed(u, 2);
            assert(c[0] == b[0]);
            if c[1] != ops[i] {
                lemma_postbyte_walk_keeps_opcode(c, ops, i + 1);
            }
        }
    }
}

/// Opcodes of the first page that are defined, in the range 0x00..=0x0c.
pub open spec fn page1_low() -> Seq<u8> {
    seq![0x00u8, 0x03, 0x06, 0x0c]
}

/// Second bytes after 0x10 that start the defined runs below 0xa0.
pub open spec fn page2_low() -> Seq<u8> {
    seq![0x21u8, 0x3f, 0x83, 0x8c, 0x8e, 0x93, 0x9c, 0x9e]
}

/// Second bytes after 0x10 in 0xa0..=0xaf that take an index postbyte.
pub open spec fn page2_indexed() -> Seq<u8> {
    seq![0xa3u8, 0xac, 0xae, 0xaf]
}

/// Second bytes after 0x10 that start the defined runs in 0xb0..=0xdf.
pub open spec fn page2_mid() -> Seq<u8> {
    seq![0xb3u8, 0xbc, 0xbe, 0xce, 0xde]
}

/// Second bytes after 0x10 in 0xe0..=0xff that take an index postbyte.
pub open spec fn page2_high_indexed() -> Seq<u8> {
    seq![0xeeu8, 0xef, 0xfe]
}

/// Second bytes after 0x11 that start the defined runs below 0xa0.
pub open spec fn page3_low() -> Seq<u8> {
    seq![0x3fu8, 0x83, 0x8c, 0x93, 0x9c]
}

/// Second bytes after 0x11 in 0xa0..=0xaf that take an index postbyte.
pub open spec fn page3_indexed() -> Seq<u8> {
    seq![0xa3u8, 0xac]
}

/// Second bytes after 0x11 in 0xb0..=0xbf.
pub open spec fn page3_high() -> Seq<u8> {
    seq![0xb3u8, 0xbc]
}

/// Opcodes that start the defined runs in 0x12..=0x1c.
pub open spec fn page1_12() -> Seq<u8> {
    seq![0x16u8, 0x19, 0x1c]
}

/// The transfer and exchange opcodes.
pub open spec fn page1_tfr() -> Seq<u8> {
    seq![0x1eu8, 0x1f]
}

/// The `lea` opcodes, which take an index postbyte.
pub open spec fn page1_lea() -> Seq<u8> {
    seq![0x30u8, 0x31, 0x32, 0x33]
}

/// Opcodes that start the defined runs in 0x38..=0x5f.
pub open spec fn page1_38() -> Seq<u8> {
    seq![0x39u8, 0x3f, 0x43, 0x46, 0x4c, 0x53, 0x56, 0x5c, 0x5f]
}

/// Opcodes in 0x60..=0xaf that take an index postbyte.
pub open spec fn page1_indexed() -> Seq<u8> {
    seq![
        0x60u8, 0x63, 0x64, 0x66, 0x67, 0x68, 0x69, 0x6a, 0x6c, 0x6d, 0x6e, 0x6f, 0x73, 0x76, 0x7c,
        0xa0, 0xa1, 0xa2, 0xa3, 0xa4, 0xa5, 0xa6, 0xa7, 0xa8, 0xa9, 0xaa, 0xab, 0xac, 0xad, 0xae,
        0xaf,
    ]
}

/// Opcodes that start the defined runs in 0xbc..=0xdf.
pub open spec fn page1_bc() -> Seq<u8> {
    seq![0xc8u8, 0xce, 0xd0]
}

/// The opcodes 0xe0..=0xef, which take an index postbyte.
pub open spec fn page1_e0() -> Seq<u8> {
    seq![
        0xe0u8, 0xe1, 0xe2, 0xe3, 0xe4, 0xe5, 0xe6, 0xe7, 0xe8, 0xe9, 0xea, 0xeb, 0xec, 0xed, 0xee,
        0xef,
    ]
}

/// What `fixup` does once the opcode is 0x10 and the second byte is past 0xdf.
pub open spec fn page2_high(b: Seq<u8>) -> Seq<u8> {
    postbyte_walk(b, page2_high_indexed(), 1, 0).0
}

/// What `fixup` does once the opcode is 0x10 and the second byte is past 0xaf.
pub open spec fn page2_mid_on(b: Seq<u8>) -> Seq<u8> {
    let (b, done) = list_walk(b, page2_mid(), 1, 0);
    if done {
        b
    } else {
        page2_high(b)
    }
}

/// What `fixup` does once the opcode is 0x10 and the second byte is past 0x9e.
pub open spec fn page2_indexed_on(b: Seq<u8>) -> Seq<u8> {
    let (b, done) = postbyte_walk(b, page2_indexed(), 1, 0);
    if done {
        b
    } else {
        page2_mid_on(b)
    }
}

/// What `fixup` does once the opcode is 0x10: the second byte is moved to the next defined
/// instruction of that page (fixing up its postbyte where it has one).
pub open spec fn fixup_page2(b: Seq<u8>) -> Seq<u8> {
    let (b, done) = list_walk(b, page2_low(), 1, 0);
    if done {
        b
    } else {
        page2_indexed_on(b)
    }
}

/// What `fixup` does for opcodes from 0xe0 onwards: an opcode of that page takes an index
/// postbyte.
pub open spec fn rest_e0(b: Seq<u8>) -> Seq<u8> {
    let (b, done) = list_walk(b, page1_e0(), 0, 0);
    if done {
        postbyte_fixed(b, 1)
    } else {
        b
    }
}

/// What `fixup` does for opcodes from 0xb0 onwards.
pub open spec fn rest_bc(b: Seq<u8>) -> Seq<u8> {
    let (b, done) = list_walk(b, page1_bc(), 0, 0);
    if done {
        b
    } else {
        rest_e0(b)
    }
}

/// What `fixup` does for opcodes from 0x60 onwards.
pub open spec fn rest_indexed(b: Seq<u8>) -> Seq<u8> {
    let (b, done) = postbyte_walk(b, page1_indexed(), 0, 0);
    if done {
        b
    } else {
        rest_bc(b)
    }
}

/// What `fixup` does for opcodes from 0x34 onwards.
pub open spec fn rest_38(b: Seq<u8>) -> Seq<u8> {
    let (b, done) = list_walk(b, page1_38(), 0, 0);
    if done {
        b
    } else {
        rest_indexed(b)
    }
}

/// What `fixup` does for opcodes from 0x20 onwards.
pub open spec fn rest_lea(b: Seq<u8>) -> Seq<u8> {
    let (b, done) = postbyte_walk(b, page1_lea(), 0, 0);
    if done {
        b
    } else {
        rest_38(b)
    }
}

/// What `fixup` does for opcodes from 0x1d onwards.
pub open spec fn rest_tfr(b: Seq<u8>) -> Seq<u8> {
    let (b, done) = tfr_walk(b, page1_tfr(), 0);
    if done {
        b
    } else {
        rest_lea(b)
    }
}

/// What `fixup` does for opcodes from 0x12 onwards.
pub open spec fn fixup_page1_rest(b: Seq<u8>) -> Seq<u8> {
    let (b, done) = list_walk(b, page1_12(), 0, 0);
    if done {
        b
    } else {
        rest_tfr(b)
    }
}

/// What `fixup` does once the opcode is 0x11 and the second byte is past 0xac: past the last
/// defined instruction of the page, the opcode moves on to 0x12.
pub open spec fn page3_high_on(b: Seq<u8>) -> Seq<u8> {
    let (b, done) = list_walk(b, page3_high(), 1, 0);
    if done {
        b
    } else {
        fixup_page1_rest(incr_bytes(b, 0))
    }
}

/// What `fixup` does once the opcode is 0x11 and the second byte is past 0x9c.
pub open spec fn page3_indexed_on(b: Seq<u8>) -> Seq<u8> {
    let (b, done) = postbyte_walk(b, page3_indexed(), 1, 0);
    if done {
        b
    } else {
        page3_high_on(b)
    }
}

/// What `fixup` does once the opcode is 0x11: the second byte is moved to the next defined
/// instruction of that page; past the last one, the opcode moves on to 0x12.
pub open spec fn fixup_page3(b: Seq<u8>) -> Seq<u8> {
    let (b, done) = list_walk(b, page3_low(), 1, 0);
    if done {
        b
    } else {
        page3_indexed_on(b)
    }
}

/// The encoding that `fixup` moves an instruction to: the first encoding, at or after the given
/// one in the order the fixup steps through, that is not known to be illegal.
pub open spec fn spec_fixup(b: Seq<u8>) -> Seq<u8> {
    let (b, done) = list_walk(b, page1_low(), 0, 0);
    if done {
        b
    } else if b[0] <= 0x10 {
        fixup_page2(b.update(0, 0x10))
    } else if b[0] <= 0x11 {
        fixup_page3(b.update(0, 0x11))
    } else {
        fixup_page1_rest(b)
    }
}

/// Whether a transfer/exchange postbyte must be skipped.
fn tfr_bad_byte(o: u8) -> (r: bool)
    ensures
        r == tfr_bad(o),
{
    let lo = o & 0x0f;
    let hi = (o >> 4u8) & 0x0f;
    let invalid_lo = lo == 0x06 || lo == 0x07 || lo == 0x0c || lo == 0x0d || lo == 0x0e || lo == 0x0f;
    let invalid_hi = hi == 0x06 || hi == 0x07 || hi == 0x0c || hi == 0x0d || hi == 0x0e || hi == 0x0f;
    ((o & 0x08 == 0) != ((o >> 4u8) & 0x08 == 0)) || invalid_lo || invalid_hi
}

/// Represents a Motorola 6809 machine instruction.
#[derive(Clone, Copy, Debug, Default, PartialEq, Eq, PartialOrd)]
pub struct Insn(pub [u8; 5]);

impl Insn {
    /// The bytes of the instruction.
    pub open spec fn bytes(self) -> Seq<u8> {
        self.0@
    }

    /// Increments the big-endian number held in bytes `0..=offset`.
    pub fn incr_at_offset(&mut self, offset: usize)
        requires
            offset < 5,
            !all_ff(old(self).bytes(), offset as int),
        ensures
            final(self).bytes() == incr_bytes(old(self).bytes(), offset as int),
        decreases offset,
    {
        if self.0[offset] < 0xff {
            self.0[offset] = self.0[offset] + 1;
        } else {
            self.0[offset] = 0;
            let ghost b = old(self).bytes();
            assert(offset > 0) by {
                if offset == 0 {
                    assert(all_ff(b, 0));
                }
            }
            assert(!all_ff(self.bytes(), offset - 1)) by {
                if all_ff(self.bytes(), offset - 1) {
                    assert forall|j: int| 0 <= j <= offset implies b[j] == 0xff by {
                        if j < offset {
                            assert(self.bytes()[j] == 0xff);
                        }
                    }
                }
            }
            self.incr_at_offset(offset - 1)
        }
    }

    /// The first instruction: all bytes zero.
    pub fn first() -> (r: Self)
        ensures
            r.bytes() == seq![0u8, 0u8, 0u8, 0u8, 0u8],
    {
        let r = Insn([0, 0, 0, 0, 0]);
        assert(r.bytes() =~= seq![0u8, 0u8, 0u8, 0u8, 0u8]);
        r
    }

    /// Whether the first three bytes are all 0xff, past which there is nothing to step to.
    pub open spec fn at_end(self) -> bool {
        self.0[0] == 0xff && self.0[1] == 0xff && self.0[2] == 0xff
    }

    /// Steps to the next instruction: counts up the bytes of the instruction as a big-endian
    /// number, then fixes up the encoding. `size` is the length of the instruction as the
    /// decoder of the `emu6809` crate gives it. Answers false, leaving the instruction as it is,
    /// once the first three bytes are all 0xff.
    pub fn step(&mut self, size: usize) -> (r: bool)
        requires
            1 <= size <= 5,
            old(self).at_end() || !all_ff(old(self).bytes(), size - 1),
        ensures
            r == !old(self).at_end(),
            !r ==> *final(self) == *old(self),
            r ==> final(self).bytes() == spec_fixup(incr_bytes(old(self).bytes(), size - 1)),
    {
        if self.0[0] == 0xff && self.0[1] == 0xff && self.0[2] == 0xff {
            false
        } else {
            self.incr_at_offset(size - 1);
            self.fixup();
            true
        }
    }

    /// The machine code of the instruction: its first `size` bytes, where `size` is its length
    /// as the decoder of the `emu6809` crate gives it.
    pub fn encode(&self, size: usize) -> (r: Vec<u8>)
        requires
            size <= 5,
        ensures
            r@ == self.bytes().take(size as int),
    {
        let mut v: Vec<u8> = Vec::new();
        let mut k: usize = 0;
        while k < size
            invariant
                size <= 5,
                k <= size,
                v@ == self.bytes().take(k as int),
            decreases size - k,
        {
            v.push(self.0[k]);
            k = k + 1;
            assert(v@ =~= self.bytes().take(k as int));
        }
        v
    }

    /// Returns true if the `Insn` encodes a valid 6809 instruction, and false otherwise. Whether
    /// the decoder of the `emu6809` crate knows the instruction is handed in as
    /// `action_unknown`.
    pub fn valid(&self, action_unknown: bool) -> (r: bool)
        ensures
            r == !((self.0[0] == 17 && self.0[1] > 188) || action_unknown),
    {
        if self.0[0] == 17 && self.0[1] > 188 {
            // There seems to be a bug in emu6809 which panics when decoding instructions beyond
            // this range. But we know it's not a valid instruction; it's outside of the range of
            // valid instructions. So we return false in this special case.
            return false;
        }
        !action_unknown
    }

    fn tfr_operand_fixup(&mut self, offset: usize)
        requires
            1 <= offset < 5,
            !all_ff(old(self).bytes(), offset - 1),
        ensures
            final(self).bytes() == tfr_fixed(old(self).bytes(), offset as int),
            !tfr_bad(final(self).0[offset as int]),
    {
        proof {
            lemma_tfr_bad_not_zero(0);
        }
        while tfr_bad_byte(self.0[offset])
            invariant
                1 <= offset < 5,
                tfr_fixed(self.bytes(), offset as int) == tfr_fixed(old(self).bytes(), offset as int),
                !all_ff(self.bytes(), offset - 1) || !tfr_bad(self.0[offset as int]),
            decreases (256 - self.0[offset as int]) % 256,
        {
            let ghost before = self.bytes();
            proof {
                lemma_tfr_bad_not_zero(before[offset as int]);
                lemma_incr_bytes_frame(before, offset as int);
                if before[offset as int] == 0xff {
                    if all_ff(before, offset as int) {
                        assert(all_ff(before, offset - 1));
                    }
                } else {
                    assert(!all_ff(before, offset as int));
                }
            }
            self.incr_at_offset(offset);
            proof {
                if self.0[offset as int] != 0 {
                    assert(same_prefix(self.bytes(), before, offset as int));
                } else {
                    assert(!tfr_bad(self.0[offset as int]));
                }
            }
        }
    }

    /// Moves the opcode up to `byte` if it is below it. Returns false, changing nothing, if the
    /// opcode is already past `byte`.
    fn opcode_fixup(&mut self, byte: u8) -> (r: bool)
        ensures
            r == (old(self).0[0] <= byte),
            final(self).bytes() == (if r { old(self).bytes().update(0, byte) } else { old(self).bytes() }),
    {
        if self.0[0] > byte {
            false
        } else {
            self.0[0] = byte;
            true
        }
    }

    /// Moves the second byte up to `byte` if it is below it. Returns false, changing nothing, if
    /// the second byte is already past `byte`.
    fn second_opcode_fixup(&mut self, byte: u8) -> (r: bool)
        ensures
            r == (old(self).0[1] <= byte),
            final(self).bytes() == (if r { old(self).bytes().update(1, byte) } else { old(self).bytes() }),
    {
        if self.0[1] > byte {
            false
        } else {
            self.0[1] = byte;
            true
        }
    }

    /// Moves the byte at `pos` (the opcode or the second byte) up to the first of `ops` that is
    /// not below it.
    fn walk_list(&mut self, ops: &[u8], pos: usize) -> (r: bool)
        requires
            pos < 2,
        ensures
            (final(self).bytes(), r) == list_walk(old(self).bytes(), ops@, pos as int, 0),
    {
        let mut i: usize = 0;
        while i < ops.len()
            invariant
                pos < 2,
                i <= ops.len(),
                list_walk(self.bytes(), ops@, pos as int, i as int) == list_walk(
                    old(self).bytes(),
                    ops@,
                    pos as int,
                    0,
                ),
            decreases ops.len() - i,
        {
            let hit = if pos == 0 {
                self.opcode_fixup(ops[i])
            } else {
                self.second_opcode_fixup(ops[i])
            };
            if hit {
                return true;
            }
            i = i + 1;
        }
        false
    }

    /// Walks `ops`, opcodes (for the byte at `pos`) that take an index postbyte at `pos + 1`.
    fn walk_postbyte(&mut self, ops: &[u8], pos: usize) -> (r: bool)
        requires
            pos < 2,
            forall|k: int| 0 <= k < ops@.len() ==> ops@[k] < 0xff,
        ensures
            (final(self).bytes(), r) == postbyte_walk(old(self).bytes(), ops@, pos as int, 0),
    {
        let mut i: usize = 0;
        while i < ops.len()
            invariant
                pos < 2,
                i <= ops.len(),
                forall|k: int| 0 <= k < ops@.len() ==> ops@[k] < 0xff,
                postbyte_walk(self.bytes(), ops@, pos as int, i as int) == postbyte_walk(
                    old(self).bytes(),
                    ops@,
                    pos as int,
                    0,
                ),
            decreases ops.len() - i,
        {
            let op = ops[i];
            let hit = if pos == 0 {
                self.opcode_fixup(op)
            } else {
                self.second_opcode_fixup(op)
            };
            if hit {
                assert(self.bytes()[pos as int] == op);
                assert(!all_ff(self.bytes(), pos as int));
                self.index_postbyte_fixup(pos + 1);
                if self.0[pos] == op {
                    return true;
                }
            }
            i = i + 1;
        }
        false
    }

    /// Walks `ops`, opcodes that take a transfer/exchange postbyte at byte 1.
    fn walk_tfr(&mut self, ops: &[u8]) -> (r: bool)
        requires
            forall|k: int| 0 <= k < ops@.len() ==> ops@[k] < 0xff,
        ensures
            (final(self).bytes(), r) == tfr_walk(old(self).bytes(), ops@, 0),
    {
        let mut i: usize = 0;
        while i < ops.len()
            invariant
                i <= ops.len(),
                forall|k: int| 0 <= k < ops@.len() ==> ops@[k] < 0xff,
                tfr_walk(self.bytes(), ops@, i as int) == tfr_walk(old(self).bytes(), ops@, 0),
            decreases ops.len() - i,
        {
            let op = ops[i];
            if self.opcode_fixup(op) {
                assert(self.bytes()[0] == op);
                assert(!all_ff(self.bytes(), 0));
                self.tfr_operand_fixup(1);
                if self.0[0] == op {
                    return true;
                }
            }
            i = i + 1;
        }
        false
    }

    /// Whatever the values of the bytes, this method mutates them such that they are guaranteed to
    /// represent a valid 6809 instruction: it moves the encoding forward past the runs of
    /// undefined opcodes, index postbytes and transfer postbytes.
    pub fn fixup(&mut self)
        ensures
            final(self).bytes() == spec_fixup(old(self).bytes()),
    {
        // skip illegal opcodes in the range $00...$0f
        let ops: [u8; 4] = [0x00, 0x03, 0x06, 0x0c];
        assert(ops@ =~= page1_low());
        if self.walk_list(&ops, 0) {
            return;
        }
        if self.opcode_fixup(0x10) {
            self.fixup_page2();
            return;
        }
        if self.opcode_fixup(0x11) {
            self.fixup_page3();
            return;
        }
        self.fixup_page1_rest();
    }

    fn fixup_page2(&mut self)
        ensures
            final(self).bytes() == fixup_page2(old(self).bytes()),
    {
        // skip illegal opcodes in the range $1000...$100f
        let ops: [u8; 8] = [0x21, 0x3f, 0x83, 0x8c, 0x8e, 0x93, 0x9c, 0x9e];
        assert(ops@ =~= page2_low());
        if self.walk_list(&ops, 1) {
            return;
        }
        // skip illegal opcodes in the range $10a0...$10af, but also make sure that the index
        // postbyte is valid
        let ops: [u8; 4] = [0xa3, 0xac, 0xae, 0xaf];
        assert(ops@ =~= page2_indexed());
        if self.walk_postbyte(&ops, 1) {
            return;
        }
        // skip illegal opcodes in the range $10b0...$10df
        let ops: [u8; 5] = [0xb3, 0xbc, 0xbe, 0xce, 0xde];
        assert(ops@ =~= page2_mid());
        if self.walk_list(&ops, 1) {
            return;
        }
        // skip illegal opcodes in the range $10e0...$10ff, but also make sure that the index
        // postbyte is valid
        let ops: [u8; 3] = [0xee, 0xef, 0xfe];
        assert(ops@ =~= page2_high_indexed());
        self.walk_postbyte(&ops, 1);
    }

    fn fixup_page3(&mut self)
        requires
            old(self).0[0] == 0x11,
        ensures
            final(self).bytes() == fixup_page3(old(self).bytes()),
    {
        // skip illegal opcodes in the range $1100...$119f
        let ops: [u8; 5] = [0x3f, 0x83, 0x8c, 0x93, 0x9c];
        assert(ops@ =~= page3_low());
        proof {
            lemma_list_walk(self.bytes(), ops@, 1, 0);
        }
        if self.walk_list(&ops, 1) {
            return;
        }
        // skip illegal opcodes in the range $11a0...$11af, but also make sure that the index
        // postbyte is valid
        let ops: [u8; 2] = [0xa3, 0xac];
        assert(ops@ =~= page3_indexed());
        let ghost before = self.bytes();
        proof {
            lemma_postbyte_walk_keeps_opcode(before, ops@, 0);
        }
        if self.walk_postbyte(&ops, 1) {
            return;
        }
        // skip illegal opcodes in the range $11b0...$11ff
        let ops: [u8; 2] = [0xb3, 0xbc];
        assert(ops@ =~= page3_high());
        proof {
            lemma_list_walk(self.bytes(), ops@, 1, 0);
        }
        if self.walk_list(&ops, 1) {
            return;
        }
        assert(!all_ff(self.bytes(), 0)) by {
            assert(self.bytes()[0] == 0x11);
        }
        self.incr_at_offset(0);
        self.fixup_page1_rest();
    }

    fn fixup_page1_rest(&mut self)
        ensures
            final(self).bytes() == fixup_page1_rest(old(self).bytes()),
    {
        // skip illegal opcodes in the range $12...$1b
        let ops: [u8; 3] = [0x16, 0x19, 0x1c];
        assert(ops@ =~= page1_12());
        if self.walk_list(&ops, 0) {
            return;
        }
        // instructions in the range $1e...$1f need to have a valid register operand combo
        let ops: [u8; 2] = [0x1e, 0x1f];
        assert(ops@ =~= page1_tfr());
        if self.walk_tfr(&ops) {
            return;
        }
        // instructions in the range $30...$33 need a valid indexed addressing postbyte
        let ops: [u8; 4] = [0x30, 0x31, 0x32, 0x33];
        assert(ops@ =~= page1_lea());
        if self.walk_postbyte(&ops, 0) {
            return;
        }
        // skip illegal instructions in the range $38...$5f
        let ops: [u8; 9] = [0x39, 0x3f, 0x43, 0x46, 0x4c, 0x53, 0x56, 0x5c, 0x5f];
        assert(ops@ =~= page1_38());
        if self.walk_list(&ops, 0) {
            return;
        }
        // next up are some opcodes which have an index postbyte, so fix that up
        let ops: [u8; 31] = [
            0x60, 0x63, 0x64, 0x66, 0x67, 0x68, 0x69, 0x6a, 0x6c, 0x6d, 0x6e, 0x6f, 0x73, 0x76,
            0x7c, 0xa0, 0xa1, 0xa2, 0xa3, 0xa4, 0xa5, 0xa6, 0xa7, 0xa8, 0xa9, 0xaa, 0xab, 0xac,
            0xad, 0xae, 0xaf,
        ];
        assert(ops@ =~= page1_indexed());
        if self.walk_postbyte(&ops, 0) {
            return;
        }
        // skip illegal instructions in the range $bc...$df
        let ops: [u8; 3] = [0xc8, 0xce, 0xd0];
        assert(ops@ =~= page1_bc());
        if self.walk_list(&ops, 0) {
            return;
        }
        let ops: [u8; 16] = [
            0xe0, 0xe1, 0xe2, 0xe3, 0xe4, 0xe5, 0xe6, 0xe7, 0xe8, 0xe9, 0xea, 0xeb, 0xec, 0xed,
            0xee, 0xef,
        ];
        assert(ops@ =~= page1_e0());
        proof {
            lemma_list_walk(self.bytes(), ops@, 0, 0);
        }
        if self.walk_list(&ops, 0) {
            assert(!all_ff(self.bytes(), 0)) by {
                assert(self.bytes()[0] <= 0xef);
            }
            self.index_postbyte_fixup(1);
        }
    }

    fn index_postbyte_fixup(&mut self, offset: usize)
        requires
            1 <= offset < 5,
            !all_ff(old(self).bytes(), offset - 1),
        ensures
            final(self).bytes() == postbyte_fixed(old(self).bytes(), offset as int),
    {
        let o = offset;
        if 0x87 <= self.0[o] && self.0[o] <= 0x8f {
            self.0[o] = 0x90
        };
        if 0x97 <= self.0[o] && self.0[o] <= 0x9f {
            self.0[o] = 0x9f
        };
        if 0xa7 <= self.0[o] && self.0[o] <= 0xaf {
            self.0[o] = 0xb0
        };
        if 0xb7 <= self.0[o] && self.0[o] <= 0xbf {
            self.0[o] = 0xc0
        };
        if 0xc7 <= self.0[o] && self.0[o] <= 0xcf {
            self.0[o] = 0xd0
        };
        if 0xd7 <= self.0[o] && self.0[o] <= 0xdf {
            self.0[o] = 0xe0
        };
        if 0xe7 <= self.0[o] && self.0[o] <= 0xef {
            self.0[o] = 0xf0
        };
        assert(self.bytes() == old(self).bytes().update(
            o as int,
            postbyte_skip(old(self).bytes()[o as int]),
        ));
        if self.0[o] > 0xf6 {
            assert(!all_ff(self.bytes(), o - 1)) by {
                assert(same_prefix(self.bytes(), old(self).bytes(), o as int));
            }
            self.incr_at_offset(o - 1);
            self.0[o] = 0;
        }
    }
}

} // verus!
