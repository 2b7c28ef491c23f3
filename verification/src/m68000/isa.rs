//! Machine instructions for the Motorola 68000.
use crate::static_analysis::{Fixup, FixupReason};
use crate::{IterationResult, StepError};
use vstd::prelude::*;

verus! {

/// The disassembly that the `m68000` crate gives of the instruction held in `words`, decoded at
/// address 0.
pub uninterp spec fn m68000_disassembly(words: Seq<u16>) -> Seq<char>;

/// Decodes the instruction held in `words` at address 0 with
/// `m68000::instruction::Instruction::from_memory`, and disassembles it with the crate's
/// `Display`. The contract names the text. (Decoding reads the first word, which a buffer of five
/// words always holds, so it does not fail.)
#[verifier::external_body]
fn disassemble_words(words: &[u16; 5]) -> (r: String)
    ensures
        r@ == m68000_disassembly(words@),
{
    let mut memory = words.as_slice();
    let mut memory = m68000::memory_access::MemoryIter { memory: &mut memory, next_addr: 0 };
    let ins = m68000::instruction::Instruction::from_memory(&mut memory).unwrap();
    format!("{ins}")
}

/// The address just after the instruction held in `words`, as the `m68000` crate decodes it
/// from address 0.
pub uninterp spec fn m68000_decoded_end(words: Seq<u16>) -> u32;

/// Decodes the instruction held in `words` at address 0 with
/// `m68000::instruction::Instruction::from_memory`, and hands back the address after it (the
/// `next_addr` of the memory iterator). The contract names the result, and claims that it is at
/// least 2: decoding reads the opcode word, which a buffer of five words always holds, so it does
/// not fail either.
#[verifier::external_body]
fn decoded_end(words: &[u16; 5]) -> (r: u32)
    ensures
        r == m68000_decoded_end(words@),
        r >= 2,
{
    let mut memory = words.as_slice();
    let mut memory = m68000::memory_access::MemoryIter { memory: &mut memory, next_addr: 0 };
    m68000::instruction::Instruction::from_memory(&mut memory).unwrap();
    memory.next_addr
}

/// Whether `needle` occurs in `hay`.
pub open spec fn occurs_in(needle: Seq<char>, hay: Seq<char>) -> bool {
    exists|i: int| 0 <= i && i + needle.len() <= hay.len() && #[trigger] hay.subrange(i, i + needle.len()) == needle
}

/// The text by which the disassembler marks an opcode that it does not know.
pub open spec fn unknown_text() -> Seq<char> {
    seq!['U', 'n', 'k', 'n', 'o', 'w', 'n']
}

/// The text by which the disassembler marks the illegal instruction.
pub open spec fn illegal_text() -> Seq<char> {
    seq!['I', 'L', 'L', 'E', 'G', 'A', 'L']
}

/// Whether the disassembly of `words` marks no unknown or illegal instruction.
pub open spec fn valid_words(words: Seq<u16>) -> bool {
    let d = m68000_disassembly(words);
    !(occurs_in(unknown_text(), d) || occurs_in(illegal_text(), d))
}

/// Whether the characters of `s` starting at `at` are those of `needle`.
fn matches_at(s: &Vec<char>, at: usize, needle: &[char; 7]) -> (r: bool)
    requires
        at + 7 <= s.len(),
    ensures
        r == (s@.subrange(at as int, at + 7) == needle@),
{
    let mut k: usize = 0;
    while k < 7
        invariant
            k <= 7,
            at + 7 <= s.len(),
            forall|j: int| 0 <= j < k ==> s@[at + j] == needle@[j],
        decreases 7 - k,
    {
        if s[at + k] != needle[k] {
            assert(s@.subrange(at as int, at + 7)[k as int] != needle@[k as int]);
            return false;
        }
        k = k + 1;
    }
    assert(s@.subrange(at as int, at + 7) =~= needle@);
    true
}

/// Whether `needle` occurs in `s`.
fn occurs(s: &Vec<char>, needle: &[char; 7]) -> (r: bool)
    ensures
        r == occurs_in(needle@, s@),
{
    if s.len() < 7 {
        return false;
    }
    let mut at: usize = 0;
    while at <= s.len() - 7
        invariant
            7 <= s@.len(),
            at <= s@.len() - 6,
            needle@.len() == 7,
            forall|i: int| 0 <= i < at ==> #[trigger] s@.subrange(i, i + 7) != needle@,
        decreases s@.len() - at,
    {
        if matches_at(s, at, needle) {
            assert(s@.subrange(at as int, at + needle@.len()) == needle@);
            return true;
        }
        at = at + 1;
    }
    assert forall|i: int| 0 <= i && i + needle@.len() <= s@.len() implies #[trigger] s@.subrange(
        i,
        i + needle@.len(),
    ) != needle@ by {
        assert(i < at);
    }
    false
}

/// The characters of a string.
fn chars_of(s: &String) -> (r: Vec<char>)
    ensures
        r@ == s@,
{
    let t = s.as_str();
    let n = t.unicode_len();
    let mut v: Vec<char> = Vec::new();
    let mut k: usize = 0;
    while k < n
        invariant
            n == t@.len(),
            t@ == s@,
            k <= n,
            v@ == t@.take(k as int),
        decreases n - k,
    {
        v.push(t.get_char(k));
        k = k + 1;
        assert(v@ =~= t@.take(k as int));
    }
    assert(t@.take(n as int) =~= t@);
    v
}

/// The words after one is added to the word at `offs`, carrying leftwards: a word at 0xffff
/// becomes zero and the carry moves to the word before it.
pub open spec fn carried(w: Seq<u16>, offs: int) -> Seq<u16>
    decreases offs,
{
    if offs < 0 {
        w
    } else if w[offs] < 0xffff {
        w.update(offs, (w[offs] + 1) as u16)
    } else if offs == 0 {
        w
    } else {
        carried(w.update(offs, 0u16), offs - 1)
    }
}

/// Represents one 68000 machine code instruction
#[derive(Clone, Copy, Debug, Default, PartialOrd, PartialEq)]
pub struct Insn(pub [u16; 5]);

impl Insn {
    /// The words of the instruction.
    pub open spec fn words(self) -> Seq<u16> {
        self.0@
    }

    /// The first instruction: all words zero.
    pub fn first() -> (r: Self)
        ensures
            r.words() == seq![0u16, 0u16, 0u16, 0u16, 0u16],
    {
        let r = Insn([0, 0, 0, 0, 0]);
        assert(r.words() =~= seq![0u16, 0u16, 0u16, 0u16, 0u16]);
        r
    }

    /// Increments the first word of the instruction, and resets all the rest to zero. Past
    /// 0xe000 there is nothing left to step to.
    pub fn next_opcode(&mut self) -> (r: IterationResult)
        ensures
            old(self).0[0] > 0xe000 ==> r is Err && *final(self) == *old(self),
            old(self).0[0] <= 0xe000 ==> r is Ok && final(self).words() == seq![
                (old(self).0[0] + 1) as u16,
                0u16,
                0u16,
                0u16,
                0u16,
            ],
    {
        if self.0[0] > 0xe000 {
            return Err(StepError::End);
        }
        self.0[0] = self.0[0] + 1;
        self.0[1] = 0;
        self.0[2] = 0;
        self.0[3] = 0;
        self.0[4] = 0;
        assert(self.words() =~= seq![(old(self).0[0] + 1) as u16, 0u16, 0u16, 0u16, 0u16]);
        Ok(())
    }

    /// Constructs a new Insn from a slice of words: the first five words of the slice, padded
    /// with zeros.
    pub fn new(mc: &[u16]) -> (r: Self)
        ensures
            forall|j: int| 0 <= j < 5 ==> #[trigger] r.words()[j] == if j < mc@.len() {
                mc@[j]
            } else {
                0u16
            },
    {
        let mut enc: [u16; 5] = [0, 0, 0, 0, 0];
        let n = if mc.len() < 5 { mc.len() } else { 5 };
        let mut k: usize = 0;
        while k < n
            invariant
                n <= 5,
                n <= mc@.len(),
                n == mc@.len() || n == 5,
                k <= n,
                forall|j: int| 0 <= j < k ==> enc@[j] == mc@[j],
                forall|j: int| k <= j < 5 ==> enc@[j] == 0,
            decreases n - k,
        {
            enc[k] = mc[k];
            k = k + 1;
        }
        Insn(enc)
    }

    /// The words from which `next` starts its search: the instruction's own words, counted up
    /// by one as a big-endian number over its length.
    pub open spec fn stepped(self) -> Seq<u16> {
        carried(self.words(), self.length() - 1)
    }

    /// What `next` does to `before`, giving `after` and `r`. Past the opcode 0xe000 there is
    /// nothing to step to. Otherwise the first word of the stepped words is raised to the
    /// first opcode that the `m68000` crate knows, which ends the enumeration if none is
    /// left up to 0xffff.
    pub open spec fn steps_to(before: Insn, after: Insn, r: IterationResult) -> bool {
        if before.0[0] > 0xe000 {
            r is Err && after == before
        } else {
            let c = before.stepped();
            &&& c[0] <= after.0[0]
            &&& after.words() == c.update(0, after.0[0])
            &&& forall|x: u16| c[0] <= x < after.0[0] ==> !valid_words(#[trigger] c.update(0, x))
            &&& (r is Ok <==> valid_words(after.words()))
            &&& (r is Err ==> after.0[0] == 0xffff)
        }
    }

    /// Raises the first word until the crate knows the instruction; stops at 0xffff, telling
    /// whether it found one.
    fn fixup(&mut self) -> (r: bool)
        ensures
            old(self).0[0] <= final(self).0[0],
            final(self).words() == old(self).words().update(0, final(self).0[0]),
            forall|x: u16|
                old(self).0[0] <= x < final(self).0[0] ==> !valid_words(
                    #[trigger] old(self).words().update(0, x),
                ),
            r == valid_words(final(self).words()),
            !r ==> final(self).0[0] == 0xffff,
    {
        let ghost w0 = self.words();
        let ghost start = self.0[0];
        assert(self.words() =~= w0.update(0, self.0[0]));
        loop
            invariant
                w0 == old(self).words(),
                start == old(self).0[0],
                start <= self.0[0],
                self.words() == w0.update(0, self.0[0]),
                forall|x: u16| start <= x < self.0[0] ==> !valid_words(#[trigger] w0.update(0, x)),
            decreases 0xffff - self.0[0],
        {
            if self.valid_encoding() {
                return true;
            }
            if self.0[0] == 0xffff {
                return false;
            }
            self.0[0] = self.0[0] + 1;
            assert(self.words() =~= w0.update(0, self.0[0]));
        }
    }

    /// Steps to the next instruction: counts the words up by one over the instruction's
    /// length, then raises the opcode to one that the `m68000` crate knows. The instruction
    /// must lie within its five words.
    pub fn next(&mut self) -> (r: IterationResult)
        requires
            old(self).end() <= 10,
        ensures
            Self::steps_to(*old(self), *final(self), r),
    {
        let mut offs = self.len_w() - 1;
        if self.0[0] > 0xe000 {
            return Err(StepError::End);
        }
        let ghost target = old(self).stepped();
        loop
            invariant
                offs < 5,
                self.0[0] <= 0xe000,
                old(self).0[0] <= 0xe000,
                target == old(self).stepped(),
                carried(self.words(), offs as int) == target,
            decreases offs,
        {
            if self.0[offs] < 0xffff {
                let ghost before = self.words();
                self.0[offs] = self.0[offs] + 1;
                assert(self.words() =~= before.update(offs as int, (before[offs as int] + 1) as u16));
                let found = self.fixup();
                return if found {
                    Ok(())
                } else {
                    Err(StepError::End)
                };
            } else {
                if offs == 0 {
                    return Err(StepError::End);
                }
                let ghost before = self.words();
                self.0[offs] = 0;
                assert(self.words() =~= before.update(offs as int, 0u16));
                offs = offs - 1;
            }
        }
    }

    /// Steps to the next instruction as `next` does, when the crate decodes the instruction
    /// within its five words; otherwise leaves it as it is and answers `None`.
    pub fn checked_next(&mut self) -> (r: Option<IterationResult>)
        ensures
            r is Some <==> old(self).end() <= 10,
            r is None ==> *final(self) == *old(self),
            r is Some ==> Self::steps_to(*old(self), *final(self), r->0),
    {
        if decoded_end(&self.0) <= 10 {
            Some(self.next())
        } else {
            None
        }
    }

    /// Checks that the instruction is `rts`; if not, asks for it to be advanced at the given
    /// offset.
    pub fn should_return(&self, offs: usize) -> (r: Result<(), Fixup>)
        ensures
            r is Ok <==> self.0[0] == 0x4e75,
            r is Err ==> r->Err_0 == (Fixup { offset: offs, reason: FixupReason::DoesNotReturn }),
    {
        if self.0[0] == 0x4e75 {
            Ok(())
        } else {
            Err(Fixup { offset: offs, reason: FixupReason::DoesNotReturn })
        }
    }

    /// The address just after the instruction, decoded from address 0.
    pub open spec fn end(self) -> u32 {
        m68000_decoded_end(self.words())
    }

    /// The length of the instruction in words.
    pub open spec fn length(self) -> int {
        (self.end() + 1) / 2
    }

    /// The length of the instruction in words: its length in bytes (one more than the address
    /// after it), halved. The instruction must lie within its five words.
    pub fn len_w(&self) -> (r: usize)
        requires
            self.end() <= 10,
        ensures
            r == self.length(),
            1 <= r <= 5,
    {
        let e = decoded_end(&self.0);
        let len_b = (e + 1) as usize;
        len_b / 2
    }

    /// The machine code of the instruction: as many of its words as its length.
    pub fn encode(&self) -> (r: Vec<u16>)
        requires
            self.end() <= 10,
        ensures
            r@ == self.words().take(self.length()),
    {
        let n = self.len_w();
        let mut v: Vec<u16> = Vec::new();
        let mut k: usize = 0;
        while k < n
            invariant
                n == self.length(),
                n <= 5,
                k <= n,
                v@ == self.words().take(k as int),
            decreases n - k,
        {
            v.push(self.0[k]);
            k = k + 1;
            assert(v@ =~= self.words().take(k as int));
        }
        v
    }

    /// The machine code of the instruction, when the crate decodes it within its five words.
    pub fn encoding(&self) -> (r: Option<Vec<u16>>)
        ensures
            r is Some <==> self.end() <= 10,
            r is Some ==> r->0@ == self.words().take(self.length()),
    {
        if decoded_end(&self.0) <= 10 {
            Some(self.encode())
        } else {
            None
        }
    }

    /// The disassembly of the instruction.
    pub open spec fn dasm(self) -> Seq<char> {
        m68000_disassembly(self.words())
    }

    /// Disassembles the instruction.
    pub fn to_string(&self) -> (r: String)
        ensures
            r@ == self.dasm(),
    {
        disassemble_words(&self.0)
    }

    /// Whether the `m68000` crate knows the instruction: its disassembly marks no unknown or
    /// illegal instruction.
    pub fn valid_encoding(&self) -> (r: bool)
        ensures
            r == valid_words(self.words()),
    {
        let diss = chars_of(&disassemble_words(&self.0));
        let unknown: [char; 7] = ['U', 'n', 'k', 'n', 'o', 'w', 'n'];
        let illegal: [char; 7] = ['I', 'L', 'L', 'E', 'G', 'A', 'L'];
        assert(unknown@ =~= unknown_text());
        assert(illegal@ =~= illegal_text());
        !(occurs(&diss, &unknown) || occurs(&diss, &illegal))
    }
}

} // verus!

verus! {

/// Whether the words `a` come before the words `b`, both read as big-endian numbers: they agree
/// up to some word, and there `a` holds the smaller one.
pub open spec fn precedes(a: Seq<u16>, b: Seq<u16>) -> bool {
    exists|k: int|
        0 <= k < a.len() && k < b.len() && a[k] < b[k] && #[trigger] a.take(k) == b.take(k)
}

/// Counting up at `offs` raises one word at or before `offs` by one and leaves the words before
/// it as they were, provided the first word is not at 0xffff.
proof fn lemma_carried_rises(w: Seq<u16>, offs: int) -> (k: int)
    requires
        0 <= offs < w.len(),
        w[0] < 0xffff,
    ensures
        carried(w, offs).len() == w.len(),
        0 <= k <= offs,
        carried(w, offs)[k] == w[k] + 1,
        carried(w, offs).take(k) == w.take(k),
    decreases offs,
{
    if w[offs] < 0xffff {
        assert(carried(w, offs).take(offs) =~= w.take(offs));
        offs
    } else {
        let v = w.update(offs, 0u16);
        let k = lemma_carried_rises(v, offs - 1);
        assert(v.take(k) =~= w.take(k));
        k
    }
}

/// Stepping to the next instruction moves strictly forward through the encodings. (The decoder
/// puts the end of an instruction held in five words between 2 and 10.)
pub proof fn lemma_next_moves_forward(before: Insn, after: Insn)
    requires
        2 <= before.end() <= 10,
        Insn::steps_to(before, after, Ok(())),
    ensures
        precedes(before.words(), after.words()),
{
    let w = before.words();
    let c = before.stepped();
    let k = lemma_carried_rises(w, before.length() - 1);
    let a = after.words();
    assert(a[0] == after.0[0]);
    if k > 0 {
        assert(c[0] == c.take(k)[0]);
        assert(w[0] == w.take(k)[0]);
    }
    if k == 0 || after.0[0] > c[0] {
        assert(w.take(0) =~= a.take(0));
        assert(w[0] < a[0]);
    } else {
        assert(a =~= c);
        assert(w.take(k) == a.take(k));
    }
}

} // verus!
