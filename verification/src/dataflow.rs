//! This module contains miscellaneous conveniences for performing dataflow analysis on code
//! sequences.
use crate::static_analysis::Fixup;
use vstd::prelude::*;

verus! {

/// Implement this trait on an instruction to communicate that the instruction reads from or writes
/// to a datum of some type. For example, if you have a type representing the register file, and
/// some type represents the machine's instruction, these methods can communicate what use the
/// instruction makes of each register.
pub trait DataFlow<Datum>: Sized {
    /// Whether the instruction reads from `datum`.
    spec fn spec_reads(&self, datum: &Datum) -> bool;

    /// Whether the instruction writes to `datum`.
    spec fn spec_writes(&self, datum: &Datum) -> bool;

    /// The fixup that advances the instruction.
    spec fn spec_sa(&self) -> Fixup;

    /// Returns `true` iff the instruction reads from `datum`.
    fn reads(&self, datum: &Datum) -> (r: bool)
        ensures
            r == self.spec_reads(datum),
    ;

    /// Returns `true` iff the instruction writes to `datum`.
    fn writes(&self, datum: &Datum) -> (r: bool)
        ensures
            r == self.spec_writes(datum),
    ;

    /// Returns a `Fixup` for advancing the instruction.
    fn sa(&self) -> (r: Fixup)
        ensures
            r == self.spec_sa(),
    ;
}

/// Whether the instruction reads or writes the datum.
pub open spec fn touches<Datum, Insn: DataFlow<Datum>>(i: Insn, datum: Datum) -> bool {
    i.spec_reads(&datum) || i.spec_writes(&datum)
}

/// The index of the first instruction in `s[from..]` that reads or writes `datum`.
pub open spec fn first_touching<Datum, Insn: DataFlow<Datum>>(s: Seq<Insn>, datum: Datum, from: int) -> Option<int>
    decreases s.len() - from,
{
    if from < 0 || from >= s.len() {
        None
    } else if touches(s[from], datum) {
        Some(from)
    } else {
        first_touching(s, datum, from + 1)
    }
}

/// The index of the first instruction in `s[from..]` that reads `datum`.
pub open spec fn first_reading<Datum, Insn: DataFlow<Datum>>(s: Seq<Insn>, datum: Datum, from: int) -> Option<int>
    decreases s.len() - from,
{
    if from < 0 || from >= s.len() {
        None
    } else if s[from].spec_reads(&datum) {
        Some(from)
    } else {
        first_reading(s, datum, from + 1)
    }
}

/// The index of the first instruction in `s[from..]` that writes `datum`.
pub open spec fn first_writing<Datum, Insn: DataFlow<Datum>>(s: Seq<Insn>, datum: Datum, from: int) -> Option<int>
    decreases s.len() - from,
{
    if from < 0 || from >= s.len() {
        None
    } else if s[from].spec_writes(&datum) {
        Some(from)
    } else {
        first_writing(s, datum, from + 1)
    }
}

/// The analysis that asks the first instruction touching `datum` to change.
pub open spec fn spec_leave_alone<Datum, Insn: DataFlow<Datum>>(s: Seq<Insn>, datum: Datum) -> Result<(), Fixup> {
    match first_touching(s, datum, 0) {
        Some(i) => Err(Fixup { offset: i as usize, ..s[i].spec_sa() }),
        None => Ok(()),
    }
}

/// Returns a static analysis modifying any instructions that read from or writes to `datum`.
pub fn leave_alone<Datum, Insn: DataFlow<Datum>>(sequence: &[Insn], datum: &Datum) -> (r: Result<(), Fixup>)
    ensures
        r == spec_leave_alone(sequence@, *datum),
{
    let mut offs: usize = 0;
    while offs < sequence.len()
        invariant
            offs <= sequence@.len(),
            first_touching(sequence@, *datum, offs as int) == first_touching(sequence@, *datum, 0),
        decreases sequence.len() - offs,
    {
        let i = &sequence[offs];
        if i.reads(datum) || i.writes(datum) {
            return Err(i.sa().set_offset(offs));
        }
        offs = offs + 1;
    }
    Ok(())
}

/// Returns a static analysis modifying any instructions that read from or writes to `datum`, but
/// ignores the last instruction in the sequence. Handy for cases like leaf subroutines on MIPS or ARM,
/// where only the last instruction should use the link register.
pub fn leave_alone_except_last<Datum, Insn: DataFlow<Datum>>(sequence: &[Insn], datum: &Datum) -> (r: Result<(), Fixup>)
    requires
        sequence@.len() > 0,
    ensures
        r == spec_leave_alone(sequence@.drop_last(), *datum),
{
    let len = sequence.len();
    let ghost front = sequence@.drop_last();
    let mut offs: usize = 0;
    while offs < len - 1
        invariant
            len == sequence@.len(),
            len > 0,
            offs <= len - 1,
            front == sequence@.drop_last(),
            first_touching(front, *datum, offs as int) == first_touching(front, *datum, 0),
        decreases len - 1 - offs,
    {
        let i = &sequence[offs];
        assert(front[offs as int] == sequence@[offs as int]);
        if i.reads(datum) || i.writes(datum) {
            return Err(i.sa().set_offset(offs));
        }
        offs = offs + 1;
    }
    Ok(())
}

/// The analysis that finds a read of `datum` with no earlier write.
pub open spec fn spec_uninitialized<Datum, Insn: DataFlow<Datum>>(s: Seq<Insn>, datum: Datum) -> Result<(), Fixup> {
    match first_reading(s, datum, 0) {
        None => Ok(()),
        Some(read) => match first_writing(s, datum, 0) {
            Some(write) => if write < read {
                Ok(())
            } else {
                Err(s[read].spec_sa())
            },
            None => Err(s[read].spec_sa()),
        },
    }
}

/// Finds the first instruction from `from` on that reads `datum`.
fn find_read<Datum, Insn: DataFlow<Datum>>(sequence: &[Insn], datum: &Datum) -> (r: Option<usize>)
    ensures
        r matches Some(i) ==> first_reading(sequence@, *datum, 0) == Some(i as int),
        r is None ==> first_reading(sequence@, *datum, 0) is None,
{
    let mut offs: usize = 0;
    while offs < sequence.len()
        invariant
            offs <= sequence@.len(),
            first_reading(sequence@, *datum, offs as int) == first_reading(sequence@, *datum, 0),
        decreases sequence.len() - offs,
    {
        if sequence[offs].reads(datum) {
            return Some(offs);
        }
        offs = offs + 1;
    }
    None
}

/// Finds the first instruction that writes `datum`.
fn find_write<Datum, Insn: DataFlow<Datum>>(sequence: &[Insn], datum: &Datum) -> (r: Option<usize>)
    ensures
        r matches Some(i) ==> first_writing(sequence@, *datum, 0) == Some(i as int),
        r is None ==> first_writing(sequence@, *datum, 0) is None,
{
    let mut offs: usize = 0;
    while offs < sequence.len()
        invariant
            offs <= sequence@.len(),
            first_writing(sequence@, *datum, offs as int) == first_writing(sequence@, *datum, 0),
        decreases sequence.len() - offs,
    {
        if sequence[offs].writes(datum) {
            return Some(offs);
        }
        offs = offs + 1;
    }
    None
}

/// If the sequence reads from `datum` before writing to it, then this function returns a
/// fixup modifying the first instruction that reads it (at the offset that the instruction's own
/// fixup gives). Successively applying these ensures that the sequence will not read from the
/// `datum` before it has been initialized.
pub fn uninitialized<Datum, Insn: DataFlow<Datum>>(sequence: &[Insn], datum: &Datum) -> (r: Result<(), Fixup>)
    ensures
        r == spec_uninitialized(sequence@, *datum),
{
    let Some(read) = find_read(sequence, datum) else {
        // There's no instruction in the sequence reading from `datum`
        return Ok(());
    };
    proof {
        lemma_first_in_range(sequence@, *datum, 0);
    }
    let Some(write) = find_write(sequence, datum) else {
        // There's no instruction in the sequence writing to `datum`, so `datum` is uninitialized
        // wherever it's read.
        return Err(sequence[read].sa());
    };

    if write < read {
        // The write to `datum` happened before the read, so that's okay.
        return Ok(());
    }

    Err(sequence[read].sa())
}

/// The index that `first_reading` and `first_touching` find lies in the sequence.
pub proof fn lemma_first_in_range<Datum, Insn: DataFlow<Datum>>(s: Seq<Insn>, datum: Datum, from: int)
    ensures
        first_reading(s, datum, from) matches Some(i) ==> from <= i < s.len(),
        first_writing(s, datum, from) matches Some(i) ==> from <= i < s.len(),
        first_touching(s, datum, from) matches Some(i) ==> from <= i < s.len(),
    decreases s.len() - from,
{
    if 0 <= from < s.len() {
        lemma_first_in_range(s, datum, from + 1);
    }
}

/// `first_reading` and `first_writing` find the smallest index from `from` on whose instruction
/// reads (writes) the datum, and nothing when no such instruction is left.
proof fn lemma_first_use<Datum, Insn: DataFlow<Datum>>(s: Seq<Insn>, datum: Datum, from: int)
    requires
        0 <= from,
    ensures
        first_reading(s, datum, from) matches Some(i) ==> from <= i < s.len()
            && s[i].spec_reads(&datum)
            && forall|k: int| from <= k < i ==> !(#[trigger] s[k].spec_reads(&datum)),
        first_reading(s, datum, from) is None ==> forall|k: int|
            from <= k < s.len() ==> !(#[trigger] s[k].spec_reads(&datum)),
        first_writing(s, datum, from) matches Some(i) ==> from <= i < s.len()
            && s[i].spec_writes(&datum)
            && forall|k: int| from <= k < i ==> !(#[trigger] s[k].spec_writes(&datum)),
        first_writing(s, datum, from) is None ==> forall|k: int|
            from <= k < s.len() ==> !(#[trigger] s[k].spec_writes(&datum)),
    decreases s.len() - from,
{
    if from < s.len() {
        lemma_first_use(s, datum, from + 1);
    }
}

/// A datum is uninitialized exactly when an instruction reads it with no strictly earlier
/// instruction writing it: `uninitialized` succeeds iff every instruction that reads the datum
/// has a writer of it at a smaller index (an instruction that both reads and writes the datum does
/// not initialize it for its own read). When it fails, the fixup is the one of the first reading
/// instruction, and no instruction before that one writes the datum.
pub proof fn lemma_uninitialized_is_read_before_write<Datum, Insn: DataFlow<Datum>>(
    s: Seq<Insn>,
    datum: Datum,
)
    ensures
        spec_uninitialized(s, datum) is Ok <==> forall|r: int|
            0 <= r < s.len() && #[trigger] s[r].spec_reads(&datum) ==> exists|w: int|
                0 <= w < r && #[trigger] s[w].spec_writes(&datum),
        spec_uninitialized(s, datum) matches Err(f) ==> exists|r: int|
            0 <= r < s.len() && #[trigger] s[r].spec_reads(&datum) && f == s[r].spec_sa() && (
            forall|k: int| 0 <= k < r ==> !(#[trigger] s[k].spec_reads(&datum))) && (forall|k: int|
                0 <= k < r ==> !(#[trigger] s[k].spec_writes(&datum))),
{
    lemma_first_use(s, datum, 0);
    match first_reading(s, datum, 0) {
        None => {},
        Some(read) => {
            assert(s[read].spec_reads(&datum));
            match first_writing(s, datum, 0) {
                Some(write) => {
                    assert(s[write].spec_writes(&datum));
                    if write < read {
                        assert forall|r: int|
                            0 <= r < s.len() && #[trigger] s[r].spec_reads(
                                &datum,
                            ) implies exists|w: int|
                            0 <= w < r && #[trigger] s[w].spec_writes(&datum) by {
                            assert(read <= r);
                        }
                    } else {
                        assert(forall|k: int| 0 <= k < read ==> !(#[trigger] s[k].spec_writes(&datum)));
                    }
                },
                None => {},
            }
        },
    }
}

/// Whether the write at `w` counts as used: scanning from `from` (the instruction after the
/// write, to begin with), the first instruction that touches the datum decides, a read making it
/// used and a write (with no read) making it unused. So a write is used exactly when a later
/// instruction reads the datum with no write in between.
pub open spec fn write_used<Datum, Insn: DataFlow<Datum>>(s: Seq<Insn>, datum: Datum, w: int, from: int) -> bool
    decreases s.len() - from,
{
    if from < 0 || from >= s.len() {
        false
    } else if s[from].spec_reads(&datum) {
        true
    } else if s[from].spec_writes(&datum) {
        false
    } else {
        write_used(s, datum, w, from + 1)
    }
}

/// The first write (from index `from` on) that no read uses.
pub open spec fn first_unused_write<Datum, Insn: DataFlow<Datum>>(s: Seq<Insn>, datum: Datum, from: int) -> Option<int>
    decreases s.len() - from,
{
    if from < 0 || from >= s.len() {
        None
    } else if s[from].spec_writes(&datum) && !write_used(s, datum, from, from + 1) {
        Some(from)
    } else {
        first_unused_write(s, datum, from + 1)
    }
}

/// The analysis that finds a write of `datum` that nothing reads.
pub open spec fn spec_dont_expect_write<Datum, Insn: DataFlow<Datum>>(s: Seq<Insn>, datum: Datum) -> Result<(), Fixup> {
    match first_unused_write(s, datum, 0) {
        Some(i) => Err(Fixup { offset: i as usize, ..s[i].spec_sa() }),
        None => Ok(()),
    }
}

/// Whether the write at `w` is used, scanning from the instruction after it.
fn is_write_used<Datum, Insn: DataFlow<Datum>>(sequence: &[Insn], datum: &Datum, w: usize) -> (r: bool)
    requires
        w < sequence@.len(),
    ensures
        r == write_used(sequence@, *datum, w as int, w + 1),
{
    let n = sequence.len();
    assert(w < n);
    let mut offs = w + 1;
    while offs < sequence.len()
        invariant
            w < offs <= sequence@.len(),
            write_used(sequence@, *datum, w as int, offs as int) == write_used(
                sequence@,
                *datum,
                w as int,
                w + 1,
            ),
        decreases sequence.len() - offs,
    {
        let insn = &sequence[offs];
        if insn.reads(datum) {
            // The write I found is followed by a read,
            // so there's nothing to do here.
            return true;
        }
        if insn.writes(datum) {
            // The write I found gets been clobbered,
            // so let's return a Fixup
            return false;
        }
        offs = offs + 1;
    }
    false
}

/// If the sequence writes to `datum` without reading from it afterward, then this function returns a
/// fixup modifying the first instruction in the sequence that writes to `datum`. This
/// means that The sequence will not write to `datum` unless it is later used.
pub fn dont_expect_write<Datum, Insn: DataFlow<Datum>>(sequence: &[Insn], datum: &Datum) -> (r: Result<(), Fixup>)
    ensures
        r == spec_dont_expect_write(sequence@, *datum),
{
    let mut offset: usize = 0;
    while offset < sequence.len()
        invariant
            offset <= sequence@.len(),
            first_unused_write(sequence@, *datum, offset as int) == first_unused_write(
                sequence@,
                *datum,
                0,
            ),
        decreases sequence.len() - offset,
    {
        let write = &sequence[offset];
        if write.writes(datum) && !is_write_used(sequence, datum, offset) {
            return Err(write.sa().set_offset(offset));
        }
        offset = offset + 1;
    }
    Ok(())
}

/// Whether any instruction of the sequence writes `datum`.
pub open spec fn any_writes<Datum, Insn: DataFlow<Datum>>(s: Seq<Insn>, datum: Datum) -> bool {
    exists|i: int| 0 <= i < s.len() && #[trigger] s[i].spec_writes(&datum)
}

/// Whether any instruction of the sequence reads `datum`.
pub open spec fn any_reads<Datum, Insn: DataFlow<Datum>>(s: Seq<Insn>, datum: Datum) -> bool {
    exists|i: int| 0 <= i < s.len() && #[trigger] s[i].spec_reads(&datum)
}

/// If the sequence does not contains any instruction that writes to `datum`, then this returns a
/// fixup modifying the first instruction in the sequence. Successively applying these
/// will make sure that the sequence writes to `datum`.
pub fn expect_write<Datum, Insn: DataFlow<Datum>>(sequence: &[Insn], datum: &Datum) -> (r: Result<(), Fixup>)
    requires
        sequence@.len() > 0,
    ensures
        r == (if any_writes(sequence@, *datum) { Ok(()) } else { Err(sequence@[0].spec_sa()) }),
{
    let mut i: usize = 0;
    while i < sequence.len()
        invariant
            i <= sequence@.len(),
            forall|j: int| 0 <= j < i ==> !(#[trigger] sequence@[j].spec_writes(datum)),
        decreases sequence.len() - i,
    {
        if sequence[i].writes(datum) {
            return Ok(());
        }
        i = i + 1;
    }
    // There's no instruction in the sequence writing to `datum`
    Err(sequence[0].sa())
}

/// If the sequence does not contains any instruction that reads from `datum`, then this returns a
/// fixup modifying the first instruction in the sequence. Successively applying these
/// will make sure that the sequence reads from `datum`.
pub fn expect_read<Datum, Insn: DataFlow<Datum>>(sequence: &[Insn], datum: &Datum) -> (r: Result<(), Fixup>)
    requires
        sequence@.len() > 0,
    ensures
        r == (if any_reads(sequence@, *datum) { Ok(()) } else { Err(sequence@[0].spec_sa()) }),
{
    let mut i: usize = 0;
    while i < sequence.len()
        invariant
            i <= sequence@.len(),
            forall|j: int| 0 <= j < i ==> !(#[trigger] sequence@[j].spec_reads(datum)),
        decreases sequence.len() - i,
    {
        if sequence[i].reads(datum) {
            return Ok(());
        }
        i = i + 1;
    }
    // There's no instruction in the sequence reading from `datum`
    Err(sequence[0].sa())
}

} // verus!
