//! Module for pruning down a search for 6502 programs.
use crate::m6502::isa::{lemma_fixup_moves_forward, Insn, Variant6502};
use crate::ConstraintViolation;
use vstd::prelude::*;

verus! {

/// Reduces the set of 6502 instructions that a constraint solver will consider.
#[derive(Debug, Default)]
pub struct Prune {
    readable_locations: Vec<u16>,
    writable_locations: Vec<u16>,
    indexable_locations: Vec<u16>,
    pointer_locations: Vec<u16>,
    entry_points: Vec<u16>,
}

/// The locations a `Prune` knows of, by kind, in the order they were given.
pub struct PruneView {
    pub readable: Seq<u16>,
    pub writable: Seq<u16>,
    pub indexable: Seq<u16>,
    pub pointers: Seq<u16>,
    pub entry_points: Seq<u16>,
}

impl View for Prune {
    type V = PruneView;

    closed spec fn view(&self) -> PruneView {
        PruneView {
            readable: self.readable_locations@,
            writable: self.writable_locations@,
            indexable: self.indexable_locations@,
            pointers: self.pointer_locations@,
            entry_points: self.entry_points@,
        }
    }
}

/// Whether `r` is the smallest of the values in `rngs` that are above `addr` (or nothing, when
/// none is).
pub open spec fn is_next_in(rngs: Seq<u16>, addr: u16, r: Option<u16>) -> bool {
    match r {
        None => forall|i: int| 0 <= i < rngs.len() ==> rngs[i] <= addr,
        Some(m) => addr < m && rngs.contains(m) && forall|i: int|
            0 <= i < rngs.len() && addr < rngs[i] ==> m <= rngs[i],
    }
}

/// The smallest of the values in `rngs` that are above `addr`, if any is.
pub open spec fn next_above(rngs: Seq<u16>, addr: u16) -> Option<u16>
    decreases rngs.len(),
{
    if rngs.len() == 0 {
        None
    } else {
        let rest = next_above(rngs.drop_last(), addr);
        let x = rngs.last();
        if addr < x {
            match rest {
                None => Some(x),
                Some(m) => if x < m {
                    Some(x)
                } else {
                    Some(m)
                },
            }
        } else {
            rest
        }
    }
}

/// `next_above` finds the smallest value above the address, and finds one whenever there is one.
pub proof fn lemma_next_above(rngs: Seq<u16>, addr: u16)
    ensures
        is_next_in(rngs, addr, next_above(rngs, addr)),
    decreases rngs.len(),
{
    if rngs.len() > 0 {
        let init = rngs.drop_last();
        lemma_next_above(init, addr);
        assert forall|i: int| 0 <= i < init.len() implies init[i] == rngs[i] by {}
        match next_above(init, addr) {
            Some(m) => {
                let w = choose|j: int| 0 <= j < init.len() && init[j] == m;
                assert(rngs[w] == m);
            },
            None => {},
        }
        assert(rngs[rngs.len() - 1] == rngs.last());
    }
}

/// Finds the smallest of the values in `rngs` that are above `addr`.
pub fn next_in_ranges(rngs: &[u16], addr: u16) -> (r: Option<u16>)
    ensures
        r == next_above(rngs@, addr),
        is_next_in(rngs@, addr, r),
{
    let mut best: Option<u16> = None;
    let mut k: usize = 0;
    while k < rngs.len()
        invariant
            k <= rngs@.len(),
            best == next_above(rngs@.take(k as int), addr),
        decreases rngs@.len() - k,
    {
        let x = rngs[k];
        if x > addr {
            match best {
                None => {
                    best = Some(x);
                },
                Some(m) => {
                    if x < m {
                        best = Some(x);
                    }
                },
            }
        }
        proof {
            let t = rngs@.take(k + 1);
            assert(t.drop_last() =~= rngs@.take(k as int));
            assert(t.last() == x);
        }
        k = k + 1;
    }
    assert(rngs@.take(rngs@.len() as int) =~= rngs@);
    proof {
        lemma_next_above(rngs@, addr);
    }
    best
}

/// Whether `v` holds `x`.
fn holds(v: &Vec<u16>, x: u16) -> (r: bool)
    ensures
        r == v@.contains(x),
{
    let mut k: usize = 0;
    while k < v.len()
        invariant
            k <= v@.len(),
            forall|i: int| 0 <= i < k ==> v@[i] != x,
        decreases v@.len() - k,
    {
        if v[k] == x {
            return true;
        }
        k = k + 1;
    }
    false
}

impl Prune {
    /// Build a new, default, `Prune` object, which knows of no locations.
    pub fn new() -> (r: Self)
        ensures
            r@.readable == Seq::<u16>::empty(),
            r@.writable == Seq::<u16>::empty(),
            r@.indexable == Seq::<u16>::empty(),
            r@.pointers == Seq::<u16>::empty(),
            r@.entry_points == Seq::<u16>::empty(),
    {
        Prune {
            readable_locations: Vec::new(),
            writable_locations: Vec::new(),
            indexable_locations: Vec::new(),
            pointer_locations: Vec::new(),
            entry_points: Vec::new(),
        }
    }

    /// Informs the `Prune` object of a region of readable memory. The `Prune` will prune away
    /// instructions which read from locations not known to be readable.
    pub fn readable(&mut self, address: u16) -> (r: &Self)
        ensures
            final(self)@.readable == old(self)@.readable.push(address),
            final(self)@.writable == old(self)@.writable,
            final(self)@.indexable == old(self)@.indexable,
            final(self)@.pointers == old(self)@.pointers,
            final(self)@.entry_points == old(self)@.entry_points,
            *r == *final(self),
    {
        self.readable_locations.push(address);
        self
    }

    /// Informs the `Prune` object of a region of writeable memory. The `Prune` will prune away
    /// instructions which write to locations not known to be writable.
    pub fn writable(&mut self, address: u16) -> (r: &Self)
        ensures
            final(self)@.readable == old(self)@.readable,
            final(self)@.writable == old(self)@.writable.push(address),
            final(self)@.indexable == old(self)@.indexable,
            final(self)@.pointers == old(self)@.pointers,
            final(self)@.entry_points == old(self)@.entry_points,
            *r == *final(self),
    {
        self.writable_locations.push(address);
        self
    }

    /// Informs the `Prune` object of an array, or some other multi-byte region of memory. The
    /// `Prune` will prune away instructions which use indexed addressing modes on locations not
    /// known to be indexable.
    pub fn indexable(&mut self, address: u16) -> (r: &Self)
        ensures
            final(self)@.readable == old(self)@.readable,
            final(self)@.writable == old(self)@.writable,
            final(self)@.indexable == old(self)@.indexable.push(address),
            final(self)@.pointers == old(self)@.pointers,
            final(self)@.entry_points == old(self)@.entry_points,
            *r == *final(self),
    {
        self.indexable_locations.push(address);
        self
    }

    /// Informs the `Prune` object of a pointer somewhere in memory. The `Prune` object will prune
    /// away any instructions that dereference pointers not stored at the known addresses.
    pub fn pointer(&mut self, address: u16) -> (r: &Self)
        ensures
            final(self)@.readable == old(self)@.readable,
            final(self)@.writable == old(self)@.writable,
            final(self)@.indexable == old(self)@.indexable,
            final(self)@.pointers == old(self)@.pointers.push(address),
            final(self)@.entry_points == old(self)@.entry_points,
            *r == *final(self),
    {
        self.pointer_locations.push(address);
        self
    }

    /// Informs the `Prune` object of an entry point. The `Prune` will prune away any `jmp` or
    /// `jsr` instructions not targeting a known entry point.
    pub fn entry_point(&mut self, entry_point: u16) -> (r: &Self)
        ensures
            final(self)@.readable == old(self)@.readable,
            final(self)@.writable == old(self)@.writable,
            final(self)@.indexable == old(self)@.indexable,
            final(self)@.pointers == old(self)@.pointers,
            final(self)@.entry_points == old(self)@.entry_points.push(entry_point),
            *r == *final(self),
    {
        self.entry_points.push(entry_point);
        self
    }

    /// What `prune` makes of an instruction. An instruction that reads from memory must read
    /// from a readable location: if none is known, the next opcode is proposed; if it reads from
    /// another location, it is proposed with the next readable location above (when there is
    /// one; the next opcode otherwise).
    pub open spec fn pruned<V: Variant6502>(self, i: Insn<V>) -> ConstraintViolation<Insn<V>> {
        match i.read() {
            None => ConstraintViolation::Satisfied,
            Some(addr) => if self@.readable.len() == 0 {
                i.opcode_bumped()
            } else if self@.readable.contains(addr) {
                ConstraintViolation::Satisfied
            } else {
                match next_above(self@.readable, addr) {
                    Some(a) => i.operand_bumped(a),
                    None => i.opcode_bumped(),
                }
            },
        }
    }

    /// Checks an instruction against the known locations.
    pub fn prune<V: Variant6502>(&self, i: &Insn<V>) -> (r: ConstraintViolation<Insn<V>>)
        requires
            i.decodable(),
        ensures
            r == self.pruned(*i),
    {
        if let Some(addr) = i.reads_from() {
            // The instruction reads from some location.
            if self.readable_locations.len() == 0 {
                // The instruction reads from a location, but there are no readable locations
                // specified. So we need to propose the next opcode
                i.next_opcode()
            } else if holds(&self.readable_locations, addr) {
                // The instruction reads from a permitted location; nothing else to check for this
                // instruction.
                ConstraintViolation::Satisfied
            } else if let Some(addr) = next_in_ranges(self.readable_locations.as_slice(), addr) {
                // The instruction reads from the wrong location, but we know another location it
                // could try instead
                i.bump_operand(addr)
            } else {
                // The instruction reads from the wrong location and we don't know another location
                // it could try; bump it to the next opcode.
                i.next_opcode()
            }
        } else {
            ConstraintViolation::Satisfied
        }
    }
}

/// What the pruning answers: an instruction is accepted exactly when it reads from no location
/// or from a readable one; and what it proposes in its place comes later in the search, with a
/// later opcode, or with the same opcode and a readable address above the one it read from.
pub proof fn lemma_prune_answers<V: Variant6502>(p: Prune, i: Insn<V>)
    requires
        i.decodable(),
    ensures
        p.pruned(i) is Satisfied <==> (i.read() is None || p@.readable.contains(i.read()->0)),
        p.pruned(i) is ReplaceWith ==> ({
            let j = p.pruned(i)->ReplaceWith_0;
            ||| j.0[0] > i.0[0]
            ||| {
                &&& j.0[0] == i.0[0]
                &&& j.decodable()
                &&& i.read() is Some
                &&& j.operand_address() is Some
                &&& i.read()->0 < j.operand_address()->0
                &&& p@.readable.contains(j.operand_address()->0)
            }
        }),
{
    lemma_next_above(p@.readable, i.read()->0);
    let op = i.0[0];
    if op < 0xff {
        lemma_fixup_moves_forward::<V>(seq![(op + 1) as u8, 0u8, 0u8]);
    }
    match p.pruned(i) {
        ConstraintViolation::ReplaceWith(j) => {
            if j.0[0] == i.0[0] {
                let a = next_above(p@.readable, i.read()->0)->0;
                assert(j.0[1] == (a % 256) as u8 && j.0[2] == (a / 256) as u8);
                assert(j.decoding() == i.decoding());
            }
        },
        _ => {},
    }
}

} // verus!
