//! Disassembly.
use crate::text::push_str;
use vstd::prelude::*;

verus! {

/// A trait for producing the disassembly of an instruction. Expect all types representing
/// machine instructions to impl this trait.
pub trait Disassemble {
    /// The text of the disassembly.
    spec fn spec_dasm(&self) -> Seq<char>;

    /// The disassembly
    fn dasm(&self) -> (r: String)
        ensures
            r@ == self.spec_dasm(),
    ;

    /// The disassembly, including a binary representation
    fn debug(&self) -> String;
}

/// The lines of a listing: each instruction's disassembly, indented by four spaces, on a line of
/// its own.
pub open spec fn listing_lines<T: Disassemble>(s: Seq<T>) -> Seq<char>
    decreases s.len(),
{
    if s.len() == 0 {
        Seq::empty()
    } else {
        listing_lines(s.drop_last()) + "    "@ + s.last().spec_dasm() + "\n"@
    }
}

/// A struct for writing out a sequence of instructions under a name.
#[derive(Debug)]
pub struct Disassembly<'a, T: Disassemble>(&'a [T], &'a str);

impl<'a, T: Disassemble> Disassembly<'a, T> {
    /// The instructions listed.
    pub closed spec fn spec_instructions(&self) -> Seq<T> {
        self.0@
    }

    /// The name they are listed under.
    pub closed spec fn spec_name(&self) -> Seq<char> {
        self.1@
    }

    /// Construct a new disassembly
    pub fn new(t: &'a [T], name: &'a str) -> (r: Self)
        ensures
            r.spec_instructions() == t@,
            r.spec_name() == name@,
    {
        Self(t, name)
    }

    /// The listing: the name and a colon on a line, then each instruction's disassembly on a
    /// line of its own, indented by four spaces.
    pub open spec fn listing(&self) -> Seq<char> {
        self.spec_name() + ":\n"@ + listing_lines(self.spec_instructions())
    }

    /// Writes out the listing.
    pub fn to_string(&self) -> (r: String)
        ensures
            r@ == self.listing(),
    {
        let mut s = String::new();
        push_str(&mut s, self.1);
        push_str(&mut s, ":\n");
        let ghost head = s@;
        let mut k: usize = 0;
        while k < self.0.len()
            invariant
                k <= self.0@.len(),
                head == self.spec_name() + ":\n"@,
                s@ == head + listing_lines(self.0@.take(k as int)),
            decreases self.0@.len() - k,
        {
            let d = self.0[k].dasm();
            push_str(&mut s, "    ");
            push_str(&mut s, d.as_str());
            push_str(&mut s, "\n");
            proof {
                let t = self.0@.take(k + 1);
                assert(t.drop_last() =~= self.0@.take(k as int));
                assert(t.last() == self.0@[k as int]);
                assert(s@ =~= head + listing_lines(t));
            }
            k = k + 1;
        }
        assert(self.0@.take(self.0@.len() as int) =~= self.0@);
        s
    }

    /// The instructions.
    pub fn instructions(&self) -> (r: &'a [T])
        ensures
            r@ == self.spec_instructions(),
    {
        self.0
    }

    /// The name under which the instructions are listed.
    pub fn name(&self) -> (r: &'a str)
        ensures
            r@ == self.spec_name(),
    {
        self.1
    }
}

} // verus!
