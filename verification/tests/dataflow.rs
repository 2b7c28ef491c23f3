use strop::dataflow::{
    dont_expect_write, expect_read, expect_write, leave_alone, leave_alone_except_last,
    uninitialized, DataFlow,
};
use strop::{Fixup, FixupReason};

/// A toy instruction: the registers it reads and the registers it writes.
struct Op {
    reads: &'static [u8],
    writes: &'static [u8],
}

impl DataFlow<u8> for Op {
    fn spec_reads(&self, datum: &u8) -> bool {
        self.reads.contains(datum)
    }

    fn spec_writes(&self, datum: &u8) -> bool {
        self.writes.contains(datum)
    }

    fn spec_sa(&self) -> Fixup {
        self.sa()
    }

    fn reads(&self, datum: &u8) -> bool {
        self.reads.contains(datum)
    }

    fn writes(&self, datum: &u8) -> bool {
        self.writes.contains(datum)
    }

    fn sa(&self) -> Fixup {
        Fixup { offset: 99, reason: FixupReason::LeaveAlone }
    }
}

fn op(reads: &'static [u8], writes: &'static [u8]) -> Op {
    Op { reads, writes }
}

#[test]
fn leave_alone_finds_the_first_use() {
    let s = [op(&[1], &[]), op(&[], &[2]), op(&[2], &[])];
    assert_eq!(leave_alone(&s, &3), Ok(()));
    assert_eq!(leave_alone(&s, &2).unwrap_err().offset, 1);
    assert_eq!(leave_alone(&s, &1).unwrap_err().offset, 0);
    assert_eq!(leave_alone_except_last(&s, &2).unwrap_err().offset, 1);
    let t = [op(&[1], &[]), op(&[], &[]), op(&[2], &[])];
    assert_eq!(leave_alone_except_last(&t, &2), Ok(()));
}

#[test]
fn uninitialized_reads() {
    let s = [op(&[], &[1]), op(&[1], &[])];
    assert_eq!(uninitialized(&s, &1), Ok(()));
    let s = [op(&[1], &[]), op(&[], &[1])];
    assert_eq!(uninitialized(&s, &1).unwrap_err().offset, 99);
    let s = [op(&[1], &[])];
    assert!(uninitialized(&s, &1).is_err());
    assert_eq!(uninitialized(&s, &2), Ok(()));
}

#[test]
fn writes_must_be_used() {
    // a write that a later instruction reads is used
    let s = [op(&[], &[1]), op(&[1], &[])];
    assert_eq!(dont_expect_write(&s, &1), Ok(()));
    let s = [op(&[], &[]), op(&[], &[1]), op(&[], &[]), op(&[1], &[])];
    assert_eq!(dont_expect_write(&s, &1), Ok(()));
    assert_eq!(dont_expect_write(&s, &2), Ok(()));
    // a write that nothing reads afterwards is flagged at its offset
    let s = [op(&[], &[1])];
    assert_eq!(dont_expect_write(&s, &1).unwrap_err().offset, 0);
    let s = [op(&[1], &[1])];
    assert_eq!(dont_expect_write(&s, &1).unwrap_err().offset, 0);
    // as is one overwritten before any read
    let s = [op(&[], &[1]), op(&[], &[1]), op(&[1], &[])];
    assert_eq!(dont_expect_write(&s, &1).unwrap_err().offset, 0);
    let s = [op(&[], &[1]), op(&[], &[2]), op(&[], &[1])];
    assert_eq!(dont_expect_write(&s, &1).unwrap_err().offset, 0);
}

#[test]
fn expected_reads_and_writes() {
    let s = [op(&[1], &[]), op(&[], &[2])];
    assert_eq!(expect_write(&s, &2), Ok(()));
    assert_eq!(expect_write(&s, &1).unwrap_err().offset, 99);
    assert_eq!(expect_read(&s, &1), Ok(()));
    assert!(expect_read(&s, &2).is_err());
}
