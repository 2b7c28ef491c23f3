//! Building the text of disassembly listings: hexadecimal and decimal renderings of numbers.
use vstd::prelude::*;
use vstd::string::*;

verus! {

/// The lower-case hexadecimal digit for `d`.
pub open spec fn hex_char(d: int) -> char {
    if d == 0 { '0' } else if d == 1 { '1' } else if d == 2 { '2' } else if d == 3 { '3' }
    else if d == 4 { '4' } else if d == 5 { '5' } else if d == 6 { '6' } else if d == 7 { '7' }
    else if d == 8 { '8' } else if d == 9 { '9' } else if d == 10 { 'a' } else if d == 11 { 'b' }
    else if d == 12 { 'c' } else if d == 13 { 'd' } else if d == 14 { 'e' } else { 'f' }
}

/// `n` in lower-case hexadecimal, padded with zeros to at least `width` digits.
pub open spec fn hex_padded(n: nat, width: nat) -> Seq<char>
    decreases width, n,
{
    if width == 0 && n == 0 {
        Seq::empty()
    } else {
        let w: nat = if width == 0 { 0 } else { (width - 1) as nat };
        hex_padded(n / 16, w).push(hex_char((n % 16) as int))
    }
}

/// `n` in lower-case hexadecimal with no leading zeros (zero is written as one digit).
pub open spec fn hex(n: nat) -> Seq<char> {
    hex_padded(n, 1)
}

/// The decimal digit for `d`.
pub open spec fn dec_char(d: int) -> char {
    hex_char(d)
}

/// `n` in decimal, padded with zeros to at least `width` digits.
pub open spec fn dec_padded(n: nat, width: nat) -> Seq<char>
    decreases width, n,
{
    if width == 0 && n == 0 {
        Seq::empty()
    } else {
        let w: nat = if width == 0 { 0 } else { (width - 1) as nat };
        dec_padded(n / 10, w).push(dec_char((n % 10) as int))
    }
}

/// `n` in decimal with no leading zeros.
pub open spec fn dec(n: nat) -> Seq<char> {
    dec_padded(n, 1)
}

/// A signed number in decimal, with a leading `-` when it is negative.
pub open spec fn dec_signed(n: int) -> Seq<char> {
    if n < 0 {
        seq!['-'] + dec((-n) as nat)
    } else {
        dec(n as nat)
    }
}

/// Appends one character to a string.
#[verifier::external_body]
pub(crate) fn push_char(s: &mut String, c: char)
    ensures
        final(s)@ == old(s)@.push(c),
{
    s.push(c)
}

/// A byte in two hexadecimal digits.
pub open spec fn hex2(b: u8) -> Seq<char> {
    hex_padded(b as nat, 2)
}

/// The bytes in hexadecimal, two digits each, separated by spaces.
pub open spec fn hex_bytes(b: Seq<u8>) -> Seq<char>
    decreases b.len(),
{
    if b.len() == 0 {
        Seq::empty()
    } else if b.len() == 1 {
        hex2(b[0])
    } else {
        hex_bytes(b.drop_last()) + " "@ + hex2(b.last())
    }
}

/// The bytes in hexadecimal, two digits each, separated by spaces.
pub fn hex_bytes_string(bytes: &Vec<u8>) -> (r: String)
    ensures
        r@ == hex_bytes(bytes@),
{
    let mut s = String::new();
    let mut k: usize = 0;
    while k < bytes.len()
        invariant
            k <= bytes@.len(),
            s@ == hex_bytes(bytes@.take(k as int)),
        decreases bytes@.len() - k,
    {
        if k > 0 {
            push_str(&mut s, " ");
        }
        push_hex(&mut s, bytes[k] as u32, 2);
        proof {
            let t = bytes@.take(k + 1);
            assert(t.drop_last() =~= bytes@.take(k as int));
            assert(t.last() == bytes@[k as int]);
            if k == 0 {
                assert(hex_bytes(bytes@.take(0)) =~= Seq::<char>::empty());
            }
            assert(s@ =~= hex_bytes(t));
        }
        k = k + 1;
    }
    assert(bytes@.take(bytes@.len() as int) =~= bytes@);
    s
}

/// Appends a string slice to a string.
pub(crate) fn push_str(s: &mut String, t: &str)
    ensures
        final(s)@ == old(s)@ + t@,
{
    s.append(t)
}

/// The character for a digit below sixteen.
pub fn digit_char(d: u8) -> (c: char)
    requires
        d < 16,
    ensures
        c == hex_char(d as int),
{
    match d {
        0 => '0', 1 => '1', 2 => '2', 3 => '3', 4 => '4', 5 => '5', 6 => '6', 7 => '7',
        8 => '8', 9 => '9', 10 => 'a', 11 => 'b', 12 => 'c', 13 => 'd', 14 => 'e', _ => 'f',
    }
}

/// Appends `n` in hexadecimal, zero-padded to at least `width` digits.
pub fn push_hex(s: &mut String, n: u32, width: u32)
    requires
        width <= 8,
    ensures
        final(s)@ == old(s)@ + hex_padded(n as nat, width as nat),
    decreases width, n,
{
    if width == 0 && n == 0 {
        assert(hex_padded(n as nat, width as nat) =~= Seq::<char>::empty());
        assert(s@ =~= s@ + Seq::<char>::empty());
    } else {
        let w: u32 = if width == 0 { 0 } else { width - 1 };
        let ghost before = s@;
        push_hex(s, n / 16, w);
        push_char(s, digit_char((n % 16) as u8));
        assert(s@ =~= before + hex_padded(n as nat, width as nat));
    }
}

/// Appends `n` in decimal, zero-padded to at least `width` digits.
pub fn push_dec(s: &mut String, n: u32, width: u32)
    requires
        width <= 10,
    ensures
        final(s)@ == old(s)@ + dec_padded(n as nat, width as nat),
    decreases width, n,
{
    if width == 0 && n == 0 {
        assert(dec_padded(n as nat, width as nat) =~= Seq::<char>::empty());
        assert(s@ =~= s@ + Seq::<char>::empty());
    } else {
        let w: u32 = if width == 0 { 0 } else { width - 1 };
        let ghost before = s@;
        push_dec(s, n / 10, w);
        push_char(s, digit_char((n % 10) as u8));
        assert(s@ =~= before + dec_padded(n as nat, width as nat));
    }
}

/// Appends a signed number in decimal.
pub fn push_dec_signed(s: &mut String, n: i32)
    ensures
        final(s)@ == old(s)@ + dec_signed(n as int),
{
    if n < 0 {
        let ghost before = s@;
        push_char(s, '-');
        let m: u32 = if n == i32::MIN { 0x8000_0000u32 } else { (-n) as u32 };
        push_dec(s, m, 1);
        assert(s@ =~= before + dec_signed(n as int));
    } else {
        push_dec(s, n as u32, 1);
    }
}

} // verus!
