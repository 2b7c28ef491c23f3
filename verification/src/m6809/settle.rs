//! Laws of the fixup of 6809 instructions: it only moves an encoding forward, and the encoding it
//! moves an instruction to is one that it leaves alone; so each step of the search moves forward.
use crate::m6809::isa::{
    fixup_page2, fixup_page3, page1_low, page2_high, page2_high_indexed, page2_indexed,
    page2_indexed_on, page2_low, page2_mid, page2_mid_on, page3_high, page3_high_on, page3_indexed,
    page3_indexed_on, page3_low, spec_fixup, fixup_page1_rest, rest_38, rest_bc, rest_e0, rest_indexed, rest_lea, rest_tfr, page1_12, page1_38, page1_bc, page1_e0, page1_indexed, page1_lea,
    page1_tfr, all_ff, incr_bytes, be_prefix, lemma_incr_bytes, Insn, lemma_tfr_bad_not_zero, list_walk, postbyte_fixed, postbyte_skip,
    postbyte_walk, tfr_bad, tfr_fixed, tfr_walk,
};
use vstd::prelude::*;

verus! {

/// Whether the list is strictly ascending.
pub open spec fn ascending(ops: Seq<u8>) -> bool {
    forall|j: int| 0 <= j < ops.len() - 1 ==> #[trigger] ops[j] < ops[j + 1]
}

/// Any two entries of an ascending list are in order.
pub proof fn lemma_ascending(ops: Seq<u8>)
    requires
        ascending(ops),
    ensures
        forall|j: int, k: int| 0 <= j < k < ops.len() ==> ops[j] < ops[k],
{
    assert forall|j: int, k: int| 0 <= j < k < ops.len() implies ops[j] < ops[k] by {
        lemma_ascending_from(ops, j, k);
    }
}

proof fn lemma_ascending_from(ops: Seq<u8>, j: int, k: int)
    requires
        ascending(ops),
        0 <= j < k < ops.len(),
    ensures
        ops[j] < ops[k],
    decreases k - j,
{
    assert(ops[k - 1] < ops[k]);
    if j < k - 1 {
        lemma_ascending_from(ops, j, k - 1);
    }
}

/// A list walk from `i` skips every entry below the byte, and stops at the first one that is not.
pub proof fn lemma_list_walk_stops(b: Seq<u8>, ops: Seq<u8>, pos: int, i: int, k: int)
    requires
        0 <= i <= k,
        forall|j: int| i <= j < k ==> b[pos] > #[trigger] ops[j],
    ensures
        k < ops.len() && b[pos] <= ops[k] ==> list_walk(b, ops, pos, i) == (b.update(pos, ops[k]), true),
        k >= ops.len() ==> list_walk(b, ops, pos, i) == (b, false),
    decreases k - i,
{
    if i < k {
        lemma_list_walk_stops(b, ops, pos, i + 1, k);
    }
}

/// What a list walk from the start gives: the first entry not below the byte put in place, or
/// nothing changed when every entry is below it.
pub proof fn lemma_list_walk_result(b: Seq<u8>, ops: Seq<u8>, pos: int, i: int)
    requires
        0 <= i,
    ensures
        list_walk(b, ops, pos, i).1 ==> exists|k: int|
            i <= k < ops.len() && b[pos] <= ops[k] && list_walk(b, ops, pos, i).0 == b.update(
                pos,
                ops[k],
            ) && forall|j: int| i <= j < k ==> b[pos] > #[trigger] ops[j],
        !list_walk(b, ops, pos, i).1 ==> list_walk(b, ops, pos, i).0 == b && forall|j: int|
            i <= j < ops.len() ==> b[pos] > #[trigger] ops[j],
    decreases ops.len() - i,
{
    if i < ops.len() && b[pos] > ops[i] {
        lemma_list_walk_result(b, ops, pos, i + 1);
        if list_walk(b, ops, pos, i + 1).1 {
            let k = choose|k: int|
                i + 1 <= k < ops.len() && b[pos] <= ops[k] && list_walk(b, ops, pos, i + 1).0
                    == b.update(pos, ops[k]) && forall|j: int|
                    i + 1 <= j < k ==> b[pos] > #[trigger] ops[j];
            assert(forall|j: int| i <= j < k ==> b[pos] > #[trigger] ops[j]);
        }
    }
}

/// A list walk settles: walking the ascending list again over what a successful walk gave puts
/// the same entry in place; and over a byte above every entry, the walk changes nothing.
pub proof fn lemma_list_walk_settles(b: Seq<u8>, ops: Seq<u8>, pos: int)
    requires
        ascending(ops),
        0 <= pos < b.len(),
    ensures
        list_walk(b, ops, pos, 0).0.len() == b.len(),
        list_walk(b, ops, pos, 0).1 ==> list_walk(list_walk(b, ops, pos, 0).0, ops, pos, 0) == list_walk(b, ops, pos, 0),
        list_walk(b, ops, pos, 0).1 ==> list_walk(b, ops, pos, 0).0[pos] >= b[pos],
        !list_walk(b, ops, pos, 0).1 ==> list_walk(b, ops, pos, 0).0 == b,
        !list_walk(b, ops, pos, 0).1 ==> forall|j: int| 0 <= j < ops.len() ==> b[pos] > #[trigger] ops[j],
{
    lemma_ascending(ops);
    lemma_list_walk_result(b, ops, pos, 0);
    if list_walk(b, ops, pos, 0).1 {
        let k = choose|k: int|
            0 <= k < ops.len() && b[pos] <= ops[k] && list_walk(b, ops, pos, 0).0 == b.update(
                pos,
                ops[k],
            ) && forall|j: int| 0 <= j < k ==> b[pos] > #[trigger] ops[j];
        let c = b.update(pos, ops[k]);
        assert forall|j: int| 0 <= j < k implies c[pos] > #[trigger] ops[j] by {
            assert(ops[j] < ops[k]);
        }
        lemma_list_walk_stops(c, ops, pos, 0, k);
        assert(c.update(pos, ops[k]) =~= c);
    }
}

/// An index postbyte that the fixup leaves alone: skipping changes nothing, and it is not past
/// the last one.
pub open spec fn pb_settled(v: u8) -> bool {
    postbyte_skip(v) == v && v <= 0xf6
}

/// Fixing up an index postbyte gives a settled one, and changes nothing but it and the byte
/// before it, which goes up by one when the postbyte runs past the last.
pub proof fn lemma_postbyte_fixed(b: Seq<u8>, o: int)
    requires
        1 <= o < b.len(),
        b[o - 1] < 0xff,
    ensures
        postbyte_fixed(b, o).len() == b.len(),
        pb_settled(postbyte_fixed(b, o)[o]),
        forall|j: int| 0 <= j < b.len() && j != o - 1 && j != o ==> #[trigger] postbyte_fixed(b, o)[j] == b[j],
        postbyte_fixed(b, o)[o - 1] == b[o - 1] || postbyte_fixed(b, o)[o - 1] == b[o - 1] + 1,
        postbyte_fixed(b, o)[o - 1] != b[o - 1] ==> postbyte_fixed(b, o)[o] == 0,
        pb_settled(b[o]) ==> postbyte_fixed(b, o) == b,
{
    let p = postbyte_skip(b[o]);
    assert(postbyte_skip(p) == p);
    assert(postbyte_skip(0) == 0);
    if p > 0xf6 {
        let u = b.update(o, p);
        assert(incr_bytes(u, o - 1) == u.update(o - 1, (u[o - 1] + 1) as u8));
    } else {
        if pb_settled(b[o]) {
            assert(b.update(o, p) =~= b);
        }
    }
}

/// A walk over opcodes that take an index postbyte skips the entries below the byte.
pub proof fn lemma_postbyte_walk_skips(b: Seq<u8>, ops: Seq<u8>, pos: int, i: int)
    requires
        0 <= i,
        forall|j: int| i <= j < ops.len() ==> b[pos] > #[trigger] ops[j],
    ensures
        postbyte_walk(b, ops, pos, i) == (b, false),
    decreases ops.len() - i,
{
    if i < ops.len() {
        lemma_postbyte_walk_skips(b, ops, pos, i + 1);
    }
}

/// A walk over opcodes that take an index postbyte, from `i`, over bytes whose opcode is the
/// entry `k` with a settled postbyte, stops there and changes nothing.
pub proof fn lemma_postbyte_walk_reaches(c: Seq<u8>, ops: Seq<u8>, pos: int, i: int, k: int)
    requires
        0 <= i <= k < ops.len(),
        0 <= pos,
        pos + 1 < c.len(),
        c[pos] == ops[k],
        c[pos] < 0xff,
        pb_settled(c[pos + 1]),
        forall|j: int| i <= j < k ==> c[pos] > #[trigger] ops[j],
    ensures
        postbyte_walk(c, ops, pos, i) == (c, true),
    decreases k - i,
{
    if i < k {
        lemma_postbyte_walk_reaches(c, ops, pos, i + 1, k);
    } else {
        assert(c.update(pos, ops[k]) =~= c);
        lemma_postbyte_fixed(c, pos + 1);
    }
}

/// Whether every entry of the list is below 0xff.
pub open spec fn below_ff(ops: Seq<u8>) -> bool {
    forall|j: int| 0 <= j < ops.len() ==> #[trigger] ops[j] < 0xff
}

/// What a walk over opcodes that take an index postbyte gives: the byte at `pos` only goes up,
/// nothing but it and the postbyte changes; when it stops, the byte is a listed opcode with a
/// settled postbyte; when it does not, the byte is above every entry it went past.
pub proof fn lemma_postbyte_walk_result(b: Seq<u8>, ops: Seq<u8>, pos: int, i: int)
    requires
        0 <= i,
        0 <= pos,
        pos + 1 < b.len(),
        forall|j: int, k: int| 0 <= j < k < ops.len() ==> ops[j] < ops[k],
        below_ff(ops),
    ensures
        postbyte_walk(b, ops, pos, i).0.len() == b.len(),
        postbyte_walk(b, ops, pos, i).0[pos] >= b[pos],
        forall|j: int|
            0 <= j < b.len() && j != pos && j != pos + 1 ==> #[trigger] postbyte_walk(
                b,
                ops,
                pos,
                i,
            ).0[j] == b[j],
        postbyte_walk(b, ops, pos, i).1 ==> exists|k: int|
            i <= k < ops.len() && postbyte_walk(b, ops, pos, i).0[pos] == ops[k] && pb_settled(
                postbyte_walk(b, ops, pos, i).0[pos + 1],
            ),
        !postbyte_walk(b, ops, pos, i).1 ==> forall|j: int|
            i <= j < ops.len() ==> postbyte_walk(b, ops, pos, i).0[pos] > #[trigger] ops[j],
    decreases ops.len() - i,
{
    if i < ops.len() {
        if b[pos] > ops[i] {
            lemma_postbyte_walk_result(b, ops, pos, i + 1);
        } else {
            let u = b.update(pos, ops[i]);
            assert(ops[i] < 0xff);
            lemma_postbyte_fixed(u, pos + 1);
            let c1 = postbyte_fixed(u, pos + 1);
            if c1[pos] != ops[i] {
                lemma_postbyte_walk_result(c1, ops, pos, i + 1);
            }
        }
    }
}

/// A walk over opcodes that take an index postbyte settles: walking again over what it gave
/// gives the same.
pub proof fn lemma_postbyte_walk_settles(b: Seq<u8>, ops: Seq<u8>, pos: int)
    requires
        ascending(ops),
        below_ff(ops),
        0 <= pos,
        pos + 1 < b.len(),
    ensures
        postbyte_walk(postbyte_walk(b, ops, pos, 0).0, ops, pos, 0) == postbyte_walk(b, ops, pos, 0),
{
    lemma_ascending(ops);
    lemma_postbyte_walk_result(b, ops, pos, 0);
    let c = postbyte_walk(b, ops, pos, 0).0;
    if postbyte_walk(b, ops, pos, 0).1 {
        let k = choose|k: int| 0 <= k < ops.len() && c[pos] == ops[k] && pb_settled(c[pos + 1]);
        assert forall|j: int| 0 <= j < k implies c[pos] > #[trigger] ops[j] by {
            assert(ops[j] < ops[k]);
        }
        lemma_postbyte_walk_reaches(c, ops, pos, 0, k);
    } else {
        lemma_postbyte_walk_skips(c, ops, pos, 0);
    }
}

/// Stepping a transfer postbyte until it is good leaves one that needs no more stepping; it
/// changes nothing but the postbyte and the opcode, which goes up by one when the postbyte
/// carries into it (leaving a zero postbyte).
pub proof fn lemma_tfr_fixed(b: Seq<u8>)
    requires
        b.len() == 5,
    ensures
        tfr_fixed(b, 1).len() == 5,
        tfr_fixed(tfr_fixed(b, 1), 1) == tfr_fixed(b, 1),
        forall|j: int| 2 <= j < 5 ==> #[trigger] tfr_fixed(b, 1)[j] == b[j],
        tfr_fixed(b, 1)[0] == b[0] || (b[0] < 0xff && tfr_fixed(b, 1)[0] == b[0] + 1 && tfr_fixed(
            b,
            1,
        )[1] == 0),
    decreases (256 - b[1]) % 256,
{
    lemma_tfr_bad_not_zero(b[1]);
    if tfr_bad(b[1]) && !all_ff(b, 1) {
        let c = incr_bytes(b, 1);
        if b[1] < 0xff {
            assert(c == b.update(1, (b[1] + 1) as u8));
        } else {
            assert(b[0] < 0xff);
            let z = b.update(1, 0);
            assert(incr_bytes(z, 0) == z.update(0, (z[0] + 1) as u8));
            assert(c == z.update(0, (b[0] + 1) as u8));
            lemma_tfr_bad_not_zero(0);
        }
        lemma_tfr_fixed(c);
    }
}

/// A walk over the transfer opcodes skips the entries below the opcode.
pub proof fn lemma_tfr_walk_skips(b: Seq<u8>, ops: Seq<u8>, i: int)
    requires
        0 <= i,
        forall|j: int| i <= j < ops.len() ==> b[0] > #[trigger] ops[j],
    ensures
        tfr_walk(b, ops, i) == (b, false),
    decreases ops.len() - i,
{
    if i < ops.len() {
        lemma_tfr_walk_skips(b, ops, i + 1);
    }
}

/// A walk over the transfer opcodes, from `i`, over bytes whose opcode is the entry `k` with a
/// postbyte that needs no stepping, stops there and changes nothing.
pub proof fn lemma_tfr_walk_reaches(c: Seq<u8>, ops: Seq<u8>, i: int, k: int)
    requires
        0 <= i <= k < ops.len(),
        c.len() == 5,
        c[0] == ops[k],
        tfr_fixed(c, 1) == c,
        forall|j: int| i <= j < k ==> c[0] > #[trigger] ops[j],
    ensures
        tfr_walk(c, ops, i) == (c, true),
    decreases k - i,
{
    if i < k {
        lemma_tfr_walk_reaches(c, ops, i + 1, k);
    } else {
        assert(c.update(0, ops[k]) =~= c);
    }
}

/// What a walk over the transfer opcodes gives, as for `lemma_postbyte_walk_result`.
pub proof fn lemma_tfr_walk_result(b: Seq<u8>, ops: Seq<u8>, i: int)
    requires
        0 <= i,
        b.len() == 5,
        forall|j: int, k: int| 0 <= j < k < ops.len() ==> ops[j] < ops[k],
        below_ff(ops),
    ensures
        tfr_walk(b, ops, i).0.len() == 5,
        tfr_walk(b, ops, i).0[0] >= b[0],
        forall|j: int| 2 <= j < 5 ==> #[trigger] tfr_walk(b, ops, i).0[j] == b[j],
        tfr_walk(b, ops, i).1 ==> exists|k: int|
            i <= k < ops.len() && tfr_walk(b, ops, i).0[0] == ops[k] && tfr_fixed(
                tfr_walk(b, ops, i).0,
                1,
            ) == tfr_walk(b, ops, i).0,
        !tfr_walk(b, ops, i).1 ==> forall|j: int|
            i <= j < ops.len() ==> tfr_walk(b, ops, i).0[0] > #[trigger] ops[j],
    decreases ops.len() - i,
{
    if i < ops.len() {
        if b[0] > ops[i] {
            lemma_tfr_walk_result(b, ops, i + 1);
        } else {
            let u = b.update(0, ops[i]);
            assert(ops[i] < 0xff);
            lemma_tfr_fixed(u);
            let c1 = tfr_fixed(u, 1);
            if c1[0] != ops[i] {
                lemma_tfr_walk_result(c1, ops, i + 1);
            }
        }
    }
}

/// A walk over the transfer opcodes settles: walking again over what it gave gives the same.
pub proof fn lemma_tfr_walk_settles(b: Seq<u8>, ops: Seq<u8>)
    requires
        ascending(ops),
        below_ff(ops),
        b.len() == 5,
    ensures
        tfr_walk(tfr_walk(b, ops, 0).0, ops, 0) == tfr_walk(b, ops, 0),
{
    lemma_ascending(ops);
    lemma_tfr_walk_result(b, ops, 0);
    let c = tfr_walk(b, ops, 0).0;
    if tfr_walk(b, ops, 0).1 {
        let k = choose|k: int| 0 <= k < ops.len() && c[0] == ops[k] && tfr_fixed(c, 1) == c;
        assert forall|j: int| 0 <= j < k implies c[0] > #[trigger] ops[j] by {
            assert(ops[j] < ops[k]);
        }
        lemma_tfr_walk_reaches(c, ops, 0, k);
    } else {
        lemma_tfr_walk_skips(c, ops, 0);
    }
}

/// An ascending list whose last entry is below 0xff has every entry below 0xff.
proof fn lemma_ascending_below_ff(ops: Seq<u8>)
    requires
        ascending(ops),
        ops.len() > 0,
        ops.last() < 0xff,
    ensures
        below_ff(ops),
{
    lemma_ascending(ops);
    assert forall|j: int| 0 <= j < ops.len() implies #[trigger] ops[j] < 0xff by {
        if j < ops.len() - 1 {
            assert(ops[j] < ops[ops.len() - 1]);
        }
    }
}

/// The opcode lists of the first page are ascending, below 0xff, and each starts above where the
/// one before ends.
proof fn lemma_page1_lists()
    ensures
        ascending(page1_12()),
        ascending(page1_tfr()),
        ascending(page1_lea()),
        ascending(page1_38()),
        ascending(page1_indexed()),
        ascending(page1_bc()),
        ascending(page1_e0()),
        below_ff(page1_tfr()),
        below_ff(page1_lea()),
        below_ff(page1_indexed()),
        forall|j: int| 0 <= j < 15 ==> #[trigger] page1_e0()[j + 1] == page1_e0()[j] + 1,
        page1_12().len() == 3 && page1_12()[0] == 0x16 && page1_12()[2] == 0x1c,
        page1_tfr().len() == 2 && page1_tfr()[0] == 0x1e && page1_tfr()[1] == 0x1f,
        page1_lea().len() == 4 && page1_lea()[0] == 0x30 && page1_lea()[3] == 0x33,
        page1_38().len() == 9 && page1_38()[0] == 0x39 && page1_38()[8] == 0x5f,
        page1_indexed().len() == 31 && page1_indexed()[0] == 0x60 && page1_indexed()[30] == 0xaf,
        page1_bc().len() == 3 && page1_bc()[0] == 0xc8 && page1_bc()[2] == 0xd0,
        page1_e0().len() == 16 && page1_e0()[0] == 0xe0 && page1_e0()[15] == 0xef,
{
    assert(page1_12()[0] == 0x16);
    assert(page1_12()[1] == 0x19);
    assert(page1_12()[2] == 0x1c);
    assert forall|j: int| 0 <= j < 2 implies #[trigger] page1_12()[j] < page1_12()[j + 1] by {
        if j == 0 {
        } else if j == 1 {
        }
    }
    assert(page1_tfr()[0] == 0x1e);
    assert(page1_tfr()[1] == 0x1f);
    assert forall|j: int| 0 <= j < 1 implies #[trigger] page1_tfr()[j] < page1_tfr()[j + 1] by {
        if j == 0 {
        }
    }
    assert(page1_lea()[0] == 0x30);
    assert(page1_lea()[1] == 0x31);
    assert(page1_lea()[2] == 0x32);
    assert(page1_lea()[3] == 0x33);
    assert forall|j: int| 0 <= j < 3 implies #[trigger] page1_lea()[j] < page1_lea()[j + 1] by {
        if j == 0 {
        } else if j == 1 {
        } else if j == 2 {
        }
    }
    assert(page1_38()[0] == 0x39);
    assert(page1_38()[1] == 0x3f);
    assert(page1_38()[2] == 0x43);
    assert(page1_38()[3] == 0x46);
    assert(page1_38()[4] == 0x4c);
    assert(page1_38()[5] == 0x53);
    assert(page1_38()[6] == 0x56);
    assert(page1_38()[7] == 0x5c);
    assert(page1_38()[8] == 0x5f);
    assert forall|j: int| 0 <= j < 8 implies #[trigger] page1_38()[j] < page1_38()[j + 1] by {
        if j == 0 {
        } else if j == 1 {
        } else if j == 2 {
        } else if j == 3 {
        } else if j == 4 {
        } else if j == 5 {
        } else if j == 6 {
        } else if j == 7 {
        }
    }
    assert(page1_indexed()[0] == 0x60);
    assert(page1_indexed()[1] == 0x63);
    assert(page1_indexed()[2] == 0x64);
    assert(page1_indexed()[3] == 0x66);
    assert(page1_indexed()[4] == 0x67);
    assert(page1_indexed()[5] == 0x68);
    assert(page1_indexed()[6] == 0x69);
    assert(page1_indexed()[7] == 0x6a);
    assert(page1_indexed()[8] == 0x6c);
    assert(page1_indexed()[9] == 0x6d);
    assert(page1_indexed()[10] == 0x6e);
    assert(page1_indexed()[11] == 0x6f);
    assert(page1_indexed()[12] == 0x73);
    assert(page1_indexed()[13] == 0x76);
    assert(page1_indexed()[14] == 0x7c);
    assert(page1_indexed()[15] == 0xa0);
    assert(page1_indexed()[16] == 0xa1);
    assert(page1_indexed()[17] == 0xa2);
    assert(page1_indexed()[18] == 0xa3);
    assert(page1_indexed()[19] == 0xa4);
    assert(page1_indexed()[20] == 0xa5);
    assert(page1_indexed()[21] == 0xa6);
    assert(page1_indexed()[22] == 0xa7);
    assert(page1_indexed()[23] == 0xa8);
    assert(page1_indexed()[24] == 0xa9);
    assert(page1_indexed()[25] == 0xaa);
    assert(page1_indexed()[26] == 0xab);
    assert(page1_indexed()[27] == 0xac);
    assert(page1_indexed()[28] == 0xad);
    assert(page1_indexed()[29] == 0xae);
    assert(page1_indexed()[30] == 0xaf);
    assert forall|j: int| 0 <= j < 30 implies #[trigger] page1_indexed()[j] < page1_indexed()[j + 1] by {
        if j == 0 {
        } else if j == 1 {
        } else if j == 2 {
        } else if j == 3 {
        } else if j == 4 {
        } else if j == 5 {
        } else if j == 6 {
        } else if j == 7 {
        } else if j == 8 {
        } else if j == 9 {
        } else if j == 10 {
        } else if j == 11 {
        } else if j == 12 {
        } else if j == 13 {
        } else if j == 14 {
        } else if j == 15 {
        } else if j == 16 {
        } else if j == 17 {
        } else if j == 18 {
        } else if j == 19 {
        } else if j == 20 {
        } else if j == 21 {
        } else if j == 22 {
        } else if j == 23 {
        } else if j == 24 {
        } else if j == 25 {
        } else if j == 26 {
        } else if j == 27 {
        } else if j == 28 {
        } else if j == 29 {
        }
    }
    assert(page1_bc()[0] == 0xc8);
    assert(page1_bc()[1] == 0xce);
    assert(page1_bc()[2] == 0xd0);
    assert forall|j: int| 0 <= j < 2 implies #[trigger] page1_bc()[j] < page1_bc()[j + 1] by {
        if j == 0 {
        } else if j == 1 {
        }
    }
    assert(page1_e0()[0] == 0xe0);
    assert(page1_e0()[1] == 0xe1);
    assert(page1_e0()[2] == 0xe2);
    assert(page1_e0()[3] == 0xe3);
    assert(page1_e0()[4] == 0xe4);
    assert(page1_e0()[5] == 0xe5);
    assert(page1_e0()[6] == 0xe6);
    assert(page1_e0()[7] == 0xe7);
    assert(page1_e0()[8] == 0xe8);
    assert(page1_e0()[9] == 0xe9);
    assert(page1_e0()[10] == 0xea);
    assert(page1_e0()[11] == 0xeb);
    assert(page1_e0()[12] == 0xec);
    assert(page1_e0()[13] == 0xed);
    assert(page1_e0()[14] == 0xee);
    assert(page1_e0()[15] == 0xef);
    assert forall|j: int| 0 <= j < 15 implies #[trigger] page1_e0()[j] < page1_e0()[j + 1] by {
        if j == 0 {
        } else if j == 1 {
        } else if j == 2 {
        } else if j == 3 {
        } else if j == 4 {
        } else if j == 5 {
        } else if j == 6 {
        } else if j == 7 {
        } else if j == 8 {
        } else if j == 9 {
        } else if j == 10 {
        } else if j == 11 {
        } else if j == 12 {
        } else if j == 13 {
        } else if j == 14 {
        }
    }
    assert forall|j: int| 0 <= j < 15 implies #[trigger] page1_e0()[j + 1] == page1_e0()[j] + 1 by {
        if j == 0 {
        } else if j == 1 {
        } else if j == 2 {
        } else if j == 3 {
        } else if j == 4 {
        } else if j == 5 {
        } else if j == 6 {
        } else if j == 7 {
        } else if j == 8 {
        } else if j == 9 {
        } else if j == 10 {
        } else if j == 11 {
        } else if j == 12 {
        } else if j == 13 {
        } else if j == 14 {
        }
    }
    lemma_ascending_below_ff(page1_tfr());
    lemma_ascending_below_ff(page1_lea());
    lemma_ascending_below_ff(page1_indexed());
}

/// A byte above the last entry of an ascending list is above every entry.
proof fn lemma_above(x: u8, ops: Seq<u8>)
    requires
        ascending(ops),
        ops.len() > 0,
        x > ops[ops.len() - 1],
    ensures
        forall|j: int| 0 <= j < ops.len() ==> x > #[trigger] ops[j],
{
    lemma_ascending(ops);
    assert forall|j: int| 0 <= j < ops.len() implies x > #[trigger] ops[j] by {
        if j < ops.len() - 1 {
            assert(ops[j] < ops[ops.len() - 1]);
        }
    }
}

/// The last stage of the fixup (opcodes 0xe0 to 0xef and their postbytes) settles, and only
/// moves the opcode forward.
proof fn lemma_rest_e0(b: Seq<u8>)
    requires
        b.len() == 5,
    ensures
        rest_e0(b).len() == 5,
        rest_e0(b)[0] >= b[0],
        rest_e0(rest_e0(b)) == rest_e0(b),
{
    lemma_page1_lists();
    let ops = page1_e0();
    lemma_list_walk_result(b, ops, 0, 0);
    let r = rest_e0(b);
    if list_walk(b, ops, 0, 0).1 {
        let k = choose|k: int|
            0 <= k < ops.len() && b[0] <= ops[k] && list_walk(b, ops, 0, 0).0 == b.update(
                0,
                ops[k],
            ) && forall|j: int| 0 <= j < k ==> b[0] > #[trigger] ops[j];
        let c = b.update(0, ops[k]);
        lemma_ascending(ops);
        assert(ops[k] <= 0xef) by {
            if k < 15 {
                assert(ops[k] < ops[15]);
            }
        }
        lemma_postbyte_fixed(c, 1);
        assert(r == postbyte_fixed(c, 1));
        lemma_postbyte_fixed(r, 1);
        if r[0] == c[0] {
            assert forall|j: int| 0 <= j < k implies r[0] > #[trigger] ops[j] by {
                assert(ops[j] < ops[k]);
            }
            lemma_list_walk_stops(r, ops, 0, 0, k);
            assert(r.update(0, ops[k]) =~= r);
        } else if k < 15 {
            assert(r[0] == ops[k + 1]);
            assert forall|j: int| 0 <= j < k + 1 implies r[0] > #[trigger] ops[j] by {
                if j < k {
                    assert(ops[j] < ops[k]);
                }
            }
            lemma_list_walk_stops(r, ops, 0, 0, k + 1);
            assert(r.update(0, ops[k + 1]) =~= r);
        } else {
            lemma_above(r[0], ops);
            lemma_list_walk_stops(r, ops, 0, 0, 16);
        }
    } else {
        lemma_list_walk_stops(b, ops, 0, 0, 16);
    }
}

/// The stage of the fixup from 0xb0 on settles, and only moves the opcode forward.
proof fn lemma_rest_bc(b: Seq<u8>)
    requires
        b.len() == 5,
    ensures
        rest_bc(b).len() == 5,
        rest_bc(b)[0] >= b[0],
        rest_bc(rest_bc(b)) == rest_bc(b),
{
    lemma_page1_lists();
    lemma_list_walk_settles(b, page1_bc(), 0);
    if !list_walk(b, page1_bc(), 0, 0).1 {
        lemma_rest_e0(b);
        let r = rest_e0(b);
        lemma_above(r[0], page1_bc());
        lemma_list_walk_stops(r, page1_bc(), 0, 0, 3);
    }
}

/// The stage of the fixup from 0x60 on settles, and only moves the opcode forward.
proof fn lemma_rest_indexed(b: Seq<u8>)
    requires
        b.len() == 5,
    ensures
        rest_indexed(b).len() == 5,
        rest_indexed(b)[0] >= b[0],
        rest_indexed(rest_indexed(b)) == rest_indexed(b),
{
    lemma_page1_lists();
    lemma_postbyte_walk_settles(b, page1_indexed(), 0);
    lemma_postbyte_walk_result(b, page1_indexed(), 0, 0);
    if !postbyte_walk(b, page1_indexed(), 0, 0).1 {
        let c = postbyte_walk(b, page1_indexed(), 0, 0).0;
        lemma_rest_bc(c);
        let r = rest_bc(c);
        lemma_above(r[0], page1_indexed());
        lemma_postbyte_walk_skips(r, page1_indexed(), 0, 0);
    }
}

/// The stage of the fixup from 0x34 on settles, and only moves the opcode forward.
proof fn lemma_rest_38(b: Seq<u8>)
    requires
        b.len() == 5,
    ensures
        rest_38(b).len() == 5,
        rest_38(b)[0] >= b[0],
        rest_38(rest_38(b)) == rest_38(b),
{
    lemma_page1_lists();
    lemma_list_walk_settles(b, page1_38(), 0);
    if !list_walk(b, page1_38(), 0, 0).1 {
        lemma_rest_indexed(b);
        let r = rest_indexed(b);
        lemma_above(r[0], page1_38());
        lemma_list_walk_stops(r, page1_38(), 0, 0, 9);
    }
}

/// The stage of the fixup from 0x20 on settles, and only moves the opcode forward.
proof fn lemma_rest_lea(b: Seq<u8>)
    requires
        b.len() == 5,
    ensures
        rest_lea(b).len() == 5,
        rest_lea(b)[0] >= b[0],
        rest_lea(rest_lea(b)) == rest_lea(b),
{
    lemma_page1_lists();
    lemma_postbyte_walk_settles(b, page1_lea(), 0);
    lemma_postbyte_walk_result(b, page1_lea(), 0, 0);
    if !postbyte_walk(b, page1_lea(), 0, 0).1 {
        let c = postbyte_walk(b, page1_lea(), 0, 0).0;
        lemma_rest_38(c);
        let r = rest_38(c);
        lemma_above(r[0], page1_lea());
        lemma_postbyte_walk_skips(r, page1_lea(), 0, 0);
    }
}

/// The stage of the fixup from 0x1d on settles, and only moves the opcode forward.
proof fn lemma_rest_tfr(b: Seq<u8>)
    requires
        b.len() == 5,
    ensures
        rest_tfr(b).len() == 5,
        rest_tfr(b)[0] >= b[0],
        rest_tfr(rest_tfr(b)) == rest_tfr(b),
{
    lemma_page1_lists();
    lemma_tfr_walk_settles(b, page1_tfr());
    lemma_tfr_walk_result(b, page1_tfr(), 0);
    if !tfr_walk(b, page1_tfr(), 0).1 {
        let c = tfr_walk(b, page1_tfr(), 0).0;
        lemma_rest_lea(c);
        let r = rest_lea(c);
        lemma_above(r[0], page1_tfr());
        lemma_tfr_walk_skips(r, page1_tfr(), 0);
    }
}

/// The fixup of opcodes from 0x12 on settles, and only moves the opcode forward.
pub proof fn lemma_page1_rest_settles(b: Seq<u8>)
    requires
        b.len() == 5,
    ensures
        fixup_page1_rest(b).len() == 5,
        fixup_page1_rest(b)[0] >= b[0],
        fixup_page1_rest(fixup_page1_rest(b)) == fixup_page1_rest(b),
{
    lemma_page1_lists();
    lemma_list_walk_settles(b, page1_12(), 0);
    if !list_walk(b, page1_12(), 0, 0).1 {
        lemma_rest_tfr(b);
        let r = rest_tfr(b);
        lemma_above(r[0], page1_12());
        lemma_list_walk_stops(r, page1_12(), 0, 0, 3);
    }
}

/// The opcode lists of the prefixed pages (and the first few of the first page) are ascending.
proof fn lemma_page23_lists()
    ensures
        ascending(page1_low()),
        page1_low().len() == 4 && page1_low()[3] == 0xc,
        ascending(page2_low()),
        page2_low().len() == 8 && page2_low()[7] == 0x9e,
        ascending(page2_indexed()),
        page2_indexed().len() == 4 && page2_indexed()[3] == 0xaf,
        ascending(page2_mid()),
        page2_mid().len() == 5 && page2_mid()[4] == 0xde,
        ascending(page2_high_indexed()),
        page2_high_indexed().len() == 3 && page2_high_indexed()[2] == 0xfe,
        ascending(page3_low()),
        page3_low().len() == 5 && page3_low()[4] == 0x9c,
        ascending(page3_indexed()),
        page3_indexed().len() == 2 && page3_indexed()[1] == 0xac,
        ascending(page3_high()),
        page3_high().len() == 2 && page3_high()[1] == 0xbc,
        below_ff(page2_indexed()),
        below_ff(page2_high_indexed()),
        below_ff(page3_indexed()),
{
    assert(page1_low()[0] == 0x0);
    assert(page1_low()[1] == 0x3);
    assert(page1_low()[2] == 0x6);
    assert(page1_low()[3] == 0xc);
    assert forall|j: int| 0 <= j < 3 implies #[trigger] page1_low()[j] < page1_low()[j + 1] by {
        if j == 0 {
        } else if j == 1 {
        } else if j == 2 {
        }
    }
    assert(page2_low()[0] == 0x21);
    assert(page2_low()[1] == 0x3f);
    assert(page2_low()[2] == 0x83);
    assert(page2_low()[3] == 0x8c);
    assert(page2_low()[4] == 0x8e);
    assert(page2_low()[5] == 0x93);
    assert(page2_low()[6] == 0x9c);
    assert(page2_low()[7] == 0x9e);
    assert forall|j: int| 0 <= j < 7 implies #[trigger] page2_low()[j] < page2_low()[j + 1] by {
        if j == 0 {
        } else if j == 1 {
        } else if j == 2 {
        } else if j == 3 {
        } else if j == 4 {
        } else if j == 5 {
        } else if j == 6 {
        }
    }
    assert(page2_indexed()[0] == 0xa3);
    assert(page2_indexed()[1] == 0xac);
    assert(page2_indexed()[2] == 0xae);
    assert(page2_indexed()[3] == 0xaf);
    assert forall|j: int| 0 <= j < 3 implies #[trigger] page2_indexed()[j] < page2_indexed()[j + 1] by {
        if j == 0 {
        } else if j == 1 {
        } else if j == 2 {
        }
    }
    assert(page2_mid()[0] == 0xb3);
    assert(page2_mid()[1] == 0xbc);
    assert(page2_mid()[2] == 0xbe);
    assert(page2_mid()[3] == 0xce);
    assert(page2_mid()[4] == 0xde);
    assert forall|j: int| 0 <= j < 4 implies #[trigger] page2_mid()[j] < page2_mid()[j + 1] by {
        if j == 0 {
        } else if j == 1 {
        } else if j == 2 {
        } else if j == 3 {
        }
    }
    assert(page2_high_indexed()[0] == 0xee);
    assert(page2_high_indexed()[1] == 0xef);
    assert(page2_high_indexed()[2] == 0xfe);
    assert forall|j: int| 0 <= j < 2 implies #[trigger] page2_high_indexed()[j] < page2_high_indexed()[j + 1] by {
        if j == 0 {
        } else if j == 1 {
        }
    }
    assert(page3_low()[0] == 0x3f);
    assert(page3_low()[1] == 0x83);
    assert(page3_low()[2] == 0x8c);
    assert(page3_low()[3] == 0x93);
    assert(page3_low()[4] == 0x9c);
    assert forall|j: int| 0 <= j < 4 implies #[trigger] page3_low()[j] < page3_low()[j + 1] by {
        if j == 0 {
        } else if j == 1 {
        } else if j == 2 {
        } else if j == 3 {
        }
    }
    assert(page3_indexed()[0] == 0xa3);
    assert(page3_indexed()[1] == 0xac);
    assert forall|j: int| 0 <= j < 1 implies #[trigger] page3_indexed()[j] < page3_indexed()[j + 1] by {
        if j == 0 {
        }
    }
    assert(page3_high()[0] == 0xb3);
    assert(page3_high()[1] == 0xbc);
    assert forall|j: int| 0 <= j < 1 implies #[trigger] page3_high()[j] < page3_high()[j + 1] by {
        if j == 0 {
        }
    }
    lemma_ascending_below_ff(page2_indexed());
    lemma_ascending_below_ff(page2_high_indexed());
    lemma_ascending_below_ff(page3_indexed());
}

/// The last stage of the fixup on the page of 0x10 settles, leaves the opcode, and only moves the
/// second byte forward.
proof fn lemma_page2_high(b: Seq<u8>)
    requires
        b.len() == 5,
    ensures
        page2_high(b).len() == 5,
        page2_high(b)[0] == b[0],
        page2_high(b)[1] >= b[1],
        page2_high(page2_high(b)) == page2_high(b),
{
    lemma_page23_lists();
    lemma_postbyte_walk_settles(b, page2_high_indexed(), 1);
    lemma_postbyte_walk_result(b, page2_high_indexed(), 1, 0);
}

/// The stage of the fixup on the page of 0x10 from 0xb0 on settles.
proof fn lemma_page2_mid(b: Seq<u8>)
    requires
        b.len() == 5,
    ensures
        page2_mid_on(b).len() == 5,
        page2_mid_on(b)[0] == b[0],
        page2_mid_on(b)[1] >= b[1],
        page2_mid_on(page2_mid_on(b)) == page2_mid_on(b),
{
    lemma_page23_lists();
    lemma_list_walk_settles(b, page2_mid(), 1);
    lemma_list_walk_result(b, page2_mid(), 1, 0);
    if !list_walk(b, page2_mid(), 1, 0).1 {
        lemma_page2_high(b);
        let r = page2_high(b);
        lemma_above(r[1], page2_mid());
        lemma_list_walk_stops(r, page2_mid(), 1, 0, 5);
    }
}

/// The stage of the fixup on the page of 0x10 from 0x9f on settles.
proof fn lemma_page2_indexed(b: Seq<u8>)
    requires
        b.len() == 5,
    ensures
        page2_indexed_on(b).len() == 5,
        page2_indexed_on(b)[0] == b[0],
        page2_indexed_on(b)[1] >= b[1],
        page2_indexed_on(page2_indexed_on(b)) == page2_indexed_on(b),
{
    lemma_page23_lists();
    lemma_postbyte_walk_settles(b, page2_indexed(), 1);
    lemma_postbyte_walk_result(b, page2_indexed(), 1, 0);
    if !postbyte_walk(b, page2_indexed(), 1, 0).1 {
        let c = postbyte_walk(b, page2_indexed(), 1, 0).0;
        lemma_page2_mid(c);
        let r = page2_mid_on(c);
        lemma_above(r[1], page2_indexed());
        lemma_postbyte_walk_skips(r, page2_indexed(), 1, 0);
    }
}

/// The fixup on the page of 0x10 settles, and leaves the opcode.
proof fn lemma_page2(b: Seq<u8>)
    requires
        b.len() == 5,
    ensures
        fixup_page2(b).len() == 5,
        fixup_page2(b)[0] == b[0],
        fixup_page2(fixup_page2(b)) == fixup_page2(b),
{
    lemma_page23_lists();
    lemma_list_walk_settles(b, page2_low(), 1);
    lemma_list_walk_result(b, page2_low(), 1, 0);
    if !list_walk(b, page2_low(), 1, 0).1 {
        lemma_page2_indexed(b);
        let r = page2_indexed_on(b);
        lemma_above(r[1], page2_low());
        lemma_list_walk_stops(r, page2_low(), 1, 0, 8);
    }
}

/// What the fixup on the page of 0x11 gives settles: either it stays on that page and the fixup
/// of the page leaves it alone, or it moved on to an opcode from 0x12 that the fixup of the first
/// page leaves alone.
pub open spec fn page3_settled(f: Seq<u8>, g: Seq<u8>, b: Seq<u8>) -> bool {
    ||| (f[0] == b[0] && f[1] >= b[1] && g == f)
    ||| (f[0] >= 0x12 && fixup_page1_rest(f) == f)
}

/// The last stage of the fixup on the page of 0x11 settles.
proof fn lemma_page3_high(b: Seq<u8>)
    requires
        b.len() == 5,
        b[0] == 0x11,
    ensures
        page3_high_on(b).len() == 5,
        page3_settled(page3_high_on(b), page3_high_on(page3_high_on(b)), b),
{
    lemma_page23_lists();
    lemma_list_walk_settles(b, page3_high(), 1);
    lemma_list_walk_result(b, page3_high(), 1, 0);
    if !list_walk(b, page3_high(), 1, 0).1 {
        let c = b.update(0, 0x12);
        assert(incr_bytes(b, 0) == c);
        lemma_page1_rest_settles(c);
    }
}

/// The stage of the fixup on the page of 0x11 from 0x9d on settles.
proof fn lemma_page3_indexed(b: Seq<u8>)
    requires
        b.len() == 5,
        b[0] == 0x11,
    ensures
        page3_indexed_on(b).len() == 5,
        page3_settled(page3_indexed_on(b), page3_indexed_on(page3_indexed_on(b)), b),
{
    lemma_page23_lists();
    lemma_postbyte_walk_settles(b, page3_indexed(), 1);
    lemma_postbyte_walk_result(b, page3_indexed(), 1, 0);
    if !postbyte_walk(b, page3_indexed(), 1, 0).1 {
        let c = postbyte_walk(b, page3_indexed(), 1, 0).0;
        lemma_page3_high(c);
        let r = page3_high_on(c);
        if r[0] == c[0] {
            lemma_above(r[1], page3_indexed());
            lemma_postbyte_walk_skips(r, page3_indexed(), 1, 0);
        }
    }
}

/// The fixup on the page of 0x11 settles.
proof fn lemma_page3(b: Seq<u8>)
    requires
        b.len() == 5,
        b[0] == 0x11,
    ensures
        fixup_page3(b).len() == 5,
        page3_settled(fixup_page3(b), fixup_page3(fixup_page3(b)), b),
{
    lemma_page23_lists();
    lemma_list_walk_settles(b, page3_low(), 1);
    lemma_list_walk_result(b, page3_low(), 1, 0);
    if !list_walk(b, page3_low(), 1, 0).1 {
        lemma_page3_indexed(b);
        let r = page3_indexed_on(b);
        if r[0] == b[0] {
            lemma_above(r[1], page3_low());
            lemma_list_walk_stops(r, page3_low(), 1, 0, 5);
        }
    }
}

/// The fixup is idempotent: an instruction that the fixup has moved to is one it leaves alone.
/// So stepping through the instructions and fixing each up never meets one the fixup would
/// change again.
pub proof fn lemma_fixup_idempotent(b: Seq<u8>)
    requires
        b.len() == 5,
    ensures
        spec_fixup(spec_fixup(b)) == spec_fixup(b),
{
    lemma_page23_lists();
    lemma_list_walk_settles(b, page1_low(), 0);
    let r = spec_fixup(b);
    if list_walk(b, page1_low(), 0, 0).1 {
        return;
    }
    if b[0] <= 0x10 {
        let x = b.update(0, 0x10);
        lemma_page2(x);
        lemma_above(r[0], page1_low());
        lemma_list_walk_stops(r, page1_low(), 0, 0, 4);
        assert(r.update(0, 0x10) =~= r);
    } else if b[0] <= 0x11 {
        let x = b.update(0, 0x11);
        lemma_page3(x);
        lemma_above(r[0], page1_low());
        lemma_list_walk_stops(r, page1_low(), 0, 0, 4);
        if r[0] == 0x11 {
            assert(r.update(0, 0x11) =~= r);
        }
    } else {
        lemma_page1_rest_settles(b);
        lemma_above(r[0], page1_low());
        lemma_list_walk_stops(r, page1_low(), 0, 0, 4);
    }
}

/// The five bytes of an instruction read as one big-endian number: the order in which the search
/// steps through encodings.
pub open spec fn rank5(b: Seq<u8>) -> int {
    b[0] * 0x1_0000_0000 + b[1] * 0x100_0000 + b[2] * 0x1_0000 + b[3] * 0x100 + b[4]
}

/// Raising one byte raises the rank.
proof fn lemma_rank_update(b: Seq<u8>, pos: int, v: u8)
    requires
        b.len() == 5,
        0 <= pos < 5,
        v >= b[pos],
    ensures
        rank5(b.update(pos, v)) >= rank5(b),
{
}

/// Skipping unused index postbytes only moves forward.
proof fn lemma_skip_ge(x: u8)
    ensures
        postbyte_skip(x) >= x,
{
}

/// Fixing up an index postbyte only moves the encoding forward.
proof fn lemma_postbyte_fixed_ge(b: Seq<u8>, o: int)
    requires
        b.len() == 5,
        1 <= o < 5,
        b[o - 1] < 0xff,
    ensures
        rank5(postbyte_fixed(b, o)) >= rank5(b),
{
    lemma_postbyte_fixed(b, o);
    lemma_skip_ge(b[o]);
    let c = postbyte_fixed(b, o);
    assert(forall|j: int| 0 <= j < 5 && j != o - 1 && j != o ==> #[trigger] c[j] == b[j]);
    if o == 1 {
        assert(c[2] == b[2] && c[3] == b[3] && c[4] == b[4]);
    } else if o == 2 {
        assert(c[0] == b[0] && c[3] == b[3] && c[4] == b[4]);
    } else if o == 3 {
        assert(c[0] == b[0] && c[1] == b[1] && c[4] == b[4]);
    } else {
        assert(c[0] == b[0] && c[1] == b[1] && c[2] == b[2]);
    }
}

/// A list walk only moves the encoding forward.
proof fn lemma_list_walk_ge(b: Seq<u8>, ops: Seq<u8>, pos: int)
    requires
        b.len() == 5,
        0 <= pos < 5,
    ensures
        rank5(list_walk(b, ops, pos, 0).0) >= rank5(b),
{
    lemma_list_walk_result(b, ops, pos, 0);
    if list_walk(b, ops, pos, 0).1 {
        let k = choose|k: int|
            0 <= k < ops.len() && b[pos] <= ops[k] && list_walk(b, ops, pos, 0).0 == b.update(
                pos,
                ops[k],
            ) && forall|j: int| 0 <= j < k ==> b[pos] > #[trigger] ops[j];
        lemma_rank_update(b, pos, ops[k]);
    }
}

/// A walk over opcodes that take an index postbyte only moves the encoding forward.
proof fn lemma_postbyte_walk_ge(b: Seq<u8>, ops: Seq<u8>, pos: int, i: int)
    requires
        b.len() == 5,
        0 <= pos < 4,
        0 <= i,
        below_ff(ops),
    ensures
        rank5(postbyte_walk(b, ops, pos, i).0) >= rank5(b),
        postbyte_walk(b, ops, pos, i).0.len() == 5,
    decreases ops.len() - i,
{
    if i < ops.len() {
        if b[pos] > ops[i] {
            lemma_postbyte_walk_ge(b, ops, pos, i + 1);
        } else {
            let u = b.update(pos, ops[i]);
            lemma_rank_update(b, pos, ops[i]);
            assert(ops[i] < 0xff);
            lemma_postbyte_fixed(u, pos + 1);
            lemma_postbyte_fixed_ge(u, pos + 1);
            let c1 = postbyte_fixed(u, pos + 1);
            if c1[pos] != ops[i] {
                lemma_postbyte_walk_ge(c1, ops, pos, i + 1);
            }
        }
    }
}

/// Stepping a transfer postbyte only moves the encoding forward.
proof fn lemma_tfr_fixed_ge(b: Seq<u8>)
    requires
        b.len() == 5,
    ensures
        rank5(tfr_fixed(b, 1)) >= rank5(b),
    decreases (256 - b[1]) % 256,
{
    lemma_tfr_bad_not_zero(b[1]);
    if tfr_bad(b[1]) && !all_ff(b, 1) {
        let c = incr_bytes(b, 1);
        if b[1] < 0xff {
            assert(c == b.update(1, (b[1] + 1) as u8));
        } else {
            assert(b[0] < 0xff);
            let z = b.update(1, 0);
            assert(incr_bytes(z, 0) == z.update(0, (z[0] + 1) as u8));
            assert(c == z.update(0, (b[0] + 1) as u8));
            lemma_tfr_bad_not_zero(0);
        }
        lemma_tfr_fixed_ge(c);
    }
}

/// A walk over the transfer opcodes only moves the encoding forward.
proof fn lemma_tfr_walk_ge(b: Seq<u8>, ops: Seq<u8>, i: int)
    requires
        b.len() == 5,
        0 <= i,
        below_ff(ops),
    ensures
        rank5(tfr_walk(b, ops, i).0) >= rank5(b),
        tfr_walk(b, ops, i).0.len() == 5,
    decreases ops.len() - i,
{
    if i < ops.len() {
        if b[0] > ops[i] {
            lemma_tfr_walk_ge(b, ops, i + 1);
        } else {
            let u = b.update(0, ops[i]);
            lemma_rank_update(b, 0, ops[i]);
            lemma_tfr_fixed(u);
            lemma_tfr_fixed_ge(u);
            let c1 = tfr_fixed(u, 1);
            if c1[0] != ops[i] {
                lemma_tfr_walk_ge(c1, ops, i + 1);
            }
        }
    }
}

/// The fixup of opcodes from 0x12 on only moves the encoding forward.
proof fn lemma_page1_rest_ge(b: Seq<u8>)
    requires
        b.len() == 5,
    ensures
        rank5(fixup_page1_rest(b)) >= rank5(b),
{
    lemma_page1_lists();
    lemma_list_walk_ge(b, page1_12(), 0);
    lemma_list_walk_settles(b, page1_12(), 0);
    if list_walk(b, page1_12(), 0, 0).1 {
        return;
    }
    lemma_tfr_walk_ge(b, page1_tfr(), 0);
    let c2 = tfr_walk(b, page1_tfr(), 0).0;
    if tfr_walk(b, page1_tfr(), 0).1 {
        return;
    }
    lemma_postbyte_walk_ge(c2, page1_lea(), 0, 0);
    let c3 = postbyte_walk(c2, page1_lea(), 0, 0).0;
    if postbyte_walk(c2, page1_lea(), 0, 0).1 {
        return;
    }
    lemma_list_walk_ge(c3, page1_38(), 0);
    lemma_list_walk_settles(c3, page1_38(), 0);
    if list_walk(c3, page1_38(), 0, 0).1 {
        return;
    }
    lemma_postbyte_walk_ge(c3, page1_indexed(), 0, 0);
    let c5 = postbyte_walk(c3, page1_indexed(), 0, 0).0;
    if postbyte_walk(c3, page1_indexed(), 0, 0).1 {
        return;
    }
    lemma_list_walk_ge(c5, page1_bc(), 0);
    lemma_list_walk_settles(c5, page1_bc(), 0);
    if list_walk(c5, page1_bc(), 0, 0).1 {
        return;
    }
    lemma_list_walk_ge(c5, page1_e0(), 0);
    lemma_list_walk_settles(c5, page1_e0(), 0);
    if list_walk(c5, page1_e0(), 0, 0).1 {
        let c7 = list_walk(c5, page1_e0(), 0, 0).0;
        let ops = page1_e0();
        lemma_list_walk_result(c5, ops, 0, 0);
        let k = choose|k: int|
            0 <= k < ops.len() && c5[0] <= ops[k] && list_walk(c5, ops, 0, 0).0 == c5.update(
                0,
                ops[k],
            ) && forall|j: int| 0 <= j < k ==> c5[0] > #[trigger] ops[j];
        lemma_ascending(ops);
        assert(ops[k] <= 0xef) by {
            if k < 15 {
                assert(ops[k] < ops[15]);
            }
        }
        assert(c7[0] < 0xff);
        lemma_postbyte_fixed_ge(c7, 1);
    }
}

/// The fixup on the page of 0x10 only moves the encoding forward.
proof fn lemma_page2_ge(b: Seq<u8>)
    requires
        b.len() == 5,
    ensures
        rank5(fixup_page2(b)) >= rank5(b),
{
    lemma_page23_lists();
    lemma_list_walk_ge(b, page2_low(), 1);
    lemma_list_walk_settles(b, page2_low(), 1);
    if list_walk(b, page2_low(), 1, 0).1 {
        return;
    }
    lemma_postbyte_walk_ge(b, page2_indexed(), 1, 0);
    let c2 = postbyte_walk(b, page2_indexed(), 1, 0).0;
    if postbyte_walk(b, page2_indexed(), 1, 0).1 {
        return;
    }
    lemma_list_walk_ge(c2, page2_mid(), 1);
    lemma_list_walk_settles(c2, page2_mid(), 1);
    if list_walk(c2, page2_mid(), 1, 0).1 {
        return;
    }
    lemma_postbyte_walk_ge(c2, page2_high_indexed(), 1, 0);
}

/// The fixup on the page of 0x11 only moves the encoding forward.
proof fn lemma_page3_ge(b: Seq<u8>)
    requires
        b.len() == 5,
        b[0] == 0x11,
    ensures
        rank5(fixup_page3(b)) >= rank5(b),
{
    lemma_page23_lists();
    lemma_list_walk_ge(b, page3_low(), 1);
    lemma_list_walk_settles(b, page3_low(), 1);
    if list_walk(b, page3_low(), 1, 0).1 {
        return;
    }
    lemma_postbyte_walk_ge(b, page3_indexed(), 1, 0);
    lemma_postbyte_walk_result(b, page3_indexed(), 1, 0);
    let c2 = postbyte_walk(b, page3_indexed(), 1, 0).0;
    if postbyte_walk(b, page3_indexed(), 1, 0).1 {
        return;
    }
    lemma_list_walk_ge(c2, page3_high(), 1);
    lemma_list_walk_settles(c2, page3_high(), 1);
    if list_walk(c2, page3_high(), 1, 0).1 {
        return;
    }
    let c3 = c2.update(0, 0x12);
    assert(incr_bytes(c2, 0) == c3);
    lemma_rank_update(c2, 0, 0x12);
    lemma_page1_rest_ge(c3);
}

/// The fixup only moves an instruction forward, in the order in which the search steps through
/// encodings: so stepping and fixing up never goes back.
pub proof fn lemma_fixup_moves_forward(b: Seq<u8>)
    requires
        b.len() == 5,
    ensures
        spec_fixup(b).len() == 5,
        rank5(spec_fixup(b)) >= rank5(b),
{
    lemma_page23_lists();
    lemma_list_walk_ge(b, page1_low(), 0);
    lemma_list_walk_settles(b, page1_low(), 0);
    if list_walk(b, page1_low(), 0, 0).1 {
        return;
    }
    if b[0] <= 0x10 {
        let x = b.update(0, 0x10);
        lemma_rank_update(b, 0, 0x10);
        lemma_page2(x);
        lemma_page2_ge(x);
    } else if b[0] <= 0x11 {
        let x = b.update(0, 0x11);
        lemma_rank_update(b, 0, 0x11);
        lemma_page3(x);
        lemma_page3_ge(x);
    } else {
        lemma_page1_rest_settles(b);
        lemma_page1_rest_ge(b);
    }
}

/// Counting up the first `offset + 1` bytes of an encoding raises its rank.
pub proof fn lemma_incr_rank5(b: Seq<u8>, offset: int)
    requires
        b.len() == 5,
        0 <= offset < 5,
        !all_ff(b, offset),
    ensures
        rank5(incr_bytes(b, offset)) > rank5(b),
{
    lemma_incr_bytes(b, offset);
    let c = incr_bytes(b, offset);
    reveal_with_fuel(be_prefix, 6);
    if offset < 4 {
        assert(c[4] == b[4]);
    }
    if offset < 3 {
        assert(c[3] == b[3]);
    }
    if offset < 2 {
        assert(c[2] == b[2]);
    }
    if offset < 1 {
        assert(c[1] == b[1]);
    }
}

/// Each step of the search moves strictly forward through the encodings, in the order of their
/// rank; at the end it stays put.
pub proof fn lemma_step_moves_forward(i: Insn, size: int)
    requires
        1 <= size <= 5,
        !i.at_end(),
        !all_ff(i.bytes(), size - 1),
    ensures
        rank5(spec_fixup(incr_bytes(i.bytes(), size - 1))) > rank5(i.bytes()),
{
    lemma_incr_rank5(i.bytes(), size - 1);
    lemma_incr_bytes(i.bytes(), size - 1);
    lemma_fixup_moves_forward(incr_bytes(i.bytes(), size - 1));
}

} // verus!
