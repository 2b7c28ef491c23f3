//! Representative values of the types that functions under search take as parameters.
use crate::random::{random_bool, random_i16, random_u16, random_u8};
use vstd::arithmetic::div_mod::lemma_fundamental_div_mod_converse;
use vstd::prelude::*;

verus! {

/// A type whose values can be handed to a function under search.
pub trait Parameters: Sized {
    /// A few representative values.
    spec fn spec_vals() -> Seq<Self>;

    /// Returns a few representative values
    fn vals() -> (r: Vec<Self>)
        ensures
            r@ == Self::spec_vals(),
    ;

    /// Returns a random value
    fn rand() -> Self;
}

/// The representative bytes: zero, then for each `i` below 8, the bit `i`, `i` itself and
/// 255 minus `i`.
pub open spec fn u8_vals() -> Seq<u8> {
    Seq::new(
        25,
        |k: int|
            if k == 0 {
                0u8
            } else {
                let i = (k - 1) / 3;
                let j = (k - 1) % 3;
                if j == 0 {
                    1u8 << (i as u8)
                } else if j == 1 {
                    i as u8
                } else {
                    (255 - i) as u8
                }
            },
    )
}

/// The representative 16-bit words: zero, then for each `i` below 16, the bit `i`, `i` itself,
/// 65535 minus `i` and `i` again (the smallest word plus `i`).
pub open spec fn u16_vals() -> Seq<u16> {
    Seq::new(
        65,
        |k: int|
            if k == 0 {
                0u16
            } else {
                let i = (k - 1) / 4;
                let j = (k - 1) % 4;
                if j == 0 {
                    1u16 << (i as u16)
                } else if j == 1 {
                    i as u16
                } else if j == 2 {
                    (65535 - i) as u16
                } else {
                    i as u16
                }
            },
    )
}

/// The representative signed 16-bit numbers: zero, then for each `i` below 16, the bit `i`
/// (the sign bit for the last), `i` itself, the largest number minus `i`, the smallest plus `i`,
/// and minus `i`.
pub open spec fn i16_vals() -> Seq<i16> {
    Seq::new(
        81,
        |k: int|
            if k == 0 {
                0i16
            } else {
                let i = (k - 1) / 5;
                let j = (k - 1) % 5;
                if j == 0 {
                    1i16 << (i as i16)
                } else if j == 1 {
                    i as i16
                } else if j == 2 {
                    (32767 - i) as i16
                } else if j == 3 {
                    (-32768 + i) as i16
                } else {
                    (-i) as i16
                }
            },
    )
}

/// Every pair of values of `a` and `b`, the second varying fastest.
pub open spec fn pairs<A, B>(a: Seq<A>, b: Seq<B>) -> Seq<(A, B)> {
    Seq::new(a.len() * b.len(), |k: int| (a[k / (b.len() as int)], b[k % (b.len() as int)]))
}

/// Every triple of values of `a`, `b` and `c`, the last varying fastest.
pub open spec fn triples<A, B, C>(a: Seq<A>, b: Seq<B>, c: Seq<C>) -> Seq<(A, B, C)> {
    Seq::new(
        a.len() * b.len() * c.len(),
        |k: int|
            {
                let bc = (b.len() * c.len()) as int;
                let r = k % bc;
                (a[k / bc], b[r / (c.len() as int)], c[r % (c.len() as int)])
            },
    )
}

impl Parameters for bool {
    open spec fn spec_vals() -> Seq<bool> {
        seq![true, false]
    }

    fn vals() -> (r: Vec<bool>) {
        let r = vec![true, false];
        assert(r@ =~= seq![true, false]);
        r
    }

    fn rand() -> bool {
        random_bool()
    }
}

impl Parameters for u8 {
    open spec fn spec_vals() -> Seq<u8> {
        u8_vals()
    }

    fn vals() -> (r: Vec<u8>) {
        let mut v: Vec<u8> = vec![0];
        let mut i: u8 = 0;
        while i < 8
            invariant
                i <= 8,
                v@.len() == 1 + 3 * i,
                forall|k: int| 0 <= k < v@.len() ==> v@[k] == u8_vals()[k],
            decreases 8 - i,
        {
            v.push(1 << i);
            v.push(i);
            v.push(u8::MAX - i);
            proof {
                let n = 1 + 3 * i;
                assert((n - 1) / 3 == i && (n - 1) % 3 == 0);
                assert((n + 1 - 1) / 3 == i && (n + 1 - 1) % 3 == 1);
                assert((n + 2 - 1) / 3 == i && (n + 2 - 1) % 3 == 2);
            }
            i = i + 1;
        }
        assert(v@ =~= u8_vals());
        v
    }

    fn rand() -> u8 {
        random_u8()
    }
}

impl Parameters for u16 {
    open spec fn spec_vals() -> Seq<u16> {
        u16_vals()
    }

    fn vals() -> (r: Vec<u16>) {
        let mut v: Vec<u16> = vec![0];
        let mut i: u16 = 0;
        while i < 16
            invariant
                i <= 16,
                v@.len() == 1 + 4 * i,
                forall|k: int| 0 <= k < v@.len() ==> v@[k] == u16_vals()[k],
            decreases 16 - i,
        {
            v.push(1 << i);
            v.push(i);
            v.push(u16::MAX - i);
            v.push(u16::MIN + i);
            proof {
                let n = 1 + 4 * i;
                assert((n - 1) / 4 == i && (n - 1) % 4 == 0);
                assert((n + 1 - 1) / 4 == i && (n + 1 - 1) % 4 == 1);
                assert((n + 2 - 1) / 4 == i && (n + 2 - 1) % 4 == 2);
                assert((n + 3 - 1) / 4 == i && (n + 3 - 1) % 4 == 3);
            }
            i = i + 1;
        }
        assert(v@ =~= u16_vals());
        v
    }

    fn rand() -> u16 {
        random_u16()
    }
}

impl Parameters for i16 {
    open spec fn spec_vals() -> Seq<i16> {
        i16_vals()
    }

    fn vals() -> (r: Vec<i16>) {
        let mut v: Vec<i16> = vec![0];
        let mut i: i16 = 0;
        while i < 16
            invariant
                0 <= i <= 16,
                v@.len() == 1 + 5 * i,
                forall|k: int| 0 <= k < v@.len() ==> v@[k] == i16_vals()[k],
            decreases 16 - i,
        {
            v.push(1 << i);
            v.push(i);
            v.push(i16::MAX - i);
            v.push(i16::MIN + i);
            v.push(-i);
            proof {
                let n = 1 + 5 * i;
                assert((n - 1) / 5 == i && (n - 1) % 5 == 0);
                assert((n + 1 - 1) / 5 == i && (n + 1 - 1) % 5 == 1);
                assert((n + 2 - 1) / 5 == i && (n + 2 - 1) % 5 == 2);
                assert((n + 3 - 1) / 5 == i && (n + 3 - 1) % 5 == 3);
                assert((n + 4 - 1) / 5 == i && (n + 4 - 1) % 5 == 4);
            }
            i = i + 1;
        }
        assert(v@ =~= i16_vals());
        v
    }

    fn rand() -> i16 {
        random_i16()
    }
}

impl<A: Parameters + Copy, B: Parameters + Copy> Parameters for (A, B) {
    open spec fn spec_vals() -> Seq<(A, B)> {
        pairs(A::spec_vals(), B::spec_vals())
    }

    fn vals() -> (r: Vec<(A, B)>) {
        let av = A::vals();
        let bv = B::vals();
        let ghost nb = bv@.len() as int;
        let mut v: Vec<(A, B)> = Vec::new();
        let mut ia: usize = 0;
        while ia < av.len()
            invariant
                av@ == A::spec_vals(),
                bv@ == B::spec_vals(),
                nb == bv@.len(),
                ia <= av@.len(),
                v@.len() == ia * nb,
                forall|k: int| 0 <= k < v@.len() ==> v@[k] == pairs(av@, bv@)[k],
            decreases av@.len() - ia,
        {
            let mut ib: usize = 0;
            while ib < bv.len()
                invariant
                    av@ == A::spec_vals(),
                    bv@ == B::spec_vals(),
                    nb == bv@.len(),
                    ia < av@.len(),
                    ib <= bv@.len(),
                    v@.len() == ia * nb + ib,
                    forall|k: int| 0 <= k < v@.len() ==> v@[k] == pairs(av@, bv@)[k],
                decreases bv@.len() - ib,
            {
                proof {
                    let k = ia * nb + ib;
                    lemma_fundamental_div_mod_converse(k, nb, ia as int, ib as int);
                    assert(k < av@.len() * nb) by (nonlinear_arith)
                        requires
                            ia < av@.len(),
                            ib < nb,
                            k == ia * nb + ib,
                    ;
                }
                v.push((av[ia], bv[ib]));
                ib = ib + 1;
            }
            assert((ia + 1) * nb == ia * nb + nb) by (nonlinear_arith);
            ia = ia + 1;
        }
        assert(v@ =~= pairs(av@, bv@));
        v
    }

    fn rand() -> (A, B) {
        (A::rand(), B::rand())
    }
}

impl<A: Parameters + Copy, B: Parameters + Copy, C: Parameters + Copy> Parameters for (A, B, C) {
    open spec fn spec_vals() -> Seq<(A, B, C)> {
        triples(A::spec_vals(), B::spec_vals(), C::spec_vals())
    }

    fn vals() -> (r: Vec<(A, B, C)>) {
        let av = A::vals();
        let bv = B::vals();
        let cv = C::vals();
        let ghost nb = bv@.len() as int;
        let ghost nc = cv@.len() as int;
        let mut v: Vec<(A, B, C)> = Vec::new();
        let mut ia: usize = 0;
        while ia < av.len()
            invariant
                av@ == A::spec_vals(),
                bv@ == B::spec_vals(),
                cv@ == C::spec_vals(),
                nb == bv@.len(),
                nc == cv@.len(),
                ia <= av@.len(),
                v@.len() == ia * (nb * nc),
                forall|k: int| 0 <= k < v@.len() ==> v@[k] == triples(av@, bv@, cv@)[k],
            decreases av@.len() - ia,
        {
            let mut ib: usize = 0;
            while ib < bv.len()
                invariant
                    av@ == A::spec_vals(),
                    bv@ == B::spec_vals(),
                    cv@ == C::spec_vals(),
                    nb == bv@.len(),
                    nc == cv@.len(),
                    ia < av@.len(),
                    ib <= bv@.len(),
                    v@.len() == ia * (nb * nc) + ib * nc,
                    forall|k: int| 0 <= k < v@.len() ==> v@[k] == triples(av@, bv@, cv@)[k],
                decreases bv@.len() - ib,
            {
                let mut ic: usize = 0;
                while ic < cv.len()
                    invariant
                        av@ == A::spec_vals(),
                        bv@ == B::spec_vals(),
                        cv@ == C::spec_vals(),
                        nb == bv@.len(),
                        nc == cv@.len(),
                        ia < av@.len(),
                        ib < bv@.len(),
                        ic <= cv@.len(),
                        v@.len() == ia * (nb * nc) + ib * nc + ic,
                        forall|k: int| 0 <= k < v@.len() ==> v@[k] == triples(av@, bv@, cv@)[k],
                    decreases cv@.len() - ic,
                {
                    proof {
                        let r = ib * nc + ic;
                        let k = ia * (nb * nc) + r;
                        assert(r < nb * nc) by (nonlinear_arith)
                            requires
                                ib < nb,
                                ic < nc,
                                r == ib * nc + ic,
                        ;
                        lemma_fundamental_div_mod_converse(k, nb * nc, ia as int, r);
                        lemma_fundamental_div_mod_converse(r, nc, ib as int, ic as int);
                        assert(k < av@.len() * nb * nc) by (nonlinear_arith)
                            requires
                                0 <= ia < av@.len(),
                                0 <= r < nb * nc,
                                k == ia * (nb * nc) + r,
                        ;
                    }
                    v.push((av[ia], bv[ib], cv[ic]));
                    ic = ic + 1;
                }
                assert((ib + 1) * nc == ib * nc + nc) by (nonlinear_arith);
                ib = ib + 1;
            }
            assert((ia + 1) * (nb * nc) == ia * (nb * nc) + nb * nc) by (nonlinear_arith);
            assert(nb * nc == nb * nc);
            ia = ia + 1;
        }
        assert(av@.len() * (nb * nc) == av@.len() * nb * nc) by (nonlinear_arith);
        assert(v@ =~= triples(av@, bv@, cv@));
        v
    }

    fn rand() -> (A, B, C) {
        (A::rand(), B::rand(), C::rand())
    }
}

} // verus!
