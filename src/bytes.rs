//! Fixed-width big-endian byte strings read as natural numbers.

use vstd::arithmetic::div_mod::{lemma_fundamental_div_mod, lemma_fundamental_div_mod_converse};
use vstd::prelude::*;

verus! {

/// `256^n`.
pub open spec fn pow256(n: nat) -> nat
    decreases n,
{
    if n == 0 {
        1
    } else {
        256 * pow256((n - 1) as nat)
    }
}

/// The number that `s` encodes, most significant byte first.
pub open spec fn be_value(s: Seq<u8>) -> nat
    decreases s.len(),
{
    if s.len() == 0 {
        0
    } else {
        s[0] as nat * pow256((s.len() - 1) as nat) + be_value(s.subrange(1, s.len() as int))
    }
}

/// The `n`-byte big-endian encoding of `v` (taken modulo `256^n`).
pub open spec fn be_bytes(v: nat, n: nat) -> Seq<u8>
    decreases n,
{
    if n == 0 {
        Seq::empty()
    } else {
        seq![((v / pow256((n - 1) as nat)) % 256) as u8] + be_bytes(
            v % pow256((n - 1) as nat),
            (n - 1) as nat,
        )
    }
}

pub proof fn lemma_pow256_positive(n: nat)
    ensures
        pow256(n) > 0,
    decreases n,
{
    if n > 0 {
        lemma_pow256_positive((n - 1) as nat);
    }
}

/// An `n`-byte string encodes a number below `256^n`.
pub proof fn lemma_be_value_bound(s: Seq<u8>)
    ensures
        be_value(s) < pow256(s.len()),
    decreases s.len(),
{
    if s.len() > 0 {
        let n = (s.len() - 1) as nat;
        let rest = s.subrange(1, s.len() as int);
        lemma_be_value_bound(rest);
        let p = pow256(n);
        let h = s[0] as nat;
        assert(h * p + be_value(rest) < 256 * p) by (nonlinear_arith)
            requires
                h <= 255,
                be_value(rest) < p,
        ;
    }
}

/// Encoding a number that fits and reading it back gives the number.
pub proof fn lemma_be_value_of_bytes(v: nat, n: nat)
    requires
        v < pow256(n),
    ensures
        be_bytes(v, n).len() == n,
        be_value(be_bytes(v, n)) == v,
    decreases n,
{
    if n > 0 {
        let m = (n - 1) as nat;
        let p = pow256(m);
        lemma_pow256_positive(m);
        let q = v / p;
        let r = v % p;
        lemma_fundamental_div_mod(v as int, p as int);
        assert(q < 256) by (nonlinear_arith)
            requires
                v < 256 * p,
                v == p * q + r,
                0 <= r,
                p > 0,
        ;
        lemma_be_value_of_bytes(r, m);
        let b = be_bytes(v, n);
        assert(b.subrange(1, b.len() as int) =~= be_bytes(r, m));
        assert(q % 256 == q);
        assert(be_value(b) == q * p + r) by (nonlinear_arith)
            requires
                be_value(b) == (b[0] as nat) * p + be_value(be_bytes(r, m)),
                b[0] as nat == q,
                be_value(be_bytes(r, m)) == r,
        ;
    }
}

/// Reading a byte string as a number and encoding it at the same width gives
/// the string back.
pub proof fn lemma_bytes_of_be_value(s: Seq<u8>)
    ensures
        be_bytes(be_value(s), s.len()) == s,
    decreases s.len(),
{
    if s.len() > 0 {
        let m = (s.len() - 1) as nat;
        let p = pow256(m);
        let rest = s.subrange(1, s.len() as int);
        lemma_pow256_positive(m);
        lemma_be_value_bound(rest);
        lemma_bytes_of_be_value(rest);
        let v = be_value(s);
        lemma_fundamental_div_mod_converse(
            v as int,
            p as int,
            s[0] as int,
            be_value(rest) as int,
        );
        let b = be_bytes(v, s.len());
        assert(b =~= s);
    }
}

/// A string of zero bytes encodes zero.
pub proof fn lemma_be_value_zeros(s: Seq<u8>)
    requires
        forall|i: int| 0 <= i < s.len() ==> s[i] == 0,
    ensures
        be_value(s) == 0,
    decreases s.len(),
{
    if s.len() > 0 {
        lemma_be_value_zeros(s.subrange(1, s.len() as int));
    }
}

/// Whether two 32-byte strings are equal.
pub fn eq32(a: &[u8; 32], b: &[u8; 32]) -> (r: bool)
    ensures
        r == (a@ == b@),
        r == (*a == *b),
{
    let mut i: usize = 0;
    while i < 32
        invariant
            0 <= i <= 32,
            forall|j: int| 0 <= j < i ==> a@[j] == b@[j],
        decreases 32 - i,
    {
        if a[i] != b[i] {
            return false;
        }
        i = i + 1;
    }
    assert(a@ =~= b@);
    assert(*a =~= *b);
    true
}

/// Whether every byte of a 32-byte string is zero.
pub fn is_zero32(a: &[u8; 32]) -> (r: bool)
    ensures
        r == (a@ == Seq::new(32, |i: int| 0u8)),
{
    let mut i: usize = 0;
    while i < 32
        invariant
            0 <= i <= 32,
            forall|j: int| 0 <= j < i ==> a@[j] == 0,
        decreases 32 - i,
    {
        if a[i] != 0 {
            assert(a@[i as int] != Seq::new(32, |k: int| 0u8)[i as int]);
            return false;
        }
        i = i + 1;
    }
    assert(a@ =~= Seq::new(32, |i: int| 0u8));
    true
}

proof fn lemma_be_value_split(s: Seq<u8>, i: int)
    requires
        0 <= i < s.len(),
    ensures
        be_value(s.subrange(i, s.len() as int)) == (s[i] as nat) * pow256(
            (s.len() - i - 1) as nat,
        ) + be_value(s.subrange(i + 1, s.len() as int)),
{
    let t = s.subrange(i, s.len() as int);
    assert(t.subrange(1, t.len() as int) =~= s.subrange(i + 1, s.len() as int));
}

/// Big-endian subtraction `a - b` of two 256-bit numbers, with the borrow out:
/// the difference is taken modulo `2^256`, and the borrow is set exactly when
/// `a < b`.
pub fn sub_be32(a: &[u8; 32], b: &[u8; 32]) -> (r: ([u8; 32], bool))
    ensures
        be_value(r.0@) + be_value(b@) == be_value(a@) + (if r.1 {
            pow256(32)
        } else {
            0
        }),
        r.1 == (be_value(a@) < be_value(b@)),
{
    let mut d = [0u8; 32];
    let mut borrow: u16 = 0;
    let mut i: usize = 32;
    assert(a@.subrange(32, 32) =~= Seq::<u8>::empty());
    assert(b@.subrange(32, 32) =~= Seq::<u8>::empty());
    assert(d@.subrange(32, 32) =~= Seq::<u8>::empty());
    while i > 0
        invariant
            0 <= i <= 32,
            borrow <= 1,
            be_value(d@.subrange(i as int, 32)) + be_value(b@.subrange(i as int, 32)) == be_value(
                a@.subrange(i as int, 32),
            ) + borrow * pow256((32 - i) as nat),
        decreases i,
    {
        let ghost d_old = d@;
        let k = i - 1;
        let ai = a[k] as u16;
        let bi = b[k] as u16 + borrow;
        let nb: u16;
        if ai >= bi {
            d[k] = (ai - bi) as u8;
            nb = 0;
        } else {
            d[k] = (ai + 256 - bi) as u8;
            nb = 1;
        }
        proof {
            assert(d@.subrange(i as int, 32) =~= d_old.subrange(i as int, 32));
            lemma_be_value_split(d@, k as int);
            lemma_be_value_split(a@, k as int);
            lemma_be_value_split(b@, k as int);
            let p = pow256((32 - i) as nat);
            assert(pow256((32 - k) as nat) == 256 * p);
            let dk = d@[k as int] as int;
            let ak = a@[k as int] as int;
            let bk = b@[k as int] as int;
            assert(dk + bk == ak - borrow + 256 * nb);
            assert(dk * p + bk * p == ak * p - borrow * p + nb * (256 * p)) by (nonlinear_arith)
                requires
                    dk + bk == ak - borrow + 256 * nb,
            ;
        }
        borrow = nb;
        i = k;
    }
    assert(a@.subrange(0, 32) =~= a@);
    assert(b@.subrange(0, 32) =~= b@);
    assert(d@.subrange(0, 32) =~= d@);
    proof {
        lemma_be_value_bound(a@);
        lemma_be_value_bound(b@);
        lemma_be_value_bound(d@);
    }
    (d, borrow == 1)
}

/// Appends the bytes of `s` to `v`.
pub fn push_all(v: &mut Vec<u8>, s: &[u8])
    ensures
        final(v)@ == old(v)@ + s@,
{
    let ghost start = v@;
    let mut i: usize = 0;
    while i < s.len()
        invariant
            0 <= i <= s@.len(),
            v@ == start + s@.subrange(0, i as int),
        decreases s@.len() - i,
    {
        v.push(s[i]);
        i = i + 1;
        assert(v@ =~= start + s@.subrange(0, i as int));
    }
    assert(s@.subrange(0, i as int) =~= s@);
}

/// The `N` bytes of `s` that start at `at`.
pub fn take_bytes<const N: usize>(s: &[u8], at: usize) -> (r: [u8; N])
    requires
        at + N <= s@.len(),
    ensures
        r@ == s@.subrange(at as int, at + N),
{
    let mut r = [0u8; N];
    let n = s.len();
    let mut i: usize = 0;
    while i < N
        invariant
            0 <= i <= N,
            n == s@.len(),
            at + N <= s@.len(),
            r@.len() == N,
            forall|j: int| 0 <= j < i ==> r@[j] == s@[at + j],
        decreases N - i,
    {
        r[i] = s[at + i];
        i = i + 1;
    }
    assert(r@ =~= s@.subrange(at as int, at + N));
    r
}

/// Overwrites the bytes of `dst` from `at` on with those of `src`.
pub fn put_bytes<const N: usize>(dst: &mut [u8; N], at: usize, src: &[u8])
    requires
        at + src@.len() <= N,
    ensures
        final(dst)@ == old(dst)@.subrange(0, at as int) + src@ + old(dst)@.subrange(
            at + src@.len(),
            N as int,
        ),
{
    let ghost start = dst@;
    let mut i: usize = 0;
    while i < src.len()
        invariant
            0 <= i <= src@.len(),
            at + src@.len() <= N,
            dst@.len() == N,
            forall|j: int| 0 <= j < at ==> dst@[j] == start[j],
            forall|j: int| at + src@.len() <= j < N ==> dst@[j] == start[j],
            forall|j: int| 0 <= j < i ==> dst@[at + j] == src@[j],
            forall|j: int| at + i <= j < at + src@.len() ==> dst@[j] == start[j],
        decreases src@.len() - i,
    {
        dst[at + i] = src[i];
        i = i + 1;
    }
    assert(dst@ =~= start.subrange(0, at as int) + src@ + start.subrange(
        at + src@.len(),
        N as int,
    ));
}

} // verus!
