//! Little-endian byte strings and the numbers they stand for.

use vstd::prelude::*;
use vstd::arithmetic::div_mod::{lemma_div_denominator, lemma_fundamental_div_mod, lemma_mod_breakdown};

verus! {

/// 256 to the power `n`.
pub open spec fn pow256(n: nat) -> nat
    decreases n,
{
    if n == 0 {
        1
    } else {
        256 * pow256((n - 1) as nat)
    }
}

/// The number that little-endian bytes stand for.
pub open spec fn le_value(bytes: Seq<u8>) -> nat
    decreases bytes.len(),
{
    if bytes.len() == 0 {
        0
    } else {
        bytes[0] as nat + 256 * le_value(bytes.drop_first())
    }
}

/// The `n` low bytes of `v`, least significant first.
pub open spec fn le_bytes(v: nat, n: nat) -> Seq<u8>
    decreases n,
{
    if n == 0 {
        Seq::empty()
    } else {
        seq![(v % 256) as u8].add(le_bytes(v / 256, (n - 1) as nat))
    }
}

/// `s` with the elements from `pos` on replaced by those of `t`.
pub open spec fn splice<T>(s: Seq<T>, pos: int, t: Seq<T>) -> Seq<T> {
    Seq::new(
        s.len(),
        |i: int|
            if pos <= i < pos + t.len() {
                t[i - pos]
            } else {
                s[i]
            },
    )
}

/// Splicing into a part of a sequence is splicing into the sequence.
pub proof fn lemma_splice_nested<T>(s: Seq<T>, pos: int, len: int, off: int, t: Seq<T>)
    requires
        0 <= pos,
        0 <= off,
        off + t.len() <= len,
        pos + len <= s.len(),
    ensures
        splice(s, pos + off, t) == splice(s, pos, splice(s.subrange(pos, pos + len), off, t)),
{
    assert(splice(s, pos + off, t) =~= splice(
        s,
        pos,
        splice(s.subrange(pos, pos + len), off, t),
    ));
}

/// The powers of 256 that fit in a grain.
pub proof fn lemma_pow256_values()
    ensures
        pow256(0) == 1,
        pow256(1) == 0x100,
        pow256(2) == 0x1_0000,
        pow256(3) == 0x100_0000,
        pow256(4) == 0x1_0000_0000,
        pow256(5) == 0x100_0000_0000,
        pow256(6) == 0x1_0000_0000_0000,
        pow256(7) == 0x100_0000_0000_0000,
        pow256(8) == 0x1_0000_0000_0000_0000,
{
    reveal_with_fuel(pow256, 9);
}

/// A power of 256 is positive.
pub proof fn lemma_pow256_positive(n: nat)
    ensures
        pow256(n) > 0,
    decreases n,
{
    if n > 0 {
        lemma_pow256_positive((n - 1) as nat);
    }
}

/// `le_bytes` gives as many bytes as asked for.
pub proof fn lemma_le_bytes_len(v: nat, n: nat)
    ensures
        le_bytes(v, n).len() == n,
    decreases n,
{
    if n > 0 {
        lemma_le_bytes_len(v / 256, (n - 1) as nat);
    }
}

/// Byte `k` of a number is its `k`-th digit in base 256.
pub proof fn lemma_le_bytes_index(v: nat, n: nat, k: nat)
    requires
        k < n,
    ensures
        le_bytes(v, n)[k as int] == ((v / pow256(k)) % 256) as u8,
    decreases k,
{
    let rest = le_bytes(v / 256, (n - 1) as nat);
    lemma_le_bytes_len(v / 256, (n - 1) as nat);
    assert(le_bytes(v, n) == seq![(v % 256) as u8].add(rest));
    if k > 0 {
        lemma_le_bytes_index(v / 256, (n - 1) as nat, (k - 1) as nat);
        lemma_pow256_positive((k - 1) as nat);
        lemma_div_denominator(v as int, 256, pow256((k - 1) as nat) as int);
        assert(le_bytes(v, n)[k as int] == rest[k - 1]);
        assert(pow256(k) == 256 * pow256((k - 1) as nat));
    } else {
        assert(pow256(0) == 1);
        assert(le_bytes(v, n)[0] == (v % 256) as u8);
    }
}

/// Little-endian bytes stand for a number below 256 to their count.
pub proof fn lemma_le_value_bound(bytes: Seq<u8>)
    ensures
        le_value(bytes) < pow256(bytes.len()),
    decreases bytes.len(),
{
    if bytes.len() > 0 {
        lemma_le_value_bound(bytes.drop_first());
    }
}

/// The bytes of a number stand for that number, reduced to the bytes
/// written.
pub proof fn lemma_le_value_of_bytes(v: nat, n: nat)
    ensures
        le_value(le_bytes(v, n)) == v % pow256(n),
    decreases n,
{
    lemma_le_bytes_len(v, n);
    if n > 0 {
        let rest = le_bytes(v / 256, (n - 1) as nat);
        lemma_le_value_of_bytes(v / 256, (n - 1) as nat);
        assert(le_bytes(v, n).drop_first() =~= rest);
        lemma_pow256_positive((n - 1) as nat);
        lemma_mod_breakdown(v as int, 256, pow256((n - 1) as nat) as int);
    }
}

/// A number that fits in `n` bytes is what its `n` bytes stand for.
pub proof fn lemma_le_round_trip(v: nat, n: nat)
    requires
        v < pow256(n),
    ensures
        le_value(le_bytes(v, n)) == v,
{
    lemma_le_value_of_bytes(v, n);
    lemma_pow256_positive(n);
    vstd::arithmetic::div_mod::lemma_small_mod(v, pow256(n));
}

/// The bytes of the number that bytes stand for are those bytes.
pub proof fn lemma_le_bytes_of_value(bytes: Seq<u8>)
    ensures
        le_bytes(le_value(bytes), bytes.len()) == bytes,
    decreases bytes.len(),
{
    if bytes.len() > 0 {
        let rest = bytes.drop_first();
        lemma_le_bytes_of_value(rest);
        let v = le_value(bytes);
        assert(v % 256 == bytes[0] as nat && v / 256 == le_value(rest)) by {
            lemma_fundamental_div_mod(v as int, 256);
        }
        assert(le_bytes(v, bytes.len()) =~= bytes);
    } else {
        assert(le_bytes(le_value(bytes), bytes.len()) =~= bytes);
    }
}

/// The first bytes of a number are its bytes for a smaller count.
pub proof fn lemma_le_bytes_prefix(v: nat, n: nat, m: nat)
    requires
        n <= m,
    ensures
        le_bytes(v, m).subrange(0, n as int) == le_bytes(v, n),
    decreases n,
{
    lemma_le_bytes_len(v, m);
    lemma_le_bytes_len(v, n);
    if n > 0 {
        lemma_le_bytes_prefix(v / 256, (n - 1) as nat, (m - 1) as nat);
        lemma_le_bytes_len(v / 256, (m - 1) as nat);
        lemma_le_bytes_len(v / 256, (n - 1) as nat);
        assert(le_bytes(v, m).subrange(0, n as int) =~= le_bytes(v, n)) by {
            assert forall|k: int| 0 <= k < n implies le_bytes(v, m).subrange(0, n as int)[k]
                == le_bytes(v, n)[k] by {
                if k > 0 {
                    assert(le_bytes(v, m)[k] == le_bytes(v / 256, (m - 1) as nat)[k - 1]);
                    assert(le_bytes(v, n)[k] == le_bytes(v / 256, (n - 1) as nat)[k - 1]);
                    assert(le_bytes(v / 256, (m - 1) as nat).subrange(0, n - 1)[k - 1]
                        == le_bytes(v / 256, (m - 1) as nat)[k - 1]);
                }
            }
        }
    } else {
        assert(le_bytes(v, m).subrange(0, 0) =~= le_bytes(v, 0));
    }
}

/// The bytes of a number that fits in fewer are zero from there on.
pub proof fn lemma_le_bytes_high_zero(v: nat, n: nat, m: nat, k: nat)
    requires
        n <= k < m,
        v < pow256(n),
    ensures
        le_bytes(v, m)[k as int] == 0u8,
    decreases n,
{
    lemma_le_bytes_index(v, m, k);
    lemma_pow256_monotone(n, k);
    lemma_pow256_positive(k);
    vstd::arithmetic::div_mod::lemma_basic_div(v as int, pow256(k) as int);
}

/// A greater power of 256 is no less.
pub proof fn lemma_pow256_monotone(n: nat, k: nat)
    requires
        n <= k,
    ensures
        pow256(n) <= pow256(k),
    decreases k - n,
{
    if n < k {
        lemma_pow256_monotone(n, (k - 1) as nat);
        lemma_pow256_positive((k - 1) as nat);
    }
}

/// A number written in fewer bytes over zeros reads as itself: it is
/// zero-extended.
pub proof fn lemma_le_zero_extend(v: nat, n: nat, m: nat)
    requires
        n <= m,
        v < pow256(n),
    ensures
        splice(Seq::new(m, |i: int| 0u8), 0, le_bytes(v, n)) == le_bytes(v, m),
        le_value(splice(Seq::new(m, |i: int| 0u8), 0, le_bytes(v, n))) == v,
{
    lemma_le_bytes_len(v, n);
    lemma_le_bytes_len(v, m);
    lemma_le_bytes_prefix(v, n, m);
    let spliced = splice(Seq::new(m, |i: int| 0u8), 0, le_bytes(v, n));
    assert forall|k: int| 0 <= k < m implies spliced[k] == le_bytes(v, m)[k] by {
        if k < n {
            assert(le_bytes(v, m).subrange(0, n as int)[k] == le_bytes(v, m)[k]);
        } else {
            lemma_le_bytes_high_zero(v, n, m, k as nat);
        }
    }
    assert(spliced =~= le_bytes(v, m));
    lemma_pow256_monotone(n, m);
    lemma_le_round_trip(v, m);
}

/// Reads a little-endian number of at most eight bytes.
pub fn read_le(src: &[u8]) -> (v: u64)
    requires
        src@.len() <= 8,
    ensures
        v == le_value(src@),
{
    let n = src.len();
    let mut acc: u64 = 0;
    let mut i: usize = n;
    proof {
        lemma_pow256_values();
        assert(src@.subrange(n as int, n as int) =~= Seq::<u8>::empty());
    }
    while i > 0
        invariant
            i <= n,
            n == src@.len(),
            n <= 8,
            acc == le_value(src@.subrange(i as int, n as int)),
            acc < pow256((n - i) as nat),
        decreases i,
    {
        i = i - 1;
        proof {
            let tail = src@.subrange(i as int, n as int);
            assert(tail.drop_first() =~= src@.subrange(i as int + 1, n as int));
            lemma_pow256_values();
            lemma_le_value_bound(tail);
            assert(pow256((n - i) as nat) == 256 * pow256((n - i - 1) as nat));
            lemma_pow256_bound_eight((n - i) as nat);
        }
        acc = acc * 256 + src[i] as u64;
    }
    proof {
        assert(src@.subrange(0, n as int) =~= src@);
    }
    acc
}

/// Up to eight bytes, a power of 256 fits in a grain and a bit.
pub proof fn lemma_pow256_bound_eight(n: nat)
    requires
        n <= 8,
    ensures
        pow256(n) <= 0x1_0000_0000_0000_0000,
{
    lemma_pow256_values();
    reveal_with_fuel(pow256, 9);
}

/// Writes the `n` low bytes of `v` at `pos`, least significant first.
pub fn write_le(v: u64, n: usize, dst: &mut Vec<u8>, pos: usize)
    requires
        n <= 8,
        pos + n <= old(dst)@.len(),
    ensures
        final(dst)@ == splice(old(dst)@, pos as int, le_bytes(v as nat, n as nat)),
{
    let mut cur: u64 = v;
    let mut k: usize = 0;
    let ghost before = dst@;
    let len = dst.len();
    proof {
        lemma_le_bytes_len(v as nat, n as nat);
        assert(pow256(0) == 1);
    }
    while k < n
        invariant
            k <= n <= 8,
            dst@.len() == len,
            pos + n <= dst@.len(),
            dst@.len() == before.len(),
            cur == v as nat / pow256(k as nat),
            le_bytes(v as nat, n as nat).len() == n,
            forall|i: int|
                0 <= i < dst@.len() ==> dst@[i] == if pos <= i < pos + k {
                    le_bytes(v as nat, n as nat)[i - pos]
                } else {
                    before[i]
                },
        decreases n - k,
    {
        proof {
            lemma_le_bytes_index(v as nat, n as nat, k as nat);
            lemma_pow256_positive(k as nat);
            lemma_div_denominator(v as int, pow256(k as nat) as int, 256);
            assert(pow256((k + 1) as nat) == 256 * pow256(k as nat));
            assert(pow256(k as nat) * 256 == 256 * pow256(k as nat)) by (nonlinear_arith);
        }
        dst.set(pos + k, (cur % 256) as u8);
        cur = cur / 256;
        k = k + 1;
    }
    proof {
        assert(dst@ =~= splice(before, pos as int, le_bytes(v as nat, n as nat)));
    }
}

} // verus!
