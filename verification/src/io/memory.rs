//! The memory of a ring as the host provides it: a doubled range.
//!
//! Nothing here is executed. It states what a ring relies on, and what
//! follows from it for the bytes that go through the ring.

use vstd::arithmetic::div_mod::{
    lemma_fundamental_div_mod, lemma_mod_add_multiples_vanish, lemma_mod_bound,
    lemma_mod_multiples_vanish, lemma_small_mod,
};
use vstd::prelude::*;

verus! {

/// Whether `mem` is a doubled range of `n` bytes: `2 * n` bytes of which
/// the byte at `i` and the byte at `i + n` are one and the same.
pub open spec fn is_doubled(mem: Seq<u8>, n: nat) -> bool {
    mem.len() == 2 * n && forall|i: int| 0 <= i < n ==> mem[i] == #[trigger] mem[i + n]
}

/// A doubled range after `src` is stored from the offset `start` on: each
/// byte of `src` shows at its offset and at the offset `n` bytes away, and
/// every other byte is as it was.
pub open spec fn stored(mem: Seq<u8>, n: int, start: int, src: Seq<u8>) -> Seq<u8> {
    Seq::new(
        mem.len(),
        |p: int|
            if (p - start) % n < src.len() {
                src[(p - start) % n]
            } else {
                mem[p]
            },
    )
}

/// Two offsets of a doubled range that differ by a multiple of its length
/// hold the same byte.
pub proof fn lemma_doubled_congruent(mem: Seq<u8>, n: int, a: int, b: int)
    requires
        n > 0,
        is_doubled(mem, n as nat),
        0 <= a < 2 * n,
        0 <= b < 2 * n,
        a % n == b % n,
    ensures
        mem[a] == mem[b],
{
    lemma_fundamental_div_mod(a, n);
    lemma_fundamental_div_mod(b, n);
    lemma_mod_bound(a, n);
    lemma_mod_bound(b, n);
    let r = a % n;
    assert(a == r || a == r + n) by {
        if a < n {
            lemma_small_mod(a as nat, n as nat);
        } else {
            lemma_small_mod((a - n) as nat, n as nat);
            lemma_mod_add_multiples_vanish(a - n, n);
        }
    }
    assert(b == r || b == r + n) by {
        if b < n {
            lemma_small_mod(b as nat, n as nat);
        } else {
            lemma_small_mod((b - n) as nat, n as nat);
            lemma_mod_add_multiples_vanish(b - n, n);
        }
    }
    assert(mem[r] == mem[r + n]);
}

/// In a doubled range, a stretch of up to `n` bytes that starts below `n`
/// holds the bytes of the buffer in their circular order: its byte `j` is
/// the byte `(start + j) % n` of the buffer.
pub proof fn lemma_stretch_is_circular(mem: Seq<u8>, n: int, start: int, len: int)
    requires
        n >= 0,
        is_doubled(mem, n as nat),
        0 <= start < n,
        0 <= len <= n,
    ensures
        start + len <= mem.len(),
        forall|j: int|
            0 <= j < len ==> #[trigger] mem.subrange(start, start + len)[j] == mem[(start + j) % n],
{
    assert forall|j: int| 0 <= j < len implies #[trigger] mem.subrange(start, start + len)[j]
        == mem[(start + j) % n] by {
        lemma_mod_bound(start + j, n);
        vstd::arithmetic::div_mod::lemma_mod_twice(start + j, n);
        lemma_doubled_congruent(mem, n, start + j, (start + j) % n);
    }
}

/// Storing into a doubled range leaves it doubled.
pub proof fn lemma_stored_is_doubled(mem: Seq<u8>, n: int, start: int, src: Seq<u8>)
    requires
        n > 0,
        is_doubled(mem, n as nat),
    ensures
        is_doubled(stored(mem, n, start, src), n as nat),
{
    let after = stored(mem, n, start, src);
    assert forall|i: int| 0 <= i < n implies after[i] == #[trigger] after[i + n] by {
        lemma_mod_add_multiples_vanish(i - start, n);
        assert(i + n - start == n + (i - start));
    }
}

/// What is stored in a doubled range is read back from the stretch that it
/// was stored to, also where the stretch runs over the end of the buffer.
pub proof fn lemma_stored_reads_back(mem: Seq<u8>, n: int, start: int, src: Seq<u8>)
    requires
        n > 0,
        is_doubled(mem, n as nat),
        0 <= start < n,
        src.len() <= n,
    ensures
        stored(mem, n, start, src).subrange(start, start + src.len()) == src,
{
    let after = stored(mem, n, start, src);
    let back = after.subrange(start, start + src.len());
    assert forall|j: int| 0 <= j < src.len() implies back[j] == src[j] by {
        lemma_small_mod(j as nat, n as nat);
        assert(start + j - start == j);
    }
    assert(back =~= src);
}

/// The offset of `p` from `start` around a buffer of `n` bytes is that of
/// any offset that differs from `p`, as `start` may from its own, by a
/// multiple of `n`.
pub proof fn lemma_offset_around(n: int, p: int, start: int, q: int, from: int)
    requires
        n > 0,
        p % n == q % n,
        start % n == from % n,
    ensures
        (p - start) % n == (q - from) % n,
{
    lemma_fundamental_div_mod(p, n);
    lemma_fundamental_div_mod(q, n);
    lemma_fundamental_div_mod(start, n);
    lemma_fundamental_div_mod(from, n);
    let m = (p / n) - (q / n) - (start / n) + (from / n);
    assert(p - start == n * m + (q - from)) by (nonlinear_arith)
        requires
            p == n * (p / n) + p % n,
            q == n * (q / n) + q % n,
            start == n * (start / n) + start % n,
            from == n * (from / n) + from % n,
            p % n == q % n,
            start % n == from % n,
            m == (p / n) - (q / n) - (start / n) + (from / n),
    ;
    lemma_mod_multiples_vanish(m, q - from, n);
}

} // verus!
