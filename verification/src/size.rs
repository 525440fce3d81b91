//! Page and allocation-granularity arithmetic.

use vstd::arithmetic::div_mod::{
    lemma_fundamental_div_mod, lemma_mod_multiples_basic, lemma_mod_multiples_vanish,
    lemma_small_mod,
};
use vstd::arithmetic::power2::{lemma_pow2_pos, lemma_pow2_unfold, pow2};
use vstd::bits::{lemma_u64_low_bits_mask_is_mod, lemma_u64_pow2_no_overflow, low_bits_mask};
use vstd::prelude::*;

verus! {

/// A unit of size is two raised to a power below 64.
pub open spec fn is_unit(s: int) -> bool {
    exists|k: nat| k < 64 && s == #[trigger] pow2(k)
}

/// The greatest multiple of `s` that is no more than `n`.
pub open spec fn truncated(s: int, n: int) -> int {
    n - n % s
}

/// The least multiple of `s` that is no less than `n`.
pub open spec fn rounded(s: int, n: int) -> int {
    truncated(s, n + s - 1)
}

/// The start and the length of the whole units that cover `len` bytes from `ptr`.
pub open spec fn bounded(s: int, ptr: int, len: int) -> (int, int) {
    (truncated(s, ptr), rounded(s, len + ptr % s))
}

/// A unit of size is positive.
pub proof fn lemma_unit_positive(s: int)
    requires
        is_unit(s),
    ensures
        s > 0,
{
    let k = choose|k: nat| k < 64 && s == #[trigger] pow2(k);
    lemma_pow2_pos(k);
}

/// Masking by a unit less one leaves the remainder, and masking by the
/// complement of that takes the remainder away.
proof fn lemma_masks(s: u64, n: u64)
    requires
        is_unit(s as int),
    ensures
        n & ((s - 1) as u64) == n % s,
        n & !((s - 1) as u64) == n - n % s,
{
    let k = choose|k: nat| k < 64 && s as int == #[trigger] pow2(k);
    lemma_pow2_pos(k);
    lemma_u64_pow2_no_overflow(k);
    lemma_u64_low_bits_mask_is_mod(n, k);
    assert(low_bits_mask(k) == pow2(k) - 1);
    let m = (s - 1) as u64;
    assert(n & !m == n - (n & m)) by (bit_vector);
}

/// A truncated length is a multiple of the unit, within one unit below the length.
pub proof fn lemma_truncated(s: int, n: int)
    requires
        s > 0,
        n >= 0,
    ensures
        truncated(s, n) % s == 0,
        truncated(s, n) == s * (n / s),
        n - s < truncated(s, n) <= n,
{
    lemma_fundamental_div_mod(n, s);
    lemma_mod_multiples_basic(n / s, s);
    assert(s * (n / s) == (n / s) * s) by (nonlinear_arith);
}

/// A rounded length is a multiple of the unit, within one unit above the
/// length: `round(n) >= n > round(n) - S`.
pub proof fn lemma_rounded(s: int, n: int)
    requires
        s > 0,
        n >= 0,
    ensures
        rounded(s, n) % s == 0,
        rounded(s, n) >= n > rounded(s, n) - s,
{
    lemma_truncated(s, n + s - 1);
}

/// Rounding a multiple of the unit changes nothing.
pub proof fn lemma_rounded_multiple(s: int, n: int)
    requires
        s > 0,
        n >= 0,
        n % s == 0,
    ensures
        rounded(s, n) == n,
{
    lemma_fundamental_div_mod(n, s);
    lemma_small_mod((s - 1) as nat, s as nat);
    lemma_mod_multiples_vanish(n / s, s - 1, s);
    assert(s * (n / s) + (s - 1) == n + s - 1);
    assert(s * (n / s) == (n / s) * s) by (nonlinear_arith);
}

/// Rounding a truncated length gives the truncated length back:
/// `round(truncate(n)) == truncate(n)`.
pub proof fn lemma_round_of_truncate(s: int, n: int)
    requires
        s > 0,
        n >= 0,
    ensures
        rounded(s, truncated(s, n)) == truncated(s, n),
{
    lemma_truncated(s, n);
    lemma_rounded_multiple(s, truncated(s, n));
}

/// The bounds of a range start on a unit, are whole units long, and cover the range.
pub proof fn lemma_bounded(s: int, ptr: int, len: int)
    requires
        s > 0,
        ptr >= 0,
        len >= 0,
    ensures
        bounded(s, ptr, len).0 % s == 0,
        bounded(s, ptr, len).1 % s == 0,
        bounded(s, ptr, len).0 <= ptr,
        ptr + len <= bounded(s, ptr, len).0 + bounded(s, ptr, len).1,
        bounded(s, ptr, len).0 + bounded(s, ptr, len).1 < ptr + len + s,
{
    lemma_truncated(s, ptr);
    lemma_rounded(s, len + ptr % s);
}

/// Whether `size` is a unit of size.
pub fn is_power_of_two(size: usize) -> (b: bool)
    ensures
        b == is_unit(size as int),
{
    let mut p: u64 = 1;
    let mut k: u32 = 0;
    proof {
        vstd::arithmetic::power2::lemma2_to64();
    }
    while p < size as u64 && k < 63
        invariant
            k < 64,
            p == pow2(k as nat),
            forall|j: nat| j < k ==> size != #[trigger] pow2(j),
        decreases 63 - k,
    {
        proof {
            lemma_pow2_unfold((k + 1) as nat);
            lemma_u64_pow2_no_overflow((k + 1) as nat);
            assert forall|j: nat| j < k + 1 implies size != #[trigger] pow2(j) by {
                if j == k {
                } else {
                }
            }
        }
        p = p * 2;
        k = k + 1;
    }
    proof {
        if p == size as u64 {
            assert(size as int == pow2(k as nat));
        } else {
            assert forall|j: nat| j < 64 implies size != #[trigger] pow2(j) by {
                if j > k {
                    vstd::arithmetic::power2::lemma_pow2_strictly_increases(k as nat, j);
                }
            }
        }
    }
    p == size as u64
}

/// A power-of-two byte size: the page size, the allocation granularity, or a
/// multiple of them.
#[derive(Clone, Copy)]
pub struct Size(usize);

impl Size {
    #[verifier::type_invariant]
    spec fn wf(&self) -> bool {
        is_unit(self.0 as int)
    }

    /// The number of bytes in one unit.
    pub closed spec fn unit(&self) -> int {
        self.0 as int
    }

    /// A size of `size` bytes, which must be a power of two.
    pub fn with_size(size: usize) -> (s: Self)
        requires
            is_unit(size as int),
        ensures
            s.unit() == size,
    {
        Size(size)
    }

    /// The number of bytes in one unit, which is a power of two.
    pub fn bytes(&self) -> (n: usize)
        ensures
            n == self.unit(),
            is_unit(self.unit()),
            self.unit() > 0,
    {
        proof {
            use_type_invariant(self);
            lemma_unit_positive(self.0 as int);
        }
        self.0
    }

    /// Rounds a byte size up to the nearest multiple of the unit.
    pub fn round(&self, len: usize) -> (r: usize)
        requires
            len + self.unit() - 1 <= usize::MAX,
        ensures
            r == rounded(self.unit(), len as int),
    {
        proof {
            use_type_invariant(self);
            lemma_unit_positive(self.0 as int);
        }
        self.truncate(len + (self.0 - 1))
    }

    /// Rounds a byte size down to the nearest multiple of the unit.
    pub fn truncate(&self, len: usize) -> (r: usize)
        ensures
            r == truncated(self.unit(), len as int),
    {
        proof {
            use_type_invariant(self);
            lemma_unit_positive(self.0 as int);
            lemma_masks(self.0 as u64, len as u64);
        }
        ((len as u64) & !((self.0 - 1) as u64)) as usize
    }

    /// The byte offset of a position within the unit that holds it.
    pub fn offset(&self, len: usize) -> (r: usize)
        ensures
            r == len as int % self.unit(),
    {
        proof {
            use_type_invariant(self);
            lemma_unit_positive(self.0 as int);
            lemma_masks(self.0 as u64, len as u64);
        }
        ((len as u64) & ((self.0 - 1) as u64)) as usize
    }

    /// The byte size of `count` units.
    pub fn size(&self, count: u32) -> (r: usize)
        requires
            count * self.unit() <= usize::MAX,
        ensures
            r == count * self.unit(),
    {
        proof {
            use_type_invariant(self);
            lemma_unit_positive(self.0 as int);
        }
        (count as usize) * self.0
    }

    /// The number of units needed to hold `len` bytes.
    pub fn count(&self, len: usize) -> (r: u32)
        requires
            len + self.unit() - 1 <= usize::MAX,
            rounded(self.unit(), len as int) / self.unit() <= u32::MAX,
        ensures
            r == rounded(self.unit(), len as int) / self.unit(),
    {
        proof {
            use_type_invariant(self);
            lemma_unit_positive(self.0 as int);
        }
        (self.round(len) / self.0) as u32
    }

    /// The whole units that cover `len` bytes from the address `ptr`: where
    /// they start and how many bytes they span.
    pub fn bounds(&self, ptr: usize, len: usize) -> (r: (usize, usize))
        requires
            len + ptr as int % self.unit() + self.unit() - 1 <= usize::MAX,
        ensures
            (r.0 as int, r.1 as int) == bounded(self.unit(), ptr as int, len as int),
    {
        proof {
            use_type_invariant(self);
            lemma_unit_positive(self.0 as int);
        }
        let off = self.offset(ptr);
        proof {
            lemma_truncated(self.0 as int, ptr as int);
        }
        (ptr - off, self.round(len + off))
    }
}


/// Whether a host may report `info` as its page size and its allocation
/// granularity: both are powers of two, and the second is no less than the first.
pub open spec fn is_host_info(info: (u32, u32)) -> bool {
    is_unit(info.0 as int) && is_unit(info.1 as int) && info.0 <= info.1
}

/// The page size and the allocation granularity that the host reported,
/// kept once they were asked for. A field is zero until it is loaded.
pub struct SizeCache {
    page: usize,
    alloc: usize,
}

impl SizeCache {
    #[verifier::type_invariant]
    spec fn wf(&self) -> bool {
        &&& self.page == 0 || is_unit(self.page as int)
        &&& self.alloc == 0 || is_unit(self.alloc as int)
    }

    /// The cached page size, zero if none is cached.
    pub closed spec fn page(&self) -> usize {
        self.page
    }

    /// The cached allocation granularity, zero if none is cached.
    pub closed spec fn granularity(&self) -> usize {
        self.alloc
    }

    /// A cache that holds nothing yet.
    pub fn new() -> (c: Self)
        ensures
            c.page() == 0,
            c.granularity() == 0,
    {
        SizeCache { page: 0, alloc: 0 }
    }
}

/// Stores what the host reported in the cache and hands it back.
pub fn load_system_info(cache: &mut SizeCache, info: (u32, u32)) -> (r: (u32, u32))
    requires
        is_host_info(info),
    ensures
        r == info,
        final(cache).page() == info.0,
        final(cache).granularity() == info.1,
{
    *cache = SizeCache { page: info.0 as usize, alloc: info.1 as usize };
    info
}

/// The page size: the cached one, or else the one in `info`, which is what
/// the host reports and is then cached together with its granularity.
pub fn page_size(cache: &mut SizeCache, info: (u32, u32)) -> (n: usize)
    requires
        is_host_info(info),
    ensures
        is_unit(n as int),
        old(cache).page() != 0 ==> n == old(cache).page() && *final(cache) == *old(cache),
        old(cache).page() == 0 ==> n == info.0,
        old(cache).page() == 0 ==> final(cache).page() == info.0,
        old(cache).page() == 0 ==> final(cache).granularity() == info.1,
{
    proof {
        use_type_invariant(&*cache);
    }
    let size = cache.page;
    if size == 0 {
        load_system_info(cache, info).0 as usize
    } else {
        size
    }
}

/// The allocation granularity: the cached one, or else the one in `info`,
/// which is what the host reports and is then cached together with its page size.
pub fn allocation_size(cache: &mut SizeCache, info: (u32, u32)) -> (n: usize)
    requires
        is_host_info(info),
    ensures
        is_unit(n as int),
        old(cache).granularity() != 0 ==> n == old(cache).granularity(),
        old(cache).granularity() != 0 ==> *final(cache) == *old(cache),
        old(cache).granularity() == 0 ==> n == info.1,
        old(cache).granularity() == 0 ==> final(cache).page() == info.0,
        old(cache).granularity() == 0 ==> final(cache).granularity() == info.1,
{
    proof {
        use_type_invariant(&*cache);
    }
    let size = cache.alloc;
    if size == 0 {
        load_system_info(cache, info).1 as usize
    } else {
        size
    }
}

impl Size {
    /// The size of a page of the host.
    pub fn page(cache: &mut SizeCache, info: (u32, u32)) -> (s: Self)
        requires
            is_host_info(info),
        ensures
            s.unit() == if old(cache).page() != 0 {
                old(cache).page()
            } else {
                info.0 as usize
            },
            old(cache).page() != 0 ==> *final(cache) == *old(cache),
            old(cache).page() == 0 ==> final(cache).page() == info.0,
            old(cache).page() == 0 ==> final(cache).granularity() == info.1,
    {
        Size::with_size(page_size(cache, info))
    }

    /// The allocation granularity of the host.
    pub fn allocation(cache: &mut SizeCache, info: (u32, u32)) -> (s: Self)
        requires
            is_host_info(info),
        ensures
            s.unit() == if old(cache).granularity() != 0 {
                old(cache).granularity()
            } else {
                info.1 as usize
            },
            old(cache).granularity() != 0 ==> *final(cache) == *old(cache),
            old(cache).granularity() == 0 ==> final(cache).page() == info.0,
            old(cache).granularity() == 0 ==> final(cache).granularity() == info.1,
    {
        Size::with_size(allocation_size(cache, info))
    }
}

} // verus!
