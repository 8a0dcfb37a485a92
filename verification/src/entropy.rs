//! The integer side of block entropy: how often each byte value occurs in a
//! block, and how a file is cut into the fixed-size windows whose entropies
//! the viewer caches.

use vstd::prelude::*;

verus! {

/// Number of occurrences of byte value `v` in `s`.
pub open spec fn count_of(s: Seq<u8>, v: int) -> nat
    decreases s.len(),
{
    if s.len() == 0 {
        0
    } else {
        count_of(s.drop_last(), v) + (if s.last() == v {
            1nat
        } else {
            0nat
        })
    }
}

/// Occurrences in `s` of the byte values below `n`, added up.
pub open spec fn total_count(s: Seq<u8>, n: nat) -> nat
    decreases n,
{
    if n == 0 {
        0
    } else {
        total_count(s, (n - 1) as nat) + count_of(s, n - 1)
    }
}

/// Sum of a sequence of counters.
pub open spec fn sum_counts(c: Seq<u32>) -> int
    decreases c.len(),
{
    if c.len() == 0 {
        0
    } else {
        sum_counts(c.drop_last()) + c.last()
    }
}

/// A value occurs in `s` at most `s.len()` times.
pub proof fn lemma_count_le_len(s: Seq<u8>, v: int)
    ensures
        count_of(s, v) <= s.len(),
    decreases s.len(),
{
    if s.len() > 0 {
        lemma_count_le_len(s.drop_last(), v);
    }
}

/// Appending a byte adds one occurrence of exactly that byte's value.
proof fn lemma_count_push(s: Seq<u8>, b: u8, v: int)
    ensures
        count_of(s.push(b), v) == count_of(s, v) + (if b == v {
            1int
        } else {
            0int
        }),
{
    assert(s.push(b).drop_last() =~= s);
}

/// Appending a byte adds one to the total of the values below `n` when the
/// byte is one of them.
proof fn lemma_total_push(s: Seq<u8>, b: u8, n: nat)
    ensures
        total_count(s.push(b), n) == total_count(s, n) + (if b < n {
            1int
        } else {
            0int
        }),
    decreases n,
{
    if n > 0 {
        lemma_total_push(s, b, (n - 1) as nat);
        lemma_count_push(s, b, n - 1);
    }
}

/// Every byte of a sequence is counted under exactly one of the 256 values:
/// the counts of a block add up to its length.
pub proof fn lemma_counts_cover(s: Seq<u8>)
    ensures
        total_count(s, 256) == s.len(),
    decreases s.len(),
{
    if s.len() == 0 {
        lemma_total_empty(s, 256);
    } else {
        let t = s.drop_last();
        lemma_counts_cover(t);
        assert(t.push(s.last()) =~= s);
        lemma_total_push(t, s.last(), 256);
    }
}

/// Nothing is counted in an empty sequence.
proof fn lemma_total_empty(s: Seq<u8>, n: nat)
    requires
        s.len() == 0,
    ensures
        total_count(s, n) == 0,
    decreases n,
{
    if n > 0 {
        lemma_total_empty(s, (n - 1) as nat);
    }
}

/// A table of counters that holds the count of each value of `s` adds up to
/// the total of those counts.
proof fn lemma_sum_table(s: Seq<u8>, c: Seq<u32>, n: nat)
    requires
        n <= c.len(),
        forall|v: int| 0 <= v < n ==> c[v] == count_of(s, v),
    ensures
        sum_counts(c.take(n as int)) == total_count(s, n),
    decreases n,
{
    if n > 0 {
        lemma_sum_table(s, c, (n - 1) as nat);
        assert(c.take(n as int).drop_last() =~= c.take(n - 1));
    }
}

/// Counting in a prefix never exceeds counting in the whole sequence.
proof fn lemma_count_prefix_le(s: Seq<u8>, k: int, v: int)
    requires
        0 <= k <= s.len(),
    ensures
        count_of(s.take(k), v) <= count_of(s, v),
    decreases s.len() - k,
{
    if k < s.len() {
        lemma_count_prefix_le(s, k + 1, v);
        assert(s.take(k + 1).drop_last() =~= s.take(k));
    } else {
        assert(s.take(k) =~= s);
    }
}

/// Whether every byte value occurs in `s` at most `u32::MAX` times, so that
/// 32-bit counters can hold all counts.
pub open spec fn counts_fit_u32(s: Seq<u8>) -> bool {
    forall|v: int| 0 <= v < 256 ==> #[trigger] count_of(s, v) <= u32::MAX
}

/// How often each byte value occurs in `data`, in 32-bit counters: entry `v`
/// of the result is the number of bytes equal to `v`, and the entries add up
/// to `data.len()`. `None` exactly when some value occurs more often than a
/// 32-bit counter can count.
pub fn byte_counts(data: &[u8]) -> (counts: Option<Vec<u32>>)
    ensures
        counts is Some <==> counts_fit_u32(data@),
        counts matches Some(c) ==> {
            &&& c@.len() == 256
            &&& forall|v: int| 0 <= v < 256 ==> #[trigger] c@[v] == count_of(data@, v)
            &&& sum_counts(c@) == data@.len()
        },
{
    let mut counts: Vec<u32> = Vec::new();
    let mut k: usize = 0;
    while k < 256
        invariant
            k <= 256,
            counts@.len() == k,
            forall|v: int| 0 <= v < k ==> #[trigger] counts@[v] == 0,
        decreases 256 - k,
    {
        counts.push(0);
        k = k + 1;
    }
    assert(data@.take(0) =~= Seq::<u8>::empty());
    let n = data.len();
    let mut i: usize = 0;
    while i < n
        invariant
            n == data@.len(),
            i <= n,
            counts@.len() == 256,
            forall|v: int| 0 <= v < 256 ==> #[trigger] counts@[v] == count_of(data@.take(i as int), v),
        decreases n - i,
    {
        let b = data[i];
        let bi = b as usize;
        proof {
            assert(data@.take(i as int).push(b) =~= data@.take(i + 1));
            assert forall|v: int| 0 <= v < 256 implies count_of(data@.take(i + 1), v) == count_of(
                data@.take(i as int),
                v,
            ) + (if b == v {
                1int
            } else {
                0int
            }) by {
                lemma_count_push(data@.take(i as int), b, v);
            }
        }
        let c = counts[bi];
        if c == u32::MAX {
            proof {
                lemma_count_prefix_le(data@, i + 1, bi as int);
                assert(count_of(data@, bi as int) > u32::MAX);
                assert(!counts_fit_u32(data@));
            }
            return None;
        }
        counts.set(bi, c + 1);
        i = i + 1;
    }
    proof {
        assert(data@.take(n as int) =~= data@);
        lemma_sum_table(data@, counts@, 256);
        assert(counts@.take(256) =~= counts@);
        lemma_counts_cover(data@);
        assert forall|v: int| 0 <= v < 256 implies #[trigger] count_of(data@, v) <= u32::MAX by {
            assert(counts@[v] == count_of(data@, v));
        }
    }
    Some(counts)
}

/// The window actually used: a window of 0 counts as 1.
pub open spec fn eff_window(window: int) -> int {
    if window < 1 {
        1
    } else {
        window
    }
}

/// Number of `window`-sized blocks needed to cover `len` bytes (the last one
/// may be short).
pub open spec fn spec_block_count(len: int, window: int) -> int {
    let w = eff_window(window);
    if len % w == 0 {
        len / w
    } else {
        len / w + 1
    }
}

/// First byte of block `b`.
pub open spec fn block_start(window: int, b: int) -> int {
    b * eff_window(window)
}

/// One past the last byte of block `b` of a `len`-byte file.
pub open spec fn block_end(len: int, window: int, b: int) -> int {
    if block_start(window, b) + eff_window(window) <= len {
        block_start(window, b) + eff_window(window)
    } else {
        len
    }
}

/// Number of contiguous `window`-sized blocks that cover `len` bytes: one
/// entropy value per block (a window of 0 is treated as 1).
pub fn block_count(len: usize, window: usize) -> (n: usize)
    ensures
        n == spec_block_count(len as int, window as int),
{
    let w: usize = if window < 1 {
        1
    } else {
        window
    };
    let q = len / w;
    if len % w == 0 {
        q
    } else {
        assert(q < len) by (nonlinear_arith)
            requires
                w >= 1,
                q == len / w,
                len % w != 0,
        ;
        q + 1
    }
}

/// `k` blocks of `w` bytes, the last one possibly short, are exactly what
/// covers `len` bytes.
proof fn lemma_block_count_exact(len: int, w: int, k: int)
    requires
        w >= 1,
        len >= 0,
        k >= 0,
        k * w >= len,
        k > 0 ==> (k - 1) * w < len,
    ensures
        k == spec_block_count(len, w),
{
    let q = len / w;
    let r = len % w;
    assert(len == q * w + r && 0 <= r < w) by (nonlinear_arith)
        requires
            w >= 1,
            q == len / w,
            r == len % w,
    ;
    if r == 0 {
        assert(k == q) by (nonlinear_arith)
            requires
                w >= 1,
                k * w >= q * w,
                k > 0 ==> (k - 1) * w < q * w,
                k >= 0,
                q >= 0,
        ;
    } else {
        assert(k == q + 1) by (nonlinear_arith)
            requires
                w >= 1,
                k * w >= q * w + r,
                k > 0 ==> (k - 1) * w < q * w + r,
                0 < r < w,
                k >= 0,
                q >= 0,
        ;
    }
}

/// The byte ranges `[start, end)` of the blocks that cover a `len`-byte file:
/// block `b` starts at `b * window` and ends `window` bytes later, or at the
/// end of the file for the last block (a window of 0 is treated as 1).
pub fn block_ranges(len: usize, window: usize) -> (r: Vec<(usize, usize)>)
    ensures
        r@.len() == spec_block_count(len as int, window as int),
        forall|b: int|
            0 <= b < r@.len() ==> (#[trigger] r@[b]).0 == block_start(window as int, b)
                && r@[b].1 == block_end(len as int, window as int, b),
{
    let w: usize = if window < 1 {
        1
    } else {
        window
    };
    let ghost wi = eff_window(window as int);
    let mut r: Vec<(usize, usize)> = Vec::new();
    let mut start: usize = 0;
    while start < len
        invariant
            w == wi,
            wi == eff_window(window as int),
            wi >= 1,
            start <= len,
            start < len ==> start == r@.len() * wi,
            start == len ==> r@.len() * wi >= len,
            r@.len() > 0 ==> (r@.len() - 1) * wi < len,
            r@.len() == 0 ==> start == 0,
            forall|b: int|
                0 <= b < r@.len() ==> (#[trigger] r@[b]).0 == block_start(window as int, b)
                    && r@[b].1 == block_end(len as int, window as int, b),
        decreases len - start,
    {
        let ghost k = r@.len() as int;
        assert((k + 1) * wi == k * wi + wi) by (nonlinear_arith);
        let end = if len - start < w {
            len
        } else {
            start + w
        };
        r.push((start, end));
        proof {
            assert(r@[k] == (start, end));
        }
        start = end;
    }
    proof {
        if r@.len() == 0 {
            assert(len == 0);
        }
        lemma_block_count_exact(len as int, wi, r@.len() as int);
    }
    r
}

/// The blocks partition the file: they start at 0, each one begins where the
/// previous one ended, none is empty, all but the last are exactly one window
/// long, and the last ends at the end of the file.
pub proof fn lemma_blocks_partition(len: nat, window: nat, b: int)
    requires
        0 <= b < spec_block_count(len as int, window as int),
    ensures
        block_start(window as int, 0) == 0,
        block_start(window as int, b) < block_end(len as int, window as int, b),
        block_end(len as int, window as int, b) - block_start(window as int, b) <= eff_window(
            window as int,
        ),
        b + 1 < spec_block_count(len as int, window as int) ==> block_end(
            len as int,
            window as int,
            b,
        ) == block_start(window as int, b + 1) && block_end(len as int, window as int, b)
            - block_start(window as int, b) == eff_window(window as int),
        b + 1 == spec_block_count(len as int, window as int) ==> block_end(
            len as int,
            window as int,
            b,
        ) == len,
{
    let w = eff_window(window as int);
    let n = spec_block_count(len as int, window as int);
    let q = (len as int) / w;
    let r = (len as int) % w;
    assert(len == q * w + r && 0 <= r < w) by (nonlinear_arith)
        requires
            w >= 1,
            q == (len as int) / w,
            r == (len as int) % w,
    ;
    assert(0 * w == 0);
    assert((b + 1) * w == b * w + w) by (nonlinear_arith);
    if r == 0 {
        assert(b * w + w <= len) by (nonlinear_arith)
            requires
                b < q,
                len == q * w,
                w >= 1,
        ;
    } else {
        if b + 1 < n {
            assert(b * w + w <= len) by (nonlinear_arith)
                requires
                    b + 1 < q + 1,
                    len == q * w + r,
                    w >= 1,
                    r >= 0,
            ;
        } else {
            assert(b * w < len && len < b * w + w) by (nonlinear_arith)
                requires
                    b == q,
                    len == q * w + r,
                    0 < r < w,
            ;
        }
    }
}

/// Every byte of the file lies in block `off / window` (the block whose cached
/// entropy the viewer shows for it), and that block exists.
pub proof fn lemma_offset_in_block(len: nat, window: nat, off: int)
    requires
        0 <= off < len,
    ensures
        0 <= off / eff_window(window as int) < spec_block_count(len as int, window as int),
        block_start(window as int, off / eff_window(window as int)) <= off < block_end(
            len as int,
            window as int,
            off / eff_window(window as int),
        ),
{
    let w = eff_window(window as int);
    let b = off / w;
    let q = (len as int) / w;
    let r = (len as int) % w;
    assert(len == q * w + r && 0 <= r < w) by (nonlinear_arith)
        requires
            w >= 1,
            q == (len as int) / w,
            r == (len as int) % w,
    ;
    assert(off == b * w + off % w && 0 <= off % w < w && b >= 0) by (nonlinear_arith)
        requires
            w >= 1,
            b == off / w,
            off >= 0,
    ;
    assert(b <= q) by (nonlinear_arith)
        requires
            off < len,
            w >= 1,
            b == off / w,
            q == (len as int) / w,
            off >= 0,
    ;
    if b == q {
        assert(r > 0) by (nonlinear_arith)
            requires
                off == b * w + off % w,
                0 <= off % w,
                len == q * w + r,
                b == q,
                off < len,
        ;
    }
}

} // verus!
