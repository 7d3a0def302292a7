//! Bitmap-based physical frame allocator.
//!
//! One bit per frame over a fixed physical region: bit `i` set means frame
//! `i` is used. Frame `i` stands for the page at
//! `MEMORY_START + i * PAGE_SIZE`. Allocation is first-fit: the lowest free
//! frame wins.

use vstd::prelude::*;

verus! {

/// Size of one physical frame in bytes.
pub const PAGE_SIZE: usize = 4096;

/// First byte of the managed physical region.
pub const MEMORY_START: usize = 0x8100_0000;

/// First byte past the managed physical region.
pub const MEMORY_END: usize = 0x8200_0000;

/// Number of frames in the managed region.
pub const FRAME_COUNT: usize = (MEMORY_END - MEMORY_START) / PAGE_SIZE;

/// Bytes in the bitmap: one bit per frame.
pub const BITMAP_LEN: usize = FRAME_COUNT / 8;

/// Whether bit `k` of byte `b` is set.
pub open spec fn bit_is_set(b: u8, k: u8) -> bool {
    (b >> k) & 1u8 == 1u8
}

/// The physical address of frame `i`.
pub open spec fn frame_addr(i: int) -> int {
    MEMORY_START + i * PAGE_SIZE
}

/// Whether frame `i`'s page overlaps the byte range `[start, end)`.
pub open spec fn frame_overlaps(i: int, start: int, end: int) -> bool {
    &&& start < end
    &&& frame_addr(i) < end
    &&& start < frame_addr(i) + PAGE_SIZE
}

/// The lowest index at or past `start` whose frame is free, or `s.len()`
/// if every frame from `start` on is used.
pub open spec fn first_free(s: Seq<bool>, start: int) -> int
    decreases s.len() - start,
{
    if start < 0 || start >= s.len() {
        s.len() as int
    } else if !s[start] {
        start
    } else {
        first_free(s, start + 1)
    }
}

/// The frame that a single `allocate_frame` on state `s` marks, or `s.len()`
/// if the allocator is exhausted.
pub open spec fn alloc_index(s: Seq<bool>) -> int {
    first_free(s, 0)
}

/// The state a single `allocate_frame` leaves behind.
pub open spec fn alloc_next(s: Seq<bool>) -> Seq<bool> {
    if 0 <= alloc_index(s) && alloc_index(s) < s.len() {
        s.update(alloc_index(s), true)
    } else {
        s
    }
}

/// The state after `k` calls of `allocate_frame` on `s`.
pub open spec fn alloc_iter(s: Seq<bool>, k: int) -> Seq<bool>
    decreases k,
{
    if k <= 0 {
        s
    } else {
        alloc_next(alloc_iter(s, k - 1))
    }
}

/// The state `reserved_region(start, end)` leaves behind: every frame
/// overlapping `[start, end)` is used, every other frame keeps its state.
pub open spec fn reserve_spec(s: Seq<bool>, start: int, end: int) -> Seq<bool> {
    Seq::new(s.len(), |i: int| s[i] || frame_overlaps(i, start, end))
}

proof fn lemma_bit_or()
    by (bit_vector)
    ensures
        forall|b: u8, j: u8| j < 8 ==> #[trigger] (((b | (1u8 << j)) >> j) & 1u8) == 1u8,
        forall|b: u8, j: u8, k: u8|
            j < 8 && k < 8 && j != k ==> #[trigger] (((b | (1u8 << j)) >> k) & 1u8) == (b >> k)
                & 1u8,
{
}

proof fn lemma_bit_clear()
    by (bit_vector)
    ensures
        forall|b: u8, j: u8| j < 8 ==> #[trigger] (((b & !(1u8 << j)) >> j) & 1u8) == 0u8,
        forall|b: u8, j: u8, k: u8|
            j < 8 && k < 8 && j != k ==> #[trigger] (((b & !(1u8 << j)) >> k) & 1u8) == (b >> k)
                & 1u8,
{
}

proof fn lemma_bit_zero()
    by (bit_vector)
    ensures
        forall|k: u8| #[trigger] ((0u8 >> k) & 1u8) == 0u8,
{
}

/// The free/used bitmap over the fixed physical region.
pub struct FrameAllocator {
    bitmap: Vec<u8>,
}

impl FrameAllocator {
    /// The bitmap holds exactly one bit per frame.
    pub closed spec fn wf(self) -> bool {
        self.bitmap@.len() == BITMAP_LEN
    }

    /// The state of every frame: `true` means used.
    pub closed spec fn frames(self) -> Seq<bool> {
        Seq::new(FRAME_COUNT as nat, |i: int| bit_is_set(self.bitmap@[i / 8], (i % 8) as u8))
    }

    /// A fresh allocator: every frame free.
    pub fn new() -> (r: FrameAllocator)
        ensures
            r.wf(),
            r.frames() =~= Seq::new(FRAME_COUNT as nat, |i: int| false),
    {
        let mut bitmap: Vec<u8> = Vec::new();
        let mut i: usize = 0;
        while i < BITMAP_LEN
            invariant
                i <= BITMAP_LEN,
                bitmap@.len() == i,
                forall|j: int| 0 <= j < i ==> bitmap@[j] == 0u8,
            decreases BITMAP_LEN - i,
        {
            bitmap.push(0u8);
            i = i + 1;
        }
        let r = FrameAllocator { bitmap };
        proof {
            lemma_bit_zero();
            assert forall|i: int| 0 <= i < FRAME_COUNT implies !r.frames()[i] by {
                assert(r.bitmap@[i / 8] == 0u8);
                assert(((0u8 >> ((i % 8) as u8)) & 1u8) == 0u8);
            }
        }
        r
    }

    fn bitmap_coords(index: usize) -> (r: (usize, u8))
        ensures
            r.0 == index as int / 8,
            r.1 == index as int % 8,
    {
        let byte = index / 8;
        let bit = index % 8;
        (byte, bit as u8)
    }

    fn set_frame(&mut self, index: usize)
        requires
            old(self).wf(),
            index < FRAME_COUNT,
        ensures
            final(self).wf(),
            final(self).frames() =~= old(self).frames().update(index as int, true),
    {
        let (byte, bit) = Self::bitmap_coords(index);
        let b = self.bitmap[byte];
        self.bitmap.set(byte, b | (1u8 << bit));
        proof {
            lemma_bit_or();
            assert forall|i: int| 0 <= i < FRAME_COUNT implies self.frames()[i] == old(
                self,
            ).frames().update(index as int, true)[i] by {
                let ib = i / 8;
                let ik = (i % 8) as u8;
                if ib == byte as int {
                    assert(self.bitmap@[ib] == b | (1u8 << bit));
                    if i == index {
                        assert(ik == bit);
                        assert(((b | (1u8 << bit)) >> bit) & 1u8 == 1u8);
                    } else {
                        assert(ik != bit);
                        assert(((b | (1u8 << bit)) >> ik) & 1u8 == (b >> ik) & 1u8);
                    }
                } else {
                    assert(self.bitmap@[ib] == old(self).bitmap@[ib]);
                }
            }
        }
    }

    fn clear_frame(&mut self, index: usize)
        requires
            old(self).wf(),
            index < FRAME_COUNT,
        ensures
            final(self).wf(),
            final(self).frames() =~= old(self).frames().update(index as int, false),
    {
        let (byte, bit) = Self::bitmap_coords(index);
        let b = self.bitmap[byte];
        self.bitmap.set(byte, b & !(1u8 << bit));
        proof {
            lemma_bit_clear();
            assert forall|i: int| 0 <= i < FRAME_COUNT implies self.frames()[i] == old(
                self,
            ).frames().update(index as int, false)[i] by {
                let ib = i / 8;
                let ik = (i % 8) as u8;
                if ib == byte as int {
                    assert(self.bitmap@[ib] == b & !(1u8 << bit));
                    if i == index {
                        assert(ik == bit);
                        assert(((b & !(1u8 << bit)) >> bit) & 1u8 == 0u8);
                    } else {
                        assert(ik != bit);
                        assert(((b & !(1u8 << bit)) >> ik) & 1u8 == (b >> ik) & 1u8);
                    }
                } else {
                    assert(self.bitmap@[ib] == old(self).bitmap@[ib]);
                }
            }
        }
    }

    fn is_frame_free(&self, index: usize) -> (r: bool)
        requires
            self.wf(),
            index < FRAME_COUNT,
        ensures
            r == !self.frames()[index as int],
    {
        let (byte, bit) = Self::bitmap_coords(index);
        let r = (self.bitmap[byte] & (1u8 << bit)) == 0;
        proof {
            let b = self.bitmap@[index as int / 8];
            assert(((b & (1u8 << bit)) == 0 <==> ((b >> bit) & 1u8) == 0u8) && (((b >> bit) & 1u8)
                == 0u8 || ((b >> bit) & 1u8) == 1u8)) by (bit_vector)
                requires
                    bit < 8,
            ;
        }
        r
    }

    /// Allocate the lowest free frame and return its physical address, or
    /// `None` when every frame is used.
    pub fn allocate_frame(&mut self) -> (r: Option<usize>)
        requires
            old(self).wf(),
        ensures
            final(self).wf(),
            final(self).frames() =~= alloc_next(old(self).frames()),
            ({
                let i = alloc_index(old(self).frames());
                if i < FRAME_COUNT {
                    r == Some((MEMORY_START + i * PAGE_SIZE) as usize)
                } else {
                    r is None
                }
            }),
    {
        let mut i: usize = 0;
        while i < FRAME_COUNT
            invariant
                self == old(self),
                self.wf(),
                i <= FRAME_COUNT,
                forall|j: int| 0 <= j < i ==> self.frames()[j],
            decreases FRAME_COUNT - i,
        {
            if self.is_frame_free(i) {
                proof {
                    lemma_first_free_from(self.frames(), 0, i as int);
                }
                self.set_frame(i);
                return Some(MEMORY_START + i * PAGE_SIZE);
            }
            i = i + 1;
        }
        proof {
            lemma_first_free_from(self.frames(), 0, FRAME_COUNT as int);
        }
        None
    }

    /// Free the frame containing `addr`. An address outside the managed
    /// region is a documented no-op, not an error.
    pub fn free_frame(&mut self, addr: usize)
        requires
            old(self).wf(),
        ensures
            final(self).wf(),
            (MEMORY_START <= addr < MEMORY_END) ==> final(self).frames() =~= old(
                self,
            ).frames().update((addr - MEMORY_START) as int / PAGE_SIZE as int, false),
            !(MEMORY_START <= addr < MEMORY_END) ==> final(self).frames() =~= old(self).frames(),
    {
        if addr < MEMORY_START || addr >= MEMORY_END {
            return ;
        }
        let index = (addr - MEMORY_START) / PAGE_SIZE;
        proof {
            assert(index < FRAME_COUNT) by (nonlinear_arith)
                requires
                    index == ((addr - MEMORY_START) as int) / (PAGE_SIZE as int),
                    0 <= ((addr - MEMORY_START) as int) < FRAME_COUNT * PAGE_SIZE,
                    PAGE_SIZE > 0,
            ;
        }
        self.clear_frame(index);
    }

    /// Mark every frame whose page overlaps `[start, end)` as used,
    /// regardless of prior state.
    pub fn reserved_region(&mut self, start: usize, end: usize)
        requires
            old(self).wf(),
        ensures
            final(self).wf(),
            final(self).frames() =~= reserve_spec(old(self).frames(), start as int, end as int),
    {
        let ghost orig = self.frames();
        let mut i: usize = 0;
        while i < FRAME_COUNT
            invariant
                self.wf(),
                i <= FRAME_COUNT,
                orig == old(self).frames(),
                orig.len() == FRAME_COUNT,
                forall|j: int|
                    0 <= j < FRAME_COUNT ==> self.frames()[j] == (orig[j] || (j < i
                        && frame_overlaps(j, start as int, end as int))),
            decreases FRAME_COUNT - i,
        {
            let ghost prev = self.frames();
            let addr = MEMORY_START + i * PAGE_SIZE;
            let hit = start < end && addr < end && start < addr + PAGE_SIZE;
            if hit {
                self.set_frame(i);
            }
            proof {
                assert(addr == frame_addr(i as int));
                assert(hit == frame_overlaps(i as int, start as int, end as int));
                assert forall|j: int| 0 <= j < FRAME_COUNT implies self.frames()[j] == (orig[j] || (
                j < i + 1 && frame_overlaps(j, start as int, end as int))) by {
                    assert(prev[j] == (orig[j] || (j < i && frame_overlaps(
                        j,
                        start as int,
                        end as int,
                    ))));
                    if hit {
                        assert(self.frames() == prev.update(i as int, true));
                        if j == i {
                            assert(prev.update(i as int, true)[j] == true);
                        } else {
                            assert(prev.update(i as int, true)[j] == prev[j]);
                        }
                        assert(self.frames()[j] == prev.update(i as int, true)[j]);
                    }
                }
            }
            i = i + 1;
        }
        proof {
            let rs = reserve_spec(orig, start as int, end as int);
            assert forall|j: int| 0 <= j < FRAME_COUNT implies self.frames()[j] == rs[j] by {
                assert(rs[j] == (orig[j] || frame_overlaps(j, start as int, end as int)));
            }
            assert(self.frames() =~= rs);
        }
    }

    /// The allocator tracks exactly `FRAME_COUNT` frames, whatever state
    /// its bitmap is in: callers may rely on the length of `frames()`.
    pub proof fn lemma_frames_len(&self)
        ensures
            self.frames().len() == FRAME_COUNT,
    {
    }

    /// Every used frame, in index order, as `(index, address)` pairs.
    pub fn debug_enumerate(&self) -> (r: Vec<(usize, usize)>)
        requires
            self.wf(),
        ensures
            r@ == used_entries(self.frames(), FRAME_COUNT as int),
    {
        let mut r: Vec<(usize, usize)> = Vec::new();
        let mut i: usize = 0;
        while i < FRAME_COUNT
            invariant
                self.wf(),
                i <= FRAME_COUNT,
                r@ == used_entries(self.frames(), i as int),
            decreases FRAME_COUNT - i,
        {
            if !self.is_frame_free(i) {
                r.push((i, MEMORY_START + i * PAGE_SIZE));
            }
            i = i + 1;
        }
        r
    }
}

/// The `(index, address)` pairs of the used frames among the first `n`.
pub open spec fn used_entries(s: Seq<bool>, n: int) -> Seq<(usize, usize)>
    decreases n,
{
    if n <= 0 {
        Seq::empty()
    } else if s[n - 1] {
        used_entries(s, n - 1).push((((n - 1) as usize, (MEMORY_START + (n - 1) * PAGE_SIZE) as usize)))
    } else {
        used_entries(s, n - 1)
    }
}

proof fn lemma_first_free_from(s: Seq<bool>, k: int, i: int)
    requires
        0 <= k <= i <= s.len(),
        forall|j: int| k <= j < i ==> s[j],
        i < s.len() ==> !s[i],
    ensures
        first_free(s, k) == if i < s.len() {
            i
        } else {
            s.len() as int
        },
    decreases i - k,
{
    if k < i {
        lemma_first_free_from(s, k + 1, i);
    }
}

/// A successful allocation marks a frame that was free and is now used.
proof fn lemma_alloc_index_free(s: Seq<bool>)
    requires
        alloc_index(s) < s.len(),
    ensures
        0 <= alloc_index(s),
        !s[alloc_index(s)],
        alloc_next(s)[alloc_index(s)],
    decreases s.len(),
{
    lemma_first_free_is_free(s, 0);
}

proof fn lemma_first_free_is_free(s: Seq<bool>, k: int)
    requires
        0 <= k,
        first_free(s, k) < s.len(),
    ensures
        k <= first_free(s, k),
        !s[first_free(s, k)],
    decreases s.len() - k,
{
    if k < s.len() && s[k] {
        lemma_first_free_is_free(s, k + 1);
    }
}

proof fn lemma_alloc_preserves_len(s: Seq<bool>, k: int)
    requires
        0 <= k,
    ensures
        alloc_iter(s, k).len() == s.len(),
    decreases k,
{
    if k > 0 {
        lemma_alloc_preserves_len(s, k - 1);
        let t = alloc_iter(s, k - 1);
        assert(t.len() == s.len());
        assert(alloc_iter(s, k) == alloc_next(t));
        assert(alloc_next(t).len() == t.len());
    } else {
        assert(alloc_iter(s, k) == s);
    }
}

/// A used frame stays used across any run of allocations.
proof fn lemma_alloc_monotonic(s: Seq<bool>, k: int, j: int)
    requires
        0 <= k,
        0 <= j < s.len(),
        s[j],
    ensures
        alloc_iter(s, k)[j],
    decreases k,
{
    if k > 0 {
        lemma_alloc_monotonic(s, k - 1, j);
        lemma_alloc_preserves_len(s, k - 1);
        assert(alloc_iter(s, k) == alloc_next(alloc_iter(s, k - 1)));
    } else {
        assert(alloc_iter(s, k) == s);
    }
}

/// First-fit allocation never hands out the same frame twice: in any run of
/// `allocate_frame` calls on one allocator, two successful calls mark
/// distinct frames, and hence return distinct addresses.
pub proof fn lemma_allocations_distinct(s: Seq<bool>, m: int, n: int)
    requires
        0 <= m < n,
        alloc_index(alloc_iter(s, m)) < s.len(),
        alloc_index(alloc_iter(s, n)) < s.len(),
    ensures
        alloc_index(alloc_iter(s, m)) != alloc_index(alloc_iter(s, n)),
        frame_addr(alloc_index(alloc_iter(s, m))) != frame_addr(alloc_index(alloc_iter(s, n))),
{
    let sm = alloc_iter(s, m);
    let sn = alloc_iter(s, n);
    let i = alloc_index(sm);
    lemma_alloc_preserves_len(s, m);
    lemma_alloc_preserves_len(s, n);
    lemma_alloc_index_free(sm);
    assert(alloc_iter(s, m + 1) == alloc_next(sm));
    assert(alloc_next(sm)[i]);
    lemma_alloc_iter_compose(s, m + 1, n - m - 1);
    lemma_alloc_monotonic(alloc_iter(s, m + 1), n - m - 1, i);
    lemma_alloc_preserves_len(s, m + 1);
    lemma_alloc_index_free(sn);
    assert(sn[i]);
    assert(i != alloc_index(sn));
}

proof fn lemma_alloc_iter_compose(s: Seq<bool>, a: int, b: int)
    requires
        0 <= a,
        0 <= b,
    ensures
        alloc_iter(alloc_iter(s, a), b) == alloc_iter(s, a + b),
    decreases b,
{
    if b > 0 {
        lemma_alloc_iter_compose(s, a, b - 1);
    }
}

/// Freeing can give a frame back: when every frame is used, freeing the
/// frame of an in-range address and then allocating returns exactly that
/// frame's address.
pub proof fn lemma_free_then_allocate(s: Seq<bool>, addr: int)
    requires
        s.len() == FRAME_COUNT,
        forall|j: int| 0 <= j < s.len() ==> s[j],
        MEMORY_START <= addr < MEMORY_END,
    ensures
        ({
            let i = (addr - MEMORY_START) / PAGE_SIZE as int;
            alloc_index(s.update(i, false)) == i
        }),
{
    let i = (addr - MEMORY_START) / PAGE_SIZE as int;
    assert(0 <= i < FRAME_COUNT) by (nonlinear_arith)
        requires
            i == (addr - MEMORY_START) / PAGE_SIZE as int,
            0 <= addr - MEMORY_START < FRAME_COUNT * PAGE_SIZE,
            PAGE_SIZE > 0,
    ;
    let s1 = s.update(i, false);
    lemma_first_free_from(s1, 0, i);
}

/// Reservation excludes a region from the pool: after `reserved_region`
/// and any number of further allocations, a successful allocation never
/// returns a frame overlapping the reserved range.
pub proof fn lemma_reserve_excludes(s: Seq<bool>, start: int, end: int, k: int)
    requires
        s.len() == FRAME_COUNT,
        0 <= k,
    ensures
        ({
            let sk = alloc_iter(reserve_spec(s, start, end), k);
            alloc_index(sk) < FRAME_COUNT ==> !frame_overlaps(alloc_index(sk), start, end)
        }),
{
    let s1 = reserve_spec(s, start, end);
    let sk = alloc_iter(s1, k);
    lemma_alloc_preserves_len(s1, k);
    if alloc_index(sk) < FRAME_COUNT {
        let i = alloc_index(sk);
        lemma_alloc_index_free(sk);
        if frame_overlaps(i, start, end) {
            assert(s1[i]);
            lemma_alloc_monotonic(s1, k, i);
            assert(sk[i]);
            assert(false);
        }
    }
}

} // verus!
