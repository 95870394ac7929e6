//! Fixed ring of staging-buffer slots with an acquire/release discipline.
//!
//! A `CapturePool` owns the in-use flags of a fixed number of pre-allocated
//! staging buffers, a cursor naming the most recently claimed slot, and a
//! skip flag recording that the last scheduling attempt found every slot
//! busy (that tick's frame was dropped).

use vstd::prelude::*;

verus! {

/// The slot index that follows `i` in a ring of `n` slots.
pub open spec fn spec_next_index(i: int, n: int) -> int {
    if i + 1 == n {
        0
    } else {
        i + 1
    }
}

/// `x` reduced into `[0, n)`, for `x` in `[0, 2n)`.
pub open spec fn spec_wrap_index(x: int, n: int) -> int {
    if x < n {
        x
    } else {
        x - n
    }
}

/// The first free slot met when scanning at most `k` slots of the ring,
/// beginning at `idx` and wrapping past the end.
pub open spec fn spec_scan_free(slots: Seq<bool>, idx: int, k: int) -> Option<int>
    decreases k,
{
    if k <= 0 {
        None
    } else if !slots[idx] {
        Some(idx)
    } else {
        spec_scan_free(slots, spec_next_index(idx, slots.len() as int), k - 1)
    }
}

/// The slot that an acquire on a pool with the given slots and cursor
/// claims: the first free slot found scanning the whole ring, starting just
/// after the cursor.
pub open spec fn spec_acquire_choice(slots: Seq<bool>, cursor: int) -> Option<int> {
    spec_scan_free(slots, spec_next_index(cursor, slots.len() as int), slots.len() as int)
}

/// How many slots of `s` are marked in use.
pub open spec fn in_use_count(s: Seq<bool>) -> int
    decreases s.len(),
{
    if s.len() == 0 {
        0
    } else {
        in_use_count(s.drop_last()) + if s.last() {
            1int
        } else {
            0int
        }
    }
}

proof fn lemma_scan_free_props(slots: Seq<bool>, idx: int, k: int)
    requires
        0 <= idx < slots.len(),
    ensures
        match spec_scan_free(slots, idx, k) {
            Some(i) => 0 <= i < slots.len() && !slots[i],
            None => true,
        },
    decreases k,
{
    if k <= 0 {
    } else if !slots[idx] {
    } else {
        lemma_scan_free_props(slots, spec_next_index(idx, slots.len() as int), k - 1);
    }
}

proof fn lemma_scan_none_means_busy(slots: Seq<bool>, idx: int, k: int)
    requires
        0 <= idx < slots.len(),
        k <= slots.len(),
        spec_scan_free(slots, idx, k) is None,
    ensures
        forall|d: int| 0 <= d < k ==> slots[#[trigger] spec_wrap_index(idx + d, slots.len() as int)],
    decreases k,
{
    let n = slots.len() as int;
    if k <= 0 {
    } else {
        assert(slots[idx]);
        let next = spec_next_index(idx, n);
        lemma_scan_none_means_busy(slots, next, k - 1);
        assert forall|d: int| 0 <= d < k implies slots[#[trigger] spec_wrap_index(idx + d, n)] by {
            if d == 0 {
                assert(spec_wrap_index(idx, n) == idx);
            } else {
                assert(slots[spec_wrap_index(next + (d - 1), n)]);
                assert(spec_wrap_index(next + (d - 1), n) == spec_wrap_index(idx + d, n));
            }
        }
    }
}

proof fn lemma_full_scan_none_all_busy(slots: Seq<bool>, idx: int)
    requires
        0 <= idx < slots.len(),
        spec_scan_free(slots, idx, slots.len() as int) is None,
    ensures
        forall|j: int| 0 <= j < slots.len() ==> slots[j],
{
    let n = slots.len() as int;
    lemma_scan_none_means_busy(slots, idx, n);
    assert forall|j: int| 0 <= j < n implies slots[j] by {
        let d = if j >= idx {
            j - idx
        } else {
            j - idx + n
        };
        assert(0 <= d < n);
        assert(spec_wrap_index(idx + d, n) == j);
        assert(slots[spec_wrap_index(idx + d, n)]);
    }
}

/// Law: every pool that scanning declares exhausted really has every slot in
/// use; conversely a claimed slot was free. Both facts are restated by
/// `acquire_free`'s contract; this lemma makes them available for any scan.
pub proof fn lemma_acquire_choice_props(slots: Seq<bool>, cursor: int)
    requires
        1 <= slots.len(),
        0 <= cursor < slots.len(),
    ensures
        match spec_acquire_choice(slots, cursor) {
            Some(i) => 0 <= i < slots.len() && !slots[i],
            None => forall|j: int| 0 <= j < slots.len() ==> slots[j],
        },
{
    let n = slots.len() as int;
    let start = spec_next_index(cursor, n);
    lemma_scan_free_props(slots, start, n);
    if spec_acquire_choice(slots, cursor) is None {
        lemma_full_scan_none_all_busy(slots, start);
    }
}

/// Law: the number of slots concurrently in use never exceeds the pool size,
/// whatever sequence of acquires and releases produced the slot sequence.
pub proof fn lemma_in_use_count_bounded(s: Seq<bool>)
    ensures
        0 <= in_use_count(s) <= s.len(),
    decreases s.len(),
{
    if s.len() > 0 {
        lemma_in_use_count_bounded(s.drop_last());
    }
}

/// Flipping one slot changes the in-use count by exactly that slot's
/// contribution: an acquire raises it by one, a release of a busy slot
/// lowers it by one.
pub proof fn lemma_in_use_count_update(s: Seq<bool>, i: int, b: bool)
    requires
        0 <= i < s.len(),
    ensures
        in_use_count(s.update(i, b)) == in_use_count(s) + (if b {
            1int
        } else {
            0int
        }) - (if s[i] {
            1int
        } else {
            0int
        }),
    decreases s.len(),
{
    let t = s.update(i, b);
    if i == s.len() - 1 {
        assert(t.drop_last() =~= s.drop_last());
    } else {
        assert(t.drop_last() =~= s.drop_last().update(i, b));
        lemma_in_use_count_update(s.drop_last(), i, b);
    }
}

/// Ordered ring of staging-buffer slot states plus the cursor and skip flag.
///
/// A slot is `true` while the staging buffer it stands for is claimed by an
/// in-flight copy, readback or delivery, and `false` while it is free to be
/// claimed again.
pub struct CapturePool {
    in_use: Vec<bool>,
    current: usize,
    skip: bool,
}

impl CapturePool {
    /// The in-use flag of each slot, in ring order.
    pub closed spec fn slots(&self) -> Seq<bool> {
        self.in_use@
    }

    /// The cursor: the slot most recently claimed (ignored while `skipped()`).
    pub closed spec fn cursor(&self) -> int {
        self.current as int
    }

    /// True when the last acquire attempt found no free slot and the frame
    /// was dropped.
    pub closed spec fn skipped(&self) -> bool {
        self.skip
    }

    pub open spec fn size(&self) -> int {
        self.slots().len() as int
    }

    pub open spec fn wf(&self) -> bool {
        &&& 1 <= self.slots().len()
        &&& 0 <= self.cursor() < self.slots().len()
    }

    /// A fresh pool of `n` slots, all free, with the cursor placed on the
    /// last slot so that the first acquire starts its scan at slot 0.
    pub fn new(n: usize) -> (r: CapturePool)
        requires
            1 <= n,
        ensures
            r.wf(),
            r.slots() == Seq::new(n as nat, |i: int| false),
            r.cursor() == n - 1,
            !r.skipped(),
    {
        let mut in_use: Vec<bool> = Vec::new();
        let mut i: usize = 0;
        while i < n
            invariant
                i <= n,
                in_use@ == Seq::new(i as nat, |j: int| false),
            decreases n - i,
        {
            in_use.push(false);
            proof {
                assert(in_use@ =~= Seq::new((i + 1) as nat, |j: int| false));
            }
            i += 1;
        }
        CapturePool { in_use, current: n - 1, skip: false }
    }

    /// Scans the slots starting just after the cursor, claims the first free
    /// slot found and records it as current; when every slot is busy, sets
    /// the skip flag and claims nothing. Never returns a slot whose in-use
    /// flag was already set.
    pub fn acquire_free(&mut self) -> (r: Option<usize>)
        requires
            old(self).wf(),
        ensures
            final(self).wf(),
            final(self).size() == old(self).size(),
            match r {
                Some(i) => {
                    &&& spec_acquire_choice(old(self).slots(), old(self).cursor()) == Some(
                        i as int,
                    )
                    &&& i < old(self).slots().len()
                    &&& !old(self).slots()[i as int]
                    &&& final(self).slots() == old(self).slots().update(i as int, true)
                    &&& in_use_count(final(self).slots()) == in_use_count(old(self).slots()) + 1
                    &&& final(self).cursor() == i as int
                    &&& !final(self).skipped()
                },
                None => {
                    &&& spec_acquire_choice(old(self).slots(), old(self).cursor()) is None
                    &&& forall|j: int| 0 <= j < old(self).slots().len() ==> old(self).slots()[j]
                    &&& final(self).slots() == old(self).slots()
                    &&& final(self).cursor() == old(self).cursor()
                    &&& final(self).skipped()
                },
            },
    {
        let n = self.in_use.len();
        let start = if self.current + 1 == n {
            0
        } else {
            self.current + 1
        };
        let ghost slots0 = self.in_use@;
        let mut idx = start;
        let mut k: usize = 0;
        while k < n
            invariant
                *self == *old(self),
                old(self).wf(),
                n == slots0.len(),
                slots0 == self.in_use@,
                idx < n,
                k <= n,
                start == spec_next_index(old(self).cursor(), n as int),
                spec_scan_free(slots0, start as int, n as int) == spec_scan_free(
                    slots0,
                    idx as int,
                    (n - k) as int,
                ),
            decreases n - k,
        {
            if !self.in_use[idx] {
                self.in_use.set(idx, true);
                self.current = idx;
                self.skip = false;
                proof {
                    lemma_in_use_count_update(slots0, idx as int, true);
                }
                return Some(idx);
            }
            idx = if idx + 1 == n {
                0
            } else {
                idx + 1
            };
            k += 1;
        }
        self.skip = true;
        proof {
            lemma_full_scan_none_all_busy(slots0, start as int);
        }
        None
    }

    /// Records that this tick dropped its frame without claiming a slot —
    /// the scheduler found no free buffer, or could not resolve the source —
    /// so the readback step leaves the cursor alone.
    pub fn mark_skipped(&mut self)
        ensures
            final(self).wf() == old(self).wf(),
            final(self).slots() == old(self).slots(),
            final(self).cursor() == old(self).cursor(),
            final(self).skipped(),
    {
        self.skip = true;
    }

    /// Marks slot `idx` free again. Only sound once the delivery worker has
    /// fully copied the slot's contents out, which the caller signals through
    /// a release signal; the pool itself only flips the flag.
    pub fn release(&mut self, idx: usize)
        requires
            old(self).wf(),
            idx < old(self).slots().len(),
        ensures
            final(self).wf(),
            final(self).slots() == old(self).slots().update(idx as int, false),
            in_use_count(final(self).slots()) == in_use_count(old(self).slots()) - (
            if old(self).slots()[idx as int] {
                1int
            } else {
                0int
            }),
            final(self).cursor() == old(self).cursor(),
            final(self).skipped() == old(self).skipped(),
    {
        proof {
            lemma_in_use_count_update(self.in_use@, idx as int, false);
        }
        self.in_use.set(idx, false);
    }

    /// Whether slot `idx` is currently claimed.
    pub fn slot_in_use(&self, idx: usize) -> (r: bool)
        requires
            idx < self.slots().len(),
        ensures
            r == self.slots()[idx as int],
    {
        self.in_use[idx]
    }

    /// The number of slots in the pool.
    pub fn len(&self) -> (r: usize)
        ensures
            r == self.size(),
    {
        self.in_use.len()
    }

    /// The cursor value, naming the most recently claimed slot.
    pub fn current(&self) -> (r: usize)
        ensures
            r == self.cursor(),
    {
        self.current
    }

    /// Whether the last acquire attempt dropped its frame.
    pub fn skip(&self) -> (r: bool)
        ensures
            r == self.skipped(),
    {
        self.skip
    }
}

} // verus!
