//! The rolling cache of recent full-screen frames.

use crate::clock::{elapsed, elapsed_ms};
use std::collections::VecDeque;
use vstd::prelude::*;

verus! {

/// One full-screen frame kept by the sampler.
pub struct CachedFrame {
    /// Capture time on the process's monotonic clock, in milliseconds.
    pub captured_at: u64,
    /// Where the frame's image is stored.
    pub path: String,
    /// Virtual-screen x coordinate of the image's top-left pixel.
    pub origin_x: i32,
    /// Virtual-screen y coordinate of the image's top-left pixel.
    pub origin_y: i32,
}

impl CachedFrame {
    /// A second handle on the same frame.
    pub fn duplicate(&self) -> (r: CachedFrame)
        ensures
            r == *self,
    {
        CachedFrame {
            captured_at: self.captured_at,
            path: self.path.clone(),
            origin_x: self.origin_x,
            origin_y: self.origin_y,
        }
    }
}

/// How old a frame captured at `captured_at` is at time `now`.
pub open spec fn age_at(now: u64, captured_at: u64) -> int {
    elapsed(now, captured_at)
}

/// Whether a frame is recent enough to stand in for a live capture: it is
/// younger than `max_age`. A frame of exactly that age is too old.
pub open spec fn usable(frame: CachedFrame, now: u64, max_age: u64) -> bool {
    age_at(now, frame.captured_at) < max_age
}

/// Frames appear in the order in which they were captured.
pub open spec fn time_ordered(frames: Seq<CachedFrame>) -> bool {
    forall|i: int, j: int|
        0 <= i <= j < frames.len() ==> frames[i].captured_at <= frames[j].captured_at
}

/// How many of the oldest frames must leave for `len` frames to fit.
pub open spec fn overflow(len: nat, capacity: nat) -> nat {
    if len > capacity {
        (len - capacity) as nat
    } else {
        0
    }
}

/// `frames[i]` is the freshest usable frame: no usable frame is younger, and
/// among equally young ones it is the earliest in the cache.
pub open spec fn is_freshest(frames: Seq<CachedFrame>, now: u64, max_age: u64, i: int) -> bool {
    &&& 0 <= i < frames.len()
    &&& usable(frames[i], now, max_age)
    &&& forall|j: int|
        0 <= j < frames.len() && usable(#[trigger] frames[j], now, max_age) ==> {
            &&& age_at(now, frames[i].captured_at) <= age_at(now, frames[j].captured_at)
            &&& j < i ==> age_at(now, frames[i].captured_at) < age_at(now, frames[j].captured_at)
        }
}

/// A bounded first-in, first-out cache of frames.
pub struct FrameCache {
    frames: VecDeque<CachedFrame>,
    capacity: usize,
}

impl FrameCache {
    /// The cached frames, oldest first.
    pub closed spec fn items(&self) -> Seq<CachedFrame> {
        self.frames@
    }

    /// The most frames the cache keeps.
    pub closed spec fn limit(&self) -> nat {
        self.capacity as nat
    }

    /// The cache holds no more frames than its capacity.
    pub open spec fn wf(&self) -> bool {
        self.items().len() <= self.limit()
    }

    /// An empty cache that keeps at most `capacity` frames.
    pub fn new(capacity: usize) -> (r: FrameCache)
        ensures
            r.items() == Seq::<CachedFrame>::empty(),
            r.limit() == capacity,
            r.wf(),
    {
        FrameCache { frames: VecDeque::new(), capacity }
    }

    /// Number of cached frames.
    pub fn len(&self) -> (n: usize)
        ensures
            n == self.items().len(),
    {
        self.frames.len()
    }

    /// The configured capacity.
    pub fn capacity(&self) -> (n: usize)
        ensures
            n == self.limit(),
    {
        self.capacity
    }

    /// The frame at position `index`, counted from the oldest.
    pub fn frame(&self, index: usize) -> (r: &CachedFrame)
        requires
            index < self.items().len(),
        ensures
            *r == self.items()[index as int],
    {
        &self.frames[index]
    }

    /// Appends a frame, then evicts from the front until the cache fits its
    /// capacity again. Returns the evicted frames, oldest first; their backing
    /// images are the caller's to delete.
    pub fn push(&mut self, frame: CachedFrame) -> (evicted: Vec<CachedFrame>)
        ensures
            final(self).limit() == old(self).limit(),
            final(self).wf(),
            ({
                let all = old(self).items().push(frame);
                let k = overflow(all.len(), old(self).limit()) as int;
                &&& evicted@ == all.take(k)
                &&& final(self).items() == all.skip(k)
            }),
            time_ordered(old(self).items().push(frame)) ==> time_ordered(final(self).items()),
    {
        let ghost all = self.frames@.push(frame);
        self.frames.push_back(frame);
        let mut evicted: Vec<CachedFrame> = Vec::new();
        while self.frames.len() > self.capacity
            invariant
                self.capacity == old(self).capacity,
                evicted@.len() <= all.len(),
                evicted@.len() <= overflow(all.len(), self.capacity as nat),
                evicted@ == all.take(evicted@.len() as int),
                self.frames@ == all.skip(evicted@.len() as int),
            decreases self.frames@.len(),
        {
            let front = self.frames.pop_front();
            match front {
                Some(oldest) => {
                    evicted.push(oldest);
                },
                None => {},
            }
        }
        evicted
    }

    /// Picks the freshest frame that is younger than `max_age` at time `now`.
    /// Returns its position, or `None` when no cached frame is recent enough.
    pub fn select(&self, now: u64, max_age: u64) -> (r: Option<usize>)
        ensures
            match r {
                Some(i) => is_freshest(self.items(), now, max_age, i as int),
                None => forall|j: int|
                    0 <= j < self.items().len() ==> !usable(#[trigger] self.items()[j], now, max_age),
            },
    {
        let mut best: Option<usize> = None;
        let mut best_age: u64 = 0;
        let mut i: usize = 0;
        while i < self.frames.len()
            invariant
                i <= self.frames@.len(),
                match best {
                    Some(b) => {
                        &&& is_freshest(self.frames@.take(i as int), now, max_age, b as int)
                        &&& best_age == age_at(now, self.frames@[b as int].captured_at)
                    },
                    None => forall|j: int|
                        0 <= j < i ==> !usable(#[trigger] self.frames@[j], now, max_age),
                },
            decreases self.frames@.len() - i,
        {
            let captured_at = self.frames[i].captured_at;
            let age: u64 = elapsed_ms(now, captured_at);
            if age < max_age {
                let better = match best {
                    Some(_) => age < best_age,
                    None => true,
                };
                if better {
                    best = Some(i);
                    best_age = age;
                }
            }
            i = i + 1;
        }
        assert(self.frames@.take(i as int) == self.frames@);
        best
    }
}

/// Eviction is first-in, first-out by capture time: in a time-ordered cache,
/// every frame among the `k` that leave was captured no later than any frame
/// that stays.
pub proof fn lemma_eviction_takes_oldest(all: Seq<CachedFrame>, k: int)
    requires
        time_ordered(all),
        0 <= k <= all.len(),
    ensures
        forall|i: int, j: int|
            0 <= i < all.take(k).len() && 0 <= j < all.skip(k).len() ==> (#[trigger] all.take(
                k,
            )[i]).captured_at <= (#[trigger] all.skip(k)[j]).captured_at,
{
}

} // verus!
