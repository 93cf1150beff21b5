//! Bounded rolling history of temperature sample pairs for trend display.
//!
//! Two index-aligned series (primary and derived temperature, millidegrees)
//! share one fixed capacity; once it is reached, pushing a new pair evicts
//! the oldest pair from both series together, strict FIFO.

use vstd::prelude::*;
use std::collections::VecDeque;

verus! {

/// Default history capacity: two minutes of samples at one sample every two
/// seconds.
pub const HISTORY_CAPACITY: usize = 60;

/// What one series looks like after a push into a buffer of capacity `cap`:
/// the sample is appended, after the oldest entry is evicted if the series is
/// full.
pub open spec fn pushed(s: Seq<i32>, cap: int, x: i32) -> Seq<i32> {
    if s.len() < cap {
        s.push(x)
    } else {
        s.drop_first().push(x)
    }
}

/// Rolling window over the primary and derived temperature series.
#[derive(Debug)]
pub struct TemperatureHistory {
    cpu_temps: VecDeque<i32>,
    kbd_temps: VecDeque<i32>,
    capacity: usize,
}

impl TemperatureHistory {
    /// The primary-temperature series, oldest first.
    pub closed spec fn cpu(self) -> Seq<i32> {
        self.cpu_temps@
    }

    /// The derived-temperature series, oldest first.
    pub closed spec fn kbd(self) -> Seq<i32> {
        self.kbd_temps@
    }

    /// The fixed capacity the buffer was built with.
    pub closed spec fn cap(self) -> int {
        self.capacity as int
    }

    /// Both series always have the same length, bounded by a capacity of at
    /// least one.
    pub open spec fn wf(self) -> bool {
        &&& self.cpu().len() == self.kbd().len()
        &&& self.cpu().len() <= self.cap()
        &&& 1 <= self.cap()
    }

    /// Empty history with the given fixed capacity.
    pub fn new(capacity: usize) -> (h: TemperatureHistory)
        requires
            capacity >= 1,
        ensures
            h.wf(),
            h.cap() == capacity as int,
            h.cpu().len() == 0,
            h.kbd().len() == 0,
    {
        TemperatureHistory {
            cpu_temps: VecDeque::with_capacity(capacity),
            kbd_temps: VecDeque::with_capacity(capacity),
            capacity,
        }
    }

    /// Append one sample pair, evicting the oldest pair first when the buffer
    /// is full; both series change together, so they keep equal lengths.
    pub fn push(&mut self, cpu: i32, kbd: i32)
        requires
            old(self).wf(),
        ensures
            final(self).wf(),
            final(self).cap() == old(self).cap(),
            final(self).cpu() == pushed(old(self).cpu(), old(self).cap(), cpu),
            final(self).kbd() == pushed(old(self).kbd(), old(self).cap(), kbd),
    {
        if self.cpu_temps.len() >= self.capacity {
            let _evicted_cpu = self.cpu_temps.pop_front();
            let _evicted_kbd = self.kbd_temps.pop_front();
            proof {
                assert(old(self).cpu().subrange(1, old(self).cpu().len() as int)
                    =~= old(self).cpu().drop_first());
                assert(old(self).kbd().subrange(1, old(self).kbd().len() as int)
                    =~= old(self).kbd().drop_first());
            }
        }
        self.cpu_temps.push_back(cpu);
        self.kbd_temps.push_back(kbd);
    }

    /// Number of sample pairs currently held.
    pub fn len(&self) -> (n: usize)
        ensures
            n as int == self.cpu().len(),
    {
        self.cpu_temps.len()
    }

    /// Whether the window holds no sample pair yet.
    pub fn is_empty(&self) -> (b: bool)
        ensures
            b == (self.cpu().len() == 0),
    {
        self.cpu_temps.len() == 0
    }

    /// The primary series as (index, sample) points, re-indexed from zero for
    /// the current window.
    pub fn cpu_points(&self) -> (pts: Vec<(usize, i32)>)
        ensures
            pts@.len() == self.cpu().len(),
            forall|i: int| 0 <= i < pts@.len() ==> pts@[i] == (i as usize, self.cpu()[i]),
    {
        let n = self.cpu_temps.len();
        let mut pts: Vec<(usize, i32)> = Vec::new();
        let mut i: usize = 0;
        while i < n
            invariant
                n as int == self.cpu().len(),
                0 <= i <= n,
                pts@.len() == i as int,
                forall|k: int| 0 <= k < i ==> pts@[k] == (k as usize, self.cpu()[k]),
            decreases n - i,
        {
            pts.push((i, self.cpu_temps[i]));
            i = i + 1;
        }
        pts
    }

    /// The derived series as (index, sample) points, re-indexed from zero for
    /// the current window.
    pub fn kbd_points(&self) -> (pts: Vec<(usize, i32)>)
        ensures
            pts@.len() == self.kbd().len(),
            forall|i: int| 0 <= i < pts@.len() ==> pts@[i] == (i as usize, self.kbd()[i]),
    {
        let n = self.kbd_temps.len();
        let mut pts: Vec<(usize, i32)> = Vec::new();
        let mut i: usize = 0;
        while i < n
            invariant
                n as int == self.kbd().len(),
                0 <= i <= n,
                pts@.len() == i as int,
                forall|k: int| 0 <= k < i ==> pts@[k] == (k as usize, self.kbd()[k]),
            decreases n - i,
        {
            pts.push((i, self.kbd_temps[i]));
            i = i + 1;
        }
        pts
    }
}

impl Default for TemperatureHistory {
    /// Empty history with the default capacity.
    fn default() -> (h: TemperatureHistory)
        ensures
            h.wf(),
            h.cap() == HISTORY_CAPACITY as int,
            h.cpu().len() == 0,
            h.kbd().len() == 0,
    {
        TemperatureHistory::new(HISTORY_CAPACITY)
    }
}

} // verus!
