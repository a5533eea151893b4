use vstd::prelude::*;

verus! {

/// A `Real` counter advances on every frame, paused or not; a `Simulation`
/// counter only on frames where the game simulation runs.
#[derive(Clone, Copy, Debug, PartialEq, Eq, Structural)]
pub enum FrameCounterType {
    Real,
    Simulation,
}

#[derive(Clone, Copy, Debug, PartialEq, Eq, Structural)]
pub struct FrameCounter {
    pub kind: FrameCounterType,
    pub counting: bool,
    pub count: u32,
}

/// Saturating successor of a frame count.
pub open spec fn next_count(c: u32) -> u32 {
    if c < u32::MAX { (c + 1) as u32 } else { c }
}

/// What one frame does to a counter.
pub open spec fn ticked(c: FrameCounter, simulation_running: bool) -> FrameCounter {
    if c.counting && (c.kind == FrameCounterType::Real || simulation_running) {
        FrameCounter { count: next_count(c.count), ..c }
    } else {
        c
    }
}

/// Registry of independent frame counters. Counters are never removed, so
/// a handle stays valid for the registry's lifetime.
pub struct FrameCounters {
    counters: Vec<FrameCounter>,
}

impl FrameCounters {
    pub closed spec fn view(&self) -> Seq<FrameCounter> {
        self.counters@
    }

    pub fn new() -> (r: Self)
        ensures
            r@ == Seq::<FrameCounter>::empty(),
    {
        FrameCounters { counters: Vec::new() }
    }

    pub fn len(&self) -> (r: usize)
        ensures
            r == self@.len(),
    {
        self.counters.len()
    }

    /// Allocates a stopped counter at zero and returns its handle.
    pub fn register_counter(&mut self, kind: FrameCounterType) -> (handle: usize)
        requires
            old(self)@.len() < usize::MAX,
        ensures
            handle == old(self)@.len(),
            final(self)@ == old(self)@.push(FrameCounter { kind, counting: false, count: 0 }),
    {
        let handle = self.counters.len();
        self.counters.push(FrameCounter { kind, counting: false, count: 0 });
        handle
    }

    pub fn start_counting(&mut self, handle: usize)
        requires
            handle < old(self)@.len(),
        ensures
            final(self)@ == old(self)@.update(handle as int, FrameCounter { counting: true, ..old(self)@[handle as int] }),
    {
        let c = self.counters[handle];
        self.counters.set(handle, FrameCounter { counting: true, ..c });
    }

    /// Stops a counter; its count is kept until it is reset.
    pub fn stop_counting(&mut self, handle: usize)
        requires
            handle < old(self)@.len(),
        ensures
            final(self)@ == old(self)@.update(handle as int, FrameCounter { counting: false, ..old(self)@[handle as int] }),
    {
        let c = self.counters[handle];
        self.counters.set(handle, FrameCounter { counting: false, ..c });
    }

    pub fn reset_frame_count(&mut self, handle: usize)
        requires
            handle < old(self)@.len(),
        ensures
            final(self)@ == old(self)@.update(handle as int, FrameCounter { count: 0, ..old(self)@[handle as int] }),
    {
        let c = self.counters[handle];
        self.counters.set(handle, FrameCounter { count: 0, ..c });
    }

    pub fn get_frame_count(&self, handle: usize) -> (r: u32)
        requires
            handle < self@.len(),
        ensures
            r == self@[handle as int].count,
    {
        self.counters[handle].count
    }

    /// Advances every running counter by one frame.
    pub fn tick(&mut self, simulation_running: bool)
        ensures
            final(self)@.len() == old(self)@.len(),
            forall|i: int| 0 <= i < old(self)@.len() ==>
                #[trigger] final(self)@[i] == ticked(old(self)@[i], simulation_running),
    {
        let n = self.counters.len();
        let mut i: usize = 0;
        while i < n
            invariant
                n == old(self)@.len(),
                self@.len() == n,
                i <= n,
                forall|j: int| 0 <= j < i ==> #[trigger] self@[j] == ticked(old(self)@[j], simulation_running),
                forall|j: int| i <= j < n ==> #[trigger] self@[j] == old(self)@[j],
            decreases n - i,
        {
            let c = self.counters[i];
            if c.counting && (c.kind == FrameCounterType::Real || simulation_running) {
                let count = if c.count < u32::MAX { c.count + 1 } else { c.count };
                self.counters.set(i, FrameCounter { count, ..c });
            }
            i = i + 1;
        }
    }
}

} // verus!
