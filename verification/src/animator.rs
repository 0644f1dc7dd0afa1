use vstd::prelude::*;
use vstd::arithmetic::div_mod::lemma_div_non_zero;

verus! {

/// Divides the master tick stream down to an animation frame rate: at
/// `rate` frames per `resolution` ticks, one frame spans
/// `resolution / rate` ticks.
pub struct Animator {
    pub resolution: u32,
    pub rate: u32,
    pub count: u32,
}

impl Animator {
    /// Ticks per animation frame.
    pub open spec fn frame_ticks(self) -> int {
        self.resolution as int / self.rate as int
    }

    pub open spec fn wf(self) -> bool {
        &&& 1 <= self.rate <= self.resolution
        &&& self.count < self.frame_ticks()
    }

    pub fn new(resolution: u32, rate: u32) -> (r: Animator)
        requires
            1 <= rate <= resolution,
        ensures
            r.wf(),
            r.resolution == resolution,
            r.rate == rate,
            r.count == 0,
    {
        proof {
            lemma_div_non_zero(resolution as int, rate as int);
        }
        Animator { resolution, rate, count: 0 }
    }

    /// Counts one master tick, wrapping at the frame span.
    pub fn update(&mut self)
        requires
            old(self).wf(),
        ensures
            final(self).wf(),
            final(self).resolution == old(self).resolution,
            final(self).rate == old(self).rate,
            final(self).count == (old(self).count + 1) % old(self).frame_ticks(),
    {
        self.count = self.count + 1;
        self.count = self.count % (self.resolution / self.rate);
    }

    /// Whether the tick just counted starts a new frame.
    pub fn next_frame(&self) -> (r: bool)
        requires
            self.wf(),
        ensures
            r == (self.count as int % self.frame_ticks() == 0),
    {
        self.count % (self.resolution / self.rate) == 0
    }
}

} // verus!
