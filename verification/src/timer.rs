//! A countdown in milliseconds. Waiting is modelled by nothing else: a timer
//! is set, elapsed time is taken off it, and it has finished at zero.

use vstd::prelude::*;

verus! {

#[derive(Clone, Copy, Debug, PartialEq, Eq, Structural)]
pub struct Timer {
    remaining: u64,
}

impl Timer {
    /// The milliseconds still to wait.
    pub closed spec fn spec_remaining(&self) -> u64 {
        self.remaining
    }

    /// The timer with `millis` milliseconds to go.
    pub closed spec fn of(millis: u64) -> Timer {
        Timer { remaining: millis }
    }

    /// A timer is its countdown and nothing else.
    pub proof fn lemma_of_remaining(self)
        ensures
            Timer::of(self.spec_remaining()) == self,
            forall|millis: u64| (#[trigger] Timer::of(millis)).spec_remaining() == millis,
    {
    }

    pub open spec fn spec_finished(&self) -> bool {
        self.spec_remaining() == 0
    }

    /// What is left of `remaining` milliseconds after `delta` of them.
    pub open spec fn after(remaining: u64, delta: u64) -> u64 {
        if delta >= remaining {
            0
        } else {
            (remaining - delta) as u64
        }
    }

    pub fn from_millis(millis: u64) -> (timer: Timer)
        ensures
            timer.spec_remaining() == millis,
            timer == Timer::of(millis),
    {
        Timer { remaining: millis }
    }

    /// Takes `delta` milliseconds off the countdown, stopping at zero.
    pub fn tick(&mut self, delta: u64)
        ensures
            final(self).spec_remaining() == Self::after(old(self).spec_remaining(), delta),
            *final(self) == Timer::of(Self::after(old(self).spec_remaining(), delta)),
    {
        if delta >= self.remaining {
            self.remaining = 0;
        } else {
            self.remaining = self.remaining - delta;
        }
    }

    #[verifier::when_used_as_spec(spec_finished)]
    pub fn finished(&self) -> (done: bool)
        ensures
            done == self.spec_finished(),
    {
        self.remaining == 0
    }

    #[verifier::when_used_as_spec(spec_remaining)]
    pub fn remaining(&self) -> (millis: u64)
        ensures
            millis == self.spec_remaining(),
    {
        self.remaining
    }
}

impl Default for Timer {
    fn default() -> (timer: Timer)
        ensures
            timer.spec_remaining() == 0,
    {
        Timer { remaining: 0 }
    }
}

} // verus!
