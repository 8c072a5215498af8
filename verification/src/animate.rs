//! Frame animation: a list of sprite indices shown one after another, each
//! for the same time, starting over after the last.

use vstd::prelude::*;
use crate::timer::Timer;

verus! {

pub struct Animation {
    frames: Vec<usize>,
    /// Milliseconds that each frame is shown.
    timing: u64,
    looping: bool,
}

impl Animation {
    pub closed spec fn spec_frames(&self) -> Seq<usize> {
        self.frames@
    }

    pub closed spec fn spec_timing(&self) -> u64 {
        self.timing
    }

    pub closed spec fn spec_looping(&self) -> bool {
        self.looping
    }

    /// An animation has at least one frame.
    pub open spec fn wf(&self) -> bool {
        self.spec_frames().len() > 0
    }

    pub fn new(frames: Vec<usize>, timing: u64, looping: bool) -> (animation: Self)
        requires
            frames@.len() > 0,
        ensures
            animation.wf(),
            animation.spec_frames() == frames@,
            animation.spec_timing() == timing,
            animation.spec_looping() == looping,
    {
        Animation { frames, timing, looping }
    }

    fn duplicate(&self) -> (copy: Self)
        ensures
            copy.spec_frames() == self.spec_frames(),
            copy.spec_timing() == self.spec_timing(),
            copy.spec_looping() == self.spec_looping(),
    {
        let mut frames: Vec<usize> = Vec::new();
        let mut i: usize = 0;
        while i < self.frames.len()
            invariant
                i <= self.frames@.len(),
                frames@ == self.frames@.subrange(0, i as int),
            decreases self.frames@.len() - i,
        {
            frames.push(self.frames[i]);
            i = i + 1;
        }
        assert(frames@ == self.frames@);
        Animation { frames, timing: self.timing, looping: self.looping }
    }
}

/// An animation that is playing, as the contracts see it.
pub struct Playback {
    pub frames: Seq<usize>,
    pub timing: u64,
    /// The place in `frames` of the frame being shown.
    pub frame_idx: nat,
    /// Milliseconds until the next frame.
    pub remaining: u64,
}

impl Playback {
    /// The playback after `delta` milliseconds: once the frame's time is up
    /// the next frame is due, the first one after the last, and the
    /// countdown starts again.
    pub open spec fn advance(self, delta: u64) -> Playback {
        if Timer::after(self.remaining, delta) == 0 {
            Playback {
                frame_idx: if self.frame_idx + 1 >= self.frames.len() {
                    0
                } else {
                    self.frame_idx + 1
                },
                remaining: self.timing,
                ..self
            }
        } else {
            Playback { remaining: Timer::after(self.remaining, delta), ..self }
        }
    }
}

struct RunningAnimation {
    animation: Animation,
    frame_idx: usize,
    timer: Timer,
}

impl RunningAnimation {
    fn new(animation: &Animation) -> (running: Self)
        ensures
            running.animation.spec_frames() == animation.spec_frames(),
            running.animation.spec_timing() == animation.spec_timing(),
            running.frame_idx == 0,
            running.timer.spec_remaining() == animation.spec_timing(),
    {
        let timer = Timer::from_millis(animation.timing);
        RunningAnimation { animation: animation.duplicate(), frame_idx: 0, timer }
    }
}

pub struct AnimationComponent {
    running: Option<RunningAnimation>,
}

impl View for AnimationComponent {
    type V = Option<Playback>;

    closed spec fn view(&self) -> Option<Playback> {
        match self.running {
            Some(running) => Some(
                Playback {
                    frames: running.animation.spec_frames(),
                    timing: running.animation.spec_timing(),
                    frame_idx: running.frame_idx as nat,
                    remaining: running.timer.spec_remaining(),
                },
            ),
            None => None,
        }
    }
}

impl Default for AnimationComponent {
    fn default() -> (component: AnimationComponent)
        ensures
            component@ is None,
            component.wf(),
    {
        AnimationComponent { running: None }
    }
}

impl AnimationComponent {
    /// The frame being shown is one of the animation's frames.
    pub open spec fn wf(&self) -> bool {
        self@ matches Some(playback) ==> playback.frame_idx < playback.frames.len()
    }

    /// Plays `animation` from its first frame.
    pub fn start_animation(&mut self, animation: &Animation)
        requires
            animation.wf(),
        ensures
            final(self).wf(),
            final(self)@ == Some(
                Playback {
                    frames: animation.spec_frames(),
                    timing: animation.spec_timing(),
                    frame_idx: 0,
                    remaining: animation.spec_timing(),
                },
            ),
    {
        self.running = Some(RunningAnimation::new(animation));
    }

    pub fn stop_animation(&mut self)
        ensures
            final(self)@ is None,
            final(self).wf(),
    {
        self.running = None;
    }

    /// Whether an animation is playing.
    pub fn is_running(&self) -> (running: bool)
        ensures
            running == (self@ is Some),
    {
        self.running.is_some()
    }
}

/// One frame of time for one sprite: a playing animation puts its current
/// frame into `sprite_index` and then moves on by `delta` milliseconds;
/// without one nothing changes.
pub fn animate_sprites(
    sprite_index: &mut usize,
    animation_component: &mut AnimationComponent,
    delta: u64,
)
    requires
        old(animation_component).wf(),
    ensures
        final(animation_component).wf(),
        match old(animation_component)@ {
            Some(playback) => {
                &&& *final(sprite_index) == playback.frames[playback.frame_idx as int]
                &&& final(animation_component)@ == Some(playback.advance(delta))
            },
            None => {
                &&& *final(sprite_index) == *old(sprite_index)
                &&& final(animation_component)@ is None
            },
        },
{
    match animation_component.running.take() {
        None => {},
        Some(mut running) => {
            let count: usize = running.animation.frames.len();
            *sprite_index = running.animation.frames[running.frame_idx];
            running.timer.tick(delta);
            if running.timer.finished() {
                running.frame_idx = running.frame_idx + 1;
                if running.frame_idx >= count {
                    running.frame_idx = 0;
                }
                running.timer = Timer::from_millis(running.animation.timing);
            }
            animation_component.running = Some(running);
        },
    }
}

} // verus!
