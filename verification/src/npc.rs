//! The patron: stats that decay with time, and the behaviour that the stats
//! choose. Times are in milliseconds, stats in ten-thousandths of a point.

use vstd::prelude::*;
use crate::animate::{Animation, AnimationComponent};
use crate::item::{clamp_i64, Beverage, Item, Stats};
use crate::player::{Player, PlayerHeading};
use crate::timer::Timer;
use crate::vector::IVec2;

verus! {

/// How much each stat drops per millisecond.
pub const QUENCH_DECAY: i64 = 5;

pub const MOOD_DECAY: i64 = 3;

pub const DRUNK_DECAY: i64 = 1;

/// At this much quench or less a patron orders a drink.
pub const THIRST_THRESHOLD: i64 = 100_000;

/// From this much drunk on a patron fights or dances.
pub const TIPSY_THRESHOLD: i64 = 300_000;

/// From this much drunk on a patron is sick.
pub const SICK_THRESHOLD: i64 = 600_000;

/// What an item that is no drink does to the one who drinks it.
pub open spec fn substitute_penalty() -> Stats {
    Stats { quench: -100_000i64, mood: -50_000i64, drunk: -30_000i64 }
}

#[derive(Clone, Copy, Debug, PartialEq, Eq, Structural)]
pub enum Behavior {
    Idle,
    Request(Item),
    Grab,
    Drink,
    Chat,
    Fight,
    Dance,
    Cry,
    Puke,
}

impl Default for Behavior {
    fn default() -> (behavior: Behavior)
        ensures
            behavior == Behavior::Idle,
    {
        Behavior::Idle
    }
}

/// The animations a patron can play.
#[derive(Clone, Copy, Debug, PartialEq, Eq, Structural)]
pub enum Motion {
    Dance,
    TalkRight,
    TalkLeft,
    Puke,
    Cry,
    PunchLeft,
    PunchRight,
    Drink,
}

impl Behavior {
    /// Whether the patron acts this behaviour out once it has arrived: all
    /// but waiting, ordering and grabbing.
    pub open spec fn spec_is_act(&self) -> bool {
        match self {
            Behavior::Idle | Behavior::Request(_) | Behavior::Grab => false,
            _ => true,
        }
    }

    /// How long the patron rests after acting this behaviour out, in
    /// milliseconds.
    pub open spec fn spec_duration(&self) -> u64 {
        match self {
            Behavior::Drink => 3_500,
            Behavior::Chat => 6_500,
            Behavior::Fight => 2_500,
            Behavior::Dance => 10_500,
            Behavior::Cry => 9_500,
            Behavior::Puke => 6_000,
            _ => 0,
        }
    }

    /// The animation that goes with acting this behaviour out.
    pub open spec fn spec_motion(&self) -> Option<Motion> {
        match self {
            Behavior::Drink => Some(Motion::Drink),
            Behavior::Chat => Some(Motion::TalkRight),
            Behavior::Fight => Some(Motion::PunchRight),
            Behavior::Dance => Some(Motion::Dance),
            Behavior::Cry => Some(Motion::Cry),
            Behavior::Puke => Some(Motion::Puke),
            _ => None,
        }
    }

    #[verifier::when_used_as_spec(spec_is_act)]
    pub fn is_act(&self) -> (yes: bool)
        ensures
            yes == self.spec_is_act(),
    {
        match self {
            Behavior::Idle | Behavior::Request(_) | Behavior::Grab => false,
            _ => true,
        }
    }

    #[verifier::when_used_as_spec(spec_duration)]
    pub fn duration(&self) -> (millis: u64)
        ensures
            millis == self.spec_duration(),
    {
        match self {
            Behavior::Drink => 3_500,
            Behavior::Chat => 6_500,
            Behavior::Fight => 2_500,
            Behavior::Dance => 10_500,
            Behavior::Cry => 9_500,
            Behavior::Puke => 6_000,
            _ => 0,
        }
    }

    #[verifier::when_used_as_spec(spec_motion)]
    pub fn motion(&self) -> (motion: Option<Motion>)
        ensures
            motion == self.spec_motion(),
    {
        match self {
            Behavior::Drink => Some(Motion::Drink),
            Behavior::Chat => Some(Motion::TalkRight),
            Behavior::Fight => Some(Motion::PunchRight),
            Behavior::Dance => Some(Motion::Dance),
            Behavior::Cry => Some(Motion::Cry),
            Behavior::Puke => Some(Motion::Puke),
            _ => None,
        }
    }
}

pub struct NPCAnimations {
    pub dance: Animation,
    pub talk_right: Animation,
    pub talk_left: Animation,
    pub puke: Animation,
    pub cry: Animation,
    pub punch_left: Animation,
    pub punch_right: Animation,
    pub drink: Animation,
}

impl NPCAnimations {
    pub open spec fn wf(&self) -> bool {
        &&& self.dance.wf()
        &&& self.talk_right.wf()
        &&& self.talk_left.wf()
        &&& self.puke.wf()
        &&& self.cry.wf()
        &&& self.punch_left.wf()
        &&& self.punch_right.wf()
        &&& self.drink.wf()
    }

    pub open spec fn spec_get(&self, motion: Motion) -> &Animation {
        match motion {
            Motion::Dance => &self.dance,
            Motion::TalkRight => &self.talk_right,
            Motion::TalkLeft => &self.talk_left,
            Motion::Puke => &self.puke,
            Motion::Cry => &self.cry,
            Motion::PunchLeft => &self.punch_left,
            Motion::PunchRight => &self.punch_right,
            Motion::Drink => &self.drink,
        }
    }

    /// The patron's sprite sheet, motion by motion.
    pub fn new() -> (animations: Self)
        ensures
            animations.wf(),
            animations.dance.spec_frames() == seq![4usize, 5, 6, 7],
            animations.talk_right.spec_frames() == seq![3usize, 9],
            animations.talk_left.spec_frames() == seq![2usize, 8],
            animations.puke.spec_frames() == seq![2usize, 10, 11, 12],
            animations.cry.spec_frames() == seq![0usize, 13, 14, 15, 16, 17],
            animations.punch_left.spec_frames() == seq![2usize, 18, 19, 20],
            animations.punch_right.spec_frames() == seq![3usize, 21, 22, 23],
            animations.drink.spec_frames() == seq![24usize, 25],
            animations.talk_right.spec_timing() == 400,
            animations.talk_left.spec_timing() == 400,
            animations.dance.spec_timing() == 300,
            animations.puke.spec_timing() == 300,
            animations.cry.spec_timing() == 300,
            animations.punch_left.spec_timing() == 300,
            animations.punch_right.spec_timing() == 300,
            animations.drink.spec_timing() == 300,
    {
        NPCAnimations {
            dance: Animation::new(vec![4, 5, 6, 7], 300, true),
            talk_right: Animation::new(vec![3, 9], 400, true),
            talk_left: Animation::new(vec![2, 8], 400, true),
            puke: Animation::new(vec![2, 10, 11, 12], 300, true),
            cry: Animation::new(vec![0, 13, 14, 15, 16, 17], 300, true),
            punch_left: Animation::new(vec![2, 18, 19, 20], 300, true),
            punch_right: Animation::new(vec![3, 21, 22, 23], 300, true),
            drink: Animation::new(vec![24, 25], 300, true),
        }
    }

    #[verifier::when_used_as_spec(spec_get)]
    pub fn get(&self, motion: Motion) -> (animation: &Animation)
        ensures
            animation == self.spec_get(motion),
    {
        match motion {
            Motion::Dance => &self.dance,
            Motion::TalkRight => &self.talk_right,
            Motion::TalkLeft => &self.talk_left,
            Motion::Puke => &self.puke,
            Motion::Cry => &self.cry,
            Motion::PunchLeft => &self.punch_left,
            Motion::PunchRight => &self.punch_right,
            Motion::Drink => &self.drink,
        }
    }
}

#[derive(Clone, Copy, Debug, PartialEq, Eq, Structural)]
pub struct NPC {
    /// Current internal stats driving the choices.
    pub stats: Stats,
    /// Tile to move to. If none, the patron stands still.
    pub move_to: Option<IVec2>,
    pub behavior: Behavior,
    /// No choice is made while this runs.
    pub timer: Timer,
}

impl Default for NPC {
    fn default() -> (npc: NPC)
        ensures
            npc.stats == (Stats { quench: 0, mood: 0, drunk: 0 }),
            npc.move_to is None,
            npc.behavior == Behavior::Idle,
            npc.timer.spec_remaining() == 0,
    {
        NPC {
            stats: Stats::default(),
            move_to: None,
            behavior: Behavior::Idle,
            timer: Timer::default(),
        }
    }
}

/// The stats after `delta` milliseconds: each dropped at its own rate, the
/// quench never below zero.
pub open spec fn decayed(stats: Stats, delta: u64) -> Stats {
    let quench = clamp_i64(stats.quench - QUENCH_DECAY * delta);
    Stats {
        quench: (if quench < 0 {
            0
        } else {
            quench
        }) as i64,
        mood: clamp_i64(stats.mood - MOOD_DECAY * delta) as i64,
        drunk: clamp_i64(stats.drunk - DRUNK_DECAY * delta) as i64,
    }
}

fn drop_clamped(value: i64, rate: i64, delta: u64) -> (r: i64)
    requires
        0 <= rate <= 5,
    ensures
        r as int == clamp_i64(value as int - rate as int * delta as int),
{
    assert(0 <= rate as int * delta as int <= 5 * 0xffff_ffff_ffff_ffff) by (nonlinear_arith)
        requires
            0 <= rate as int <= 5,
            0 <= delta as int <= 0xffff_ffff_ffff_ffff,
    ;
    let wide: i128 = value as i128 - rate as i128 * delta as i128;
    if wide < i64::MIN as i128 {
        i64::MIN
    } else if wide > i64::MAX as i128 {
        i64::MAX
    } else {
        wide as i64
    }
}

/// Lets `delta` milliseconds pass over the patron's stats.
pub fn update_npc_stats(npc: &mut NPC, delta: u64)
    ensures
        *final(npc) == (NPC { stats: decayed(old(npc).stats, delta), ..*old(npc) }),
        final(npc).stats.quench >= 0,
{
    npc.stats.quench = drop_clamped(npc.stats.quench, QUENCH_DECAY, delta);
    npc.stats.mood = drop_clamped(npc.stats.mood, MOOD_DECAY, delta);
    npc.stats.drunk = drop_clamped(npc.stats.drunk, DRUNK_DECAY, delta);
    if npc.stats.quench < 0 {
        npc.stats.quench = 0;
    }
}

/// The stats after drinking `item`: a drink adds its own, anything else
/// costs the penalty.
pub open spec fn after_drinking(stats: Stats, item: Item) -> Stats {
    match item {
        Item::Beverage(beverage) => stats.spec_add(beverage.stats),
        _ => stats.spec_add(substitute_penalty()),
    }
}

pub fn npc_consume_drink(npc: &mut NPC, item: &Item)
    ensures
        *final(npc) == (NPC { stats: after_drinking(old(npc).stats, *item), ..*old(npc) }),
{
    match item {
        Item::Beverage(beverage) => {
            npc.stats = npc.stats.add(beverage.stats);
        },
        _ => {
            npc.stats = npc.stats.add(Stats { quench: -100_000, mood: -50_000, drunk: -30_000 });
        },
    }
}

/// What a rested patron does next.
pub open spec fn next_action(stats: Stats) -> Behavior {
    if stats.quench <= THIRST_THRESHOLD {
        Behavior::Request(Item::Beverage(Beverage { stats: Stats { quench: 0, mood: 0, drunk: 0 } }))
    } else if stats.drunk < TIPSY_THRESHOLD {
        if stats.mood < 0 {
            Behavior::Cry
        } else {
            Behavior::Chat
        }
    } else if stats.drunk < SICK_THRESHOLD {
        if stats.mood < 0 {
            Behavior::Fight
        } else {
            Behavior::Dance
        }
    } else {
        Behavior::Puke
    }
}

pub fn npc_decide_next_action(npc: &NPC) -> (behavior: Behavior)
    ensures
        behavior == next_action(npc.stats),
        behavior != Behavior::Idle,
        behavior != Behavior::Grab,
        behavior != Behavior::Drink,
{
    if npc.stats.quench <= THIRST_THRESHOLD {
        return Behavior::Request(Item::Beverage(Beverage::default()));
    }
    if npc.stats.drunk < TIPSY_THRESHOLD {
        if npc.stats.mood < 0 {
            Behavior::Cry
        } else {
            Behavior::Chat
        }
    } else if npc.stats.drunk < SICK_THRESHOLD {
        if npc.stats.mood < 0 {
            Behavior::Fight
        } else {
            Behavior::Dance
        }
    } else {
        Behavior::Puke
    }
}

/// Arrived at the counter: the patron turns to it and starts grabbing.
pub fn npc_to_grab(npc: &mut NPC, player: &mut Player)
    ensures
        *final(npc) == (NPC { behavior: Behavior::Grab, ..*old(npc) }),
        *final(player) == (Player { heading: PlayerHeading::Up, ..*old(player) }),
{
    player.heading = PlayerHeading::Up;
    npc.behavior = Behavior::Grab;
}

/// Takes up one of the behaviours that need no errand: chat, fight, dance,
/// cry or puke.
pub fn npc_to_act(npc: &mut NPC, behavior: Behavior)
    ensures
        *final(npc) == (NPC { behavior, ..*old(npc) }),
{
    npc.behavior = behavior;
}

/// Acts the current behaviour out: its animation starts, the patron goes
/// idle, and the timer is set to the rest that the behaviour asks for.
pub fn npc_start_act(
    npc: &mut NPC,
    animation: &mut AnimationComponent,
    npc_animations: &NPCAnimations,
)
    requires
        old(npc).behavior.spec_is_act(),
        npc_animations.wf(),
    ensures
        final(npc).behavior == Behavior::Idle,
        final(npc).timer.spec_remaining() == old(npc).behavior.spec_duration(),
        final(npc).stats == old(npc).stats,
        final(npc).move_to == old(npc).move_to,
        final(animation).wf(),
        started(final(animation), npc_animations.spec_get(old(npc).behavior.spec_motion()->0)),
{
    let duration: u64 = npc.behavior.duration();
    match npc.behavior.motion() {
        Some(motion) => {
            animation.start_animation(npc_animations.get(motion));
        },
        None => {},
    }
    npc.behavior = Behavior::Idle;
    npc.timer = Timer::from_millis(duration);
}

/// `component` plays `animation` from its first frame.
pub open spec fn started(component: &AnimationComponent, animation: &Animation) -> bool {
    component@ == Some(
        crate::animate::Playback {
            frames: animation.spec_frames(),
            timing: animation.spec_timing(),
            frame_idx: 0,
            remaining: animation.spec_timing(),
        },
    )
}

/// The quench is never negative after a decay step, whatever the stats were
/// and however long the step.
pub proof fn lemma_quench_never_negative(stats: Stats, delta: u64)
    ensures
        decayed(stats, delta).quench >= 0,
{
}

/// A rested patron never chooses to stay idle, and chooses to order exactly
/// when its quench is at or below the threshold.
pub proof fn lemma_next_action_is_a_change(stats: Stats)
    ensures
        next_action(stats) != Behavior::Idle,
        next_action(stats) is Request <==> stats.quench <= THIRST_THRESHOLD,
{
}

} // verus!
