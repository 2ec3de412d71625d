//! Animation kinds and their priority levels.
//!
//! Every animation kind maps to exactly one priority level and to a flag
//! saying whether the kind loops forever. Both are pure functions of the
//! kind, stated as spec functions and pinned by the contracts of the
//! executable queries.

use vstd::prelude::*;

verus! {

/// Ordered priority levels for animation requests.
/// `Background` is the lowest level, `Critical` the highest.
#[derive(Clone, Copy, Debug, PartialEq, Eq, Structural)]
pub enum AnimationPriority {
    Background,
    Idle,
    Mood,
    Action,
    Transition,
    Critical,
}

impl AnimationPriority {
    /// Ordinal rank of the level: `Background` is 0, `Critical` is 5.
    pub open spec fn spec_rank(self) -> u8 {
        match self {
            AnimationPriority::Background => 0,
            AnimationPriority::Idle => 1,
            AnimationPriority::Mood => 2,
            AnimationPriority::Action => 3,
            AnimationPriority::Transition => 4,
            AnimationPriority::Critical => 5,
        }
    }

    /// Ordinal rank of the level; a level outranks another exactly when
    /// its rank is greater.
    #[verifier::when_used_as_spec(spec_rank)]
    pub fn rank(self) -> (r: u8)
        ensures
            r == self.spec_rank(),
    {
        match self {
            AnimationPriority::Background => 0,
            AnimationPriority::Idle => 1,
            AnimationPriority::Mood => 2,
            AnimationPriority::Action => 3,
            AnimationPriority::Transition => 4,
            AnimationPriority::Critical => 5,
        }
    }
}

/// The closed set of animation kinds, partitioned into families:
/// idle loops, mood loops and reactions, one-shot actions, one-shot
/// transitions, and background effects.
#[derive(Clone, Copy, Debug, PartialEq, Eq, Hash, Structural)]
pub enum AnimationType {
    IdleNeutral,
    IdleHappy,
    IdleSad,
    IdleSleeping,

    MoodHappy,
    MoodExcited,
    MoodSad,
    MoodAngry,

    ActionEating,
    ActionPlaying,
    ActionCleaning,
    ActionSleeping,
    ActionMedicine,

    TransitionWakeUp,
    TransitionFallAsleep,
    TransitionEvolve,
    TransitionGetSick,
    TransitionHeal,
    TransitionDie,

    EffectHearts,
    EffectFood,
    EffectSparkles,
    EffectZzz,
    EffectSweat,
}

impl AnimationType {
    /// The priority level of this kind: effects are background, idles are
    /// idle, moods are mood, actions are action, transitions are transition.
    pub open spec fn spec_priority(&self) -> AnimationPriority {
        match self {
            AnimationType::EffectHearts
            | AnimationType::EffectFood
            | AnimationType::EffectSparkles
            | AnimationType::EffectZzz
            | AnimationType::EffectSweat => AnimationPriority::Background,
            AnimationType::IdleNeutral
            | AnimationType::IdleHappy
            | AnimationType::IdleSad
            | AnimationType::IdleSleeping => AnimationPriority::Idle,
            AnimationType::MoodHappy
            | AnimationType::MoodExcited
            | AnimationType::MoodSad
            | AnimationType::MoodAngry => AnimationPriority::Mood,
            AnimationType::ActionEating
            | AnimationType::ActionPlaying
            | AnimationType::ActionCleaning
            | AnimationType::ActionSleeping
            | AnimationType::ActionMedicine => AnimationPriority::Action,
            AnimationType::TransitionWakeUp
            | AnimationType::TransitionFallAsleep
            | AnimationType::TransitionEvolve
            | AnimationType::TransitionGetSick
            | AnimationType::TransitionHeal
            | AnimationType::TransitionDie => AnimationPriority::Transition,
        }
    }

    /// Whether this kind is meant to loop forever: true only for the idle
    /// family and for the happy and sad mood loops.
    pub open spec fn spec_is_infinite(&self) -> bool {
        match self {
            AnimationType::IdleNeutral
            | AnimationType::IdleHappy
            | AnimationType::IdleSad
            | AnimationType::IdleSleeping
            | AnimationType::MoodHappy
            | AnimationType::MoodSad => true,
            _ => false,
        }
    }

    /// Nominal duration of the kind in milliseconds, as advertised to
    /// collaborators; zero for the idle loops.
    pub open spec fn spec_duration_ms(&self) -> u64 {
        match self {
            AnimationType::IdleNeutral
            | AnimationType::IdleHappy
            | AnimationType::IdleSad
            | AnimationType::IdleSleeping => 0,
            AnimationType::ActionEating => 1500,
            AnimationType::ActionPlaying => 2000,
            AnimationType::ActionCleaning => 1000,
            AnimationType::ActionSleeping => 1000,
            AnimationType::ActionMedicine => 1000,
            AnimationType::TransitionWakeUp => 1000,
            AnimationType::TransitionFallAsleep => 1500,
            AnimationType::TransitionEvolve => 3000,
            AnimationType::TransitionGetSick => 1000,
            AnimationType::TransitionHeal => 1000,
            AnimationType::TransitionDie => 2000,
            AnimationType::EffectHearts
            | AnimationType::EffectFood
            | AnimationType::EffectSparkles
            | AnimationType::EffectZzz
            | AnimationType::EffectSweat => 2000,
            _ => 1000,
        }
    }

    /// The priority of this kind. The result depends on the kind alone.
    #[verifier::when_used_as_spec(spec_priority)]
    pub fn priority(&self) -> (p: AnimationPriority)
        ensures
            p == self.spec_priority(),
    {
        match self {
            AnimationType::EffectHearts
            | AnimationType::EffectFood
            | AnimationType::EffectSparkles
            | AnimationType::EffectZzz
            | AnimationType::EffectSweat => AnimationPriority::Background,
            AnimationType::IdleNeutral
            | AnimationType::IdleHappy
            | AnimationType::IdleSad
            | AnimationType::IdleSleeping => AnimationPriority::Idle,
            AnimationType::MoodHappy
            | AnimationType::MoodExcited
            | AnimationType::MoodSad
            | AnimationType::MoodAngry => AnimationPriority::Mood,
            AnimationType::ActionEating
            | AnimationType::ActionPlaying
            | AnimationType::ActionCleaning
            | AnimationType::ActionSleeping
            | AnimationType::ActionMedicine => AnimationPriority::Action,
            AnimationType::TransitionWakeUp
            | AnimationType::TransitionFallAsleep
            | AnimationType::TransitionEvolve
            | AnimationType::TransitionGetSick
            | AnimationType::TransitionHeal
            | AnimationType::TransitionDie => AnimationPriority::Transition,
        }
    }

    /// Whether this kind loops forever. The result depends on the kind alone.
    #[verifier::when_used_as_spec(spec_is_infinite)]
    pub fn is_infinite(&self) -> (b: bool)
        ensures
            b == self.spec_is_infinite(),
    {
        match self {
            AnimationType::IdleNeutral
            | AnimationType::IdleHappy
            | AnimationType::IdleSad
            | AnimationType::IdleSleeping
            | AnimationType::MoodHappy
            | AnimationType::MoodSad => true,
            _ => false,
        }
    }

    /// Nominal duration of the kind in milliseconds.
    #[verifier::when_used_as_spec(spec_duration_ms)]
    pub fn duration_ms(&self) -> (d: u64)
        ensures
            d == self.spec_duration_ms(),
    {
        match self {
            AnimationType::IdleNeutral
            | AnimationType::IdleHappy
            | AnimationType::IdleSad
            | AnimationType::IdleSleeping => 0,
            AnimationType::ActionEating => 1500,
            AnimationType::ActionPlaying => 2000,
            AnimationType::ActionCleaning => 1000,
            AnimationType::ActionSleeping => 1000,
            AnimationType::ActionMedicine => 1000,
            AnimationType::TransitionWakeUp => 1000,
            AnimationType::TransitionFallAsleep => 1500,
            AnimationType::TransitionEvolve => 3000,
            AnimationType::TransitionGetSick => 1000,
            AnimationType::TransitionHeal => 1000,
            AnimationType::TransitionDie => 2000,
            AnimationType::EffectHearts
            | AnimationType::EffectFood
            | AnimationType::EffectSparkles
            | AnimationType::EffectZzz
            | AnimationType::EffectSweat => 2000,
            _ => 1000,
        }
    }
}

} // verus!
