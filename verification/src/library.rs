//! The frame library: a closed, compiled-in mapping from animation kind
//! to its ordered frame sequence.
//!
//! Each sequence is built once and handed out as a shared, reference-
//! counted handle, so every active animation of the same kind reuses one
//! in-memory copy. Kinds without an authored sequence (the background
//! effects) fall back to a single placeholder frame.

use vstd::prelude::*;

use crate::frame::AnimationFrame;
use crate::frame::Color;
use crate::frame::FrameModel;
use crate::kinds::AnimationType;
use std::sync::Arc;

verus! {

/// The display durations, in milliseconds, of the frames authored for a
/// kind; kinds without an authored sequence get the single placeholder
/// frame and its default duration.
pub open spec fn frame_durations(kind: AnimationType) -> Seq<u64> {
    match kind {
        AnimationType::IdleNeutral => seq![500u64, 200u64, 500u64],
        AnimationType::IdleHappy => seq![400u64, 200u64, 400u64],
        AnimationType::IdleSad => seq![600u64, 600u64],
        AnimationType::IdleSleeping => seq![800u64],
        AnimationType::MoodHappy => seq![500u64, 500u64],
        AnimationType::MoodExcited => seq![150u64, 150u64],
        AnimationType::MoodSad => seq![600u64, 600u64],
        AnimationType::MoodAngry => seq![200u64, 200u64],
        AnimationType::ActionEating => seq![300u64, 300u64, 300u64, 300u64, 300u64],
        AnimationType::ActionPlaying => seq![200u64, 200u64, 200u64, 200u64, 200u64],
        AnimationType::ActionCleaning => seq![200u64, 200u64, 200u64, 200u64, 200u64],
        AnimationType::ActionSleeping => seq![400u64, 300u64, 300u64],
        AnimationType::ActionMedicine => seq![200u64, 200u64, 200u64, 400u64],
        AnimationType::TransitionWakeUp => seq![300u64, 300u64, 400u64],
        AnimationType::TransitionFallAsleep => seq![300u64, 300u64, 400u64],
        AnimationType::TransitionEvolve => seq![500u64, 500u64, 1000u64, 1000u64],
        AnimationType::TransitionGetSick => seq![300u64, 300u64, 400u64],
        AnimationType::TransitionHeal => seq![300u64, 300u64, 400u64],
        AnimationType::TransitionDie => seq![500u64, 500u64, 1000u64],
        AnimationType::EffectHearts
        | AnimationType::EffectFood
        | AnimationType::EffectSparkles
        | AnimationType::EffectZzz
        | AnimationType::EffectSweat => seq![100u64],
    }
}

/// The color override of frame `i` of a kind's sequence: only the
/// sleeping idle loop tints its art.
pub open spec fn frame_color_override(kind: AnimationType, i: int) -> Option<Color> {
    if kind == AnimationType::IdleSleeping && i == 0 {
        Some(Color::DarkGray)
    } else {
        None
    }
}

/// The frame models of an executable frame sequence.
pub open spec fn frames_view(s: Seq<AnimationFrame>) -> Seq<FrameModel> {
    s.map_values(|f: AnimationFrame| f@)
}

/// What the library promises of the sequence it hands out for a kind:
/// the authored frame count and per-frame durations and color overrides,
/// nonempty art on every frame, and no particle templates (none of the
/// compiled-in frames declares any).
pub open spec fn library_frames_ok(kind: AnimationType, s: Seq<FrameModel>) -> bool {
    &&& s.len() == frame_durations(kind).len()
    &&& forall|i: int|
        0 <= i < s.len() ==> {
            &&& (#[trigger] s[i]).duration_ms == frame_durations(kind)[i]
            &&& s[i].color_override == frame_color_override(kind, i)
            &&& s[i].particles.len() == 0
            &&& s[i].art.len() > 0
        }
}

/// The compiled-in frame library, built once at startup. Sequences are
/// shared handles; `load` never copies frame content.
pub struct FrameCache {
    idle_neutral: Arc<Vec<AnimationFrame>>,
    idle_happy: Arc<Vec<AnimationFrame>>,
    idle_sad: Arc<Vec<AnimationFrame>>,
    idle_sleeping: Arc<Vec<AnimationFrame>>,
    mood_happy: Arc<Vec<AnimationFrame>>,
    mood_excited: Arc<Vec<AnimationFrame>>,
    mood_sad: Arc<Vec<AnimationFrame>>,
    mood_angry: Arc<Vec<AnimationFrame>>,
    action_eating: Arc<Vec<AnimationFrame>>,
    action_playing: Arc<Vec<AnimationFrame>>,
    action_cleaning: Arc<Vec<AnimationFrame>>,
    action_sleeping: Arc<Vec<AnimationFrame>>,
    action_medicine: Arc<Vec<AnimationFrame>>,
    transition_wake_up: Arc<Vec<AnimationFrame>>,
    transition_fall_asleep: Arc<Vec<AnimationFrame>>,
    transition_evolve: Arc<Vec<AnimationFrame>>,
    transition_get_sick: Arc<Vec<AnimationFrame>>,
    transition_heal: Arc<Vec<AnimationFrame>>,
    transition_die: Arc<Vec<AnimationFrame>>,
    fallback: Arc<Vec<AnimationFrame>>,
}

/// Relies on std's `Arc::clone`: the returned handle refers to the same
/// shared frame sequence, so its value equals the argument's.
#[verifier::external_body]
fn share_frames(frames: &Arc<Vec<AnimationFrame>>) -> (r: Arc<Vec<AnimationFrame>>)
    ensures
        r == *frames,
{
    Arc::clone(frames)
}

/// Three art rows as owned strings.
fn rows3(a: &str, b: &str, c: &str) -> (v: Vec<String>)
    ensures
        v@.len() == 3,
{
    let mut v: Vec<String> = Vec::new();
    v.push(a.to_owned());
    v.push(b.to_owned());
    v.push(c.to_owned());
    v
}

/// Four art rows as owned strings.
fn rows4(a: &str, b: &str, c: &str, d: &str) -> (v: Vec<String>)
    ensures
        v@.len() == 4,
{
    let mut v: Vec<String> = Vec::new();
    v.push(a.to_owned());
    v.push(b.to_owned());
    v.push(c.to_owned());
    v.push(d.to_owned());
    v
}

/// A frame showing `art` for `ms` milliseconds, with no color override
/// and no particle templates.
fn frame(art: Vec<String>, ms: u64) -> (f: AnimationFrame)
    ensures
        f@.duration_ms == ms,
        f@.color_override == None::<Color>,
        f@.particles.len() == 0,
        f@.art.len() == art@.len(),
{
    AnimationFrame::new(art).with_duration(ms)
}

impl FrameCache {
    /// Whether every stored sequence is the authored one for its kind.
    pub closed spec fn wf(&self) -> bool {
        &&& library_frames_ok(AnimationType::IdleNeutral, frames_view(self.idle_neutral@))
        &&& library_frames_ok(AnimationType::IdleHappy, frames_view(self.idle_happy@))
        &&& library_frames_ok(AnimationType::IdleSad, frames_view(self.idle_sad@))
        &&& library_frames_ok(AnimationType::IdleSleeping, frames_view(self.idle_sleeping@))
        &&& library_frames_ok(AnimationType::MoodHappy, frames_view(self.mood_happy@))
        &&& library_frames_ok(AnimationType::MoodExcited, frames_view(self.mood_excited@))
        &&& library_frames_ok(AnimationType::MoodSad, frames_view(self.mood_sad@))
        &&& library_frames_ok(AnimationType::MoodAngry, frames_view(self.mood_angry@))
        &&& library_frames_ok(AnimationType::ActionEating, frames_view(self.action_eating@))
        &&& library_frames_ok(AnimationType::ActionPlaying, frames_view(self.action_playing@))
        &&& library_frames_ok(AnimationType::ActionCleaning, frames_view(self.action_cleaning@))
        &&& library_frames_ok(AnimationType::ActionSleeping, frames_view(self.action_sleeping@))
        &&& library_frames_ok(AnimationType::ActionMedicine, frames_view(self.action_medicine@))
        &&& library_frames_ok(AnimationType::TransitionWakeUp, frames_view(self.transition_wake_up@))
        &&& library_frames_ok(
            AnimationType::TransitionFallAsleep,
            frames_view(self.transition_fall_asleep@),
        )
        &&& library_frames_ok(AnimationType::TransitionEvolve, frames_view(self.transition_evolve@))
        &&& library_frames_ok(
            AnimationType::TransitionGetSick,
            frames_view(self.transition_get_sick@),
        )
        &&& library_frames_ok(AnimationType::TransitionHeal, frames_view(self.transition_heal@))
        &&& library_frames_ok(AnimationType::TransitionDie, frames_view(self.transition_die@))
        &&& library_frames_ok(AnimationType::EffectHearts, frames_view(self.fallback@))
    }

    /// Build the whole library.
    pub fn new() -> (cache: FrameCache)
        ensures
            cache.wf(),
    {
        FrameCache {
            idle_neutral: Arc::new(Self::idle_neutral_seq()),
            idle_happy: Arc::new(Self::idle_happy_seq()),
            idle_sad: Arc::new(Self::idle_sad_seq()),
            idle_sleeping: Arc::new(Self::idle_sleeping_seq()),
            mood_happy: Arc::new(Self::mood_happy_seq()),
            mood_excited: Arc::new(Self::mood_excited_seq()),
            mood_sad: Arc::new(Self::mood_sad_seq()),
            mood_angry: Arc::new(Self::mood_angry_seq()),
            action_eating: Arc::new(Self::action_eating_seq()),
            action_playing: Arc::new(Self::action_playing_seq()),
            action_cleaning: Arc::new(Self::action_cleaning_seq()),
            action_sleeping: Arc::new(Self::action_sleeping_seq()),
            action_medicine: Arc::new(Self::action_medicine_seq()),
            transition_wake_up: Arc::new(Self::transition_wake_up_seq()),
            transition_fall_asleep: Arc::new(Self::transition_fall_asleep_seq()),
            transition_evolve: Arc::new(Self::transition_evolve_seq()),
            transition_get_sick: Arc::new(Self::transition_get_sick_seq()),
            transition_heal: Arc::new(Self::transition_heal_seq()),
            transition_die: Arc::new(Self::transition_die_seq()),
            fallback: Arc::new(Self::fallback_seq()),
        }
    }

    /// The shared frame sequence for a kind. For the background effect
    /// kinds, which have no authored sequence, this is the placeholder
    /// sequence.
    pub fn load(&self, anim_type: AnimationType) -> (r: Arc<Vec<AnimationFrame>>)
        requires
            self.wf(),
        ensures
            library_frames_ok(anim_type, frames_view(r@)),
            r@.len() > 0,
    {
        let r = match anim_type {
            AnimationType::IdleNeutral => share_frames(&self.idle_neutral),
            AnimationType::IdleHappy => share_frames(&self.idle_happy),
            AnimationType::IdleSad => share_frames(&self.idle_sad),
            AnimationType::IdleSleeping => share_frames(&self.idle_sleeping),
            AnimationType::MoodHappy => share_frames(&self.mood_happy),
            AnimationType::MoodExcited => share_frames(&self.mood_excited),
            AnimationType::MoodSad => share_frames(&self.mood_sad),
            AnimationType::MoodAngry => share_frames(&self.mood_angry),
            AnimationType::ActionEating => share_frames(&self.action_eating),
            AnimationType::ActionPlaying => share_frames(&self.action_playing),
            AnimationType::ActionCleaning => share_frames(&self.action_cleaning),
            AnimationType::ActionSleeping => share_frames(&self.action_sleeping),
            AnimationType::ActionMedicine => share_frames(&self.action_medicine),
            AnimationType::TransitionWakeUp => share_frames(&self.transition_wake_up),
            AnimationType::TransitionFallAsleep => share_frames(&self.transition_fall_asleep),
            AnimationType::TransitionEvolve => share_frames(&self.transition_evolve),
            AnimationType::TransitionGetSick => share_frames(&self.transition_get_sick),
            AnimationType::TransitionHeal => share_frames(&self.transition_heal),
            AnimationType::TransitionDie => share_frames(&self.transition_die),
            AnimationType::EffectHearts
            | AnimationType::EffectFood
            | AnimationType::EffectSparkles
            | AnimationType::EffectZzz
            | AnimationType::EffectSweat => share_frames(&self.fallback),
        };
        r
    }

    fn idle_neutral_seq() -> (v: Vec<AnimationFrame>)
        ensures
            library_frames_ok(AnimationType::IdleNeutral, frames_view(v@)),
    {
        let mut v: Vec<AnimationFrame> = Vec::new();
        v.push(frame(rows3("  /\\_/\\  ", " ( o.o ) ", "  > ^ <  "), 500));
        v.push(frame(rows3("  /\\_/\\  ", " ( -.- ) ", "  > ^ <  "), 200));
        v.push(frame(rows3("  /\\_/\\  ", " ( o.o ) ", "  > ^ <  "), 500));
        v
    }

    fn idle_happy_seq() -> (v: Vec<AnimationFrame>)
        ensures
            library_frames_ok(AnimationType::IdleHappy, frames_view(v@)),
    {
        let mut v: Vec<AnimationFrame> = Vec::new();
        v.push(frame(rows3("  /\\_/\\  ", " ( ^.^ ) ", "  > ^ <  "), 400));
        v.push(frame(rows3("  \\   /  ", "  /\\_/\\  ", " ( ^.^ ) "), 200));
        v.push(frame(rows3("  /\\_/\\  ", " ( ^.^ ) ", "  > ^ <  "), 400));
        v
    }

    fn idle_sad_seq() -> (v: Vec<AnimationFrame>)
        ensures
            library_frames_ok(AnimationType::IdleSad, frames_view(v@)),
    {
        let mut v: Vec<AnimationFrame> = Vec::new();
        v.push(frame(rows3("  /\\_/\\  ", " ( ;.; ) ", "  > ~ <  "), 600));
        v.push(frame(rows3("  /\\_/\\  ", " ( ;.; ) ", "  > ~ <  "), 600));
        v
    }

    fn idle_sleeping_seq() -> (v: Vec<AnimationFrame>)
        ensures
            library_frames_ok(AnimationType::IdleSleeping, frames_view(v@)),
    {
        let mut v: Vec<AnimationFrame> = Vec::new();
        v.push(
            frame(rows3("  /\\_/\\  ", " ( -.- ) ", "  > ^ <  "), 800).with_color(Color::DarkGray),
        );
        v
    }

    fn mood_happy_seq() -> (v: Vec<AnimationFrame>)
        ensures
            library_frames_ok(AnimationType::MoodHappy, frames_view(v@)),
    {
        let mut v: Vec<AnimationFrame> = Vec::new();
        v.push(frame(rows4("  /\\_/\\  ", " ( ^.^ )  ", "  > ^ <  ", " *   *  "), 500));
        v.push(frame(rows3("  /\\_/\\  ", " ( ^.^ )* ", "  > ^ <  "), 500));
        v
    }

    fn mood_excited_seq() -> (v: Vec<AnimationFrame>)
        ensures
            library_frames_ok(AnimationType::MoodExcited, frames_view(v@)),
    {
        let mut v: Vec<AnimationFrame> = Vec::new();
        v.push(frame(rows3("  /\\_/\\  ", " ( *.* )  ", "  > ^ <  "), 150));
        v.push(frame(rows3("*  /\\_/\\*  ", " ( *.* )  ", "  > ^ <  "), 150));
        v
    }

    fn mood_sad_seq() -> (v: Vec<AnimationFrame>)
        ensures
            library_frames_ok(AnimationType::MoodSad, frames_view(v@)),
    {
        let mut v: Vec<AnimationFrame> = Vec::new();
        v.push(frame(rows4("  /\\_/\\  ", " ( ;.; )  ", "  > ~ <  ", " ~   ~  "), 600));
        v.push(frame(rows3("  /\\_/\\  ", " ( ;.; )~ ", "  > ~ <  "), 600));
        v
    }

    fn mood_angry_seq() -> (v: Vec<AnimationFrame>)
        ensures
            library_frames_ok(AnimationType::MoodAngry, frames_view(v@)),
    {
        let mut v: Vec<AnimationFrame> = Vec::new();
        v.push(frame(rows3("  /\\_/\\  ", " ( >.< )  ", "  > ^ <  "), 200));
        v.push(frame(rows3("  /\\_/\\  ", " ( >.< )  ", "  > n <  "), 200));
        v
    }

    fn action_eating_seq() -> (v: Vec<AnimationFrame>)
        ensures
            library_frames_ok(AnimationType::ActionEating, frames_view(v@)),
    {
        let mut v: Vec<AnimationFrame> = Vec::new();
        v.push(frame(rows3("  /\\_/\\  #", " ( o.o )  ", "  > ^ <  "), 300));
        v.push(frame(rows3("  /\\_/#  ", " ( Oo  )  ", "  > ^ <  "), 300));
        v.push(frame(rows3("  /\\_/\\  ", " (  -  )* ", "  > ^ <  "), 300));
        v.push(frame(rows3("  /\\_/\\  ", " ( ^.^ )* ", "  > ^ <  "), 300));
        v.push(frame(rows3("  /\\_/\\  ", " ( ^.^ )  ", "  > ^ <  "), 300));
        v
    }

    fn action_playing_seq() -> (v: Vec<AnimationFrame>)
        ensures
            library_frames_ok(AnimationType::ActionPlaying, frames_view(v@)),
    {
        let mut v: Vec<AnimationFrame> = Vec::new();
        v.push(frame(rows3("  /\\_/\\  ", " ( ^.^ )  ", " /  >  \\ "), 200));
        v.push(frame(rows3("   /\\_/\\  ", "  ( ^.^ )  ", "   >  <   "), 200));
        v.push(frame(rows3("  /\\_/\\  ", " ( ^.^ )  ", " \\  <  / "), 200));
        v.push(frame(rows3(" /\\_/\\   ", "( ^.^ )   ", "  < >    "), 200));
        v.push(frame(rows3("  /\\_/\\  ", " ( ^.^ )  ", "  > ^ <  "), 200));
        v
    }

    fn action_cleaning_seq() -> (v: Vec<AnimationFrame>)
        ensures
            library_frames_ok(AnimationType::ActionCleaning, frames_view(v@)),
    {
        let mut v: Vec<AnimationFrame> = Vec::new();
        v.push(frame(rows3("  /\\_/\\  ", " ( o.o )  ", "  > ^ <  "), 200));
        v.push(frame(rows3("  /\\_/\\ * ", " ( ^.^ )  ", "  > ^ <  "), 200));
        v.push(frame(rows3("* /\\_/\\ *", " ( ^.^ )  ", "  > ^ <  "), 200));
        v.push(frame(rows3("  /\\_/\\  ", "* ( ^.^ )*", "  > ^ <  "), 200));
        v.push(frame(rows3("  /\\_/\\  ", " ( ^.^ )  ", "  > ^ <  "), 200));
        v
    }

    fn action_sleeping_seq() -> (v: Vec<AnimationFrame>)
        ensures
            library_frames_ok(AnimationType::ActionSleeping, frames_view(v@)),
    {
        let mut v: Vec<AnimationFrame> = Vec::new();
        v.push(frame(rows4("  /\\_/\\  ", " ( -.- )  ", "  > ^ <  ", "  zZz    "), 400));
        v.push(frame(rows4("  /\\_/\\  ", " ( -.- )  ", "  > ^ <  ", "   Zz    "), 300));
        v.push(frame(rows4("  /\\_/\\  ", " ( -.- )  ", "  > ^ <  ", "    z    "), 300));
        v
    }

    fn action_medicine_seq() -> (v: Vec<AnimationFrame>)
        ensures
            library_frames_ok(AnimationType::ActionMedicine, frames_view(v@)),
    {
        let mut v: Vec<AnimationFrame> = Vec::new();
        v.push(frame(rows3("  /\\_/\\  ", " ( ;.; )  ", "  > ^ <  "), 200));
        v.push(frame(rows3("  /\\_/\\ + ", " ( O.O )  ", "  > ^ <  "), 200));
        v.push(frame(rows3("  /\\_/\\  ", " ( ^.^ )* ", "  > ^ <  "), 200));
        v.push(frame(rows3("  /\\_/\\  ", " ( ^.^ )  ", "  > ^ <  "), 400));
        v
    }

    fn transition_wake_up_seq() -> (v: Vec<AnimationFrame>)
        ensures
            library_frames_ok(AnimationType::TransitionWakeUp, frames_view(v@)),
    {
        let mut v: Vec<AnimationFrame> = Vec::new();
        v.push(frame(rows3("  /\\_/\\  ", " ( -.- )  ", "  > ^ <  "), 300));
        v.push(frame(rows3("  /\\_/\\  ", " ( o.o )  ", "  > ^ <  "), 300));
        v.push(frame(rows3("  /\\_/\\  ", " ( ^.^ )  ", "  > ^ <  "), 400));
        v
    }

    fn transition_fall_asleep_seq() -> (v: Vec<AnimationFrame>)
        ensures
            library_frames_ok(AnimationType::TransitionFallAsleep, frames_view(v@)),
    {
        let mut v: Vec<AnimationFrame> = Vec::new();
        v.push(frame(rows3("  /\\_/\\  ", " ( o.o )  ", "  > ^ <  "), 300));
        v.push(frame(rows3("  /\\_/\\  ", " ( -.- )  ", "  > ^ <  "), 300));
        v.push(frame(rows4("  /\\_/\\  ", " ( -.- )  ", "  > ~ <  ", "  zZz    "), 400));
        v
    }

    fn transition_evolve_seq() -> (v: Vec<AnimationFrame>)
        ensures
            library_frames_ok(AnimationType::TransitionEvolve, frames_view(v@)),
    {
        let mut v: Vec<AnimationFrame> = Vec::new();
        v.push(frame(rows3("  /\\_/\\  ", " ( o.o )  ", "  > ^ <  "), 500));
        v.push(frame(rows3(" */\\_/\\*  ", " *( o.o )* ", " * > ^ < * "), 500));
        v.push(frame(rows3("#*/\\_/\\*# ", "#*( o.o )*#", "#* > ^ < *#"), 1000));
        v.push(frame(rows3(" *#/\\_/\\#* ", "#*( ^.^ )*#", " *# > ^ < #*"), 1000));
        v
    }

    fn transition_get_sick_seq() -> (v: Vec<AnimationFrame>)
        ensures
            library_frames_ok(AnimationType::TransitionGetSick, frames_view(v@)),
    {
        let mut v: Vec<AnimationFrame> = Vec::new();
        v.push(frame(rows3("  /\\_/\\  ", " ( o.o )  ", "  > ^ <  "), 300));
        v.push(frame(rows3("  /\\_/\\ ~ ", " ( ;.; )  ", "  > ~ <  "), 300));
        v.push(frame(rows3("  /\\_/\\ ~ ", " ( +.+ )  ", "  > ~ <  "), 400));
        v
    }

    fn transition_heal_seq() -> (v: Vec<AnimationFrame>)
        ensures
            library_frames_ok(AnimationType::TransitionHeal, frames_view(v@)),
    {
        let mut v: Vec<AnimationFrame> = Vec::new();
        v.push(frame(rows3("  /\\_/\\ + ", " ( ;.; )  ", "  > ~ <  "), 300));
        v.push(frame(rows3("  /\\_/\\ *  ", " ( ^.^ )  ", "  > ^ <  "), 300));
        v.push(frame(rows3("  /\\_/\\  ", " ( ^.^ )  ", "  > ^ <  "), 400));
        v
    }

    fn transition_die_seq() -> (v: Vec<AnimationFrame>)
        ensures
            library_frames_ok(AnimationType::TransitionDie, frames_view(v@)),
    {
        let mut v: Vec<AnimationFrame> = Vec::new();
        v.push(frame(rows3("  /\\_/\\  ", " ( x.x )  ", "  > ^ <  "), 500));
        v.push(frame(rows3("  /\\_/\\  ", " ( -.- )  ", "  > x <  "), 500));
        v.push(frame(rows3("   x_x    ", "   ---    ", "          "), 1000));
        v
    }

    /// The placeholder shown for a kind with no authored sequence.
    fn fallback_seq() -> (v: Vec<AnimationFrame>)
        ensures
            library_frames_ok(AnimationType::EffectHearts, frames_view(v@)),
    {
        let mut v: Vec<AnimationFrame> = Vec::new();
        v.push(frame(rows3("  /\\_/\\  ", " ( ?.? )  ", "  > ^ <  "), 100));
        v
    }
}

} // verus!
